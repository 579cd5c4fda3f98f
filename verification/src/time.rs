//! Calendar facts about a Unix timestamp, computed by chrono. The civil
//! year and month of an instant, and its RFC 3339 rendering, are pure
//! functions of the timestamp alone; their values are named here and
//! the library's season policy is stated over those names.
use vstd::prelude::*;

verus! {

/// Largest timestamp (exclusive) the wrappers accept: the first instant
/// of year 10000, comfortably inside chrono's range.
pub const MAX_TIMESTAMP: i64 = 253_402_300_800;

/// The civil month (1..=12, UTC) of the instant `ts` seconds after the
/// Unix epoch.
pub uninterp spec fn month_of(ts: int) -> int;

/// The civil year (UTC) of the instant `ts` seconds after the Unix
/// epoch.
pub uninterp spec fn year_of(ts: int) -> int;

/// The RFC 3339 rendering (UTC) of the instant `ts` seconds after the
/// Unix epoch.
pub uninterp spec fn rfc3339_of(ts: int) -> Seq<char>;

/// Relies on chrono's `DateTime::<Utc>::from_timestamp` (in range, never
/// `None` here) and `Datelike::{year, month}`: the civil year and month
/// of `ts`, with the month between 1 and 12.
#[verifier::external_body]
pub fn utc_year_month(ts: i64) -> (r: (i32, u32))
    requires
        0 <= ts < MAX_TIMESTAMP,
    ensures
        r.0 == year_of(ts as int),
        r.1 == month_of(ts as int),
        1 <= r.1 <= 12,
{
    let dt = chrono::DateTime::<chrono::Utc>::from_timestamp(ts, 0).unwrap();
    (chrono::Datelike::year(&dt), chrono::Datelike::month(&dt))
}

/// Relies on chrono's `DateTime::<Utc>::from_timestamp` (in range, never
/// `None` here) and `DateTime::to_rfc3339`: the RFC 3339 form of `ts`,
/// a function of the timestamp alone.
#[verifier::external_body]
pub fn rfc3339_utc(ts: i64) -> (r: String)
    requires
        0 <= ts < MAX_TIMESTAMP,
    ensures
        r@ == rfc3339_of(ts as int),
{
    chrono::DateTime::<chrono::Utc>::from_timestamp(ts, 0).unwrap().to_rfc3339()
}

} // verus!
