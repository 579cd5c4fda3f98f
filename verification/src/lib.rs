//! An event-driven bot core: interactions arriving from a gateway are
//! routed by command name to a handler, and every handler returns a
//! structured response. One handler proxies a seasonal leaderboard
//! through a time-bounded cache, ranks its members, and renders a
//! textual report; another toggles self-service roles against a fixed
//! allow-list. Dispatch, cache policy, ranking, rendering and the
//! role policy are verified; the transport around them performs the
//! I/O the handlers decide on.
pub mod advent;
pub mod cache;
pub mod config;
pub mod interactions;
pub mod registry;
pub mod router;
pub mod text;
pub mod time;

use vstd::prelude::*;

verus! {

/// The leaderboard is only meaningful during one calendar month of the
/// year; every fetch decision starts from this predicate.
pub open spec fn spec_in_season(month: u32) -> bool {
    month == 12
}

/// Season policy: the month in which the leaderboard is active.
pub fn in_season(month: u32) -> (r: bool)
    ensures
        r == spec_in_season(month),
{
    month == 12
}

} // verus!
