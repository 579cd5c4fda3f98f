//! Time-bounded leaderboard cache: holds the last-fetched payload and
//! its expiry instant, decides "serve cached" vs "refetch", and applies
//! the outcome of a refresh. The payload/expiry pair is always replaced
//! together; a failed refresh leaves both untouched.
use crate::spec_in_season;
use crate::in_season;
use vstd::prelude::*;

verus! {

/// Seconds a fetched payload stays fresh.
pub const TTL_SECONDS: u64 = 900;

/// Why an upstream fetch did not produce a payload.
#[derive(Clone, Copy, PartialEq, Eq, Structural, Debug)]
pub enum FetchFailure {
    Unreachable,
    Status(u16),
    TimedOut,
}

/// Why `get_or_refresh` did not return a payload.
#[derive(Clone, Copy, PartialEq, Eq, Structural, Debug)]
pub enum AdventError {
    OutOfSeason,
    Fetch(FetchFailure),
}

/// What a lookup decided: serve the held payload, refetch, or refuse
/// because the leaderboard is out of season.
pub enum FetchPlan {
    OutOfSeason,
    Cached(String),
    Refresh,
}

/// The cache state: a payload and its expiry instant, both set together
/// by a refresh, both absent before the first one.
pub struct AdventCache {
    payload: Option<String>,
    expires_at: Option<u64>,
}

/// The state a successful refresh at `now` with payload `p` leaves
/// behind: the new payload paired with the new expiry, as a unit.
pub open spec fn just_refreshed(c: AdventCache, now: u64, p: Seq<char>) -> bool {
    c.spec_payload() == Some(p) && c.spec_expires_at() == Some((now + TTL_SECONDS) as u64)
}

impl AdventCache {
    /// The held payload, if any.
    pub closed spec fn spec_payload(&self) -> Option<Seq<char>> {
        match self.payload {
            Some(p) => Some(p@),
            None => None,
        }
    }

    /// The held expiry instant, if any.
    pub closed spec fn spec_expires_at(&self) -> Option<u64> {
        self.expires_at
    }

    /// Payload and expiry are present or absent together.
    pub open spec fn wf(&self) -> bool {
        self.spec_payload() is Some <==> self.spec_expires_at() is Some
    }

    /// The held payload has not yet expired at `now`.
    pub open spec fn is_fresh(&self, now: u64) -> bool {
        match self.spec_expires_at() {
            Some(e) => now < e,
            None => false,
        }
    }

    /// An empty cache: no payload, no expiry.
    pub fn new() -> (c: AdventCache)
        ensures
            c.spec_payload() is None,
            c.spec_expires_at() is None,
            c.wf(),
    {
        AdventCache { payload: None, expires_at: None }
    }

    /// The held payload regardless of freshness; after a failed refresh
    /// the caller decides whether to serve this stale value.
    pub fn cached_payload(&self) -> (r: Option<String>)
        ensures
            match r {
                Some(p) => self.spec_payload() == Some(p@),
                None => self.spec_payload() is None,
            },
    {
        match &self.payload {
            Some(p) => Some(p.clone()),
            None => None,
        }
    }

    /// The held expiry instant, if any.
    pub fn expires_at(&self) -> (r: Option<u64>)
        ensures
            r == self.spec_expires_at(),
    {
        self.expires_at
    }

    /// Decides what a leaderboard access at `now` in `month` must do.
    /// Out of season nothing is fetched; a fresh payload is served
    /// unchanged; otherwise a refresh is required.
    pub fn plan(&self, now: u64, month: u32) -> (p: FetchPlan)
        requires
            self.wf(),
        ensures
            !spec_in_season(month) ==> p is OutOfSeason,
            spec_in_season(month) && self.is_fresh(now) ==> (p matches FetchPlan::Cached(s)
                && Some(s@) == self.spec_payload()),
            spec_in_season(month) && !self.is_fresh(now) ==> p is Refresh,
    {
        if !in_season(month) {
            FetchPlan::OutOfSeason
        } else {
            let fresh = match self.expires_at {
                Some(e) => now < e,
                None => false,
            };
            if fresh {
                match &self.payload {
                    Some(p) => FetchPlan::Cached(p.clone()),
                    None => {
                        proof {
                            assert(false);
                        }
                        FetchPlan::Refresh
                    },
                }
            } else {
                FetchPlan::Refresh
            }
        }
    }

    /// The centralized season-and-cache policy, from the wall-clock
    /// instant alone: out of the active month nothing is fetched and
    /// `OutOfSeason` is decided; otherwise the cache decides hit versus
    /// refresh exactly as `plan` does.
    pub fn plan_at(&self, ts: i64) -> (p: FetchPlan)
        requires
            self.wf(),
            0 <= ts < crate::time::MAX_TIMESTAMP,
        ensures
            crate::time::month_of(ts as int) != 12 ==> p is OutOfSeason,
            crate::time::month_of(ts as int) == 12 && self.is_fresh(ts as u64) ==> (
            p matches FetchPlan::Cached(s) && Some(s@) == self.spec_payload()),
            crate::time::month_of(ts as int) == 12 && !self.is_fresh(ts as u64) ==> p is Refresh,
    {
        let ym = crate::time::utc_year_month(ts);
        self.plan(ts as u64, ym.1)
    }

    /// Replaces the payload and its expiry atomically as a unit; the new
    /// expiry lies `TTL_SECONDS` after the refresh instant.
    pub fn store(&mut self, now: u64, payload: String)
        requires
            now + TTL_SECONDS <= u64::MAX,
        ensures
            just_refreshed(*final(self), now, payload@),
            final(self).wf(),
    {
        self.payload = Some(payload);
        self.expires_at = Some(now + TTL_SECONDS);
    }

    /// Applies the outcome of an upstream fetch: success replaces the
    /// held pair and returns the new payload; failure leaves the cache
    /// unchanged (stale payload and expiry preserved) and propagates the
    /// error to the caller.
    pub fn finish_refresh(&mut self, now: u64, fetched: Result<String, FetchFailure>) -> (r: Result<
        String,
        FetchFailure,
    >)
        requires
            old(self).wf(),
            now + TTL_SECONDS <= u64::MAX,
        ensures
            final(self).wf(),
            match fetched {
                Ok(p) => (r matches Ok(q) && q@ == p@) && just_refreshed(*final(self), now, p@),
                Err(e) => (r matches Err(e2) && e2 == e) && *final(self) == *old(self),
            },
    {
        match fetched {
            Ok(p) => {
                let q = p.clone();
                self.store(now, p);
                Ok(q)
            },
            Err(e) => Err(e),
        }
    }

    /// The whole cache contract in one step: serve the fresh payload
    /// without calling `fetch`; out of season, refuse without calling
    /// `fetch`; otherwise call `fetch` once and apply its outcome.
    pub fn get_or_refresh<F: FnOnce(u64) -> Result<String, FetchFailure>>(
        &mut self,
        now: u64,
        month: u32,
        fetch: F,
    ) -> (r: Result<String, AdventError>)
        requires
            old(self).wf(),
            now + TTL_SECONDS <= u64::MAX,
            call_requires(fetch, (now,)),
        ensures
            final(self).wf(),
            !spec_in_season(month) ==> (r matches Err(AdventError::OutOfSeason) && *final(self)
                == *old(self)),
            spec_in_season(month) && old(self).is_fresh(now) ==> (*final(self) == *old(self) && (
            r matches Ok(p) && Some(p@) == old(self).spec_payload())),
            spec_in_season(month) && !old(self).is_fresh(now) ==> match r {
                Ok(p) => just_refreshed(*final(self), now, p@) && (exists|fp: String|
                    call_ensures(fetch, (now,), Ok(fp)) && fp@ == p@),
                Err(e) => e matches AdventError::Fetch(f) && call_ensures(fetch, (now,), Err(f))
                    && *final(self) == *old(self),
            },
    {
        match self.plan(now, month) {
            FetchPlan::OutOfSeason => Err(AdventError::OutOfSeason),
            FetchPlan::Cached(p) => Ok(p),
            FetchPlan::Refresh => {
                let fetched = fetch(now);
                match self.finish_refresh(now, fetched) {
                    Ok(p) => Ok(p),
                    Err(e) => Err(AdventError::Fetch(e)),
                }
            },
        }
    }
}

/// Within one TTL window after a successful refresh, a later sequential
/// lookup is a cache hit and serves exactly the payload that the one
/// fetch stored: `get_or_refresh` issues at most one upstream fetch per
/// TTL window under sequential access.
pub proof fn lemma_no_refetch_within_ttl(c: AdventCache, now0: u64, p: Seq<char>, now1: u64)
    requires
        just_refreshed(c, now0, p),
        now0 + TTL_SECONDS <= u64::MAX,
        now1 < now0 + TTL_SECONDS,
    ensures
        c.wf(),
        c.is_fresh(now1),
        c.spec_payload() == Some(p),
{
}

/// The CacheEntry invariant: an expiry instant, once set by a refresh,
/// lies at or after the instant of the refresh that produced it.
pub proof fn lemma_expiry_not_before_refresh(c: AdventCache, now: u64, p: Seq<char>)
    requires
        just_refreshed(c, now, p),
        now + TTL_SECONDS <= u64::MAX,
    ensures
        c.spec_expires_at() matches Some(e) && e >= now,
{
}

} // verus!
