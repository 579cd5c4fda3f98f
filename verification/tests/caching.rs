use analogue::cache::{AdventCache, AdventError, FetchFailure, FetchPlan};

const DECEMBER: u32 = 12;
const NOVEMBER: u32 = 11;

#[test]
fn two_calls_within_ttl_fetch_once() {
    let mut cache = AdventCache::new();
    let mut fetches = 0;
    let r1 = cache.get_or_refresh(1000, DECEMBER, |_now| {
        fetches += 1;
        Ok("payload-one".to_string())
    });
    assert_eq!(r1.unwrap(), "payload-one");
    let r2 = cache.get_or_refresh(1001, DECEMBER, |_now| {
        fetches += 1;
        Ok("payload-two".to_string())
    });
    assert_eq!(r2.unwrap(), "payload-one");
    assert_eq!(fetches, 1);
}

#[test]
fn expired_entry_is_refetched() {
    let mut cache = AdventCache::new();
    let mut fetches = 0;
    let _ = cache.get_or_refresh(1000, DECEMBER, |_now| {
        fetches += 1;
        Ok("old".to_string())
    });
    // 900 seconds later the entry has expired: a second fetch happens.
    let r = cache.get_or_refresh(1900, DECEMBER, |_now| {
        fetches += 1;
        Ok("new".to_string())
    });
    assert_eq!(r.unwrap(), "new");
    assert_eq!(fetches, 2);
}

#[test]
fn out_of_season_never_fetches() {
    let mut cache = AdventCache::new();
    let mut fetches = 0;
    let r = cache.get_or_refresh(1000, NOVEMBER, |_now| {
        fetches += 1;
        Ok("never".to_string())
    });
    assert_eq!(r, Err(AdventError::OutOfSeason));
    assert_eq!(fetches, 0);
    assert_eq!(cache.cached_payload(), None);
}

#[test]
fn refresh_replaces_payload_and_expiry_together() {
    let mut cache = AdventCache::new();
    let r = cache.finish_refresh(1000, Ok("fresh".to_string()));
    assert_eq!(r.unwrap(), "fresh");
    assert_eq!(cache.cached_payload(), Some("fresh".to_string()));
    assert_eq!(cache.expires_at(), Some(1900));
}

#[test]
fn failed_refresh_preserves_stale_state() {
    let mut cache = AdventCache::new();
    let _ = cache.finish_refresh(1000, Ok("stale".to_string()));
    let r = cache.finish_refresh(2000, Err(FetchFailure::Unreachable));
    assert_eq!(r, Err(FetchFailure::Unreachable));
    assert_eq!(cache.cached_payload(), Some("stale".to_string()));
    assert_eq!(cache.expires_at(), Some(1900));
}

#[test]
fn fetch_failure_surfaces_to_caller() {
    let mut cache = AdventCache::new();
    let r = cache.get_or_refresh(1000, DECEMBER, |_now| Err(FetchFailure::TimedOut));
    assert_eq!(r, Err(AdventError::Fetch(FetchFailure::TimedOut)));
    assert_eq!(cache.cached_payload(), None);
    let r2 = cache.get_or_refresh(1000, DECEMBER, |_now| Err(FetchFailure::Status(500)));
    assert_eq!(r2, Err(AdventError::Fetch(FetchFailure::Status(500))));
}

#[test]
fn plan_serves_fresh_entry_unchanged() {
    let mut cache = AdventCache::new();
    cache.store(1000, "held".to_string());
    match cache.plan(1500, DECEMBER) {
        FetchPlan::Cached(p) => assert_eq!(p, "held"),
        _ => panic!("expected a cache hit"),
    }
    match cache.plan(1900, DECEMBER) {
        FetchPlan::Refresh => {}
        _ => panic!("expected a refresh at expiry"),
    }
}

#[test]
fn plan_at_uses_the_civil_month() {
    let cache = AdventCache::new();
    // 2023-12-01T00:00:00Z: in season, empty cache, so a refresh.
    match cache.plan_at(1701388800) {
        FetchPlan::Refresh => {}
        _ => panic!("December must reach the cache"),
    }
    // 2023-11-14T22:13:20Z: out of season, no fetch.
    match cache.plan_at(1700000000) {
        FetchPlan::OutOfSeason => {}
        _ => panic!("November must be out of season"),
    }
}
