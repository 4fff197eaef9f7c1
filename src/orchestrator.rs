//! Cache-aside orchestration: serve a live entry, otherwise compute, store a
//! success exactly once and hand back the outcome. Failures are never stored.

use vstd::prelude::*;
use crate::error::CoreError;
use crate::store::{CacheStore, Stored, served, written};

verus! {

/// The store contents after a compute for `key` at `now` ended with `outcome`:
/// a success is written with `ttl`, a failure leaves the store as it was.
pub open spec fn after_compute(
    m: Map<Seq<char>, Stored>,
    key: Seq<char>,
    ttl: int,
    now: int,
    outcome: Result<Vec<u8>, CoreError>,
) -> Map<Seq<char>, Stored> {
    match outcome {
        Ok(p) => written(m, key, p@, ttl, now),
        Err(_) => m,
    }
}

/// Seconds from `now` until the upstream expiry `until_millis` (Unix
/// milliseconds): none once it has passed, and at most `u64::MAX`.
pub open spec fn ttl_until_of(until_millis: int, now: int) -> int {
    let d = until_millis / 1000 - now;
    if d <= 0 {
        0
    } else if d > u64::MAX {
        u64::MAX as int
    } else {
        d
    }
}

/// The time to live of an entry that must expire with an upstream response
/// cached until `until_millis`.
pub fn ttl_until(until_millis: u128, now: u64) -> (r: u64)
    ensures
        r == ttl_until_of(until_millis as int, now as int),
{
    let until = until_millis / 1000;
    if until <= now as u128 {
        0
    } else if until - now as u128 > u64::MAX as u128 {
        u64::MAX
    } else {
        (until - now as u128) as u64
    }
}

/// First half of a cache-aside request: the cached payload for `key` at
/// `now`, or `None` when the caller must compute it.
pub fn lookup(store: &CacheStore, key: &String, now: u64) -> (r: Option<Vec<u8>>)
    ensures
        match r {
            Some(p) => served(store.view(), key@, now as int) == Some(p@),
            None => served(store.view(), key@, now as int) == None::<Seq<u8>>,
        },
{
    match store.get(key, now) {
        Some(p) => Some(p.clone()),
        None => None,
    }
}

/// Second half of a cache-aside request: stores a successful compute under
/// `key` for `ttl` and returns it; returns a failure unchanged without
/// touching the store.
pub fn settle(
    store: &mut CacheStore,
    key: String,
    ttl: u64,
    now: u64,
    outcome: Result<Vec<u8>, CoreError>,
) -> (r: Result<Vec<u8>, CoreError>)
    ensures
        r == outcome,
        final(store).view() == after_compute(old(store).view(), key@, ttl as int, now as int, outcome),
{
    match outcome {
        Ok(p) => {
            let stored = p.clone();
            proof {
                assert(stored@ =~= p@);
            }
            store.put(key, stored, ttl, now);
            Ok(p)
        },
        Err(e) => Err(e),
    }
}

/// Serves `key` from the store when a live entry exists at `now`; otherwise
/// calls `compute` once, stores its success for `ttl`, and returns its outcome.
pub fn get_or_compute<F>(
    store: &mut CacheStore,
    key: String,
    ttl: u64,
    now: u64,
    compute: F,
) -> (r: Result<Vec<u8>, CoreError>) where F: FnOnce() -> Result<Vec<u8>, CoreError>
    requires
        compute.requires(()),
    ensures
        match served(old(store).view(), key@, now as int) {
            Some(p) => r matches Ok(q) && q@ == p && final(store).view() == old(store).view(),
            None => compute.ensures((), r) && final(store).view() == after_compute(
                old(store).view(),
                key@,
                ttl as int,
                now as int,
                r,
            ),
        },
{
    match lookup(store, &key, now) {
        Some(p) => Ok(p),
        None => {
            let outcome = compute();
            settle(store, key, ttl, now, outcome)
        },
    }
}

/// After a miss on `key` whose compute returned `payload`, every read of
/// `key` at a time `t` from the write until the time to live has elapsed is
/// a hit with that payload, so a later request does not compute again.
pub proof fn lemma_compute_once_then_served(
    m: Map<Seq<char>, Stored>,
    key: Seq<char>,
    ttl: int,
    now: int,
    payload: Vec<u8>,
    t: int,
)
    requires
        served(m, key, now) is None,
        now <= t <= now + ttl,
    ensures
        served(after_compute(m, key, ttl, now, Ok(payload)), key, t) == Some(payload@),
{
}

/// A failed compute stores nothing: a later request on the same key is still
/// a miss, and when its compute succeeds the payload is stored and served.
pub proof fn lemma_failure_does_not_poison(
    m: Map<Seq<char>, Stored>,
    key: Seq<char>,
    ttl: int,
    now: int,
    failure: CoreError,
    later: int,
    payload: Vec<u8>,
    t: int,
)
    requires
        served(m, key, now) is None,
        now <= later,
        later <= t <= later + ttl,
    ensures
        after_compute(m, key, ttl, now, Err(failure)) == m,
        served(after_compute(m, key, ttl, now, Err(failure)), key, later) is None,
        served(
            after_compute(after_compute(m, key, ttl, now, Err(failure)), key, ttl, later, Ok(payload)),
            key,
            t,
        ) == Some(payload@),
{
}

} // verus!
