use std::cell::Cell;
use taka_the_discord_bot_api::error::CoreError;
use taka_the_discord_bot_api::orchestrator::{get_or_compute, lookup, settle, ttl_until};
use taka_the_discord_bot_api::store::CacheStore;

#[test]
fn miss_computes_once_then_hits_until_expiry() {
    let calls = Cell::new(0);
    let mut store = CacheStore::new();
    let key = "teto_image_cache/osk".to_string();
    let f = || {
        calls.set(calls.get() + 1);
        Ok(vec![1, 2])
    };
    assert_eq!(get_or_compute(&mut store, key.clone(), 60, 100, f), Ok(vec![1, 2]));
    assert_eq!(calls.get(), 1);
    assert_eq!(store.get(&key, 160), Some(&vec![1, 2]));
    let hit = get_or_compute(&mut store, key.clone(), 60, 160, || {
        calls.set(calls.get() + 1);
        Ok(vec![9])
    });
    assert_eq!(hit, Ok(vec![1, 2]));
    assert_eq!(calls.get(), 1);
    assert_eq!(store.get(&key, 161), None);
}

#[test]
fn expired_entry_is_recomputed() {
    let mut store = CacheStore::new();
    let key = "k".to_string();
    assert_eq!(get_or_compute(&mut store, key.clone(), 10, 0, || Ok(vec![1])), Ok(vec![1]));
    assert_eq!(get_or_compute(&mut store, key.clone(), 10, 11, || Ok(vec![2])), Ok(vec![2]));
    assert_eq!(store.get(&key, 21), Some(&vec![2]));
}

#[test]
fn failed_compute_does_not_poison_the_key() {
    let mut store = CacheStore::new();
    let key = "k".to_string();
    let first = get_or_compute(&mut store, key.clone(), 10, 0, || Err(CoreError::ProducerTimeout));
    assert_eq!(first, Err(CoreError::ProducerTimeout));
    assert_eq!(store.get(&key, 0), None);
    let calls = Cell::new(0);
    let second = get_or_compute(&mut store, key.clone(), 10, 1, || {
        calls.set(calls.get() + 1);
        Ok(vec![5])
    });
    assert_eq!(second, Ok(vec![5]));
    assert_eq!(calls.get(), 1);
    assert_eq!(store.get(&key, 11), Some(&vec![5]));
}

#[test]
fn lookup_and_settle_split_a_request() {
    let mut store = CacheStore::new();
    let key = "k".to_string();
    assert_eq!(lookup(&store, &key, 0), None);
    let err = settle(&mut store, key.clone(), 5, 0, Err(CoreError::Producer("blank page".to_string())));
    assert_eq!(err, Err(CoreError::Producer("blank page".to_string())));
    assert_eq!(lookup(&store, &key, 0), None);
    assert_eq!(settle(&mut store, key.clone(), 5, 0, Ok(vec![7])), Ok(vec![7]));
    assert_eq!(lookup(&store, &key, 5), Some(vec![7]));
    assert_eq!(lookup(&store, &key, 6), None);
}

#[test]
fn ttl_follows_upstream_expiry() {
    assert_eq!(ttl_until(5_000_999, 1_000), 4_000);
    assert_eq!(ttl_until(1_000_000, 1_000), 0);
    assert_eq!(ttl_until(0, 1_000), 0);
    assert_eq!(ttl_until(u128::MAX, 0), u64::MAX);
}
