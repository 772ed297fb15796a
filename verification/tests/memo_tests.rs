use memo_policy::config::{BackendKind, CacheConfig, KeyPolicy};
use memo_policy::engine::MemoCache;
use memo_policy::key::CacheKey;
use memo_policy::outcome::{marker, storable, Outcome, ResultShape, Return};

fn cache(backend: BackendKind, shape: ResultShape, flag_hits: bool, sync_writes: bool) -> MemoCache {
    MemoCache::new(CacheConfig {
        identity: "SQUARE".as_bytes().to_vec(),
        backend,
        key_policy: KeyPolicy::AllArgs,
        shape,
        flag_hits,
        sync_writes,
    })
}

/// One full memoized call of the plain-shaped function `arg * arg`,
/// counting how often the body runs.
fn call_square(m: &mut MemoCache, arg: u64, now: u64, computations: &mut u32) -> Outcome {
    let key = CacheKey::single(arg);
    if let Some(hit) = m.lookup(&key, now) {
        return hit;
    }
    *computations += 1;
    let computed = Outcome::Plain(Return { value: arg * arg, was_cached: false });
    m.finish(key, computed, now)
}

#[test]
fn plain_second_call_is_equal_and_computes_nothing() {
    let mut m = cache(BackendKind::Unbounded, ResultShape::Plain, false, false);
    let mut computations = 0u32;
    let first = call_square(&mut m, 7, 0, &mut computations);
    assert_eq!(first, Outcome::Plain(Return { value: 49, was_cached: false }));
    assert_eq!(computations, 1);
    let second = call_square(&mut m, 7, 1, &mut computations);
    assert_eq!(second, first);
    assert_eq!(computations, 1);
}

#[test]
fn distinct_arguments_are_distinct_keys() {
    let mut m = cache(BackendKind::Unbounded, ResultShape::Plain, false, false);
    let mut computations = 0u32;
    call_square(&mut m, 2, 0, &mut computations);
    call_square(&mut m, 3, 0, &mut computations);
    assert_eq!(computations, 2);
    let again = call_square(&mut m, 2, 0, &mut computations);
    assert_eq!(again, Outcome::Plain(Return { value: 4, was_cached: false }));
    assert_eq!(computations, 2);
}

#[test]
fn argument_tuples_compare_structurally() {
    let mut m = cache(BackendKind::Unbounded, ResultShape::Plain, false, false);
    let key_a = CacheKey::of_args(&vec![1, 2]);
    assert!(m.lookup(&key_a, 0).is_none());
    m.finish(key_a, Outcome::Plain(Return { value: 12, was_cached: false }), 0);
    let key_same = CacheKey::of_args(&vec![1, 2]);
    assert_eq!(
        m.lookup(&key_same, 0),
        Some(Outcome::Plain(Return { value: 12, was_cached: false }))
    );
    let key_swapped = CacheKey::of_args(&vec![2, 1]);
    assert!(m.lookup(&key_swapped, 0).is_none());
    let key_shorter = CacheKey::of_args(&vec![1]);
    assert!(m.lookup(&key_shorter, 0).is_none());
    assert_eq!(key_shorter.len(), 1);
    assert_eq!(CacheKey::unit().len(), 0);
    assert!(CacheKey::of_args(&vec![2, 1]).same(&key_swapped));
    assert!(!CacheKey::unit().same(&key_swapped));
}

#[test]
fn failing_result_is_never_stored() {
    let mut m = cache(BackendKind::Unbounded, ResultShape::ResultWrapped, false, false);
    let mut failures = 0u32;
    for now in 0..3 {
        let key = CacheKey::single(9);
        assert!(m.lookup(&key, now).is_none());
        failures += 1;
        let out = m.finish(key, Outcome::Failed(17), now);
        assert_eq!(out, Outcome::Failed(17));
    }
    assert_eq!(failures, 3);
}

#[test]
fn succeeding_result_is_stored_and_replayed() {
    let mut m = cache(BackendKind::Unbounded, ResultShape::ResultWrapped, false, false);
    let key = CacheKey::single(9);
    assert!(m.lookup(&key, 0).is_none());
    m.finish(key, Outcome::Succeeded(Return { value: 81, was_cached: false }), 0);
    let key2 = CacheKey::single(9);
    assert_eq!(
        m.lookup(&key2, 1),
        Some(Outcome::Succeeded(Return { value: 81, was_cached: false }))
    );
}

#[test]
fn absent_option_is_never_stored() {
    let mut m = cache(BackendKind::Unbounded, ResultShape::OptionWrapped, false, false);
    let key = CacheKey::single(4);
    assert!(m.lookup(&key, 0).is_none());
    let out = m.finish(key, Outcome::Absent, 0);
    assert_eq!(out, Outcome::Absent);
    let key2 = CacheKey::single(4);
    assert!(m.lookup(&key2, 0).is_none());
    m.finish(key2, Outcome::Present(Return { value: 16, was_cached: false }), 0);
    let key3 = CacheKey::single(4);
    assert_eq!(
        m.lookup(&key3, 0),
        Some(Outcome::Present(Return { value: 16, was_cached: false }))
    );
}

#[test]
fn entry_expires_exactly_at_its_lifetime() {
    let mut m = cache(
        BackendKind::TimeBounded { ttl: 10, refresh: false },
        ResultShape::Plain,
        false,
        false,
    );
    let mut computations = 0u32;
    call_square(&mut m, 5, 100, &mut computations);
    assert_eq!(computations, 1);
    // strictly inside the lifetime: a hit
    let hit = call_square(&mut m, 5, 109, &mut computations);
    assert_eq!(hit, Outcome::Plain(Return { value: 25, was_cached: false }));
    assert_eq!(computations, 1);
    // elapsed == lifetime: expired, recomputed
    call_square(&mut m, 5, 110, &mut computations);
    assert_eq!(computations, 2);
}

#[test]
fn zero_lifetime_never_serves_a_hit() {
    let mut m = cache(
        BackendKind::TimeBounded { ttl: 0, refresh: false },
        ResultShape::Plain,
        false,
        false,
    );
    let mut computations = 0u32;
    call_square(&mut m, 5, 100, &mut computations);
    call_square(&mut m, 5, 100, &mut computations);
    assert_eq!(computations, 2);
}

#[test]
fn refresh_on_access_restarts_the_lifetime() {
    let mut m = cache(
        BackendKind::TimeBounded { ttl: 10, refresh: true },
        ResultShape::Plain,
        false,
        false,
    );
    let mut computations = 0u32;
    call_square(&mut m, 5, 100, &mut computations);
    // the read at 105 resets the creation instant to 105
    call_square(&mut m, 5, 105, &mut computations);
    assert_eq!(computations, 1);
    // 114 is within 10 of 105, though not of 100; this read refreshes too
    call_square(&mut m, 5, 114, &mut computations);
    assert_eq!(computations, 1);
    // 124 is exactly 10 after the last refresh at 114: expired
    call_square(&mut m, 5, 124, &mut computations);
    assert_eq!(computations, 2);
}

#[test]
fn cached_flag_is_set_only_on_hits() {
    let mut m = cache(BackendKind::Unbounded, ResultShape::Plain, true, false);
    let key = CacheKey::single(3);
    assert!(m.lookup(&key, 0).is_none());
    let first = m.finish(key, Outcome::Plain(Return { value: 9, was_cached: false }), 0);
    assert_eq!(first, Outcome::Plain(Return { value: 9, was_cached: false }));
    let key2 = CacheKey::single(3);
    let second = m.lookup(&key2, 1).unwrap();
    assert_eq!(second, Outcome::Plain(Return { value: 9, was_cached: true }));
    assert_eq!(marker(&first), Some(false));
    assert_eq!(marker(&second), Some(true));
}

#[test]
fn classifier_extracts_exactly_the_storable_payloads() {
    assert_eq!(storable(&Outcome::Plain(Return { value: 1, was_cached: false })), Some(1));
    assert_eq!(storable(&Outcome::Succeeded(Return { value: 2, was_cached: false })), Some(2));
    assert_eq!(storable(&Outcome::Present(Return { value: 3, was_cached: false })), Some(3));
    assert_eq!(storable(&Outcome::Failed(9)), None);
    assert_eq!(storable(&Outcome::Absent), None);
    assert_eq!(marker(&Outcome::Failed(9)), None);
    assert_eq!(marker(&Outcome::Absent), None);
}

#[test]
fn priming_never_sets_the_cached_flag() {
    let mut m = cache(BackendKind::Unbounded, ResultShape::Plain, true, false);
    let key = CacheKey::single(3);
    let key2 = key.duplicate();
    let primed = m.prime(key, Outcome::Plain(Return { value: 9, was_cached: false }), 0);
    assert_eq!(primed, Outcome::Plain(Return { value: 9, was_cached: false }));
    // the primed value is served as a hit afterwards, flagged
    assert_eq!(
        m.lookup(&key2, 0),
        Some(Outcome::Plain(Return { value: 9, was_cached: true }))
    );
}

#[test]
fn serialized_writes_compute_once_for_two_callers() {
    // With sync_writes, caller B's whole sequence runs only after caller
    // A's store: B's lookup then hits and B never computes.
    let mut m = cache(BackendKind::Unbounded, ResultShape::Plain, false, true);
    assert!(m.serialize_writes());
    let mut computations = 0u32;
    let a = call_square(&mut m, 6, 0, &mut computations);
    let b = call_square(&mut m, 6, 1, &mut computations);
    assert_eq!(computations, 1);
    assert_eq!(a, b);
}

#[test]
fn unserialized_writes_converge_to_the_last_store() {
    // Without sync_writes, both callers can miss before either stores.
    let mut m = cache(BackendKind::Unbounded, ResultShape::Plain, false, false);
    let key_a = CacheKey::single(6);
    let key_b = CacheKey::single(6);
    assert!(m.lookup(&key_a, 0).is_none());
    assert!(m.lookup(&key_b, 0).is_none());
    // both compute; their stores land one after the other
    m.finish(key_a, Outcome::Plain(Return { value: 36, was_cached: false }), 1);
    m.finish(key_b, Outcome::Plain(Return { value: 36, was_cached: false }), 2);
    // the cache converges to a stored value consistent with the classifier
    let key_c = CacheKey::single(6);
    assert_eq!(
        m.lookup(&key_c, 3),
        Some(Outcome::Plain(Return { value: 36, was_cached: false }))
    );
}

#[test]
fn priming_prevents_a_second_computation() {
    let mut m = cache(BackendKind::Unbounded, ResultShape::Plain, false, false);
    let mut computations = 0u32;
    // prime computes unconditionally and stores
    computations += 1;
    m.prime(
        CacheKey::single(8),
        Outcome::Plain(Return { value: 64, was_cached: false }),
        0,
    );
    // the wrapped call afterwards hits: no second computation for the key
    let out = call_square(&mut m, 8, 1, &mut computations);
    assert_eq!(out, Outcome::Plain(Return { value: 64, was_cached: false }));
    assert_eq!(computations, 1);
}

#[test]
fn priming_overwrites_an_existing_entry() {
    let mut m = cache(BackendKind::Unbounded, ResultShape::Plain, false, false);
    let mut computations = 0u32;
    call_square(&mut m, 8, 0, &mut computations);
    assert_eq!(computations, 1);
    // priming always computes and stores, bypassing the read path
    computations += 1;
    m.prime(
        CacheKey::single(8),
        Outcome::Plain(Return { value: 65, was_cached: false }),
        1,
    );
    // the wrapped call serves the primed value without computing
    let out = call_square(&mut m, 8, 2, &mut computations);
    assert_eq!(out, Outcome::Plain(Return { value: 65, was_cached: false }));
    assert_eq!(computations, 2);
}

#[test]
fn size_two_cache_evicts_the_least_recently_used_key() {
    let mut m = cache(
        BackendKind::SizeBounded { capacity: 2 },
        ResultShape::Plain,
        false,
        false,
    );
    let mut computations = 0u32;
    call_square(&mut m, 1, 0, &mut computations);
    call_square(&mut m, 2, 1, &mut computations);
    assert_eq!(computations, 2);
    // the third distinct key evicts key 1, the least recently used
    call_square(&mut m, 3, 2, &mut computations);
    assert_eq!(computations, 3);
    assert_eq!(m.store.len(), 2);
    // keys 2 and 3 are still cached
    call_square(&mut m, 2, 3, &mut computations);
    call_square(&mut m, 3, 4, &mut computations);
    assert_eq!(computations, 3);
    // key 1 was evicted: calling it again recomputes
    call_square(&mut m, 1, 5, &mut computations);
    assert_eq!(computations, 4);
}

#[test]
fn a_read_refreshes_recency_for_eviction() {
    let mut m = cache(
        BackendKind::SizeBounded { capacity: 2 },
        ResultShape::Plain,
        false,
        false,
    );
    let mut computations = 0u32;
    call_square(&mut m, 1, 0, &mut computations);
    call_square(&mut m, 2, 1, &mut computations);
    // reading key 1 makes key 2 the least recently used
    call_square(&mut m, 1, 2, &mut computations);
    assert_eq!(computations, 2);
    call_square(&mut m, 3, 3, &mut computations);
    assert_eq!(computations, 3);
    // key 1 survived; key 2 was evicted
    call_square(&mut m, 1, 4, &mut computations);
    assert_eq!(computations, 3);
    call_square(&mut m, 2, 5, &mut computations);
    assert_eq!(computations, 4);
}

#[test]
fn identity_is_available_at_run_time() {
    let m = cache(BackendKind::Unbounded, ResultShape::Plain, false, false);
    assert_eq!(m.identity(), &"SQUARE".as_bytes().to_vec());
}
