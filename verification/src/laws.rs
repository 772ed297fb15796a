//! The engine's laws: properties that hold across several operations,
//! stated over the same spec-level transitions the operations' contracts
//! use, and proved once for every configuration.
//!
//! Each law reads together with the contracts of
//! [`crate::engine::MemoCache::lookup`], [`crate::engine::MemoCache::finish`] and
//! [`crate::engine::MemoCache::prime`]: those contracts say which
//! transition a call makes, and the laws say what sequences of
//! transitions guarantee.

use vstd::prelude::*;

use crate::config::family_custom;
use crate::config::family_size_time;
use crate::config::family_unbound;
use crate::config::spec_error;
use crate::config::BackendFamily;
use crate::config::ConfigError;
use crate::config::Options;
use crate::engine::MemoCache;
use crate::key::CacheKey;
use crate::outcome::hit_outcome;
use crate::outcome::spec_marker;
use crate::outcome::spec_storable;
use crate::outcome::Outcome;
use crate::outcome::ResultShape;
use crate::outcome::Return;
use crate::single::spec_slot_get;
use crate::store::after_set;
use crate::store::find_idx;
use crate::store::spec_get;
use crate::store::Entry;

verus! {

/// After a write, the written entry stands at the most-recently-used
/// position of the store, whatever was there before: the write survives
/// its own eviction step because a size bound is at least one.
pub proof fn lemma_after_set_holds_entry(s: Seq<Entry>, capacity: Option<usize>, e: Entry)
    requires
        match capacity {
            Option::Some(c) => c >= 1,
            Option::None => true,
        },
    ensures
        after_set(s, capacity, e).len() >= 1,
        after_set(s, capacity, e).last() == e,
        find_idx(after_set(s, capacity, e), e.key@) == after_set(s, capacity, e).len() - 1,
{
    let i = find_idx(s, e.key@);
    let base = if i >= 0 {
        s.remove(i)
    } else {
        s
    };
    let pushed = base.push(e);
    let after = after_set(s, capacity, e);
    assert(pushed.last() == e);
    match capacity {
        Option::Some(c) => {
            if pushed.len() > c {
                assert(after == pushed.subrange(pushed.len() - c, pushed.len() as int));
                assert(after.last() == pushed[pushed.len() - 1]);
            }
        },
        Option::None => {},
    }
}

/// Exactly one backend family is accepted.  Among options that pass the
/// hit-flag, outcome-shape and key-derivation checks: a valid
/// configuration selects at most one family, and any two families
/// requested together are rejected with an error naming both.
pub proof fn lemma_backend_family_exclusivity(o: Options)
    requires
        !(o.with_cached_flag && !crate::config::spec_taggable(o.return_type@)),
        !(o.result && o.option),
        !(o.key && !o.convert),
        !(o.convert && !o.key && !o.cache_type),
    ensures
        spec_error(o) is None ==> !(family_unbound(o) && family_size_time(o)) && !(
        family_unbound(o) && family_custom(o)) && !(family_size_time(o) && family_custom(o)),
        family_unbound(o) && family_size_time(o) ==> spec_error(o) == Some(
            ConfigError::ConflictingBackends(BackendFamily::Unbound, BackendFamily::SizeOrTime),
        ),
        family_unbound(o) && family_custom(o) && !family_size_time(o) ==> spec_error(o) == Some(
            ConfigError::ConflictingBackends(BackendFamily::Unbound, BackendFamily::Custom),
        ),
        family_size_time(o) && family_custom(o) && !family_unbound(o) ==> spec_error(o) == Some(
            ConfigError::ConflictingBackends(BackendFamily::SizeOrTime, BackendFamily::Custom),
        ),
{
}

/// Plain-shape repetition: the first of two equal-keyed calls computes
/// the plain value `value` and records it at instant `t0`; with no change
/// in between, the second call's lookup at any instant at which the entry
/// is still fresh is answered from the cache with the same payload — so
/// the body is not computed a second time — and, without hit flagging,
/// with an output equal to the first call's.
pub proof fn lemma_plain_call_replayed(m: MemoCache, key: CacheKey, value: u64, t0: u64, t1: u64)
    requires
        m.wf(),
        m.config.shape is Plain,
        match m.ttl() {
            Option::Some(t) => t0 <= t1 && t1 - t0 < t,
            Option::None => true,
        },
    ensures
        ({
            let stored = after_set(m.store@, m.capacity(), Entry { key, created: t0, value });
            &&& spec_get(stored, m.ttl(), t1, key@) == Some(value)
            &&& (!m.config.flag_hits ==> hit_outcome(m.config.shape, value, m.config.flag_hits)
                == Outcome::Plain(Return { value, was_cached: false }))
        }),
{
    let e = Entry { key, created: t0, value };
    lemma_after_set_holds_entry(m.store@, m.capacity(), e);
}

/// The classifier stores no failure and no absence: exactly the failing
/// and the absent outcomes carry no storable payload, so — by the
/// contracts of the store-and-return steps — they leave the cache exactly
/// as it was, and repeating the same failing call computes again.
pub proof fn lemma_failure_never_stored(o: Outcome)
    ensures
        spec_storable(o) is None <==> (o is Failed || o is Absent),
{
}

/// A succeeding or present outcome is stored and replayed: recorded at
/// instant `t0`, it answers an equal-keyed lookup from the cache while
/// fresh, without a second computation.
pub proof fn lemma_success_stored_and_replayed(
    m: MemoCache,
    key: CacheKey,
    value: u64,
    t0: u64,
    t1: u64,
)
    requires
        m.wf(),
        match m.ttl() {
            Option::Some(t) => t0 <= t1 && t1 - t0 < t,
            Option::None => true,
        },
    ensures
        spec_storable(Outcome::Succeeded(Return { value, was_cached: false })) == Some(value),
        spec_storable(Outcome::Present(Return { value, was_cached: false })) == Some(value),
        spec_get(
            after_set(m.store@, m.capacity(), Entry { key, created: t0, value }),
            m.ttl(),
            t1,
            key@,
        ) == Some(value),
{
    let e = Entry { key, created: t0, value };
    lemma_after_set_holds_entry(m.store@, m.capacity(), e);
}

/// The time bound is strict: a payload stored at `t0` under lifetime
/// `ttl` is a hit strictly before `t0 + ttl` seconds have elapsed and a
/// recomputation at or after — elapsed time equal to the lifetime counts
/// as expired.
pub proof fn lemma_ttl_boundary(
    m: MemoCache,
    key: CacheKey,
    value: u64,
    ttl: u64,
    t0: u64,
    t1: u64,
)
    requires
        m.wf(),
        m.ttl() == Some(ttl),
        t0 <= t1,
    ensures
        spec_get(
            after_set(m.store@, m.capacity(), Entry { key, created: t0, value }),
            m.ttl(),
            t1,
            key@,
        ) == if t1 - t0 < ttl {
            Some(value)
        } else {
            None::<u64>
        },
{
    let e = Entry { key, created: t0, value };
    lemma_after_set_holds_entry(m.store@, m.capacity(), e);
}

/// Hit marking: a value served from the cache carries the marker exactly
/// as configured — set under hit flagging, unset without — while a
/// freshly computed outcome is returned by the wrapper and by the priming
/// entry point unchanged, its marker exactly as the computation left it.
pub proof fn lemma_hit_marker(shape: ResultShape, value: u64, flag_hits: bool)
    ensures
        spec_marker(hit_outcome(shape, value, flag_hits)) == Some(flag_hits),
{
}

/// Serialized writes: with `sync_writes`, the exclusive acquisition is
/// held from before the lookup through the store, so of two concurrent
/// equal-keyed calls the second runs only after the first has stored.
/// The first missed and computed once; the second then hits the stored
/// payload and computes nothing: one computation, both callers observing
/// the same stored value.
pub proof fn lemma_serialized_writes_one_computation(
    m: MemoCache,
    key: CacheKey,
    value: u64,
    t0: u64,
    t1: u64,
)
    requires
        m.wf(),
        m.config.sync_writes,
        spec_get(m.store@, m.ttl(), t0, key@) is None,
        match m.ttl() {
            Option::Some(t) => t0 <= t1 && t1 - t0 < t,
            Option::None => true,
        },
    ensures
        spec_get(
            after_set(m.store@, m.capacity(), Entry { key, created: t0, value }),
            m.ttl(),
            t1,
            key@,
        ) == Some(value),
{
    let e = Entry { key, created: t0, value };
    lemma_after_set_holds_entry(m.store@, m.capacity(), e);
}

/// Unserialized writes: without `sync_writes`, two equal-keyed callers
/// may both miss and both compute, their stores landing one after the
/// other.  The cache then converges to the later stored payload — a
/// value one of the callers computed and the classifier found eligible —
/// and serves it to later fresh lookups.
pub proof fn lemma_unserialized_writes_converge(
    m: MemoCache,
    key_first: CacheKey,
    key_second: CacheKey,
    value_first: u64,
    value_second: u64,
    t_first: u64,
    t_second: u64,
    t_read: u64,
)
    requires
        m.wf(),
        key_first@ == key_second@,
        match m.ttl() {
            Option::Some(t) => t_second <= t_read && t_read - t_second < t,
            Option::None => true,
        },
    ensures
        spec_get(
            after_set(
                after_set(
                    m.store@,
                    m.capacity(),
                    Entry { key: key_first, created: t_first, value: value_first },
                ),
                m.capacity(),
                Entry { key: key_second, created: t_second, value: value_second },
            ),
            m.ttl(),
            t_read,
            key_second@,
        ) == Some(value_second),
{
    let e_first = Entry { key: key_first, created: t_first, value: value_first };
    let e_second = Entry { key: key_second, created: t_second, value: value_second };
    lemma_after_set_holds_entry(
        after_set(m.store@, m.capacity(), e_first),
        m.capacity(),
        e_second,
    );
}

/// Priming prevents recomputation: whatever the cache held before, after
/// the priming entry point records a cache-eligible payload for a key,
/// the wrapped call's lookup for that key hits while the entry is fresh,
/// so the wrapped call computes nothing.
pub proof fn lemma_priming_prevents_recomputation(
    m: MemoCache,
    key: CacheKey,
    value: u64,
    t0: u64,
    t1: u64,
)
    requires
        m.wf(),
        match m.ttl() {
            Option::Some(t) => t0 <= t1 && t1 - t0 < t,
            Option::None => true,
        },
    ensures
        spec_get(
            after_set(m.store@, m.capacity(), Entry { key, created: t0, value }),
            m.ttl(),
            t1,
            key@,
        ) == Some(value),
{
    let e = Entry { key, created: t0, value };
    lemma_after_set_holds_entry(m.store@, m.capacity(), e);
}

/// The single-slot laws in one statement: a payload stored at `t0` is
/// replayed from the slot while fresh; under a lifetime, the boundary is
/// strict, elapsed time equal to the lifetime counting as expired.
pub proof fn lemma_slot_replay_and_boundary(ttl: Option<u64>, value: u64, t0: u64, t1: u64)
    requires
        t0 <= t1,
    ensures
        spec_slot_get(Some((t0, value)), ttl, t1) == match ttl {
            Option::Some(t) => if t1 - t0 < t {
                Some(value)
            } else {
                None::<u64>
            },
            Option::None => Some(value),
        },
{
}

} // verus!
