//! The memoization wrapper: the per-call state machine
//! `CheckingCache -> Computing -> Storing -> Returning`.
//!
//! The computation itself belongs to the caller, so the engine exposes the
//! steps around it.  [`MemoCache::lookup`] is `CheckingCache`: on a fresh
//! hit it short-circuits to `Returning` with the stored payload re-wrapped
//! in the configured shape.  On a miss the caller computes, then hands the
//! outcome to [`MemoCache::finish`], which classifies it, stores it when
//! eligible, and returns it unchanged.  [`MemoCache::prime`] is the
//! priming entry point: it never reads, only classifies and stores.
//!
//! No lock is modelled here: one `MemoCache` value stands for the shared
//! state per memoized function, and the configured `sync_writes` policy
//! says whether a driver must hold its exclusive acquisition from before
//! the lookup through the store, or only around each step.  Because a
//! store happens only inside `finish` and `prime`, after the computation
//! has completed, a call abandoned between its lookup and its store —
//! a cancelled suspension, say — leaves the cache exactly as it was.

use vstd::prelude::*;

use crate::config::BackendKind;
use crate::config::CacheConfig;
use crate::key::CacheKey;
use crate::outcome::Outcome;
use crate::outcome::Return;
use crate::outcome::ResultShape;
use crate::outcome::hit_outcome;
use crate::outcome::matches_shape;
use crate::outcome::spec_storable;
use crate::outcome::storable;
use crate::store::CacheStore;
use crate::store::Entry;
use crate::store::after_get;
use crate::store::after_set;
use crate::store::spec_get;

verus! {

/// The process-wide cache state of one memoized function: its fixed
/// configuration and its backend store.
pub struct MemoCache {
    pub config: CacheConfig,
    pub store: CacheStore,
}

impl MemoCache {
    /// Well-formedness: the store is well-formed and carries exactly the
    /// policy the configured backend selects.
    pub open spec fn wf(self) -> bool {
        &&& self.store.wf()
        &&& !(self.config.backend is Custom)
        &&& self.store.capacity == self.config.backend.spec_capacity()
        &&& self.store.ttl == self.config.backend.spec_ttl()
        &&& self.store.refresh == self.config.backend.spec_refresh()
    }

    /// The configured entry lifetime.
    pub open spec fn ttl(self) -> Option<u64> {
        self.config.backend.spec_ttl()
    }

    /// The configured capacity bound.
    pub open spec fn capacity(self) -> Option<usize> {
        self.config.backend.spec_capacity()
    }

    /// An empty cache for a validated configuration, created once per
    /// memoized function on its first call or first priming call.
    pub fn new(config: CacheConfig) -> (r: MemoCache)
        requires
            config.backend.runtime_constructible(),
        ensures
            r.wf(),
            r.config == config,
            r.store@ == Seq::<Entry>::empty(),
    {
        let store = match config.backend {
            BackendKind::Unbounded => CacheStore::new_unbounded(),
            BackendKind::SizeBounded { capacity } => CacheStore::new_sized(capacity),
            BackendKind::TimeBounded { ttl, refresh } => CacheStore::new_timed(ttl, refresh),
            BackendKind::SizeAndTimeBounded { capacity, ttl, refresh } => {
                CacheStore::new_sized_timed(capacity, ttl, refresh)
            },
            BackendKind::Custom => vstd::pervasive::unreached(),
        };
        MemoCache { config, store }
    }

    /// Whether a driver must hold the exclusive acquisition continuously
    /// from before the lookup through the store.
    pub fn serialize_writes(&self) -> (r: bool)
        ensures
            r == self.config.sync_writes,
    {
        self.config.sync_writes
    }

    /// The cache identity this state was configured with.
    pub fn identity(&self) -> (r: &Vec<u8>)
        ensures
            r@ == self.config.identity@,
    {
        &self.config.identity
    }

    /// The `CheckingCache` step: derive nothing, look the key up at
    /// instant `now`.  On a fresh hit the stored payload is re-wrapped in
    /// the configured outcome shape — marked as served from the cache
    /// exactly when hit flagging is configured — and the call
    /// short-circuits to `Returning`.  On a miss or an expired entry the
    /// caller proceeds to `Computing`.
    pub fn lookup(&mut self, key: &CacheKey, now: u64) -> (r: Option<Outcome>)
        requires
            old(self).wf(),
            old(self).store.times_ok(now),
        ensures
            final(self).config == old(self).config,
            final(self).wf(),
            final(self).store.times_ok(now),
            final(self).store@ == after_get(
                old(self).store@,
                old(self).ttl(),
                old(self).config.backend.spec_refresh(),
                now,
                key@,
            ),
            r == match spec_get(old(self).store@, old(self).ttl(), now, key@) {
                Option::Some(v) => Some(
                    hit_outcome(old(self).config.shape, v, old(self).config.flag_hits),
                ),
                Option::None => None::<Outcome>,
            },
    {
        let got = self.store.get(key, now);
        match got {
            Some(v) => {
                let flag = self.config.flag_hits;
                let out = match self.config.shape {
                    ResultShape::Plain => Outcome::Plain(Return { value: v, was_cached: flag }),
                    ResultShape::ResultWrapped => {
                        Outcome::Succeeded(Return { value: v, was_cached: flag })
                    },
                    ResultShape::OptionWrapped => {
                        Outcome::Present(Return { value: v, was_cached: flag })
                    },
                };
                Some(out)
            },
            None => None,
        }
    }

    /// The `Storing` step shared by the wrapper and the priming entry
    /// point: classify the outcome and store its payload exactly when it
    /// is cache-eligible.
    fn record(&mut self, key: CacheKey, computed: &Outcome, now: u64)
        requires
            old(self).wf(),
        ensures
            final(self).config == old(self).config,
            final(self).wf(),
            forall|t: u64|
                old(self).store.times_ok(t) && now <= t ==> final(self).store.times_ok(t),
            final(self).store@ == match spec_storable(*computed) {
                Option::Some(v) => after_set(
                    old(self).store@,
                    old(self).capacity(),
                    Entry { key: key, created: now, value: v },
                ),
                Option::None => old(self).store@,
            },
    {
        match storable(computed) {
            Some(v) => self.store.set(key, v, now),
            None => {},
        }
    }

    /// The `Storing` and `Returning` steps after a computation: the
    /// outcome is stored exactly when the classifier finds it eligible —
    /// a failure or an absence is never stored — and is returned to the
    /// caller unchanged, its hit marker left exactly as computed.
    pub fn finish(&mut self, key: CacheKey, computed: Outcome, now: u64) -> (r: Outcome)
        requires
            old(self).wf(),
            matches_shape(computed, old(self).config.shape),
        ensures
            r == computed,
            final(self).config == old(self).config,
            final(self).wf(),
            forall|t: u64|
                old(self).store.times_ok(t) && now <= t ==> final(self).store.times_ok(t),
            final(self).store@ == match spec_storable(computed) {
                Option::Some(v) => after_set(
                    old(self).store@,
                    old(self).capacity(),
                    Entry { key: key, created: now, value: v },
                ),
                Option::None => old(self).store@,
            },
    {
        self.record(key, &computed, now);
        computed
    }

    /// The priming entry point: always compute, never read.  The caller
    /// computes unconditionally and hands the outcome here; it is stored
    /// under the same eligibility rule as [`MemoCache::finish`] and
    /// returned unchanged — in particular its hit marker is never set,
    /// since a primed value is always freshly computed.  Priming never
    /// clears the backend; it only ever writes.
    pub fn prime(&mut self, key: CacheKey, computed: Outcome, now: u64) -> (r: Outcome)
        requires
            old(self).wf(),
            matches_shape(computed, old(self).config.shape),
        ensures
            r == computed,
            final(self).config == old(self).config,
            final(self).wf(),
            forall|t: u64|
                old(self).store.times_ok(t) && now <= t ==> final(self).store.times_ok(t),
            final(self).store@ == match spec_storable(computed) {
                Option::Some(v) => after_set(
                    old(self).store@,
                    old(self).capacity(),
                    Entry { key: key, created: now, value: v },
                ),
                Option::None => old(self).store@,
            },
    {
        self.record(key, &computed, now);
        computed
    }
}

} // verus!
