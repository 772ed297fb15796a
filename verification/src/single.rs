//! The single-slot variant: one cached value per function, no key.
//!
//! Where a whole function result is cached at most once, the backend is a
//! single slot holding the payload together with its creation instant.
//! The slot is read under a shared acquisition and written under an
//! exclusive one; with the serialized-writes policy the exclusive
//! acquisition is held from before the read through the store.  The
//! classification, expiry and hit-flag rules are the same as for the
//! keyed wrapper.

use vstd::prelude::*;

use crate::config::OnceConfig;
use crate::outcome::Outcome;
use crate::outcome::Return;
use crate::outcome::ResultShape;
use crate::outcome::hit_outcome;
use crate::outcome::matches_shape;
use crate::outcome::spec_storable;
use crate::outcome::storable;

verus! {

/// What a read of the slot at instant `now` returns: the stored payload
/// while it is fresh, and nothing when the slot is empty or — under a
/// lifetime — the payload is as old as the lifetime or older.
pub open spec fn spec_slot_get(slot: Option<(u64, u64)>, ttl: Option<u64>, now: u64) -> Option<
    u64,
> {
    match slot {
        Option::Some(p) => match ttl {
            Option::Some(t) => if now - p.0 < t {
                Some(p.1)
            } else {
                None
            },
            Option::None => Some(p.1),
        },
        Option::None => None,
    }
}

/// The cache state of one function memoized into a single slot.
pub struct OnceCache {
    pub config: OnceConfig,
    /// The stored payload and its creation instant, or `None` before the
    /// first eligible outcome.
    pub slot: Option<(u64, u64)>,
}

impl OnceCache {
    /// The stored payload was created no later than instant `now`.
    pub open spec fn times_ok(self, now: u64) -> bool {
        match self.slot {
            Option::Some(p) => p.0 <= now,
            Option::None => true,
        }
    }

    /// An empty single-slot cache for a validated configuration.
    pub fn new(config: OnceConfig) -> (r: OnceCache)
        ensures
            r.config == config,
            r.slot is None,
    {
        OnceCache { config, slot: None }
    }

    /// The read step, made under a shared acquisition: on a fresh hit the
    /// stored payload is re-wrapped in the configured shape, marked as
    /// served from the cache exactly when hit flagging is configured.
    pub fn lookup(&self, now: u64) -> (r: Option<Outcome>)
        requires
            self.times_ok(now),
        ensures
            r == match spec_slot_get(self.slot, self.config.ttl, now) {
                Option::Some(v) => Some(
                    hit_outcome(self.config.shape, v, self.config.flag_hits),
                ),
                Option::None => None::<Outcome>,
            },
    {
        let stored = match self.slot {
            Some(p) => {
                let fresh = match self.config.ttl {
                    Some(t) => now - p.0 < t,
                    None => true,
                };
                if fresh {
                    Some(p.1)
                } else {
                    None
                }
            },
            None => None,
        };
        match stored {
            Some(v) => {
                let flag = self.config.flag_hits;
                let out = match self.config.shape {
                    ResultShape::Plain => Outcome::Plain(Return { value: v, was_cached: flag }),
                    ResultShape::ResultWrapped => {
                        Outcome::Succeeded(Return { value: v, was_cached: flag })
                    },
                    ResultShape::OptionWrapped => {
                        Outcome::Present(Return { value: v, was_cached: flag })
                    },
                };
                Some(out)
            },
            None => None,
        }
    }

    /// The store-and-return step after a computation: a cache-eligible
    /// outcome overwrites the slot with the instant of the store; a
    /// failure or an absence leaves the slot exactly as it was.  The
    /// outcome is returned unchanged.
    pub fn finish(&mut self, computed: Outcome, now: u64) -> (r: Outcome)
        requires
            matches_shape(computed, old(self).config.shape),
        ensures
            r == computed,
            final(self).config == old(self).config,
            final(self).slot == match spec_storable(computed) {
                Option::Some(v) => Some((now, v)),
                Option::None => old(self).slot,
            },
            forall|t: u64| old(self).times_ok(t) && now <= t ==> final(self).times_ok(t),
    {
        match storable(&computed) {
            Some(v) => {
                self.slot = Some((now, v));
            },
            None => {},
        }
        computed
    }

    /// The priming entry point: always compute, never read.  Same storing
    /// rule as [`OnceCache::finish`]; the outcome comes back unchanged,
    /// its hit marker never set.
    pub fn prime(&mut self, computed: Outcome, now: u64) -> (r: Outcome)
        requires
            matches_shape(computed, old(self).config.shape),
        ensures
            r == computed,
            final(self).config == old(self).config,
            final(self).slot == match spec_storable(computed) {
                Option::Some(v) => Some((now, v)),
                Option::None => old(self).slot,
            },
            forall|t: u64| old(self).times_ok(t) && now <= t ==> final(self).times_ok(t),
    {
        match storable(&computed) {
            Some(v) => {
                self.slot = Some((now, v));
            },
            None => {},
        }
        computed
    }
}

} // verus!
