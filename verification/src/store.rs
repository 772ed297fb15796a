//! Cache backends: a key-value store with the fixed capability contract
//! the memoization wrapper consumes.
//!
//! One store covers the four built-in backend variants: unbounded,
//! size-bounded with least-recently-used eviction, time-bounded with a
//! per-entry lifetime, and size-and-time-bounded.  The store keeps its
//! entries in recency order — the entry at index `0` is the least recently
//! used — and every operation's contract says exactly how that order and
//! the contents change, through the transition functions [`after_get`] and
//! [`after_set`].

use vstd::prelude::*;

use crate::key::CacheKey;

verus! {

/// One stored entry: the payload together with the instant (in seconds) at
/// which it was created, for time-bounded policies.
pub struct Entry {
    pub key: CacheKey,
    pub created: u64,
    pub value: u64,
}

/// No two entries share a key.
pub open spec fn keys_distinct(s: Seq<Entry>) -> bool {
    forall|i: int, j: int| 0 <= i < j < s.len() ==> s[i].key@ != s[j].key@
}

/// The index of the entry holding key `k`, or `-1` when no entry does.
pub open spec fn find_idx(s: Seq<Entry>, k: Seq<u64>) -> int
    decreases s.len(),
{
    if s.len() == 0 {
        -1
    } else if s.last().key@ == k {
        s.len() - 1
    } else {
        find_idx(s.drop_last(), k)
    }
}

/// `find_idx` finds an entry with key `k` exactly when one exists.
pub proof fn lemma_find_idx(s: Seq<Entry>, k: Seq<u64>)
    ensures
        find_idx(s, k) == -1 ==> forall|i: int| 0 <= i < s.len() ==> s[i].key@ != k,
        find_idx(s, k) != -1 ==> 0 <= find_idx(s, k) < s.len() && s[find_idx(s, k)].key@ == k,
    decreases s.len(),
{
    if s.len() > 0 && s.last().key@ != k {
        lemma_find_idx(s.drop_last(), k);
        assert forall|i: int| find_idx(s, k) == -1 && 0 <= i < s.len() implies s[i].key@
            != k by {
            if i < s.len() - 1 {
                assert(s.drop_last()[i] == s[i]);
            }
        }
    }
}

/// With distinct keys, `find_idx` is the one index holding `k`.
pub proof fn lemma_find_idx_at(s: Seq<Entry>, k: Seq<u64>, i: int)
    requires
        keys_distinct(s),
        0 <= i < s.len(),
        s[i].key@ == k,
    ensures
        find_idx(s, k) == i,
    decreases s.len(),
{
    if s.last().key@ == k {
        assert(i == s.len() - 1);
    } else {
        assert(i < s.len() - 1);
        assert(s.drop_last()[i] == s[i]);
        lemma_find_idx_at(s.drop_last(), k, i);
    }
}

/// Whether an entry is still fresh at instant `now` under the given
/// lifetime: an entry as old as the lifetime, or older, counts as expired.
pub open spec fn entry_fresh(e: Entry, ttl: Option<u64>, now: u64) -> bool {
    match ttl {
        Option::Some(t) => now - e.created < t,
        Option::None => true,
    }
}

/// The entry as a read leaves it: under a refresh-on-access time policy
/// its creation instant is reset to the instant of the read.
pub open spec fn refreshed(e: Entry, ttl: Option<u64>, refresh: bool, now: u64) -> Entry {
    if refresh && ttl is Some {
        Entry { created: now, ..e }
    } else {
        e
    }
}

/// What a read of key `k` at instant `now` returns: the stored payload on
/// a fresh hit, and nothing on a miss or an expired entry.
pub open spec fn spec_get(s: Seq<Entry>, ttl: Option<u64>, now: u64, k: Seq<u64>) -> Option<
    u64,
> {
    let i = find_idx(s, k);
    if i >= 0 && entry_fresh(s[i], ttl, now) {
        Some(s[i].value)
    } else {
        None
    }
}

/// The store after a read of key `k`: a fresh hit moves the entry to the
/// most-recently-used position (refreshing it if configured); a miss or an
/// expired entry leaves the store unchanged.
pub open spec fn after_get(
    s: Seq<Entry>,
    ttl: Option<u64>,
    refresh: bool,
    now: u64,
    k: Seq<u64>,
) -> Seq<Entry> {
    let i = find_idx(s, k);
    if i >= 0 && entry_fresh(s[i], ttl, now) {
        s.remove(i).push(refreshed(s[i], ttl, refresh, now))
    } else {
        s
    }
}

/// The store cut down to its capacity by evicting least-recently-used
/// entries from the front.
pub open spec fn trimmed(s: Seq<Entry>, capacity: Option<usize>) -> Seq<Entry> {
    match capacity {
        Option::Some(c) => if s.len() <= c {
            s
        } else {
            s.subrange(s.len() - c, s.len() as int)
        },
        Option::None => s,
    }
}

/// The store after writing entry `e`: any previous entry under the same
/// key is replaced, the written entry becomes the most recently used, and
/// a full size-bounded store evicts its least recently used entry.
pub open spec fn after_set(s: Seq<Entry>, capacity: Option<usize>, e: Entry) -> Seq<Entry> {
    let i = find_idx(s, e.key@);
    let base = if i >= 0 {
        s.remove(i)
    } else {
        s
    };
    trimmed(base.push(e), capacity)
}

/// A cache backend: a key-value store in recency order, bounded by an
/// optional capacity and an optional entry lifetime in seconds.
pub struct CacheStore {
    /// The entries in recency order: index `0` is the least recently used.
    /// Read through the view; mutate only through the store's operations,
    /// which keep [`CacheStore::wf`].
    pub entries: Vec<Entry>,
    /// Greatest number of entries kept, or `None` for an unbounded store.
    pub capacity: Option<usize>,
    /// Lifetime of an entry in seconds, or `None` for entries that never
    /// expire.
    pub ttl: Option<u64>,
    /// Whether a read of a fresh entry resets its creation instant.
    pub refresh: bool,
}

impl View for CacheStore {
    type V = Seq<Entry>;

    open spec fn view(&self) -> Seq<Entry> {
        self.entries@
    }
}

impl CacheStore {
    /// Well-formedness: keys are distinct and a size bound is positive and
    /// respected.
    pub open spec fn wf(self) -> bool {
        &&& keys_distinct(self@)
        &&& match self.capacity {
            Option::Some(c) => self@.len() <= c && c >= 1,
            Option::None => true,
        }
    }

    /// Every entry was created no later than instant `now`.
    pub open spec fn times_ok(self, now: u64) -> bool {
        forall|i: int| 0 <= i < self@.len() ==> (#[trigger] self@[i]).created <= now
    }

    /// An unbounded store: entries are kept until overwritten.
    pub fn new_unbounded() -> (r: CacheStore)
        ensures
            r.wf(),
            r@ == Seq::<Entry>::empty(),
            r.capacity is None,
            r.ttl is None,
            r.refresh == false,
    {
        CacheStore { entries: Vec::new(), capacity: None, ttl: None, refresh: false }
    }

    /// A size-bounded store evicting its least recently used entry when
    /// full.  A store of no capacity at all cannot be built.
    pub fn new_sized(capacity: usize) -> (r: CacheStore)
        requires
            capacity >= 1,
        ensures
            r.wf(),
            r@ == Seq::<Entry>::empty(),
            r.capacity == Some(capacity),
            r.ttl is None,
            r.refresh == false,
    {
        CacheStore { entries: Vec::new(), capacity: Some(capacity), ttl: None, refresh: false }
    }

    /// A time-bounded store whose entries expire `ttl` seconds after
    /// creation, optionally refreshed on access.
    pub fn new_timed(ttl: u64, refresh: bool) -> (r: CacheStore)
        ensures
            r.wf(),
            r@ == Seq::<Entry>::empty(),
            r.capacity is None,
            r.ttl == Some(ttl),
            r.refresh == refresh,
    {
        CacheStore { entries: Vec::new(), capacity: None, ttl: Some(ttl), refresh }
    }

    /// A store bounded both by size and by entry lifetime.
    pub fn new_sized_timed(capacity: usize, ttl: u64, refresh: bool) -> (r: CacheStore)
        requires
            capacity >= 1,
        ensures
            r.wf(),
            r@ == Seq::<Entry>::empty(),
            r.capacity == Some(capacity),
            r.ttl == Some(ttl),
            r.refresh == refresh,
    {
        CacheStore { entries: Vec::new(), capacity: Some(capacity), ttl: Some(ttl), refresh }
    }

    /// The number of entries held.
    pub fn len(&self) -> (r: usize)
        ensures
            r == self@.len(),
    {
        self.entries.len()
    }

    /// The index of the entry holding `k`, if any.
    fn position_of(&self, k: &CacheKey) -> (r: Option<usize>)
        requires
            self.wf(),
        ensures
            match r {
                Some(i) => i < self@.len() && self@[i as int].key@ == k@ && find_idx(self@, k@)
                    == i,
                None => find_idx(self@, k@) == -1,
            },
    {
        let mut i: usize = 0;
        while i < self.entries.len()
            invariant
                i <= self.entries.len(),
                self.wf(),
                forall|j: int| 0 <= j < i ==> self@[j].key@ != k@,
            decreases self.entries.len() - i,
        {
            if self.entries[i].key.same(k) {
                proof {
                    lemma_find_idx_at(self@, k@, i as int);
                }
                return Some(i);
            }
            i = i + 1;
        }
        proof {
            lemma_find_idx(self@, k@);
        }
        None
    }

    /// The read step: looks key `k` up at instant `now` and returns the
    /// stored payload exactly on a fresh hit, which also makes the entry
    /// the most recently used and, if so configured, refreshes it.  A miss
    /// or an expired entry changes nothing.
    pub fn get(&mut self, k: &CacheKey, now: u64) -> (r: Option<u64>)
        requires
            old(self).wf(),
            old(self).times_ok(now),
        ensures
            final(self).capacity == old(self).capacity,
            final(self).ttl == old(self).ttl,
            final(self).refresh == old(self).refresh,
            r == spec_get(old(self)@, old(self).ttl, now, k@),
            final(self)@ == after_get(old(self)@, old(self).ttl, old(self).refresh, now, k@),
            final(self).wf(),
            final(self).times_ok(now),
    {
        let pos = self.position_of(k);
        match pos {
            None => None,
            Some(i) => {
                let ghost s0 = self@;
                let ghost idx = i as int;
                let fresh = match self.ttl {
                    Option::Some(t) => now - self.entries[i].created < t,
                    Option::None => true,
                };
                if !fresh {
                    return None;
                }
                let mut e = self.entries.remove(i);
                if self.refresh && self.ttl.is_some() {
                    e.created = now;
                }
                let value = e.value;
                proof {
                    s0.remove_ensures(idx);
                    assert(e == refreshed(s0[idx], self.ttl, self.refresh, now));
                }
                self.entries.push(e);
                proof {
                    let after = s0.remove(idx).push(e);
                    assert(self@ == after);
                    assert forall|m: int, n: int| 0 <= m < n < after.len() implies after[m].key@
                        != after[n].key@ by {
                        if n < after.len() - 1 {
                            assert(after[m] == s0.remove(idx)[m]);
                            assert(after[n] == s0.remove(idx)[n]);
                        } else {
                            assert(after[m] == s0.remove(idx)[m]);
                            assert(after[n].key@ == s0[idx].key@);
                        }
                    }
                }
                Some(value)
            },
        }
    }

    /// The write step: stores `v` under key `k` as created at instant
    /// `now`.  The entry becomes the most recently used; a previous entry
    /// under the same key is replaced; a full size-bounded store first
    /// evicts its least recently used entry.
    pub fn set(&mut self, k: CacheKey, v: u64, now: u64)
        requires
            old(self).wf(),
        ensures
            final(self).capacity == old(self).capacity,
            final(self).ttl == old(self).ttl,
            final(self).refresh == old(self).refresh,
            final(self)@ == after_set(
                old(self)@,
                old(self).capacity,
                Entry { key: k, created: now, value: v },
            ),
            final(self).wf(),
            forall|t: u64| old(self).times_ok(t) && now <= t ==> final(self).times_ok(t),
    {
        let ghost s0 = self@;
        let ghost e = Entry { key: k, created: now, value: v };
        let pos = self.position_of(&k);
        match pos {
            Some(i) => {
                self.entries.remove(i);
                proof {
                    s0.remove_ensures(i as int);
                    assert forall|m: int, n: int| 0 <= m < n < self@.len() implies self@[m].key@
                        != self@[n].key@ by {
                        assert(self@[m] == s0.remove(i as int)[m]);
                        assert(self@[n] == s0.remove(i as int)[n]);
                    }
                    assert forall|m: int| 0 <= m < self@.len() implies self@[m].key@ != k@ by {
                        assert(self@[m] == s0.remove(i as int)[m]);
                    }
                }
            },
            None => {
                proof {
                    lemma_find_idx(s0, k@);
                }
            },
        }
        let ghost base = self@;
        self.entries.push(Entry { key: k, created: now, value: v });
        proof {
            assert forall|m: int, n: int| 0 <= m < n < self@.len() implies self@[m].key@
                != self@[n].key@ by {
                if n < self@.len() - 1 {
                    assert(self@[m] == base[m]);
                    assert(self@[n] == base[n]);
                } else {
                    assert(self@[m] == base[m]);
                    assert(self@[n] == e);
                }
            }
        }
        let ghost pushed = self@;
        match self.capacity {
            Option::Some(c) => {
                if self.entries.len() > c {
                    self.entries.remove(0);
                    proof {
                        pushed.remove_ensures(0);
                        assert(self@ =~= pushed.subrange(pushed.len() - c, pushed.len() as int));
                        assert forall|m: int, n: int| 0 <= m < n < self@.len() implies self@[m].key@
                            != self@[n].key@ by {
                            assert(self@[m] == pushed[m + 1]);
                            assert(self@[n] == pushed[n + 1]);
                        }
                    }
                }
            },
            Option::None => {},
        }
        proof {
            assert(self@ == after_set(s0, self.capacity, e));
        }
    }
}

} // verus!
