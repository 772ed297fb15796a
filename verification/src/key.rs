//! Cache keys and the key deriver.
//!
//! A [`CacheKey`] is a structural snapshot of a call's arguments: a sequence
//! of plain values compared element by element.  The default derivation
//! takes every argument in declaration order, so two calls share a key
//! exactly when their argument tuples are equal; a custom derivation hands
//! the engine any key of the caller's choosing, and collisions are then the
//! caller's responsibility.

use vstd::prelude::*;

verus! {

/// A cache key: an equality-comparable snapshot of call arguments.
#[derive(Debug)]
pub struct CacheKey {
    parts: Vec<u64>,
}

impl View for CacheKey {
    type V = Seq<u64>;

    closed spec fn view(&self) -> Seq<u64> {
        self.parts@
    }
}

impl CacheKey {
    /// The default key deriver: a structural snapshot of all call
    /// arguments in declaration order.
    pub fn of_args(args: &Vec<u64>) -> (r: CacheKey)
        ensures
            r@ == args@,
    {
        let mut parts: Vec<u64> = Vec::new();
        let mut i: usize = 0;
        while i < args.len()
            invariant
                i <= args.len(),
                parts@ == args@.subrange(0, i as int),
            decreases args.len() - i,
        {
            parts.push(args[i]);
            i = i + 1;
        }
        proof {
            assert(args@.subrange(0, args@.len() as int) =~= args@);
        }
        CacheKey { parts }
    }

    /// A key of a single argument.
    pub fn single(arg: u64) -> (r: CacheKey)
        ensures
            r@ == seq![arg],
    {
        let mut parts: Vec<u64> = Vec::new();
        parts.push(arg);
        proof {
            assert(parts@ =~= seq![arg]);
        }
        CacheKey { parts }
    }

    /// A key of no arguments, for a call whose whole result is cached in
    /// one slot.
    pub fn unit() -> (r: CacheKey)
        ensures
            r@ == Seq::<u64>::empty(),
    {
        let parts: Vec<u64> = Vec::new();
        proof {
            assert(parts@ =~= Seq::<u64>::empty());
        }
        CacheKey { parts }
    }

    /// Structural key equality: two keys are equal exactly when their
    /// argument snapshots are.
    pub fn same(&self, other: &CacheKey) -> (r: bool)
        ensures
            r == (self@ == other@),
    {
        if self.parts.len() != other.parts.len() {
            return false;
        }
        let mut i: usize = 0;
        while i < self.parts.len()
            invariant
                i <= self.parts.len(),
                self.parts.len() == other.parts.len(),
                forall|j: int| 0 <= j < i ==> self.parts@[j] == other.parts@[j],
            decreases self.parts.len() - i,
        {
            if self.parts[i] != other.parts[i] {
                return false;
            }
            i = i + 1;
        }
        proof {
            assert(self.parts@ =~= other.parts@);
        }
        true
    }

    /// An equal, independently owned key.
    pub fn duplicate(&self) -> (r: CacheKey)
        ensures
            r@ == self@,
    {
        let mut parts: Vec<u64> = Vec::new();
        let mut i: usize = 0;
        while i < self.parts.len()
            invariant
                i <= self.parts.len(),
                parts@ == self.parts@.subrange(0, i as int),
            decreases self.parts.len() - i,
        {
            parts.push(self.parts[i]);
            i = i + 1;
        }
        proof {
            assert(self.parts@.subrange(0, self.parts@.len() as int) =~= self.parts@);
        }
        CacheKey { parts }
    }

    /// The number of argument values in the key.
    pub fn len(&self) -> (r: usize)
        ensures
            r == self@.len(),
    {
        self.parts.len()
    }
}

} // verus!
