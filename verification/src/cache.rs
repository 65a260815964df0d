//! Structural memoization: a map from a value descriptor to a previously
//! created backend object, keyed by *structural* equality of the descriptor,
//! not by identity.  Call sites that build descriptor-equal values — at any
//! frame, from any call site — share one backend object instead of creating
//! a new one per call.

use vstd::prelude::*;

verus! {

/// A descriptor usable as a structural cache key: it carries a structural
/// equivalence, an executable test for it, and a clone that stays in the
/// same equivalence class.
pub trait StructuralKey: Sized {
    /// Structural equality of descriptors: an equivalence relation.
    spec fn key_eq(&self, other: &Self) -> bool;

    proof fn key_eq_reflexive(&self)
        ensures
            self.key_eq(self),
    ;

    proof fn key_eq_symmetric(&self, other: &Self)
        ensures
            self.key_eq(other) == other.key_eq(self),
    ;

    proof fn key_eq_transitive(&self, b: &Self, c: &Self)
        requires
            self.key_eq(b),
            b.key_eq(c),
        ensures
            self.key_eq(c),
    ;

    fn eq_key(&self, other: &Self) -> (r: bool)
        ensures
            r == self.key_eq(other),
    ;

    fn clone_key(&self) -> (r: Self)
        ensures
            r.key_eq(self),
    ;
}

/// A cache of `(descriptor, raw object)` entries with pairwise
/// structurally-distinct descriptors.  Entries are never evicted: the cache
/// lives as long as the backend that owns it.
pub struct StructuralCache<K> {
    entries: Vec<(K, u64)>,
}

impl<K: StructuralKey> StructuralCache<K> {
    /// The stored entries, oldest first.
    pub closed spec fn entries_seq(&self) -> Seq<(K, u64)> {
        self.entries@
    }

    /// Whether some entry's descriptor is structurally equal to `key`.
    pub open spec fn has_key(&self, key: &K) -> bool {
        exists|i: int|
            0 <= i < self.entries_seq().len() && self.entries_seq()[i].0.key_eq(key)
    }

    /// No two entries hold structurally equal descriptors.
    pub open spec fn wf(&self) -> bool {
        forall|i: int, j: int|
            0 <= i < j < self.entries_seq().len() ==> !self.entries_seq()[i].0.key_eq(
                &self.entries_seq()[j].0,
            )
    }

    /// An empty cache.
    pub fn new() -> (r: Self)
        ensures
            r.wf(),
            r.entries_seq() == Seq::<(K, u64)>::empty(),
    {
        let r = StructuralCache { entries: Vec::new() };
        proof {
            assert(r.entries_seq() =~= Seq::<(K, u64)>::empty());
        }
        r
    }

    /// The number of entries.
    pub fn len(&self) -> (r: usize)
        ensures
            r == self.entries_seq().len(),
    {
        self.entries.len()
    }

    /// The raw object cached under a descriptor structurally equal to
    /// `key`, or `None` if there is none.
    pub fn lookup(&self, key: &K) -> (r: Option<u64>)
        ensures
            match r {
                Some(v) => exists|i: int|
                    0 <= i < self.entries_seq().len() && self.entries_seq()[i].0.key_eq(key)
                        && self.entries_seq()[i].1 == v,
                None => !self.has_key(key),
            },
    {
        let n: usize = self.entries.len();
        let mut i: usize = 0;
        while i < n
            invariant
                n == self.entries_seq().len(),
                i <= n,
                forall|j: int| 0 <= j < i ==> !self.entries_seq()[j].0.key_eq(key),
            decreases n - i,
        {
            if self.entries[i].0.eq_key(key) {
                return Some(self.entries[i].1);
            }
            i = i + 1;
        }
        None
    }

    /// Adds an entry whose descriptor no existing entry equals.
    pub fn insert(&mut self, key: K, value: u64)
        requires
            old(self).wf(),
            !old(self).has_key(&key),
        ensures
            final(self).wf(),
            final(self).entries_seq() == old(self).entries_seq().push((key, value)),
    {
        self.entries.push((key, value));
    }
}

} // verus!
