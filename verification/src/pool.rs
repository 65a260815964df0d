//! Generational handle arena: stable, typed, reusable identities for pooled
//! values, with O(1) detection of stale identities.
//!
//! A [`Handle`] pairs a slot index with the generation the slot had when the
//! handle was issued.  Freeing a slot bumps its stored generation, so every
//! handle issued before the free stops matching, even once the index is
//! reused.

use vstd::pervasive::VecAdditionalExecFns;
use vstd::prelude::*;

verus! {

/// The generation a slot stores after it is freed: one more than before,
/// wrapping at 16 bits.  After 65,536 frees of one slot the counter has
/// come full circle, and a sufficiently old handle could alias a live one;
/// whether that collision probability is acceptable depends on deployment
/// assumptions, so the width is left as it is rather than silently widened.
pub open spec fn bumped(generation: u16) -> u16 {
    if generation == u16::MAX {
        0u16
    } else {
        (generation + 1) as u16
    }
}

/// A small, copyable, generation-tagged identity referring to a pooled value.
/// It is plain data and carries no ownership.  The type parameter tags the
/// resource kind so that handles to different kinds cannot be confused.
#[derive(Debug, PartialEq, Eq, Hash)]
pub struct Handle<T> {
    pub index: u16,
    pub generation: u16,
    pub pd: core::marker::PhantomData<T>,
}

impl<T> Clone for Handle<T> {
    fn clone(&self) -> (r: Self)
        ensures
            r == *self,
    {
        Handle { index: self.index, generation: self.generation, pd: core::marker::PhantomData }
    }
}

impl<T> Copy for Handle<T> {

}

impl<T> Handle<T> {
    /// Builds a handle from its two fields.
    pub fn from_parts(index: u16, generation: u16) -> (r: Self)
        ensures
            r.index == index,
            r.generation == generation,
    {
        Handle { index, generation, pd: core::marker::PhantomData }
    }

    /// The slot index this handle refers to.
    pub fn index(&self) -> (r: u16)
        ensures
            r == self.index,
    {
        self.index
    }

    /// The generation the slot had when this handle was issued.
    pub fn generation(&self) -> (r: u16)
        ensures
            r == self.generation,
    {
        self.generation
    }

    /// True if both fields equal those of `other`.
    pub fn same_as(&self, other: &Self) -> (r: bool)
        ensures
            r == (self.index == other.index && self.generation == other.generation),
    {
        self.index == other.index && self.generation == other.generation
    }
}

impl<T> Default for Handle<T> {
    /// The sentinel handle: the maximum value in both fields.  No pool slot
    /// ever stores generation `u16::MAX` together with index `u16::MAX` in
    /// range, so the sentinel of a pool of at most `u16::MAX` slots never
    /// validates against a slot whose generation was issued by the pool.
    fn default() -> (r: Self)
        ensures
            r.index == u16::MAX,
            r.generation == u16::MAX,
    {
        Handle { index: u16::MAX, generation: u16::MAX, pd: core::marker::PhantomData }
    }
}

/// Capability of a pooled item: it stores the handle under which it is
/// currently allocated, it can produce an unoccupied default value for
/// empty slots, and replacing its stored handle changes nothing else.
pub trait Handled: Sized {
    type HandleType;

    /// The handle currently stored in the item, as contracts see it.
    spec fn stored_handle(&self) -> Option<Handle<Self::HandleType>>;

    /// The item with its stored handle replaced and everything else kept.
    spec fn spec_with_handle(self, handle: Option<Handle<Self::HandleType>>) -> Self;

    /// Everything but the stored handle has its default-construction value.
    spec fn spec_is_unoccupied(&self) -> bool;

    /// Replacing the handle stores exactly that handle and leaves the rest
    /// of the item — including whether it is in its default construction —
    /// as it was.
    proof fn law_with_handle(self, handle: Option<Handle<Self::HandleType>>)
        ensures
            self.spec_with_handle(handle).stored_handle() == handle,
            self.spec_with_handle(handle).spec_is_unoccupied() == self.spec_is_unoccupied(),
    ;

    fn get_handle(&self) -> (r: Option<Handle<Self::HandleType>>)
        ensures
            r == self.stored_handle(),
    ;

    fn set_handle(&mut self, handle: Option<Handle<Self::HandleType>>)
        ensures
            *final(self) == old(self).spec_with_handle(handle),
    ;

    /// An unoccupied item, used to fill slots at pool construction and
    /// growth, and to reset a slot before reuse.
    fn unoccupied() -> (r: Self)
        ensures
            r.spec_is_unoccupied(),
            r.stored_handle() is None,
    ;
}

/// A pre-sized, growable arena of slots plus a free-index stack.  Handles are
/// validated in O(1) by comparing their generation with the slot's stored
/// generation.
pub struct Pool<T: Handled> where T::HandleType: Copy {
    items: Vec<T>,
    generations: Vec<u16>,
    free_indices: Vec<u16>,
}

impl<T: Handled> Pool<T> where T::HandleType: Copy {
    /// Basic shape: one generation per slot, at most `u16::MAX` slots, and
    /// every free index in range.
    pub closed spec fn wf(&self) -> bool {
        &&& self.generations@.len() == self.items@.len()
        &&& self.items@.len() <= u16::MAX as int
        &&& forall|i: int|
            0 <= i < self.free_indices@.len() ==> (self.free_indices@[i] as int)
                < self.items@.len()
    }

    /// Number of slots currently held by the pool.
    pub closed spec fn capacity(&self) -> int {
        self.items@.len() as int
    }

    /// What well-formedness gives in the public vocabulary: the generation
    /// and item sequences have one entry per slot, there are at most
    /// `u16::MAX` slots, and every free index is in range.
    pub proof fn lemma_wf_facts(&self)
        requires
            self.wf(),
        ensures
            self.gens().len() == self.capacity(),
            self.items_seq().len() == self.capacity(),
            self.capacity() <= u16::MAX as int,
            forall|i: int|
                0 <= i < self.free_list().len() ==> (self.free_list()[i] as int)
                    < self.capacity(),
    {
    }

    /// The whole generation sequence, one entry per slot.
    pub closed spec fn gens(&self) -> Seq<u16> {
        self.generations@
    }

    /// The generation currently stored for slot `i`.
    pub open spec fn generation_at(&self, i: int) -> u16 {
        self.gens()[i]
    }

    /// The stack of free slot indices; the last element is reused first.
    pub closed spec fn free_list(&self) -> Seq<u16> {
        self.free_indices@
    }

    /// The items, one per slot.
    pub closed spec fn items_seq(&self) -> Seq<T> {
        self.items@
    }

    /// The item stored in slot `i`.
    pub open spec fn item_at(&self, i: int) -> T {
        self.items_seq()[i]
    }

    /// A handle matches iff its index is in range and its generation equals
    /// the slot's stored generation.
    pub open spec fn spec_is_match(&self, handle: Handle<T::HandleType>) -> bool {
        &&& (handle.index as int) < self.gens().len()
        &&& self.generation_at(handle.index as int) == handle.generation
    }

    /// Creates a pool of `size` empty slots, all at generation 0, with the
    /// free stack arranged so that slot 0 is handed out first.
    pub fn with_size(size: usize) -> (r: Self)
        requires
            size <= u16::MAX as usize,
        ensures
            r.wf(),
            r.capacity() == size,
            forall|i: int| 0 <= i < size ==> r.generation_at(i) == 0u16,
            r.free_list() == Seq::new(size as nat, |i: int| (size - 1 - i) as u16),
            forall|i: int| 0 <= i < size ==> r.item_at(i).spec_is_unoccupied(),
            forall|i: int| 0 <= i < size ==> r.item_at(i).stored_handle() is None,
    {
        let mut items: Vec<T> = Vec::new();
        let mut generations: Vec<u16> = Vec::new();
        let mut free_indices: Vec<u16> = Vec::new();
        let mut i: usize = 0;
        while i < size
            invariant
                i <= size,
                size <= u16::MAX as usize,
                items@.len() == i,
                generations@.len() == i,
                free_indices@.len() == i,
                forall|j: int| 0 <= j < i ==> generations@[j] == 0u16,
                forall|j: int| 0 <= j < i ==> free_indices@[j] == (size - 1 - j) as u16,
                forall|j: int|
                    0 <= j < i ==> items@[j].spec_is_unoccupied() && items@[j].stored_handle()
                        is None,
            decreases size - i,
        {
            items.push(T::unoccupied());
            generations.push(0);
            free_indices.push((size - 1 - i) as u16);
            i = i + 1;
        }
        let r = Pool { items, generations, free_indices };
        proof {
            assert(r.free_list() =~= Seq::new(size as nat, |i: int| (size - 1 - i) as u16));
        }
        r
    }

    /// The number of slots currently held.
    pub fn slot_count(&self) -> (r: usize)
        ensures
            r == self.capacity(),
    {
        self.items.len()
    }

    /// The number of indices on the free stack.
    pub fn free_count(&self) -> (r: usize)
        ensures
            r == self.free_list().len(),
    {
        self.free_indices.len()
    }

    /// True iff `handle` currently validates against its slot.
    #[inline]
    pub fn is_match(&self, handle: Handle<T::HandleType>) -> (r: bool)
        ensures
            r == self.spec_is_match(handle),
    {
        if (handle.index as usize) < self.generations.len() {
            self.generations[handle.index as usize] == handle.generation
        } else {
            false
        }
    }

    /// Returns the item behind `handle`, or `None` if the handle is stale or
    /// out of range.  Never indexes out of range.
    #[inline]
    pub fn get(&self, handle: Handle<T::HandleType>) -> (r: Option<&T>)
        requires
            self.wf(),
        ensures
            match r {
                Some(item) => self.spec_is_match(handle) && *item == self.item_at(
                    handle.index as int,
                ),
                None => !self.spec_is_match(handle),
            },
    {
        if self.is_match(handle) {
            Some(&self.items[handle.index as usize])
        } else {
            None
        }
    }

    /// Returns a mutable reference to the item behind `handle`, or `None` if
    /// the handle is stale or out of range.
    #[inline]
    pub fn get_mut(&mut self, handle: Handle<T::HandleType>) -> (r: Option<&mut T>)
        requires
            old(self).wf(),
        ensures
            match r {
                Some(item) => {
                    &&& old(self).spec_is_match(handle)
                    &&& *item == old(self).item_at(handle.index as int)
                    &&& final(self).wf()
                    &&& final(self).capacity() == old(self).capacity()
                    &&& final(self).gens() == old(self).gens()
                    &&& final(self).free_list() == old(self).free_list()
                    &&& final(self).items_seq() == old(self).items_seq().update(
                        handle.index as int,
                        *final(item),
                    )
                },
                None => !old(self).spec_is_match(handle) && *final(self) == *old(self),
            },
    {
        if self.is_match(handle) {
            Some(&mut self.items[handle.index as usize])
        } else {
            None
        }
    }

    /// Frees the slot behind a matching handle: clears the item's stored
    /// identity, pushes the index back on the free stack, and bumps the
    /// slot's generation, which is what invalidates every handle previously
    /// issued for this slot.  A stale or out-of-range handle is ignored.
    pub fn free(&mut self, handle: Handle<T::HandleType>)
        requires
            old(self).wf(),
        ensures
            final(self).wf(),
            final(self).capacity() == old(self).capacity(),
            old(self).spec_is_match(handle) ==> {
                &&& final(self).gens() == old(self).gens().update(
                    handle.index as int,
                    bumped(handle.generation),
                )
                &&& final(self).free_list() == old(self).free_list().push(handle.index)
                &&& final(self).item_at(handle.index as int) == old(self).item_at(
                    handle.index as int,
                ).spec_with_handle(None)
                &&& final(self).item_at(handle.index as int).stored_handle() is None
                &&& forall|j: int|
                    0 <= j < old(self).capacity() && j != handle.index ==> final(self).item_at(j)
                        == old(self).item_at(j)
                &&& !final(self).spec_is_match(handle)
            },
            !old(self).spec_is_match(handle) ==> *final(self) == *old(self),
            forall|h2: Handle<T::HandleType>|
                h2.index != handle.index ==> final(self).spec_is_match(h2) == old(
                    self,
                ).spec_is_match(h2),
    {
        if self.is_match(handle) {
            let idx: usize = handle.index as usize;
            let item = &mut self.items[idx];
            item.set_handle(None);
            proof {
                old(self).item_at(idx as int).law_with_handle(None);
            }
            self.free_indices.push(handle.index);
            let g: u16 = self.generations[idx];
            self.generations.set(idx, g.wrapping_add(1));
        }
    }

    /// Pops an index off the free stack — growing the pool first if the
    /// stack is empty — and issues a handle carrying the slot's current
    /// stored generation.  The slot is reset to an unoccupied item holding
    /// the new handle, and a mutable reference to it is returned.
    ///
    /// Every handle that matched before still matches afterwards: `malloc`
    /// never changes the stored generation of an existing slot, and growth
    /// only appends new slots.
    pub fn malloc(&mut self) -> (r: (Handle<T::HandleType>, &mut T))
        requires
            old(self).wf(),
            old(self).free_list().len() > 0 || 0 < old(self).capacity() < u16::MAX as int,
        ensures
            final(self).wf(),
            final(self).spec_is_match(r.0),
            r.0.generation == final(self).generation_at(r.0.index as int),
            old(self).capacity() <= final(self).capacity() <= u16::MAX as int,
            forall|i: int|
                0 <= i < old(self).capacity() ==> final(self).generation_at(i) == old(
                    self,
                ).generation_at(i),
            forall|i: int|
                old(self).capacity() <= i < final(self).capacity() ==> final(self).generation_at(i)
                    == 0u16,
            forall|h2: Handle<T::HandleType>|
                old(self).spec_is_match(h2) ==> final(self).spec_is_match(h2),
            old(self).free_list().len() > 0 ==> {
                &&& final(self).capacity() == old(self).capacity()
                &&& r.0.index == old(self).free_list().last()
                &&& final(self).free_list() == old(self).free_list().drop_last()
            },
            old(self).free_list().len() == 0 ==> {
                &&& final(self).capacity() == if 2 * old(self).capacity() <= u16::MAX as int {
                    2 * old(self).capacity()
                } else {
                    u16::MAX as int
                }
                &&& r.0.index as int == old(self).capacity()
                &&& final(self).free_list() == Seq::new(
                    (final(self).capacity() - old(self).capacity() - 1) as nat,
                    |i: int| (final(self).capacity() - 1 - i) as u16,
                )
            },
            forall|j: int|
                0 <= j < old(self).capacity() && j != r.0.index ==> final(self).item_at(j) == old(
                    self,
                ).item_at(j),
            forall|j: int|
                #![trigger final(self).item_at(j)]
                old(self).capacity() <= j < final(self).capacity() && j != r.0.index
                    ==> final(self).item_at(j).stored_handle() is None,

            final(self).item_at(r.0.index as int) == *final(r.1),
            (*r.1).spec_is_unoccupied(),
            (*r.1).stored_handle() == Some(r.0),
    {
        if self.free_indices.len() == 0 {
            self.double_size();
        }
        proof {
            assert forall|j: int|
                old(self).capacity() <= j < self.items@.len() implies self.items@[j].stored_handle()
                is None by {
                assert(self.item_at(j).stored_handle() is None);
            }
        }
        let idx: u16 = self.free_indices.pop().unwrap();
        let generation: u16 = self.generations[idx as usize];
        let handle = Handle { index: idx, generation, pd: core::marker::PhantomData };
        let item = &mut self.items[idx as usize];
        *item = T::unoccupied();
        let ghost reset_value: T = *item;
        item.set_handle(Some(handle));
        proof {
            reset_value.law_with_handle(Some(handle));
        }
        (handle, item)
    }

    /// Doubles the pool's capacity (capped at the 16-bit index limit): new
    /// slots start at generation 0 and are pushed on the free stack so that
    /// the lowest new index is handed out first.
    fn double_size(&mut self)
        requires
            old(self).wf(),
            0 < old(self).capacity() < u16::MAX as int,
            old(self).free_list().len() == 0,
        ensures
            final(self).wf(),
            final(self).capacity() == if 2 * old(self).capacity() <= u16::MAX as int {
                2 * old(self).capacity()
            } else {
                u16::MAX as int
            },
            final(self).gens() == old(self).gens() + Seq::new(
                (final(self).capacity() - old(self).capacity()) as nat,
                |i: int| 0u16,
            ),
            final(self).items_seq().subrange(0, old(self).capacity()) == old(self).items_seq(),
            forall|j: int|
                old(self).capacity() <= j < final(self).capacity() ==> final(self).item_at(
                    j,
                ).spec_is_unoccupied() && final(self).item_at(j).stored_handle() is None,
            final(self).free_list() == Seq::new(
                (final(self).capacity() - old(self).capacity()) as nat,
                |i: int| (final(self).capacity() - 1 - i) as u16,
            ),
    {
        let old_len: usize = self.generations.len();
        let new_len: usize = if old_len * 2 <= u16::MAX as usize {
            old_len * 2
        } else {
            u16::MAX as usize
        };
        let added: usize = new_len - old_len;
        let mut k: usize = 0;
        while k < added
            invariant
                k <= added,
                added == new_len - old_len,
                old_len < new_len <= u16::MAX as usize,
                self.generations@.len() == old_len + k,
                self.items@.len() == old_len + k,
                self.free_indices@.len() == k,
                self.generations@.subrange(0, old_len as int) == old(self).gens(),
                self.items@.subrange(0, old_len as int) == old(self).items_seq(),
                forall|j: int| old_len <= j < old_len + k ==> self.generations@[j] == 0u16,
                forall|j: int|
                    old_len <= j < old_len + k ==> self.items@[j].spec_is_unoccupied()
                        && self.items@[j].stored_handle() is None,
                forall|j: int|
                    0 <= j < k ==> self.free_indices@[j] == (new_len - 1 - j) as u16,
            decreases added - k,
        {
            self.generations.push(0);
            self.items.push(T::unoccupied());
            self.free_indices.push((new_len - 1 - k) as u16);
            k = k + 1;
        }
        proof {
            assert(final(self).gens() =~= old(self).gens() + Seq::new(
                (new_len - old_len) as nat,
                |i: int| 0u16,
            ));
            assert(final(self).items_seq().subrange(0, old_len as int) =~= old(self).items_seq());
            assert(final(self).free_list() =~= Seq::new(
                (new_len - old_len) as nat,
                |i: int| (new_len - 1 - i) as u16,
            ));
        }
    }

    /// Validity of a handle depends only on its own slot: whenever the
    /// slot's stored generation is the same in two pool states (and the
    /// pool did not shrink below the slot), the handle matches in one state
    /// exactly when it matches in the other.  Together with the contracts of
    /// `malloc` and `free` — `malloc` never changes stored generations of
    /// existing slots, and `free` changes only the freed slot's — this says
    /// that a handle issued by `malloc` keeps resolving until it is freed.
    pub proof fn lemma_match_depends_only_on_slot(
        pre: &Self,
        post: &Self,
        h: Handle<T::HandleType>,
    )
        requires
            (h.index as int) < pre.gens().len(),
            pre.gens().len() <= post.gens().len(),
            post.generation_at(h.index as int) == pre.generation_at(h.index as int),
        ensures
            post.spec_is_match(h) == pre.spec_is_match(h),
    {
    }

    /// Reissue changes the generation: after a slot holding a matching
    /// handle `h` is freed, its stored generation is `bumped(h.generation)`,
    /// and a later `malloc` that reuses the index issues exactly the stored
    /// generation.  The reissued handle therefore differs from `h` in its
    /// generation, and `h` itself no longer matches, even though the two
    /// handles share an index.
    pub proof fn lemma_stale_handle_stays_stale(
        p: &Self,
        h: Handle<T::HandleType>,
        h2: Handle<T::HandleType>,
    )
        requires
            h2.index == h.index,
            (h.index as int) < p.gens().len(),
            p.generation_at(h.index as int) == bumped(h.generation),
            h2.generation == p.generation_at(h2.index as int),
        ensures
            h2.generation != h.generation,
            !p.spec_is_match(h),
            p.spec_is_match(h2),
    {
    }
}

} // verus!
