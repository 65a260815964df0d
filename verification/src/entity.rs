//! The entity allocator: a generational arena of entity identities.
//!
//! Each entity id indexes a metadata slot holding a nonzero generation and
//! a storage location; freeing an entity bumps the slot's generation, so
//! identities issued before the free stop resolving even after the id is
//! reused.  Freed ids are reused last-in first-out.  Entities can also be
//! *reserved* through a shared cursor and materialized later in one flush.

use vstd::pervasive::VecAdditionalExecFns;
use vstd::prelude::*;

verus! {

/// Why an entity operation failed.
#[derive(Debug, Clone, Copy, PartialEq, Eq, Structural)]
pub enum EcsError {
    EntityNotFound,
    MissingComponent,
}

/// An entity identity: an id plus the generation its metadata slot had
/// when the identity was issued.  Generations are always at least 1.
#[derive(Debug, Clone, Copy, PartialEq, Eq, Structural, Hash)]
pub struct Entity {
    pub id: u32,
    pub generation: u32,
}

/// Where an entity's components live.
#[derive(Debug, Clone, Copy, PartialEq, Eq, Structural)]
pub struct EntityLocation {
    pub archetype: u32,
    pub index: u32,
}

/// One metadata slot: the current generation and the location, with
/// `u32::MAX` as the index of a vacant slot.
#[derive(Debug, Clone, Copy, PartialEq, Eq, Structural)]
pub struct EntityMeta {
    pub generation: u32,
    pub location: EntityLocation,
}

/// The metadata of a never-used or freed slot: generation untouched by
/// construction (1 for new slots) and a vacant location.
pub open spec fn spec_empty_location() -> EntityLocation {
    EntityLocation { archetype: 0, index: u32::MAX }
}

/// The generation a slot takes when its entity is freed: one more,
/// wrapping past zero (generations stay nonzero).
pub open spec fn bumped_generation(g: u32) -> u32 {
    if g == u32::MAX {
        1u32
    } else {
        (g + 1) as u32
    }
}

/// A sequence of distinct in-range ids that all avoid one further
/// in-range id cannot fill the range: pigeonhole over `[0, n)`.
proof fn lemma_pending_shorter_than_slots(p: Seq<u32>, n: int, excluded: u32)
    requires
        forall|i: int, j: int| 0 <= i < j < p.len() ==> p[i] != p[j],
        forall|i: int| 0 <= i < p.len() ==> (p[i] as int) < n,
        forall|i: int| 0 <= i < p.len() ==> p[i] != excluded,
        (excluded as int) < n,
        0 <= n,
    ensures
        p.len() < n,
{
    let ints = p.map_values(|x: u32| x as int);
    assert(ints.no_duplicates()) by {
        assert forall|i: int, j: int| 0 <= i < j < ints.len() implies ints[i] != ints[j] by {
            assert(p[i] != p[j]);
        }
    }
    ints.unique_seq_to_set();
    let range = vstd::set_lib::set_int_range(0, n);
    vstd::set_lib::lemma_int_range(0, n);
    let allowed = range.remove(excluded as int);
    assert(ints.to_set().subset_of(allowed)) by {
        assert forall|x: int| ints.to_set().contains(x) implies allowed.contains(x) by {
            let i = choose|i: int| 0 <= i < ints.len() && ints[i] == x;
            assert(p[i] != excluded);
        }
    }
    assert(allowed.len() == n - 1);
    vstd::set_lib::lemma_len_subset(ints.to_set(), allowed);
}

/// The entity allocator.
pub struct Entities {
    pub metas: Vec<EntityMeta>,
    pub pending: Vec<u32>,
    pub free_cursor: i64,
    pub len: u32,
}

impl Entities {
    /// The freed ids awaiting reuse, oldest first.
    pub closed spec fn spec_pending(&self) -> Seq<u32> {
        self.pending@
    }

    /// The reservation cursor: equal to the pending count when flushed,
    /// lower (possibly negative) while reservations are outstanding.
    pub closed spec fn spec_cursor(&self) -> int {
        self.free_cursor as int
    }

    /// The live-entity count.
    pub closed spec fn spec_len(&self) -> u32 {
        self.len
    }

    /// Shape: the cursor never exceeds the pending count, pending ids are
    /// distinct in-range vacant slots, generations are nonzero, and the
    /// live count is what is allocated and not pending.
    pub open spec fn wf(&self) -> bool {
        &&& self.spec_cursor() <= self.spec_pending().len()
        &&& self.spec_cursor() >= -0x4000_0000
        &&& self.metas@.len() <= u32::MAX as int
        &&& self.spec_len() as int == self.metas@.len() - self.spec_pending().len()
        &&& forall|i: int|
            0 <= i < self.spec_pending().len() ==> (self.spec_pending()[i] as int)
                < self.metas@.len()
        &&& forall|i: int, j: int|
            0 <= i < j < self.spec_pending().len() ==> self.spec_pending()[i]
                != self.spec_pending()[j]
        &&& forall|i: int|
            0 <= i < self.spec_pending().len() ==> self.metas@[self.spec_pending()[i] as int].location.index
                == u32::MAX
        &&& forall|i: int| 0 <= i < self.metas@.len() ==> (#[trigger] self.metas@[i]).generation >= 1
    }

    /// Flushed: no reservations are outstanding.
    pub open spec fn flushed(&self) -> bool {
        self.spec_cursor() == self.spec_pending().len()
    }

    /// The entity resolves: its id is in range, the stored generation is
    /// its own, and the slot is occupied.
    pub open spec fn spec_alive(&self, entity: Entity) -> bool {
        &&& (entity.id as int) < self.metas@.len()
        &&& self.metas@[entity.id as int].generation == entity.generation
        &&& self.metas@[entity.id as int].location.index != u32::MAX
    }

    /// A fresh, empty allocator.
    pub fn new() -> (r: Self)
        ensures
            r.wf(),
            r.flushed(),
            r.metas@.len() == 0,
            r.spec_len() == 0,
    {
        Entities { metas: Vec::new(), pending: Vec::new(), free_cursor: 0, len: 0 }
    }

    /// The slot metadata of an entity by id, for direct inspection.
    pub fn meta_of(&self, id: u32) -> (r: Option<EntityMeta>)
        ensures
            match r {
                Some(m) => (id as int) < self.metas@.len() && m == self.metas@[id as int],
                None => (id as int) >= self.metas@.len(),
            },
    {
        if (id as usize) < self.metas.len() {
            Some(self.metas[id as usize])
        } else {
            None
        }
    }

    /// Directly allocates a new entity: reuses the most recently freed id,
    /// or appends a fresh slot at generation 1.  Requires a flushed state,
    /// as reservations would race with direct allocation.  The slot's
    /// location is left vacant for the caller to fill.
    pub fn alloc_entity(&mut self) -> (r: Entity)
        requires
            old(self).wf(),
            old(self).flushed(),
            old(self).metas@.len() < u32::MAX as int,
        ensures
            final(self).wf(),
            final(self).flushed(),
            final(self).spec_len() == old(self).spec_len() + 1,
            r.generation >= 1,
            old(self).spec_pending().len() > 0 ==> {
                &&& r.id == old(self).spec_pending().last()
                &&& r.generation == old(self).metas@[r.id as int].generation
                &&& final(self).spec_pending() == old(self).spec_pending().drop_last()
                &&& final(self).metas@ == old(self).metas@
            },
            old(self).spec_pending().len() == 0 ==> {
                &&& r.id as int == old(self).metas@.len()
                &&& r.generation == 1u32
                &&& final(self).metas@ == old(self).metas@.push(
                    EntityMeta { generation: 1u32, location: spec_empty_location() },
                )
                &&& final(self).spec_pending() == old(self).spec_pending()
            },
    {
        self.len = self.len + 1;
        match self.pending.pop() {
            Some(id) => {
                self.free_cursor = self.pending.len() as i64;
                let generation: u32 = self.metas[id as usize].generation;
                Entity { generation, id }
            },
            None => {
                let id: u32 = self.metas.len() as u32;
                self.metas.push(
                    EntityMeta {
                        generation: 1,
                        location: EntityLocation { archetype: 0, index: u32::MAX },
                    },
                );
                self.free_cursor = 0;
                Entity { generation: 1, id }
            },
        }
    }

    /// Frees a live entity: vacates its slot, bumps the slot's generation
    /// — which invalidates every identity previously issued for this id —
    /// and queues the id for reuse.  Returns the freed entity's location;
    /// a stale or unknown identity is reported as not found, unchanged.
    pub fn free_entity(&mut self, entity: Entity) -> (r: Result<EntityLocation, EcsError>)
        requires
            old(self).wf(),
            old(self).flushed(),
        ensures
            final(self).wf(),
            final(self).flushed(),
            !old(self).spec_alive(entity) ==> r == Err::<EntityLocation, EcsError>(
                EcsError::EntityNotFound,
            ) && *final(self) == *old(self),
            old(self).spec_alive(entity) ==> {
                &&& r == Ok::<EntityLocation, EcsError>(
                    old(self).metas@[entity.id as int].location,
                )
                &&& final(self).metas@ == old(self).metas@.update(
                    entity.id as int,
                    EntityMeta {
                        generation: bumped_generation(entity.generation),
                        location: spec_empty_location(),
                    },
                )
                &&& final(self).spec_pending() == old(self).spec_pending().push(entity.id)
                &&& final(self).spec_len() == old(self).spec_len() - 1
                &&& !final(self).spec_alive(entity)
            },
            forall|e2: Entity|
                e2.id != entity.id ==> final(self).spec_alive(e2) == old(self).spec_alive(e2),
    {
        if (entity.id as usize) >= self.metas.len() {
            return Err(EcsError::EntityNotFound);
        }
        let meta: EntityMeta = self.metas[entity.id as usize];
        if meta.generation != entity.generation || meta.location.index == u32::MAX {
            return Err(EcsError::EntityNotFound);
        }
        let old_location = meta.location;
        let new_generation: u32 = if entity.generation == u32::MAX {
            1
        } else {
            entity.generation + 1
        };
        self.metas.set(
            entity.id as usize,
            EntityMeta {
                generation: new_generation,
                location: EntityLocation { archetype: 0, index: u32::MAX },
            },
        );
        proof {
            assert forall|i: int|
                0 <= i < self.pending@.len() implies self.pending@[i] != entity.id by {
                assert(old(self).metas@[old(self).spec_pending()[i] as int].location.index
                    == u32::MAX);
            }
        }
        proof {
            lemma_pending_shorter_than_slots(
                old(self).spec_pending(),
                old(self).metas@.len() as int,
                entity.id,
            );
        }
        self.pending.push(entity.id);
        self.free_cursor = self.pending.len() as i64;
        self.len = self.len - 1;
        Ok(old_location)
    }

    /// Reserves an entity identity for later materialization by
    /// `flush_reserved_entities`: takes the next pending id from the back
    /// of the reservation window, or promises a fresh id past the current
    /// slots.  A promised id beyond the 32-bit id space would alias, so
    /// that exhaustion is excluded up front.
    pub fn reserve_entity(&mut self) -> (r: Entity)
        requires
            old(self).wf(),
            old(self).spec_cursor() > -0x4000_0000,
            old(self).spec_cursor() <= 0 ==> old(self).metas@.len() - old(self).spec_cursor()
                <= u32::MAX as int,
        ensures
            final(self).wf(),
            final(self).metas@ == old(self).metas@,
            final(self).spec_pending() == old(self).spec_pending(),
            final(self).spec_len() == old(self).spec_len(),
            final(self).spec_cursor() == old(self).spec_cursor() - 1,
            r.generation >= 1,
            old(self).spec_cursor() > 0 ==> r.id == old(self).spec_pending()[old(
                self,
            ).spec_cursor() - 1] && r.generation == old(self).metas@[r.id as int].generation,
            old(self).spec_cursor() <= 0 ==> r.generation == 1 && r.id as int == old(
                self,
            ).metas@.len() - old(self).spec_cursor(),
    {
        let n: i64 = self.free_cursor;
        self.free_cursor = self.free_cursor - 1;
        if n > 0 {
            let id: u32 = self.pending[(n - 1) as usize];
            let generation: u32 = self.metas[id as usize].generation;
            Entity { generation, id }
        } else {
            let promised: i64 = self.metas.len() as i64 - n;
            Entity { generation: 1, id: promised as u32 }
        }
    }

    /// Materializes every outstanding reservation: appends slots for the
    /// promised fresh ids, takes the reserved pending ids out of the
    /// reuse queue, and assigns each flushed entity the given location.
    pub fn flush_reserved_entities(&mut self, location: EntityLocation)
        requires
            old(self).wf(),
            location.index != u32::MAX,
            old(self).metas@.len() - old(self).spec_cursor() <= u32::MAX as int,
        ensures
            final(self).wf(),
            final(self).flushed(),
            final(self).metas@.len() == old(self).metas@.len() + (if old(self).spec_cursor() < 0 {
                -old(self).spec_cursor()
            } else {
                0
            }),
            forall|id: int|
                old(self).metas@.len() <= id < final(self).metas@.len() ==> final(self).metas@[id]
                    == (EntityMeta { generation: 1u32, location }),
            final(self).spec_pending() == old(self).spec_pending().subrange(
                0,
                if old(self).spec_cursor() > 0 {
                    old(self).spec_cursor()
                } else {
                    0
                },
            ),
            forall|i: int|
                (if old(self).spec_cursor() > 0 {
                    old(self).spec_cursor()
                } else {
                    0
                }) <= i < old(self).spec_pending().len() ==> final(self).metas@[old(
                    self,
                ).spec_pending()[i] as int] == (EntityMeta {
                    generation: old(self).metas@[old(self).spec_pending()[i] as int].generation,
                    location,
                }),
            forall|id: int|
                0 <= id < old(self).metas@.len() && (forall|i: int|
                    (if old(self).spec_cursor() > 0 {
                        old(self).spec_cursor()
                    } else {
                        0
                    }) <= i < old(self).spec_pending().len() ==> old(self).spec_pending()[i] as int
                        != id) ==> final(self).metas@[id] == old(self).metas@[id],
            final(self).spec_len() as int == old(self).spec_len() + (old(
                self,
            ).spec_pending().len() - (if old(self).spec_cursor() > 0 {
                old(self).spec_cursor()
            } else {
                0
            })) + (if old(self).spec_cursor() < 0 {
                -old(self).spec_cursor()
            } else {
                0
            }),
    {
        let free_cursor: i64 = self.free_cursor;
        let new_free_cursor: usize = if free_cursor >= 0 {
            free_cursor as usize
        } else {
            let old_meta_len: usize = self.metas.len();
            let to_add: usize = (-free_cursor) as usize;
            let mut k: usize = 0;
            while k < to_add
                invariant
                    k <= to_add,
                    self.metas@.len() == old_meta_len + k,
                    old_meta_len + to_add <= u32::MAX as int,
                    self.pending == old(self).pending,
                    self.free_cursor == old(self).free_cursor,
                    self.len == old(self).len,
                    self.metas@.subrange(0, old_meta_len as int) == old(self).metas@,
                    forall|i: int|
                        old_meta_len <= i < self.metas@.len() ==> (#[trigger] self.metas@[i])
                            == (EntityMeta { generation: 1u32, location }),
                    location.index != u32::MAX,
                decreases to_add - k,
            {
                self.metas.push(EntityMeta { generation: 1, location });
                k = k + 1;
            }
            self.len = self.len + to_add as u32;
            self.free_cursor = 0;
            0
        };
        proof {
            assert forall|i: int|
                0 <= i < self.metas@.len() implies (#[trigger] self.metas@[i]).generation
                >= 1 by {
                if i < old(self).metas@.len() && self.metas@.len() > old(self).metas@.len() {
                    assert(self.metas@.subrange(0, old(self).metas@.len() as int)[i]
                        == self.metas@[i]);
                }
            }
        }
        let pending_len: usize = self.pending.len();
        let drained: usize = pending_len - new_free_cursor;
        let ghost mid_metas = self.metas@;
        let ghost mid_len = self.len;
        let mut k: usize = 0;
        while k < drained
            invariant
                k <= drained,
                drained == pending_len - new_free_cursor,
                self.metas@.len() == mid_metas.len(),
                self.len as int == mid_len + k,
                forall|i: int|
                    new_free_cursor <= i < new_free_cursor + k ==> self.metas@[self.pending@[i] as int]
                        == (EntityMeta {
                        generation: mid_metas[self.pending@[i] as int].generation,
                        location,
                    }),
                forall|id: int|
                    0 <= id < mid_metas.len() && (forall|i: int|
                        new_free_cursor <= i < new_free_cursor + k
                            ==> self.pending@[i] as int != id) ==> self.metas@[id]
                        == mid_metas[id],
                self.pending@.len() == pending_len,
                new_free_cursor <= pending_len,
                forall|i: int|
                    0 <= i < self.pending@.len() ==> (self.pending@[i] as int) < self.metas@.len(),
                self.metas@.len() <= u32::MAX as int,
                forall|i: int, j: int|
                    0 <= i < j < self.pending@.len() ==> self.pending@[i] != self.pending@[j],
                forall|i: int|
                    0 <= i < new_free_cursor ==> self.metas@[self.pending@[i] as int].location.index
                        == u32::MAX,
                forall|i: int|
                    0 <= i < self.metas@.len() ==> (#[trigger] self.metas@[i]).generation >= 1,
                self.pending == old(self).pending,
                location.index != u32::MAX,
                self.len as int + drained - k == self.metas@.len() - new_free_cursor,
                self.len as int + drained - k <= u32::MAX as int,
            decreases drained - k,
        {
            let id: u32 = self.pending[new_free_cursor + k];
            let generation: u32 = self.metas[id as usize].generation;
            self.metas.set(id as usize, EntityMeta { generation, location });
            self.len = self.len + 1;
            k = k + 1;
        }
        self.pending.truncate(new_free_cursor);
        self.free_cursor = new_free_cursor as i64;
        proof {
            assert(self.pending@ =~= old(self).spec_pending().subrange(
                0,
                if old(self).spec_cursor() > 0 {
                    old(self).spec_cursor()
                } else {
                    0
                },
            ));
            assert(forall|i: int|
                0 <= i < old(self).spec_pending().len() ==> (old(self).spec_pending()[i] as int)
                    < old(self).metas@.len());
            assert forall|id: int|
                old(self).metas@.len() <= id < self.metas@.len() implies self.metas@[id]
                == (EntityMeta { generation: 1u32, location }) by {
                assert(self.metas@[id] == mid_metas[id]);
            }
            assert forall|id: int|
                0 <= id < old(self).metas@.len() && (forall|i: int|
                    (if old(self).spec_cursor() > 0 {
                        old(self).spec_cursor()
                    } else {
                        0
                    }) <= i < old(self).spec_pending().len() ==> old(self).spec_pending()[i] as int
                        != id) implies self.metas@[id] == old(self).metas@[id] by {
                if mid_metas.len() > old(self).metas@.len() {
                    assert(mid_metas.subrange(0, old(self).metas@.len() as int)[id]
                        == mid_metas[id]);
                }
            }
        }
    }

    /// Hints that `additional` more entities will be allocated.  Slot
    /// storage grows lazily, so this records nothing observable.
    pub fn reserve(&mut self, additional: u32)
        requires
            old(self).wf(),
            old(self).flushed(),
        ensures
            *final(self) == *old(self),
    {
    }

    /// Whether the entity currently resolves, counting reserved but not
    /// yet flushed identities.
    pub fn contains(&self, entity: Entity) -> (r: bool)
        requires
            self.wf(),
        ensures
            (self.spec_alive(entity) ==> r),
            self.flushed() ==> r == self.spec_alive(entity),
            (entity.id as int) < self.metas@.len() ==> r == (self.spec_alive(entity) || (
            self.metas@[entity.id as int].generation == entity.generation && exists|i: int|
                (if self.spec_cursor() > 0 {
                    self.spec_cursor()
                } else {
                    0
                }) <= i < self.spec_pending().len() && self.spec_pending()[i] == entity.id)),
            (entity.id as int) >= self.metas@.len() ==> r == (entity.generation == 1
                && self.spec_cursor() < 0 && (entity.id as int) < self.metas@.len()
                - self.spec_cursor()),
    {
        if (entity.id as usize) < self.metas.len() {
            let meta: EntityMeta = self.metas[entity.id as usize];
            if meta.generation != entity.generation {
                return false;
            }
            if meta.location.index != u32::MAX {
                return true;
            }
            let start: usize = if self.free_cursor > 0 {
                self.free_cursor as usize
            } else {
                0
            };
            let n: usize = self.pending.len();
            let mut i: usize = start;
            while i < n
                invariant
                    start <= self.pending@.len(),
                    n == self.pending@.len(),
                    start <= i <= n,
                    self.wf(),
                    !self.spec_alive(entity),
                    self.flushed() ==> start == n,
                    start as int == (if self.spec_cursor() > 0 {
                        self.spec_cursor()
                    } else {
                        0
                    }),
                    (entity.id as int) < self.metas@.len(),
                    self.metas@[entity.id as int].generation == entity.generation,
                    forall|j: int| start <= j < i ==> self.spec_pending()[j] != entity.id,
                decreases n - i,
            {
                if self.pending[i] == entity.id {
                    return true;
                }
                i = i + 1;
            }
            false
        } else {
            let free: i64 = self.free_cursor;
            entity.generation == 1 && free < 0 && (entity.id as i64) < (
            -free) + self.metas.len() as i64
        }
    }

    /// The location of a live entity; a reserved-but-unflushed fresh
    /// identity reports the vacant location.
    pub fn get(&self, entity: Entity) -> (r: Result<EntityLocation, EcsError>)
        requires
            self.wf(),
        ensures
            self.spec_alive(entity) ==> r == Ok::<EntityLocation, EcsError>(
                self.metas@[entity.id as int].location,
            ),
            (entity.id as int) < self.metas@.len() && !self.spec_alive(entity) ==> r == Err::<
                EntityLocation,
                EcsError,
            >(EcsError::EntityNotFound),
            (entity.id as int) >= self.metas@.len() ==> r == (if entity.generation == 1
                && self.spec_cursor() < 0 && (entity.id as int) < self.metas@.len()
                - self.spec_cursor() {
                Ok::<EntityLocation, EcsError>(spec_empty_location())
            } else {
                Err::<EntityLocation, EcsError>(EcsError::EntityNotFound)
            }),
    {
        if self.metas.len() <= entity.id as usize {
            let free: i64 = self.free_cursor;
            if entity.generation == 1 && free < 0 && (entity.id as i64) < (
            -free) + self.metas.len() as i64 {
                return Ok(EntityLocation { archetype: 0, index: u32::MAX });
            } else {
                return Err(EcsError::EntityNotFound);
            }
        }
        let meta: EntityMeta = self.metas[entity.id as usize];
        if meta.generation != entity.generation || meta.location.index == u32::MAX {
            return Err(EcsError::EntityNotFound);
        }
        Ok(meta.location)
    }

    /// A mutable reference to a live entity's location.
    pub fn get_mut(&mut self, entity: Entity) -> (r: Result<&mut EntityLocation, EcsError>)
        requires
            old(self).wf(),
        ensures
            match r {
                Ok(loc) => {
                    &&& old(self).spec_alive(entity)
                    &&& *loc == old(self).metas@[entity.id as int].location
                    &&& final(self).metas@ == old(self).metas@.update(
                        entity.id as int,
                        EntityMeta {
                            generation: entity.generation,
                            location: *final(loc),
                        },
                    )
                    &&& final(self).spec_pending() == old(self).spec_pending()
                    &&& final(self).spec_cursor() == old(self).spec_cursor()
                    &&& final(self).spec_len() == old(self).spec_len()
                },
                Err(e) => {
                    &&& e == EcsError::EntityNotFound
                    &&& !old(self).spec_alive(entity)
                    &&& *final(self) == *old(self)
                },
            },
    {
        if (entity.id as usize) >= self.metas.len() {
            return Err(EcsError::EntityNotFound);
        }
        let generation: u32 = self.metas[entity.id as usize].generation;
        let index: u32 = self.metas[entity.id as usize].location.index;
        if generation != entity.generation || index == u32::MAX {
            return Err(EcsError::EntityNotFound);
        }
        let meta = &mut self.metas[entity.id as usize];
        Ok(&mut meta.location)
    }

    /// Forgets every entity and pending id.
    pub fn clear(&mut self)
        ensures
            final(self).wf(),
            final(self).flushed(),
            final(self).metas@.len() == 0,
            final(self).spec_len() == 0,
    {
        self.metas.clear();
        self.pending.clear();
        self.free_cursor = 0;
        self.len = 0;
    }

    /// The number of live entities.
    pub fn len(&self) -> (r: u32)
        ensures
            r == self.spec_len(),
    {
        self.len
    }
}

impl Default for Entities {
    /// The empty allocator.
    fn default() -> (r: Self)
        ensures
            r.wf(),
            r.flushed(),
            r.metas@.len() == 0,
            r.spec_len() == 0,
    {
        Entities::new()
    }
}

} // verus!
