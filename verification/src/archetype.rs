//! Archetypes: groups of entities that share one set of component types.
//!
//! Component types are described by plain metadata — a numeric type key, a
//! name, and a memory layout — and each concrete component type exposes its
//! key through the [`Component`] capability trait.  An archetype keeps the
//! entity ids stored in it in a growable slot array.

use vstd::pervasive::VecAdditionalExecFns;
use vstd::prelude::*;

verus! {

/// The growth step of an archetype's entity array.
pub const ENTITY_MIN_INCREMENT: u32 = 64;

/// The memory layout of a component type, as plain values.
#[derive(Debug, Clone, Copy, PartialEq, Eq, Structural)]
pub struct TypeLayout {
    pub size: usize,
    pub align: usize,
}

/// A component type: something with a distinct numeric type key.
pub trait Component {
    /// The type's key, as contracts see it.
    spec fn spec_type_key() -> u64;

    fn type_key() -> (k: u64)
        ensures
            k == Self::spec_type_key(),
    ;
}

/// A set of components spawned together: it can describe its types.
pub trait ComponentBundle {
    fn type_infos(&self) -> Vec<TypeMeta>;
}

/// Metadata of one component type: its key, its name, and its layout.
#[derive(Debug, Clone)]
pub struct TypeMeta {
    type_id: u64,
    name: String,
    layout: TypeLayout,
}

impl TypeMeta {
    /// Spec view of the type key.
    pub closed spec fn spec_type_id(&self) -> u64 {
        self.type_id
    }

    /// Spec view of the type name.
    pub closed spec fn spec_name(&self) -> Seq<char> {
        self.name@
    }

    /// Spec view of the layout.
    pub closed spec fn spec_layout(&self) -> TypeLayout {
        self.layout
    }

    /// Builds the metadata of a component type from its plain description.
    pub fn new(type_id: u64, name: &str, size: usize, align: usize) -> (r: Self)
        ensures
            r.spec_type_id() == type_id,
            r.spec_name() == name@,
            r.spec_layout() == (TypeLayout { size, align }),
    {
        TypeMeta { type_id, name: name.to_owned(), layout: TypeLayout { size, align } }
    }

    /// The type's key.
    pub fn type_id(&self) -> (r: u64)
        ensures
            r == self.spec_type_id(),
    {
        self.type_id
    }

    /// The type's name.
    pub fn name(&self) -> (r: &String)
        ensures
            r@ == self.spec_name(),
    {
        &self.name
    }

    /// The type's memory layout.
    pub fn layout(&self) -> (r: TypeLayout)
        ensures
            r == self.spec_layout(),
    {
        self.layout
    }
}

/// Metadata lists are kept ordered by decreasing alignment and, within one
/// alignment, by increasing type key — strictly, so no type repeats.
pub open spec fn spec_types_ordered(types: Seq<TypeMeta>) -> bool {
    forall|i: int|
        0 <= i < types.len() - 1 ==> (#[trigger] types[i].spec_layout()).align
            > types[i + 1].spec_layout().align || (types[i].spec_layout().align
            == types[i + 1].spec_layout().align && types[i].spec_type_id() < types[
            i + 1
        ].spec_type_id())
}

/// A group of entities sharing one component type set.
pub struct Archetype {
    types: Vec<TypeMeta>,
    type_ids: Vec<u64>,
    len: u32,
    entities: Vec<u32>,
}

impl Archetype {
    /// The component type keys of this archetype, in order.
    pub closed spec fn spec_type_ids(&self) -> Seq<u64> {
        self.type_ids@
    }

    /// The number of entities stored.
    pub closed spec fn spec_len(&self) -> u32 {
        self.len
    }

    /// The slot capacity.
    pub closed spec fn spec_capacity(&self) -> int {
        self.entities@.len() as int
    }

    /// The entity id stored in slot `i`.
    pub closed spec fn spec_entity_at(&self, i: int) -> u32 {
        self.entities@[i]
    }

    /// Shape: the stored entities fit the slots, and the cached key list
    /// mirrors the metadata list.
    pub open spec fn wf(&self) -> bool {
        &&& self.spec_len() as int <= self.spec_capacity()
        &&& self.spec_capacity() <= u32::MAX as int
    }

    /// Builds an archetype over the given component types, with no
    /// entities and no slots yet.
    pub fn new(types: Vec<TypeMeta>) -> (r: Self)
        ensures
            r.wf(),
            r.spec_len() == 0,
            r.spec_capacity() == 0,
            r.spec_type_ids() == types@.map_values(|t: TypeMeta| t.spec_type_id()),
    {
        let mut type_ids: Vec<u64> = Vec::new();
        let n: usize = types.len();
        let mut i: usize = 0;
        while i < n
            invariant
                i <= n,
                n == types@.len(),
                type_ids@.len() == i as int,
                forall|j: int| 0 <= j < i ==> type_ids@[j] == types@[j].spec_type_id(),
            decreases n - i,
        {
            type_ids.push(types[i].type_id());
            i = i + 1;
        }
        proof {
            assert(type_ids@ =~= types@.map_values(|t: TypeMeta| t.spec_type_id()));
        }
        Archetype { type_ids, types, len: 0, entities: Vec::new() }
    }

    /// Whether this archetype's type set includes the component type `T`.
    pub fn has<T: Component>(&self) -> (r: bool)
        ensures
            r == self.spec_type_ids().contains(T::spec_type_key()),
    {
        let key: u64 = T::type_key();
        let n: usize = self.type_ids.len();
        let mut i: usize = 0;
        while i < n
            invariant
                i <= n,
                n == self.spec_type_ids().len(),
                key == T::spec_type_key(),
                forall|j: int| 0 <= j < i ==> self.spec_type_ids()[j] != key,
            decreases n - i,
        {
            if self.type_ids[i] == key {
                return true;
            }
            i = i + 1;
        }
        false
    }

    /// Stores an entity id in the next slot, growing the slot array first
    /// if it is full, and returns the slot index.
    pub fn alloc_slot(&mut self, entity_id: u32) -> (r: u32)
        requires
            old(self).wf(),
            old(self).spec_capacity() < 0x4000_0000,
        ensures
            final(self).wf(),
            r == old(self).spec_len(),
            final(self).spec_len() == old(self).spec_len() + 1,
            final(self).spec_entity_at(r as int) == entity_id,
            forall|i: int|
                0 <= i < old(self).spec_len() ==> final(self).spec_entity_at(i) == old(
                    self,
                ).spec_entity_at(i),
            final(self).spec_type_ids() == old(self).spec_type_ids(),
    {
        if self.len() == self.capacity() {
            self.grow(ENTITY_MIN_INCREMENT);
        }
        self.entities.set(self.len as usize, entity_id);
        self.len = self.len + 1;
        self.len - 1
    }

    /// Makes room for `additional` more entities.
    pub fn reserve(&mut self, additional: u32)
        requires
            old(self).wf(),
            old(self).spec_capacity() < 0x4000_0000,
            additional < 0x4000_0000,
        ensures
            final(self).wf(),
            final(self).spec_len() == old(self).spec_len(),
            final(self).spec_capacity() >= old(self).spec_len() + additional,
            forall|i: int|
                0 <= i < old(self).spec_len() ==> final(self).spec_entity_at(i) == old(
                    self,
                ).spec_entity_at(i),
            final(self).spec_type_ids() == old(self).spec_type_ids(),
    {
        if self.len() + additional > self.capacity() {
            let shortfall: u32 = additional - (self.capacity() - self.len());
            let increment: u32 = if shortfall > ENTITY_MIN_INCREMENT {
                shortfall
            } else {
                ENTITY_MIN_INCREMENT
            };
            self.grow(increment);
        }
    }

    /// Grows the slot array by at least `increment`, doubling when the
    /// current capacity is larger.
    fn grow(&mut self, increment: u32)
        requires
            old(self).wf(),
            old(self).spec_capacity() < 0x4000_0000,
            increment < 0x4000_0000,
        ensures
            final(self).wf(),
            final(self).spec_len() == old(self).spec_len(),
            final(self).spec_capacity() >= old(self).spec_capacity() + increment,
            forall|i: int|
                0 <= i < old(self).spec_len() ==> final(self).spec_entity_at(i) == old(
                    self,
                ).spec_entity_at(i),
            final(self).spec_type_ids() == old(self).spec_type_ids(),
    {
        let cap: u32 = self.capacity();
        let step: u32 = if cap > increment {
            cap
        } else {
            increment
        };
        self.grow_exact(step);
    }

    /// Grows the slot array by exactly `increment` vacant slots.
    fn grow_exact(&mut self, increment: u32)
        requires
            old(self).wf(),
            old(self).spec_capacity() + increment <= u32::MAX as int,
        ensures
            final(self).wf(),
            final(self).spec_len() == old(self).spec_len(),
            final(self).spec_capacity() == old(self).spec_capacity() + increment,
            forall|i: int|
                0 <= i < old(self).spec_capacity() ==> final(self).spec_entity_at(i) == old(
                    self,
                ).spec_entity_at(i),
            final(self).spec_type_ids() == old(self).spec_type_ids(),
    {
        let mut k: u32 = 0;
        while k < increment
            invariant
                k <= increment,
                old(self).spec_capacity() + increment <= u32::MAX as int,
                self.entities@.len() == old(self).spec_capacity() + k,
                self.entities@.subrange(0, old(self).spec_capacity()) == old(self).entities@,
                self.types == old(self).types,
                self.type_ids == old(self).type_ids,
                self.len == old(self).len,
                old(self).wf(),
            decreases increment - k,
        {
            self.entities.push(u32::MAX);
            k = k + 1;
        }
        proof {
            assert forall|i: int|
                0 <= i < old(self).spec_capacity() implies self.entities@[i] == old(
                self,
            ).entities@[i] by {
                assert(self.entities@.subrange(0, old(self).spec_capacity())[i]
                    == self.entities@[i]);
            }
        }
    }

    /// Whether the archetype holds no entities.
    pub fn is_empty(&self) -> (r: bool)
        ensures
            r == (self.spec_len() == 0),
    {
        self.len == 0
    }

    /// The number of entities stored.
    pub fn len(&self) -> (r: u32)
        ensures
            r == self.spec_len(),
    {
        self.len
    }

    /// The slot capacity.
    pub fn capacity(&self) -> (r: u32)
        requires
            self.wf(),
        ensures
            r as int == self.spec_capacity(),
    {
        self.entities.len() as u32
    }

    /// Whether a metadata list is in the canonical order: decreasing
    /// alignment, then increasing type key, with no repeated type.
    pub fn assert_types(types: &Vec<TypeMeta>) -> (r: bool)
        ensures
            r == spec_types_ordered(types@),
    {
        let n: usize = types.len();
        if n == 0 {
            return true;
        }
        let mut i: usize = 0;
        while i < n - 1
            invariant
                n == types@.len(),
                n >= 1,
                i <= n - 1,
                forall|j: int|
                    0 <= j < i ==> (#[trigger] types@[j].spec_layout()).align > types@[
                        j + 1
                    ].spec_layout().align || (types@[j].spec_layout().align == types@[
                        j + 1
                    ].spec_layout().align && types@[j].spec_type_id() < types@[
                        j + 1
                    ].spec_type_id()),
            decreases n - i,
        {
            let a = types[i].layout();
            let b = types[i + 1].layout();
            let ordered: bool = a.align > b.align || (a.align == b.align && types[i].type_id()
                < types[i + 1].type_id());
            if !ordered {
                return false;
            }
            i = i + 1;
        }
        true
    }
}

} // verus!
