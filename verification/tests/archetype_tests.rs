//! Tests of archetype slot management and component type metadata.

use luxseed::archetype::{Archetype, Component, TypeMeta};

struct Position;

// Outside the verifier, a component supplies its key through both trait
// items as plain functions returning the same value.
impl Component for Position {
    fn spec_type_key() -> u64 {
        11
    }

    fn type_key() -> u64 {
        11
    }
}

struct Velocity;

impl Component for Velocity {
    fn spec_type_key() -> u64 {
        22
    }

    fn type_key() -> u64 {
        22
    }
}

fn meta(id: u64, name: &str, size: usize, align: usize) -> TypeMeta {
    TypeMeta::new(id, name, size, align)
}

#[test]
fn archetype_knows_its_component_types() {
    let archetype = Archetype::new(vec![meta(11, "position", 12, 4)]);
    assert!(archetype.has::<Position>());
    assert!(!archetype.has::<Velocity>());
}

#[test]
fn alloc_fills_slots_in_order_and_grows() {
    let mut archetype = Archetype::new(vec![meta(11, "position", 12, 4)]);
    assert!(archetype.is_empty());
    assert_eq!(archetype.capacity(), 0);
    for expected in 0..100u32 {
        let slot = archetype.alloc_slot(1000 + expected);
        assert_eq!(slot, expected);
    }
    assert_eq!(archetype.len(), 100);
    assert!(archetype.capacity() >= 100);
}

#[test]
fn reserve_makes_room_without_changing_len() {
    let mut archetype = Archetype::new(Vec::new());
    archetype.alloc_slot(7);
    archetype.reserve(200);
    assert_eq!(archetype.len(), 1);
    assert!(archetype.capacity() >= 201);
}

#[test]
fn type_metadata_reports_plain_values() {
    let m = meta(42, "transform", 64, 16);
    assert_eq!(m.type_id(), 42);
    assert_eq!(m.name(), "transform");
    assert_eq!(m.layout().size, 64);
    assert_eq!(m.layout().align, 16);
}

#[test]
fn assert_types_checks_the_canonical_order() {
    let ordered = vec![meta(1, "a", 16, 16), meta(2, "b", 8, 8), meta(3, "c", 1, 8)];
    assert!(Archetype::assert_types(&ordered));
    let repeated = vec![meta(3, "c", 1, 8), meta(3, "c", 1, 8)];
    assert!(!Archetype::assert_types(&repeated));
    let misordered = vec![meta(1, "a", 1, 1), meta(2, "b", 8, 8)];
    assert!(!Archetype::assert_types(&misordered));
}
