//! Tests of the entity allocator: generational identity, LIFO reuse, and
//! the randomized allocate/free workout.

use luxseed::entity::{EcsError, Entities, Entity, EntityLocation};
use rand::rngs::StdRng;
use rand::{Rng, SeedableRng};
use std::collections::{HashMap, HashSet};

#[test]
fn alloc_and_free() {
    let mut rng = StdRng::seed_from_u64(0xFEEDFACEDEADF00D);

    let mut e = Entities::default();
    let mut first_unused = 0u32;
    let mut id_to_gen: HashMap<u32, u32> = Default::default();
    let mut free_set: HashSet<u32> = Default::default();
    let mut len = 0;

    for _ in 0..100 {
        let alloc = rng.gen_bool(0.7);
        if alloc || first_unused == 0 {
            let entity = e.alloc_entity();
            e.metas[entity.id as usize].location.index = 0;
            len += 1;

            let id = entity.id;
            if !free_set.is_empty() {
                // This should have come from the freelist.
                assert!(free_set.remove(&id));
            } else if id >= first_unused {
                first_unused = id + 1;
            }

            e.get_mut(entity).unwrap().index = 37;

            assert!(id_to_gen.insert(id, entity.generation).is_none());
        } else {
            // Free a random ID, whether or not it's in use, and check for errors.
            let id = rng.gen_range(0..first_unused);

            let generation = id_to_gen.remove(&id);
            let entity = Entity { id, generation: generation.unwrap_or(1) };

            assert_eq!(e.free_entity(entity).is_ok(), generation.is_some());
            if generation.is_some() {
                len -= 1;
            }

            free_set.insert(id);
        }
        assert_eq!(e.len(), len);
    }
}

#[test]
fn alloc_reuses_freed_id_with_bumped_generation() {
    let mut e = Entities::new();
    let e0 = e.alloc_entity();
    assert_eq!(e0.id, 0);
    assert_eq!(e0.generation, 1);
    let e1 = e.alloc_entity();
    assert_eq!(e1.id, 1);
    // Occupy the slots so the entities are live.
    e.metas[0].location.index = 5;
    e.metas[1].location.index = 6;

    let freed = e.free_entity(e0).unwrap();
    assert_eq!(freed, EntityLocation { archetype: 0, index: 5 });
    // The stale identity no longer resolves.
    assert_eq!(e.get(e0), Err(EcsError::EntityNotFound));
    assert!(!e.contains(e0));

    // LIFO reuse with a bumped generation.
    let e2 = e.alloc_entity();
    assert_eq!(e2.id, 0);
    assert_eq!(e2.generation, 2);
    assert_ne!(e2.generation, e0.generation);
    // The old identity still fails even though the id is back in use.
    e.metas[0].location.index = 7;
    assert_eq!(e.get(e0), Err(EcsError::EntityNotFound));
    assert_eq!(e.get(e2), Ok(EntityLocation { archetype: 0, index: 7 }));
}

#[test]
fn free_of_unknown_entity_reports_not_found() {
    let mut e = Entities::new();
    let err = e.free_entity(Entity { id: 3, generation: 1 });
    assert_eq!(err, Err(EcsError::EntityNotFound));
    assert_eq!(e.len(), 0);
}

#[test]
fn reserve_and_flush_materializes_entities() {
    let mut e = Entities::new();
    let a = e.alloc_entity();
    e.metas[a.id as usize].location.index = 0;
    // Reserve two fresh identities and materialize them.
    let r1 = e.reserve_entity();
    let r2 = e.reserve_entity();
    assert_eq!(r1.id, 1);
    assert_eq!(r2.id, 2);
    // Reserved-but-unflushed identities are visible as vacant.
    assert!(e.contains(r2));
    assert_eq!(e.get(r2), Ok(EntityLocation { archetype: 0, index: u32::MAX }));
    e.flush_reserved_entities(EntityLocation { archetype: 0, index: 9 });
    assert_eq!(e.len(), 3);
    assert!(e.contains(r1));
    assert_eq!(e.get(r2), Ok(EntityLocation { archetype: 0, index: 9 }));
}

#[test]
fn clear_forgets_everything() {
    let mut e = Entities::new();
    let a = e.alloc_entity();
    e.metas[a.id as usize].location.index = 0;
    assert_eq!(e.len(), 1);
    e.clear();
    assert_eq!(e.len(), 0);
    assert!(!e.contains(a));
}
