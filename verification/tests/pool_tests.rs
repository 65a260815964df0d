//! Tests of the generational handle pool: validity until free, generation
//! bumping on reuse, LIFO index reuse, and growth keeping old handles.

use luxseed::pool::{Handle, Handled, Pool};
use luxseed::registry::FenceEntry;

fn pool_of(size: usize) -> Pool<FenceEntry> {
    Pool::with_size(size)
}

#[test]
fn get_succeeds_until_free_then_fails() {
    let mut pool = pool_of(4);
    let (h, entry) = pool.malloc();
    entry.raw = 77;
    assert!(pool.is_match(h));
    assert_eq!(pool.get(h).unwrap().raw, 77);

    pool.free(h);
    assert!(!pool.is_match(h));
    assert!(pool.get(h).is_none());
    assert!(pool.get_mut(h).is_none());
}

#[test]
fn reused_index_carries_new_generation() {
    let mut pool = pool_of(4);
    let (h, _) = pool.malloc();
    pool.free(h);
    let (h2, _) = pool.malloc();
    assert_eq!(h2.index(), h.index());
    assert_ne!(h2.generation(), h.generation());
    // The stale handle still fails even though the index is reused.
    assert!(pool.get(h).is_none());
    assert!(pool.get(h2).is_some());
}

#[test]
fn lifo_reuse_and_generation_bump() {
    let mut pool = pool_of(4);
    let (h0, _) = pool.malloc();
    assert_eq!((h0.index(), h0.generation()), (0, 0));
    let (h1, _) = pool.malloc();
    assert_eq!((h1.index(), h1.generation()), (1, 0));
    pool.free(h0);
    let (h2, _) = pool.malloc();
    assert_eq!((h2.index(), h2.generation()), (0, 1));
}

#[test]
fn growth_keeps_previous_handles_valid() {
    let n: usize = 4;
    let mut pool = pool_of(n);
    let mut handles = Vec::new();
    for i in 0..n {
        let (h, entry) = pool.malloc();
        entry.raw = i as u64;
        handles.push(h);
    }
    // The (n+1)-th allocation grows the pool.
    let (extra, _) = pool.malloc();
    assert_eq!(extra.index() as usize, n);
    for (i, h) in handles.iter().enumerate() {
        assert!(pool.is_match(*h));
        assert_eq!(pool.get(*h).unwrap().raw, i as u64);
    }
}

#[test]
fn freeing_one_handle_leaves_others_alone() {
    let mut pool = pool_of(4);
    let (h0, e0) = pool.malloc();
    e0.raw = 10;
    let (h1, e1) = pool.malloc();
    e1.raw = 11;
    pool.free(h0);
    assert!(pool.get(h0).is_none());
    assert_eq!(pool.get(h1).unwrap().raw, 11);
}

#[test]
fn stale_free_is_ignored() {
    let mut pool = pool_of(2);
    let (h, _) = pool.malloc();
    pool.free(h);
    // Freeing the same stale handle again changes nothing further.
    pool.free(h);
    let (h2, _) = pool.malloc();
    assert_eq!(h2.index(), h.index());
    assert_eq!(h2.generation(), 1);
}

#[test]
fn default_handle_is_the_sentinel() {
    let h: Handle<luxseed::define::Fence> = Handle::default();
    assert_eq!(h.index(), u16::MAX);
    assert_eq!(h.generation(), u16::MAX);
    let pool = pool_of(8);
    assert!(!pool.is_match(h));
}

#[test]
fn unoccupied_entry_stores_no_handle() {
    let entry = FenceEntry::unoccupied();
    assert!(entry.get_handle().is_none());
}

#[test]
fn reused_slot_is_reset_to_the_unoccupied_value() {
    let mut pool = pool_of(2);
    let (h, entry) = pool.malloc();
    entry.raw = 99;
    pool.free(h);
    let (h2, entry2) = pool.malloc();
    assert_eq!(h2.index(), h.index());
    // The previous occupant's contents are gone: the slot came back as the
    // default construction, stamped with the new handle.
    assert_eq!(entry2.raw, 0);
    assert_eq!(entry2.get_handle().map(|s| (s.index(), s.generation())), Some((h2.index(), h2.generation())));
}
