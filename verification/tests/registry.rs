use rend3::registry::ResourceRegistry;

#[test]
fn new_registry_is_empty() {
    let registry: ResourceRegistry<u32> = ResourceRegistry::new();
    assert_eq!(registry.count(), 0);
    assert!(registry.try_get(0).is_none());
    assert!(registry.iter().is_empty());
}

#[test]
fn allocate_counts_up_from_zero() {
    let mut registry: ResourceRegistry<u32> = ResourceRegistry::new();
    assert_eq!(registry.allocate(), 0);
    assert_eq!(registry.allocate(), 1);
    assert_eq!(registry.allocate(), 2);
    assert_eq!(registry.count(), 0);
}

#[test]
fn allocated_handles_are_pairwise_distinct() {
    let mut registry: ResourceRegistry<u32> = ResourceRegistry::new();
    let mut handles = Vec::new();
    for _ in 0..200 {
        handles.push(registry.allocate());
    }
    for i in 0..handles.len() {
        for j in (i + 1)..handles.len() {
            assert_ne!(handles[i], handles[j]);
        }
    }
}

#[test]
fn allocate_or_reuse_keeps_a_live_handle() {
    let mut registry: ResourceRegistry<&str> = ResourceRegistry::new();
    let h = registry.allocate();
    registry.insert(h, "mesh");
    assert_eq!(registry.allocate_or_reuse(h), h);
    // The counter did not move: the next fresh handle is still 1.
    assert_eq!(registry.allocate(), 1);
}

#[test]
fn allocate_or_reuse_replaces_a_stale_handle() {
    let mut registry: ResourceRegistry<&str> = ResourceRegistry::new();
    let h = registry.allocate();
    registry.insert(h, "mesh");
    registry.remove(h);
    let fresh = registry.allocate_or_reuse(h);
    assert_eq!(fresh, 1);
    assert_ne!(fresh, h);
    assert_eq!(registry.allocate_or_reuse(77), 2);
}

#[test]
fn insert_appends_new_handles_in_order() {
    let mut registry: ResourceRegistry<&str> = ResourceRegistry::new();
    assert_eq!(registry.insert(10, "a"), 0);
    assert_eq!(registry.insert(20, "b"), 1);
    assert_eq!(registry.insert(30, "c"), 2);
    assert_eq!(registry.count(), 3);
    assert_eq!(registry.iter(), vec![(10, &"a"), (20, &"b"), (30, &"c")]);
    assert_eq!(registry.values().to_vec(), vec!["a", "b", "c"]);
}

#[test]
fn insert_is_an_upsert() {
    let mut registry: ResourceRegistry<&str> = ResourceRegistry::new();
    registry.insert(10, "a");
    registry.insert(20, "b");
    assert_eq!(registry.insert(10, "z"), 0);
    assert_eq!(registry.count(), 2);
    assert_eq!(*registry.get(10), "z");
    assert_eq!(registry.iter(), vec![(10, &"z"), (20, &"b")]);
}

#[test]
fn remove_swaps_the_last_entry_into_the_slot() {
    let mut registry: ResourceRegistry<&str> = ResourceRegistry::new();
    registry.insert(10, "a");
    registry.insert(20, "b");
    registry.insert(30, "c");
    registry.insert(40, "d");
    let (slot, value) = registry.remove(20);
    assert_eq!(slot, 1);
    assert_eq!(value, "b");
    assert_eq!(registry.count(), 3);
    assert!(registry.try_get(20).is_none());
    // The entry that was last now sits in the vacated slot.
    assert_eq!(registry.get_index_of(40), 1);
    assert_eq!(registry.iter(), vec![(10, &"a"), (40, &"d"), (30, &"c")]);
}

#[test]
fn remove_of_the_last_entry_moves_nothing() {
    let mut registry: ResourceRegistry<&str> = ResourceRegistry::new();
    registry.insert(10, "a");
    registry.insert(20, "b");
    let (slot, value) = registry.remove(20);
    assert_eq!(slot, 1);
    assert_eq!(value, "b");
    assert_eq!(registry.iter(), vec![(10, &"a")]);
}

#[test]
fn removed_handle_is_gone() {
    let mut registry: ResourceRegistry<u64> = ResourceRegistry::new();
    let h = registry.allocate();
    registry.insert(h, 5);
    assert_eq!(registry.try_get(h), Some(&5));
    registry.remove(h);
    assert_eq!(registry.try_get(h), None);
    assert_eq!(registry.count(), 0);
}

#[test]
fn remove_then_add_again_keeps_the_second_value() {
    let mut registry: ResourceRegistry<&str> = ResourceRegistry::new();
    let h = registry.allocate();
    registry.insert(h, "first");
    let (_, dropped) = registry.remove(h);
    assert_eq!(dropped, "first");
    registry.insert(h, "second");
    assert_eq!(registry.count(), 1);
    assert_eq!(*registry.get(h), "second");
}

#[test]
fn get_mut_changes_one_value_in_place() {
    let mut registry: ResourceRegistry<u64> = ResourceRegistry::new();
    registry.insert(3, 30);
    registry.insert(4, 40);
    *registry.get_mut(4) += 2;
    assert_eq!(registry.iter(), vec![(3, &30), (4, &42)]);
}

#[test]
fn values_mut_changes_values_and_keeps_handles() {
    let mut registry: ResourceRegistry<u64> = ResourceRegistry::new();
    registry.insert(3, 30);
    registry.insert(4, 40);
    for value in registry.values_mut().iter_mut() {
        *value += 1;
    }
    assert_eq!(registry.iter(), vec![(3, &31), (4, &41)]);
    assert_eq!(registry.get_index_of(3), 0);
    assert_eq!(registry.get_index_of(4), 1);
}

#[test]
fn insert_does_not_move_the_counter() {
    let mut registry: ResourceRegistry<u64> = ResourceRegistry::new();
    registry.insert(0, 1);
    registry.insert(1, 2);
    // Handles that were stored without being allocated are issued later all
    // the same: allocation does not look at the table.
    assert_eq!(registry.allocate(), 0);
    assert_eq!(registry.allocate(), 1);
}
