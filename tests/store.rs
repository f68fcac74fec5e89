use ecs::component::Size;
use ecs::component_manager::Manager;
use ecs::entity_manager::EntityManagerU32;

#[test]
fn swap_remove_first_of_three() {
    let mut alloc = EntityManagerU32::new();
    let a = alloc.create();
    let b = alloc.create();
    let c = alloc.create();
    let mut store: Manager<u32> = Manager::new();
    assert_eq!(store.create(a, 10), 0);
    assert_eq!(store.create(b, 20), 1);
    assert_eq!(store.create(c, 30), 2);

    let ia = store.lookup(&a).unwrap();
    store.destroy(ia);

    assert_eq!(store.len(), 2);
    assert_eq!(store.lookup(&a), None);
    let ib = store.lookup(&b).unwrap();
    let ic = store.lookup(&c).unwrap();
    assert_eq!(ic, 0);
    assert_eq!(ib, 1);
    assert_eq!(*store.get(ib), 20);
    assert_eq!(*store.get(ic), 30);
    let ents = store.entities();
    assert_eq!(ents.len(), 2);
    assert!(ents.contains(&b) && ents.contains(&c));
}

#[test]
fn destroy_last_slot_drops_it() {
    let mut alloc = EntityManagerU32::new();
    let a = alloc.create();
    let b = alloc.create();
    let mut store: Manager<u32> = Manager::new();
    store.create(a, 1);
    store.create(b, 2);
    store.destroy(1);
    assert_eq!(store.len(), 1);
    assert_eq!(store.lookup(&b), None);
    assert_eq!(store.lookup(&a), Some(0));
    assert_eq!(store.entities(), vec![a]);
}

#[test]
fn create_twice_overwrites_in_place() {
    let mut alloc = EntityManagerU32::new();
    let a = alloc.create();
    let mut store: Manager<u32> = Manager::new();
    let i = store.create(a, 1);
    let j = store.create(a, 2);
    assert_eq!(i, j);
    assert_eq!(store.len(), 1);
    assert_eq!(store.get_e(&a), Some(&2));
}

#[test]
fn bijection_after_mixed_operations() {
    let mut alloc = EntityManagerU32::new();
    let mut es = Vec::new();
    for _ in 0..6 {
        es.push(alloc.create());
    }
    let mut store: Manager<usize> = Manager::new();
    for (k, e) in es.iter().enumerate() {
        store.create(*e, k);
    }
    let i = store.lookup(&es[2]).unwrap();
    store.destroy(i);
    let i = store.lookup(&es[0]).unwrap();
    store.destroy(i);
    store.create(es[2], 99);
    let ents = store.entities();
    assert_eq!(ents.len(), store.len());
    assert_eq!(ents.len(), 5);
    for (slot, e) in ents.iter().enumerate() {
        assert_eq!(store.lookup(e), Some(slot));
    }
    assert_eq!(store.get_e(&es[2]), Some(&99));
    assert_eq!(store.get_e(&es[5]), Some(&5));
}

#[test]
fn set_value_and_get_mut() {
    let mut alloc = EntityManagerU32::new();
    let a = alloc.create();
    let mut store: Manager<Size> = Manager::new();
    let i = store.create(a, Size(3));
    store.set_value(i, Size(4));
    assert_eq!(store.get(i).0, 4);
    store.get_mut(i).0 = 7;
    assert_eq!(store.get_e(&a).map(|s| s.0), Some(7));
}

#[test]
fn clean_all_drops_dead_entities() {
    let mut alloc = EntityManagerU32::new();
    let a = alloc.create();
    let b = alloc.create();
    let c = alloc.create();
    let mut store: Manager<u32> = Manager::new();
    store.create(a, 1);
    store.create(b, 2);
    store.create(c, 3);
    alloc.destroy(&a);
    alloc.destroy(&c);
    store.clean_all(&alloc);
    assert_eq!(store.len(), 1);
    assert_eq!(store.get_e(&b), Some(&2));
    assert_eq!(store.lookup(&a), None);
    assert_eq!(store.lookup(&c), None);
}
