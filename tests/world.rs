use ecs::component::{Mesh, Position, Size};
use ecs::registry::Registry;
use ecs::vector::Vector2;
use ecs::world::World;

fn world_with_size_and_position() -> World {
    let mut w = World::new();
    w.component_registry.register::<Size>();
    w.component_registry.register::<Position>();
    w
}

#[test]
fn first_entity_then_no_early_reuse_and_size_round_trip() {
    let mut w = world_with_size_and_position();
    let e0 = w.create_entity();
    assert_eq!(e0.index(), 0);
    assert_eq!(e0.generation(), 0);
    w.destroy_entity(&e0);
    let e1 = w.create_entity();
    assert_eq!(e1.index(), 1);
    let fresh = w.create_entity();
    assert!(w.add_component(fresh, Size(3)).is_ok());
    let got = w.component_registry.get_component::<Size>(&fresh).map(|s| s.0);
    assert_eq!(got, Some(3));
}

#[test]
fn type_isolation() {
    let mut w = world_with_size_and_position();
    let e = w.create_entity();
    w.add_component(e, Size(1)).unwrap();
    assert!(w.component_registry.get_component::<Position>(&e).is_none());
    assert!(w.component_registry.get_component::<Size>(&e).is_some());
}

#[test]
fn remove_and_set_component() {
    let mut w = world_with_size_and_position();
    let e = w.create_entity();
    w.set_component(e, Size(5));
    assert!(w.component_registry.get_component::<Size>(&e).is_none());
    w.add_component_default::<Size>(e).unwrap();
    assert_eq!(w.component_registry.get_component::<Size>(&e).map(|s| s.0), Some(0));
    w.set_component(e, Size(5));
    assert_eq!(w.component_registry.get_component::<Size>(&e).map(|s| s.0), Some(5));
    w.remove_component::<Size>(e).unwrap();
    assert!(w.component_registry.get_component::<Size>(&e).is_none());
    w.remove_component::<Size>(e).unwrap();
}

#[test]
fn prune_dead_keeps_order_of_survivors() {
    let mut w = World::new();
    let a = w.create_entity();
    let b = w.create_entity();
    let c = w.create_entity();
    let d = w.create_entity();
    w.destroy_entity(&b);
    w.destroy_entity(&d);
    assert_eq!(w.entity_list.len(), 4);
    w.prune_dead();
    assert_eq!(w.entity_list, vec![a, c]);
}

#[test]
fn builder_done_lists_entity_with_components() {
    let mut w = world_with_size_and_position();
    let b = w.build_entity();
    let b = b.with(&mut w, Size(2));
    let b = b.with(&mut w, Vector2 { x: 1, y: 2 });
    assert!(w.entity_list.is_empty());
    let e = b.done(&mut w);
    assert_eq!(w.entity_list, vec![e]);
    assert!(w.entity_manager.alive(&e));
    assert_eq!(w.component_registry.get_component::<Position>(&e), Some(&Vector2 { x: 1, y: 2 }));
}

#[test]
fn builder_discard_rolls_back() {
    let mut w = world_with_size_and_position();
    let b = w.build_entity();
    let e = b.entity;
    let b = b.with(&mut w, Size(2));
    b.discard(&mut w);
    assert!(!w.entity_manager.alive(&e));
    assert!(w.component_registry.get_component::<Size>(&e).is_none());
    assert!(w.entity_list.is_empty());
}

#[test]
fn unregistered_type_has_no_store() {
    let reg = Registry::new();
    assert!(reg.get::<Size>().is_none());
    let mut w = World::new();
    let e = w.create_entity();
    assert!(w.component_registry.get_component::<Size>(&e).is_none());
}

#[test]
fn register_again_replaces_store() {
    let mut w = world_with_size_and_position();
    let e = w.create_entity();
    w.add_component(e, Size(9)).unwrap();
    w.component_registry.register::<Size>();
    assert!(w.component_registry.get_component::<Size>(&e).is_none());
    assert_eq!(w.component_registry.get::<Size>().map(|m| m.len()), Some(0));
}

#[test]
fn removing_or_setting_absent_component_changes_nothing() {
    let mut w = world_with_size_and_position();
    let a = w.create_entity();
    let b = w.create_entity();
    let c = w.create_entity();
    w.add_component(a, Size(1)).unwrap();
    w.add_component(c, Size(3)).unwrap();
    let before = w.component_registry.get::<Size>().unwrap().entities();
    w.remove_component::<Size>(b).unwrap();
    w.set_component(b, Size(9));
    assert_eq!(w.component_registry.get::<Size>().unwrap().entities(), before);
    assert!(w.component_registry.get_component::<Size>(&b).is_none());
}

#[test]
fn mutable_component_access() {
    let mut w = world_with_size_and_position();
    let a = w.create_entity();
    w.add_component(a, Size(1)).unwrap();
    if let Some(s) = w.component_registry.get_component_mut::<Size>(&a) {
        s.0 = 5;
    }
    assert_eq!(w.component_registry.get_component::<Size>(&a).map(|s| s.0), Some(5));
    let b = w.create_entity();
    assert!(w.component_registry.get_component_mut::<Size>(&b).is_none());
    let store = w.component_registry.get_mut::<Size>().unwrap();
    store.create(b, Size(7));
    assert_eq!(w.component_registry.get_component::<Size>(&b).map(|s| s.0), Some(7));
    assert!(w.component_registry.get_mut::<Mesh>().is_none());
}

#[test]
fn discard_keeps_other_entities_components() {
    let mut w = world_with_size_and_position();
    let keep = w.create_entity();
    w.add_component(keep, Size(4)).unwrap();
    let b = w.build_entity();
    let gone = b.entity;
    let b = b.with(&mut w, Size(2));
    b.discard(&mut w);
    assert_eq!(w.component_registry.get_component::<Size>(&keep).map(|s| s.0), Some(4));
    assert!(w.component_registry.get_component::<Size>(&gone).is_none());
}
