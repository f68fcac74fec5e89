use ecs::entity::Entity;
use ecs::entity_manager::EntityManagerU32;

#[test]
fn make_entity() {
    let actual = EntityManagerU32::make_entity(10, 2);
    let expected = Entity {
        id: 0b100000000000000000001010,
    };
    assert_eq!(actual, expected);
}

#[test]
fn entity_index() {
    let e = Entity {
        id: 0b10000000000000000001010,
    };
    let actual = e.index();
    let expected = 10;
    assert_eq!(actual, expected);
}

#[test]
fn entity_generation() {
    let e = Entity {
        id: 0b100000000000000000001010,
    };
    let actual = e.generation();
    let expected = 2;
    assert_eq!(actual, expected);
}

#[test]
fn entity_value() {
    let e = Entity {
        id: 0b100000000000000000001010,
    };
    let actual = e.value();
    let expected = 0b100000000000000000001010;
    assert_eq!(actual, expected);
}

#[test]
fn entity_bit_layout_extremes() {
    let e = EntityManagerU32::make_entity(4_194_303, 255);
    assert_eq!(e.index(), 4_194_303);
    assert_eq!(e.generation(), 255);
    assert_eq!(e.value(), 0x3fff_ffff);
    let top = Entity { id: 0xffff_ffff };
    assert_eq!(top.index(), 4_194_303);
    assert_eq!(top.generation(), 255);
}

#[test]
fn create_then_destroy_liveness() {
    let mut m = EntityManagerU32::new();
    let e = m.create();
    assert!(m.alive(&e));
    m.destroy(&e);
    assert!(!m.alive(&e));
}

#[test]
fn first_entity_and_no_early_reuse() {
    let mut m = EntityManagerU32::new();
    let e0 = m.create();
    assert_eq!(e0.index(), 0);
    assert_eq!(e0.generation(), 0);
    m.destroy(&e0);
    let e1 = m.create();
    assert_eq!(e1.index(), 1);
    assert_eq!(e1.generation(), 0);
    assert!(!m.alive(&e0));
    assert!(m.alive(&e1));
}

#[test]
fn recycle_after_threshold() {
    let mut m = EntityManagerU32::new();
    let mut handles = Vec::new();
    for i in 0..1025u32 {
        let e = m.create();
        assert_eq!(e.index(), i);
        m.destroy(&e);
        handles.push(e);
    }
    let reused = m.create();
    assert_eq!(reused.index(), 0);
    assert_eq!(reused.generation(), 1);
    assert!(m.alive(&reused));
    assert!(!m.alive(&handles[0]));
    let next = m.create();
    assert_eq!(next.index(), 1025);
    assert_eq!(next.generation(), 0);
}

#[test]
fn generation_wraps_at_256() {
    let mut m = EntityManagerU32::new();
    let e = m.create();
    let mut current = e;
    for _ in 0..256 {
        m.destroy(&current);
        current = EntityManagerU32::make_entity(0, ((current.generation() + 1) % 256) as u8);
    }
    assert_eq!(current.generation(), 0);
    assert!(m.alive(&e));
}

#[test]
fn spare_counts_fresh_and_recyclable_indices() {
    let mut m = EntityManagerU32::new();
    assert_eq!(m.spare(), 4_194_304);
    for _ in 0..1026 {
        let e = m.create();
        m.destroy(&e);
    }
    assert_eq!(m.spare(), 4_194_304 - 1026 + 2);
}
