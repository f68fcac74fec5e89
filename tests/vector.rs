use ecs::vector::{Vector2, Vector3};

#[test]
fn vect2_add() {
    let expected = Vector2 { x: 20, y: 20 };
    let actual = Vector2 { x: 0, y: 0 } + expected;

    assert_eq!(actual, expected);
}

#[test]
fn vect2_add_assign() {
    let expected = Vector2 { x: 20, y: 20 };
    let mut actual = Vector2 { x: 0, y: 0 };
    actual += expected;

    assert_eq!(actual, expected);
}

#[test]
fn vect2_mul() {
    let expected = Vector2 { x: 20, y: 20 };
    let actual = Vector2 { x: 10, y: 10 } * 2;

    assert_eq!(actual, expected);
}

#[test]
fn vect2_default() {
    let expected = Vector2 { x: 0, y: 0 };
    let actual = Vector2::default();

    assert_eq!(actual, expected);
}

#[test]
fn vect3_add() {
    let expected = Vector3 { x: 30, y: 30, z: 30 };
    let actual = Vector3 { x: 0, y: 0, z: 0 } + expected;

    assert_eq!(actual, expected);
}

#[test]
fn vect3_add_assign() {
    let expected = Vector3 { x: 30, y: 30, z: 30 };
    let mut actual = Vector3 { x: 0, y: 0, z: 0 };
    actual += expected;

    assert_eq!(actual, expected);
}

#[test]
fn vect3_mul() {
    let expected = Vector3 { x: 30, y: 30, z: 30 };
    let actual = Vector3 { x: 10, y: 10, z: 10 } * 3;

    assert_eq!(actual, expected);
}

#[test]
fn vect3_default() {
    let expected = Vector3 { x: 0, y: 0, z: 0 };
    let actual = Vector3::default();

    assert_eq!(actual, expected);
}

#[test]
fn vect2_sub_and_sub_assign() {
    let a = Vector2 { x: 5, y: -3 };
    let b = Vector2 { x: 2, y: 4 };
    assert_eq!(a - b, Vector2 { x: 3, y: -7 });
    let mut c = a;
    c -= b;
    assert_eq!(c, Vector2 { x: 3, y: -7 });
    c *= 2;
    assert_eq!(c, Vector2 { x: 6, y: -14 });
}

#[test]
fn vect3_sub_and_mul_assign() {
    let a = Vector3 { x: 5, y: 6, z: 7 };
    let b = Vector3 { x: 1, y: 2, z: 3 };
    assert_eq!(a - b, Vector3 { x: 4, y: 4, z: 4 });
    let mut c = a;
    c -= b;
    c *= 3;
    assert_eq!(c, Vector3 { x: 12, y: 12, z: 12 });
}
