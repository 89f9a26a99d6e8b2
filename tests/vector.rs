use hengine::vector::Vector3;

#[test]
fn test_vector3_new() {
    let v = Vector3::new(1, 2, 3);
    assert_eq!(v.x, 1);
    assert_eq!(v.y, 2);
    assert_eq!(v.z, 3);
}

#[test]
fn test_vector3_dot() {
    let v1 = Vector3::new(1, 2, 3);
    let v2 = Vector3::new(4, 5, 6);
    assert_eq!(v1.dot(&v2), 32);
}

#[test]
fn test_vector3_cross() {
    let v1 = Vector3::new(1, 2, 3);
    let v2 = Vector3::new(4, 5, 6);
    let cross = v1.cross(&v2);
    assert_eq!(cross.x, -3);
    assert_eq!(cross.y, 6);
    assert_eq!(cross.z, -3);
}

#[test]
fn test_vector3_length() {
    let v = Vector3::new(1, 2, 2);
    assert_eq!(v.length(), 3);
}

#[test]
fn test_vector3_add() {
    let v1 = Vector3::new(1, 2, 3);
    let v2 = Vector3::new(4, 5, 6);
    let sum = v1 + v2;
    assert_eq!(sum.x, 5);
    assert_eq!(sum.y, 7);
    assert_eq!(sum.z, 9);
}

#[test]
fn test_vector3_sub() {
    let v1 = Vector3::new(1, 2, 3);
    let v2 = Vector3::new(4, 5, 6);
    let diff = v1 - v2;
    assert_eq!(diff.x, -3);
    assert_eq!(diff.y, -3);
    assert_eq!(diff.z, -3);
}

#[test]
fn test_vector3_mul() {
    let v = Vector3::new(1, 2, 3);
    let scaled = v * 2;
    assert_eq!(scaled.x, 2);
    assert_eq!(scaled.y, 4);
    assert_eq!(scaled.z, 6);
}

#[test]
fn test_vector3_div() {
    let v = Vector3::new(2, 4, 6);
    let scaled = v / 2;
    assert_eq!(scaled.x, 1);
    assert_eq!(scaled.y, 2);
    assert_eq!(scaled.z, 3);
}

#[test]
fn vector3_div_rounds_toward_zero() {
    let v = Vector3::new(-7, 7, -1);
    let q = v / 2;
    assert_eq!(q, Vector3::new(-3, 3, 0));
    let q = v / -2;
    assert_eq!(q, Vector3::new(3, -3, 0));
}

#[test]
fn vector3_length_rounds_down() {
    assert_eq!(Vector3::new(1, 1, 0).length(), 1);
    assert_eq!(Vector3::new(0, 0, 0).length(), 0);
    assert_eq!(Vector3::new(3, 4, 12).length(), 13);
    assert_eq!(Vector3::new(3_037_000_499, 0, 0).length(), 3_037_000_499);
}

#[test]
fn vector3_normalize_axis_and_zero() {
    assert_eq!(Vector3::new(0, 0, 5).normalize(), Vector3::new(0, 0, 1));
    assert_eq!(Vector3::new(-3, 0, 0).normalize(), Vector3::new(-1, 0, 0));
    assert_eq!(Vector3::new(0, 0, 0).normalize(), Vector3::new(0, 0, 0));
    assert_eq!(Vector3::new(1, 2, 2).normalize(), Vector3::new(0, 0, 0));
}

#[test]
fn vector3_distance_and_norm_squared() {
    let a = Vector3::new(1, 2, 3);
    let b = Vector3::new(4, 6, 3);
    assert_eq!(a.distance(&b), 5);
    assert_eq!(a.norm_squared(), 14);
    assert_eq!(Vector3::new(0, 0, 0).distance(&Vector3::new(1, 1, 1)), 1);
}
