use hengine::quaternion::Quaternion;
use hengine::vector::Vector3;

#[test]
fn quaternion_identity_and_new() {
    assert_eq!(Quaternion::identity(), Quaternion::new(1, 0, 0, 0));
    let q = Quaternion::new(4, 3, 2, 1);
    assert_eq!((q.w, q.x, q.y, q.z), (4, 3, 2, 1));
}

#[test]
fn quaternion_unit_products() {
    let i = Quaternion::new(0, 1, 0, 0);
    let j = Quaternion::new(0, 0, 1, 0);
    let k = Quaternion::new(0, 0, 0, 1);
    assert_eq!(i.multiply(&j), k);
    assert_eq!(j.multiply(&i), Quaternion::new(0, 0, 0, -1));
    assert_eq!(i.multiply(&i), Quaternion::new(-1, 0, 0, 0));
    assert_eq!(Quaternion::identity().multiply(&k), k);
}

#[test]
fn quaternion_general_product() {
    let a = Quaternion::new(1, 2, 3, 4);
    let b = Quaternion::new(5, 6, 7, 8);
    assert_eq!(a.multiply(&b), Quaternion::new(-60, 12, 30, 24));
}

#[test]
fn quaternion_conjugate_negates_vector_part() {
    let q = Quaternion::new(1, 2, -3, 4);
    assert_eq!(q.conjugate(), Quaternion::new(1, -2, 3, -4));
}

#[test]
fn quaternion_rotate_vector() {
    let v = Vector3::new(1, 2, 3);
    assert_eq!(Quaternion::identity().rotate_vector(&v), v);
    // A half turn about the z axis.
    let half_turn_z = Quaternion::new(0, 0, 0, 1);
    assert_eq!(half_turn_z.rotate_vector(&v), Vector3::new(-1, -2, 3));
}

#[test]
fn quaternion_normalize() {
    assert_eq!(Quaternion::new(0, 0, 0, 0).normalize(), Quaternion::identity());
    assert_eq!(Quaternion::new(0, 0, 5, 0).normalize(), Quaternion::new(0, 0, 1, 0));
    assert_eq!(Quaternion::new(-2, 0, 0, 0).normalize(), Quaternion::new(-1, 0, 0, 0));
}
