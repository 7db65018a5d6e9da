use vecmath::scalar::RealField;
use vecmath::vector::{Vector, VectorError};

fn v2<T>(x: T, y: T) -> Vector<T> {
    Vector::Vector2 { x, y }
}

fn v3<T>(x: T, y: T, z: T) -> Vector<T> {
    Vector::Vector3 { x, y, z }
}

fn v4<T>(r: T, g: T, b: T, a: T) -> Vector<T> {
    Vector::Vector4 { r, g, b, a }
}

#[test]
fn cross_of_unit_x_and_unit_y_is_unit_z() {
    let a = v3(1i32, 0, 0);
    let b = v3(0i32, 1, 0);
    assert_eq!(a.cross(b), Ok(v3(0, 0, 1)));
}

#[test]
fn cross_follows_the_formula() {
    let a = v3(2i64, 3, 4);
    let b = v3(5i64, 6, 7);
    // (3*7 - 4*6, 4*5 - 2*7, 2*6 - 3*5)
    assert_eq!(a.cross(b), Ok(v3(-3, 6, -3)));
}

#[test]
fn add_is_componentwise_in_every_shape() {
    assert_eq!(v2(1u8, 2).add(v2(3, 4)), Ok(v2(4, 6)));
    assert_eq!(v3(1i16, -2, 3).add(v3(10, 20, -30)), Ok(v3(11, 18, -27)));
    assert_eq!(v4(1u32, 2, 3, 4).add(v4(5, 6, 7, 8)), Ok(v4(6, 8, 10, 12)));
}

#[test]
fn sub_is_componentwise_in_every_shape() {
    assert_eq!(v2(5i8, 2).sub(v2(3, 4)), Ok(v2(2, -2)));
    assert_eq!(v3(10u64, 20, 30).sub(v3(1, 2, 3)), Ok(v3(9, 18, 27)));
    assert_eq!(v4(1isize, 2, 3, 4).sub(v4(4, 3, 2, 1)), Ok(v4(-3, -1, 1, 3)));
}

#[test]
fn scale_multiplies_every_component() {
    assert_eq!(v2(3usize, 4).scale(2), v2(6, 8));
    assert_eq!(v3(1i32, -2, 3).scale(-3), v3(-3, 6, -9));
    assert_eq!(v4(1u128, 2, 3, 4).scale(10), v4(10, 20, 30, 40));
}

#[test]
fn dot_sums_pairwise_products() {
    assert_eq!(v2(1i32, 2).dot(v2(3, 4)), Ok(11));
    assert_eq!(v3(1u16, 2, 3).dot(v3(4, 5, 6)), Ok(32));
    assert_eq!(v4(1i128, -2, 3, -4).dot(v4(5, 6, 7, 8)), Ok(-18));
}

#[test]
fn dot_may_pass_through_negative_partial_sums() {
    assert_eq!(v3(-100i8, 100, 1).dot(v3(1, 1, 1)), Ok(1));
}

#[test]
fn dot_reaches_the_largest_value_of_the_type() {
    assert_eq!(v2(255u8, 0).dot(v2(1, 7)), Ok(255));
    assert_eq!(v2(i32::MAX, 0).dot(v2(1, 1)), Ok(i32::MAX));
}

#[test]
fn mismatched_shapes_are_refused() {
    let a = v2(1i32, 2);
    let b = v3(1i32, 2, 3);
    assert_eq!(a.add(b), Err(VectorError::ShapeMismatch));
    assert_eq!(b.sub(a), Err(VectorError::ShapeMismatch));
    assert_eq!(a.dot(b), Err(VectorError::ShapeMismatch));
    assert_eq!(a.cross(b), Err(VectorError::ShapeMismatch));
    assert_eq!(b.cross(a), Err(VectorError::ShapeMismatch));
    assert_eq!(v4(1i32, 2, 3, 4).dot(b), Err(VectorError::ShapeMismatch));
}

#[test]
fn cross_outside_three_dimensions_is_refused() {
    assert_eq!(v2(1i32, 2).cross(v2(3, 4)), Err(VectorError::NotThreeDimensional));
    assert_eq!(
        v4(1i32, 2, 3, 4).cross(v4(5, 6, 7, 8)),
        Err(VectorError::NotThreeDimensional)
    );
}

#[test]
fn dot_is_bilinear_on_examples() {
    let a = v3(1i64, -2, 3);
    let b = v3(4i64, 5, -6);
    let c = v3(-7i64, 8, 9);
    let s = 5i64;
    let bc = b.add(c).unwrap();
    assert_eq!(a.dot(bc).unwrap(), a.dot(b).unwrap() + a.dot(c).unwrap());
    assert_eq!(a.dot(b.scale(s)).unwrap(), s * a.dot(b).unwrap());
    let ab = a.add(b).unwrap();
    assert_eq!(ab.dot(c).unwrap(), a.dot(c).unwrap() + b.dot(c).unwrap());
    assert_eq!(a.scale(s).dot(b).unwrap(), s * a.dot(b).unwrap());
}

#[test]
fn cross_is_orthogonal_to_its_operands() {
    let a = v3(2i32, -3, 5);
    let b = v3(7i32, 11, -13);
    let w = a.cross(b).unwrap();
    assert_eq!(w.dot(a), Ok(0));
    assert_eq!(w.dot(b), Ok(0));
}

#[test]
fn cross_is_antisymmetric() {
    let a = v3(2i32, -3, 5);
    let b = v3(7i32, 11, -13);
    let ab = a.cross(b).unwrap();
    let ba = b.cross(a).unwrap();
    assert_eq!(ab, ba.scale(-1));
    assert_ne!(ab, ba);
}

#[test]
fn scalar_operations_are_exact() {
    assert_eq!(RealField::plus(200u8, 55), 255);
    assert_eq!(RealField::minus(-100i8, 28), -128);
    assert_eq!(RealField::times(-4i64, 6), -24);
    assert_eq!(RealField::times(usize::MAX, 1), usize::MAX);
}
