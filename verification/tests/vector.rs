use space_physics::vector::BodyVector;

fn vector(x: i32, y: i32, z: i32) -> BodyVector {
    BodyVector { x, y, z }
}

#[test]
fn zero_vector_is_zero() {
    assert!(BodyVector::zero().is_zero());
    assert_eq!(BodyVector::zero(), vector(0, 0, 0));
}

#[test]
fn vector_with_one_component_is_not_zero() {
    assert!(!vector(1, 0, 0).is_zero());
    assert!(!vector(0, -1, 0).is_zero());
    assert!(!vector(0, 0, i32::MIN).is_zero());
}

#[test]
fn dot_product_sums_the_products_of_the_components() {
    assert_eq!(vector(1, 2, 3).dot(&vector(4, -5, 6)), 4 - 10 + 18);
    assert_eq!(vector(1, 0, 0).dot(&vector(0, 1, 0)), 0);
    assert_eq!(vector(0, 0, -7).dot(&vector(0, 0, -7)), 49);
    assert_eq!(vector(3, -4, 5).dot(&BodyVector::zero()), 0);
}

#[test]
fn dot_product_is_symmetric() {
    let a = vector(12, -7, 30);
    let b = vector(-5, 11, 2);
    assert_eq!(a.dot(&b), b.dot(&a));
    assert_eq!(a.dot(&b), -60 - 77 + 60);
}

#[test]
fn dot_product_of_extreme_vectors_does_not_overflow() {
    let low = vector(i32::MIN, i32::MIN, i32::MIN);
    let high = vector(i32::MAX, i32::MAX, i32::MAX);
    let square = (i32::MIN as i128) * (i32::MIN as i128);
    assert_eq!(low.dot(&low), 3 * square);
    assert_eq!(low.dot(&high), 3 * (i32::MIN as i128) * (i32::MAX as i128));
    assert_eq!(high.dot(&high), 3 * (i32::MAX as i128) * (i32::MAX as i128));
}
