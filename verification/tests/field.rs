use sonic_core::fr::Fr;

#[test]
fn add_small_values() {
    let mut a = Fr::from_u64(2);
    a.add_assign(&Fr::from_u64(3));
    assert_eq!(a, Fr::from_u64(5));
}

#[test]
fn mul_small_values() {
    let mut a = Fr::from_u64(3);
    a.mul_assign(&Fr::from_u64(5));
    assert_eq!(a, Fr::from_u64(15));
}

#[test]
fn sub_wraps_below_zero() {
    let mut a = Fr::from_u64(7);
    a.sub_assign(&Fr::from_u64(9));
    let mut e = Fr::zero();
    e.sub_assign(&Fr::from_u64(2));
    assert_eq!(a, e);
    assert!(!a.is_zero());
}

#[test]
fn negate_and_add_cancels() {
    let mut a = Fr::from_u64(11);
    a.negate();
    a.add_assign(&Fr::from_u64(11));
    assert!(a.is_zero());
}

#[test]
fn negate_zero_is_zero() {
    let mut a = Fr::zero();
    a.negate();
    assert!(a.is_zero());
}

#[test]
fn inverse_of_two() {
    let two = Fr::from_u64(2);
    let inv = two.inverse().unwrap();
    let mut p = inv;
    p.mul_assign(&two);
    assert_eq!(p, Fr::one());
}

#[test]
fn inverse_of_zero_is_none() {
    assert!(Fr::zero().inverse().is_none());
}

#[test]
fn pow_small() {
    assert_eq!(Fr::from_u64(2).pow(10), Fr::from_u64(1024));
    assert_eq!(Fr::from_u64(5).pow(0), Fr::one());
    assert_eq!(Fr::from_u64(5).pow(1), Fr::from_u64(5));
}
