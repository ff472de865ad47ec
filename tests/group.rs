use algebra::group::GroupElement;

#[test]
fn test_add() {
    let a = GroupElement::new(1);
    let b = GroupElement::new(2);
    let c = a + b;
    assert_eq!(c, GroupElement::new(3));
}

#[test]
fn test_mul() {
    let a = GroupElement::new(2);
    let b = GroupElement::new(3);
    let c = a * b;
    assert_eq!(c, GroupElement::new(6));
}

#[test]
fn test_neg() {
    let a = GroupElement::new(1);
    let b = -a;
    assert_eq!(b, GroupElement::new(-1));
}

#[test]
fn test_default() {
    let a = GroupElement::<i32>::default();
    assert_eq!(a, GroupElement::new(0));
}

#[test]
fn test_addtive_identity() {
    let a = GroupElement::new(1);
    let b = GroupElement::default();
    let c = a + b;
    assert_eq!(c, GroupElement::new(1));
}

#[test]
fn test_multiplicative_identity() {
    let a = GroupElement::new(1);
    let b = GroupElement::new(2);
    let c = a * b;
    assert_eq!(c, GroupElement::new(2));
}

#[test]
fn test_negation() {
    let a = GroupElement::new(1);
    let b = GroupElement::new(2);
    let c = a + -b;
    assert_eq!(c, GroupElement::new(-1));
}

#[test]
fn group_add_is_associative() {
    let (a, b, c) = (GroupElement::new(7), GroupElement::new(-11), GroupElement::new(40));
    assert_eq!((a + b) + c, a + (b + c));
    assert_eq!((a + b) + c, GroupElement::new(36));
}

#[test]
fn group_default_is_identity_at_the_extremes() {
    let zero = GroupElement::<i32>::default();
    assert_eq!(GroupElement::new(i32::MAX) + zero, GroupElement::new(i32::MAX));
    assert_eq!(zero + GroupElement::new(i32::MIN), GroupElement::new(i32::MIN));
}

#[test]
fn group_element_plus_negation_is_zero() {
    let a = GroupElement::new(i32::MAX);
    assert_eq!(a + -a, GroupElement::new(0));
    let b = GroupElement::new(-5);
    assert_eq!(-b, GroupElement::new(5));
}

#[test]
fn group_one_is_multiplicative_identity() {
    let one = GroupElement::new(1);
    let a = GroupElement::new(-9);
    assert_eq!(a * one, a);
    assert_eq!(one * a, a);
}

#[test]
fn group_operands_are_left_unchanged() {
    let a = GroupElement::new(4);
    let b = GroupElement::new(5);
    let _ = a + b;
    let _ = a * b;
    assert_eq!(a, GroupElement::new(4));
    assert_eq!(b, GroupElement::new(5));
}

#[test]
fn group_wraps_other_scalar_types() {
    let a = GroupElement::new(200u8);
    let b = GroupElement::new(55u8);
    assert_eq!(a + b, GroupElement::new(255u8));
    assert_eq!(GroupElement::<i64>::default(), GroupElement::new(0i64));
}
