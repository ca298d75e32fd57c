use add_lookup::field::FieldElement;

#[test]
fn field_identities() {
    assert_eq!(FieldElement::zero().value, 0);
    assert_eq!(FieldElement::one().value, 1);
    assert_eq!(FieldElement::from_u64(42).value, 42);
}

#[test]
fn field_addition_and_multiplication() {
    let seven = FieldElement::from_u64(7);
    let eight = FieldElement::from_u64(8);
    assert_eq!(seven.add(eight).value, 15);
    assert_eq!(seven.mul(eight).value, 56);
    assert_eq!(seven.add(FieldElement::zero()).value, 7);
    assert_eq!(seven.mul(FieldElement::one()).value, 7);
}

#[test]
fn field_equality_is_exact() {
    assert_eq!(FieldElement::from_u64(5), FieldElement::from_u64(5));
    assert_ne!(FieldElement::from_u64(5), FieldElement::from_u64(6));
}
