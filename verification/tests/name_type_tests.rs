use maidsafe_types::NameType;

#[test]
fn serialisation_name_type() {
    let obj_before = NameType::generate_random();
    let encoded = obj_before.serialised_contents();

    let obj_after = NameType::decode(&encoded).unwrap();
    assert_eq!(obj_before, obj_after);
}

#[test]
fn name_type_equal_assertion() {
    let type1 = NameType::generate_random();
    let type1_clone = type1.clone();
    let type2 = NameType::generate_random();
    assert_eq!(type1, type1_clone);
    assert!(type1 == type1_clone);
    assert!(!(type1 != type1_clone));
    assert!(type1 != type2);
}

#[test]
fn name_type_validity_assertion() {
    assert!(NameType([1u8; 64]).is_valid());
    assert!(!NameType([0u8; 64]).is_valid());
}

#[test]
fn closer_to_target_orders_identifiers() {
    let target = NameType([0u8; 64]);
    let mut a = [0u8; 64];
    let mut b = [0u8; 64];
    let mut c = [0u8; 64];
    a[0] = 1;
    b[0] = 2;
    c[0] = 3;
    let a = NameType(a);
    let b = NameType(b);
    let c = NameType(c);

    assert!(NameType::closer_to_target(&a, &b, &target));
    assert!(NameType::closer_to_target(&b, &c, &target));
    assert!(NameType::closer_to_target(&a, &c, &target));
    assert!(!NameType::closer_to_target(&b, &a, &target));
    // Identical distances: neither side is strictly closer.
    assert!(!NameType::closer_to_target(&a, &a, &target));
}
