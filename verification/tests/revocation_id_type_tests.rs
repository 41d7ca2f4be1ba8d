use maidsafe_types::MpidTypeTags;
use maidsafe_types::Parser;
use maidsafe_types::Random;
use maidsafe_types::RevocationIdType;
use maidsafe_types::crypto::open_signed;

#[test]
fn revocation_id_type_create_an_mpid() {
    let _ = RevocationIdType::new::<MpidTypeTags>();
}

#[test]
fn revocation_id_type_serialisation_an_maid() {
    let obj_before = RevocationIdType::generate_random();
    let encoded = obj_before.serialised_contents();

    let obj_after = match Parser::decode(&encoded).unwrap() {
        Parser::AnMaid(decoded) => decoded,
        _ => panic!("Unexpected!"),
    };

    assert_eq!(obj_before, obj_after);
}

#[test]
fn revocation_id_type_equality_assertion_an_maid() {
    let first_obj = RevocationIdType::generate_random();
    let second_obj = RevocationIdType::generate_random();
    let cloned_obj = second_obj.clone();

    assert!(first_obj != second_obj);
    assert!(second_obj == cloned_obj);
}

#[test]
fn revocation_id_type_generation() {
    let maid1 = RevocationIdType::generate_random();
    let maid2 = RevocationIdType::generate_random();
    let maid2_clone = maid2.clone();

    assert_eq!(maid2, maid2_clone);
    assert!(!(maid2 != maid2_clone));
    assert!(maid1 != maid2);

    let random_bytes: Vec<u8> = (0..100).map(|_| rand::random::<u8>()).collect();
    {
        let sign1 = maid1.sign(&random_bytes);
        let sign2 = maid2.sign(&random_bytes);
        assert!(sign1 != sign2);

        assert!(open_signed(&sign1, maid1.public_key()).is_some());
        assert!(open_signed(&sign2, maid1.public_key()).is_none());

        assert!(open_signed(&sign2, maid2.public_key()).is_some());
        assert!(open_signed(&sign1, maid2.public_key()).is_none());
    }
}
