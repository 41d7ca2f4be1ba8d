use maidsafe_types::IdType;
use maidsafe_types::Parser;
use maidsafe_types::Random;
use maidsafe_types::crypto::open_signed;

#[test]
fn id_type_serialisation_maid() {
    let obj_before = IdType::generate_random();
    let encoded = obj_before.serialised_contents();

    let obj_after = match Parser::decode(&encoded).unwrap() {
        Parser::Maid(decoded) => decoded,
        _ => panic!("Unexpected!"),
    };

    assert_eq!(obj_before, obj_after);
    // The encoding carries the secret keys too; byte-identical re-encoding
    // shows every key came through.
    assert_eq!(encoded, obj_after.serialised_contents());
}

#[test]
fn id_type_generation() {
    let maid1 = IdType::generate_random();
    let maid2 = IdType::generate_random();
    let maid2_clone = maid2.clone();

    assert_eq!(maid2, maid2_clone);
    assert!(!(maid2 != maid2_clone));
    assert!(maid1 != maid2);

    let random_bytes: Vec<u8> = (0..100).map(|_| rand::random::<u8>()).collect();
    {
        let sign1 = maid1.sign(&random_bytes);
        let sign2 = maid2.sign(&random_bytes);
        assert!(sign1 != sign2);

        assert!(open_signed(&sign1, &maid1.public_keys().0).is_some());
        assert!(open_signed(&sign2, &maid1.public_keys().0).is_none());

        assert!(open_signed(&sign2, &maid2.public_keys().0).is_some());
        assert!(open_signed(&sign1, &maid2.public_keys().0).is_none());
    }
    {
        let maid3 = IdType::generate_random();

        let encrypt1 = maid1.seal(&random_bytes, &maid3.public_keys().1);
        let encrypt2 = maid2.seal(&random_bytes, &maid3.public_keys().1);
        assert!(encrypt1.0 != encrypt2.0);

        assert!(maid3.open(&encrypt1.0, &encrypt1.1, &maid1.public_keys().1).is_ok());
        assert!(maid3.open(&encrypt1.0, &encrypt1.1, &maid2.public_keys().1).is_err());

        assert!(maid3.open(&encrypt2.0, &encrypt2.1, &maid2.public_keys().1).is_ok());
        assert!(maid3.open(&encrypt2.0, &encrypt2.1, &maid1.public_keys().1).is_err());
    }
}
