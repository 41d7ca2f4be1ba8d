use maidsafe_types::IdType;
use maidsafe_types::MpidTypeTags;
use maidsafe_types::Parser;
use maidsafe_types::PublicIdType;
use maidsafe_types::Random;
use maidsafe_types::RevocationIdType;
use maidsafe_types::codec::u64_to_ascii;
use maidsafe_types::crypto::detach;

#[test]
fn create_public_mpid() {
    let revocation_mpid = RevocationIdType::new::<MpidTypeTags>();
    let mpid = IdType::new(&revocation_mpid);
    PublicIdType::new(&mpid, &revocation_mpid);
}

#[test]
fn public_id_type_serialisation_public_maid() {
    let obj_before = PublicIdType::generate_random();
    let encoded = obj_before.serialised_contents();

    match Parser::decode(&encoded).unwrap() {
        Parser::PubMaid(obj_after) => assert_eq!(obj_before, obj_after),
        _ => panic!("Unexpected!"),
    }
}

#[test]
fn public_id_type_equality_assertion_public_maid() {
    let public_maid_first = PublicIdType::generate_random();
    let public_maid_second = public_maid_first.clone();
    let public_maid_third = PublicIdType::generate_random();
    assert_eq!(public_maid_first, public_maid_second);
    assert!(public_maid_first != public_maid_third);
}

#[test]
fn invariant_check() {
    let revocation_maid = RevocationIdType::new::<maidsafe_types::MaidTypeTags>();
    let maid = IdType::new(&revocation_maid);
    let public_maid = PublicIdType::new(&maid, &revocation_maid);

    let type_tag = public_maid.type_tag();
    let public_id_keys = public_maid.public_keys();
    let public_revocation_key = public_maid.revocation_public_key();

    let mut combined: Vec<u8> = Vec::new();
    combined.extend_from_slice(&public_id_keys.0.0);
    combined.extend_from_slice(&public_id_keys.1.0);
    combined.extend_from_slice(&public_revocation_key.0);
    combined.extend_from_slice(&u64_to_ascii(type_tag));

    let signed = revocation_maid.sign(&combined);
    let signature = detach(&signed).unwrap();

    assert_eq!(signature.0.to_vec(), public_maid.signature().0.to_vec());
}
