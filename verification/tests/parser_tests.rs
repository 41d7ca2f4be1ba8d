use maidsafe_types::DecodeError;
use maidsafe_types::IdType;
use maidsafe_types::ImmutableData;
use maidsafe_types::Parser;
use maidsafe_types::PublicIdType;
use maidsafe_types::RevocationIdType;
use maidsafe_types::MaidTypeTags;
use maidsafe_types::crypto::BoxPublicKey;
use maidsafe_types::crypto::SignPublicKey;
use maidsafe_types::crypto::verify_self_signed;
use maidsafe_types::codec::u64_to_ascii;
use maidsafe_types::data_tags::AN_MAID_TAG;
use maidsafe_types::data_tags::IMMUTABLE_DATA_TAG;
use maidsafe_types::helper::calculate_name;

#[test]
fn unknown_tag_returned_not_error() {
    for tag in [0u64, 42, 5483000, u64::MAX] {
        let mut stream = tag.to_le_bytes().to_vec();
        stream.extend_from_slice(b"whatever follows the tag");
        match Parser::decode(&stream).unwrap() {
            Parser::Unknown(t) => assert_eq!(t, tag),
            _ => panic!("Unexpected!"),
        }
        // A bare unknown tag with no payload at all is unknown too.
        match Parser::decode(&tag.to_le_bytes()).unwrap() {
            Parser::Unknown(t) => assert_eq!(t, tag),
            _ => panic!("Unexpected!"),
        }
    }
}

#[test]
fn short_stream_is_bad_tag() {
    assert_eq!(Parser::decode(&[]).unwrap_err(), DecodeError::BadTag);
    assert_eq!(Parser::decode(&[1, 2, 3, 4, 5, 6, 7]).unwrap_err(), DecodeError::BadTag);
}

#[test]
fn truncated_field_is_bad_size() {
    // A registered tag whose field claims more bytes than the stream holds.
    let mut stream = IMMUTABLE_DATA_TAG.to_le_bytes().to_vec();
    stream.extend_from_slice(&100u64.to_le_bytes());
    stream.extend_from_slice(&[1, 2, 3]);
    assert_eq!(Parser::decode(&stream).unwrap_err(), DecodeError::BadSize(IMMUTABLE_DATA_TAG));

    // Bytes after the last field are a size error as well.
    let mut whole = ImmutableData::new(vec![1, 2, 3]).serialised_contents();
    whole.push(0);
    assert_eq!(Parser::decode(&whole).unwrap_err(), DecodeError::BadSize(IMMUTABLE_DATA_TAG));
}

#[test]
fn malformed_tag_text_is_bad_tag() {
    let revocation = RevocationIdType::new::<MaidTypeTags>();
    let mut encoded = revocation.serialised_contents();
    // The first tag field's text starts right after the envelope tag and the
    // field's length prefix; overwrite one digit with a letter.
    assert!(encoded[16].is_ascii_digit());
    encoded[16] = b'x';
    assert_eq!(Parser::decode(&encoded).unwrap_err(), DecodeError::BadTag);
    // The envelope tag is untouched, so the stream still dispatched to the
    // revocation decoder rather than coming back unknown.
    assert_eq!(u64::from_le_bytes(encoded[0..8].try_into().unwrap()), AN_MAID_TAG);
}

#[test]
fn self_signature_scenario() {
    // Encode a record with public key K and self-signature S = sign(...),
    // decode it, and check the signature binds K to itself.
    let revocation_maid = RevocationIdType::new::<MaidTypeTags>();
    let maid = IdType::new(&revocation_maid);
    let public_maid = PublicIdType::new(&maid, &revocation_maid);

    let encoded = public_maid.serialised_contents();
    let decoded = match Parser::decode(&encoded).unwrap() {
        Parser::PubMaid(record) => record,
        _ => panic!("Unexpected!"),
    };
    assert_eq!(decoded, public_maid);

    let mut payload: Vec<u8> = Vec::new();
    payload.extend_from_slice(&decoded.public_keys().0.0);
    payload.extend_from_slice(&decoded.public_keys().1.0);
    payload.extend_from_slice(&decoded.revocation_public_key().0);
    payload.extend_from_slice(&u64_to_ascii(decoded.type_tag()));
    assert!(verify_self_signed(decoded.revocation_public_key(), decoded.signature(), &payload));
}

#[test]
fn flipped_signature_rejected() {
    let revocation_maid = RevocationIdType::new::<MaidTypeTags>();
    let maid = IdType::new(&revocation_maid);
    let public_maid = PublicIdType::new(&maid, &revocation_maid);

    let mut encoded = public_maid.serialised_contents();
    // The self-signature is the last field: flip one of its bytes.
    let sig_start = encoded.len() - 64;
    encoded[sig_start] ^= 1;
    assert_eq!(Parser::decode(&encoded).unwrap_err(), DecodeError::BadSignature);
}

#[test]
fn calculate_name_digest() {
    let keys = (SignPublicKey([1u8; 32]), BoxPublicKey([2u8; 32]));
    let expected: Vec<u8> = vec![
        252, 146, 26, 150, 10, 152, 103, 40, 58, 105, 88, 251, 239, 78, 93, 137, 18, 61, 211, 210,
        135, 115, 239, 115, 51, 157, 10, 65, 178, 121, 107, 55, 188, 63, 219, 142, 228, 191, 17,
        18, 188, 210, 44, 76, 184, 131, 144, 157, 12, 61, 30, 104, 24, 70, 41, 194, 114, 240, 84,
        91, 85, 68, 77, 0,
    ];
    assert_eq!(calculate_name(&keys).get_id().to_vec(), expected);
}
