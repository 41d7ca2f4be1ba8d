use maidsafe_types::NameType;
use maidsafe_types::Parser;
use maidsafe_types::Random;
use maidsafe_types::StructuredData;
use maidsafe_types::data_tags::STRUCTURED_DATA_TAG;

#[test]
fn structured_data_creation() {
    let structured_data = StructuredData::generate_random();
    let data = StructuredData::new(
        structured_data.name(),
        structured_data.owner(),
        structured_data.value(),
    );
    assert_eq!(data, structured_data);
    assert_eq!(structured_data.type_tag(), STRUCTURED_DATA_TAG);
}

#[test]
fn serialisation_structured_data() {
    let obj_before = StructuredData::generate_random();
    let obj_before_clone = obj_before.clone();
    let obj_before1 = StructuredData::generate_random();

    let encoded = obj_before.serialised_contents();

    match Parser::decode(&encoded).unwrap() {
        Parser::StructData(obj_after) => {
            assert_eq!(obj_before, obj_after);
            assert!(!(obj_before != obj_before_clone));
            assert!(obj_before != obj_before1);
        },
        _ => panic!("Unexpected!"),
    }
}

#[test]
fn merge_common_prefix() {
    let name = NameType([7u8; 64]);
    let owner = NameType([9u8; 64]);
    let a = NameType([1u8; 64]);
    let b = NameType([2u8; 64]);
    let c = NameType([3u8; 64]);
    let d = NameType([4u8; 64]);

    let record = StructuredData::new(name, owner, vec![a, b, c]);
    let replica_same = StructuredData::new(name, owner, vec![a, b, d]);
    let replica_other_name = StructuredData::new(NameType([8u8; 64]), owner, vec![d]);

    // The replica under another name is ignored; the matching replica cuts
    // the list to the common prefix [a, b].
    let merged = record.merge(vec![replica_other_name, replica_same]).unwrap();
    assert_eq!(merged.name(), name);
    assert_eq!(merged.owner(), owner);
    assert_eq!(merged.value(), vec![a, b]);

    // No common prefix at all merges to nothing.
    let disjoint = StructuredData::new(name, owner, vec![d]);
    assert!(record.merge(vec![disjoint]).is_none());
}
