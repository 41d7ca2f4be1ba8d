use maidsafe_types::ImmutableData;
use maidsafe_types::ImmutableDataBackup;
use maidsafe_types::ImmutableDataSacrificial;
use maidsafe_types::Parser;
use maidsafe_types::Random;

#[test]
fn immutable_data_creation() {
    let value = "immutable data value".to_string().into_bytes();

    let immutable_data = ImmutableData::new(value);
    let expected_immutable_data_name: Vec<u8> = vec![
        159, 28, 158, 82, 111, 71, 227, 109, 120, 45, 228, 100, 234, 157, 240, 163, 26, 92, 25,
        195, 33, 242, 165, 217, 200, 250, 172, 221, 164, 213, 154, 188, 113, 52, 69, 200, 200, 83,
        225, 132, 45, 124, 44, 35, 17, 101, 13, 241, 238, 36, 16, 115, 113, 147, 91, 107, 232,
        138, 16, 203, 244, 205, 47, 143,
    ];
    assert_eq!(expected_immutable_data_name, immutable_data.name().get_id().to_vec());

    let immutable_data_backup = ImmutableDataBackup::new(immutable_data.clone());
    let expected_immutable_data_backup_name: Vec<u8> = vec![
        140, 99, 119, 200, 72, 50, 29, 211, 198, 136, 106, 83, 177, 162, 188, 40, 165, 188, 140,
        227, 90, 200, 93, 16, 215, 84, 103, 165, 223, 148, 52, 171, 174, 225, 156, 226, 199, 16,
        80, 117, 51, 211, 6, 48, 43, 22, 91, 67, 135, 69, 139, 117, 37, 121, 252, 21, 229, 32,
        218, 175, 152, 74, 46, 56,
    ];
    assert_eq!(expected_immutable_data_backup_name, immutable_data_backup.name().get_id().to_vec());

    let immutable_data_sacrificial = ImmutableDataSacrificial::new(immutable_data);
    let expected_immutable_data_sacrificial_name: Vec<u8> = vec![
        236, 182, 199, 97, 195, 93, 77, 163, 59, 37, 5, 127, 191, 97, 97, 230, 135, 17, 249, 224,
        193, 17, 34, 115, 46, 98, 102, 19, 64, 230, 48, 211, 197, 159, 124, 22, 95, 72, 98, 213,
        29, 181, 37, 74, 56, 171, 155, 21, 169, 184, 175, 67, 30, 133, 0, 164, 235, 85, 139, 145,
        54, 189, 65, 53,
    ];
    assert_eq!(
        expected_immutable_data_sacrificial_name,
        immutable_data_sacrificial.name().get_id().to_vec()
    );
}

#[test]
fn serialisation() {
    let immutable_data = ImmutableData::generate_random();
    let immutable_data_backup = ImmutableDataBackup::new(immutable_data.clone());
    let immutable_data_sacrificial = ImmutableDataSacrificial::new(immutable_data.clone());

    match Parser::decode(&immutable_data.serialised_contents()).unwrap() {
        Parser::ImmutData(decoded) => assert_eq!(immutable_data, decoded),
        _ => panic!("Unexpected!"),
    }
    match Parser::decode(&immutable_data_backup.serialised_contents()).unwrap() {
        Parser::ImmutDataBkup(decoded) => {
            assert_eq!(immutable_data_backup.value(), decoded.value())
        },
        _ => panic!("Unexpected!"),
    }
    match Parser::decode(&immutable_data_sacrificial.serialised_contents()).unwrap() {
        Parser::ImmutDataSacrificial(decoded) => {
            assert_eq!(immutable_data_sacrificial.value(), decoded.value())
        },
        _ => panic!("Unexpected!"),
    }
}

#[test]
fn equality() {
    let immutable_data_first = ImmutableData::generate_random();
    let immutable_data_second = ImmutableData::generate_random();
    let immutable_data_second_clone = immutable_data_second.clone();

    assert!(immutable_data_first != immutable_data_second);
    assert!(immutable_data_second_clone == immutable_data_second);

    let immutable_data_backup_first = ImmutableDataBackup::new(immutable_data_first.clone());
    let immutable_data_backup_second = ImmutableDataBackup::new(immutable_data_second.clone());
    let immutable_data_backup_second_clone = immutable_data_backup_second.clone();

    assert!(immutable_data_backup_first != immutable_data_backup_second);
    assert!(immutable_data_backup_second_clone == immutable_data_backup_second);

    let immutable_data_sacrificial_first =
        ImmutableDataSacrificial::new(immutable_data_first.clone());
    let immutable_data_sacrificial_second =
        ImmutableDataSacrificial::new(immutable_data_second.clone());
    let immutable_data_sacrificial_second_clone = immutable_data_sacrificial_second.clone();

    assert!(immutable_data_sacrificial_first != immutable_data_sacrificial_second);
    assert!(immutable_data_sacrificial_second_clone == immutable_data_sacrificial_second);
}
