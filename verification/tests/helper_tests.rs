use maidsafe_types::helper::convert_to_array;
use maidsafe_types::helper::slice_equal;

#[test]
fn compare_u8_equal() {
    let data = "some data".to_string().into_bytes();
    assert!(slice_equal(&data, &data));

    let data_copy = data.clone();
    assert!(slice_equal(&data, &data_copy));
    assert!(slice_equal(&data_copy, &data));
}

#[test]
fn compare_u8_not_equal() {
    let data1 = "some data".to_string().into_bytes();
    let data2 = "some daty".to_string().into_bytes();
    assert!(!slice_equal(&data1, &data2));
    assert!(!slice_equal(&data2, &data1));
}

#[test]
fn compare_u8_unequal_length() {
    let data1 = "some dat".to_string().into_bytes();
    let data2 = "some data".to_string().into_bytes();
    assert!(!slice_equal(&data1, &data2));
    assert!(!slice_equal(&data2, &data1));
}

#[test]
fn compare_string_equal() {
    let one = "some string".to_string();
    let two = "some two".to_string();

    let mut data = Vec::<String>::with_capacity(2);
    data.push(one);
    data.push(two);

    assert!(slice_equal(&data, &data));

    let data2 = data.clone();
    assert!(slice_equal(&data, &data2));
    assert!(slice_equal(&data2, &data));
}

#[test]
fn copy_strings_to_array() {
    let one = "some string".to_string();
    let two = "some two".to_string();

    let mut data = Vec::<String>::with_capacity(2);
    data.push(one);
    data.push(two);

    let data2 = data.clone();
    let result = convert_to_array(data2, 2).unwrap();
    assert!(slice_equal(&data, &result));
}

#[test]
fn copy_strings_to_bad_array() {
    let one = "some string".to_string();
    let two = "some two".to_string();

    let mut data = Vec::<String>::with_capacity(2);
    data.push(one);
    data.push(two);

    let data2 = data.clone();
    assert!(convert_to_array(data2, 1).is_none());
    assert!(convert_to_array(data, 3).is_none());
}
