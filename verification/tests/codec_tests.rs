use maidsafe_types::codec::convert_to_u64;
use maidsafe_types::codec::from_fixed;
use maidsafe_types::codec::to_fixed;
use maidsafe_types::codec::u64_to_ascii;
use maidsafe_types::crypto::Signature;
use maidsafe_types::crypto::attach;
use maidsafe_types::crypto::detach;

#[test]
fn to_fixed_exact_or_error() {
    let exact: [u8; 4] = to_fixed::<4>(&[1, 2, 3, 4]).unwrap();
    assert_eq!(exact, [1, 2, 3, 4]);

    assert!(to_fixed::<4>(&[1, 2, 3]).is_err());
    assert!(to_fixed::<4>(&[1, 2, 3, 4, 5]).is_err());
    assert!(to_fixed::<64>(&[]).is_err());

    let empty: [u8; 0] = to_fixed::<0>(&[]).unwrap();
    assert_eq!(empty.len(), 0);
}

#[test]
fn from_fixed_round_trip() {
    let arr: [u8; 5] = [9, 8, 7, 6, 5];
    let buf = from_fixed(&arr);
    assert_eq!(buf, vec![9, 8, 7, 6, 5]);
    let back: [u8; 5] = to_fixed::<5>(&buf).unwrap();
    assert_eq!(back, arr);
}

#[test]
fn convert_to_u64_parses_digits() {
    assert_eq!(convert_to_u64(b"0".to_vec()), Some(0));
    assert_eq!(convert_to_u64(b"5483102".to_vec()), Some(5483102));
    assert_eq!(convert_to_u64(b"007".to_vec()), Some(7));
    assert_eq!(convert_to_u64(b"18446744073709551615".to_vec()), Some(u64::MAX));
}

#[test]
fn convert_to_u64_rejects_non_digits() {
    assert_eq!(convert_to_u64(Vec::new()), None);
    assert_eq!(convert_to_u64(b"12a".to_vec()), None);
    assert_eq!(convert_to_u64(b"+12".to_vec()), None);
    assert_eq!(convert_to_u64(b"-1".to_vec()), None);
    assert_eq!(convert_to_u64(b" 1".to_vec()), None);
}

#[test]
fn convert_to_u64_bounds() {
    // One past u64::MAX must overflow to None.
    assert_eq!(convert_to_u64(b"18446744073709551616".to_vec()), None);
    assert_eq!(convert_to_u64(b"99999999999999999999999".to_vec()), None);
}

#[test]
fn u64_to_ascii_values() {
    assert_eq!(u64_to_ascii(0), b"0".to_vec());
    assert_eq!(u64_to_ascii(7), b"7".to_vec());
    assert_eq!(u64_to_ascii(5483001), b"5483001".to_vec());
    assert_eq!(u64_to_ascii(u64::MAX), b"18446744073709551615".to_vec());
}

#[test]
fn detach_attach_round_trip() {
    let mut sig_bytes = [0u8; 64];
    for (i, b) in sig_bytes.iter_mut().enumerate() {
        *b = i as u8;
    }
    let sig = Signature(sig_bytes);

    let payload = b"an arbitrary payload".to_vec();
    let blob = attach(&sig, &payload);
    assert_eq!(blob.len(), 64 + payload.len());
    assert_eq!(detach(&blob).unwrap().0, sig.0);

    // An empty payload works too.
    let blob_empty = attach(&sig, &[]);
    assert_eq!(detach(&blob_empty).unwrap().0, sig.0);
}

#[test]
fn detach_short_buffer() {
    assert!(detach(&[0u8; 63]).is_err());
    assert!(detach(&[]).is_err());
    assert!(detach(&[0u8; 64]).is_ok());
}
