use bonsai_relay::text::{
    bytes_eq, hex_decode, hex_encode, strip_hex_prefix_bytes, to_lower_ascii, to_upper_ascii,
};

#[test]
fn hex_encode_is_lowercase_pairs() {
    assert_eq!(hex_encode(&vec![0xDE, 0xAD, 0x01]), b"dead01".to_vec());
    assert_eq!(hex_encode(&Vec::new()), Vec::<u8>::new());
}

#[test]
fn hex_decode_accepts_both_cases() {
    assert_eq!(hex_decode(&b"DEad01".to_vec()), Some(vec![0xDE, 0xAD, 0x01]));
}

#[test]
fn hex_decode_rejects_odd_and_bad() {
    assert_eq!(hex_decode(&b"abc".to_vec()), None);
    assert_eq!(hex_decode(&b"ag".to_vec()), None);
}

#[test]
fn hex_round_trip_concrete() {
    let bytes: Vec<u8> = (0u8..=255).collect();
    assert_eq!(hex_decode(&hex_encode(&bytes)), Some(bytes));
}

#[test]
fn strip_removes_every_leading_prefix_pair() {
    assert_eq!(strip_hex_prefix_bytes(&b"0x0xab".to_vec()), b"ab".to_vec());
    assert_eq!(strip_hex_prefix_bytes(&b"ab0x".to_vec()), b"ab0x".to_vec());
    assert_eq!(strip_hex_prefix_bytes(&b"0x".to_vec()), Vec::<u8>::new());
}

#[test]
fn ascii_case_folding() {
    assert_eq!(to_upper_ascii(&b"gUest-01".to_vec()), b"GUEST-01".to_vec());
    assert_eq!(to_lower_ascii(&b"gUest-01".to_vec()), b"guest-01".to_vec());
}

#[test]
fn byte_equality() {
    assert!(bytes_eq(&b"abc".to_vec(), &b"abc".to_vec()));
    assert!(!bytes_eq(&b"abc".to_vec(), &b"abd".to_vec()));
    assert!(!bytes_eq(&b"abc".to_vec(), &b"ab".to_vec()));
}
