use bonsai_relay::errors::RelayError;
use bonsai_relay::registry::{resolve_guest_entry, ImageEntry};
use bonsai_relay::text::hex_encode;

fn sample_id() -> Vec<u8> {
    let mut id = vec![0u8; 32];
    for (i, b) in id.iter_mut().enumerate() {
        *b = (i as u8).wrapping_mul(7).wrapping_add(3);
    }
    id
}

fn sample_registry() -> Vec<ImageEntry> {
    vec![
        ImageEntry {
            name: b"FIBONACCI".to_vec(),
            image_id: sample_id(),
            elf: vec![1, 2, 3, 4],
        },
        ImageEntry {
            name: b"FACTORIAL".to_vec(),
            image_id: vec![0xEE; 32],
            elf: vec![9, 9, 9],
        },
    ]
}

#[test]
fn resolve_by_exact_name() {
    let list = sample_registry();
    let entry = resolve_guest_entry(&list, &b"FIBONACCI".to_vec()).unwrap();
    assert_eq!(entry.name, b"FIBONACCI".to_vec());
    assert_eq!(entry.image_id, sample_id());
}

#[test]
fn resolve_by_name_any_letter_case() {
    let list = sample_registry();
    for sel in [&b"fibonacci"[..], &b"FiBoNaCcI"[..], &b"fIBONACCI"[..]] {
        let entry = resolve_guest_entry(&list, &sel.to_vec()).unwrap();
        assert_eq!(entry.name, b"FIBONACCI".to_vec());
    }
}

#[test]
fn resolve_by_hex_id_with_and_without_prefix() {
    let list = sample_registry();
    let hex = hex_encode(&sample_id());
    let entry = resolve_guest_entry(&list, &hex).unwrap();
    assert_eq!(entry.name, b"FIBONACCI".to_vec());

    let mut prefixed = b"0x".to_vec();
    prefixed.extend_from_slice(&hex);
    let entry = resolve_guest_entry(&list, &prefixed).unwrap();
    assert_eq!(entry.name, b"FIBONACCI".to_vec());
}

#[test]
fn resolve_by_uppercase_hex_id() {
    let list = sample_registry();
    let hex: Vec<u8> = hex_encode(&sample_id())
        .iter()
        .map(|b| b.to_ascii_uppercase())
        .collect();
    let mut prefixed = b"0X".to_vec();
    prefixed.extend_from_slice(&hex);
    let entry = resolve_guest_entry(&list, &prefixed).unwrap();
    assert_eq!(entry.name, b"FIBONACCI".to_vec());
}

#[test]
fn resolve_unknown_selector_fails_with_unknown_image() {
    let list = sample_registry();
    let err = resolve_guest_entry(&list, &b"NO_SUCH_GUEST".to_vec()).unwrap_err();
    match err {
        RelayError::UnknownImage { selector, known } => {
            assert_eq!(selector, b"NO_SUCH_GUEST".to_vec());
            assert_eq!(known.len(), 2);
            assert_eq!(known[0], hex_encode(&sample_id()));
            assert_eq!(known[1], hex_encode(&vec![0xEE; 32]));
        }
        other => panic!("expected UnknownImage, got {:?}", other),
    }
}

#[test]
fn resolve_unknown_hex_id_fails() {
    let list = sample_registry();
    let err = resolve_guest_entry(&list, &hex_encode(&vec![0x55; 32])).unwrap_err();
    assert!(matches!(err, RelayError::UnknownImage { .. }));
}

#[test]
fn malformed_hex_falls_through_to_name_matching() {
    let list = sample_registry();
    // Odd length, not valid hex for 32 bytes, but a valid (case-folded) name.
    let err = resolve_guest_entry(&list, &b"0xzz".to_vec()).unwrap_err();
    assert!(matches!(err, RelayError::UnknownImage { .. }));
    // A 64-digit string that is valid hex but matches no id, and no name.
    let err = resolve_guest_entry(&list, &vec![b'a'; 64]).unwrap_err();
    assert!(matches!(err, RelayError::UnknownImage { .. }));
}

#[test]
fn first_matching_entry_wins() {
    let mut list = sample_registry();
    list.push(ImageEntry {
        name: b"FIBONACCI".to_vec(),
        image_id: vec![0x11; 32],
        elf: vec![7],
    });
    let entry = resolve_guest_entry(&list, &b"fibonacci".to_vec()).unwrap();
    assert_eq!(entry.image_id, sample_id());
}
