use std::collections::hash_map::DefaultHasher;
use std::hash::{Hash, Hasher};
use zokrates_core::field::{byte_bits, slices_equal, FieldElement, MAX_BYTES};

fn hash_of(f: &FieldElement) -> u64 {
    let mut h = DefaultHasher::new();
    f.hash(&mut h);
    h.finish()
}

#[test]
fn bits_of_small_numbers() {
    let expected = [
        (0u128, 0u32),
        (1, 1),
        (2, 2),
        (3, 2),
        (4, 3),
        (127, 7),
        (128, 8),
        (255, 8),
        (256, 9),
        (300, 9),
        (65535, 16),
        (65536, 17),
    ];
    for (v, bits) in expected {
        assert_eq!(FieldElement::from_u128(v).bits(), bits);
    }
}

#[test]
fn bits_of_wide_numbers() {
    assert_eq!(FieldElement::from(u128::MAX).bits(), 128);
    let mut bytes = vec![0u8; 32];
    bytes[31] = 0x30;
    assert_eq!(FieldElement::from_le_bytes(&bytes).unwrap().bits(), 254);
    bytes[31] = 0x01;
    assert_eq!(FieldElement::from_le_bytes(&bytes).unwrap().bits(), 249);
}

#[test]
fn bytes_are_least_significant_first() {
    assert_eq!(FieldElement::from(0x0102u32).to_le_bytes(), vec![2u8, 1]);
    assert_eq!(FieldElement::from(256usize).to_le_bytes(), vec![0u8, 1]);
    assert_eq!(FieldElement::from(0u128).to_le_bytes(), Vec::<u8>::new());
    assert_eq!(
        FieldElement::from(0x0100_0000_0000_0000_0000_0000_0000_00ffu128).to_le_bytes(),
        vec![0xffu8, 0, 0, 0, 0, 0, 0, 0, 0, 0, 0, 0, 0, 0, 0, 1]
    );
}

#[test]
fn zero_bytes_at_the_top_are_dropped() {
    let f = FieldElement::from_le_bytes(&[7, 0, 0, 0]).unwrap();
    assert_eq!(f.to_le_bytes(), vec![7u8]);
    assert!(f == FieldElement::from(7u32));
    assert_eq!(hash_of(&f), hash_of(&FieldElement::from(7u32)));
    let zero = FieldElement::from_le_bytes(&[0, 0]).unwrap();
    assert!(zero == FieldElement::from(0u32));
    assert_eq!(zero.bits(), 0);
    let empty = FieldElement::from_le_bytes(&[]).unwrap();
    assert!(empty == zero);
}

#[test]
fn bytes_round_trip() {
    let bytes = vec![1u8, 2, 3, 0, 5, 0, 0, 9];
    let f = FieldElement::from_le_bytes(&bytes).unwrap();
    assert_eq!(f.to_le_bytes(), bytes);
    assert!(FieldElement::from_le_bytes(&f.to_le_bytes()).unwrap() == f);
}

#[test]
fn elements_are_equal_by_value() {
    assert!(FieldElement::from(300u32) == FieldElement::from(300u128));
    assert!(FieldElement::from(300u32) == FieldElement::from(300usize));
    assert!(FieldElement::from(300u32) != FieldElement::from(301u32));
    assert!(FieldElement::from(1u32) != FieldElement::from(256u32));
    let f = FieldElement::from(77u32);
    assert!(f.clone() == f);
}

#[test]
fn too_many_bytes_are_refused() {
    let mut bytes = vec![0u8; MAX_BYTES + 1];
    assert!(FieldElement::from_le_bytes(&bytes).is_some());
    bytes[MAX_BYTES] = 1;
    assert!(FieldElement::from_le_bytes(&bytes).is_none());
    bytes[MAX_BYTES] = 0;
    bytes[MAX_BYTES - 1] = 0x80;
    let widest = FieldElement::from_le_bytes(&bytes).unwrap();
    assert_eq!(widest.bits(), 0xFFFF_FFF8);
}

#[test]
fn bits_of_each_byte() {
    assert_eq!(byte_bits(0), 0);
    assert_eq!(byte_bits(1), 1);
    assert_eq!(byte_bits(0x7f), 7);
    assert_eq!(byte_bits(0x80), 8);
    assert_eq!(byte_bits(0xff), 8);
}

#[test]
fn slices_are_compared_byte_by_byte() {
    assert!(slices_equal(&[], &[]));
    assert!(slices_equal(&[1, 2, 3], &[1, 2, 3]));
    assert!(!slices_equal(&[1, 2, 3], &[1, 2, 4]));
    assert!(!slices_equal(&[1, 2, 3], &[1, 2]));
    assert!(!slices_equal(&[1, 2], &[1, 2, 0]));
}
