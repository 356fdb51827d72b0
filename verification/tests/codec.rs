use darkbet::codec::{
    digests_equal, encode_commitment, hash_commitment, tag_of, timestamp_bytes,
    verify_commitment, Direction,
};

const LONG_ABC: [u8; 32] = [
    0x95, 0xdd, 0x18, 0xa0, 0x1a, 0xe3, 0x02, 0x5d, 0xbc, 0x97, 0xe3, 0x6c, 0x6e, 0xff, 0x2b, 0x27,
    0xa4, 0x17, 0xbe, 0x57, 0xcf, 0xd5, 0x6c, 0x29, 0xcd, 0x88, 0x00, 0xc5, 0xb1, 0xbf, 0xe9, 0x3d,
];

const SHORT_ABC: [u8; 32] = [
    0xe1, 0x47, 0x9e, 0x92, 0x9c, 0x5d, 0x73, 0x81, 0xe2, 0x6d, 0xc1, 0xcc, 0xae, 0xbf, 0x7d, 0x46,
    0x6d, 0x93, 0x60, 0x6f, 0x68, 0x4f, 0x05, 0x6e, 0x53, 0x66, 0xb2, 0xd7, 0xde, 0x1a, 0x8c, 0xcf,
];

const LONG_EMPTY_ZERO: [u8; 32] = [
    0xa5, 0x36, 0xaa, 0x3c, 0xed, 0xe6, 0xea, 0x3c, 0x1f, 0x3e, 0x03, 0x57, 0xc3, 0xc6, 0x0e, 0x0f,
    0x21, 0x6a, 0x8c, 0x89, 0xb8, 0x53, 0xdf, 0x13, 0xb2, 0x9d, 0xaa, 0x8f, 0x85, 0x06, 0x5d, 0xfb,
];

const SHORT_UNICODE_NEGATIVE: [u8; 32] = [
    0xf8, 0xd9, 0xfc, 0x92, 0xce, 0x43, 0x64, 0x5f, 0xcb, 0x8e, 0x6d, 0x7a, 0x39, 0xf7, 0x21, 0x06,
    0x07, 0x56, 0x9a, 0xd0, 0x81, 0xc1, 0x85, 0x94, 0x8a, 0xe5, 0x80, 0x8b, 0xff, 0xaa, 0x43, 0x63,
];

#[test]
fn direction_tags_are_one_and_two() {
    assert_eq!(tag_of(Direction::Long), 1);
    assert_eq!(tag_of(Direction::Short), 2);
}

#[test]
fn timestamp_bytes_are_little_endian() {
    assert_eq!(timestamp_bytes(0), [0u8; 8]);
    assert_eq!(timestamp_bytes(1), [1, 0, 0, 0, 0, 0, 0, 0]);
    assert_eq!(timestamp_bytes(0x0102_0304_0506_0708), [8, 7, 6, 5, 4, 3, 2, 1]);
    assert_eq!(timestamp_bytes(1_700_000_000), 1_700_000_000i64.to_le_bytes());
}

#[test]
fn timestamp_bytes_of_negative_values_are_twos_complement() {
    assert_eq!(timestamp_bytes(-1), [0xff; 8]);
    assert_eq!(timestamp_bytes(-2), (-2i64).to_le_bytes());
    assert_eq!(timestamp_bytes(i64::MIN), i64::MIN.to_le_bytes());
    assert_eq!(timestamp_bytes(i64::MAX), i64::MAX.to_le_bytes());
    assert_eq!(timestamp_bytes(-1_700_000_000), (-1_700_000_000i64).to_le_bytes());
}

#[test]
fn preimage_is_tag_nonce_timestamp() {
    let data = encode_commitment(Direction::Long, "abc", 258);
    assert_eq!(data, vec![1, b'a', b'b', b'c', 2, 1, 0, 0, 0, 0, 0, 0]);
    let data = encode_commitment(Direction::Short, "", -1);
    assert_eq!(data, vec![2, 255, 255, 255, 255, 255, 255, 255, 255]);
}

#[test]
fn preimage_holds_the_nonce_as_utf8() {
    let data = encode_commitment(Direction::Short, "é☃", 0);
    assert_eq!(data, vec![2, 0xc3, 0xa9, 0xe2, 0x98, 0x83, 0, 0, 0, 0, 0, 0, 0, 0]);
}

#[test]
fn commitment_is_sha256_of_the_preimage() {
    assert_eq!(hash_commitment(&Direction::Long, "abc", 1_700_000_000), LONG_ABC);
    assert_eq!(hash_commitment(&Direction::Short, "abc", 1_700_000_000), SHORT_ABC);
    assert_eq!(hash_commitment(&Direction::Long, "", 0), LONG_EMPTY_ZERO);
    assert_eq!(hash_commitment(&Direction::Short, "née ☃", -2), SHORT_UNICODE_NEGATIVE);
}

#[test]
fn commitment_is_deterministic() {
    let first = hash_commitment(&Direction::Long, "a secret nonce", 42);
    let second = hash_commitment(&Direction::Long, "a secret nonce", 42);
    assert_eq!(first, second);
    assert!(verify_commitment(&first, &Direction::Long, "a secret nonce", 42));
}

#[test]
fn verify_accepts_only_the_committed_values() {
    assert!(verify_commitment(&LONG_ABC, &Direction::Long, "abc", 1_700_000_000));
    assert!(!verify_commitment(&LONG_ABC, &Direction::Short, "abc", 1_700_000_000));
    assert!(!verify_commitment(&LONG_ABC, &Direction::Long, "abd", 1_700_000_000));
    assert!(!verify_commitment(&LONG_ABC, &Direction::Long, "ab", 1_700_000_000));
    assert!(!verify_commitment(&LONG_ABC, &Direction::Long, "abc", 1_700_000_001));
    assert!(!verify_commitment(&SHORT_ABC, &Direction::Long, "abc", 1_700_000_000));
}

#[test]
fn verify_rejects_a_digest_with_one_bit_changed() {
    for byte in 0..32 {
        for bit in 0..8 {
            let mut digest = LONG_ABC;
            digest[byte] ^= 1 << bit;
            assert!(!verify_commitment(&digest, &Direction::Long, "abc", 1_700_000_000));
        }
    }
}

#[test]
fn verify_rejects_a_nonce_with_one_bit_changed() {
    let nonce = "abc";
    for index in 0..nonce.len() {
        for bit in 0..7 {
            let mut bytes = nonce.as_bytes().to_vec();
            bytes[index] ^= 1 << bit;
            let changed = String::from_utf8(bytes).unwrap();
            assert!(!verify_commitment(&LONG_ABC, &Direction::Long, &changed, 1_700_000_000));
        }
    }
}

#[test]
fn digests_equal_compares_all_bytes() {
    assert!(digests_equal(&LONG_ABC, &LONG_ABC));
    assert!(!digests_equal(&LONG_ABC, &SHORT_ABC));
    let mut last = LONG_ABC;
    last[31] ^= 0x80;
    assert!(!digests_equal(&LONG_ABC, &last));
    let mut first = LONG_ABC;
    first[0] ^= 1;
    assert!(!digests_equal(&first, &LONG_ABC));
}
