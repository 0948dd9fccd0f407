//! The verified hex codec against the hex crate and its failure cases.

use powers_of_tau::hexstr::{decode_hex, encode_hex};

#[test]
fn encode_hex_matches_hex_crate() {
    let samples: Vec<Vec<u8>> = vec![
        vec![],
        vec![0x00],
        vec![0x7f, 0x80, 0xff],
        vec![0xde, 0xad, 0xbe, 0xef, 0x01, 0x23, 0x45, 0x67, 0x89, 0xab, 0xcd, 0xef],
    ];
    for bytes in samples {
        assert_eq!(encode_hex(&bytes), hex::encode(&bytes));
    }
}

#[test]
fn decode_hex_inverts_encode_hex() {
    let bytes = vec![0x00u8, 0x01, 0x7f, 0x80, 0xfe, 0xff];
    let s = encode_hex(&bytes);
    assert_eq!(decode_hex(s.as_str()), Some(bytes));
}

#[test]
fn decode_hex_accepts_uppercase() {
    assert_eq!(decode_hex("AbCd"), Some(vec![0xab, 0xcd]));
    assert_eq!(decode_hex("FF00"), Some(vec![0xff, 0x00]));
}

#[test]
fn decode_hex_rejects_odd_length() {
    assert_eq!(decode_hex("abc"), None);
    assert_eq!(decode_hex("f"), None);
}

#[test]
fn decode_hex_rejects_nonhex_characters() {
    assert_eq!(decode_hex("zz"), None);
    assert_eq!(decode_hex("0x12"), None);
    assert_eq!(decode_hex("12 4"), None);
}

#[test]
fn decode_hex_empty_is_empty() {
    assert_eq!(decode_hex(""), Some(vec![]));
}
