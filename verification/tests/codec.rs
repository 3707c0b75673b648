use deploy::DecodeError;
use deploy::bytes_to_hex_string;
use deploy::hex_string_to_bytes;

#[test]
fn encode_is_lowercase_two_digits_per_byte() {
    assert_eq!(bytes_to_hex_string(&[0xde, 0xad, 0xbe, 0xef]), "deadbeef");
    assert_eq!(bytes_to_hex_string(&[0x00, 0x0f, 0x10]), "000f10");
    assert_eq!(bytes_to_hex_string(&[]), "");
}

#[test]
fn decode_exact_values() {
    assert_eq!(hex_string_to_bytes("0aff"), Ok(vec![0x0a, 0xff]));
    assert_eq!(hex_string_to_bytes("00"), Ok(vec![0x00]));
    assert_eq!(hex_string_to_bytes(""), Ok(vec![]));
}

#[test]
fn decode_accepts_uppercase_digits() {
    assert_eq!(hex_string_to_bytes("0AFF"), Ok(vec![0x0a, 0xff]));
    assert_eq!(hex_string_to_bytes("DeAdBeEf"), Ok(vec![0xde, 0xad, 0xbe, 0xef]));
}

#[test]
fn decode_inverts_encode() {
    let cases: Vec<Vec<u8>> = vec![
        vec![],
        vec![0],
        vec![255],
        vec![1, 2, 3, 4, 5],
        vec![0xde, 0xad, 0xbe, 0xef, 0x00, 0x7f, 0x80],
        (0u8..=255).collect(),
    ];
    for bytes in cases {
        let encoded = bytes_to_hex_string(&bytes);
        assert_eq!(hex_string_to_bytes(&encoded), Ok(bytes));
    }
}

#[test]
fn decode_fails_on_odd_length() {
    assert_eq!(hex_string_to_bytes("a"), Err(DecodeError::InvalidHex));
    assert_eq!(hex_string_to_bytes("abc"), Err(DecodeError::InvalidHex));
    assert_eq!(hex_string_to_bytes("00000"), Err(DecodeError::InvalidHex));
}

#[test]
fn decode_fails_on_non_hex_characters() {
    assert_eq!(hex_string_to_bytes("zz"), Err(DecodeError::InvalidHex));
    assert_eq!(hex_string_to_bytes("0g"), Err(DecodeError::InvalidHex));
    assert_eq!(hex_string_to_bytes("a="), Err(DecodeError::InvalidHex));
    assert_eq!(hex_string_to_bytes("  "), Err(DecodeError::InvalidHex));
    assert_eq!(hex_string_to_bytes("+f"), Err(DecodeError::InvalidHex));
}
