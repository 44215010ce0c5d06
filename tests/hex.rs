use numconvert::hex::{convert_lowered, starts_with_hex_prefix, HexError};

#[test]
fn prefix_is_detected() {
    assert!(starts_with_hex_prefix("0x1a"));
    assert!(starts_with_hex_prefix("0x"));
    assert!(!starts_with_hex_prefix("0"));
    assert!(!starts_with_hex_prefix(""));
    assert!(!starts_with_hex_prefix("x0"));
    assert!(!starts_with_hex_prefix("0X1a"));
}

#[test]
fn only_one_prefix_is_stripped() {
    assert_eq!(convert_lowered("0x0x1a"), Some(Err(HexError::InvalidDigit)));
    assert_eq!(convert_lowered("0x0x10"), Some(Err(HexError::InvalidDigit)));
    assert_eq!(convert_lowered("0x0"), Some(Ok(0)));
    assert_eq!(convert_lowered("0x00"), Some(Ok(0)));
}

#[test]
fn lowered_without_prefix_is_not_read() {
    assert_eq!(convert_lowered("42"), None);
    assert_eq!(convert_lowered("101b"), None);
    assert_eq!(convert_lowered(""), None);
}

#[test]
fn lowered_hex_is_parsed() {
    assert_eq!(convert_lowered("0x1a"), Some(Ok(26)));
    assert_eq!(convert_lowered("0x+ff"), Some(Ok(255)));
    assert_eq!(convert_lowered("0x-1"), Some(Ok(-1)));
}

#[test]
fn lowered_hex_errors() {
    assert_eq!(convert_lowered("0x"), Some(Err(HexError::Empty)));
    assert_eq!(convert_lowered("0xzz"), Some(Err(HexError::InvalidDigit)));
    assert_eq!(convert_lowered("0x-"), Some(Err(HexError::InvalidDigit)));
    assert_eq!(convert_lowered("0x1 "), Some(Err(HexError::InvalidDigit)));
    assert_eq!(convert_lowered("0x+"), Some(Err(HexError::InvalidDigit)));
}

#[test]
fn limits_of_i64() {
    assert_eq!(convert_lowered("0x7fffffffffffffff"), Some(Ok(i64::MAX)));
    assert_eq!(convert_lowered("0x8000000000000000"), Some(Err(HexError::PosOverflow)));
    assert_eq!(convert_lowered("0x-8000000000000000"), Some(Ok(i64::MIN)));
    assert_eq!(convert_lowered("0x-8000000000000001"), Some(Err(HexError::NegOverflow)));
}
