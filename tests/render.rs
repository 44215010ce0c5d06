use numconvert::hex::HexError;
use numconvert::render::{error_kind_name, render};

#[test]
fn values_are_shown_in_decimal() {
    assert_eq!(render(&Ok(26)), "Ok(26)");
    assert_eq!(render(&Ok(0)), "Ok(0)");
    assert_eq!(render(&Ok(-255)), "Ok(-255)");
    assert_eq!(render(&Ok(i64::MIN)), "Ok(-9223372036854775808)");
}

#[test]
fn errors_are_shown_with_their_kind() {
    assert_eq!(render(&Err(HexError::Empty)), "Err(ParseIntError { kind: Empty })");
    assert_eq!(render(&Err(HexError::InvalidDigit)), "Err(ParseIntError { kind: InvalidDigit })");
    assert_eq!(render(&Err(HexError::PosOverflow)), "Err(ParseIntError { kind: PosOverflow })");
    assert_eq!(render(&Err(HexError::NegOverflow)), "Err(ParseIntError { kind: NegOverflow })");
}

#[test]
fn kind_names_match_the_standard_library() {
    assert_eq!(error_kind_name(HexError::InvalidDigit), format!("{:?}", std::num::IntErrorKind::InvalidDigit));
    assert_eq!(error_kind_name(HexError::PosOverflow), format!("{:?}", std::num::IntErrorKind::PosOverflow));
}
