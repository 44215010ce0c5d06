use vstd::prelude::*;
use vstd::string::*;

verus! {

/// Why a radix-16 parse into `i64` failed, one variant per kind of
/// `std::num::IntErrorKind`.
#[derive(Debug, Clone, Copy, PartialEq, Eq, Structural)]
pub enum HexError {
    /// The text to parse was empty.
    Empty,
    /// A character that is not a hexadecimal digit, or a sign out of place.
    InvalidDigit,
    /// The value is above `i64::MAX`.
    PosOverflow,
    /// The value is below `i64::MIN`.
    NegOverflow,
    /// Any other kind; a radix-16 parse into `i64` never reports one.
    Other,
}

pub open spec fn is_hex_digit(c: char) -> bool {
    ('0' <= c && c <= '9') || ('a' <= c && c <= 'f') || ('A' <= c && c <= 'F')
}

pub open spec fn hex_digit_value(c: char) -> int {
    if '0' <= c && c <= '9' {
        c as int - '0' as int
    } else if 'a' <= c && c <= 'f' {
        c as int - 'a' as int + 10
    } else {
        c as int - 'A' as int + 10
    }
}

/// The value of a string of hexadecimal digits, most significant first.
pub open spec fn digits_value(d: Seq<char>) -> int
    decreases d.len(),
{
    if d.len() == 0 {
        0
    } else {
        digits_value(d.drop_last()) * 16 + hex_digit_value(d.last())
    }
}

pub open spec fn sign_len(s: Seq<char>) -> int {
    if s.len() > 0 && (s[0] == '+' || s[0] == '-') {
        1
    } else {
        0
    }
}

pub open spec fn is_negative(s: Seq<char>) -> bool {
    s.len() > 0 && s[0] == '-'
}

/// What follows the optional sign.
pub open spec fn magnitude(s: Seq<char>) -> Seq<char> {
    s.subrange(sign_len(s), s.len() as int)
}

/// An optional `+` or `-` followed by one or more hexadecimal digits.
pub open spec fn is_hex_numeral(s: Seq<char>) -> bool {
    &&& magnitude(s).len() > 0
    &&& forall|i: int| 0 <= i < magnitude(s).len() ==> is_hex_digit(#[trigger] magnitude(s)[i])
}

/// The signed value that a hexadecimal numeral denotes.
pub open spec fn numeral_value(s: Seq<char>) -> int {
    if is_negative(s) {
        -digits_value(magnitude(s))
    } else {
        digits_value(magnitude(s))
    }
}

/// `k` is the position of the first character of `m` that is no hexadecimal
/// digit.
pub open spec fn first_non_digit(m: Seq<char>, k: int) -> bool {
    &&& 0 <= k < m.len()
    &&& !is_hex_digit(m[k])
    &&& forall|i: int| 0 <= i < k ==> is_hex_digit(#[trigger] m[i])
}

/// The first `k` digits after the sign denote, with that sign, a value of `i64`.
pub open spec fn leading_digits_fit(s: Seq<char>, k: int) -> bool {
    let v = digits_value(magnitude(s).take(k));
    if is_negative(s) {
        -v >= i64::MIN
    } else {
        v <= i64::MAX
    }
}

/// The outcomes that a radix-16 parse of `s` into `i64` may have: the value
/// where `s` is a numeral whose value fits, and otherwise the error that says
/// why not. A sign alone, or a character that is no digit after digits whose
/// value fits, is an invalid digit. Where digits out of range come before such
/// a character, the kind is left open between an invalid digit and an
/// overflow in the direction of the sign.
pub open spec fn hex_parse_admits(s: Seq<char>, r: Result<i64, HexError>) -> bool {
    if s.len() == 0 {
        r == Err::<i64, HexError>(HexError::Empty)
    } else if is_hex_numeral(s) {
        let v = numeral_value(s);
        if v > i64::MAX {
            r == Err::<i64, HexError>(HexError::PosOverflow)
        } else if v < i64::MIN {
            r == Err::<i64, HexError>(HexError::NegOverflow)
        } else {
            r == Ok::<i64, HexError>(v as i64)
        }
    } else if magnitude(s).len() == 0 || exists|k: int|
        #[trigger] first_non_digit(magnitude(s), k) && leading_digits_fit(s, k) {
        r == Err::<i64, HexError>(HexError::InvalidDigit)
    } else if is_negative(s) {
        r == Err::<i64, HexError>(HexError::InvalidDigit) || r == Err::<i64, HexError>(
            HexError::NegOverflow,
        )
    } else {
        r == Err::<i64, HexError>(HexError::InvalidDigit) || r == Err::<i64, HexError>(
            HexError::PosOverflow,
        )
    }
}

/// What `i64::from_str_radix` with radix 16 returns for a text.
pub uninterp spec fn hex_parse_of(s: Seq<char>) -> Result<i64, HexError>;

/// Relies on `i64::from_str_radix` with radix 16: its result depends on the
/// text alone; it accepts an optional sign followed by hexadecimal digits of
/// either case, and reports an empty input, an invalid digit or a value out of
/// range as the kind of its error.
#[verifier::external_body]
fn from_hex_radix(s: &str) -> (r: Result<i64, HexError>)
    ensures
        r == hex_parse_of(s@),
        hex_parse_admits(s@, r),
{
    match i64::from_str_radix(s, 16) {
        Ok(v) => Ok(v),
        Err(e) => Err(
            match e.kind() {
                std::num::IntErrorKind::Empty => HexError::Empty,
                std::num::IntErrorKind::InvalidDigit => HexError::InvalidDigit,
                std::num::IntErrorKind::PosOverflow => HexError::PosOverflow,
                std::num::IntErrorKind::NegOverflow => HexError::NegOverflow,
                _ => HexError::Other,
            },
        ),
    }
}

/// The text starts with the hexadecimal marker `0x`.
pub open spec fn has_hex_prefix(s: Seq<char>) -> bool {
    s.len() >= 2 && s[0] == '0' && s[1] == 'x'
}

/// The text after its first two characters, the place of the `0x` marker.
pub open spec fn after_prefix(s: Seq<char>) -> Seq<char> {
    s.subrange(2, s.len() as int)
}

/// Whether `s` starts with `0x`.
pub fn starts_with_hex_prefix(s: &str) -> (r: bool)
    ensures
        r == has_hex_prefix(s@),
{
    let n = s.unicode_len();
    n >= 2 && s.get_char(0) == '0' && s.get_char(1) == 'x'
}

/// The outcome of reading an already lowercased argument: nothing where it
/// does not start with `0x`, and otherwise the radix-16 parse of what follows
/// that one marker.
pub open spec fn conversion_of(lowered: Seq<char>) -> Option<Result<i64, HexError>> {
    if has_hex_prefix(lowered) {
        Some(hex_parse_of(after_prefix(lowered)))
    } else {
        None
    }
}

/// Reads an already lowercased argument: `None` where it does not start with
/// `0x`, else the radix-16 parse of the rest.
pub fn convert_lowered(lowered: &str) -> (r: Option<Result<i64, HexError>>)
    ensures
        r == conversion_of(lowered@),
        has_hex_prefix(lowered@) ==> hex_parse_admits(after_prefix(lowered@), r->0),
        !has_hex_prefix(lowered@) ==> r is None,
{
    if starts_with_hex_prefix(lowered) {
        let n = lowered.unicode_len();
        let digits = lowered.substring_char(2, n);
        Some(from_hex_radix(digits))
    } else {
        None
    }
}

} // verus!
