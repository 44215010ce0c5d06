use vstd::prelude::*;
use vstd::string::*;
use crate::hex::HexError;

verus! {

pub open spec fn digit_char(d: nat) -> char {
    seq!['0', '1', '2', '3', '4', '5', '6', '7', '8', '9'][d as int]
}

/// The decimal digits of `n`, most significant first, without leading zeros.
pub open spec fn decimal_digits(n: nat) -> Seq<char>
    decreases n,
{
    if n < 10 {
        seq![digit_char(n)]
    } else {
        decimal_digits(n / 10).push(digit_char(n % 10))
    }
}

/// `v` written in decimal, with a leading `-` when it is negative.
pub open spec fn decimal_text(v: int) -> Seq<char> {
    if v < 0 {
        seq!['-'] + decimal_digits((-v) as nat)
    } else {
        decimal_digits(v as nat)
    }
}

/// Relies on the `Display` impl of `i64` (through `to_string`): the value in
/// decimal, `-` first for a negative one.
#[verifier::external_body]
fn to_decimal(v: i64) -> (r: String)
    ensures
        r@ == decimal_text(v as int),
{
    v.to_string()
}

/// The name under which the standard library shows each kind of error.
pub open spec fn kind_name(k: HexError) -> Seq<char> {
    match k {
        HexError::Empty => "Empty"@,
        HexError::InvalidDigit => "InvalidDigit"@,
        HexError::PosOverflow => "PosOverflow"@,
        HexError::NegOverflow => "NegOverflow"@,
        HexError::Other => "Other"@,
    }
}

/// A parse outcome in the form that `{:?}` gives to a `Result<i64, ParseIntError>`.
pub open spec fn rendered(p: Result<i64, HexError>) -> Seq<char> {
    match p {
        Ok(v) => "Ok("@ + decimal_text(v as int) + ")"@,
        Err(k) => "Err(ParseIntError { kind: "@ + kind_name(k) + " })"@,
    }
}

pub fn error_kind_name(k: HexError) -> (r: &'static str)
    ensures
        r@ == kind_name(k),
{
    match k {
        HexError::Empty => "Empty",
        HexError::InvalidDigit => "InvalidDigit",
        HexError::PosOverflow => "PosOverflow",
        HexError::NegOverflow => "NegOverflow",
        HexError::Other => "Other",
    }
}

/// Shows a parse outcome as the standard library's debug form does:
/// `Ok(26)` or `Err(ParseIntError { kind: InvalidDigit })`.
pub fn render(p: &Result<i64, HexError>) -> (r: String)
    ensures
        r@ == rendered(*p),
{
    match p {
        Ok(v) => {
            let mut s = String::from_str("Ok(");
            let digits = to_decimal(*v);
            s.append(digits.as_str());
            s.append(")");
            s
        },
        Err(k) => {
            let mut s = String::from_str("Err(ParseIntError { kind: ");
            s.append(error_kind_name(*k));
            s.append(" })");
            s
        },
    }
}

} // verus!
