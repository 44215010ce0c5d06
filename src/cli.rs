use vstd::prelude::*;
use vstd::string::*;
use crate::hex::{
    HexError, after_prefix, conversion_of, convert_lowered, has_hex_prefix, hex_parse_admits,
    hex_parse_of,
};
use crate::render::{rendered, render};

verus! {

pub const VERSION: &'static str = "1.0.5";

pub const USAGE: &'static str = "Usage:
  numconvert [prefix]<value>[postfix]

No prefix/postfix:
            to indicate a decimal value

Prefixes:
  0x or 0X, to indicate a hexadecimal value

Postfixes:
  b or B,   to indicate a binary value
  h or H,   to indicate a hexadecimal value

";

/// Exit status of a run that was given the wrong number of arguments.
pub const EXIT_USAGE: i32 = -1;

/// Exit status of every other run.
pub const EXIT_OK: i32 = 0;

pub open spec fn help_spec() -> Seq<char> {
    "Version "@ + VERSION@ + "\n\n"@ + USAGE@
}

/// The help text: the version, then how to write a value.
pub fn help_text() -> (r: String)
    ensures
        r@ == help_spec(),
{
    let mut s = String::from_str("Version ");
    s.append(VERSION);
    s.append("\n\n");
    s.append(USAGE);
    s
}

/// What `str::to_lowercase` makes of a text.
pub uninterp spec fn lower_of(s: Seq<char>) -> Seq<char>;

/// Relies on `str::to_lowercase`: the result depends on the characters alone.
#[verifier::external_body]
fn lowercase(s: &str) -> (r: String)
    ensures
        r@ == lower_of(s@),
{
    s.to_lowercase()
}

/// Reads one command-line argument, whatever the case of its letters: `None`
/// where its lowercase form does not start with `0x`, else the radix-16 parse
/// of what follows that marker.
pub fn convert(arg: &str) -> (r: Option<Result<i64, HexError>>)
    ensures
        r == conversion_of(lower_of(arg@)),
        has_hex_prefix(lower_of(arg@)) ==> hex_parse_admits(after_prefix(lower_of(arg@)), r->0),
{
    let lowered = lowercase(arg);
    convert_lowered(lowered.as_str())
}

/// What a run prints for the outcome of reading its argument.
pub open spec fn report_text(c: Option<Result<i64, HexError>>) -> Seq<char> {
    match c {
        None => Seq::empty(),
        Some(p) => rendered(p) + "\n"@,
    }
}

/// The line printed for a parsed argument, or nothing for an argument that
/// was not read.
pub fn report(c: &Option<Result<i64, HexError>>) -> (r: String)
    ensures
        r@ == report_text(*c),
{
    match c {
        None => String::new(),
        Some(p) => {
            let mut s = render(p);
            s.append("\n");
            s
        },
    }
}

/// What a run prints to standard output and the status it exits with.
pub struct Outcome {
    pub stdout: String,
    pub exit_code: i32,
}

/// One run of the program on its argument list, the program's own name first.
/// With anything but exactly one argument after the name it prints the help
/// text and fails; otherwise it prints the reading of that argument, or
/// nothing where the argument is not hexadecimal, and succeeds.
pub fn run(args: &Vec<String>) -> (r: Outcome)
    ensures
        args@.len() != 2 ==> r.stdout@ == help_spec() && r.exit_code == EXIT_USAGE,
        args@.len() == 2 ==> r.exit_code == EXIT_OK,
        args@.len() == 2 ==> r.stdout@ == report_text(conversion_of(lower_of(args@[1]@))),
        args@.len() == 2 && has_hex_prefix(lower_of(args@[1]@)) ==> hex_parse_admits(
            after_prefix(lower_of(args@[1]@)),
            hex_parse_of(after_prefix(lower_of(args@[1]@))),
        ),
        args@.len() == 2 && !has_hex_prefix(lower_of(args@[1]@)) ==> r.stdout@.len() == 0,
{
    if args.len() != 2 {
        return Outcome { stdout: help_text(), exit_code: EXIT_USAGE };
    }
    let c = convert(args[1].as_str());
    let stdout = report(&c);
    Outcome { stdout, exit_code: EXIT_OK }
}

} // verus!
