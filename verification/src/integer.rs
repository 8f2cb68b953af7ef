//! The calls into std that read and write an unsigned integer. Nothing here
//! is proved: each contract is a statement about std, which the rest of the
//! library relies on.

use core::num::ParseIntError;
use std::str::FromStr;
use vstd::prelude::*;

verus! {

/// `core::num::ParseIntError`, carried through as an opaque value.
#[verifier::external_type_specification]
#[verifier::external_body]
pub struct ExParseIntError(core::num::ParseIntError);

/// Whether `c` is one of the ten digits.
pub open spec fn is_digit(c: char) -> bool {
    '0' <= c <= '9'
}

/// The number that a sequence of digits writes in base ten.
pub open spec fn digits_value(digits: Seq<char>) -> int
    decreases digits.len(),
{
    if digits.len() == 0 {
        0
    } else {
        10 * digits_value(digits.drop_last()) + (digits.last() as int - '0' as int)
    }
}

/// Whether a text is made of digits and of nothing else.
pub open spec fn all_digits(text: Seq<char>) -> bool {
    forall|i: int| 0 <= i < text.len() ==> is_digit(#[trigger] text[i])
}

/// A text without the `+` that it may begin with.
pub open spec fn unsigned_part(text: Seq<char>) -> Seq<char> {
    if text.len() > 0 && text[0] == '+' {
        text.skip(1)
    } else {
        text
    }
}

/// The unsigned integer that a text writes, as std reads one: an optional
/// `+`, then one digit or more and nothing else, the number being `max` at
/// most.
pub open spec fn parsed_unsigned(text: Seq<char>, max: int) -> Option<int> {
    let digits = unsigned_part(text);
    if digits.len() > 0 && all_digits(digits) && digits_value(digits) <= max {
        Some(digits_value(digits))
    } else {
        None
    }
}

/// Calls `u16::from_str`. Claimed: what std documents of it, that it reads
/// an optional `+` followed by digits only and fails on an empty text, on
/// any other character and on a number that 16 bits cannot hold.
#[verifier::external_body]
pub(crate) fn u16_from_str(text: &str) -> (r: Result<u16, ParseIntError>)
    ensures
        match r {
            Ok(n) => parsed_unsigned(text@, u16::MAX as int) == Some(n as int),
            Err(_) => parsed_unsigned(text@, u16::MAX as int) is None,
        },
{
    u16::from_str(text)
}

/// Calls `u32::from_str`. Claimed: what std documents of it, that it reads
/// an optional `+` followed by digits only and fails on an empty text, on
/// any other character and on a number that 32 bits cannot hold.
#[verifier::external_body]
pub(crate) fn u32_from_str(text: &str) -> (r: Result<u32, ParseIntError>)
    ensures
        match r {
            Ok(n) => parsed_unsigned(text@, u32::MAX as int) == Some(n as int),
            Err(_) => parsed_unsigned(text@, u32::MAX as int) is None,
        },
{
    u32::from_str(text)
}

/// Whether a text writes a number plainly: in digits only, one at least,
/// and with no zero before them.
pub open spec fn is_plain_number(text: Seq<char>, n: int) -> bool {
    &&& text.len() > 0
    &&& all_digits(text)
    &&& digits_value(text) == n
    &&& text.len() > 1 ==> text[0] != '0'
}

/// What `u16::to_string` writes a number as.
pub uninterp spec fn u16_text(n: u16) -> Seq<char>;

/// Calls `u16::to_string`. Claimed: std writes the number plainly, in base
/// ten, without a sign and without a zero before its digits.
#[verifier::external_body]
pub(crate) fn u16_to_string(n: u16) -> (r: String)
    ensures
        r@ == u16_text(n),
        is_plain_number(r@, n as int),
{
    n.to_string()
}

} // verus!
