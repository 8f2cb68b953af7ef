//! The calls into `rust_decimal`. Nothing here is proved: each contract is a
//! statement about that crate, which the rest of the library relies on.

use crate::integer::all_digits;
use rust_decimal::Decimal;
use std::str::FromStr;
use vstd::prelude::*;

verus! {

/// The largest magnitude that the mantissa of a `Decimal` can have: 2^96 - 1.
pub const MAX_MANTISSA: i128 = 79_228_162_514_264_337_593_543_950_335;

/// The largest scale that a `Decimal` can have.
pub const MAX_SCALE: u32 = 28;

/// Whether `m` can be the mantissa of a `Decimal`.
pub open spec fn is_mantissa(m: int) -> bool {
    -MAX_MANTISSA <= m <= MAX_MANTISSA
}

/// `rust_decimal::Error`, carried through as an opaque value.
#[verifier::external_type_specification]
#[verifier::external_body]
pub struct ExDecimalError(rust_decimal::Error);

/// What `Decimal::from_str` makes of a text: the mantissa and the scale of
/// the decimal it returns, or `None` where it returns an error.
pub uninterp spec fn parsed_decimal(text: Seq<char>) -> Option<(int, nat)>;

/// Calls `Decimal::from_str` and takes the decimal apart with
/// `Decimal::mantissa` and `Decimal::scale`. The contract only names the
/// outcome; it says nothing of which texts are accepted.
#[verifier::external_body]
pub(crate) fn decimal_from_str(text: &str) -> (r: Result<(i128, u32), rust_decimal::Error>)
    ensures
        match r {
            Ok((m, s)) => parsed_decimal(text@) == Some((m as int, s as nat)),
            Err(_) => parsed_decimal(text@) is None,
        },
{
    match Decimal::from_str(text) {
        Ok(d) => Ok((d.mantissa(), d.scale())),
        Err(e) => Err(e),
    }
}

/// Whether a text ends in a point with `digits` digits after it, and has a
/// character at least before the point.
pub open spec fn has_fraction(text: Seq<char>, digits: nat) -> bool {
    &&& text.len() >= digits + 2
    &&& text[text.len() - digits - 1] == '.'
    &&& all_digits(text.skip(text.len() - digits))
}

/// What the `Display` of `Decimal` writes the decimal of a mantissa and a
/// scale as.
pub uninterp spec fn decimal_text(mantissa: int, scale: nat) -> Seq<char>;

/// Calls `Decimal::to_string`, which goes by the `Display` of `Decimal`, on a
/// decimal built with `Decimal::from_i128_with_scale`. Claimed: a decimal
/// of a scale above zero is written with a point and, after the point, as
/// many digits as the scale says. Of the rest the contract only names what
/// is written.
#[verifier::external_body]
pub(crate) fn decimal_to_string(mantissa: i128, scale: u32) -> (r: String)
    requires
        scale <= MAX_SCALE,
        is_mantissa(mantissa as int),
    ensures
        r@ == decimal_text(mantissa as int, scale as nat),
        scale > 0 ==> has_fraction(r@, scale as nat),
{
    Decimal::from_i128_with_scale(mantissa, scale).to_string()
}

/// Calls `Decimal::checked_add` on two decimals of the same scale, built with
/// `Decimal::from_i128_with_scale`. Claimed: where the sum of the mantissas
/// is itself a mantissa, the result is that sum at the same scale; where it
/// is not, the crate reports an overflow or hands back a rounded decimal of
/// a smaller scale.
#[verifier::external_body]
pub(crate) fn decimal_checked_add(a: i128, b: i128, scale: u32) -> (r: Option<(i128, u32)>)
    requires
        scale <= MAX_SCALE,
        is_mantissa(a as int),
        is_mantissa(b as int),
    ensures
        is_mantissa(a + b) ==> r == Some(((a + b) as i128, scale)),
        !is_mantissa(a + b) ==> (r matches Some(d) ==> d.1 < scale),
{
    let x = Decimal::from_i128_with_scale(a, scale);
    let y = Decimal::from_i128_with_scale(b, scale);
    match x.checked_add(y) {
        Some(d) => Some((d.mantissa(), d.scale())),
        None => None,
    }
}

/// Calls `Decimal::checked_sub` on two decimals of the same scale, built with
/// `Decimal::from_i128_with_scale`. Claimed: where the difference of the
/// mantissas is itself a mantissa, the result is that difference at the same
/// scale; where it is not, the crate reports an overflow or hands back a
/// rounded decimal of a smaller scale.
#[verifier::external_body]
pub(crate) fn decimal_checked_sub(a: i128, b: i128, scale: u32) -> (r: Option<(i128, u32)>)
    requires
        scale <= MAX_SCALE,
        is_mantissa(a as int),
        is_mantissa(b as int),
    ensures
        is_mantissa(a - b) ==> r == Some(((a - b) as i128, scale)),
        !is_mantissa(a - b) ==> (r matches Some(d) ==> d.1 < scale),
{
    let x = Decimal::from_i128_with_scale(a, scale);
    let y = Decimal::from_i128_with_scale(b, scale);
    match x.checked_sub(y) {
        Some(d) => Some((d.mantissa(), d.scale())),
        None => None,
    }
}

/// Compares two decimals of the same scale, built with
/// `Decimal::from_i128_with_scale`, by the `<` of `Decimal`. Claimed: at one
/// scale the decimals are ordered as their mantissas are.
#[verifier::external_body]
pub(crate) fn decimal_less(a: i128, b: i128, scale: u32) -> (r: bool)
    requires
        scale <= MAX_SCALE,
        is_mantissa(a as int),
        is_mantissa(b as int),
    ensures
        r == (a < b),
{
    Decimal::from_i128_with_scale(a, scale) < Decimal::from_i128_with_scale(b, scale)
}

} // verus!
