//! Money as a fixed-point number of four fractional digits. The arithmetic is
//! that of `rust_decimal`, at one scale, and exact.

use crate::decimal::{
    decimal_checked_add, decimal_checked_sub, decimal_from_str, decimal_less, decimal_text,
    decimal_to_string, has_fraction, is_mantissa, parsed_decimal, MAX_MANTISSA,
};
use crate::error::CustomError;
use vstd::arithmetic::div_mod::{
    lemma_fundamental_div_mod, lemma_fundamental_div_mod_converse, lemma_small_mod,
};
use vstd::prelude::*;

verus! {

/// The number of fractional digits that every amount of money has.
pub const PRECISION: u32 = 4;

/// An amount of money: `units` ten-thousandths, positive or negative.
#[derive(Clone, Copy, Debug, PartialEq, Eq, Structural)]
pub struct Amount {
    pub units: i128,
}

impl View for Amount {
    type V = int;

    /// The number of ten-thousandths.
    open spec fn view(&self) -> int {
        self.units as int
    }
}

/// Ten to the power of `n`.
pub open spec fn pow10(n: nat) -> int
    decreases n,
{
    if n == 0 {
        1
    } else {
        10 * pow10((n - 1) as nat)
    }
}

/// The number of ten-thousandths in the decimal `mantissa / 10^scale`, where
/// that is a whole number which an amount can hold; `None` where the decimal
/// has digits beyond the fourth or is too large.
pub open spec fn fixed_point(mantissa: int, scale: nat) -> Option<int> {
    if scale <= PRECISION {
        let units = mantissa * pow10((PRECISION - scale) as nat);
        if is_mantissa(units) {
            Some(units)
        } else {
            None
        }
    } else {
        let divisor = pow10((scale - PRECISION) as nat);
        if mantissa % divisor == 0 && is_mantissa(mantissa / divisor) {
            Some(mantissa / divisor)
        } else {
            None
        }
    }
}

/// The amount that a text stands for: the decimal that `rust_decimal` reads
/// in it, brought to four fractional digits without rounding.
pub open spec fn amount_of_text(text: Seq<char>) -> Option<Amount> {
    match parsed_decimal(text) {
        Some((mantissa, scale)) => match fixed_point(mantissa, scale) {
            Some(units) => Some(Amount { units: units as i128 }),
            None => None,
        },
        None => None,
    }
}

/// The powers of ten are positive and grow with the exponent.
proof fn lemma_pow10_grows(n: nat, m: nat)
    requires
        n <= m,
    ensures
        1 <= pow10(n) <= pow10(m),
    decreases m,
{
    if n == 0 {
        if m > 0 {
            lemma_pow10_grows(0, (m - 1) as nat);
        }
    } else {
        lemma_pow10_grows((n - 1) as nat, (m - 1) as nat);
    }
}

/// Division of a negated multiple: the sign moves out of an exact quotient,
/// and a number and its negation are multiples of `d` together.
proof fn lemma_negated_quotient(x: int, d: int)
    requires
        0 <= x,
        0 < d,
    ensures
        x % d == 0 <==> (-x) % d == 0,
        x % d == 0 ==> (-x) / d == -(x / d),
{
    lemma_fundamental_div_mod(x, d);
    lemma_fundamental_div_mod(-x, d);
    if x % d == 0 {
        assert(-x == (-(x / d)) * d + 0) by (nonlinear_arith)
            requires
                x == d * (x / d) + 0,
        ;
        lemma_fundamental_div_mod_converse(-x, d, -(x / d), 0);
    }
    if (-x) % d == 0 {
        assert(x == (-((-x) / d)) * d + 0) by (nonlinear_arith)
            requires
                -x == d * ((-x) / d) + 0,
        ;
        lemma_fundamental_div_mod_converse(x, d, -((-x) / d), 0);
    }
}

/// Ten to the power of `n`, or `None` where 128 bits cannot hold it.
fn power_of_ten(n: u32) -> (r: Option<u128>)
    ensures
        match r {
            Some(p) => p == pow10(n as nat),
            None => pow10(n as nat) > u128::MAX,
        },
{
    let mut p: u128 = 1;
    let mut i: u32 = 0;
    while i < n
        invariant
            i <= n,
            p == pow10(i as nat),
        decreases n - i,
    {
        match p.checked_mul(10) {
            Some(next) => {
                p = next;
            },
            None => {
                proof {
                    lemma_pow10_grows((i + 1) as nat, n as nat);
                }
                return None;
            },
        }
        i = i + 1;
    }
    Some(p)
}

/// The magnitude of `x`.
fn magnitude(x: i128) -> (r: u128)
    ensures
        r == if x < 0 { -(x as int) } else { x as int },
{
    if x >= 0 {
        x as u128
    } else {
        (-(x + 1)) as u128 + 1
    }
}

impl Amount {
    /// An amount is well formed when a decimal of 96 bits can hold it.
    pub open spec fn wf(self) -> bool {
        is_mantissa(self.units as int)
    }

    /// Tells whether the amount is well formed.
    pub fn is_wf(&self) -> (r: bool)
        ensures
            r == self.wf(),
    {
        -MAX_MANTISSA <= self.units && self.units <= MAX_MANTISSA
    }

    /// The amount of `units` ten-thousandths.
    pub fn new(units: i64) -> (r: Amount)
        ensures
            r@ == units,
            r.wf(),
    {
        Amount { units: units as i128 }
    }

    /// The amount of `magnitude` ten-thousandths, negated where `negative`
    /// says so, or `None` where no amount can hold it.
    fn from_magnitude(magnitude: u128, negative: bool) -> (r: Option<Amount>)
        ensures
            r == (if magnitude <= MAX_MANTISSA {
                Some(
                    Amount {
                        units: (if negative {
                            -(magnitude as int)
                        } else {
                            magnitude as int
                        }) as i128,
                    },
                )
            } else {
                None
            }),
    {
        if magnitude > MAX_MANTISSA as u128 {
            None
        } else if negative {
            Some(Amount { units: -(magnitude as i128) })
        } else {
            Some(Amount { units: magnitude as i128 })
        }
    }

    /// The amount equal to the decimal `mantissa / 10^scale`. There is one
    /// where the decimal has no digit other than zero beyond the fourth and
    /// is not too large; nothing is rounded.
    pub fn from_decimal(mantissa: i128, scale: u32) -> (r: Option<Amount>)
        ensures
            r == (match fixed_point(mantissa as int, scale as nat) {
                Some(units) => Some(Amount { units: units as i128 }),
                None => None,
            }),
            r matches Some(amount) ==> amount.wf(),
    {
        // The sign is set aside: the digits are those of the magnitude.
        let negative: bool = mantissa < 0;
        let size: u128 = magnitude(mantissa);
        if scale <= PRECISION {
            // Fewer digits than four: zeros are added.
            let ghost factor = pow10((PRECISION - scale) as nat);
            proof {
                reveal_with_fuel(pow10, 5);
                assert(1 <= factor <= 10000);
                assert(mantissa * factor == if negative { -(size * factor) } else { size * factor })
                    by (nonlinear_arith)
                    requires
                        size == if negative { -(mantissa as int) } else { mantissa as int },
                ;
            }
            match power_of_ten(PRECISION - scale) {
                Some(f) => match size.checked_mul(f) {
                    Some(product) => Amount::from_magnitude(product, negative),
                    None => None,
                },
                None => None,
            }
        } else {
            // More digits than four: those beyond the fourth must be zeros.
            let ghost divisor = pow10((scale - PRECISION) as nat);
            proof {
                lemma_pow10_grows(0, (scale - PRECISION) as nat);
                lemma_negated_quotient(size as int, divisor);
            }
            match power_of_ten(scale - PRECISION) {
                Some(d) => if size % d == 0 {
                    Amount::from_magnitude(size / d, negative)
                } else {
                    None
                },
                // The divisor is more than the magnitude can be: only zero
                // is a multiple of it.
                None => if size == 0 {
                    proof {
                        lemma_fundamental_div_mod_converse(0, divisor, 0, 0);
                    }
                    Some(Amount { units: 0 })
                } else {
                    proof {
                        lemma_small_mod(size as nat, divisor as nat);
                    }
                    None
                },
            }
        }
    }

    /// Reads an amount in a text, as `amount_of_text` says. A text in which
    /// `rust_decimal` reads no decimal, and a decimal that is no amount,
    /// fail alike.
    pub fn parse(text: &str) -> (r: Result<Amount, CustomError>)
        ensures
            r == match amount_of_text(text@) {
                Some(amount) => Ok::<Amount, CustomError>(amount),
                None => Err(CustomError::DecimalParseError),
            },
            r matches Ok(amount) ==> amount.wf(),
    {
        match decimal_from_str(text) {
            Ok((mantissa, scale)) => match Amount::from_decimal(mantissa, scale) {
                Some(amount) => Ok(amount),
                None => Err(CustomError::DecimalParseError),
            },
            Err(error) => Err(CustomError::from(error)),
        }
    }

    /// What the amount is written as: a decimal of four fractional digits,
    /// as `rust_decimal` writes it.
    pub open spec fn text(self) -> Seq<char> {
        decimal_text(self@, PRECISION as nat)
    }

    /// Writes the amount, as `text` says: with a point and four digits
    /// after it.
    pub fn to_text(&self) -> (r: String)
        requires
            self.wf(),
        ensures
            r@ == self.text(),
            has_fraction(r@, PRECISION as nat),
    {
        decimal_to_string(self.units, PRECISION)
    }

    /// The sum of two amounts, or `None` where no amount can hold it.
    pub fn checked_add(self, other: Amount) -> (r: Option<Amount>)
        requires
            self.wf(),
            other.wf(),
        ensures
            r == (if is_mantissa(self@ + other@) {
                Some(Amount { units: (self@ + other@) as i128 })
            } else {
                None
            }),
    {
        match decimal_checked_add(self.units, other.units, PRECISION) {
            Some((units, scale)) => if scale == PRECISION {
                Some(Amount { units })
            } else {
                None
            },
            None => None,
        }
    }

    /// The difference of two amounts, or `None` where no amount can hold it.
    pub fn checked_sub(self, other: Amount) -> (r: Option<Amount>)
        requires
            self.wf(),
            other.wf(),
        ensures
            r == (if is_mantissa(self@ - other@) {
                Some(Amount { units: (self@ - other@) as i128 })
            } else {
                None
            }),
    {
        match decimal_checked_sub(self.units, other.units, PRECISION) {
            Some((units, scale)) => if scale == PRECISION {
                Some(Amount { units })
            } else {
                None
            },
            None => None,
        }
    }

    /// Whether this amount is less than `other`.
    pub fn less_than(self, other: Amount) -> (r: bool)
        requires
            self.wf(),
            other.wf(),
        ensures
            r == (self@ < other@),
    {
        decimal_less(self.units, other.units, PRECISION)
    }
}

} // verus!
