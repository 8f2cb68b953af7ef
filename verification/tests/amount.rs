use transaction_handler::amount::{Amount, PRECISION};
use transaction_handler::error::CustomError;

const LARGEST: i128 = 79_228_162_514_264_337_593_543_950_335;

#[test]
fn precision_is_four_digits() {
    assert_eq!(PRECISION, 4);
}

#[test]
fn well_formed_amounts_fit_in_ninety_six_bits() {
    assert_eq!(Amount { units: 0 }.is_wf(), true);
    assert_eq!(Amount { units: LARGEST }.is_wf(), true);
    assert_eq!(Amount { units: -LARGEST }.is_wf(), true);
    assert_eq!(Amount { units: LARGEST + 1 }.is_wf(), false);
    assert_eq!(Amount { units: -LARGEST - 1 }.is_wf(), false);
    assert_eq!(Amount { units: i128::MAX }.is_wf(), false);
    assert_eq!(Amount { units: i128::MIN }.is_wf(), false);
}

#[test]
fn new_counts_ten_thousandths() {
    assert_eq!(Amount::new(1).units, 1);
    assert_eq!(Amount::new(-25_000).units, -25_000);
    assert_eq!(Amount::new(i64::MAX).units, i64::MAX as i128);
    assert_eq!(Amount::new(i64::MIN).units, i64::MIN as i128);
}

#[test]
fn from_decimal_scales_up_to_four_digits() {
    assert_eq!(Amount::from_decimal(1, 0), Some(Amount { units: 10_000 }));
    assert_eq!(Amount::from_decimal(15, 1), Some(Amount { units: 15_000 }));
    assert_eq!(Amount::from_decimal(-275, 2), Some(Amount { units: -27_500 }));
    assert_eq!(Amount::from_decimal(1_234, 3), Some(Amount { units: 12_340 }));
    assert_eq!(Amount::from_decimal(12_345, 4), Some(Amount { units: 12_345 }));
    assert_eq!(Amount::from_decimal(0, 0), Some(Amount { units: 0 }));
}

#[test]
fn from_decimal_drops_only_zeros() {
    assert_eq!(Amount::from_decimal(150_000, 5), Some(Amount { units: 15_000 }));
    assert_eq!(Amount::from_decimal(-1_500_000, 6), Some(Amount { units: -15_000 }));
    assert_eq!(Amount::from_decimal(123_456, 5), None);
    assert_eq!(Amount::from_decimal(-123_456, 5), None);
    assert_eq!(Amount::from_decimal(1, 5), None);
    assert_eq!(Amount::from_decimal(1, 28), None);
    assert_eq!(Amount::from_decimal(0, 28), Some(Amount { units: 0 }));
    assert_eq!(Amount::from_decimal(0, u32::MAX), Some(Amount { units: 0 }));
    assert_eq!(Amount::from_decimal(10, u32::MAX), None);
    assert_eq!(
        Amount::from_decimal(10_000_000_000_000_000_000_000_000_000, 28),
        Some(Amount { units: 10_000 })
    );
}

#[test]
fn from_decimal_keeps_to_the_range() {
    assert_eq!(Amount::from_decimal(LARGEST, 4), Some(Amount { units: LARGEST }));
    assert_eq!(Amount::from_decimal(-LARGEST, 4), Some(Amount { units: -LARGEST }));
    assert_eq!(Amount::from_decimal(LARGEST + 1, 4), None);
    assert_eq!(Amount::from_decimal(-LARGEST - 1, 4), None);
    assert_eq!(Amount::from_decimal(LARGEST, 3), None);
    assert_eq!(Amount::from_decimal(LARGEST / 10 + 1, 3), None);
    assert_eq!(
        Amount::from_decimal(LARGEST / 10, 3),
        Some(Amount { units: LARGEST / 10 * 10 })
    );
    assert_eq!(Amount::from_decimal(i128::MAX, 0), None);
    assert_eq!(Amount::from_decimal(i128::MIN, 0), None);
    assert_eq!(Amount::from_decimal(i128::MAX, 4), None);
    assert_eq!(Amount::from_decimal(i128::MIN, 4), None);
    assert_eq!(Amount::from_decimal(i128::MIN, 5), None);
    assert_eq!(
        Amount::from_decimal(LARGEST * 10, 5),
        Some(Amount { units: LARGEST })
    );
}

#[test]
fn parse_reads_decimals() {
    assert_eq!(Amount::parse("1.0"), Ok(Amount { units: 10_000 }));
    assert_eq!(Amount::parse("1.0000"), Ok(Amount { units: 10_000 }));
    assert_eq!(Amount::parse("2"), Ok(Amount { units: 20_000 }));
    assert_eq!(Amount::parse("0.0001"), Ok(Amount { units: 1 }));
    assert_eq!(Amount::parse("-2.5"), Ok(Amount { units: -25_000 }));
    assert_eq!(Amount::parse("1.50000"), Ok(Amount { units: 15_000 }));
    assert_eq!(Amount::parse("0"), Ok(Amount { units: 0 }));
    assert_eq!(
        Amount::parse("7922816251426433759354395.0335"),
        Ok(Amount { units: LARGEST })
    );
}

#[test]
fn parse_rejects_what_is_no_amount() {
    assert_eq!(Amount::parse(""), Err(CustomError::DecimalParseError));
    assert_eq!(Amount::parse("abc"), Err(CustomError::DecimalParseError));
    assert_eq!(Amount::parse("1.2.3"), Err(CustomError::DecimalParseError));
    assert_eq!(Amount::parse("0.00001"), Err(CustomError::DecimalParseError));
    assert_eq!(Amount::parse("1.23456"), Err(CustomError::DecimalParseError));
    assert_eq!(
        Amount::parse("79228162514264337593543950335"),
        Err(CustomError::DecimalParseError)
    );
}

#[test]
fn checked_add_is_exact() {
    let a = Amount::new(12_345);
    let b = Amount::new(-345);
    assert_eq!(a.checked_add(b), Some(Amount { units: 12_000 }));
    assert_eq!(b.checked_add(a), Some(Amount { units: 12_000 }));
    assert_eq!(a.checked_add(Amount::new(0)), Some(a));
    assert_eq!(Amount::new(0).checked_add(b), Some(b));
    assert_eq!(a.checked_add(Amount::new(-12_345)), Some(Amount { units: 0 }));
    let big = Amount::new(i64::MAX);
    assert_eq!(big.checked_add(big), Some(Amount { units: 2 * (i64::MAX as i128) }));
    let wide = Amount { units: 1 << 80 };
    assert_eq!(wide.checked_add(wide), Some(Amount { units: 1 << 81 }));
    assert_eq!(wide.checked_add(Amount::new(-1)), Some(Amount { units: (1 << 80) - 1 }));
}

#[test]
fn checked_add_stops_at_the_range() {
    let largest = Amount { units: LARGEST };
    let smallest = Amount { units: -LARGEST };
    assert_eq!(largest.checked_add(Amount::new(1)), None);
    assert_eq!(largest.checked_add(largest), None);
    assert_eq!(smallest.checked_add(Amount::new(-1)), None);
    assert_eq!(largest.checked_add(Amount::new(0)), Some(largest));
    assert_eq!(largest.checked_add(Amount::new(-1)), Some(Amount { units: LARGEST - 1 }));
    assert_eq!(largest.checked_add(smallest), Some(Amount { units: 0 }));
    assert_eq!(
        Amount { units: LARGEST - 5 }.checked_add(Amount::new(5)),
        Some(largest)
    );
    assert_eq!(Amount { units: LARGEST - 5 }.checked_add(Amount::new(6)), None);
}

#[test]
fn checked_sub_is_exact() {
    let a = Amount::new(12_345);
    let b = Amount::new(345);
    assert_eq!(a.checked_sub(b), Some(Amount { units: 12_000 }));
    assert_eq!(b.checked_sub(a), Some(Amount { units: -12_000 }));
    assert_eq!(a.checked_sub(a), Some(Amount { units: 0 }));
    assert_eq!(a.checked_sub(Amount::new(0)), Some(a));
    assert_eq!(Amount::new(0).checked_sub(a), Some(Amount { units: -12_345 }));
    assert_eq!(a.checked_sub(Amount::new(-5)), Some(Amount { units: 12_350 }));
    let wide = Amount { units: 1 << 80 };
    assert_eq!(wide.checked_sub(Amount::new(1)), Some(Amount { units: (1 << 80) - 1 }));
    assert_eq!(Amount::new(1).checked_sub(wide), Some(Amount { units: 1 - (1 << 80) }));
}

#[test]
fn checked_sub_stops_at_the_range() {
    let largest = Amount { units: LARGEST };
    let smallest = Amount { units: -LARGEST };
    assert_eq!(smallest.checked_sub(Amount::new(1)), None);
    assert_eq!(largest.checked_sub(Amount::new(-1)), None);
    assert_eq!(largest.checked_sub(smallest), None);
    assert_eq!(largest.checked_sub(largest), Some(Amount { units: 0 }));
    assert_eq!(smallest.checked_sub(Amount::new(-1)), Some(Amount { units: 1 - LARGEST }));
    assert_eq!(Amount::new(0).checked_sub(largest), Some(smallest));
}

#[test]
fn less_than_orders_by_value() {
    assert_eq!(Amount::new(1).less_than(Amount::new(2)), true);
    assert_eq!(Amount::new(2).less_than(Amount::new(1)), false);
    assert_eq!(Amount::new(2).less_than(Amount::new(2)), false);
    assert_eq!(Amount::new(-2).less_than(Amount::new(1)), true);
    assert_eq!(Amount::new(-2).less_than(Amount::new(-1)), true);
    assert_eq!(Amount::new(-1).less_than(Amount::new(-2)), false);
    assert_eq!(Amount::new(0).less_than(Amount::new(-1)), false);
    assert_eq!(Amount::new(-1).less_than(Amount::new(0)), true);
    assert_eq!(Amount::new(0).less_than(Amount::new(0)), false);
    assert_eq!(Amount { units: 1 << 70 }.less_than(Amount { units: (1 << 70) + 1 }), true);
    assert_eq!(Amount { units: LARGEST }.less_than(Amount { units: -LARGEST }), false);
    assert_eq!(Amount { units: -LARGEST }.less_than(Amount { units: LARGEST }), true);
}

/// A small generator of numbers, the same on every run.
struct Numbers(u64);

impl Numbers {
    fn next(&mut self) -> u64 {
        self.0 = self.0.wrapping_mul(6364136223846793005).wrapping_add(1442695040888963407);
        self.0 >> 11
    }

    /// A number of up to `bits` bits, of either sign.
    fn units(&mut self, bits: u32) -> i128 {
        let wide = ((self.next() as u128) << 64) | ((self.next() as u128) << 11) | 1023;
        let size = (wide % (1u128 << bits)) as i128;
        if self.next() % 2 == 0 {
            size
        } else {
            -size
        }
    }
}

#[test]
fn arithmetic_agrees_with_the_integers() {
    let mut numbers = Numbers(2024);
    let widths = [1, 8, 31, 32, 33, 63, 64, 65, 80, 95, 96];
    for &left in widths.iter() {
        for &right in widths.iter() {
            for _ in 0..40 {
                let a = numbers.units(left);
                let b = numbers.units(right);
                let fits = |n: i128| -LARGEST <= n && n <= LARGEST;
                let sum = if fits(a + b) { Some(Amount { units: a + b }) } else { None };
                let difference = if fits(a - b) { Some(Amount { units: a - b }) } else { None };
                assert_eq!(Amount { units: a }.checked_add(Amount { units: b }), sum);
                assert_eq!(Amount { units: a }.checked_sub(Amount { units: b }), difference);
                assert_eq!(Amount { units: a }.less_than(Amount { units: b }), a < b);
                assert_eq!(Amount { units: a }.less_than(Amount { units: a }), false);
            }
        }
    }
}

#[test]
fn arithmetic_is_exact_next_to_the_limits() {
    for near in 0..200i128 {
        for step in 0..200i128 {
            let a = Amount { units: LARGEST - near };
            let b = Amount { units: step };
            let sum = if step <= near { Some(Amount { units: LARGEST - near + step }) } else { None };
            assert_eq!(a.checked_add(b), sum);
            assert_eq!(b.checked_add(a), sum);
            let low = Amount { units: near - LARGEST };
            let difference =
                if step <= near { Some(Amount { units: near - LARGEST - step }) } else { None };
            assert_eq!(low.checked_sub(b), difference);
            assert_eq!(low.less_than(a), true);
            assert_eq!(a.less_than(low), false);
            assert_eq!(Amount { units: LARGEST - step }.less_than(a), step > near);
        }
    }
}
