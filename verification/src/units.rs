//! Fixed-point units: every quantity is an integer count of millionths.

use vstd::prelude::*;

verus! {

/// One whole, expressed in millionths.
pub const UNIT: u32 = 1_000_000;

/// `value` limited to the closed interval from `low` to `high`.
pub open spec fn clamp_int(value: int, low: int, high: int) -> int {
    if value < low {
        low
    } else if value > high {
        high
    } else {
        value
    }
}

/// `percent` hundredths of `value`, rounded down.
pub open spec fn percent_of(value: int, percent: int) -> int {
    (value * percent) / 100
}

/// `numerator / denominator` rounded to the nearest integer, halves upwards,
/// for a quotient of natural numbers.
pub open spec fn rounded_div(numerator: int, denominator: int) -> int {
    (numerator + denominator / 2) / denominator
}

/// Limits a wide signed value to the closed interval from `low` to `high`.
pub fn clamp_i64(value: i64, low: i64, high: i64) -> (r: i64)
    requires
        low <= high,
    ensures
        r == clamp_int(value as int, low as int, high as int),
{
    if value < low {
        low
    } else if value > high {
        high
    } else {
        value
    }
}

/// A percentage of an unsigned quantity, rounded down.
pub fn percent_of_u32(value: u32, percent: u32) -> (r: u32)
    requires
        percent <= 100,
    ensures
        r == percent_of(value as int, percent as int),
{
    assert(0 <= value * percent <= value * 100) by (nonlinear_arith)
        requires
            0 <= percent <= 100,
            0 <= value,
    ;
    let product: u64 = value as u64 * percent as u64;
    (product / 100) as u32
}

/// A percentage of a signed quantity, rounded down (towards negative
/// infinity), so that the result is monotone in `value`.
pub fn percent_of_i32(value: i32, percent: u32) -> (r: i32)
    requires
        percent <= 100,
    ensures
        r == percent_of(value as int, percent as int),
{
    if value >= 0 {
        assert(0 <= value * percent <= value * 100) by (nonlinear_arith)
            requires
                0 <= percent <= 100,
                0 <= value,
        ;
        let product: i64 = value as i64 * percent as i64;
        (product / 100) as i32
    } else {
        let magnitude: i64 = -(value as i64);
        assert(0 <= magnitude * percent <= magnitude * 100) by (nonlinear_arith)
            requires
                0 <= percent <= 100,
                0 <= magnitude,
        ;
        let product: i64 = magnitude * percent as i64;
        assert(value * percent == -product) by (nonlinear_arith)
            requires
                product == magnitude * percent,
                magnitude == -value,
        ;
        let ceiling: i64 = (product + 99) / 100;
        (-ceiling) as i32
    }
}

/// Division of unsigned quantities rounded to the nearest integer, halves
/// upwards. The numerator must leave room for half the denominator.
pub fn rounded_div_u128(numerator: u128, denominator: u128) -> (r: u128)
    requires
        denominator > 0,
        numerator + denominator / 2 <= u128::MAX,
    ensures
        r == rounded_div(numerator as int, denominator as int),
{
    (numerator + denominator / 2) / denominator
}

} // verus!
