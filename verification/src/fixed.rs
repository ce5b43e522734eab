//! Fixed-point numbers: every quantity is an integer count of thousandths.
//!
//! A stick deflection of 1.0 is the integer 1000, an angle of one degree is
//! 1000 millidegrees, a volt is 1000 millivolts. Products are divided by
//! [`UNIT`] and the quotient is rounded toward zero, so that negating an
//! input negates the result.

use vstd::prelude::*;

verus! {

/// The integer that stands for 1.0.
pub const UNIT: i32 = 1000;

/// Division that rounds toward zero, as the machine's `/` does on signed integers.
pub open spec fn trunc_div(a: int, b: int) -> int
    recommends
        b > 0,
{
    if a >= 0 {
        a / b
    } else {
        -((-a) / b)
    }
}

/// `v` limited to the interval from `lo` to `hi`.
pub open spec fn clamp(v: int, lo: int, hi: int) -> int
    recommends
        lo <= hi,
{
    if v < lo {
        lo
    } else if v > hi {
        hi
    } else {
        v
    }
}

/// The distance of `v` from zero.
pub open spec fn magnitude(v: int) -> int {
    if v < 0 {
        -v
    } else {
        v
    }
}

/// The fixed-point product of two thousandths: `a * b / UNIT`, rounded toward zero.
pub open spec fn mul_unit(a: int, b: int) -> int {
    trunc_div(a * b, UNIT as int)
}

/// Limits `v` to the interval from `lo` to `hi`.
pub fn clamp_i64(v: i64, lo: i64, hi: i64) -> (r: i64)
    requires
        lo <= hi,
    ensures
        r == clamp(v as int, lo as int, hi as int),
{
    if v < lo {
        lo
    } else if v > hi {
        hi
    } else {
        v
    }
}

/// Limits a wide intermediate result to the interval from `lo` to `hi`.
pub fn clamp_i128(v: i128, lo: i64, hi: i64) -> (r: i64)
    requires
        lo <= hi,
    ensures
        r == clamp(v as int, lo as int, hi as int),
{
    if v < lo as i128 {
        lo
    } else if v > hi as i128 {
        hi
    } else {
        v as i64
    }
}

/// Multiplies two thousandths and scales the product back to thousandths.
pub fn mul_milli(a: i32, b: i32) -> (r: i64)
    ensures
        r == mul_unit(a as int, b as int),
{
    let wide_a: i64 = a as i64;
    let wide_b: i64 = b as i64;
    assert(-0x4000_0000_0000_0000 <= wide_a * wide_b <= 0x4000_0000_0000_0000)
        by (nonlinear_arith)
        requires
            -0x8000_0000 <= wide_a <= 0x8000_0000,
            -0x8000_0000 <= wide_b <= 0x8000_0000,
    ;
    (wide_a * wide_b) / (UNIT as i64)
}

/// Negating one factor negates the fixed-point product: rounding toward zero
/// has no bias.
pub proof fn lemma_mul_unit_odd(a: int, b: int)
    ensures
        mul_unit(-a, b) == -mul_unit(a, b),
{
    assert((-a) * b == -(a * b)) by (nonlinear_arith);
}

/// Division that rounds toward zero never reverses an order.
pub proof fn lemma_trunc_div_monotonic(a1: int, a2: int, d: int)
    requires
        a1 <= a2,
        d > 0,
    ensures
        trunc_div(a1, d) <= trunc_div(a2, d),
{
    if a1 >= 0 {
        vstd::arithmetic::div_mod::lemma_div_is_ordered(a1, a2, d);
    } else if a2 < 0 {
        vstd::arithmetic::div_mod::lemma_div_is_ordered(-a2, -a1, d);
    } else {
        vstd::arithmetic::div_mod::lemma_div_pos_is_pos(-a1, d);
        vstd::arithmetic::div_mod::lemma_div_pos_is_pos(a2, d);
    }
}

} // verus!
