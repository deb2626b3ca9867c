//! Fixed-point scalars.
//!
//! A quantity of 1.0 (a screen, a frame, a second) is `FX_ONE` units; all
//! coordinates, colors, scales and times in this crate are `i64` counts of
//! such units. Products and quotients round toward zero.

use vstd::prelude::*;

verus! {

/// Number of fixed-point units in 1.0.
pub const FX_ONE: i64 = 1024;

/// Magnitude bound on fixed-point operands: products of two operands within
/// this bound, divided by `FX_ONE`, still fit in `i64`.
pub const FX_LIMIT: i64 = 0x10_0000_0000;

/// The operand range within which fixed-point arithmetic is overflow-free.
pub open spec fn fx_in_range(a: int) -> bool {
    -FX_LIMIT <= a <= FX_LIMIT
}

/// Quotient rounded toward zero (for a nonnegative divisor).
pub open spec fn fx_div_trunc(a: int, b: int) -> int {
    if a >= 0 {
        a / b
    } else {
        -((-a) / b)
    }
}

/// Product of two fixed-point numbers, scaled back into fixed-point units.
pub open spec fn fx_mul_spec(a: int, b: int) -> int {
    fx_div_trunc(a * b, FX_ONE as int)
}

/// A fixed-point product of operands of magnitude at most `m` has magnitude
/// at most `m * m` (scaling down by `FX_ONE` only shrinks it further).
pub proof fn lemma_fx_mul_bound(a: int, b: int, m: int)
    requires
        -m <= a <= m,
        -m <= b <= m,
        0 <= m,
    ensures
        -(m * m) <= fx_mul_spec(a, b) <= m * m,
{
    let p = a * b;
    assert(-(m * m) <= a * b <= m * m) by (nonlinear_arith)
        requires
            -m <= a <= m,
            -m <= b <= m,
            0 <= m,
    ;
    if p >= 0 {
        vstd::arithmetic::div_mod::lemma_div_pos_is_pos(p, FX_ONE as int);
        vstd::arithmetic::div_mod::lemma_div_nonincreasing(p, FX_ONE as int);
    } else {
        vstd::arithmetic::div_mod::lemma_div_pos_is_pos(-p, FX_ONE as int);
        vstd::arithmetic::div_mod::lemma_div_nonincreasing(-p, FX_ONE as int);
    }
}

/// Quotient of two fixed-point numbers of the same unit, rounded toward zero.
pub fn div_trunc(a: i64, d: i64) -> (r: i64)
    requires
        d > 0,
        a > i64::MIN,
    ensures
        r == fx_div_trunc(a as int, d as int),
{
    if a >= 0 {
        ((a as u64) / (d as u64)) as i64
    } else {
        let q: u64 = ((-a) as u64) / (d as u64);
        -(q as i64)
    }
}

/// Fixed-point multiplication: `(a * b) / FX_ONE`, rounded toward zero.
pub fn fx_mul(a: i64, b: i64) -> (r: i64)
    requires
        fx_in_range(a as int),
        fx_in_range(b as int),
    ensures
        r == fx_mul_spec(a as int, b as int),
        -0x4000_0000_0000_0000 <= r <= 0x4000_0000_0000_0000,
{
    let neg: bool = (a < 0) != (b < 0);
    let ma: u64 = if a < 0 {
        (-a) as u64
    } else {
        a as u64
    };
    let mb: u64 = if b < 0 {
        (-b) as u64
    } else {
        b as u64
    };
    assert(ma * mb <= 0x10_0000_0000u64 * 0x10_0000_0000u64) by (nonlinear_arith)
        requires
            ma <= 0x10_0000_0000u64,
            mb <= 0x10_0000_0000u64,
    ;
    let p: u128 = (ma as u128) * (mb as u128);
    let q: u128 = p / (FX_ONE as u128);
    let qi: i64 = q as i64;
    assert(ma * mb == if a as int * b as int >= 0 { a as int * b as int } else { -(a as int * b as int) }) by (nonlinear_arith)
        requires
            ma == if a < 0 { -(a as int) } else { a as int },
            mb == if b < 0 { -(b as int) } else { b as int },
    ;
    assert((a as int * b as int >= 0) == !neg || ma * mb == 0) by (nonlinear_arith)
        requires
            neg == ((a < 0) != (b < 0)),
            ma == if a < 0 { -(a as int) } else { a as int },
            mb == if b < 0 { -(b as int) } else { b as int },
    ;
    if neg {
        -qi
    } else {
        qi
    }
}

} // verus!
