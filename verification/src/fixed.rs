//! Fixed-point arithmetic in millionths.

use vstd::prelude::*;
use vstd::arithmetic::div_mod::lemma_fundamental_div_mod;
use vstd::arithmetic::div_mod::lemma_fundamental_div_mod_converse;

verus! {

/// The number of fixed-point units in one whole: a value `v` stands for `v / ONE`.
pub const ONE: i32 = 1_000_000;

/// The smaller of two integers.
pub open spec fn min_int(a: int, b: int) -> int {
    if a <= b { a } else { b }
}

/// The larger of two integers.
pub open spec fn max_int(a: int, b: int) -> int {
    if a >= b { a } else { b }
}

/// The magnitude of an integer.
pub open spec fn abs_int(v: int) -> int {
    if v >= 0 { v } else { -v }
}

/// `v` limited to the range from `lo` to `hi`.
pub open spec fn clamp_int(v: int, lo: int, hi: int) -> int {
    if v < lo { lo } else if v > hi { hi } else { v }
}

/// The product of two fixed-point values, rounded down to a whole number of units.
pub open spec fn fx_mul(a: int, b: int) -> int {
    (a * b) / (ONE as int)
}

/// `num / den` rounded to the nearest integer, a tie going away from zero.
pub open spec fn round_div(num: int, den: int) -> int
    recommends
        den > 0,
{
    if num >= 0 {
        (2 * num + den) / (2 * den)
    } else {
        -((den - 2 * num) / (2 * den))
    }
}

/// `v` limited to what a `u32` holds.
pub open spec fn sat_u32(v: int) -> int {
    clamp_int(v, 0, u32::MAX as int)
}

/// `v` limited to what an `i32` holds.
pub open spec fn sat_i32(v: int) -> int {
    clamp_int(v, i32::MIN as int, i32::MAX as int)
}

/// The range within which the functions below take their operands.
pub open spec fn fits(v: int) -> bool {
    -0x4000_0000_0000_0000_0000_0000_0000_0000 <= v <= 0x4000_0000_0000_0000_0000_0000_0000_0000
}

/// A product is no larger than the product of its factors' bounds.
pub proof fn lemma_mul_bound(a: int, b: int, bound_a: int, bound_b: int)
    requires
        -bound_a <= a <= bound_a,
        -bound_b <= b <= bound_b,
    ensures
        -(bound_a * bound_b) <= a * b <= bound_a * bound_b,
{
    assert(-(bound_a * bound_b) <= a * b <= bound_a * bound_b) by (nonlinear_arith)
        requires
            -bound_a <= a <= bound_a,
            -bound_b <= b <= bound_b,
    ;
}

/// How a negative number divides, told by how its opposite does: where the
/// opposite leaves no remainder the quotient is the opposite quotient, and
/// else it lies one further down and the remainder is what was missing.
pub proof fn lemma_div_of_negative(a: int, b: int)
    requires
        a < 0,
        b > 0,
    ensures
        (-a) % b == 0 ==> a / b == -((-a) / b) && a % b == 0,
        (-a) % b != 0 ==> a / b == -((-a) / b) - 1 && a % b == b - (-a) % b,
{
    let n = -a;
    let q = n / b;
    let r = n % b;
    lemma_fundamental_div_mod(n, b);
    if r == 0 {
        assert(a == (-q) * b + 0) by (nonlinear_arith)
            requires
                n == b * q + r,
                r == 0,
                a == -n,
        ;
        lemma_fundamental_div_mod_converse(a, b, -q, 0);
    } else {
        assert(a == (-q - 1) * b + (b - r)) by (nonlinear_arith)
            requires
                n == b * q + r,
                a == -n,
        ;
        lemma_fundamental_div_mod_converse(a, b, -q - 1, b - r);
    }
}

/// Division rounding towards negative infinity.
pub fn floor_div(a: i128, b: i128) -> (q: i128)
    requires
        b > 0,
        fits(a as int),
    ensures
        q == a as int / b as int,
{
    if a >= 0 {
        a / b
    } else {
        let n: i128 = -a;
        let q: i128 = n / b;
        let r: i128 = n % b;
        proof {
            lemma_div_of_negative(a as int, b as int);
        }
        if r == 0 {
            -q
        } else {
            -q - 1
        }
    }
}

/// The remainder that goes with [`floor_div`]: never negative.
pub fn floor_mod(a: i128, b: i128) -> (r: i128)
    requires
        b > 0,
        fits(a as int),
    ensures
        r == a as int % b as int,
        0 <= r < b,
{
    if a >= 0 {
        a % b
    } else {
        let n: i128 = -a;
        let r: i128 = n % b;
        proof {
            lemma_div_of_negative(a as int, b as int);
        }
        if r == 0 {
            0
        } else {
            b - r
        }
    }
}

/// The fixed-point product of two values.
pub fn mul_fixed(a: i128, b: i128) -> (r: i128)
    requires
        fits(a as int * b as int),
    ensures
        r == fx_mul(a as int, b as int),
{
    floor_div(a * b, ONE as i128)
}

/// Division to the nearest integer, a tie going away from zero.
pub fn div_round(num: i128, den: i128) -> (q: i128)
    requires
        0 < den <= 0x1000_0000_0000_0000_0000_0000_0000,
        -0x1000_0000_0000_0000_0000_0000_0000_0000 <= num <= 0x1000_0000_0000_0000_0000_0000_0000_0000,
    ensures
        q == round_div(num as int, den as int),
{
    if num >= 0 {
        (2 * num + den) / (2 * den)
    } else {
        -((den - 2 * num) / (2 * den))
    }
}

/// A wide value cut to the range of `u32`.
pub fn to_u32(v: i128) -> (r: u32)
    ensures
        r == sat_u32(v as int),
{
    if v < 0 {
        0
    } else if v > 0xFFFF_FFFF {
        0xFFFF_FFFF
    } else {
        v as u32
    }
}

/// A wide value cut to the range of `i32`.
pub fn to_i32(v: i128) -> (r: i32)
    ensures
        r == sat_i32(v as int),
{
    if v < -0x8000_0000 {
        -0x8000_0000
    } else if v > 0x7FFF_FFFF {
        0x7FFF_FFFF
    } else {
        v as i32
    }
}

} // verus!
