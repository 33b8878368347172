//! Integer arithmetic helpers shared by the whole library: division rounded
//! to the nearest integer (half away from zero rounds up), together with the
//! facts about it that the curve, fade and projection proofs rely on.

use vstd::prelude::*;
use vstd::arithmetic::div_mod::{
    lemma_fundamental_div_mod, lemma_fundamental_div_mod_converse, lemma_div_is_ordered,
    lemma_mod_bound,
};

verus! {

/// `num / den` rounded to the nearest integer, halves rounding up.
/// Meaningful for `den > 0`; `num` may be negative.
pub open spec fn round_div(num: int, den: int) -> int {
    (2 * num + den) / (2 * den)
}

/// `num / den` rounded up; meaningful for `den > 0` and `num >= 0`.
pub open spec fn ceil_div(num: int, den: int) -> int {
    (num + den - 1) / den
}

/// The defining property of `round_div`: its result is the unique integer
/// within half of `den` of the exact quotient (`den * q <= num + den/2`,
/// tightly: `2*den*q - den <= 2*num < 2*den*q + den`).
pub proof fn lemma_round_div_bounds(num: int, den: int)
    requires
        den >= 1,
    ensures
        2 * den * round_div(num, den) - den <= 2 * num < 2 * den * round_div(num, den) + den,
{
    let x = 2 * num + den;
    let d = 2 * den;
    lemma_fundamental_div_mod(x, d);
    lemma_mod_bound(x, d);
}

/// `round_div` agrees with any integer whose doubled distance to the exact
/// quotient is within `den` (the converse direction).
pub proof fn lemma_round_div_exact(num: int, den: int, q: int)
    requires
        den >= 1,
        2 * den * q - den <= 2 * num < 2 * den * q + den,
    ensures
        round_div(num, den) == q,
{
    let x = 2 * num + den;
    let d = 2 * den;
    let r = x - d * q;
    assert(x == q * d + r) by (nonlinear_arith)
        requires r == x - d * q,
    ;
    lemma_fundamental_div_mod_converse(x, d, q, r);
}

/// Rounded division of an exact multiple recovers the factor.
pub proof fn lemma_round_div_multiple(k: int, den: int)
    requires
        den >= 1,
    ensures
        round_div(k * den, den) == k,
{
    assert(2 * den * k - den <= 2 * (k * den) < 2 * den * k + den) by (nonlinear_arith)
        requires den >= 1,
    ;
    lemma_round_div_exact(k * den, den, k);
}

/// Shifting the numerator by a multiple of the denominator shifts the
/// rounded quotient by the same factor.
pub proof fn lemma_round_div_shift(num: int, den: int, k: int)
    requires
        den >= 1,
    ensures
        round_div(num + k * den, den) == round_div(num, den) + k,
{
    let q = round_div(num, den);
    lemma_round_div_bounds(num, den);
    assert(2 * den * (q + k) - den <= 2 * (num + k * den) < 2 * den * (q + k) + den)
        by (nonlinear_arith)
        requires
            den >= 1,
            2 * den * q - den <= 2 * num < 2 * den * q + den,
    ;
    lemma_round_div_exact(num + k * den, den, q + k);
}

/// Rounded division is monotone in the numerator.
pub proof fn lemma_round_div_ordered(num1: int, num2: int, den: int)
    requires
        den >= 1,
        num1 <= num2,
    ensures
        round_div(num1, den) <= round_div(num2, den),
{
    lemma_div_is_ordered(2 * num1 + den, 2 * num2 + den, 2 * den);
}

/// A numerator bounded by `bound * den` in magnitude keeps the rounded
/// quotient within `bound` in magnitude.
pub proof fn lemma_round_div_magnitude(num: int, den: int, bound: int)
    requires
        den >= 1,
        0 <= bound,
        -(bound * den) <= num <= bound * den,
    ensures
        -bound <= round_div(num, den) <= bound,
{
    lemma_round_div_multiple(bound, den);
    lemma_round_div_multiple(-bound, den);
    lemma_round_div_ordered(num, bound * den, den);
    assert(-bound * den == -(bound * den)) by (nonlinear_arith);
    lemma_round_div_ordered(-bound * den, num, den);
}

/// The one multiple of `den` within `[low, low + den)` is the ceiling
/// multiple `ceil_div(low, den) * den`.
pub proof fn lemma_smallest_multiple(x: int, low: int, den: int)
    requires
        1 <= den,
        1 <= low,
        x % den == 0,
        low <= x < low + den,
    ensures
        x == ceil_div(low, den) * den,
{
    lemma_fundamental_div_mod(x, den);
    let q = x / den;
    assert(x == den * q);
    assert(q * den == den * q) by (nonlinear_arith);
    lemma_fundamental_div_mod_converse(low + den - 1, den, q, low + den - 1 - q * den);
    assert(ceil_div(low, den) * den == q * den) by (nonlinear_arith)
        requires ceil_div(low, den) == q,
    ;
    assert(q * den == den * q) by (nonlinear_arith);
}

/// A count of whole steps whose last step is the first to reach `low` is
/// the ceiling quotient.
pub proof fn lemma_ceil_div_unique(low: int, den: int, q: int)
    requires
        1 <= den,
        (q - 1) * den < low <= q * den,
    ensures
        ceil_div(low, den) == q,
{
    let r = low + den - 1 - q * den;
    assert((q - 1) * den == q * den - den) by (nonlinear_arith);
    lemma_fundamental_div_mod_converse(low + den - 1, den, q, r);
}

/// Executable rounded division on non-negative 64-bit values.
pub fn round_div_u64(num: u64, den: u64) -> (r: u64)
    requires
        1 <= den,
        2 * num + den <= u64::MAX,
        2 * den <= u64::MAX,
    ensures
        r == round_div(num as int, den as int),
{
    (2 * num + den) / (2 * den)
}

/// Executable rounded division on non-negative 128-bit values; wide enough
/// for the products the surface rescaling needs.
pub fn round_div_u128(num: u128, den: u128) -> (r: u128)
    requires
        1 <= den,
        2 * num + den <= u128::MAX,
        2 * den <= u128::MAX,
    ensures
        r == round_div(num as int, den as int),
{
    (2 * num + den) / (2 * den)
}

/// Executable ceiling division on non-negative 64-bit values.
pub fn ceil_div_u64(num: u64, den: u64) -> (r: u64)
    requires
        1 <= den,
        num + den <= u64::MAX,
    ensures
        r == ceil_div(num as int, den as int),
{
    (num + den - 1) / den
}

} // verus!
