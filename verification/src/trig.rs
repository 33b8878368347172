//! Fixed-point sine and cosine on angles measured in tenths of a degree
//! ("deci-degrees"), scaled by `UNIT`. The curve only needs a smooth odd
//! wave that is exact at the quadrant boundaries, so a rational
//! approximation on integers serves: `sin(x°) ~ 4x(180-x) / (40500 - x(180-x))`
//! for `0 <= x <= 180`, extended by sign to the full turn. The approximation
//! is exact at 0, 90 and 180 degrees and stays within `[-UNIT, UNIT]`.

use vstd::prelude::*;
use vstd::arithmetic::div_mod::{
    lemma_div_is_ordered, lemma_div_by_multiple, lemma_div_pos_is_pos, lemma_mod_bound,
    lemma_small_mod,
};

verus! {

/// Fixed-point scale: this many counts stand for the real number one.
pub const UNIT: i64 = 1_000_000;

/// The half-turn numerator kernel `4 * x * (1800 - x)`, non-negative on
/// `[0, 1800]` and largest (810000 * 4) at the quarter turn.
pub open spec fn sin_kernel(x: int) -> int {
    x * (1800 - x)
}

/// Scaled sine on a half turn: exact rational approximation, floored.
/// Meaningful for `0 <= x <= 1800`.
pub open spec fn sin_half(x: int) -> int {
    (1_000_000 * 4 * sin_kernel(x)) / (4_050_000 - sin_kernel(x))
}

/// Scaled sine of `a` deci-degrees, any `a`: reduce to one turn, use the
/// half-turn wave with its sign.
pub open spec fn sin_deci(a: int) -> int {
    let x = a % 3600;
    if x <= 1800 {
        sin_half(x)
    } else {
        -sin_half(x - 1800)
    }
}

/// Scaled cosine of `a` deci-degrees: the sine shifted by a quarter turn.
pub open spec fn cos_deci(a: int) -> int {
    sin_deci(a + 900)
}

/// The kernel stays within `[0, 810000]` on the half turn.
pub proof fn lemma_kernel_bounds(x: int)
    requires
        0 <= x <= 1800,
    ensures
        0 <= sin_kernel(x) <= 810_000,
{
    assert(0 <= x * (1800 - x) <= 810_000) by (nonlinear_arith)
        requires 0 <= x <= 1800,
    ;
}

/// The half-turn wave stays within `[0, UNIT]`.
pub proof fn lemma_sin_half_bounds(x: int)
    requires
        0 <= x <= 1800,
    ensures
        0 <= sin_half(x) <= UNIT,
{
    let t = sin_kernel(x);
    lemma_kernel_bounds(x);
    let num = 1_000_000 * 4 * t;
    let den = 4_050_000 - t;
    lemma_div_pos_is_pos(num, den);
    assert(num <= 1_000_000 * den) by (nonlinear_arith)
        requires 0 <= t <= 810_000, num == 1_000_000 * 4 * t, den == 4_050_000 - t,
    ;
    lemma_div_is_ordered(num, 1_000_000 * den, den);
    lemma_div_by_multiple(1_000_000, den);
}

/// The sine stays within `[-UNIT, UNIT]` for every angle.
pub proof fn lemma_sin_deci_bounds(a: int)
    ensures
        -UNIT <= sin_deci(a) <= UNIT,
{
    lemma_mod_bound(a, 3600);
    let x = a % 3600;
    if x <= 1800 {
        lemma_sin_half_bounds(x);
    } else {
        lemma_sin_half_bounds(x - 1800);
    }
}

/// The sine is exact at the quadrant boundaries of one turn.
pub proof fn lemma_sin_deci_cardinal()
    ensures
        sin_deci(0) == 0,
        sin_deci(900) == UNIT,
        sin_deci(1800) == 0,
        sin_deci(2700) == -UNIT,
{
    lemma_small_mod(0, 3600);
    lemma_small_mod(900, 3600);
    lemma_small_mod(1800, 3600);
    lemma_small_mod(2700, 3600);
    assert(sin_kernel(0) == 0);
    assert(sin_kernel(900) == 810_000);
    assert(sin_half(0) == 0) by {
        lemma_div_by_multiple(0, 4_050_000);
    };
    assert(sin_half(900) == UNIT) by {
        assert(1_000_000 * 4 * 810_000int == 1_000_000 * 3_240_000);
        lemma_div_by_multiple(1_000_000, 3_240_000);
    };
    assert(sin_half(1800) == 0) by {
        assert(sin_kernel(1800) == 0);
        lemma_div_by_multiple(0, 4_050_000);
    };
}

/// The cosine is exact at the quadrant boundaries of a half turn.
pub proof fn lemma_cos_deci_cardinal()
    ensures
        cos_deci(0) == UNIT,
        cos_deci(900) == 0,
        cos_deci(1800) == -UNIT,
{
    lemma_sin_deci_cardinal();
}

/// Scaled sine, executable. Mirrors `sin_deci` exactly.
pub fn sin_fixed(a: u64) -> (r: i64)
    ensures
        r == sin_deci(a as int),
        -UNIT <= r <= UNIT,
{
    proof {
        lemma_sin_deci_bounds(a as int);
        lemma_mod_bound(a as int, 3600);
    }
    let x = a % 3600;
    if x <= 1800 {
        sin_half_fixed(x)
    } else {
        -sin_half_fixed(x - 1800)
    }
}

/// The half-turn wave, executable. Mirrors `sin_half` exactly.
fn sin_half_fixed(x: u64) -> (r: i64)
    requires
        x <= 1800,
    ensures
        r == sin_half(x as int),
        0 <= r <= UNIT,
{
    proof {
        lemma_kernel_bounds(x as int);
        lemma_sin_half_bounds(x as int);
    }
    let t = x * (1800 - x);
    assert(t as int == sin_kernel(x as int));
    let num = 4_000_000u64 * t;
    let den = 4_050_000u64 - t;
    assert(num as int == 1_000_000 * 4 * sin_kernel(x as int));
    (num / den) as i64
}

/// Scaled cosine, executable. Mirrors `cos_deci` exactly.
pub fn cos_fixed(a: u64) -> (r: i64)
    requires
        a + 900 <= u64::MAX,
    ensures
        r == cos_deci(a as int),
        -UNIT <= r <= UNIT,
{
    sin_fixed(a + 900)
}

} // verus!
