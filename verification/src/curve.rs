//! The pluggable curve capability: a mapping from an angle (deci-degrees)
//! to a fixed-point point on the unit disk, with its angular period. Two
//! implementations live here: the unit circle and the rose family
//! `r = cos(k * theta)` with rational `k = n / d`.

use vstd::prelude::*;
use vstd::arithmetic::div_mod::{
    lemma_div_is_ordered, lemma_div_by_multiple, lemma_div_pos_is_pos,
    lemma_div_nonincreasing, lemma_fundamental_div_mod, lemma_fundamental_div_mod_converse,
};
use crate::trig::{UNIT, sin_deci, cos_deci, sin_fixed, cos_fixed};
use crate::num::{round_div, round_div_u64, lemma_round_div_magnitude};

verus! {

/// Largest angular period any curve may report, in deci-degrees
/// (a rose with denominator 255 needs 3600 * 255).
pub const LIMIT_MAX: u64 = 918_000;

/// Largest angle step the session accepts, in deci-degrees.
pub const DELTA_MAX: u64 = 1_000_000;

/// Largest angle value the session ever holds (it never grows past the
/// period by more than one step), and so the largest angle a curve must
/// accept.
pub const ANGLE_MAX: u64 = 1_918_000;

/// A point on the unit disk in fixed-point coordinates: real value
/// `x / UNIT`, `y / UNIT`.
pub struct UnitPoint {
    pub x: i64,
    pub y: i64,
}

impl UnitPoint {
    /// Both coordinates lie within the unit square.
    pub open spec fn wf(self) -> bool {
        &&& -UNIT <= self.x <= UNIT
        &&& -UNIT <= self.y <= UNIT
    }
}

/// An angle-to-point function together with its angular period. The session
/// is built over one implementation, chosen once; further implementations
/// can be supplied from outside.
pub trait CurveFunction: Sized {
    /// The curve's angular period in deci-degrees.
    spec fn spec_limit(&self) -> int;

    /// The fixed-point coordinates the curve takes at angle `a`.
    spec fn spec_point(&self, a: int) -> (int, int);

    /// The period, executable.
    fn angle_limit(&self) -> (l: u64)
        ensures
            l as int == self.spec_limit(),
            1 <= l <= LIMIT_MAX,
    ;

    /// The point at angle `a`, executable.
    fn evaluate(&self, a: u64) -> (p: UnitPoint)
        requires
            a <= ANGLE_MAX,
        ensures
            p.x as int == self.spec_point(a as int).0,
            p.y as int == self.spec_point(a as int).1,
            p.wf(),
    ;
}

/// Session initialization data derived from a curve: its period, and the
/// number of samples one period takes at step `angle_delta` — the rounded
/// quotient plus one, so that both endpoints of the period are sampled.
pub fn curve_init<C: CurveFunction>(curve: &C, angle_delta: u64) -> (r: (u64, u64))
    requires
        1 <= angle_delta <= DELTA_MAX,
    ensures
        r.0 as int == curve.spec_limit(),
        1 <= r.0 <= LIMIT_MAX,
        r.1 as int == round_div(curve.spec_limit(), angle_delta as int) + 1,
        1 <= r.1 <= LIMIT_MAX + 1,
{
    let limit = curve.angle_limit();
    proof {
        assert(limit as int <= limit as int * angle_delta as int) by (nonlinear_arith)
            requires 1 <= angle_delta, 0 <= limit,
        ;
        assert(-(limit as int * angle_delta as int) <= limit as int) by (nonlinear_arith)
            requires 1 <= angle_delta, 0 <= limit,
        ;
        lemma_round_div_magnitude(limit as int, angle_delta as int, limit as int);
    }
    let samples = round_div_u64(limit, angle_delta) + 1;
    (limit, samples)
}

/// The default curve: the unit circle, with one full turn as its period.
pub struct UnitCircle {}

impl CurveFunction for UnitCircle {
    open spec fn spec_limit(&self) -> int {
        3600
    }

    open spec fn spec_point(&self, a: int) -> (int, int) {
        (cos_deci(a), sin_deci(a))
    }

    fn angle_limit(&self) -> (l: u64)
        // see trait
    {
        3600
    }

    fn evaluate(&self, a: u64) -> (p: UnitPoint)
        // see trait
    {
        UnitPoint { x: cos_fixed(a), y: sin_fixed(a) }
    }
}

/// The unit circle passes the four cardinal points exactly: at 0, 90 and
/// 180 degrees it stands at (1, 0), (0, 1) and (-1, 0) of the unit disk.
pub proof fn lemma_circle_cardinal(c: UnitCircle)
    ensures
        c.spec_point(0) == (UNIT as int, 0int),
        c.spec_point(900) == (0int, UNIT as int),
        c.spec_point(1800) == (-UNIT as int, 0int),
{
    crate::trig::lemma_sin_deci_cardinal();
    crate::trig::lemma_cos_deci_cardinal();
}

/// A rose curve `r = cos((n/d) * theta)`. A zero denominator is read as one
/// so that every field value has a meaning; the constructor rejects it.
pub struct RoseCurve {
    pub n: u8,
    pub d: u8,
}

impl RoseCurve {
    /// The denominator, with zero read as one.
    pub open spec fn spec_den(&self) -> int {
        if self.d == 0 {
            1
        } else {
            self.d as int
        }
    }

    pub fn new(n: u8, d: u8) -> (r: RoseCurve)
        requires
            1 <= n,
            1 <= d,
        ensures
            r.n == n,
            r.d == d,
    {
        RoseCurve { n, d }
    }
}

impl CurveFunction for RoseCurve {
    /// The closure angle of the rose: `180 * d` degrees when `n` and `d`
    /// share parity, `360 * d` degrees otherwise.
    open spec fn spec_limit(&self) -> int {
        if self.n % 2 == self.spec_den() % 2 {
            1800 * self.spec_den()
        } else {
            3600 * self.spec_den()
        }
    }

    open spec fn spec_point(&self, a: int) -> (int, int) {
        let m = cos_deci((a * self.n) / self.spec_den());
        ((cos_deci(a) * m) / 1_000_000, (sin_deci(a) * m) / 1_000_000)
    }

    fn angle_limit(&self) -> (l: u64)
        // see trait
    {
        let den: u64 = if self.d == 0 {
            1
        } else {
            self.d as u64
        };
        if (self.n as u64) % 2 == den % 2 {
            1800 * den
        } else {
            3600 * den
        }
    }

    fn evaluate(&self, a: u64) -> (p: UnitPoint)
        // see trait
    {
        let den: u64 = if self.d == 0 {
            1
        } else {
            self.d as u64
        };
        proof {
            assert(a as int * self.n as int <= 489_090_000) by (nonlinear_arith)
                requires a <= 1_918_000, self.n <= 255,
            ;
        }
        let ka = (a * (self.n as u64)) / den;
        proof {
            lemma_div_pos_is_pos((a * self.n) as int, den as int);
            lemma_div_nonincreasing((a * self.n) as int, den as int);
        }
        let m = cos_fixed(ka);
        let x = scale_mul(cos_fixed(a), m);
        let y = scale_mul(sin_fixed(a), m);
        UnitPoint { x, y }
    }
}

/// The product of two fixed-point factors, scaled back down by `UNIT` with
/// the quotient floored (toward minus infinity).
fn scale_mul(u: i64, v: i64) -> (r: i64)
    requires
        -UNIT <= u <= UNIT,
        -UNIT <= v <= UNIT,
    ensures
        r as int == (u as int * v as int) / (UNIT as int),
        -UNIT <= r <= UNIT,
{
    let negative = (u < 0) != (v < 0);
    let ua: u64 = if u < 0 { (-u) as u64 } else { u as u64 };
    let va: u64 = if v < 0 { (-v) as u64 } else { v as u64 };
    proof {
        assert(ua * va <= 1_000_000_000_000u64) by (nonlinear_arith)
            requires 0 <= ua <= 1_000_000, 0 <= va <= 1_000_000,
        ;
    }
    let mag = ua * va;
    let q = mag / 1_000_000;
    let rem = mag % 1_000_000;
    proof {
        lemma_fundamental_div_mod(mag as int, 1_000_000);
        lemma_div_is_ordered(mag as int, 1_000_000_000_000, 1_000_000);
        lemma_div_by_multiple(1_000_000, 1_000_000);
        if negative {
            assert(u as int * v as int == -(mag as int)) by (nonlinear_arith)
                requires
                    mag == ua * va,
                    ((u < 0) != (v < 0)),
                    ua == (if u < 0 { -(u as int) } else { u as int }),
                    va == (if v < 0 { -(v as int) } else { v as int }),
            ;
            if rem == 0 {
                assert(-(mag as int) == -(q as int) * 1_000_000 + 0) by (nonlinear_arith)
                    requires mag as int == 1_000_000 * (q as int) + rem as int, rem == 0,
                ;
                lemma_fundamental_div_mod_converse(-(mag as int), 1_000_000, -(q as int), 0);
            } else {
                lemma_fundamental_div_mod_converse(
                    -(mag as int), 1_000_000, -(q as int) - 1, 1_000_000 - rem as int);
            }
        } else {
            assert(u as int * v as int == mag as int) by (nonlinear_arith)
                requires
                    mag == ua * va,
                    !((u < 0) != (v < 0)),
                    ua == (if u < 0 { -(u as int) } else { u as int }),
                    va == (if v < 0 { -(v as int) } else { v as int }),
            ;
        }
    }
    if negative {
        if rem == 0 {
            -(q as i64)
        } else {
            -(q as i64) - 1
        }
    } else {
        q as i64
    }
}

} // verus!
