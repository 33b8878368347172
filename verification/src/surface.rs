//! Projection between the unit disk and surface pixel coordinates, and the
//! affine remapping used when the surface changes size. Pixel coordinates
//! are fixed-point integers in micropixels (`POS_SCALE` counts per pixel);
//! the margin keeps every projected curve point away from the surface edge.

use vstd::prelude::*;
use crate::num::{
    round_div, round_div_u64, round_div_u128, lemma_round_div_bounds, lemma_round_div_shift,
    lemma_round_div_magnitude,
};
use crate::curve::UnitPoint;
use crate::trig::UNIT;

verus! {

/// Micropixels per pixel: the fixed-point scale of screen coordinates.
pub const POS_SCALE: i64 = 1_000_000;

/// Smallest accepted surface dimension, in pixels; keeps the drawing
/// radius positive.
pub const MIN_DIM: u32 = 101;

/// Largest accepted surface dimension, in pixels; keeps every coordinate
/// product inside 128-bit arithmetic.
pub const MAX_DIM: u32 = 16_384;

/// A drawing target's size in pixels (a window or an offscreen target).
#[derive(Clone, Copy, PartialEq, Eq, Structural)]
pub struct SurfaceSize {
    pub w: u32,
    pub h: u32,
}

impl SurfaceSize {
    /// Both dimensions within the accepted range.
    pub open spec fn wf(self) -> bool {
        &&& MIN_DIM <= self.w <= MAX_DIM
        &&& MIN_DIM <= self.h <= MAX_DIM
    }

    pub fn new(w: u32, h: u32) -> (s: SurfaceSize)
        requires
            MIN_DIM <= w <= MAX_DIM,
            MIN_DIM <= h <= MAX_DIM,
        ensures
            s.w == w,
            s.h == h,
            s.wf(),
    {
        SurfaceSize { w, h }
    }
}

/// The drawing radius of a surface in micropixels: half the smaller
/// dimension, minus the margin.
pub open spec fn radius(s: SurfaceSize) -> int {
    let m = if s.w <= s.h {
        s.w as int
    } else {
        s.h as int
    };
    m * 500_000 - 50_000_000
}

/// Horizontal center of a surface in micropixels.
pub open spec fn center_x(s: SurfaceSize) -> int {
    s.w as int * 500_000
}

/// Vertical center of a surface in micropixels.
pub open spec fn center_y(s: SurfaceSize) -> int {
    s.h as int * 500_000
}

/// A coordinate lies within the surface's drawing disk's bounding square.
pub open spec fn in_disk(v: int, center: int, s: SurfaceSize) -> bool {
    center - radius(s) <= v <= center + radius(s)
}

/// The drawing radius, executable.
pub fn radius_upx(s: &SurfaceSize) -> (r: i64)
    requires
        s.wf(),
    ensures
        r == radius(*s),
        500_000 <= r <= 8_142_000_000,
{
    let m: i64 = if s.w <= s.h {
        s.w as i64
    } else {
        s.h as i64
    };
    m * 500_000 - 50_000_000
}

/// Projects a unit-disk point to surface coordinates: scale by the radius
/// (rounding to the nearest micropixel) and move to the surface center,
/// with the vertical axis turned over (screen y grows downward).
pub open spec fn to_screen_x(p: (int, int), s: SurfaceSize) -> int {
    round_div(p.0 * radius(s), 1_000_000) + center_x(s)
}

/// The vertical half of the projection; see `to_screen_x`.
pub open spec fn to_screen_y(p: (int, int), s: SurfaceSize) -> int {
    round_div(-p.1 * radius(s), 1_000_000) + center_y(s)
}

/// One projected coordinate: `unit` scaled by `r` (nearest micropixel),
/// shifted by `center`.
fn project_coord(unit: i64, r: i64, center: i64) -> (v: i64)
    requires
        -UNIT <= unit <= UNIT,
        500_000 <= r <= 8_142_000_000,
        0 <= center <= 16_384_000_000i64,
    ensures
        v == round_div(unit * r, 1_000_000) + center,
        center - r <= v <= center + r,
{
    proof {
        assert(0 <= (unit + 1_000_000) * r <= 2_000_000 * r) by (nonlinear_arith)
            requires -1_000_000 <= unit <= 1_000_000, 0 <= r,
        ;
        assert((unit + 1_000_000) * r == unit * r + r * 1_000_000) by (nonlinear_arith);
        lemma_round_div_shift(unit as int * r as int, 1_000_000, r as int);
        assert(-(r as int * 1_000_000) <= unit * r <= r as int * 1_000_000) by (nonlinear_arith)
            requires -1_000_000 <= unit <= 1_000_000, 0 <= r,
        ;
        lemma_round_div_magnitude(unit as int * r as int, 1_000_000, r as int);
    }
    let t = ((unit + 1_000_000) as u64) * (r as u64);
    let q = round_div_u64(t, 1_000_000);
    q as i64 - r + center
}

/// Projects a unit-disk point onto a surface. The result always lies
/// within the surface's drawing disk's bounding square.
pub fn to_screen(p: &UnitPoint, s: &SurfaceSize) -> (v: (i64, i64))
    requires
        p.wf(),
        s.wf(),
    ensures
        v.0 == to_screen_x((p.x as int, p.y as int), *s),
        v.1 == to_screen_y((p.x as int, p.y as int), *s),
        in_disk(v.0 as int, center_x(*s), *s),
        in_disk(v.1 as int, center_y(*s), *s),
{
    let r = radius_upx(s);
    let cx = (s.w as i64) * 500_000;
    let cy = (s.h as i64) * 500_000;
    let x = project_coord(p.x, r, cx);
    let y = project_coord(-p.y, r, cy);
    (x, y)
}

/// The affine remapping of one coordinate from a surface with center `c1`
/// and radius `r1` to one with center `c2` and radius `r2`: distance to the
/// center is scaled by `r2 / r1`, rounded to the nearest micropixel.
pub open spec fn rescale_coord_spec(v: int, c1: int, r1: int, c2: int, r2: int) -> int {
    round_div((v - c1) * r2, r1) + c2
}

/// One rescaled coordinate, executable. Stays within the new disk.
pub fn rescale_coord(v: i64, c1: i64, r1: i64, c2: i64, r2: i64) -> (w: i64)
    requires
        500_000 <= r1 <= 8_142_000_000,
        500_000 <= r2 <= 8_142_000_000,
        0 <= c1 <= 16_384_000_000i64,
        0 <= c2 <= 16_384_000_000i64,
        c1 - r1 <= v <= c1 + r1,
    ensures
        w == rescale_coord_spec(v as int, c1 as int, r1 as int, c2 as int, r2 as int),
        c2 - r2 <= w <= c2 + r2,
{
    proof {
        assert((v - (c1 - r1)) * r2 == (v - c1) * r2 + r2 * r1) by (nonlinear_arith);
        assert(0 <= (v - (c1 - r1)) * r2 <= (2 * r1) * r2) by (nonlinear_arith)
            requires 0 <= v - (c1 - r1) <= 2 * r1, 0 <= r2,
        ;
        lemma_round_div_shift((v as int - c1 as int) * r2 as int, r1 as int, r2 as int);
        assert(-(r2 as int * r1 as int) <= (v - c1) * r2 <= r2 as int * r1 as int)
            by (nonlinear_arith)
            requires -r1 <= v - c1 <= r1, 0 <= r2,
        ;
        lemma_round_div_magnitude((v as int - c1 as int) * r2 as int, r1 as int, r2 as int);
        assert((v - (c1 - r1)) as int * r2 as int <= 132_584_328_000_000_000_000)
            by (nonlinear_arith)
            requires
                0 <= v - (c1 - r1) <= 2 * 8_142_000_000i64,
                0 <= r2 <= 8_142_000_000i64,
        ;
    }
    let t = ((v - (c1 - r1)) as u128) * (r2 as u128);
    let q = round_div_u128(t, r1 as u128);
    q as i64 - r2 + c2
}

/// Rescaling a coordinate to another surface and back moves it by at most
/// `(r1 + r2) / (2 * r2)` micropixels: each rounding is off by at most half
/// a micropixel, and the backward map magnifies the first error by `r1/r2`.
pub proof fn lemma_rescale_round_trip(v: int, c1: int, r1: int, c2: int, r2: int)
    requires
        1 <= r1,
        1 <= r2,
        c1 - r1 <= v <= c1 + r1,
    ensures
        ({
            let back = rescale_coord_spec(
                rescale_coord_spec(v, c1, r1, c2, r2), c2, r2, c1, r1);
            -(r1 + r2) <= 2 * r2 * (back - v) <= r1 + r2
        }),
{
    let a = v - c1;
    let u = round_div(a * r2, r1);
    let w = round_div(u * r1, r2);
    lemma_round_div_bounds(a * r2, r1);
    lemma_round_div_bounds(u * r1, r2);
    assert(2 * r2 * (w - a) <= r1 + r2 && -(r1 + r2) <= 2 * r2 * (w - a)) by (nonlinear_arith)
        requires
            2 * r1 * u - r1 <= 2 * (a * r2) < 2 * r1 * u + r1,
            2 * r2 * w - r2 <= 2 * (u * r1) < 2 * r2 * w + r2,
    ;
}

/// Within a moderate shrink ratio (`r1` at most 99 times `r2`) the round
/// trip of `lemma_rescale_round_trip` stays within 50 micropixels — well
/// under a ten-thousandth of a pixel.
pub proof fn lemma_rescale_round_trip_tolerance(v: int, c1: int, r1: int, c2: int, r2: int)
    requires
        1 <= r1,
        1 <= r2,
        r1 <= 99 * r2,
        c1 - r1 <= v <= c1 + r1,
    ensures
        ({
            let back = rescale_coord_spec(
                rescale_coord_spec(v, c1, r1, c2, r2), c2, r2, c1, r1);
            -50 <= back - v <= 50
        }),
{
    lemma_rescale_round_trip(v, c1, r1, c2, r2);
    let back = rescale_coord_spec(rescale_coord_spec(v, c1, r1, c2, r2), c2, r2, c1, r1);
    assert(-50 <= back - v <= 50) by (nonlinear_arith)
        requires
            -(r1 + r2) <= 2 * r2 * (back - v) <= r1 + r2,
            r1 <= 99 * r2,
            1 <= r2,
    ;
}

} // verus!
