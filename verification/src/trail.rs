//! The trailing path: an ordered buffer of projected points with per-point
//! fade. Index 0 is the oldest point, the last index the newest. The buffer
//! owns the size of the surface its points are projected on, and every
//! point always lies within that surface's drawing disk.

use vstd::prelude::*;
use crate::num::{
    round_div, round_div_u64, lemma_round_div_multiple, lemma_round_div_ordered,
    lemma_round_div_magnitude,
};
use crate::curve::{CurveFunction, ANGLE_MAX};
use crate::surface::{
    SurfaceSize, radius, center_x, center_y, in_disk, radius_upx, to_screen, to_screen_x,
    to_screen_y, rescale_coord, rescale_coord_spec,
};

verus! {

/// Largest number of trail points a buffer may hold.
pub const COUNT_MAX: usize = 1_000_000;

/// One trail point: a screen position in micropixels and an opacity.
#[derive(Clone, Copy, PartialEq, Eq, Structural)]
pub struct TrailPoint {
    pub x: i64,
    pub y: i64,
    pub fade: u8,
}

/// The fade a point at index `i` of a buffer of length `len` gets when the
/// cutoff is enabled: linear from 0 at the oldest point to 255 at the
/// newest, rounded to the nearest step. A single point is fully opaque.
pub open spec fn fade_of(i: int, len: int) -> int {
    if len <= 1 {
        255
    } else {
        round_div(i * 255, len - 1)
    }
}

/// Fades stay within a byte.
pub proof fn lemma_fade_bounds(i: int, len: int)
    requires
        0 <= i < len,
    ensures
        0 <= fade_of(i, len) <= 255,
{
    if len > 1 {
        assert(0 <= i * 255 <= 255 * (len - 1)) by (nonlinear_arith)
            requires 0 <= i <= len - 1,
        ;
        lemma_round_div_magnitude(i * 255, len - 1, 255);
    }
}

/// With the cutoff enabled the fade never decreases along the buffer.
pub proof fn lemma_fade_monotone(i: int, j: int, len: int)
    requires
        0 <= i <= j < len,
    ensures
        fade_of(i, len) <= fade_of(j, len),
{
    if len > 1 {
        lemma_round_div_ordered(i * 255, j * 255, len - 1);
    }
}

/// With the cutoff enabled the fades of a buffer of more than one point
/// span the whole range: 0 at the oldest point, 255 at the newest.
pub proof fn lemma_fade_span(len: int)
    requires
        2 <= len,
    ensures
        fade_of(0, len) == 0,
        fade_of(len - 1, len) == 255,
{
    lemma_round_div_multiple(0, len - 1);
    lemma_round_div_multiple(255, len - 1);
    assert((len - 1) * 255 == 255 * (len - 1)) by (nonlinear_arith);
}

/// The fade of index `i` in a buffer of length `len`, executable:
/// `fade_of` when the cutoff is enabled, full opacity otherwise.
pub fn fade_value(i: usize, len: usize, cutoff: bool) -> (f: u8)
    requires
        i < len,
        len <= COUNT_MAX,
    ensures
        f as int == if cutoff {
            fade_of(i as int, len as int)
        } else {
            255
        },
{
    if !cutoff || len <= 1 {
        255
    } else {
        proof {
            lemma_fade_bounds(i as int, len as int);
        }
        round_div_u64((i as u64) * 255, (len as u64) - 1) as u8
    }
}

/// The trailing path buffer.
pub struct TrailBuffer {
    pub points: Vec<TrailPoint>,
    pub size: SurfaceSize,
}

impl TrailBuffer {
    /// Every point lies within the drawing disk of the buffer's surface,
    /// and the buffer is never longer than `COUNT_MAX`.
    pub open spec fn wf(self) -> bool {
        &&& self.size.wf()
        &&& self.points@.len() <= COUNT_MAX
        &&& forall|i: int| 0 <= i < self.points@.len() ==> in_disk(
            (#[trigger] self.points@[i]).x as int, center_x(self.size), self.size)
        &&& forall|i: int| 0 <= i < self.points@.len() ==> in_disk(
            (#[trigger] self.points@[i]).y as int, center_y(self.size), self.size)
    }

    /// An empty buffer over a surface.
    pub fn new(size: SurfaceSize) -> (b: TrailBuffer)
        requires
            size.wf(),
        ensures
            b.wf(),
            b.points@.len() == 0,
            b.size == size,
    {
        TrailBuffer { points: Vec::new(), size }
    }

    pub fn len(&self) -> (n: usize)
        ensures
            n == self.points@.len(),
    {
        self.points.len()
    }

    /// One tick of the trail: drop the oldest point, shift the rest one
    /// slot toward the front, place the curve's point at `angle` in the
    /// freed newest slot, and reassign every fade — the cutoff gradient
    /// when `cutoff` is enabled, full opacity otherwise.
    pub fn advance<C: CurveFunction>(&mut self, curve: &C, angle: u64, cutoff: bool)
        requires
            old(self).wf(),
            old(self).points@.len() >= 1,
            angle <= ANGLE_MAX,
        ensures
            final(self).wf(),
            final(self).size == old(self).size,
            final(self).points@.len() == old(self).points@.len(),
            forall|i: int| 0 <= i < final(self).points@.len() - 1 ==> {
                &&& (#[trigger] final(self).points@[i]).x == old(self).points@[i + 1].x
                &&& final(self).points@[i].y == old(self).points@[i + 1].y
            },
            ({
                let last = final(self).points@.len() - 1;
                &&& final(self).points@[last].x as int == to_screen_x(
                    curve.spec_point(angle as int), final(self).size)
                &&& final(self).points@[last].y as int == to_screen_y(
                    curve.spec_point(angle as int), final(self).size)
            }),
            forall|i: int| 0 <= i < final(self).points@.len() ==> (#[trigger] final(self).points@[i]).fade
                as int == if cutoff {
                fade_of(i, final(self).points@.len() as int)
            } else {
                255
            },
    {
        let len = self.points.len();
        let ghost orig = self.points@;
        let mut i: usize = 0;
        while i < len - 1
            invariant
                len == self.points@.len(),
                1 <= len <= COUNT_MAX,
                i <= len - 1,
                self.size == old(self).size,
                self.wf(),
                forall|j: int| 0 <= j < i ==> #[trigger] self.points@[j] == orig[j + 1],
                forall|j: int| i <= j < len ==> #[trigger] self.points@[j] == orig[j],
            decreases len - 1 - i,
        {
            let p = self.points[i + 1];
            self.points[i] = p;
            i = i + 1;
        }
        let ghost shifted = self.points@;
        let mut k: usize = 0;
        while k < len
            invariant
                len == self.points@.len(),
                1 <= len <= COUNT_MAX,
                k <= len,
                self.size == old(self).size,
                self.wf(),
                forall|j: int| 0 <= j < len ==> {
                    &&& (#[trigger] self.points@[j]).x == shifted[j].x
                    &&& self.points@[j].y == shifted[j].y
                },
                forall|j: int| 0 <= j < k ==> (#[trigger] self.points@[j]).fade as int
                    == if cutoff {
                    fade_of(j, len as int)
                } else {
                    255
                },
            decreases len - k,
        {
            let f = fade_value(k, len, cutoff);
            self.points[k].fade = f;
            k = k + 1;
        }
        let up = curve.evaluate(angle);
        let (x, y) = to_screen(&up, &self.size);
        proof {
            if cutoff {
                lemma_fade_bounds(len as int - 1, len as int);
                if len > 1 {
                    lemma_fade_span(len as int);
                }
            }
        }
        let tail = TrailPoint { x, y, fade: 255 };
        self.points[len - 1] = tail;
    }

    /// Bring the buffer to exactly `desired` points. Shrinking drops the
    /// oldest points and keeps the newest unchanged; growing keeps every
    /// prior point and pads with copies of the newest one. An empty buffer
    /// is first seeded with the curve's point at angle zero, fully opaque.
    pub fn resize<C: CurveFunction>(&mut self, desired: usize, curve: &C)
        requires
            old(self).wf(),
            desired <= COUNT_MAX,
        ensures
            final(self).wf(),
            final(self).size == old(self).size,
            final(self).points@.len() == desired,
            desired <= old(self).points@.len() ==> forall|i: int|
                0 <= i < desired ==> #[trigger] final(self).points@[i] == old(self).points@[
                old(self).points@.len() - desired + i],
            old(self).points@.len() < desired ==> {
                &&& forall|i: int| 0 <= i < old(self).points@.len()
                    ==> #[trigger] final(self).points@[i] == old(self).points@[i]
                &&& old(self).points@.len() == 0 ==> forall|i: int| 0 <= i < desired
                    ==> #[trigger] final(self).points@[i] == seed_point(*curve, old(self).size)
                &&& old(self).points@.len() >= 1 ==> forall|i: int|
                    old(self).points@.len() <= i < desired ==> #[trigger] final(self).points@[i]
                    == old(self).points@[old(self).points@.len() - 1]
            },
    {
        let old_len = self.points.len();
        if desired < old_len {
            let k = old_len - desired;
            let mut i: usize = 0;
            while i < desired
                invariant
                    old_len == self.points@.len(),
                    old_len <= COUNT_MAX,
                    k == old_len - desired,
                    desired < old_len,
                    i <= desired,
                    self.size == old(self).size,
                    self.wf(),
                    forall|j: int| 0 <= j < i ==> #[trigger] self.points@[j]
                        == old(self).points@[j + k],
                    forall|j: int| i <= j < old_len ==> #[trigger] self.points@[j]
                        == old(self).points@[j],
                decreases desired - i,
            {
                let p = self.points[i + k];
                self.points[i] = p;
                i = i + 1;
            }
            self.points.truncate(desired);
        } else if desired > old_len {
            if old_len == 0 {
                let up = curve.evaluate(0);
                let (x, y) = to_screen(&up, &self.size);
                self.points.push(TrailPoint { x, y, fade: 255 });
            }
            let mut n = self.points.len();
            while n < desired
                invariant
                    n == self.points@.len(),
                    1 <= n <= desired,
                    old_len <= n,
                    desired <= COUNT_MAX,
                    self.size == old(self).size,
                    self.wf(),
                    old_len == old(self).points@.len(),
                    old_len < desired,
                    forall|i: int| 0 <= i < old_len ==> #[trigger] self.points@[i]
                        == old(self).points@[i],
                    old_len == 0 ==> forall|i: int| 0 <= i < n
                        ==> #[trigger] self.points@[i] == seed_point(*curve, old(self).size),
                    old_len >= 1 ==> forall|i: int| old_len <= i < n
                        ==> #[trigger] self.points@[i] == old(self).points@[old_len - 1],
                decreases desired - n,
            {
                let last = self.points[n - 1];
                let ghost prev = self.points@;
                self.points.push(last);
                proof {
                    assert forall|i: int| 0 <= i < n implies self.points@[i] == prev[i] by {
                        assert(self.points@[i] == prev.push(last)[i]);
                    }
                }
                n = n + 1;
            }
        }
    }

    /// Re-evaluate every point in place at angle zero through the curve
    /// and the buffer's current surface; fades are untouched.
    pub fn reset<C: CurveFunction>(&mut self, curve: &C)
        requires
            old(self).wf(),
        ensures
            final(self).wf(),
            final(self).size == old(self).size,
            final(self).points@.len() == old(self).points@.len(),
            forall|i: int| 0 <= i < final(self).points@.len() ==> {
                &&& (#[trigger] final(self).points@[i]).x as int == to_screen_x(
                    curve.spec_point(0), final(self).size)
                &&& final(self).points@[i].y as int == to_screen_y(curve.spec_point(0), final(self).size)
                &&& final(self).points@[i].fade == old(self).points@[i].fade
            },
    {
        let len = self.points.len();
        let up = curve.evaluate(0);
        let (x, y) = to_screen(&up, &self.size);
        let mut i: usize = 0;
        while i < len
            invariant
                len == self.points@.len(),
                i <= len,
                self.size == old(self).size,
                self.wf(),
                x as int == to_screen_x(curve.spec_point(0), self.size),
                y as int == to_screen_y(curve.spec_point(0), self.size),
                in_disk(x as int, center_x(self.size), self.size),
                in_disk(y as int, center_y(self.size), self.size),
                forall|j: int| 0 <= j < i ==> {
                    &&& (#[trigger] self.points@[j]).x == x
                    &&& self.points@[j].y == y
                    &&& self.points@[j].fade == old(self).points@[j].fade
                },
                forall|j: int| i <= j < len ==> #[trigger] self.points@[j]
                    == old(self).points@[j],
            decreases len - i,
        {
            self.points[i].x = x;
            self.points[i].y = y;
            i = i + 1;
        }
    }

    /// Remap every point from the buffer's current surface geometry to
    /// `new_size` by the affine transform about the two surface centers,
    /// scaled by the ratio of their radii; fades are untouched.
    pub fn rescale(&mut self, new_size: SurfaceSize)
        requires
            old(self).wf(),
            new_size.wf(),
        ensures
            final(self).wf(),
            final(self).size == new_size,
            final(self).points@.len() == old(self).points@.len(),
            forall|i: int| 0 <= i < final(self).points@.len() ==> {
                &&& (#[trigger] final(self).points@[i]).x as int == rescale_coord_spec(
                    old(self).points@[i].x as int, center_x(old(self).size),
                    radius(old(self).size), center_x(new_size), radius(new_size))
                &&& final(self).points@[i].y as int == rescale_coord_spec(
                    old(self).points@[i].y as int, center_y(old(self).size),
                    radius(old(self).size), center_y(new_size), radius(new_size))
                &&& final(self).points@[i].fade == old(self).points@[i].fade
            },
    {
        let len = self.points.len();
        let r1 = radius_upx(&self.size);
        let r2 = radius_upx(&new_size);
        let cx1 = (self.size.w as i64) * 500_000;
        let cy1 = (self.size.h as i64) * 500_000;
        let cx2 = (new_size.w as i64) * 500_000;
        let cy2 = (new_size.h as i64) * 500_000;
        let mut i: usize = 0;
        while i < len
            invariant
                len == self.points@.len(),
                len == old(self).points@.len(),
                i <= len,
                len <= COUNT_MAX,
                self.size == old(self).size,
                old(self).wf(),
                new_size.wf(),
                r1 == radius(old(self).size),
                r2 == radius(new_size),
                cx1 == center_x(old(self).size),
                cy1 == center_y(old(self).size),
                cx2 == center_x(new_size),
                cy2 == center_y(new_size),
                500_000 <= r1 <= 8_142_000_000i64,
                500_000 <= r2 <= 8_142_000_000i64,
                0 <= cx1 <= 16_384_000_000i64,
                0 <= cy1 <= 16_384_000_000i64,
                0 <= cx2 <= 16_384_000_000i64,
                0 <= cy2 <= 16_384_000_000i64,
                forall|j: int| 0 <= j < i ==> {
                    &&& (#[trigger] self.points@[j]).x as int == rescale_coord_spec(
                        old(self).points@[j].x as int, cx1 as int, r1 as int, cx2 as int,
                        r2 as int)
                    &&& self.points@[j].y as int == rescale_coord_spec(
                        old(self).points@[j].y as int, cy1 as int, r1 as int, cy2 as int,
                        r2 as int)
                    &&& self.points@[j].fade == old(self).points@[j].fade
                    &&& in_disk(self.points@[j].x as int, cx2 as int, new_size)
                    &&& in_disk(self.points@[j].y as int, cy2 as int, new_size)
                },
                forall|j: int| i <= j < len ==> #[trigger] self.points@[j]
                    == old(self).points@[j],
            decreases len - i,
        {
            let p = self.points[i];
            proof {
                assert(self.points@[i as int] == old(self).points@[i as int]);
                assert(in_disk(old(self).points@[i as int].x as int, cx1 as int,
                    old(self).size));
                assert(in_disk(old(self).points@[i as int].y as int, cy1 as int,
                    old(self).size));
            }
            let x = rescale_coord(p.x, cx1, r1, cx2, r2);
            let y = rescale_coord(p.y, cy1, r1, cy2, r2);
            self.points[i] = TrailPoint { x, y, fade: p.fade };
            i = i + 1;
        }
        self.size = new_size;
    }

    /// Make every point fully opaque; used when the cutoff is switched off.
    pub fn set_all_opaque(&mut self)
        requires
            old(self).wf(),
        ensures
            final(self).wf(),
            final(self).size == old(self).size,
            final(self).points@.len() == old(self).points@.len(),
            forall|i: int| 0 <= i < final(self).points@.len() ==> {
                &&& (#[trigger] final(self).points@[i]).x == old(self).points@[i].x
                &&& final(self).points@[i].y == old(self).points@[i].y
                &&& final(self).points@[i].fade == 255
            },
    {
        let len = self.points.len();
        let mut i: usize = 0;
        while i < len
            invariant
                len == self.points@.len(),
                i <= len,
                self.size == old(self).size,
                self.wf(),
                forall|j: int| 0 <= j < i ==> {
                    &&& (#[trigger] self.points@[j]).x == old(self).points@[j].x
                    &&& self.points@[j].y == old(self).points@[j].y
                    &&& self.points@[j].fade == 255
                },
                forall|j: int| i <= j < len ==> #[trigger] self.points@[j]
                    == old(self).points@[j],
            decreases len - i,
        {
            self.points[i].fade = 255;
            i = i + 1;
        }
    }
}

/// The point an empty buffer is seeded with: the curve at angle zero,
/// projected on the given surface, fully opaque.
pub open spec fn seed_point<C: CurveFunction>(curve: C, s: SurfaceSize) -> TrailPoint {
    TrailPoint {
        x: to_screen_x(curve.spec_point(0), s) as i64,
        y: to_screen_y(curve.spec_point(0), s) as i64,
        fade: 255,
    }
}

} // verus!
