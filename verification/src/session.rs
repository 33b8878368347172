//! The live-mode session driver: current angle, step and period, the mode
//! flags, and the commands the control surface may issue. Every
//! parameter-mutating command is a no-op while an animation recording is
//! active; the host loop performs the windowing around these calls.

use vstd::prelude::*;
use crate::num::round_div;
use vstd::arithmetic::div_mod::{lemma_mod_multiples_vanish, lemma_small_mod};
use crate::curve::{CurveFunction, curve_init, DELTA_MAX, LIMIT_MAX};
use crate::surface::SurfaceSize;
use crate::trail::{TrailBuffer, COUNT_MAX, fade_of, seed_point};

verus! {

/// The independent boolean mode switches. A numeric mask of them exists
/// only for the status line (`bits`).
#[derive(Clone, Copy, PartialEq, Eq, Structural)]
pub struct ModeFlags {
    pub no_draw: bool,
    pub fullscreen: bool,
    pub pause: bool,
    pub font_failure: bool,
    pub draw_gui: bool,
    pub show_cursor: bool,
    pub render_animation: bool,
    pub no_cutoff: bool,
}

impl ModeFlags {
    /// The diagnostic bitmask: one bit per flag, lowest bit first in the
    /// order of the fields.
    pub open spec fn spec_bits(self) -> int {
        (if self.no_draw { 1int } else { 0 }) + (if self.fullscreen { 2int } else { 0 })
            + (if self.pause { 4int } else { 0 }) + (if self.font_failure { 8int } else { 0 })
            + (if self.draw_gui { 16int } else { 0 }) + (if self.show_cursor { 32int } else { 0 })
            + (if self.render_animation { 64int } else { 0 })
            + (if self.no_cutoff { 128int } else { 0 })
    }

    /// Fresh flags for a full (re)initialization: only the cursor shown,
    /// and the sticky font flag as the font load went.
    pub open spec fn spec_fresh(font_ok: bool) -> ModeFlags {
        ModeFlags {
            no_draw: false,
            fullscreen: false,
            pause: false,
            font_failure: !font_ok,
            draw_gui: false,
            show_cursor: true,
            render_animation: false,
            no_cutoff: false,
        }
    }

    /// Fresh flags, executable; see `spec_fresh`.
    pub fn fresh(font_ok: bool) -> (f: ModeFlags)
        ensures
            f == ModeFlags::spec_fresh(font_ok),
    {
        ModeFlags {
            no_draw: false,
            fullscreen: false,
            pause: false,
            font_failure: !font_ok,
            draw_gui: false,
            show_cursor: true,
            render_animation: false,
            no_cutoff: false,
        }
    }

    /// The diagnostic bitmask, executable.
    pub fn bits(&self) -> (b: u8)
        ensures
            b as int == self.spec_bits(),
    {
        let mut b: u8 = 0;
        if self.no_draw {
            b = b + 1;
        }
        if self.fullscreen {
            b = b + 2;
        }
        if self.pause {
            b = b + 4;
        }
        if self.font_failure {
            b = b + 8;
        }
        if self.draw_gui {
            b = b + 16;
        }
        if self.show_cursor {
            b = b + 32;
        }
        if self.render_animation {
            b = b + 64;
        }
        if self.no_cutoff {
            b = b + 128;
        }
        b
    }
}

/// The angular state of the session, in deci-degrees.
#[derive(Clone, Copy, PartialEq, Eq, Structural)]
pub struct CurveState {
    /// Current phase; wraps below `limit` in live mode, and may pass it by
    /// at most one step while exporting.
    pub angle: u64,
    /// Step per tick; always positive.
    pub delta: u64,
    /// One full period of the configured curve.
    pub limit: u64,
}

/// A read-only snapshot of the session for the status overlay; the host
/// adds the measured frame rate and the active antialiasing level.
pub struct Status {
    pub paused: bool,
    pub angle: u64,
    pub angle_limit: u64,
    pub angle_delta: u64,
    pub point_count: usize,
    pub width: u32,
    pub height: u32,
    pub fps_limit: u32,
    pub antialiasing: u8,
    pub flag_bits: u8,
}

/// The session: one curve, one trail buffer, the angular state, the mode
/// flags, and the export counters.
pub struct Session<C: CurveFunction> {
    pub curve: C,
    pub flags: ModeFlags,
    pub state: CurveState,
    pub buffer: TrailBuffer,
    pub desired_count: usize,
    pub fps_limit: u32,
    pub antialiasing: u8,
    pub texture_size: SurfaceSize,
    pub frame_index: u32,
    pub failures: u8,
}

impl<C: CurveFunction> Session<C> {
    /// The session invariant: the angular state is within its bounds and
    /// matches the curve, the buffer is well-formed and never empty, and
    /// every counter is within its range.
    pub open spec fn wf(self) -> bool {
        &&& 1 <= self.state.delta <= DELTA_MAX
        &&& 1 <= self.state.limit <= LIMIT_MAX
        &&& self.state.limit as int == self.curve.spec_limit()
        &&& self.state.angle <= self.state.limit + DELTA_MAX
        &&& self.buffer.wf()
        &&& self.buffer.points@.len() >= 1
        &&& 1 <= self.desired_count <= COUNT_MAX
        &&& self.antialiasing <= 16
        &&& self.failures <= 10
        &&& self.texture_size.wf()
    }

    /// A fresh session over a curve: angle zero, a one-degree step, the
    /// curve's own period, one period's worth of points seeded at angle
    /// zero on an 800 x 600 surface, and the default limits.
    pub fn new(curve: C, font_ok: bool) -> (s: Session<C>)
        ensures
            s.wf(),
            s.flags == ModeFlags::spec_fresh(font_ok),
            s.state.angle == 0,
            s.state.delta == 10,
            s.state.limit as int == curve.spec_limit(),
            s.desired_count as int == round_div(curve.spec_limit(), 10) + 1,
            s.buffer.points@.len() == s.desired_count,
            s.buffer.size == (SurfaceSize { w: 800, h: 600 }),
            forall|i: int| 0 <= i < s.buffer.points@.len() ==> #[trigger] s.buffer.points@[i]
                == seed_point(curve, SurfaceSize { w: 800, h: 600 }),
            s.fps_limit == 60,
            s.antialiasing == 8,
            s.texture_size == (SurfaceSize { w: 1024, h: 1024 }),
            s.frame_index == 0,
            s.failures == 0,
            s.curve == curve,
    {
        let size = SurfaceSize::new(800, 600);
        let (limit, samples) = curve_init(&curve, 10);
        let desired = samples as usize;
        let mut buffer = TrailBuffer::new(size);
        buffer.resize(desired, &curve);
        Session {
            curve,
            flags: ModeFlags::fresh(font_ok),
            state: CurveState { angle: 0, delta: 10, limit },
            buffer,
            desired_count: desired,
            fps_limit: 60,
            antialiasing: 8,
            texture_size: SurfaceSize::new(1024, 1024),
            frame_index: 0,
            failures: 0,
        }
    }

    /// A full reinitialization: fresh flags, the period and sample count
    /// recomputed from the curve and the current step, the buffer brought
    /// to that length and re-seeded at angle zero, the angle reset, and
    /// the antialiasing back at its default. The host recreates the window
    /// around this call.
    pub fn reinit(&mut self, font_ok: bool)
        requires
            old(self).wf(),
        ensures
            final(self).wf(),
            final(self).flags == ModeFlags::spec_fresh(font_ok),
            final(self).state.angle == 0,
            final(self).state.delta == old(self).state.delta,
            final(self).state.limit as int == old(self).curve.spec_limit(),
            final(self).desired_count as int == round_div(
                old(self).curve.spec_limit(), old(self).state.delta as int) + 1,
            final(self).buffer.points@.len() == final(self).desired_count,
            final(self).buffer.size == old(self).buffer.size,
            // the whole trail is re-seeded at angle zero
            forall|i: int| 0 <= i < final(self).buffer.points@.len() ==> {
                &&& (#[trigger] final(self).buffer.points@[i]).x as int
                    == crate::surface::to_screen_x(old(self).curve.spec_point(0),
                    old(self).buffer.size)
                &&& final(self).buffer.points@[i].y as int == crate::surface::to_screen_y(
                    old(self).curve.spec_point(0), old(self).buffer.size)
            },
            final(self).antialiasing == 8,
            final(self).curve == old(self).curve,
            final(self).fps_limit == old(self).fps_limit,
            final(self).texture_size == old(self).texture_size,
            final(self).frame_index == old(self).frame_index,
            final(self).failures == old(self).failures,
    {
        self.flags = ModeFlags::fresh(font_ok);
        let (limit, samples) = curve_init(&self.curve, self.state.delta);
        let desired = samples as usize;
        self.state.limit = limit;
        self.desired_count = desired;
        self.buffer.resize(desired, &self.curve);
        self.buffer.reset(&self.curve);
        self.state.angle = 0;
        self.antialiasing = 8;
    }

    /// One live tick, when not paused: step the angle (wrapping at the
    /// period), bring the buffer to the desired length, and advance the
    /// trail at the new angle with the current cutoff setting. A no-op
    /// while paused.
    pub fn live_tick(&mut self)
        requires
            old(self).wf(),
        ensures
            final(self).wf(),
            old(self).flags.pause ==> *final(self) == *old(self),
            !old(self).flags.pause ==> {
                &&& final(self).state.angle == ((old(self).state.angle
                    + old(self).state.delta) as u64 % old(self).state.limit) as u64
                &&& final(self).buffer.points@.len() == old(self).desired_count
                &&& ({
                    let pts = final(self).buffer.points@;
                    let last = pts.len() - 1;
                    &&& pts[last].x as int == crate::surface::to_screen_x(
                        old(self).curve.spec_point(final(self).state.angle as int),
                        final(self).buffer.size)
                    &&& pts[last].y as int == crate::surface::to_screen_y(
                        old(self).curve.spec_point(final(self).state.angle as int),
                        final(self).buffer.size)
                })
                &&& forall|i: int| 0 <= i < final(self).buffer.points@.len() ==> (
                    #[trigger] final(self).buffer.points@[i]).fade as int == if !old(
                    self).flags.no_cutoff {
                    fade_of(i, final(self).buffer.points@.len() as int)
                } else {
                    255
                }
                // with the buffer already at its desired length, the older
                // points are exactly the previous trail shifted one slot
                &&& old(self).buffer.points@.len() == old(self).desired_count
                    ==> forall|i: int| 0 <= i < final(self).buffer.points@.len() - 1 ==> {
                    &&& (#[trigger] final(self).buffer.points@[i]).x
                        == old(self).buffer.points@[i + 1].x
                    &&& final(self).buffer.points@[i].y == old(self).buffer.points@[i + 1].y
                }
            },
            final(self).buffer.size == old(self).buffer.size,
            final(self).flags == old(self).flags,
            final(self).state.delta == old(self).state.delta,
            final(self).state.limit == old(self).state.limit,
            final(self).desired_count == old(self).desired_count,
            final(self).curve == old(self).curve,
            final(self).fps_limit == old(self).fps_limit,
            final(self).antialiasing == old(self).antialiasing,
            final(self).texture_size == old(self).texture_size,
            final(self).frame_index == old(self).frame_index,
            final(self).failures == old(self).failures,
    {
        if self.flags.pause {
            return;
        }
        self.state.angle = (self.state.angle + self.state.delta) % self.state.limit;
        self.buffer.resize(self.desired_count, &self.curve);
        let cutoff = !self.flags.no_cutoff;
        self.buffer.advance(&self.curve, self.state.angle, cutoff);
    }

    /// Run full ticks until the angle has passed one period: the jump to
    /// steady state. The final angle is the first value past the period
    /// reachable from the old angle in whole steps. A no-op while
    /// recording or when the angle is already past the period.
    pub fn fast_forward(&mut self) -> (acted: bool)
        requires
            old(self).wf(),
        ensures
            final(self).wf(),
            acted == !old(self).flags.render_animation,
            !acted ==> *final(self) == *old(self),
            acted ==> {
                &&& final(self).state.angle >= final(self).state.limit
                    || final(self).state.angle == old(self).state.angle
                &&& old(self).state.angle < old(self).state.limit ==> {
                    &&& final(self).state.limit <= final(self).state.angle
                        < final(self).state.limit + final(self).state.delta
                    &&& (final(self).state.angle as int - old(self).state.angle as int)
                        % (old(self).state.delta as int) == 0
                    &&& ({
                        let pts = final(self).buffer.points@;
                        let last = pts.len() - 1;
                        &&& pts[last].x as int == crate::surface::to_screen_x(
                            old(self).curve.spec_point(final(self).state.angle as int),
                            old(self).buffer.size)
                        &&& pts[last].y as int == crate::surface::to_screen_y(
                            old(self).curve.spec_point(final(self).state.angle as int),
                            old(self).buffer.size)
                    })
                    &&& forall|i: int| 0 <= i < final(self).buffer.points@.len() ==> (
                        #[trigger] final(self).buffer.points@[i]).fade as int == if !old(
                        self).flags.no_cutoff {
                        fade_of(i, final(self).buffer.points@.len() as int)
                    } else {
                        255
                    }
                }
                &&& final(self).buffer.points@.len() == old(self).buffer.points@.len()
                &&& final(self).buffer.size == old(self).buffer.size
                &&& final(self).flags == old(self).flags
                &&& final(self).state.delta == old(self).state.delta
                &&& final(self).state.limit == old(self).state.limit
                &&& final(self).desired_count == old(self).desired_count
                &&& final(self).curve == old(self).curve
                &&& final(self).fps_limit == old(self).fps_limit
                &&& final(self).antialiasing == old(self).antialiasing
                &&& final(self).texture_size == old(self).texture_size
                &&& final(self).frame_index == old(self).frame_index
                &&& final(self).failures == old(self).failures
            },
    {
        if self.flags.render_animation {
            return false;
        }
        let ghost start = self.state.angle as int;
        let ghost mut steps: int = 0;
        while self.state.angle < self.state.limit
            invariant
                self.wf(),
                0 <= steps,
                self.state.angle as int == start + steps * self.state.delta,
                steps == 0 ==> self.state.angle as int == start,
                steps > 0 ==> self.state.angle < self.state.limit + self.state.delta,
                steps > 0 ==> ({
                    let pts = self.buffer.points@;
                    let last = pts.len() - 1;
                    &&& pts[last].x as int == crate::surface::to_screen_x(
                        self.curve.spec_point(self.state.angle as int), self.buffer.size)
                    &&& pts[last].y as int == crate::surface::to_screen_y(
                        self.curve.spec_point(self.state.angle as int), self.buffer.size)
                }),
                steps > 0 ==> forall|i: int| 0 <= i < self.buffer.points@.len() ==> (
                    #[trigger] self.buffer.points@[i]).fade as int == if !self.flags.no_cutoff {
                    fade_of(i, self.buffer.points@.len() as int)
                } else {
                    255
                },
                self.buffer.points@.len() == old(self).buffer.points@.len(),
                self.buffer.size == old(self).buffer.size,
                self.flags == old(self).flags,
                self.state.delta == old(self).state.delta,
                self.state.limit == old(self).state.limit,
                self.desired_count == old(self).desired_count,
                self.curve == old(self).curve,
                self.fps_limit == old(self).fps_limit,
                self.antialiasing == old(self).antialiasing,
                self.texture_size == old(self).texture_size,
                self.frame_index == old(self).frame_index,
                self.failures == old(self).failures,
            decreases self.state.limit + self.state.delta - self.state.angle,
        {
            let ghost k0 = steps;
            self.state.angle = self.state.angle + self.state.delta;
            let cutoff = !self.flags.no_cutoff;
            self.buffer.advance(&self.curve, self.state.angle, cutoff);
            proof {
                steps = k0 + 1;
                assert(self.state.angle as int == start + (k0 + 1) * self.state.delta)
                    by (nonlinear_arith)
                    requires
                        self.state.angle as int == start + k0 * self.state.delta
                            + self.state.delta,
                ;
            }
        }
        proof {
            lemma_small_mod(0, self.state.delta as nat);
            lemma_mod_multiples_vanish(steps, 0, self.state.delta as int);
            if old(self).state.angle < old(self).state.limit {
                assert(steps != 0);
            }
        }
        true
    }

    /// Toggle the pause switch; a no-op while recording.
    pub fn toggle_pause(&mut self) -> (acted: bool)
        requires
            old(self).wf(),
        ensures
            final(self).wf(),
            acted == !old(self).flags.render_animation,
            !acted ==> *final(self) == *old(self),
            acted ==> *final(self) == (Session {
                flags: ModeFlags { pause: !old(self).flags.pause, ..old(self).flags },
                ..*old(self)
            }),
    {
        if self.flags.render_animation {
            return false;
        }
        self.flags.pause = !self.flags.pause;
        true
    }

    /// Toggle the debug-overlay switch; a no-op while recording.
    pub fn toggle_gui(&mut self) -> (acted: bool)
        requires
            old(self).wf(),
        ensures
            final(self).wf(),
            acted == !old(self).flags.render_animation,
            !acted ==> *final(self) == *old(self),
            acted ==> *final(self) == (Session {
                flags: ModeFlags { draw_gui: !old(self).flags.draw_gui, ..old(self).flags },
                ..*old(self)
            }),
    {
        if self.flags.render_animation {
            return false;
        }
        self.flags.draw_gui = !self.flags.draw_gui;
        true
    }

    /// Toggle the cursor switch; a no-op while recording. The host applies
    /// the returned state to the window.
    pub fn toggle_cursor(&mut self) -> (acted: bool)
        requires
            old(self).wf(),
        ensures
            final(self).wf(),
            acted == !old(self).flags.render_animation,
            !acted ==> *final(self) == *old(self),
            acted ==> *final(self) == (Session {
                flags: ModeFlags { show_cursor: !old(self).flags.show_cursor, ..old(
                self).flags },
                ..*old(self)
            }),
    {
        if self.flags.render_animation {
            return false;
        }
        self.flags.show_cursor = !self.flags.show_cursor;
        true
    }

    /// Toggle the fullscreen switch; a no-op while recording. The host
    /// recreates the window and then restores the trail geometry.
    pub fn toggle_fullscreen(&mut self) -> (acted: bool)
        requires
            old(self).wf(),
        ensures
            final(self).wf(),
            acted == !old(self).flags.render_animation,
            !acted ==> *final(self) == *old(self),
            acted ==> *final(self) == (Session {
                flags: ModeFlags { fullscreen: !old(self).flags.fullscreen, ..old(
                self).flags },
                ..*old(self)
            }),
    {
        if self.flags.render_animation {
            return false;
        }
        self.flags.fullscreen = !self.flags.fullscreen;
        true
    }

    /// Toggle the fade cutoff; switching it off makes the whole trail
    /// opaque at once. A no-op while recording.
    pub fn toggle_cutoff(&mut self) -> (acted: bool)
        requires
            old(self).wf(),
        ensures
            final(self).wf(),
            acted == !old(self).flags.render_animation,
            !acted ==> *final(self) == *old(self),
            acted ==> {
                &&& final(self).flags == (ModeFlags {
                    no_cutoff: !old(self).flags.no_cutoff,
                    ..old(self).flags
                })
                &&& final(self).buffer.points@.len() == old(self).buffer.points@.len()
                &&& final(self).buffer.size == old(self).buffer.size
                &&& forall|i: int| 0 <= i < final(self).buffer.points@.len() ==> {
                    &&& (#[trigger] final(self).buffer.points@[i]).x
                        == old(self).buffer.points@[i].x
                    &&& final(self).buffer.points@[i].y == old(self).buffer.points@[i].y
                    &&& final(self).buffer.points@[i].fade as int
                        == if !old(self).flags.no_cutoff {
                        255
                    } else {
                        old(self).buffer.points@[i].fade as int
                    }
                }
                &&& final(self).state == old(self).state
                &&& final(self).desired_count == old(self).desired_count
                &&& final(self).curve == old(self).curve
            },
    {
        if self.flags.render_animation {
            return false;
        }
        self.flags.no_cutoff = !self.flags.no_cutoff;
        if self.flags.no_cutoff {
            self.buffer.set_all_opaque();
        }
        true
    }

    /// Reset the trail: angle back to zero and every point re-evaluated
    /// there. A no-op while recording.
    pub fn reset_trail(&mut self) -> (acted: bool)
        requires
            old(self).wf(),
        ensures
            final(self).wf(),
            acted == !old(self).flags.render_animation,
            !acted ==> *final(self) == *old(self),
            acted ==> {
                &&& final(self).state.angle == 0
                &&& final(self).buffer.points@.len() == old(self).buffer.points@.len()
                &&& final(self).buffer.size == old(self).buffer.size
                &&& forall|i: int| 0 <= i < final(self).buffer.points@.len() ==> {
                    &&& (#[trigger] final(self).buffer.points@[i]).x as int
                        == crate::surface::to_screen_x(old(self).curve.spec_point(0),
                        old(self).buffer.size)
                    &&& final(self).buffer.points@[i].y as int
                        == crate::surface::to_screen_y(old(self).curve.spec_point(0),
                        old(self).buffer.size)
                }
                &&& final(self).flags == old(self).flags
                &&& final(self).state.delta == old(self).state.delta
                &&& final(self).state.limit == old(self).state.limit
            },
    {
        if self.flags.render_animation {
            return false;
        }
        self.state.angle = 0;
        self.buffer.reset(&self.curve);
        true
    }

    /// Raise or lower the configured antialiasing level by one, within
    /// 0 to 16. A no-op while recording.
    pub fn adjust_antialiasing(&mut self, up: bool) -> (acted: bool)
        requires
            old(self).wf(),
        ensures
            final(self).wf(),
            acted == !old(self).flags.render_animation,
            !acted ==> *final(self) == *old(self),
            acted ==> *final(self) == (Session {
                antialiasing: if up && old(self).antialiasing < 16 {
                    (old(self).antialiasing + 1) as u8
                } else if !up && old(self).antialiasing > 0 {
                    (old(self).antialiasing - 1) as u8
                } else {
                    old(self).antialiasing
                },
                ..*old(self)
            }),
    {
        if self.flags.render_animation {
            return false;
        }
        if up {
            if self.antialiasing < 16 {
                self.antialiasing = self.antialiasing + 1;
            }
        } else {
            if self.antialiasing > 0 {
                self.antialiasing = self.antialiasing - 1;
            }
        }
        true
    }

    /// Raise or lower the frame-rate cap by 10, or by 1 with the fine
    /// step; lowering stops at zero and raising saturates at the type's
    /// end. A no-op while recording. The host applies the cap to the
    /// window.
    pub fn adjust_fps(&mut self, up: bool, fine: bool) -> (acted: bool)
        requires
            old(self).wf(),
        ensures
            final(self).wf(),
            acted == !old(self).flags.render_animation,
            !acted ==> *final(self) == *old(self),
            acted ==> *final(self) == (Session {
                fps_limit: ({
                    let step: u32 = if fine { 1 } else { 10 };
                    if up {
                        if old(self).fps_limit <= u32::MAX - step {
                            (old(self).fps_limit + step) as u32
                        } else {
                            old(self).fps_limit
                        }
                    } else {
                        if old(self).fps_limit >= step {
                            (old(self).fps_limit - step) as u32
                        } else {
                            0
                        }
                    }
                }),
                ..*old(self)
            }),
    {
        if self.flags.render_animation {
            return false;
        }
        let step: u32 = if fine { 1 } else { 10 };
        if up {
            if self.fps_limit <= u32::MAX - step {
                self.fps_limit = self.fps_limit + step;
            }
        } else {
            if self.fps_limit >= step {
                self.fps_limit = self.fps_limit - step;
            } else {
                self.fps_limit = 0;
            }
        }
        true
    }

    /// Raise or lower the angle step by `accel` deci-degrees, kept within
    /// one deci-degree and `DELTA_MAX`. A no-op while recording.
    pub fn adjust_delta(&mut self, up: bool, accel: u64) -> (acted: bool)
        requires
            old(self).wf(),
            1 <= accel <= 100,
        ensures
            final(self).wf(),
            acted == !old(self).flags.render_animation,
            !acted ==> *final(self) == *old(self),
            acted ==> *final(self) == (Session {
                state: CurveState {
                    delta: ({
                        if up {
                            if old(self).state.delta + accel <= DELTA_MAX {
                                (old(self).state.delta + accel) as u64
                            } else {
                                DELTA_MAX
                            }
                        } else {
                            if old(self).state.delta > accel {
                                (old(self).state.delta - accel) as u64
                            } else {
                                1
                            }
                        }
                    }),
                    ..old(self).state
                },
                ..*old(self)
            }),
    {
        if self.flags.render_animation {
            return false;
        }
        if up {
            if self.state.delta + accel <= DELTA_MAX {
                self.state.delta = self.state.delta + accel;
            } else {
                self.state.delta = DELTA_MAX;
            }
        } else {
            if self.state.delta > accel {
                self.state.delta = self.state.delta - accel;
            } else {
                self.state.delta = 1;
            }
        }
        true
    }

    /// Raise or lower the desired point count by `accel`, kept within one
    /// point and `COUNT_MAX`; the buffer follows at the next tick. A no-op
    /// while recording.
    pub fn adjust_count(&mut self, up: bool, accel: usize) -> (acted: bool)
        requires
            old(self).wf(),
            1 <= accel <= 100,
        ensures
            final(self).wf(),
            acted == !old(self).flags.render_animation,
            !acted ==> *final(self) == *old(self),
            acted ==> *final(self) == (Session {
                desired_count: ({
                    if up {
                        if old(self).desired_count + accel <= COUNT_MAX {
                            (old(self).desired_count + accel) as usize
                        } else {
                            COUNT_MAX
                        }
                    } else {
                        if old(self).desired_count > accel {
                            (old(self).desired_count - accel) as usize
                        } else {
                            1
                        }
                    }
                }),
                ..*old(self)
            }),
    {
        if self.flags.render_animation {
            return false;
        }
        if up {
            if self.desired_count <= COUNT_MAX - accel {
                self.desired_count = self.desired_count + accel;
            } else {
                self.desired_count = COUNT_MAX;
            }
        } else {
            if self.desired_count > accel {
                self.desired_count = self.desired_count - accel;
            } else {
                self.desired_count = 1;
            }
        }
        true
    }

    /// Remap the trail from its current surface to `new_size`; used when
    /// the window geometry changed under the trail (a resize event, a
    /// fullscreen switch, after a one-shot capture). A no-op while
    /// recording: the offscreen trail is never remapped by window events.
    pub fn restore_geometry(&mut self, new_size: SurfaceSize) -> (acted: bool)
        requires
            old(self).wf(),
            new_size.wf(),
        ensures
            final(self).wf(),
            acted == !old(self).flags.render_animation,
            !acted ==> *final(self) == *old(self),
            acted ==> {
                &&& final(self).buffer.size == new_size
                &&& final(self).buffer.points@.len() == old(self).buffer.points@.len()
                &&& forall|i: int| 0 <= i < final(self).buffer.points@.len() ==> {
                    &&& (#[trigger] final(self).buffer.points@[i]).x as int
                        == crate::surface::rescale_coord_spec(
                        old(self).buffer.points@[i].x as int,
                        crate::surface::center_x(old(self).buffer.size),
                        crate::surface::radius(old(self).buffer.size),
                        crate::surface::center_x(new_size), crate::surface::radius(new_size))
                    &&& final(self).buffer.points@[i].y as int
                        == crate::surface::rescale_coord_spec(
                        old(self).buffer.points@[i].y as int,
                        crate::surface::center_y(old(self).buffer.size),
                        crate::surface::radius(old(self).buffer.size),
                        crate::surface::center_y(new_size), crate::surface::radius(new_size))
                    &&& final(self).buffer.points@[i].fade == old(self).buffer.points@[i].fade
                }
                &&& final(self).flags == old(self).flags
                &&& final(self).state == old(self).state
                &&& final(self).desired_count == old(self).desired_count
                &&& final(self).curve == old(self).curve
            },
    {
        if self.flags.render_animation {
            return false;
        }
        self.buffer.rescale(new_size);
        true
    }

    /// The status snapshot the overlay renders from.
    pub fn status(&self) -> (st: Status)
        ensures
            st.paused == self.flags.pause,
            st.angle == self.state.angle,
            st.angle_limit == self.state.limit,
            st.angle_delta == self.state.delta,
            st.point_count == self.buffer.points@.len(),
            st.width == self.buffer.size.w,
            st.height == self.buffer.size.h,
            st.fps_limit == self.fps_limit,
            st.antialiasing == self.antialiasing,
            st.flag_bits as int == self.flags.spec_bits(),
    {
        Status {
            paused: self.flags.pause,
            angle: self.state.angle,
            angle_limit: self.state.limit,
            angle_delta: self.state.delta,
            point_count: self.buffer.len(),
            width: self.buffer.size.w,
            height: self.buffer.size.h,
            fps_limit: self.fps_limit,
            antialiasing: self.antialiasing,
            flag_bits: self.flags.bits(),
        }
    }
}

} // verus!
