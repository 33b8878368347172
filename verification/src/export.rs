//! The animation exporter: a priming phase that fast-forwards one full
//! period into the trail on the offscreen target, then a frame-by-frame
//! capture loop with a bounded retry budget. The encoder is injected
//! through `FrameSink`, so the bounded-retry contract is provable and
//! testable apart from any file writing.

use vstd::prelude::*;
use vstd::arithmetic::div_mod::{lemma_mod_multiples_vanish, lemma_small_mod};
use crate::num::{ceil_div, round_div, lemma_smallest_multiple, lemma_ceil_div_unique};
use crate::curve::{CurveFunction, curve_init};
use crate::surface::{
    SurfaceSize, center_x, center_y, radius, to_screen_x, to_screen_y, rescale_coord_spec,
};
use crate::trail::{TrailBuffer, fade_of};
use crate::session::{Session, ModeFlags};

verus! {

/// Where a driver invocation left the exporter.
#[derive(Clone, Copy, PartialEq, Eq, Structural, Debug)]
pub enum ExportStep {
    /// More frames remain; invoke again.
    Running,
    /// The period is exhausted: this many frames were written.
    Completed { frames: u32 },
    /// Ten consecutive encode failures; this frame could not be written.
    Aborted { frame: u32 },
}

/// The injected encoder: renders the trail and writes it as the numbered
/// frame, reporting success. Nothing is assumed of the outcome — the
/// exporter's contracts hold for every implementation.
pub trait FrameSink {
    fn emit(&mut self, frame_index: u32, buffer: &TrailBuffer) -> bool;
}

/// A deterministic encoder stand-in: fails the first `fail_first` calls,
/// then succeeds, counting every call. Lets the retry and abort paths run
/// without any file writing.
pub struct ScriptedSink {
    pub fail_first: u32,
    pub calls: u32,
}

impl FrameSink for ScriptedSink {
    fn emit(&mut self, frame_index: u32, buffer: &TrailBuffer) -> bool {
        let failing = self.calls < self.fail_first;
        if self.calls < u32::MAX {
            self.calls = self.calls + 1;
        }
        !failing
    }
}

/// The angle whose curve point stands `j` slots behind the newest point of
/// a trail seeded at angle zero and advanced `steps` whole steps: points
/// older than the advances keep the seed's angle zero.
pub open spec fn trail_angle(steps: int, delta: int, j: int) -> int {
    if j <= steps {
        (steps - j) * delta
    } else {
        0
    }
}

/// `trail_angle` of a fully primed trail: one whole period of steps,
/// `ceil(limit / delta)` of them.
pub open spec fn primed_angle(limit: int, delta: int, j: int) -> int {
    trail_angle(ceil_div(limit, delta), delta, j)
}

/// The rank of the retry sub-phase: zero right after a success (the next
/// invocation advances the angle), and falling as the failure counter
/// climbs toward the ceiling.
pub open spec fn retry_rank(failures: int) -> int {
    if failures == 0 {
        0
    } else {
        11 - failures
    }
}

impl<C: CurveFunction> Session<C> {
    /// The priming phase: bring the buffer to the desired length, move it
    /// onto the offscreen target, re-seed it at angle zero, run one full
    /// period into it, and reset the angle and the export counters. The
    /// whole steady-state trail is pinned: point `i` is the curve at
    /// `primed_angle` of its distance from the newest slot, so the first
    /// captured frame shows the fully formed trail. The host allocates the
    /// offscreen target around this call.
    pub fn prepare_export(&mut self)
        requires
            old(self).wf(),
        ensures
            final(self).wf(),
            final(self).state.angle == 0,
            final(self).buffer.size == old(self).texture_size,
            final(self).buffer.points@.len() == old(self).desired_count,
            final(self).frame_index == 0,
            final(self).failures == 0,
            final(self).flags == old(self).flags,
            final(self).state.delta == old(self).state.delta,
            final(self).state.limit == old(self).state.limit,
            final(self).desired_count == old(self).desired_count,
            final(self).curve == old(self).curve,
            final(self).fps_limit == old(self).fps_limit,
            final(self).antialiasing == old(self).antialiasing,
            final(self).texture_size == old(self).texture_size,
            forall|i: int| 0 <= i < final(self).buffer.points@.len() ==> {
                let len = final(self).buffer.points@.len() as int;
                let a = primed_angle(old(self).state.limit as int,
                    old(self).state.delta as int, len - 1 - i);
                &&& (#[trigger] final(self).buffer.points@[i]).x as int == to_screen_x(
                    old(self).curve.spec_point(a), old(self).texture_size)
                &&& final(self).buffer.points@[i].y as int == to_screen_y(
                    old(self).curve.spec_point(a), old(self).texture_size)
            },
            forall|i: int| 0 <= i < final(self).buffer.points@.len() ==> (
                #[trigger] final(self).buffer.points@[i]).fade as int == if !old(
                self).flags.no_cutoff {
                fade_of(i, final(self).buffer.points@.len() as int)
            } else {
                255
            },
    {
        self.buffer.resize(self.desired_count, &self.curve);
        self.buffer.rescale(self.texture_size);
        self.buffer.reset(&self.curve);
        self.state.angle = 0;
        let len = self.buffer.len();
        let ghost mut steps: int = 0;
        while self.state.angle < self.state.limit
            invariant
                self.wf(),
                len == self.buffer.points@.len(),
                1 <= len,
                self.buffer.size == old(self).texture_size,
                self.state.delta == old(self).state.delta,
                self.state.limit == old(self).state.limit,
                self.curve == old(self).curve,
                self.flags == old(self).flags,
                self.desired_count == old(self).desired_count,
                self.fps_limit == old(self).fps_limit,
                self.antialiasing == old(self).antialiasing,
                self.texture_size == old(self).texture_size,
                self.frame_index == old(self).frame_index,
                self.failures == old(self).failures,
                0 <= steps,
                self.state.angle as int == steps * self.state.delta,
                steps == 0 ==> self.state.angle == 0,
                steps > 0 ==> self.state.angle < self.state.limit + self.state.delta,
                forall|i: int| 0 <= i < len ==> {
                    let a = trail_angle(steps, self.state.delta as int, len - 1 - i);
                    &&& (#[trigger] self.buffer.points@[i]).x as int == to_screen_x(
                        self.curve.spec_point(a), self.buffer.size)
                    &&& self.buffer.points@[i].y as int == to_screen_y(
                        self.curve.spec_point(a), self.buffer.size)
                },
                steps > 0 ==> forall|i: int| 0 <= i < len ==> (
                    #[trigger] self.buffer.points@[i]).fade as int
                    == if !self.flags.no_cutoff {
                    fade_of(i, len as int)
                } else {
                    255
                },
            decreases self.state.limit + self.state.delta - self.state.angle,
        {
            let ghost k0 = steps;
            self.state.angle = self.state.angle + self.state.delta;
            let cutoff = !self.flags.no_cutoff;
            self.buffer.advance(&self.curve, self.state.angle, cutoff);
            proof {
                steps = k0 + 1;
                assert(self.state.angle as int == steps * self.state.delta)
                    by (nonlinear_arith)
                    requires
                        self.state.angle as int == k0 * self.state.delta
                            + self.state.delta,
                        steps == k0 + 1,
                ;
                assert forall|i: int| 0 <= i < len implies {
                    let a = trail_angle(steps, self.state.delta as int, len - 1 - i);
                    &&& (#[trigger] self.buffer.points@[i]).x as int == to_screen_x(
                        self.curve.spec_point(a), self.buffer.size)
                    &&& self.buffer.points@[i].y as int == to_screen_y(
                        self.curve.spec_point(a), self.buffer.size)
                } by {
                    if i < len - 1 {
                        assert(trail_angle(steps, self.state.delta as int, len - 1 - i)
                            == trail_angle(k0, self.state.delta as int, len - 1 - (i + 1)));
                    } else {
                        assert(trail_angle(steps, self.state.delta as int, 0)
                            == steps * self.state.delta);
                    }
                }
            }
        }
        proof {
            let d = self.state.delta as int;
            assert(steps > 0 && self.state.angle as int == d * steps) by (nonlinear_arith)
                requires
                    self.state.angle as int == steps * d,
                    self.state.angle >= self.state.limit,
                    self.state.limit >= 1,
                    0 <= steps,
            ;
            lemma_small_mod(0, d as nat);
            lemma_mod_multiples_vanish(steps, 0, d);
            lemma_smallest_multiple(self.state.angle as int, self.state.limit as int, d);
            assert(steps == ceil_div(self.state.limit as int, d)) by (nonlinear_arith)
                requires
                    steps * d == ceil_div(self.state.limit as int, d) * d,
                    1 <= d,
            ;
        }
        self.state.angle = 0;
        self.frame_index = 0;
        self.failures = 0;
    }

    /// Begin a recording session. If the output location is unavailable
    /// (`dir_ok` false) nothing at all is mutated, as when a recording is
    /// already active; otherwise the sample count is recomputed from the
    /// current period and step, the exporter primed, and the recording
    /// flag raised.
    pub fn start_export(&mut self, dir_ok: bool) -> (started: bool)
        requires
            old(self).wf(),
        ensures
            final(self).wf(),
            started == (!old(self).flags.render_animation && dir_ok),
            !started ==> *final(self) == *old(self),
            started ==> {
                &&& final(self).flags == (ModeFlags {
                    render_animation: true,
                    ..old(self).flags
                })
                &&& final(self).state.angle == 0
                &&& final(self).desired_count as int == round_div(
                    old(self).state.limit as int, old(self).state.delta as int) + 1
                &&& final(self).buffer.size == old(self).texture_size
                &&& final(self).buffer.points@.len() == final(self).desired_count
                &&& final(self).frame_index == 0
                &&& final(self).failures == 0
                &&& final(self).state.delta == old(self).state.delta
                &&& final(self).state.limit == old(self).state.limit
                &&& final(self).curve == old(self).curve
                &&& forall|i: int| 0 <= i < final(self).buffer.points@.len() ==> {
                    let len = final(self).buffer.points@.len() as int;
                    let a = primed_angle(old(self).state.limit as int,
                        old(self).state.delta as int, len - 1 - i);
                    &&& (#[trigger] final(self).buffer.points@[i]).x as int == to_screen_x(
                        old(self).curve.spec_point(a), old(self).texture_size)
                    &&& final(self).buffer.points@[i].y as int == to_screen_y(
                        old(self).curve.spec_point(a), old(self).texture_size)
                }
                &&& forall|i: int| 0 <= i < final(self).buffer.points@.len() ==> (
                    #[trigger] final(self).buffer.points@[i]).fade as int == if !old(
                    self).flags.no_cutoff {
                    fade_of(i, final(self).buffer.points@.len() as int)
                } else {
                    255
                }
            },
    {
        if self.flags.render_animation {
            return false;
        }
        if !dir_ok {
            return false;
        }
        let (_limit, samples) = curve_init(&self.curve, self.state.delta);
        self.desired_count = samples as usize;
        self.prepare_export();
        self.flags.render_animation = true;
        true
    }

    /// The one-shot capture: recompute the sample count from the current
    /// period and step, prime as for a recording, and force the whole
    /// trail opaque regardless of the cutoff setting (which is left as it
    /// was). The host then writes the single frame and restores the
    /// window geometry. A no-op while recording.
    pub fn capture_single(&mut self) -> (acted: bool)
        requires
            old(self).wf(),
        ensures
            final(self).wf(),
            acted == !old(self).flags.render_animation,
            !acted ==> *final(self) == *old(self),
            acted ==> {
                &&& final(self).desired_count as int == round_div(
                    old(self).state.limit as int, old(self).state.delta as int) + 1
                &&& final(self).state.angle == 0
                &&& final(self).buffer.size == old(self).texture_size
                &&& final(self).buffer.points@.len() == final(self).desired_count
                &&& forall|i: int| 0 <= i < final(self).buffer.points@.len() ==> {
                    let len = final(self).buffer.points@.len() as int;
                    let a = primed_angle(old(self).state.limit as int,
                        old(self).state.delta as int, len - 1 - i);
                    &&& (#[trigger] final(self).buffer.points@[i]).x as int == to_screen_x(
                        old(self).curve.spec_point(a), old(self).texture_size)
                    &&& final(self).buffer.points@[i].y as int == to_screen_y(
                        old(self).curve.spec_point(a), old(self).texture_size)
                    &&& final(self).buffer.points@[i].fade == 255
                }
                &&& final(self).flags == old(self).flags
                &&& final(self).state.delta == old(self).state.delta
                &&& final(self).state.limit == old(self).state.limit
                &&& final(self).curve == old(self).curve
            },
    {
        if self.flags.render_animation {
            return false;
        }
        let (_limit, samples) = curve_init(&self.curve, self.state.delta);
        self.desired_count = samples as usize;
        self.prepare_export();
        self.buffer.set_all_opaque();
        true
    }

    /// One unit of recording work. A full failure counter aborts the
    /// session with the trail remapped back onto the window. Otherwise,
    /// with a clean counter the angle advances one step and the trail with
    /// it (a retry keeps both), one encode of the current frame is
    /// attempted, and the counters follow its outcome; the first success
    /// at or past the period completes the recording, again with the trail
    /// remapped onto the window.
    pub fn export_step<S: FrameSink>(&mut self, sink: &mut S, window_size: SurfaceSize)
        -> (r: ExportStep)
        requires
            old(self).wf(),
            window_size.wf(),
            old(self).flags.render_animation,
            old(self).failures == 0 ==> old(self).state.angle < old(self).state.limit,
            old(self).frame_index < u32::MAX,
        ensures
            final(self).wf(),
            final(self).flags == (ModeFlags {
                render_animation: r is Running,
                ..old(self).flags
            }),
            final(self).state.delta == old(self).state.delta,
            final(self).state.limit == old(self).state.limit,
            final(self).desired_count == old(self).desired_count,
            final(self).curve == old(self).curve,
            final(self).fps_limit == old(self).fps_limit,
            final(self).antialiasing == old(self).antialiasing,
            final(self).texture_size == old(self).texture_size,
            final(self).buffer.points@.len() == old(self).buffer.points@.len(),
            r matches ExportStep::Aborted { frame } ==> {
                &&& old(self).failures == 10
                &&& frame == old(self).frame_index
                &&& final(self).state == old(self).state
                &&& final(self).frame_index == old(self).frame_index
                &&& final(self).failures == old(self).failures
                &&& final(self).buffer.size == window_size
                &&& forall|i: int| 0 <= i < final(self).buffer.points@.len() ==> {
                    let osz = old(self).buffer.size;
                    &&& (#[trigger] final(self).buffer.points@[i]).x as int
                        == rescale_coord_spec(old(self).buffer.points@[i].x as int,
                        center_x(osz), radius(osz), center_x(window_size),
                        radius(window_size))
                    &&& final(self).buffer.points@[i].y as int == rescale_coord_spec(
                        old(self).buffer.points@[i].y as int, center_y(osz), radius(osz),
                        center_y(window_size), radius(window_size))
                    &&& final(self).buffer.points@[i].fade == old(self).buffer.points@[i].fade
                }
            },
            r matches ExportStep::Completed { frames } ==> {
                &&& old(self).failures < 10
                &&& frames as int == old(self).frame_index + 1
                &&& final(self).frame_index == frames
                &&& final(self).failures == 0
                &&& old(self).failures == 0 ==> final(self).state.angle as int
                    == old(self).state.angle + old(self).state.delta
                &&& old(self).failures >= 1 ==> final(self).state.angle
                    == old(self).state.angle
                &&& final(self).state.angle >= old(self).state.limit
                &&& final(self).buffer.size == window_size
                &&& old(self).failures >= 1 ==> forall|i: int|
                    0 <= i < final(self).buffer.points@.len() ==> {
                    let osz = old(self).buffer.size;
                    &&& (#[trigger] final(self).buffer.points@[i]).x as int
                        == rescale_coord_spec(old(self).buffer.points@[i].x as int,
                        center_x(osz), radius(osz), center_x(window_size),
                        radius(window_size))
                    &&& final(self).buffer.points@[i].y as int == rescale_coord_spec(
                        old(self).buffer.points@[i].y as int, center_y(osz), radius(osz),
                        center_y(window_size), radius(window_size))
                    &&& final(self).buffer.points@[i].fade == old(self).buffer.points@[i].fade
                }
                &&& old(self).failures == 0 ==> {
                    let len = final(self).buffer.points@.len() as int;
                    let osz = old(self).buffer.size;
                    &&& forall|i: int| 0 <= i < len - 1 ==> {
                        &&& (#[trigger] final(self).buffer.points@[i]).x as int
                            == rescale_coord_spec(old(self).buffer.points@[i + 1].x as int,
                            center_x(osz), radius(osz), center_x(window_size),
                            radius(window_size))
                        &&& final(self).buffer.points@[i].y as int == rescale_coord_spec(
                            old(self).buffer.points@[i + 1].y as int, center_y(osz),
                            radius(osz), center_y(window_size), radius(window_size))
                    }
                    &&& final(self).buffer.points@[len - 1].x as int == rescale_coord_spec(
                        to_screen_x(old(self).curve.spec_point(
                        final(self).state.angle as int), osz), center_x(osz), radius(osz),
                        center_x(window_size), radius(window_size))
                    &&& final(self).buffer.points@[len - 1].y as int == rescale_coord_spec(
                        to_screen_y(old(self).curve.spec_point(
                        final(self).state.angle as int), osz), center_y(osz), radius(osz),
                        center_y(window_size), radius(window_size))
                    &&& forall|i: int| 0 <= i < len ==> (
                        #[trigger] final(self).buffer.points@[i]).fade as int == if !old(
                        self).flags.no_cutoff {
                        fade_of(i, len)
                    } else {
                        255
                    }
                }
            },
            r is Running ==> {
                &&& old(self).failures < 10
                &&& final(self).buffer.size == old(self).buffer.size
                &&& old(self).failures == 0 ==> {
                    let len = final(self).buffer.points@.len() as int;
                    &&& final(self).state.angle as int == old(self).state.angle
                        + old(self).state.delta
                    &&& forall|i: int| 0 <= i < len - 1 ==> {
                        &&& (#[trigger] final(self).buffer.points@[i]).x
                            == old(self).buffer.points@[i + 1].x
                        &&& final(self).buffer.points@[i].y == old(self).buffer.points@[i
                            + 1].y
                    }
                    &&& final(self).buffer.points@[len - 1].x as int == to_screen_x(
                        old(self).curve.spec_point(final(self).state.angle as int),
                        old(self).buffer.size)
                    &&& final(self).buffer.points@[len - 1].y as int == to_screen_y(
                        old(self).curve.spec_point(final(self).state.angle as int),
                        old(self).buffer.size)
                    &&& forall|i: int| 0 <= i < len ==> (
                        #[trigger] final(self).buffer.points@[i]).fade as int == if !old(
                        self).flags.no_cutoff {
                        fade_of(i, len)
                    } else {
                        255
                    }
                }
                &&& old(self).failures >= 1 ==> {
                    &&& final(self).state.angle == old(self).state.angle
                    &&& final(self).buffer == old(self).buffer
                }
                &&& (final(self).failures == 0 && final(self).frame_index as int
                    == old(self).frame_index + 1 && final(self).state.angle
                    < old(self).state.limit) || (final(self).failures as int
                    == old(self).failures + 1 && final(self).frame_index
                    == old(self).frame_index)
            },
    {
        if self.failures == 10 {
            self.buffer.rescale(window_size);
            self.flags.render_animation = false;
            return ExportStep::Aborted { frame: self.frame_index };
        }
        if self.failures == 0 {
            self.state.angle = self.state.angle + self.state.delta;
            let cutoff = !self.flags.no_cutoff;
            self.buffer.advance(&self.curve, self.state.angle, cutoff);
        }
        let ok = sink.emit(self.frame_index, &self.buffer);
        if ok {
            self.failures = 0;
            self.frame_index = self.frame_index + 1;
            if self.state.angle >= self.state.limit {
                self.buffer.rescale(window_size);
                self.flags.render_animation = false;
                return ExportStep::Completed { frames: self.frame_index };
            }
        } else {
            self.failures = self.failures + 1;
        }
        ExportStep::Running
    }

    /// Drive a freshly started recording to its end. This always
    /// terminates, whatever the sink answers: either `Completed` with
    /// exactly `ceil(limit / delta)` frames — one per whole step, the last
    /// at the first angle at or past the period — or `Aborted` with the
    /// failure counter at its ceiling of ten. Either way the trail ends
    /// remapped onto the window.
    pub fn run_export<S: FrameSink>(&mut self, sink: &mut S, window_size: SurfaceSize)
        -> (r: ExportStep)
        requires
            old(self).wf(),
            window_size.wf(),
            old(self).flags.render_animation,
            old(self).state.angle == 0,
            old(self).frame_index == 0,
            old(self).failures == 0,
        ensures
            final(self).wf(),
            !final(self).flags.render_animation,
            !(r is Running),
            final(self).buffer.size == window_size,
            r matches ExportStep::Completed { frames } ==> {
                &&& frames as int == ceil_div(old(self).state.limit as int,
                    old(self).state.delta as int)
                &&& (frames - 1) * old(self).state.delta < old(self).state.limit
                    <= frames as int * old(self).state.delta
                &&& final(self).frame_index == frames
                &&& final(self).failures == 0
            },
            r matches ExportStep::Aborted { frame } ==> {
                &&& final(self).failures == 10
                &&& frame == final(self).frame_index
            },
    {
        loop
            invariant
                self.wf(),
                window_size.wf(),
                self.flags.render_animation,
                self.failures == 0 ==> self.state.angle < self.state.limit,
                self.failures >= 1 ==> self.state.angle < self.state.limit
                    + self.state.delta,
                self.state.delta == old(self).state.delta,
                self.state.limit == old(self).state.limit,
                self.curve == old(self).curve,
                self.failures <= 10,
                self.state.angle as int == (self.frame_index as int + if self.failures == 0 {
                    0int
                } else {
                    1int
                }) * self.state.delta,
                self.frame_index <= self.state.limit,
            decreases
                self.state.limit + self.state.delta - self.state.angle,
                retry_rank(self.failures as int),
        {
            let ghost pre = *self;
            let step = self.export_step(sink, window_size);
            match step {
                ExportStep::Running => {
                    proof {
                        assert(self.state.angle as int == (self.frame_index as int
                            + if self.failures == 0 { 0int } else { 1int })
                            * self.state.delta) by (nonlinear_arith)
                            requires
                                pre.state.angle as int == (pre.frame_index as int
                                    + if pre.failures == 0 { 0int } else { 1int })
                                    * pre.state.delta,
                                pre.failures == 0 ==> self.state.angle as int
                                    == pre.state.angle + pre.state.delta,
                                pre.failures >= 1 ==> self.state.angle == pre.state.angle,
                                (self.failures == 0 && self.frame_index as int
                                    == pre.frame_index + 1) || (self.failures as int
                                    == pre.failures + 1 && self.frame_index
                                    == pre.frame_index),
                                pre.failures < 10,
                                self.state.delta == pre.state.delta,
                        ;
                        assert(self.frame_index <= self.state.limit) by (nonlinear_arith)
                            requires
                                self.state.angle as int == (self.frame_index as int
                                    + if self.failures == 0 { 0int } else { 1int })
                                    * self.state.delta,
                                self.failures == 0 ==> self.state.angle < self.state.limit,
                                self.failures >= 1 ==> self.state.angle < self.state.limit
                                    + self.state.delta,
                                1 <= self.state.delta,
                                0 <= self.frame_index,
                        ;
                    }
                },
                ExportStep::Completed { frames } => {
                    proof {
                        let d = pre.state.delta as int;
                        let l = pre.state.limit as int;
                        assert((frames - 1) * d < l <= frames as int * d)
                            by (nonlinear_arith)
                            requires
                                d == pre.state.delta as int,
                                l == pre.state.limit as int,
                                pre.state.angle as int == (pre.frame_index as int
                                    + if pre.failures == 0 { 0int } else { 1int }) * d,
                                frames as int == pre.frame_index + 1,
                                pre.failures == 0 ==> self.state.angle as int
                                    == pre.state.angle + d && pre.state.angle < l,
                                pre.failures >= 1 ==> self.state.angle == pre.state.angle
                                    && pre.state.angle < l + d,
                                self.state.angle >= l,
                                1 <= d,
                        ;
                        lemma_ceil_div_unique(l, d, frames as int);
                    }
                    return step;
                },
                ExportStep::Aborted { frame: _ } => {
                    return step;
                },
            }
        }
    }
}

} // verus!
