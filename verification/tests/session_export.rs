use polar_roses::curve::{UnitCircle, RoseCurve, CurveFunction};
use polar_roses::surface::{SurfaceSize, to_screen};
use polar_roses::session::Session;
use polar_roses::export::{ExportStep, ScriptedSink};

#[test]
fn new_session_has_the_documented_defaults() {
    let s = Session::new(UnitCircle {}, true);
    assert_eq!(s.state.angle, 0);
    assert_eq!(s.state.delta, 10);
    assert_eq!(s.state.limit, 3600);
    assert_eq!(s.desired_count, 361);
    assert_eq!(s.buffer.len(), 361);
    assert_eq!((s.buffer.size.w, s.buffer.size.h), (800, 600));
    assert_eq!(s.fps_limit, 60);
    assert_eq!(s.antialiasing, 8);
    assert!(s.flags.show_cursor);
    assert!(!s.flags.font_failure);
    assert!(!s.flags.pause);
    assert!(!s.flags.no_cutoff);
    // show_cursor alone is bit 5
    assert_eq!(s.flags.bits(), 32);
}

#[test]
fn one_live_tick_scenario() {
    // one-degree step, 360-degree period, cutoff on, 4 points, 800 x 600
    let mut s = Session::new(UnitCircle {}, true);
    s.desired_count = 4;
    s.live_tick();
    assert_eq!(s.state.angle, 10);
    assert_eq!(s.buffer.len(), 4);
    let expected = to_screen(&s.curve.evaluate(10), &s.buffer.size);
    let newest = s.buffer.points[3];
    assert_eq!((newest.x, newest.y), expected);
    let fades: Vec<u8> = s.buffer.points.iter().map(|p| p.fade).collect();
    assert_eq!(fades, vec![0, 85, 170, 255]);
}

#[test]
fn live_tick_wraps_the_angle_and_pauses() {
    let mut s = Session::new(UnitCircle {}, true);
    s.state.angle = 3595;
    s.live_tick();
    assert_eq!(s.state.angle, 5);
    s.toggle_pause();
    let before = s.state.angle;
    s.live_tick();
    assert_eq!(s.state.angle, before);
}

#[test]
fn fast_forward_stops_just_past_the_period() {
    let mut s = Session::new(UnitCircle {}, true);
    assert!(s.fast_forward());
    assert_eq!(s.state.angle, 3600);
    let mut s7 = Session::new(UnitCircle {}, true);
    s7.state.delta = 7;
    s7.fast_forward();
    // 515 steps of 7 reach 3605, the first multiple past 3600
    assert_eq!(s7.state.angle, 3605);
}

#[test]
fn adjustments_clamp_at_their_bounds() {
    let mut s = Session::new(UnitCircle {}, true);
    s.adjust_delta(false, 100);
    assert_eq!(s.state.delta, 1);
    s.adjust_delta(true, 10);
    assert_eq!(s.state.delta, 11);
    s.adjust_count(false, 100);
    assert_eq!(s.desired_count, 261);
    s.adjust_fps(false, false);
    assert_eq!(s.fps_limit, 50);
    s.adjust_fps(false, true);
    assert_eq!(s.fps_limit, 49);
    s.fps_limit = 5;
    s.adjust_fps(false, false);
    assert_eq!(s.fps_limit, 0);
    s.antialiasing = 16;
    s.adjust_antialiasing(true);
    assert_eq!(s.antialiasing, 16);
    s.antialiasing = 0;
    s.adjust_antialiasing(false);
    assert_eq!(s.antialiasing, 0);
}

#[test]
fn toggle_cutoff_off_makes_the_trail_opaque() {
    let mut s = Session::new(UnitCircle {}, true);
    s.desired_count = 5;
    s.live_tick();
    assert_eq!(s.buffer.points[0].fade, 0);
    s.toggle_cutoff();
    assert!(s.flags.no_cutoff);
    for p in s.buffer.points.iter() {
        assert_eq!(p.fade, 255);
    }
}

#[test]
fn reset_trail_returns_to_angle_zero() {
    let mut s = Session::new(UnitCircle {}, true);
    s.desired_count = 6;
    s.live_tick();
    s.live_tick();
    assert!(s.reset_trail());
    assert_eq!(s.state.angle, 0);
    let p0 = to_screen(&s.curve.evaluate(0), &s.buffer.size);
    for p in s.buffer.points.iter() {
        assert_eq!((p.x, p.y), p0);
    }
}

#[test]
fn commands_are_ignored_while_recording() {
    let mut s = Session::new(UnitCircle {}, true);
    assert!(s.start_export(true));
    assert!(s.flags.render_animation);
    let delta = s.state.delta;
    assert!(!s.adjust_delta(true, 10));
    assert_eq!(s.state.delta, delta);
    assert!(!s.toggle_pause());
    assert!(!s.flags.pause);
    assert!(!s.fast_forward());
    assert!(!s.reset_trail());
    assert!(!s.capture_single());
    assert!(!s.start_export(true));
}

#[test]
fn start_export_recomputes_the_sample_count() {
    let mut s = Session::new(UnitCircle {}, true);
    s.desired_count = 42;
    assert!(s.start_export(true));
    // round(3600 / 10) + 1, recomputed on entry
    assert_eq!(s.desired_count, 361);
    assert_eq!(s.buffer.len(), 361);
}

#[test]
fn resize_events_are_ignored_while_recording() {
    let mut s = Session::new(UnitCircle {}, true);
    assert!(s.start_export(true));
    assert!(!s.restore_geometry(SurfaceSize::new(640, 480)));
    assert_eq!((s.buffer.size.w, s.buffer.size.h), (1024, 1024));
}

#[test]
fn start_export_without_directory_mutates_nothing() {
    let mut s = Session::new(UnitCircle {}, true);
    let angle = s.state.angle;
    let len = s.buffer.len();
    assert!(!s.start_export(false));
    assert!(!s.flags.render_animation);
    assert_eq!(s.state.angle, angle);
    assert_eq!(s.buffer.len(), len);
    assert_eq!((s.buffer.size.w, s.buffer.size.h), (800, 600));
}

#[test]
fn start_export_primes_onto_the_offscreen_target() {
    let mut s = Session::new(UnitCircle {}, true);
    assert!(s.start_export(true));
    assert_eq!(s.state.angle, 0);
    assert_eq!((s.buffer.size.w, s.buffer.size.h), (1024, 1024));
    assert_eq!(s.buffer.len(), 361);
    assert_eq!(s.frame_index, 0);
    assert_eq!(s.failures, 0);
}

#[test]
fn export_completes_after_one_frame_per_step() {
    let mut s = Session::new(UnitCircle {}, true);
    assert!(s.start_export(true));
    let mut sink = ScriptedSink { fail_first: 0, calls: 0 };
    let window = SurfaceSize::new(800, 600);
    let outcome = s.run_export(&mut sink, window);
    // ceil(3600 / 10) frames, the last captured at the period itself
    assert_eq!(outcome, ExportStep::Completed { frames: 360 });
    assert_eq!(sink.calls, 360);
    assert!(!s.flags.render_animation);
    assert_eq!((s.buffer.size.w, s.buffer.size.h), (800, 600));
}

#[test]
fn export_frame_count_rounds_the_period_up() {
    let mut s = Session::new(UnitCircle {}, true);
    s.state.delta = 7;
    assert!(s.start_export(true));
    let mut sink = ScriptedSink { fail_first: 0, calls: 0 };
    let outcome = s.run_export(&mut sink, SurfaceSize::new(800, 600));
    // ceil(3600 / 7) = 515: the last frame at 3605, the first angle past
    assert_eq!(outcome, ExportStep::Completed { frames: 515 });
    assert_eq!(sink.calls, 515);
}

#[test]
fn export_recovers_from_fewer_than_ten_failures() {
    let mut s = Session::new(UnitCircle {}, true);
    assert!(s.start_export(true));
    let mut sink = ScriptedSink { fail_first: 9, calls: 0 };
    let outcome = s.run_export(&mut sink, SurfaceSize::new(800, 600));
    assert_eq!(outcome, ExportStep::Completed { frames: 360 });
    // nine retries of the first frame, then one success per frame
    assert_eq!(sink.calls, 369);
}

#[test]
fn export_aborts_after_exactly_ten_consecutive_failures() {
    let mut s = Session::new(UnitCircle {}, true);
    assert!(s.start_export(true));
    let mut sink = ScriptedSink { fail_first: u32::MAX, calls: 0 };
    let outcome = s.run_export(&mut sink, SurfaceSize::new(800, 600));
    assert_eq!(outcome, ExportStep::Aborted { frame: 0 });
    assert_eq!(sink.calls, 10);
    assert_eq!(s.failures, 10);
    assert!(!s.flags.render_animation);
    // geometry is restored on abort too
    assert_eq!((s.buffer.size.w, s.buffer.size.h), (800, 600));
}

#[test]
fn export_step_retries_the_same_frame_after_a_failure() {
    let mut s = Session::new(UnitCircle {}, true);
    assert!(s.start_export(true));
    let window = SurfaceSize::new(800, 600);
    let mut failing = ScriptedSink { fail_first: u32::MAX, calls: 0 };
    assert_eq!(s.export_step(&mut failing, window), ExportStep::Running);
    assert_eq!(s.failures, 1);
    assert_eq!(s.frame_index, 0);
    let angle = s.state.angle;
    let mut fine = ScriptedSink { fail_first: 0, calls: 0 };
    assert_eq!(s.export_step(&mut fine, window), ExportStep::Running);
    // the angle did not advance for the retry, and the frame was written
    assert_eq!(s.state.angle, angle);
    assert_eq!(s.failures, 0);
    assert_eq!(s.frame_index, 1);
}

#[test]
fn capture_single_forces_full_opacity() {
    let mut s = Session::new(UnitCircle {}, true);
    s.state.delta = 100;
    assert!(s.capture_single());
    // round(3600 / 100) + 1 samples
    assert_eq!(s.desired_count, 37);
    assert_eq!(s.buffer.len(), 37);
    assert_eq!(s.state.angle, 0);
    assert_eq!((s.buffer.size.w, s.buffer.size.h), (1024, 1024));
    assert!(!s.flags.no_cutoff);
    for p in s.buffer.points.iter() {
        assert_eq!(p.fade, 255);
    }
    // the host then remaps the trail back onto the window
    assert!(s.restore_geometry(SurfaceSize::new(800, 600)));
    assert_eq!((s.buffer.size.w, s.buffer.size.h), (800, 600));
}

#[test]
fn rose_session_period_drives_the_sample_count() {
    let s = Session::new(RoseCurve::new(4, 5), true);
    assert_eq!(s.state.limit, 18000);
    assert_eq!(s.desired_count, 1801);
}

#[test]
fn status_reflects_the_session() {
    let mut s = Session::new(UnitCircle {}, false);
    s.toggle_pause();
    let st = s.status();
    assert!(st.paused);
    assert_eq!(st.angle_limit, 3600);
    assert_eq!(st.angle_delta, 10);
    assert_eq!(st.point_count, 361);
    assert_eq!((st.width, st.height), (800, 600));
    assert_eq!(st.fps_limit, 60);
    assert_eq!(st.antialiasing, 8);
    // pause (4), font failure (8) and show_cursor (32)
    assert_eq!(st.flag_bits, 44);
}

#[test]
fn reinit_restores_fresh_flags_and_geometry() {
    let mut s = Session::new(UnitCircle {}, true);
    s.toggle_pause();
    s.toggle_gui();
    s.state.delta = 20;
    s.live_tick();
    s.reinit(true);
    assert_eq!(s.state.angle, 0);
    assert_eq!(s.state.delta, 20);
    assert_eq!(s.desired_count, 181);
    assert_eq!(s.buffer.len(), 181);
    assert!(!s.flags.pause);
    assert!(!s.flags.draw_gui);
    assert!(s.flags.show_cursor);
    assert_eq!(s.antialiasing, 8);
}
