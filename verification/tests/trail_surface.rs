use polar_roses::curve::{UnitCircle, CurveFunction};
use polar_roses::surface::{SurfaceSize, to_screen, radius_upx};
use polar_roses::trail::TrailBuffer;

#[test]
fn projection_centers_the_disk() {
    let s = SurfaceSize::new(800, 600);
    // radius: min(800, 600) / 2 - 50 = 250 px
    assert_eq!(radius_upx(&s), 250_000_000);
    let c = UnitCircle {};
    // angle 0 maps to (1, 0): right of center on the horizontal axis
    let (x, y) = to_screen(&c.evaluate(0), &s);
    assert_eq!(x, 400_000_000 + 250_000_000);
    assert_eq!(y, 300_000_000);
    // angle 90 maps to (0, 1): above center, and screen y grows downward
    let (x90, y90) = to_screen(&c.evaluate(900), &s);
    assert_eq!(x90, 400_000_000);
    assert_eq!(y90, 300_000_000 - 250_000_000);
}

#[test]
fn resize_shrink_keeps_the_newest_points() {
    let c = UnitCircle {};
    let mut b = TrailBuffer::new(SurfaceSize::new(800, 600));
    b.resize(6, &c);
    let mut angle: u64 = 0;
    for _ in 0..6 {
        angle += 10;
        b.advance(&c, angle, true);
    }
    let kept: Vec<(i64, i64)> = b.points[2..].iter().map(|p| (p.x, p.y)).collect();
    b.resize(4, &c);
    assert_eq!(b.len(), 4);
    for (i, p) in b.points.iter().enumerate() {
        assert_eq!((p.x, p.y), kept[i]);
    }
}

#[test]
fn resize_grow_pads_with_the_newest_point() {
    let c = UnitCircle {};
    let mut b = TrailBuffer::new(SurfaceSize::new(800, 600));
    b.resize(3, &c);
    let mut angle: u64 = 0;
    for _ in 0..3 {
        angle += 10;
        b.advance(&c, angle, true);
    }
    let before: Vec<(i64, i64)> = b.points.iter().map(|p| (p.x, p.y)).collect();
    let newest = before[2];
    b.resize(5, &c);
    assert_eq!(b.len(), 5);
    for i in 0..3 {
        assert_eq!((b.points[i].x, b.points[i].y), before[i]);
    }
    for i in 3..5 {
        assert_eq!((b.points[i].x, b.points[i].y), newest);
    }
}

#[test]
fn resize_seeds_an_empty_buffer_at_angle_zero() {
    let c = UnitCircle {};
    let s = SurfaceSize::new(800, 600);
    let mut b = TrailBuffer::new(s);
    b.resize(4, &c);
    assert_eq!(b.len(), 4);
    let (x0, y0) = to_screen(&c.evaluate(0), &s);
    for p in b.points.iter() {
        assert_eq!((p.x, p.y, p.fade), (x0, y0, 255));
    }
}

#[test]
fn advance_fades_span_the_whole_range() {
    let c = UnitCircle {};
    let mut b = TrailBuffer::new(SurfaceSize::new(800, 600));
    b.resize(4, &c);
    b.advance(&c, 10, true);
    let fades: Vec<u8> = b.points.iter().map(|p| p.fade).collect();
    assert_eq!(fades, vec![0, 85, 170, 255]);
    // non-decreasing, 0 at the oldest, 255 at the newest — on a longer trail too
    b.resize(7, &c);
    b.advance(&c, 20, true);
    assert_eq!(b.points[0].fade, 0);
    assert_eq!(b.points[6].fade, 255);
    for w in b.points.windows(2) {
        assert!(w[0].fade <= w[1].fade);
    }
}

#[test]
fn fade_boundaries_on_the_shortest_trails() {
    let c = UnitCircle {};
    let mut b = TrailBuffer::new(SurfaceSize::new(800, 600));
    // a single point is fully opaque even with the cutoff on
    b.resize(1, &c);
    b.advance(&c, 10, true);
    assert_eq!(b.points[0].fade, 255);
    // two points span the whole range at once
    b.resize(2, &c);
    b.advance(&c, 20, true);
    assert_eq!(b.points[0].fade, 0);
    assert_eq!(b.points[1].fade, 255);
}

#[test]
fn smallest_surface_keeps_a_positive_radius() {
    let s = SurfaceSize::new(101, 101);
    // 101 / 2 - 50 px = half a pixel
    assert_eq!(radius_upx(&s), 500_000);
    let c = UnitCircle {};
    let (x, y) = to_screen(&c.evaluate(0), &s);
    assert_eq!(x, 50_500_000 + 500_000);
    assert_eq!(y, 50_500_000);
}

#[test]
fn advance_without_cutoff_is_fully_opaque() {
    let c = UnitCircle {};
    let mut b = TrailBuffer::new(SurfaceSize::new(800, 600));
    b.resize(5, &c);
    b.advance(&c, 10, false);
    for p in b.points.iter() {
        assert_eq!(p.fade, 255);
    }
}

#[test]
fn advance_shifts_and_appends_the_curve_point() {
    let c = UnitCircle {};
    let s = SurfaceSize::new(800, 600);
    let mut b = TrailBuffer::new(s);
    b.resize(4, &c);
    b.advance(&c, 10, true);
    let before: Vec<(i64, i64)> = b.points.iter().map(|p| (p.x, p.y)).collect();
    b.advance(&c, 20, true);
    for i in 0..3 {
        assert_eq!((b.points[i].x, b.points[i].y), before[i + 1]);
    }
    let expected = to_screen(&c.evaluate(20), &s);
    assert_eq!((b.points[3].x, b.points[3].y), expected);
}

#[test]
fn rescale_round_trip_stays_within_tolerance() {
    let c = UnitCircle {};
    let mut b = TrailBuffer::new(SurfaceSize::new(800, 600));
    b.resize(12, &c);
    let mut angle: u64 = 0;
    for _ in 0..12 {
        angle += 300;
        b.advance(&c, angle, true);
    }
    let before: Vec<(i64, i64)> = b.points.iter().map(|p| (p.x, p.y)).collect();
    b.rescale(SurfaceSize::new(1024, 1024));
    b.rescale(SurfaceSize::new(800, 600));
    // within 1e-4 px, that is 100 micropixels
    for (i, p) in b.points.iter().enumerate() {
        assert!((p.x - before[i].0).abs() <= 100);
        assert!((p.y - before[i].1).abs() <= 100);
    }
}

#[test]
fn reset_moves_every_point_to_angle_zero() {
    let c = UnitCircle {};
    let s = SurfaceSize::new(800, 600);
    let mut b = TrailBuffer::new(s);
    b.resize(5, &c);
    b.advance(&c, 10, true);
    b.advance(&c, 20, true);
    b.reset(&c);
    let (x0, y0) = to_screen(&c.evaluate(0), &s);
    for p in b.points.iter() {
        assert_eq!((p.x, p.y), (x0, y0));
    }
}
