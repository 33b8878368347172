use polar_roses::trig::{sin_fixed, cos_fixed, UNIT};
use polar_roses::curve::{UnitCircle, RoseCurve, CurveFunction, curve_init};

#[test]
fn sine_cardinal_points_are_exact() {
    assert_eq!(sin_fixed(0), 0);
    assert_eq!(sin_fixed(900), UNIT);
    assert_eq!(sin_fixed(1800), 0);
    assert_eq!(sin_fixed(2700), -UNIT);
    assert_eq!(cos_fixed(0), UNIT);
    assert_eq!(cos_fixed(900), 0);
    assert_eq!(cos_fixed(1800), -UNIT);
    assert_eq!(cos_fixed(2700), 0);
}

#[test]
fn sine_stays_on_unit_interval_and_wraps() {
    let mut a: u64 = 0;
    while a < 7200 {
        let s = sin_fixed(a);
        assert!(-UNIT <= s && s <= UNIT);
        assert_eq!(s, sin_fixed(a + 3600));
        a += 37;
    }
    // an odd wave: the second half turn mirrors the first
    assert_eq!(sin_fixed(2100), -sin_fixed(300));
}

#[test]
fn circle_evaluate_hits_cardinal_points() {
    let c = UnitCircle {};
    let p0 = c.evaluate(0);
    assert_eq!((p0.x, p0.y), (UNIT, 0));
    let p90 = c.evaluate(900);
    assert_eq!((p90.x, p90.y), (0, UNIT));
    let p180 = c.evaluate(1800);
    assert_eq!((p180.x, p180.y), (-UNIT, 0));
}

#[test]
fn sample_count_is_rounded_quotient_plus_one() {
    let c = UnitCircle {};
    let (limit, samples) = curve_init(&c, 10);
    assert_eq!(limit, 3600);
    assert_eq!(samples, 361);
    // 3600 / 7 = 514.28..., rounds down to 514
    let (_, samples7) = curve_init(&c, 7);
    assert_eq!(samples7, 515);
    // 3600 / 1000 = 3.6, rounds up to 4
    let (_, coarse) = curve_init(&c, 1000);
    assert_eq!(coarse, 5);
}

#[test]
fn rose_period_follows_parity() {
    // parities differ: a full 360 * d turn is needed
    assert_eq!(RoseCurve::new(4, 5).angle_limit(), 3600 * 5);
    // parities match (odd, odd): 180 * d closes the rose
    assert_eq!(RoseCurve::new(3, 5).angle_limit(), 1800 * 5);
    // parities match (even, even)
    assert_eq!(RoseCurve::new(2, 4).angle_limit(), 1800 * 4);
}

#[test]
fn rose_evaluate_starts_on_the_unit_circle() {
    let r = RoseCurve::new(4, 5);
    let p = r.evaluate(0);
    assert_eq!((p.x, p.y), (UNIT, 0));
    // every sample stays on the unit disk's bounding square
    let mut a: u64 = 0;
    while a < 18000 {
        let q = r.evaluate(a);
        assert!(-UNIT <= q.x && q.x <= UNIT);
        assert!(-UNIT <= q.y && q.y <= UNIT);
        a += 111;
    }
}
