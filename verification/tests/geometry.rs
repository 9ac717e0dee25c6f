//! Geometry tests: the fixed-point trigonometry, the integer square
//! root, and the Bezier approximation of circular arcs (flattening the
//! produced curve must track the true circle, and more closely for
//! narrower spans).

use knobs::bezier::{bezier_arc, isqrt_u128, Vec2};
use knobs::draw::point_on_circle;
use knobs::fixed::{fx_mul, Fx};
use knobs::trig::cos_sin_fx;

fn fx(raw: i64) -> Fx {
    Fx { raw }
}

#[test]
fn isqrt_small_values() {
    assert_eq!(isqrt_u128(0), 0);
    assert_eq!(isqrt_u128(1), 1);
    assert_eq!(isqrt_u128(3), 1);
    assert_eq!(isqrt_u128(4), 2);
    assert_eq!(isqrt_u128(15), 3);
    assert_eq!(isqrt_u128(16), 4);
    assert_eq!(isqrt_u128(1_000_000), 1000);
}

#[test]
fn isqrt_large_values() {
    assert_eq!(isqrt_u128(1u128 << 64), 1u64 << 32);
    let x: u128 = 10_000_000_000_000_000_000_000_000_000_000_000_000;
    let r = isqrt_u128(x);
    let r = r as u128;
    assert!(r * r <= x);
    assert!((r + 1) * (r + 1) > x);
}

#[test]
fn fx_mul_truncates_toward_zero() {
    assert_eq!(fx_mul(fx(1_500_000), fx(1_500_000)).raw, 2_250_000);
    assert_eq!(fx_mul(fx(-3), fx(500_000)).raw, -1);
    assert_eq!(fx_mul(fx(3), fx(500_000)).raw, 1);
    assert_eq!(fx_mul(fx(0), fx(123_456)).raw, 0);
}

#[test]
fn trig_exact_at_axes() {
    let (c, s) = cos_sin_fx(fx(0));
    assert_eq!(c.raw, 1_000_000);
    assert_eq!(s.raw, 0);
    let (c, s) = cos_sin_fx(fx(1_570_796));
    assert_eq!(c.raw, 0);
    assert_eq!(s.raw, 1_000_000);
    let (c, s) = cos_sin_fx(fx(3_141_593));
    assert_eq!(c.raw, -1_000_000);
    assert_eq!(s.raw, -1);
    let (c, s) = cos_sin_fx(fx(6_283_185));
    assert_eq!(c.raw, 1_000_000);
    assert_eq!(s.raw, 0);
}

#[test]
fn trig_matches_reference_cosine() {
    // Sample angles across several turns, negatives included; the
    // fixed-point series stays within a few millionths of the true value.
    let angles: [i64; 8] = [
        123_456,
        785_398,
        2_356_194,
        4_000_000,
        7_068_583,
        -1_570_796,
        -4_000_000,
        13_000_000,
    ];
    for &a in angles.iter() {
        let (c, s) = cos_sin_fx(fx(a));
        let rad = a as f64 / 1_000_000.0;
        let want_c = rad.cos() * 1_000_000.0;
        let want_s = rad.sin() * 1_000_000.0;
        assert!((c.raw as f64 - want_c).abs() < 6.0, "cos({a}): {} vs {want_c}", c.raw);
        assert!((s.raw as f64 - want_s).abs() < 6.0, "sin({a}): {} vs {want_s}", s.raw);
    }
}

#[test]
fn point_on_circle_lands_on_circle() {
    let center = Vec2 { x: fx(10_000_000), y: fx(-5_000_000) };
    let p = point_on_circle(center, fx(2_000_000), fx(785_398));
    // cos(pi/4) = sin(pi/4) ~ 0.707107; offset ~ 1.414214.
    let dx = (p.x.raw - center.x.raw) as f64 / 1_000_000.0;
    let dy = (p.y.raw - center.y.raw) as f64 / 1_000_000.0;
    assert!((dx - 1.414214).abs() < 1e-4);
    assert!((dy - 1.414214).abs() < 1e-4);
}

/// Flattens the cubic for the arc between the two angles on the unit
/// circle and returns the largest deviation of its radius from one.
fn bezier_chord_error(start_angle: i64, end_angle: i64) -> f64 {
    let center = Vec2 { x: fx(0), y: fx(0) };
    let radius = fx(1_000_000);
    let p0 = point_on_circle(center, radius, fx(start_angle));
    let p3 = point_on_circle(center, radius, fx(end_angle));
    let (c1, c2) = bezier_arc(center, p0, p3);
    let pf = |v: Vec2| (v.x.raw as f64 / 1e6, v.y.raw as f64 / 1e6);
    let (x0, y0) = pf(p0);
    let (x1, y1) = pf(c1);
    let (x2, y2) = pf(c2);
    let (x3, y3) = pf(p3);
    let mut worst: f64 = 0.0;
    let n: i32 = 256;
    for i in 0..=n {
        let t = i as f64 / n as f64;
        let u = 1.0 - t;
        let bx = u * u * u * x0 + 3.0 * u * u * t * x1 + 3.0 * u * t * t * x2 + t * t * t * x3;
        let by = u * u * u * y0 + 3.0 * u * u * t * y1 + 3.0 * u * t * t * y2 + t * t * t * y3;
        let err = ((bx * bx + by * by).sqrt() - 1.0).abs();
        if err > worst {
            worst = err;
        }
    }
    worst
}

#[test]
fn bezier_arc_tracks_circle_and_improves_with_narrower_spans() {
    // A quarter-turn arc stays within a bounded chord error ...
    let err_quarter = bezier_chord_error(785_398, 2_356_194);
    assert!(err_quarter < 1e-3, "quarter-turn error {err_quarter}");
    // ... and an eighth-turn arc is strictly better.
    let err_eighth = bezier_chord_error(785_398, 1_570_796);
    assert!(err_eighth < 1e-4, "eighth-turn error {err_eighth}");
    assert!(err_eighth < err_quarter);
}

#[test]
fn bezier_arc_degenerate_span_falls_back_to_chord() {
    // A zero-length arc has no defined control points (cross == 0); the
    // endpoints come back unchanged.
    let center = Vec2 { x: fx(0), y: fx(0) };
    let p = Vec2 { x: fx(1_000_000), y: fx(0) };
    let (c1, c2) = bezier_arc(center, p, p);
    assert_eq!(c1, p);
    assert_eq!(c2, p);
}
