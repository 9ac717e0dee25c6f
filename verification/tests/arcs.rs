//! Arc-renderer tests: how `draw_arc` subdivides an arc into Bezier
//! strokes, and how the sub-arcs cover the requested angle range.

use knobs::bezier::Vec2;
use knobs::color::Color;
use knobs::draw::{draw_arc, draw_arc1, Canvas, DrawCmd};
use knobs::fixed::Fx;

fn fx(raw: i64) -> Fx {
    Fx { raw }
}

fn gray() -> Color {
    Color { r: fx(500_000), g: fx(500_000), b: fx(500_000), a: fx(1_000_000) }
}

fn center() -> Vec2 {
    Vec2 { x: fx(50_000_000), y: fx(60_000_000) }
}

/// The seam padding `draw_arc` uses, recomputed for the test.
fn overlap(thickness: i64, radius: i64) -> i64 {
    thickness * radius / 1_000_000 * 3_141_593 / 100_000_000_000
}

#[test]
fn single_bezier_count_yields_one_unsplit_stroke() {
    let mut canvas = Canvas::new();
    draw_arc(&mut canvas, center(), fx(10_000_000), fx(2_356_194), fx(7_068_583), fx(1_000_000), gray(), 16, 1);
    assert_eq!(canvas.cmds.len(), 1);

    // The one stroke is exactly what a direct single-arc call records
    // for the full range.
    let mut direct = Canvas::new();
    draw_arc1(&mut direct, center(), fx(10_000_000), fx(2_356_194), fx(7_068_583), fx(1_000_000), gray(), 16);
    assert_eq!(canvas.cmds[0], direct.cmds[0]);
}

#[test]
fn zero_bezier_count_behaves_like_one() {
    let mut a = Canvas::new();
    draw_arc(&mut a, center(), fx(10_000_000), fx(2_356_194), fx(7_068_583), fx(1_000_000), gray(), 16, 0);
    let mut b = Canvas::new();
    draw_arc(&mut b, center(), fx(10_000_000), fx(2_356_194), fx(7_068_583), fx(1_000_000), gray(), 16, 1);
    assert_eq!(a.cmds, b.cmds);
}

#[test]
fn multi_bezier_count_partitions_the_range() {
    let sa: i64 = 2_356_194;
    let ea: i64 = 7_068_583;
    let radius: i64 = 10_000_000;
    let thickness: i64 = 1_000_000;
    let k: i64 = 4;
    let mut canvas = Canvas::new();
    draw_arc(&mut canvas, center(), fx(radius), fx(sa), fx(ea), fx(thickness), gray(), 16, k as u8);
    assert_eq!(canvas.cmds.len(), 4);

    let ov = overlap(thickness, radius);
    let inc = (ea - sa) / k;
    for j in 0..k {
        // Sub-arc j spans [sa + j*inc, sa + (j+1)*inc] nominally; the
        // emitted stroke widens interior boundaries by the padding and
        // the final stroke lands exactly on the end angle.
        let seg_start = sa + j * inc;
        let seg_end = if j == k - 1 { ea } else { sa + (j + 1) * inc + 2 * ov };
        let mut expect = Canvas::new();
        draw_arc1(&mut expect, center(), fx(radius), fx(seg_start), fx(seg_end), fx(thickness), gray(), 16);
        assert_eq!(canvas.cmds[j as usize], expect.cmds[0], "sub-arc {j}");
    }
}

#[test]
fn strokes_carry_color_thickness_and_segments() {
    let mut canvas = Canvas::new();
    draw_arc(&mut canvas, center(), fx(10_000_000), fx(2_356_194), fx(7_068_583), fx(700_000), gray(), 24, 2);
    assert_eq!(canvas.cmds.len(), 2);
    for cmd in canvas.cmds.iter() {
        match *cmd {
            DrawCmd::Bezier { color, thickness, segments, .. } => {
                assert_eq!(color, gray());
                assert_eq!(thickness.raw, 700_000);
                assert_eq!(segments, 24);
            }
            _ => panic!("expected a Bezier stroke"),
        }
    }
}

#[test]
fn consecutive_strokes_share_boundary_points() {
    // Ignoring the seam padding, stroke j ends where stroke j+1 starts:
    // with a hairline thickness the padding is zero, so the endpoints
    // agree exactly.
    let sa: i64 = 2_356_194;
    let ea: i64 = 7_068_583;
    let mut canvas = Canvas::new();
    draw_arc(&mut canvas, center(), fx(10_000_000), fx(sa), fx(ea), fx(100), gray(), 16, 3);
    assert_eq!(canvas.cmds.len(), 3);
    assert_eq!(overlap(100, 10_000_000), 0);
    let endpoints: Vec<(Vec2, Vec2)> = canvas
        .cmds
        .iter()
        .map(|cmd| match *cmd {
            DrawCmd::Bezier { p0, p3, .. } => (p0, p3),
            _ => panic!("expected a Bezier stroke"),
        })
        .collect();
    assert_eq!(endpoints[0].1, endpoints[1].0);
    assert_eq!(endpoints[1].1, endpoints[2].0);
}
