//! Style and color tests: the command sequences each knob face records,
//! the stepped tick spacing, color selection, and the HSV conversion.

use knobs::bezier::Vec2;
use knobs::color::{hsv2rgb, Color, ColorSet};
use knobs::draw::DrawCmd;
use knobs::fixed::Fx;
use knobs::knob::{Knob, KnobInput};
use knobs::styles::{
    draw_dot_knob, draw_space_knob, draw_stepped_knob, draw_tick_knob, draw_wiper_dot_knob,
    draw_wiper_knob, draw_wiper_only_knob, stepped_tick_angle,
};

fn fx(raw: i64) -> Fx {
    Fx { raw }
}

fn rgba(r: i64, g: i64, b: i64, a: i64) -> Color {
    Color { r: fx(r), g: fx(g), b: fx(b), a: fx(a) }
}

fn set(c: Color) -> ColorSet {
    ColorSet::from(c)
}

fn knob_at(value_raw: i64) -> Knob {
    let mut value = fx(value_raw);
    let input = KnobInput {
        is_active: false,
        is_hovered: false,
        double_clicked: false,
        drag_delta_y: fx(0),
    };
    Knob::new(
        &input,
        &mut value,
        fx(-6_000_000),
        fx(6_000_000),
        fx(0),
        fx(20_000_000),
        Vec2 { x: fx(100_000_000), y: fx(100_000_000) },
    )
}

#[test]
fn wiper_skips_progress_arc_at_minimum() {
    let mut knob = knob_at(-6_000_000);
    draw_wiper_knob(&mut knob, &set(rgba(0, 0, 0, 1)), &set(rgba(1, 0, 0, 1)), &set(rgba(0, 1, 0, 1)));
    // One base circle plus the two-stroke track arc; no progress arc.
    assert_eq!(knob.canvas.cmds.len(), 3);
    assert!(matches!(knob.canvas.cmds[0], DrawCmd::Circle { .. }));
    assert!(matches!(knob.canvas.cmds[1], DrawCmd::Bezier { .. }));
    assert!(matches!(knob.canvas.cmds[2], DrawCmd::Bezier { .. }));
}

#[test]
fn wiper_draws_progress_arc_past_guard() {
    let mut knob = knob_at(0);
    draw_wiper_knob(&mut knob, &set(rgba(0, 0, 0, 1)), &set(rgba(1, 0, 0, 1)), &set(rgba(0, 1, 0, 1)));
    assert_eq!(knob.canvas.cmds.len(), 5);
}

#[test]
fn wiper_only_has_no_center_circle() {
    let mut knob = knob_at(0);
    draw_wiper_only_knob(&mut knob, &set(rgba(1, 0, 0, 1)), &set(rgba(0, 1, 0, 1)));
    assert_eq!(knob.canvas.cmds.len(), 4);
    assert!(knob.canvas.cmds.iter().all(|c| matches!(c, DrawCmd::Bezier { .. })));
}

#[test]
fn wiper_dot_always_draws_marker() {
    let mut knob = knob_at(-6_000_000);
    draw_wiper_dot_knob(&mut knob, &set(rgba(0, 0, 0, 1)), &set(rgba(1, 0, 0, 1)), &set(rgba(0, 1, 0, 1)));
    // Circle, two track strokes, and the dot even at the minimum.
    assert_eq!(knob.canvas.cmds.len(), 4);
    assert!(matches!(knob.canvas.cmds[3], DrawCmd::Circle { .. }));
}

#[test]
fn tick_knob_draws_circle_then_tick() {
    let mut knob = knob_at(0);
    draw_tick_knob(&mut knob, &set(rgba(0, 0, 0, 1)), &set(rgba(1, 0, 0, 1)));
    assert_eq!(knob.canvas.cmds.len(), 2);
    assert!(matches!(knob.canvas.cmds[0], DrawCmd::Circle { .. }));
    assert!(matches!(knob.canvas.cmds[1], DrawCmd::Line { .. }));
}

#[test]
fn dot_knob_draws_circle_then_dot() {
    let mut knob = knob_at(0);
    draw_dot_knob(&mut knob, &set(rgba(0, 0, 0, 1)), &set(rgba(1, 0, 0, 1)));
    assert_eq!(knob.canvas.cmds.len(), 2);
    assert!(matches!(knob.canvas.cmds[1], DrawCmd::Circle { .. }));
}

#[test]
fn space_knob_orbits_appear_past_guard() {
    let mut low = knob_at(-6_000_000);
    draw_space_knob(&mut low, &set(rgba(0, 0, 0, 1)), &set(rgba(1, 0, 0, 1)));
    assert_eq!(low.canvas.cmds.len(), 1);

    let mut mid = knob_at(0);
    draw_space_knob(&mut mid, &set(rgba(0, 0, 0, 1)), &set(rgba(1, 0, 0, 1)));
    // The shrinking circle plus three two-stroke orbit arcs.
    assert_eq!(mid.canvas.cmds.len(), 7);
    // t = 0.5 shrinks the circle radius fraction to 0.25 of the knob
    // radius: 0.25 * 20 px = 5 px.
    match mid.canvas.cmds[0] {
        DrawCmd::Circle { radius, .. } => assert_eq!(radius.raw, 5_000_000),
        _ => panic!("expected the shrinking circle first"),
    }
}

#[test]
fn stepped_tick_angles_divide_the_sweep() {
    // steps = 5: ticks at angle_min + k/4 of the sweep, truncated.
    let want: [i64; 5] = [2_356_194, 3_534_291, 4_712_388, 5_890_485, 7_068_583];
    for (k, w) in want.iter().enumerate() {
        assert_eq!(stepped_tick_angle(k as u32, 5).raw, *w, "tick {k}");
    }
}

#[test]
fn stepped_knob_draws_ticks_then_circle_and_dot() {
    let mut knob = knob_at(0);
    draw_stepped_knob(&mut knob, 5, &set(rgba(0, 0, 0, 1)), &set(rgba(1, 0, 0, 1)), &set(rgba(0, 1, 0, 1)));
    assert_eq!(knob.canvas.cmds.len(), 7);
    for j in 0..5 {
        assert!(matches!(knob.canvas.cmds[j], DrawCmd::Line { .. }), "tick {j}");
    }
    assert!(matches!(knob.canvas.cmds[5], DrawCmd::Circle { .. }));
    assert!(matches!(knob.canvas.cmds[6], DrawCmd::Circle { .. }));
}

#[test]
fn draw_circle_records_centered_circle() {
    let mut knob = knob_at(0);
    knob.draw_circle(fx(500_000), &set(rgba(111, 0, 0, 1)), true, 20);
    match knob.canvas.cmds[0] {
        DrawCmd::Circle { center, radius, color, filled, segments } => {
            assert_eq!(center, knob.center);
            // Half the 20 px knob radius.
            assert_eq!(radius.raw, 10_000_000);
            assert_eq!(color, rgba(111, 0, 0, 1));
            assert!(filled);
            assert_eq!(segments, 20);
        }
        _ => panic!("expected a circle"),
    }
}

#[test]
fn draw_tick_runs_outward_along_the_angle() {
    let mut knob = knob_at(-6_000_000);
    // At the minimum the angle is 0.75 pi: down-left in screen space.
    knob.draw_tick(fx(400_000), fx(800_000), fx(100_000), knob.angle, &set(rgba(1, 2, 3, 4)));
    match knob.canvas.cmds[0] {
        DrawCmd::Line { p0, p1, thickness, .. } => {
            // p0 sits at the outer fraction, p1 at the inner one.
            assert!(p0.x.raw < p1.x.raw && p1.x.raw < knob.center.x.raw);
            assert!(p0.y.raw > p1.y.raw && p1.y.raw > knob.center.y.raw);
            // A tenth of the 20 px radius.
            assert_eq!(thickness.raw, 2_000_000);
        }
        _ => panic!("expected a line"),
    }
}

#[test]
fn active_state_picks_active_color_in_draw_calls() {
    let mut value = fx(0);
    let input = KnobInput {
        is_active: true,
        is_hovered: false,
        double_clicked: false,
        drag_delta_y: fx(0),
    };
    let mut knob = Knob::new(
        &input,
        &mut value,
        fx(-6_000_000),
        fx(6_000_000),
        fx(0),
        fx(20_000_000),
        Vec2 { x: fx(0), y: fx(0) },
    );
    let cs = ColorSet::new(rgba(1, 0, 0, 1), rgba(0, 1, 0, 1), rgba(0, 0, 1, 1));
    knob.draw_circle(fx(500_000), &cs, true, 20);
    match knob.canvas.cmds[0] {
        DrawCmd::Circle { color, .. } => assert_eq!(color, rgba(0, 0, 1, 1)),
        _ => panic!("expected a circle"),
    }
}

#[test]
fn from_units_scales_whole_numbers() {
    assert_eq!(Fx::from_units(-6).raw, -6_000_000);
    assert_eq!(Fx::from_units(0).raw, 0);
    assert_eq!(Fx::from_units(1000).raw, 1_000_000_000);
}

#[test]
fn color_selection_prefers_active_then_hovered() {
    let cs = ColorSet::new(rgba(1, 0, 0, 1), rgba(0, 1, 0, 1), rgba(0, 0, 1, 1));
    assert_eq!(cs.color_for(true, true), rgba(0, 0, 1, 1));
    assert_eq!(cs.color_for(false, true), rgba(0, 1, 0, 1));
    assert_eq!(cs.color_for(false, false), rgba(1, 0, 0, 1));
}

#[test]
fn colorset_from_single_color_fills_all_states() {
    let c = rgba(250_000, 500_000, 750_000, 1_000_000);
    let cs = ColorSet::from(c);
    assert_eq!(cs.base, c);
    assert_eq!(cs.hovered, c);
    assert_eq!(cs.active, c);
}

#[test]
fn hsv2rgb_white() {
    let out = hsv2rgb(rgba(0, 0, 1_000_000, 1_000_000));
    assert_eq!(out, rgba(1_000_000, 1_000_000, 1_000_000, 1_000_000));
}

#[test]
fn hsv2rgb_hue_wraps_at_one() {
    let a = hsv2rgb(rgba(1_000_000, 800_000, 900_000, 1_000_000));
    let b = hsv2rgb(rgba(0, 800_000, 900_000, 1_000_000));
    assert_eq!(a, b);
}

#[test]
fn hsv2rgb_primaries() {
    // Pure red at hue 0.
    assert_eq!(
        hsv2rgb(rgba(0, 1_000_000, 1_000_000, 1_000_000)),
        rgba(1_000_000, 0, 0, 1_000_000),
    );
    // A third of the way round is green, up to truncation residue.
    let g = hsv2rgb(rgba(333_333, 1_000_000, 1_000_000, 1_000_000));
    assert_eq!(g, rgba(2, 1_000_000, 0, 1_000_000));
}

#[test]
fn hsv2rgb_clamps_inputs_and_passes_alpha() {
    let out = hsv2rgb(rgba(-500_000, 2_000_000, 2_000_000, 250_000));
    // Clamped to hue 0, full saturation and value: red, alpha kept.
    assert_eq!(out, rgba(1_000_000, 0, 0, 250_000));
}
