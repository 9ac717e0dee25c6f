//! Interaction-model tests: the drag update, double-click reset,
//! clamping, and the value-to-angle mapping.

use knobs::bezier::Vec2;
use knobs::fixed::Fx;
use knobs::knob::{
    knob_angle, knob_control, knob_t, Knob, KnobInput, ANGLE_MAX_FX, ANGLE_MIN_FX,
};

fn fx(raw: i64) -> Fx {
    Fx { raw }
}

fn idle_input() -> KnobInput {
    KnobInput {
        is_active: false,
        is_hovered: false,
        double_clicked: false,
        drag_delta_y: fx(0),
    }
}

#[test]
fn drag_moves_against_delta() {
    // v_min = -6, v_max = 6, value = 0; a drag of -20 px at step
    // (12 / 200) = 0.06 moves the value to 0 - (-20 * 0.06) = 1.2.
    let mut value = fx(0);
    let input = KnobInput {
        is_active: true,
        is_hovered: true,
        double_clicked: false,
        drag_delta_y: fx(-20_000_000),
    };
    let outcome = knob_control(&input, &mut value, fx(-6_000_000), fx(6_000_000), fx(0));
    assert_eq!(value.raw, 1_200_000);
    assert!(outcome.value_changed);
    assert!(outcome.reset_drag);
}

#[test]
fn drag_clamps_to_bounds() {
    let mut value = fx(0);
    let input = KnobInput {
        is_active: true,
        is_hovered: true,
        double_clicked: false,
        drag_delta_y: fx(-2_000_000_000),
    };
    knob_control(&input, &mut value, fx(-6_000_000), fx(6_000_000), fx(0));
    assert_eq!(value.raw, 6_000_000);

    let mut value = fx(0);
    let input = KnobInput {
        is_active: true,
        is_hovered: true,
        double_clicked: false,
        drag_delta_y: fx(2_000_000_000),
    };
    knob_control(&input, &mut value, fx(-6_000_000), fx(6_000_000), fx(0));
    assert_eq!(value.raw, -6_000_000);
}

#[test]
fn double_click_resets_and_ignores_drag() {
    let mut value = fx(4_500_000);
    let input = KnobInput {
        is_active: true,
        is_hovered: true,
        double_clicked: true,
        drag_delta_y: fx(-20_000_000),
    };
    let outcome = knob_control(&input, &mut value, fx(-6_000_000), fx(6_000_000), fx(1_000_000));
    assert_eq!(value.raw, 1_000_000);
    assert!(outcome.value_changed);
    assert!(!outcome.reset_drag);
}

#[test]
fn inactive_knob_keeps_value() {
    let mut value = fx(2_000_000);
    let mut input = idle_input();
    input.drag_delta_y = fx(-20_000_000);
    let outcome = knob_control(&input, &mut value, fx(-6_000_000), fx(6_000_000), fx(0));
    assert_eq!(value.raw, 2_000_000);
    assert!(!outcome.value_changed);
    assert!(!outcome.reset_drag);
}

#[test]
fn zero_delta_keeps_value() {
    let mut value = fx(2_000_000);
    let mut input = idle_input();
    input.is_active = true;
    let outcome = knob_control(&input, &mut value, fx(-6_000_000), fx(6_000_000), fx(0));
    assert_eq!(value.raw, 2_000_000);
    assert!(!outcome.value_changed);
}

#[test]
fn double_click_while_inactive_does_nothing() {
    let mut value = fx(2_000_000);
    let mut input = idle_input();
    input.double_clicked = true;
    let outcome = knob_control(&input, &mut value, fx(-6_000_000), fx(6_000_000), fx(0));
    assert_eq!(value.raw, 2_000_000);
    assert!(!outcome.value_changed);
}

#[test]
fn angle_hits_sweep_endpoints() {
    let v_min = fx(-6_000_000);
    let v_max = fx(6_000_000);
    let t0 = knob_t(v_min, v_min, v_max);
    assert_eq!(t0.raw, 0);
    assert_eq!(knob_angle(t0).raw, ANGLE_MIN_FX);
    let t1 = knob_t(v_max, v_min, v_max);
    assert_eq!(t1.raw, 1_000_000);
    assert_eq!(knob_angle(t1).raw, ANGLE_MAX_FX);
}

#[test]
fn angle_midpoint() {
    let t = knob_t(fx(0), fx(-6_000_000), fx(6_000_000));
    assert_eq!(t.raw, 500_000);
    assert_eq!(knob_angle(t).raw, 4_712_388);
}

#[test]
fn knob_new_derives_geometry_and_snapshots_value() {
    let mut value = fx(0);
    let input = idle_input();
    let knob = Knob::new(
        &input,
        &mut value,
        fx(-6_000_000),
        fx(6_000_000),
        fx(0),
        fx(20_000_000),
        Vec2 { x: fx(100_000_000), y: fx(200_000_000) },
    );
    assert_eq!(knob.center.x.raw, 120_000_000);
    assert_eq!(knob.center.y.raw, 220_000_000);
    assert_eq!(knob.t.raw, 500_000);
    assert_eq!(knob.angle.raw, 4_712_388);
    assert_eq!(knob.angle_min.raw, ANGLE_MIN_FX);
    assert_eq!(knob.angle_max.raw, ANGLE_MAX_FX);
    assert_eq!(knob.value.raw, 0);
    assert!(!knob.value_changed);
    assert_eq!(knob.canvas.cmds.len(), 0);
    let (c, s) = knobs::trig::cos_sin_fx(knob.angle);
    assert_eq!(knob.angle_cos, c);
    assert_eq!(knob.angle_sin, s);
}

#[test]
fn knob_new_applies_drag_and_derives_angle_from_updated_value() {
    let mut value = fx(0);
    let input = KnobInput {
        is_active: true,
        is_hovered: true,
        double_clicked: false,
        drag_delta_y: fx(-20_000_000),
    };
    let knob = Knob::new(
        &input,
        &mut value,
        fx(-6_000_000),
        fx(6_000_000),
        fx(0),
        fx(20_000_000),
        Vec2 { x: fx(0), y: fx(0) },
    );
    // The drag moves the value to 1.2 first; the angle reflects the
    // updated value: t = (1.2 + 6) / 12 = 0.6.
    assert_eq!(value.raw, 1_200_000);
    assert_eq!(knob.value.raw, 1_200_000);
    assert_eq!(knob.t.raw, 600_000);
    assert_eq!(knob.angle.raw, 5_183_627);
    assert!(knob.value_changed);
    assert!(knob.reset_drag);
}

#[test]
fn knob_new_renders_double_click_reset_immediately() {
    // Reset from the minimum to a default equal to the maximum: the
    // frame's angle lands on the top of the sweep, not on the stale
    // minimum.
    let mut value = fx(-6_000_000);
    let input = KnobInput {
        is_active: true,
        is_hovered: true,
        double_clicked: true,
        drag_delta_y: fx(-20_000_000),
    };
    let knob = Knob::new(
        &input,
        &mut value,
        fx(-6_000_000),
        fx(6_000_000),
        fx(6_000_000),
        fx(20_000_000),
        Vec2 { x: fx(0), y: fx(0) },
    );
    assert_eq!(value.raw, 6_000_000);
    assert_eq!(knob.value.raw, 6_000_000);
    assert_eq!(knob.t.raw, 1_000_000);
    assert_eq!(knob.angle.raw, ANGLE_MAX_FX);
    assert!(knob.value_changed);
    assert!(!knob.reset_drag);
}
