//! Layout tests for the composed knob-with-drag control.

use knobs::fixed::Fx;
use knobs::layout::{drag_speed, knob_layout_width, knob_radius_from_width, knob_title_offset};

fn fx(raw: i64) -> Fx {
    Fx { raw }
}

#[test]
fn title_centers_over_the_control() {
    // Cursor at 100, control 80 wide, text 30 wide: the title starts
    // 25 into the control.
    let x = knob_title_offset(fx(100_000_000), fx(80_000_000), fx(30_000_000));
    assert_eq!(x.raw, 125_000_000);
    // A title wider than the control shifts left.
    let x = knob_title_offset(fx(100_000_000), fx(80_000_000), fx(90_000_000));
    assert_eq!(x.raw, 95_000_000);
}

#[test]
fn control_width_is_four_line_heights() {
    assert_eq!(knob_layout_width(fx(18_000_000)).raw, 72_000_000);
    assert_eq!(knob_radius_from_width(fx(72_000_000)).raw, 36_000_000);
}

#[test]
fn drag_field_speed_is_a_thousandth_of_the_range() {
    assert_eq!(drag_speed(fx(-6_000_000), fx(6_000_000)).raw, 12_000);
}
