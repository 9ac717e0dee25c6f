//! Layout arithmetic for the composed knob-with-drag control.
//!
//! The host measures text and moves its cursor; the arithmetic deciding
//! where things go lives here: the centered title offset, the width of
//! the control (four text line heights), the knob radius (half the
//! width), and the drag field's speed (a thousandth of the value range).

use vstd::prelude::*;
use crate::fixed::{Fx, FX_LIM, VAL_LIM, tdiv, tdiv_i128};

verus! {

/// Where the title starts so that it is centered over the control:
/// the cursor plus half the leftover width.
pub fn knob_title_offset(cursor_x: Fx, width: Fx, text_width: Fx) -> (x: Fx)
    requires
        -FX_LIM <= cursor_x.raw <= FX_LIM,
        -FX_LIM <= width.raw <= FX_LIM,
        -FX_LIM <= text_width.raw <= FX_LIM,
    ensures
        x.raw == cursor_x.raw + tdiv(width.raw - text_width.raw, 2),
{
    proof {
        crate::fixed::lemma_tdiv_bounds(
            (width.raw - text_width.raw) as int,
            2,
            2 * (FX_LIM as int),
        );
    }
    Fx { raw: cursor_x.raw + (tdiv_i128((width.raw - text_width.raw) as i128, 2) as i64) }
}

/// The width of the whole control: four text line heights.
pub fn knob_layout_width(line_height: Fx) -> (w: Fx)
    requires
        0 <= line_height.raw <= VAL_LIM,
    ensures
        w.raw == 4 * line_height.raw,
{
    Fx { raw: 4 * line_height.raw }
}

/// The knob radius for a control width: half of it.
pub fn knob_radius_from_width(width: Fx) -> (r: Fx)
    requires
        0 <= width.raw <= FX_LIM,
    ensures
        r.raw == tdiv(width.raw as int, 2),
{
    proof {
        crate::fixed::lemma_div_le_self(width.raw as int, 2);
    }
    Fx { raw: tdiv_i128(width.raw as i128, 2) as i64 }
}

/// The drag field's speed: a thousandth of the value range.
pub fn drag_speed(v_min: Fx, v_max: Fx) -> (s: Fx)
    requires
        -VAL_LIM <= v_min.raw <= VAL_LIM,
        -VAL_LIM <= v_max.raw <= VAL_LIM,
    ensures
        s.raw == tdiv(v_max.raw - v_min.raw, 1000),
{
    proof {
        crate::fixed::lemma_tdiv_bounds(
            (v_max.raw - v_min.raw) as int,
            1000,
            2 * (VAL_LIM as int),
        );
    }
    Fx { raw: tdiv_i128((v_max.raw - v_min.raw) as i128, 1000) as i64 }
}

} // verus!
