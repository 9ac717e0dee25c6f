//! The knob core: value-to-angle mapping, pointer interaction, and the
//! drawing primitives every style is built from.
//!
//! A [`Knob`] is constructed fresh every frame from the bound value and a
//! snapshot of the host's pointer state ([`KnobInput`]); it performs one
//! interaction update (possibly mutating the value through the `&mut`
//! parameter), derives its angle, and records draw commands on its own
//! [`Canvas`].  All persistent state lives with the caller.

use vstd::prelude::*;
use crate::fixed::{
    Fx, FX_ONE, VAL_LIM, LEN_LIM, POS_LIM, ANG_LIM, tdiv, clamp, tdiv_i128, fx_mul,
    lemma_tdiv_bounds, lemma_mul_magnitude,
};
use crate::trig::{spec_cos, spec_sin, cos_sin_fx};
use crate::bezier::Vec2;
use crate::color::{ColorSet, spec_color_for};
use crate::draw::{
    Canvas, DrawCmd, spec_point_on_circle, point_on_circle, draw_arc, spec_arc_cmds, center_ok,
};

verus! {

/// Start of the angular range: `0.75 * pi` in raw micro-radians.  Every
/// knob maps its value onto the fixed 270-degree sweep from here.
pub const ANGLE_MIN_FX: i64 = 2_356_194;

/// End of the angular range: `2.25 * pi` in raw micro-radians.
pub const ANGLE_MAX_FX: i64 = 7_068_583;

/// The sweep `ANGLE_MAX_FX - ANGLE_MIN_FX` (`1.5 * pi`).
pub const ANGLE_SWEEP_FX: i64 = 4_712_389;

/// The host's pointer state for the frame, sampled once: whether the
/// knob's hit-region is the active interaction target, whether it is
/// hovered, whether the primary button was double-clicked this frame,
/// and the accumulated vertical drag delta (the host applies its own
/// deadzone threshold before reporting it).
#[derive(Clone, Copy, PartialEq, Eq, Structural, Debug)]
pub struct KnobInput {
    pub is_active: bool,
    pub is_hovered: bool,
    pub double_clicked: bool,
    pub drag_delta_y: Fx,
}

/// Machine limit on the reported drag delta.
pub open spec fn input_ok(input: KnobInput) -> bool {
    -VAL_LIM <= input.drag_delta_y.raw <= VAL_LIM
}

/// Machine limits and ordering on a knob's value bounds.
pub open spec fn knob_params_ok(v_min: int, v_max: int, v_default: int) -> bool {
    &&& -VAL_LIM <= v_min
    &&& v_min < v_max
    &&& v_max <= VAL_LIM
    &&& v_min <= v_default <= v_max
}

/// One two-hundredth of the value range: the value change per raw unit
/// of drag.
pub open spec fn spec_drag_step(v_min: int, v_max: int) -> int {
    tdiv(v_max - v_min, 200)
}

/// The interaction update: a double-click on the active knob resets to
/// the default (and ignores any drag delta this frame); otherwise an
/// active drag moves the value against the vertical delta (drag up to
/// increase) and clamps it to the bounds; otherwise nothing changes.
pub open spec fn spec_next_value(
    input: KnobInput,
    value: int,
    v_min: int,
    v_max: int,
    v_default: int,
) -> int {
    if input.double_clicked && input.is_active {
        v_default
    } else if input.is_active && input.drag_delta_y.raw != 0 {
        clamp(
            value - tdiv(
                input.drag_delta_y.raw * spec_drag_step(v_min, v_max),
                FX_ONE as int,
            ),
            v_min,
            v_max,
        )
    } else {
        value
    }
}

/// Whether the update reports a change.
pub open spec fn spec_value_changed(input: KnobInput) -> bool {
    (input.double_clicked && input.is_active) || (input.is_active && input.drag_delta_y.raw != 0)
}

/// Whether the host must reset its drag accumulator, so that deltas are
/// consumed incrementally across frames.
pub open spec fn spec_resets_drag(input: KnobInput) -> bool {
    !(input.double_clicked && input.is_active) && input.is_active && input.drag_delta_y.raw != 0
}

/// What [`knob_control`] asks of the host after the update.
#[derive(Clone, Copy, PartialEq, Eq, Structural, Debug)]
pub struct KnobOutcome {
    pub value_changed: bool,
    pub reset_drag: bool,
}

/// Performs the frame's interaction update on the bound value.
pub fn knob_control(
    input: &KnobInput,
    p_value: &mut Fx,
    v_min: Fx,
    v_max: Fx,
    v_default: Fx,
) -> (r: KnobOutcome)
    requires
        knob_params_ok(v_min.raw as int, v_max.raw as int, v_default.raw as int),
        input_ok(*input),
        -VAL_LIM <= old(p_value).raw <= VAL_LIM,
    ensures
        final(p_value).raw == spec_next_value(
            *input,
            old(p_value).raw as int,
            v_min.raw as int,
            v_max.raw as int,
            v_default.raw as int,
        ),
        r.value_changed == spec_value_changed(*input),
        r.reset_drag == spec_resets_drag(*input),
{
    if input.double_clicked && input.is_active {
        *p_value = v_default;
        KnobOutcome { value_changed: true, reset_drag: false }
    } else if input.is_active && input.drag_delta_y.raw != 0 {
        let step: i64 = tdiv_i128((v_max.raw - v_min.raw) as i128, 200) as i64;
        proof {
            lemma_tdiv_bounds(
                (v_max.raw - v_min.raw) as int,
                200,
                2 * (VAL_LIM as int),
            );
            lemma_mul_magnitude(
                input.drag_delta_y.raw as int,
                step as int,
                VAL_LIM as int,
                10_000_000,
            );
            lemma_tdiv_bounds(
                (input.drag_delta_y.raw as int) * (step as int),
                FX_ONE as int,
                (VAL_LIM as int) * 10_000_000,
            );
        }
        let scaled: i64 = tdiv_i128(
            (input.drag_delta_y.raw as i128) * (step as i128),
            1_000_000,
        ) as i64;
        let moved: i64 = p_value.raw - scaled;
        let clamped: i64 = if moved < v_min.raw {
            v_min.raw
        } else if moved > v_max.raw {
            v_max.raw
        } else {
            moved
        };
        *p_value = Fx { raw: clamped };
        KnobOutcome { value_changed: true, reset_drag: true }
    } else {
        KnobOutcome { value_changed: false, reset_drag: false }
    }
}

/// A double-click on the active knob restores the default whatever drag
/// delta arrives in the same frame.
pub proof fn lemma_double_click_reset(
    input: KnobInput,
    value: int,
    v_min: int,
    v_max: int,
    v_default: int,
)
    requires
        input.is_active,
        input.double_clicked,
    ensures
        forall|d: Fx|
            spec_next_value(
                (KnobInput {
                    is_active: input.is_active,
                    is_hovered: input.is_hovered,
                    double_clicked: input.double_clicked,
                    drag_delta_y: d,
                }),
                value,
                v_min,
                v_max,
                v_default,
            ) == v_default,
{
}

/// The normalized position `t = (value - v_min) / (v_max - v_min)` in
/// raw units of one; not clamped, so values outside the bounds map
/// outside `[0, FX_ONE]`.
pub open spec fn spec_knob_t(value: int, v_min: int, v_max: int) -> int {
    tdiv((value - v_min) * FX_ONE, v_max - v_min)
}

/// The angle for a normalized position: `angle_min + sweep * t`.
pub open spec fn spec_knob_angle(t: int) -> int {
    ANGLE_MIN_FX + tdiv((ANGLE_SWEEP_FX as int) * t, FX_ONE as int)
}

/// For any value within the bounds the knob's angle lies within the
/// fixed sweep; the bounds themselves map exactly onto its endpoints.
pub proof fn lemma_angle_in_range(value: int, v_min: int, v_max: int)
    requires
        v_min < v_max,
        v_min <= value <= v_max,
    ensures
        0 <= spec_knob_t(value, v_min, v_max) <= FX_ONE,
        ANGLE_MIN_FX <= spec_knob_angle(spec_knob_t(value, v_min, v_max)) <= ANGLE_MAX_FX,
        value == v_min ==> spec_knob_angle(spec_knob_t(value, v_min, v_max)) == ANGLE_MIN_FX,
        value == v_max ==> spec_knob_angle(spec_knob_t(value, v_min, v_max)) == ANGLE_MAX_FX,
{
    let d = v_max - v_min;
    let num = (value - v_min) * (FX_ONE as int);
    vstd::arithmetic::mul::lemma_mul_inequality(0, value - v_min, FX_ONE as int);
    vstd::arithmetic::mul::lemma_mul_inequality(value - v_min, d, FX_ONE as int);
    vstd::arithmetic::mul::lemma_mul_basics(FX_ONE as int);
    vstd::arithmetic::div_mod::lemma_div_pos_is_pos(num, d);
    vstd::arithmetic::div_mod::lemma_div_is_ordered(num, d * (FX_ONE as int), d);
    vstd::arithmetic::mul::lemma_mul_is_commutative(d, FX_ONE as int);
    vstd::arithmetic::div_mod::lemma_div_multiples_vanish(FX_ONE as int, d);
    let t = spec_knob_t(value, v_min, v_max);
    vstd::arithmetic::mul::lemma_mul_inequality(0, t, ANGLE_SWEEP_FX as int);
    vstd::arithmetic::mul::lemma_mul_inequality(t, FX_ONE as int, ANGLE_SWEEP_FX as int);
    vstd::arithmetic::mul::lemma_mul_is_commutative(t, ANGLE_SWEEP_FX as int);
    vstd::arithmetic::mul::lemma_mul_is_commutative(FX_ONE as int, ANGLE_SWEEP_FX as int);
    vstd::arithmetic::mul::lemma_mul_basics(ANGLE_SWEEP_FX as int);
    vstd::arithmetic::div_mod::lemma_div_pos_is_pos((ANGLE_SWEEP_FX as int) * t, FX_ONE as int);
    vstd::arithmetic::div_mod::lemma_div_is_ordered(
        (ANGLE_SWEEP_FX as int) * t,
        (FX_ONE as int) * (ANGLE_SWEEP_FX as int),
        FX_ONE as int,
    );
    vstd::arithmetic::div_mod::lemma_div_multiples_vanish(ANGLE_SWEEP_FX as int, FX_ONE as int);
    if value == v_min {
        vstd::arithmetic::mul::lemma_mul_basics(d);
        vstd::arithmetic::div_mod::lemma_div_basics_1(d);
        vstd::arithmetic::div_mod::lemma_div_basics_1(FX_ONE as int);
    }
}

/// Computes [`spec_knob_t`].
pub fn knob_t(value: Fx, v_min: Fx, v_max: Fx) -> (t: Fx)
    requires
        v_min.raw < v_max.raw,
        -VAL_LIM <= v_min.raw,
        v_max.raw <= VAL_LIM,
        -VAL_LIM <= value.raw <= VAL_LIM,
    ensures
        t.raw == spec_knob_t(value.raw as int, v_min.raw as int, v_max.raw as int),
        -2_000_000_000_000_000 <= t.raw <= 2_000_000_000_000_000,
{
    proof {
        lemma_tdiv_bounds(
            ((value.raw - v_min.raw) as int) * (FX_ONE as int),
            (v_max.raw - v_min.raw) as int,
            2_000_000_000_000_000,
        );
        vstd::arithmetic::div_mod::lemma_div_is_ordered_by_denominator(
            2_000_000_000_000_000,
            1,
            (v_max.raw - v_min.raw) as int,
        );
        vstd::arithmetic::div_mod::lemma_div_basics_2(2_000_000_000_000_000);
    }
    let num: i128 = ((value.raw - v_min.raw) as i128) * 1_000_000;
    Fx { raw: tdiv_i128(num, (v_max.raw - v_min.raw) as i128) as i64 }
}

/// Computes [`spec_knob_angle`]; the result stays within the angle
/// machine limit.
pub fn knob_angle(t: Fx) -> (a: Fx)
    requires
        -2_000_000_000_000_000 <= t.raw <= 2_000_000_000_000_000,
    ensures
        a.raw == spec_knob_angle(t.raw as int),
        -9_500_000_000_000_000 <= a.raw <= 9_500_000_000_000_000,
{
    proof {
        lemma_mul_magnitude(
            ANGLE_SWEEP_FX as int,
            t.raw as int,
            ANGLE_SWEEP_FX as int,
            2_000_000_000_000_000,
        );
        lemma_tdiv_bounds(
            (ANGLE_SWEEP_FX as int) * (t.raw as int),
            FX_ONE as int,
            (ANGLE_SWEEP_FX as int) * 2_000_000_000_000_000,
        );
    }
    let prod: i128 = (ANGLE_SWEEP_FX as i128) * (t.raw as i128);
    Fx { raw: ANGLE_MIN_FX + (tdiv_i128(prod, 1_000_000) as i64) }
}

/// A knob for one frame: the updated value snapshot, its configuration,
/// the geometry derived from them, the interaction state, and the canvas
/// the styles draw onto.
pub struct Knob {
    pub value: Fx,
    pub v_min: Fx,
    pub v_max: Fx,
    pub v_default: Fx,
    pub radius: Fx,
    pub screen_pos: Vec2,
    pub value_changed: bool,
    pub reset_drag: bool,
    pub center: Vec2,
    pub is_active: bool,
    pub is_hovered: bool,
    pub angle_min: Fx,
    pub angle_max: Fx,
    pub t: Fx,
    pub angle: Fx,
    pub angle_cos: Fx,
    pub angle_sin: Fx,
    pub canvas: Canvas,
}

impl Knob {
    /// Geometric well-formedness: what every draw method relies on.
    pub open spec fn wf(self) -> bool {
        &&& knob_params_ok(self.v_min.raw as int, self.v_max.raw as int, self.v_default.raw as int)
        &&& 0 < self.radius.raw <= LEN_LIM
        &&& center_ok(self.center)
        &&& -9_500_000_000_000_000 <= self.angle.raw <= 9_500_000_000_000_000
        &&& -VAL_LIM <= self.value.raw <= VAL_LIM
        &&& self.angle_min.raw == ANGLE_MIN_FX
        &&& self.angle_max.raw == ANGLE_MAX_FX
    }

    /// All configuration and state fields agree; only the canvas may
    /// differ.
    pub open spec fn same_but_canvas(self, o: Knob) -> bool {
        &&& self.value == o.value
        &&& self.v_min == o.v_min
        &&& self.v_max == o.v_max
        &&& self.v_default == o.v_default
        &&& self.radius == o.radius
        &&& self.screen_pos == o.screen_pos
        &&& self.value_changed == o.value_changed
        &&& self.reset_drag == o.reset_drag
        &&& self.center == o.center
        &&& self.is_active == o.is_active
        &&& self.is_hovered == o.is_hovered
        &&& self.angle_min == o.angle_min
        &&& self.angle_max == o.angle_max
        &&& self.t == o.t
        &&& self.angle == o.angle
        &&& self.angle_cos == o.angle_cos
        &&& self.angle_sin == o.angle_sin
    }

    /// Builds the frame's knob: runs the interaction update on the bound
    /// value, then derives `t` and the angle from the updated value, so
    /// the frame renders what it just stored.
    pub fn new(
        input: &KnobInput,
        p_value: &mut Fx,
        v_min: Fx,
        v_max: Fx,
        v_default: Fx,
        radius: Fx,
        screen_pos: Vec2,
    ) -> (k: Knob)
        requires
            knob_params_ok(v_min.raw as int, v_max.raw as int, v_default.raw as int),
            input_ok(*input),
            -VAL_LIM <= old(p_value).raw <= VAL_LIM,
            0 < radius.raw <= LEN_LIM,
            -(POS_LIM - LEN_LIM) <= screen_pos.x.raw <= POS_LIM - LEN_LIM,
            -(POS_LIM - LEN_LIM) <= screen_pos.y.raw <= POS_LIM - LEN_LIM,
        ensures
            k.wf(),
            final(p_value).raw == spec_next_value(
                *input,
                old(p_value).raw as int,
                v_min.raw as int,
                v_max.raw as int,
                v_default.raw as int,
            ),
            k.value == *final(p_value),
            k.value_changed == spec_value_changed(*input),
            k.reset_drag == spec_resets_drag(*input),
            k.v_min == v_min,
            k.v_max == v_max,
            k.v_default == v_default,
            k.radius == radius,
            k.screen_pos == screen_pos,
            k.center.x.raw == screen_pos.x.raw + radius.raw,
            k.center.y.raw == screen_pos.y.raw + radius.raw,
            k.is_active == input.is_active,
            k.is_hovered == input.is_hovered,
            k.angle_min.raw == ANGLE_MIN_FX,
            k.angle_max.raw == ANGLE_MAX_FX,
            k.t.raw == spec_knob_t(final(p_value).raw as int, v_min.raw as int, v_max.raw as int),
            k.angle.raw == spec_knob_angle(k.t.raw as int),
            v_min.raw <= final(p_value).raw <= v_max.raw ==> ANGLE_MIN_FX <= k.angle.raw
                <= ANGLE_MAX_FX,
            final(p_value).raw == v_min.raw ==> k.angle.raw == ANGLE_MIN_FX,
            final(p_value).raw == v_max.raw ==> k.angle.raw == ANGLE_MAX_FX,
            k.angle_cos.raw == spec_cos(k.angle.raw as int),
            k.angle_sin.raw == spec_sin(k.angle.raw as int),
            k.canvas.cmds@ == Seq::<DrawCmd>::empty(),
    {
        let outcome = knob_control(input, p_value, v_min, v_max, v_default);
        let t = knob_t(*p_value, v_min, v_max);
        let angle = knob_angle(t);
        proof {
            if v_min.raw <= p_value.raw <= v_max.raw {
                lemma_angle_in_range(p_value.raw as int, v_min.raw as int, v_max.raw as int);
            }
        }
        let (angle_cos, angle_sin) = cos_sin_fx(angle);
        let value = *p_value;
        Knob {
            value,
            v_min,
            v_max,
            v_default,
            radius,
            screen_pos,
            value_changed: outcome.value_changed,
            reset_drag: outcome.reset_drag,
            center: Vec2 {
                x: Fx { raw: screen_pos.x.raw + radius.raw },
                y: Fx { raw: screen_pos.y.raw + radius.raw },
            },
            is_active: input.is_active,
            is_hovered: input.is_hovered,
            angle_min: Fx { raw: ANGLE_MIN_FX },
            angle_max: Fx { raw: ANGLE_MAX_FX },
            t,
            angle,
            angle_cos,
            angle_sin,
            canvas: Canvas::new(),
        }
    }
}

/// A fraction of the knob radius, in raw units; the circle command's
/// radius and the dot's offset radius are both formed this way.
pub open spec fn spec_frac_len(frac: Fx, radius: Fx) -> int {
    tdiv(frac.raw * radius.raw, FX_ONE as int)
}

/// The dot marker: a circle of radius `size·r` centered on the knob's
/// circle of radius `radius_frac·r` at `angle`.
pub open spec fn spec_dot_cmd(
    k: Knob,
    size: Fx,
    radius_frac: Fx,
    angle: Fx,
    cs: ColorSet,
    filled: bool,
    segments: u32,
) -> DrawCmd {
    DrawCmd::Circle {
        center: spec_point_on_circle(k.center, spec_frac_len(radius_frac, k.radius), angle.raw as int),
        radius: Fx { raw: spec_frac_len(size, k.radius) as i64 },
        color: spec_color_for(cs, k.is_active, k.is_hovered),
        filled,
        segments,
    }
}

/// The radial tick: a stroke from the outer fraction inward to the
/// inner fraction along `angle`, `width·r` thick.
pub open spec fn spec_tick_cmd(
    k: Knob,
    start_frac: Fx,
    end_frac: Fx,
    width: Fx,
    angle: Fx,
    cs: ColorSet,
) -> DrawCmd {
    DrawCmd::Line {
        p0: spec_point_on_circle(k.center, spec_frac_len(end_frac, k.radius), angle.raw as int),
        p1: spec_point_on_circle(k.center, spec_frac_len(start_frac, k.radius), angle.raw as int),
        color: spec_color_for(cs, k.is_active, k.is_hovered),
        thickness: Fx { raw: spec_frac_len(width, k.radius) as i64 },
    }
}

/// The centered circle of radius `size·r`.
pub open spec fn spec_circle_cmd(
    k: Knob,
    size: Fx,
    cs: ColorSet,
    filled: bool,
    segments: u32,
) -> DrawCmd {
    DrawCmd::Circle {
        center: k.center,
        radius: Fx { raw: spec_frac_len(size, k.radius) as i64 },
        color: spec_color_for(cs, k.is_active, k.is_hovered),
        filled,
        segments,
    }
}

/// The arc strokes a knob arc call records: radius `radius_frac·r`,
/// thickness `size_frac·r/2` plus a hairline to avoid a degenerate
/// zero-thickness stroke.
pub open spec fn spec_knob_arc_cmds(
    k: Knob,
    radius_frac: Fx,
    size_frac: Fx,
    start_angle: Fx,
    end_angle: Fx,
    cs: ColorSet,
    segments: u32,
    bezier_count: u8,
) -> Seq<DrawCmd> {
    spec_arc_cmds(
        k.center,
        spec_frac_len(radius_frac, k.radius),
        start_angle.raw as int,
        end_angle.raw as int,
        Fx { raw: (tdiv(spec_frac_len(size_frac, k.radius), 2) + 100) as i64 },
        spec_color_for(cs, k.is_active, k.is_hovered),
        segments,
        bezier_count,
    )
}

/// Bound for a fraction of the radius: nonnegative and at most a radius.
proof fn lemma_frac_len_bounds(frac: Fx, radius: Fx)
    requires
        0 <= frac.raw <= FX_ONE,
        0 < radius.raw <= LEN_LIM,
    ensures
        0 <= spec_frac_len(frac, radius) <= LEN_LIM,
{
    lemma_mul_magnitude(frac.raw as int, radius.raw as int, FX_ONE as int, LEN_LIM as int);
    vstd::arithmetic::mul::lemma_mul_nonnegative(frac.raw as int, radius.raw as int);
    lemma_tdiv_bounds(
        (frac.raw as int) * (radius.raw as int),
        FX_ONE as int,
        (FX_ONE as int) * (LEN_LIM as int),
    );
}

impl Knob {
    /// Computes `frac · radius` as a length.
    fn frac_len(&self, frac: Fx) -> (r: Fx)
        requires
            self.wf(),
            0 <= frac.raw <= FX_ONE,
        ensures
            r.raw == spec_frac_len(frac, self.radius),
            0 <= r.raw <= LEN_LIM,
    {
        proof {
            lemma_frac_len_bounds(frac, self.radius);
        }
        fx_mul(frac, self.radius)
    }

    /// Draws the dot marker at `angle`.
    pub fn draw_dot(
        &mut self,
        size: Fx,
        radius_frac: Fx,
        angle: Fx,
        color: &ColorSet,
        filled: bool,
        segments: u32,
    )
        requires
            old(self).wf(),
            0 <= size.raw <= FX_ONE,
            0 <= radius_frac.raw <= FX_ONE,
        ensures
            final(self).wf(),
            old(self).same_but_canvas(*final(self)),
            final(self).canvas.cmds@ == old(self).canvas.cmds@.push(
                spec_dot_cmd(*old(self), size, radius_frac, angle, *color, filled, segments),
            ),
    {
        let dot_size = self.frac_len(size);
        let dot_radius = self.frac_len(radius_frac);
        let p = point_on_circle(self.center, dot_radius, angle);
        let c = color.color_for(self.is_active, self.is_hovered);
        self.canvas.push(
            DrawCmd::Circle { center: p, radius: dot_size, color: c, filled, segments },
        );
    }

    /// Draws a radial tick along `angle`.
    pub fn draw_tick(&mut self, start_frac: Fx, end_frac: Fx, width: Fx, angle: Fx, color: &ColorSet)
        requires
            old(self).wf(),
            0 <= start_frac.raw <= FX_ONE,
            0 <= end_frac.raw <= FX_ONE,
            0 <= width.raw <= FX_ONE,
        ensures
            final(self).wf(),
            old(self).same_but_canvas(*final(self)),
            final(self).canvas.cmds@ == old(self).canvas.cmds@.push(
                spec_tick_cmd(*old(self), start_frac, end_frac, width, angle, *color),
            ),
    {
        let tick_start = self.frac_len(start_frac);
        let tick_end = self.frac_len(end_frac);
        let w = self.frac_len(width);
        let p0 = point_on_circle(self.center, tick_end, angle);
        let p1 = point_on_circle(self.center, tick_start, angle);
        let c = color.color_for(self.is_active, self.is_hovered);
        self.canvas.push(DrawCmd::Line { p0, p1, color: c, thickness: w });
    }

    /// Draws the centered circle.
    pub fn draw_circle(&mut self, size: Fx, color: &ColorSet, filled: bool, segments: u32)
        requires
            old(self).wf(),
            0 <= size.raw <= FX_ONE,
        ensures
            final(self).wf(),
            old(self).same_but_canvas(*final(self)),
            final(self).canvas.cmds@ == old(self).canvas.cmds@.push(
                spec_circle_cmd(*old(self), size, *color, filled, segments),
            ),
    {
        let r = self.frac_len(size);
        let c = color.color_for(self.is_active, self.is_hovered);
        self.canvas.push(
            DrawCmd::Circle { center: self.center, radius: r, color: c, filled, segments },
        );
    }

    /// Draws an arc at `radius_frac·r`, `size_frac·r/2` thick (plus a
    /// hairline), between the two angles.
    pub fn draw_arc(
        &mut self,
        radius_frac: Fx,
        size_frac: Fx,
        start_angle: Fx,
        end_angle: Fx,
        color: &ColorSet,
        segments: u32,
        bezier_count: u8,
    )
        requires
            old(self).wf(),
            0 <= radius_frac.raw <= FX_ONE,
            0 <= size_frac.raw <= FX_ONE,
            -ANG_LIM <= start_angle.raw <= ANG_LIM,
            -ANG_LIM <= end_angle.raw <= ANG_LIM,
        ensures
            final(self).wf(),
            old(self).same_but_canvas(*final(self)),
            final(self).canvas.cmds@ == old(self).canvas.cmds@ + spec_knob_arc_cmds(
                *old(self),
                radius_frac,
                size_frac,
                start_angle,
                end_angle,
                *color,
                segments,
                bezier_count,
            ),
    {
        let track_radius = self.frac_len(radius_frac);
        let size_len = self.frac_len(size_frac);
        let thickness = Fx { raw: tdiv_i128(size_len.raw as i128, 2) as i64 + 100 };
        let c = color.color_for(self.is_active, self.is_hovered);
        proof {
            crate::fixed::lemma_div_le_self(size_len.raw as int, 2);
        }
        draw_arc(
            &mut self.canvas,
            self.center,
            track_radius,
            start_angle,
            end_angle,
            thickness,
            c,
            segments,
            bezier_count,
        );
    }
}

} // verus!
