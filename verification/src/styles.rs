//! Knob faces: stateless compositions of the drawing primitives.
//!
//! Each style takes a constructed [`Knob`] and one or more [`ColorSet`]s
//! and records an ordered sequence of primitive draw commands; order
//! matters, later commands draw on top.  The wiper-family styles guard
//! their progress arc behind `t > 0.01` so the minimum value never asks
//! for a zero-length (degenerate) arc.

use vstd::prelude::*;
use crate::fixed::{Fx, FX_ONE, tdiv, tdiv_i128, lemma_tdiv_bounds};
use crate::color::ColorSet;
use crate::draw::DrawCmd;
use crate::knob::{
    Knob, ANGLE_MIN_FX, ANGLE_MAX_FX, spec_knob_angle, spec_circle_cmd, spec_dot_cmd,
    spec_tick_cmd, spec_knob_arc_cmds, lemma_angle_in_range, knob_angle,
};

verus! {

/// Everything the wiper style draws: a filled base circle, the full
/// track arc, and — when `t` is past the degenerate-arc guard — the
/// progress arc from the minimum angle to the current angle.
pub open spec fn spec_wiper_cmds(
    k: Knob,
    circle_color: ColorSet,
    wiper_color: ColorSet,
    track_color: ColorSet,
) -> Seq<DrawCmd> {
    let base = seq![spec_circle_cmd(k, Fx { raw: 700_000 }, circle_color, true, 32)]
        + spec_knob_arc_cmds(
        k,
        Fx { raw: 800_000 },
        Fx { raw: 410_000 },
        k.angle_min,
        k.angle_max,
        track_color,
        16,
        2,
    );
    if k.t.raw > 10_000 {
        base + spec_knob_arc_cmds(
            k,
            Fx { raw: 800_000 },
            Fx { raw: 430_000 },
            k.angle_min,
            k.angle,
            wiper_color,
            16,
            2,
        )
    } else {
        base
    }
}

/// Base circle, track arc, and the guarded progress arc.
pub fn draw_wiper_knob(
    knob: &mut Knob,
    circle_color: &ColorSet,
    wiper_color: &ColorSet,
    track_color: &ColorSet,
)
    requires
        old(knob).wf(),
    ensures
        final(knob).wf(),
        old(knob).same_but_canvas(*final(knob)),
        final(knob).canvas.cmds@ == old(knob).canvas.cmds@ + spec_wiper_cmds(
            *old(knob),
            *circle_color,
            *wiper_color,
            *track_color,
        ),
{
    knob.draw_circle(Fx { raw: 700_000 }, circle_color, true, 32);
    let amin = knob.angle_min;
    let amax = knob.angle_max;
    knob.draw_arc(Fx { raw: 800_000 }, Fx { raw: 410_000 }, amin, amax, track_color, 16, 2);
    if knob.t.raw > 10_000 {
        let angle = knob.angle;
        knob.draw_arc(Fx { raw: 800_000 }, Fx { raw: 430_000 }, amin, angle, wiper_color, 16, 2);
    }
    proof {
        assert(knob.canvas.cmds@ =~= old(knob).canvas.cmds@ + spec_wiper_cmds(
            *old(knob),
            *circle_color,
            *wiper_color,
            *track_color,
        ));
    }
}

/// Everything the wiper-only style draws: the track arc and the guarded
/// progress arc, with no center circle.
pub open spec fn spec_wiper_only_cmds(
    k: Knob,
    wiper_color: ColorSet,
    track_color: ColorSet,
) -> Seq<DrawCmd> {
    let base = spec_knob_arc_cmds(
        k,
        Fx { raw: 800_000 },
        Fx { raw: 410_000 },
        k.angle_min,
        k.angle_max,
        track_color,
        32,
        2,
    );
    if k.t.raw > 10_000 {
        base + spec_knob_arc_cmds(
            k,
            Fx { raw: 800_000 },
            Fx { raw: 430_000 },
            k.angle_min,
            k.angle,
            wiper_color,
            16,
            2,
        )
    } else {
        base
    }
}

/// Track arc and guarded progress arc only.
pub fn draw_wiper_only_knob(knob: &mut Knob, wiper_color: &ColorSet, track_color: &ColorSet)
    requires
        old(knob).wf(),
    ensures
        final(knob).wf(),
        old(knob).same_but_canvas(*final(knob)),
        final(knob).canvas.cmds@ == old(knob).canvas.cmds@ + spec_wiper_only_cmds(
            *old(knob),
            *wiper_color,
            *track_color,
        ),
{
    let amin = knob.angle_min;
    let amax = knob.angle_max;
    knob.draw_arc(Fx { raw: 800_000 }, Fx { raw: 410_000 }, amin, amax, track_color, 32, 2);
    if knob.t.raw > 10_000 {
        let angle = knob.angle;
        knob.draw_arc(Fx { raw: 800_000 }, Fx { raw: 430_000 }, amin, angle, wiper_color, 16, 2);
    }
    proof {
        assert(knob.canvas.cmds@ =~= old(knob).canvas.cmds@ + spec_wiper_only_cmds(
            *old(knob),
            *wiper_color,
            *track_color,
        ));
    }
}

/// Everything the wiper-dot style draws: a smaller base circle, the
/// track arc, and a dot marker at the current angle (always drawn).
pub open spec fn spec_wiper_dot_cmds(
    k: Knob,
    circle_color: ColorSet,
    dot_color: ColorSet,
    track_color: ColorSet,
) -> Seq<DrawCmd> {
    seq![spec_circle_cmd(k, Fx { raw: 600_000 }, circle_color, true, 32)]
        + spec_knob_arc_cmds(
        k,
        Fx { raw: 850_000 },
        Fx { raw: 410_000 },
        k.angle_min,
        k.angle_max,
        track_color,
        16,
        2,
    ) + seq![
        spec_dot_cmd(k, Fx { raw: 100_000 }, Fx { raw: 850_000 }, k.angle, dot_color, true, 12),
    ]
}

/// Base circle, track arc, and the dot marker.
pub fn draw_wiper_dot_knob(
    knob: &mut Knob,
    circle_color: &ColorSet,
    dot_color: &ColorSet,
    track_color: &ColorSet,
)
    requires
        old(knob).wf(),
    ensures
        final(knob).wf(),
        old(knob).same_but_canvas(*final(knob)),
        final(knob).canvas.cmds@ == old(knob).canvas.cmds@ + spec_wiper_dot_cmds(
            *old(knob),
            *circle_color,
            *dot_color,
            *track_color,
        ),
{
    knob.draw_circle(Fx { raw: 600_000 }, circle_color, true, 32);
    let amin = knob.angle_min;
    let amax = knob.angle_max;
    knob.draw_arc(Fx { raw: 850_000 }, Fx { raw: 410_000 }, amin, amax, track_color, 16, 2);
    let angle = knob.angle;
    knob.draw_dot(Fx { raw: 100_000 }, Fx { raw: 850_000 }, angle, dot_color, true, 12);
    proof {
        assert(knob.canvas.cmds@ =~= old(knob).canvas.cmds@ + spec_wiper_dot_cmds(
            *old(knob),
            *circle_color,
            *dot_color,
            *track_color,
        ));
    }
}

/// Everything the tick style draws: a circle and one radial tick at the
/// current angle.
pub open spec fn spec_tick_knob_cmds(
    k: Knob,
    circle_color: ColorSet,
    tick_color: ColorSet,
) -> Seq<DrawCmd> {
    seq![
        spec_circle_cmd(k, Fx { raw: 700_000 }, circle_color, true, 32),
        spec_tick_cmd(
            k,
            Fx { raw: 400_000 },
            Fx { raw: 700_000 },
            Fx { raw: 80_000 },
            k.angle,
            tick_color,
        ),
    ]
}

/// Circle plus a radial tick at the current angle.
pub fn draw_tick_knob(knob: &mut Knob, circle_color: &ColorSet, tick_color: &ColorSet)
    requires
        old(knob).wf(),
    ensures
        final(knob).wf(),
        old(knob).same_but_canvas(*final(knob)),
        final(knob).canvas.cmds@ == old(knob).canvas.cmds@ + spec_tick_knob_cmds(
            *old(knob),
            *circle_color,
            *tick_color,
        ),
{
    knob.draw_circle(Fx { raw: 700_000 }, circle_color, true, 32);
    let angle = knob.angle;
    knob.draw_tick(Fx { raw: 400_000 }, Fx { raw: 700_000 }, Fx { raw: 80_000 }, angle, tick_color);
    proof {
        assert(knob.canvas.cmds@ =~= old(knob).canvas.cmds@ + spec_tick_knob_cmds(
            *old(knob),
            *circle_color,
            *tick_color,
        ));
    }
}

/// Everything the dot style draws: a circle and one dot marker at the
/// current angle.
pub open spec fn spec_dot_knob_cmds(
    k: Knob,
    circle_color: ColorSet,
    dot_color: ColorSet,
) -> Seq<DrawCmd> {
    seq![
        spec_circle_cmd(k, Fx { raw: 850_000 }, circle_color, true, 32),
        spec_dot_cmd(k, Fx { raw: 120_000 }, Fx { raw: 600_000 }, k.angle, dot_color, true, 12),
    ]
}

/// Circle plus a dot marker at the current angle.
pub fn draw_dot_knob(knob: &mut Knob, circle_color: &ColorSet, dot_color: &ColorSet)
    requires
        old(knob).wf(),
    ensures
        final(knob).wf(),
        old(knob).same_but_canvas(*final(knob)),
        final(knob).canvas.cmds@ == old(knob).canvas.cmds@ + spec_dot_knob_cmds(
            *old(knob),
            *circle_color,
            *dot_color,
        ),
{
    knob.draw_circle(Fx { raw: 850_000 }, circle_color, true, 32);
    let angle = knob.angle;
    knob.draw_dot(Fx { raw: 120_000 }, Fx { raw: 600_000 }, angle, dot_color, true, 12);
    proof {
        assert(knob.canvas.cmds@ =~= old(knob).canvas.cmds@ + spec_dot_knob_cmds(
            *old(knob),
            *circle_color,
            *dot_color,
        ));
    }
}

/// Everything the space style draws: a center circle that shrinks as
/// `t` grows, and — past the degenerate-arc guard — three concentric
/// arcs, each at its own radius and angular offset, forming the layered
/// orbit effect.
pub open spec fn spec_space_cmds(
    k: Knob,
    circle_color: ColorSet,
    wiper_color: ColorSet,
) -> Seq<DrawCmd> {
    let base = seq![
        spec_circle_cmd(
            k,
            Fx { raw: (300_000 - tdiv(k.t.raw * 100_000, FX_ONE as int)) as i64 },
            circle_color,
            true,
            16,
        ),
    ];
    if k.t.raw > 10_000 {
        base + spec_knob_arc_cmds(
            k,
            Fx { raw: 400_000 },
            Fx { raw: 150_000 },
            Fx { raw: (ANGLE_MIN_FX - 1_000_000) as i64 },
            Fx { raw: (k.angle.raw - 1_000_000) as i64 },
            wiper_color,
            16,
            2,
        ) + spec_knob_arc_cmds(
            k,
            Fx { raw: 600_000 },
            Fx { raw: 150_000 },
            Fx { raw: (ANGLE_MIN_FX + 1_000_000) as i64 },
            Fx { raw: (k.angle.raw + 1_000_000) as i64 },
            wiper_color,
            16,
            2,
        ) + spec_knob_arc_cmds(
            k,
            Fx { raw: 800_000 },
            Fx { raw: 150_000 },
            Fx { raw: (ANGLE_MIN_FX + 3_000_000) as i64 },
            Fx { raw: (k.angle.raw + 3_000_000) as i64 },
            wiper_color,
            16,
            2,
        )
    } else {
        base
    }
}

/// Shrinking circle plus, past the guard, three offset orbit arcs.
/// Expects the value inside its bounds (`t` within one unit), so the
/// shrinking circle keeps a representable radius.
pub fn draw_space_knob(knob: &mut Knob, circle_color: &ColorSet, wiper_color: &ColorSet)
    requires
        old(knob).wf(),
        0 <= old(knob).t.raw <= FX_ONE,
    ensures
        final(knob).wf(),
        old(knob).same_but_canvas(*final(knob)),
        final(knob).canvas.cmds@ == old(knob).canvas.cmds@ + spec_space_cmds(
            *old(knob),
            *circle_color,
            *wiper_color,
        ),
{
    proof {
        lemma_tdiv_bounds(
            (knob.t.raw as int) * 100_000,
            FX_ONE as int,
            (FX_ONE as int) * 100_000,
        );
        vstd::arithmetic::mul::lemma_mul_inequality(0, knob.t.raw as int, 100_000);
        vstd::arithmetic::mul::lemma_mul_inequality(knob.t.raw as int, FX_ONE as int, 100_000);
        vstd::arithmetic::mul::lemma_mul_is_commutative(knob.t.raw as int, 100_000);
        vstd::arithmetic::mul::lemma_mul_is_commutative(FX_ONE as int, 100_000);
    }
    let shrink: i64 = tdiv_i128((knob.t.raw as i128) * 100_000, 1_000_000) as i64;
    knob.draw_circle(Fx { raw: 300_000 - shrink }, circle_color, true, 16);
    if knob.t.raw > 10_000 {
        let angle = knob.angle;
        knob.draw_arc(
            Fx { raw: 400_000 },
            Fx { raw: 150_000 },
            Fx { raw: ANGLE_MIN_FX - 1_000_000 },
            Fx { raw: angle.raw - 1_000_000 },
            wiper_color,
            16,
            2,
        );
        knob.draw_arc(
            Fx { raw: 600_000 },
            Fx { raw: 150_000 },
            Fx { raw: ANGLE_MIN_FX + 1_000_000 },
            Fx { raw: angle.raw + 1_000_000 },
            wiper_color,
            16,
            2,
        );
        knob.draw_arc(
            Fx { raw: 800_000 },
            Fx { raw: 150_000 },
            Fx { raw: ANGLE_MIN_FX + 3_000_000 },
            Fx { raw: angle.raw + 3_000_000 },
            wiper_color,
            16,
            2,
        );
    }
    proof {
        assert(knob.canvas.cmds@ =~= old(knob).canvas.cmds@ + spec_space_cmds(
            *old(knob),
            *circle_color,
            *wiper_color,
        ));
    }
}

/// The angle of tick `n` of a stepped knob: the angle for the
/// normalized position `n / (steps - 1)`.
pub open spec fn spec_stepped_tick_angle(n: int, steps: int) -> int {
    spec_knob_angle(tdiv(n * (FX_ONE as int), steps - 1))
}

/// The stepped ticks are evenly spaced across the sweep: the first sits
/// exactly at the minimum angle, the last exactly at the maximum, and
/// every tick within the range.
pub proof fn lemma_stepped_ticks(steps: int)
    requires
        steps >= 2,
    ensures
        spec_stepped_tick_angle(0, steps) == ANGLE_MIN_FX,
        spec_stepped_tick_angle(steps - 1, steps) == ANGLE_MAX_FX,
        forall|n: int|
            0 <= n < steps ==> ANGLE_MIN_FX <= #[trigger] spec_stepped_tick_angle(n, steps)
                <= ANGLE_MAX_FX,
{
    assert forall|n: int| 0 <= n < steps implies ANGLE_MIN_FX <= #[trigger] spec_stepped_tick_angle(
        n,
        steps,
    ) <= ANGLE_MAX_FX by {
        lemma_angle_in_range(n, 0, steps - 1);
    }
    lemma_angle_in_range(0, 0, steps - 1);
    lemma_angle_in_range(steps - 1, 0, steps - 1);
}

/// Computes [`spec_stepped_tick_angle`].
pub fn stepped_tick_angle(n: u32, steps: u32) -> (a: Fx)
    requires
        steps >= 2,
        n < steps,
    ensures
        a.raw == spec_stepped_tick_angle(n as int, steps as int),
        ANGLE_MIN_FX <= a.raw <= ANGLE_MAX_FX,
{
    proof {
        vstd::arithmetic::mul::lemma_mul_inequality(0, n as int, FX_ONE as int);
        vstd::arithmetic::mul::lemma_mul_inequality(n as int, (steps - 1) as int, FX_ONE as int);
        vstd::arithmetic::div_mod::lemma_div_pos_is_pos(
            (n as int) * (FX_ONE as int),
            (steps - 1) as int,
        );
        vstd::arithmetic::div_mod::lemma_div_is_ordered(
            (n as int) * (FX_ONE as int),
            ((steps - 1) as int) * (FX_ONE as int),
            (steps - 1) as int,
        );
        vstd::arithmetic::mul::lemma_mul_is_commutative((steps - 1) as int, FX_ONE as int);
        vstd::arithmetic::div_mod::lemma_div_multiples_vanish(
            FX_ONE as int,
            (steps - 1) as int,
        );
        lemma_angle_in_range(n as int, 0, (steps - 1) as int);
    }
    let a: i64 = tdiv_i128((n as i128) * 1_000_000, (steps as i128) - 1) as i64;
    knob_angle(Fx { raw: a })
}

/// The ticks the stepped style draws, one per step across the sweep.
pub open spec fn spec_stepped_ticks_cmds(k: Knob, steps: u32, step_color: ColorSet) -> Seq<
    DrawCmd,
> {
    Seq::new(
        steps as nat,
        |n: int|
            spec_tick_cmd(
                k,
                Fx { raw: 700_000 },
                Fx { raw: 900_000 },
                Fx { raw: 40_000 },
                Fx { raw: spec_stepped_tick_angle(n, steps as int) as i64 },
                step_color,
            ),
    )
}

/// Everything the stepped style draws: the evenly spaced ticks, then a
/// circle and the dot marker at the current angle.
pub open spec fn spec_stepped_cmds(
    k: Knob,
    steps: u32,
    circle_color: ColorSet,
    dot_color: ColorSet,
    step_color: ColorSet,
) -> Seq<DrawCmd> {
    spec_stepped_ticks_cmds(k, steps, step_color) + seq![
        spec_circle_cmd(k, Fx { raw: 600_000 }, circle_color, true, 32),
        spec_dot_cmd(k, Fx { raw: 120_000 }, Fx { raw: 400_000 }, k.angle, dot_color, true, 12),
    ]
}

/// Evenly spaced ticks across the whole sweep, then circle and dot
/// marker.  `steps` must be at least two: the tick spacing divides by
/// `steps - 1`.
pub fn draw_stepped_knob(
    knob: &mut Knob,
    steps: u32,
    circle_color: &ColorSet,
    dot_color: &ColorSet,
    step_color: &ColorSet,
)
    requires
        old(knob).wf(),
        steps >= 2,
    ensures
        final(knob).wf(),
        old(knob).same_but_canvas(*final(knob)),
        final(knob).canvas.cmds@ == old(knob).canvas.cmds@ + spec_stepped_cmds(
            *old(knob),
            steps,
            *circle_color,
            *dot_color,
            *step_color,
        ),
{
    let mut n: u32 = 0;
    proof {
        assert(knob.canvas.cmds@ =~= old(knob).canvas.cmds@ + spec_stepped_ticks_cmds(
            *old(knob),
            steps,
            *step_color,
        ).take(0));
    }
    while n < steps
        invariant
            steps >= 2,
            n <= steps,
            knob.wf(),
            old(knob).wf(),
            old(knob).same_but_canvas(*knob),
            knob.canvas.cmds@ == old(knob).canvas.cmds@ + spec_stepped_ticks_cmds(
                *old(knob),
                steps,
                *step_color,
            ).take(n as int),
        decreases steps - n,
    {
        let angle = stepped_tick_angle(n, steps);
        knob.draw_tick(
            Fx { raw: 700_000 },
            Fx { raw: 900_000 },
            Fx { raw: 40_000 },
            angle,
            step_color,
        );
        proof {
            assert(knob.canvas.cmds@ =~= old(knob).canvas.cmds@ + spec_stepped_ticks_cmds(
                *old(knob),
                steps,
                *step_color,
            ).take(n as int + 1));
        }
        n = n + 1;
    }
    knob.draw_circle(Fx { raw: 600_000 }, circle_color, true, 32);
    let angle = knob.angle;
    knob.draw_dot(Fx { raw: 120_000 }, Fx { raw: 400_000 }, angle, dot_color, true, 12);
    proof {
        assert(knob.canvas.cmds@ =~= old(knob).canvas.cmds@ + spec_stepped_cmds(
            *old(knob),
            steps,
            *circle_color,
            *dot_color,
            *step_color,
        ));
    }
}

} // verus!
