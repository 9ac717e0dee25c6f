//! Backend-independent draw commands and the arc renderer.
//!
//! A [`Canvas`] accumulates [`DrawCmd`] values; a rendering host replays
//! them in order (later commands draw on top).  [`draw_arc`] subdivides
//! a circular arc into Bezier strokes: a small angular `overlap` padding
//! widens each interior sub-arc boundary to hide seams between strokes.
//! The padding is a heuristic visual patch, not geometrically exact, and
//! only looks right for opaque colors; it is kept as designed rather
//! than corrected.

use vstd::prelude::*;
use crate::fixed::{
    Fx, FX_ONE, LEN_LIM, POS_LIM, ANG_LIM, tdiv, tdiv_i128, lemma_tdiv_bounds,
    lemma_mul_magnitude,
};
use crate::trig::{spec_cos, spec_sin, cos_sin_fx, PI_FX};
use crate::bezier::{Vec2, bezier_arc, spec_bezier_pair};
use crate::color::Color;

verus! {

/// One primitive drawing operation for the host's draw list.
#[derive(Clone, Copy, PartialEq, Eq, Structural, Debug)]
pub enum DrawCmd {
    /// A circle outline, or a filled disc.
    Circle { center: Vec2, radius: Fx, color: Color, filled: bool, segments: u32 },
    /// A straight stroke.
    Line { p0: Vec2, p1: Vec2, color: Color, thickness: Fx },
    /// A cubic Bezier stroke, flattened by the host into `segments` lines.
    Bezier { p0: Vec2, c1: Vec2, c2: Vec2, p3: Vec2, color: Color, thickness: Fx, segments: u32 },
}

/// An ordered list of draw commands for one frame.
pub struct Canvas {
    pub cmds: Vec<DrawCmd>,
}

impl Canvas {
    pub fn new() -> (c: Canvas)
        ensures
            c.cmds@ == Seq::<DrawCmd>::empty(),
    {
        Canvas { cmds: Vec::new() }
    }

    /// Appends one command.
    pub fn push(&mut self, cmd: DrawCmd) -> (r: ())
        ensures
            final(self).cmds@ == old(self).cmds@.push(cmd),
    {
        self.cmds.push(cmd);
    }
}

/// The point on the circle of the given center and radius at the given
/// angle (raw micro-radians), with the fixed-point cosine and sine.
pub open spec fn spec_point_on_circle(center: Vec2, radius: int, angle: int) -> Vec2 {
    Vec2 {
        x: Fx { raw: (center.x.raw + tdiv(spec_cos(angle) * radius, FX_ONE as int)) as i64 },
        y: Fx { raw: (center.y.raw + tdiv(spec_sin(angle) * radius, FX_ONE as int)) as i64 },
    }
}

/// Whether a center coordinate pair is on screen.
pub open spec fn center_ok(center: Vec2) -> bool {
    &&& -POS_LIM <= center.x.raw <= POS_LIM
    &&& -POS_LIM <= center.y.raw <= POS_LIM
}

/// Computes [`spec_point_on_circle`]; the point stays within one radius
/// of the center in each coordinate.
pub fn point_on_circle(center: Vec2, radius: Fx, angle: Fx) -> (p: Vec2)
    requires
        center_ok(center),
        0 <= radius.raw <= LEN_LIM,
    ensures
        p == spec_point_on_circle(center, radius.raw as int, angle.raw as int),
        -LEN_LIM <= p.x.raw - center.x.raw <= LEN_LIM,
        -LEN_LIM <= p.y.raw - center.y.raw <= LEN_LIM,
{
    let (c, s) = cos_sin_fx(angle);
    proof {
        lemma_mul_magnitude(c.raw as int, radius.raw as int, FX_ONE as int, LEN_LIM as int);
        lemma_mul_magnitude(s.raw as int, radius.raw as int, FX_ONE as int, LEN_LIM as int);
        lemma_tdiv_bounds(
            (c.raw as int) * (radius.raw as int),
            FX_ONE as int,
            (FX_ONE as int) * (LEN_LIM as int),
        );
        lemma_tdiv_bounds(
            (s.raw as int) * (radius.raw as int),
            FX_ONE as int,
            (FX_ONE as int) * (LEN_LIM as int),
        );
    }
    let offx: i128 = tdiv_i128((c.raw as i128) * (radius.raw as i128), 1_000_000);
    let offy: i128 = tdiv_i128((s.raw as i128) * (radius.raw as i128), 1_000_000);
    Vec2 {
        x: Fx { raw: center.x.raw + (offx as i64) },
        y: Fx { raw: center.y.raw + (offy as i64) },
    }
}

/// The Bezier stroke for one arc: endpoints on the circle, control
/// points from [`spec_bezier_pair`].
pub open spec fn spec_arc_cmd(
    center: Vec2,
    radius: int,
    start_angle: int,
    end_angle: int,
    thickness: Fx,
    color: Color,
    segments: u32,
) -> DrawCmd {
    let p0 = spec_point_on_circle(center, radius, start_angle);
    let p3 = spec_point_on_circle(center, radius, end_angle);
    let cc = spec_bezier_pair(center, p0, p3);
    DrawCmd::Bezier { p0, c1: cc.0, c2: cc.1, p3, color, thickness, segments }
}

/// Emits one Bezier stroke approximating the arc between the two angles.
pub fn draw_arc1(
    canvas: &mut Canvas,
    center: Vec2,
    radius: Fx,
    start_angle: Fx,
    end_angle: Fx,
    thickness: Fx,
    color: Color,
    num_segments: u32,
)
    requires
        center_ok(center),
        0 <= radius.raw <= LEN_LIM,
    ensures
        final(canvas).cmds@ == old(canvas).cmds@.push(
            spec_arc_cmd(
                center,
                radius.raw as int,
                start_angle.raw as int,
                end_angle.raw as int,
                thickness,
                color,
                num_segments,
            ),
        ),
{
    let p0 = point_on_circle(center, radius, start_angle);
    let p3 = point_on_circle(center, radius, end_angle);
    let (c1, c2) = bezier_arc(center, p0, p3);
    canvas.push(DrawCmd::Bezier { p0, c1, c2, p3, color, thickness, segments: num_segments });
}

/// The seam-hiding angular padding: `thickness · radius · 1e-5 · π`,
/// in raw micro-radians.
pub open spec fn spec_overlap(thickness: int, radius: int) -> int {
    tdiv(tdiv(thickness * radius, FX_ONE as int) * PI_FX, 100_000_000_000)
}

/// The angular step between sub-arc boundaries.
pub open spec fn spec_arc_step(sa: int, ea: int, k: int) -> int {
    tdiv(ea - sa, k)
}

/// Where sub-arc `j` nominally starts (the padding cancels there).
pub open spec fn spec_seg_start(sa: int, inc: int, j: int) -> int {
    sa + j * inc
}

/// Where the emitted stroke for sub-arc `j` ends: the final sub-arc
/// lands exactly on `ea`; interior ones run to the next boundary plus
/// twice the padding.
pub open spec fn spec_seg_end(sa: int, ea: int, inc: int, ov: int, k: int, j: int) -> int {
    if j == k - 1 {
        ea
    } else {
        sa + (j + 1) * inc + 2 * ov
    }
}

/// The stroke emitted for sub-arc `j` of `k`.
pub open spec fn spec_arc_seg_cmd(
    center: Vec2,
    radius: int,
    sa: int,
    ea: int,
    ov: int,
    inc: int,
    k: int,
    j: int,
    thickness: Fx,
    color: Color,
    segments: u32,
) -> DrawCmd {
    spec_arc_cmd(
        center,
        radius,
        spec_seg_start(sa, inc, j),
        spec_seg_end(sa, ea, inc, ov, k, j),
        thickness,
        color,
        segments,
    )
}

/// Everything [`draw_arc`] appends: one stroke per sub-arc, where a
/// `bezier_count` of zero or one means a single unsplit stroke.
pub open spec fn spec_arc_cmds(
    center: Vec2,
    radius: int,
    sa: int,
    ea: int,
    thickness: Fx,
    color: Color,
    segments: u32,
    bezier_count: u8,
) -> Seq<DrawCmd> {
    let k: int = if bezier_count <= 1 {
        1
    } else {
        bezier_count as int
    };
    let ov = spec_overlap(thickness.raw as int, radius);
    let inc = spec_arc_step(sa, ea, k);
    Seq::new(
        k as nat,
        |j: int| spec_arc_seg_cmd(center, radius, sa, ea, ov, inc, k, j, thickness, color, segments),
    )
}

/// A single Bezier stroke approximates arcs up to about half a turn
/// well; wider arcs are split into `bezier_count` equal sub-arcs.  With
/// `bezier_count <= 1` exactly one stroke spans the whole range.
pub fn draw_arc(
    canvas: &mut Canvas,
    center: Vec2,
    radius: Fx,
    start_angle: Fx,
    end_angle: Fx,
    thickness: Fx,
    color: Color,
    num_segments: u32,
    bezier_count: u8,
)
    requires
        center_ok(center),
        0 <= radius.raw <= LEN_LIM,
        0 <= thickness.raw <= LEN_LIM,
        -ANG_LIM <= start_angle.raw <= ANG_LIM,
        -ANG_LIM <= end_angle.raw <= ANG_LIM,
    ensures
        final(canvas).cmds@ == old(canvas).cmds@ + spec_arc_cmds(
            center,
            radius.raw as int,
            start_angle.raw as int,
            end_angle.raw as int,
            thickness,
            color,
            num_segments,
            bezier_count,
        ),
{
    let ghost expected = spec_arc_cmds(
        center,
        radius.raw as int,
        start_angle.raw as int,
        end_angle.raw as int,
        thickness,
        color,
        num_segments,
        bezier_count,
    );
    proof {
        lemma_mul_magnitude(thickness.raw as int, radius.raw as int, LEN_LIM as int, LEN_LIM as int);
        lemma_tdiv_bounds(
            (thickness.raw as int) * (radius.raw as int),
            FX_ONE as int,
            (LEN_LIM as int) * (LEN_LIM as int),
        );
        lemma_mul_magnitude(
            tdiv((thickness.raw as int) * (radius.raw as int), FX_ONE as int),
            PI_FX as int,
            1_000_000_000_000,
            PI_FX as int,
        );
        lemma_tdiv_bounds(
            tdiv((thickness.raw as int) * (radius.raw as int), FX_ONE as int) * PI_FX,
            100_000_000_000,
            1_000_000_000_000 * (PI_FX as int),
        );
    }
    let tr: i128 = tdiv_i128((thickness.raw as i128) * (radius.raw as i128), 1_000_000);
    let ov: i64 = tdiv_i128(tr * (PI_FX as i128), 100_000_000_000) as i64;
    if bezier_count <= 1 {
        draw_arc1(canvas, center, radius, start_angle, end_angle, thickness, color, num_segments);
        proof {
            assert(canvas.cmds@ =~= old(canvas).cmds@ + expected);
        }
        return;
    }
    let k: i64 = bezier_count as i64;
    let delta: i64 = end_angle.raw - start_angle.raw;
    proof {
        lemma_tdiv_bounds(delta as int, k as int, 2 * (ANG_LIM as int));
        vstd::arithmetic::div_mod::lemma_div_is_ordered_by_denominator(
            2 * (ANG_LIM as int),
            1,
            k as int,
        );
        vstd::arithmetic::div_mod::lemma_div_basics_2(2 * (ANG_LIM as int));
    }
    let inc: i64 = tdiv_i128(delta as i128, k as i128) as i64;
    let ghost gk: int = bezier_count as int;
    let ghost ginc: int = inc as int;
    let ghost gov: int = ov as int;
    let ghost gsa: int = start_angle.raw as int;
    let ghost gea: int = end_angle.raw as int;
    let mut mid: i64 = start_angle.raw + ov;
    let mut j: u8 = 1;
    proof {
        assert(mid == gsa + gov + (1 - 1) * ginc) by {
            vstd::arithmetic::mul::lemma_mul_basics(ginc);
        };
        assert(canvas.cmds@ =~= old(canvas).cmds@ + expected.take(0));
    }
    while j < bezier_count
        invariant
            2 <= bezier_count,
            1 <= j <= bezier_count,
            gk == bezier_count as int,
            ginc == inc as int,
            gov == ov as int,
            ginc == spec_arc_step(gsa, gea, gk),
            gov == spec_overlap(thickness.raw as int, radius.raw as int),
            -20_000_000_000_000_000 <= inc <= 20_000_000_000_000_000,
            -40_000_000 <= ov <= 40_000_000,
            -ANG_LIM <= gsa <= ANG_LIM,
            -ANG_LIM <= gea <= ANG_LIM,
            -(j - 1) * 20_000_000_000_000_000 <= (j - 1) * ginc <= (j - 1)
                * 20_000_000_000_000_000,
            mid == gsa + gov + (j - 1) * ginc,
            center_ok(center),
            0 <= radius.raw <= LEN_LIM,
            expected == spec_arc_cmds(
                center,
                radius.raw as int,
                gsa,
                gea,
                thickness,
                color,
                num_segments,
                bezier_count,
            ),
            expected.len() == gk,
            canvas.cmds@ == old(canvas).cmds@ + expected.take(j - 1),
        decreases bezier_count - j,
    {
        proof {
            vstd::arithmetic::mul::lemma_mul_basics(ginc);
            vstd::arithmetic::mul::lemma_mul_inequality(j - 1, 255, 20_000_000_000_000_000);
            vstd::arithmetic::mul::lemma_mul_is_distributive_add_other_way(ginc, j - 1, 1);
            vstd::arithmetic::mul::lemma_mul_is_distributive_add_other_way(
                20_000_000_000_000_000,
                j - 1,
                1,
            );
            vstd::arithmetic::mul::lemma_mul_is_distributive_add_other_way(
                -20_000_000_000_000_000,
                j - 1,
                1,
            );
        }
        let mid2: i64 = mid + inc;
        draw_arc1(
            canvas,
            center,
            radius,
            Fx { raw: mid - ov },
            Fx { raw: mid2 + ov },
            thickness,
            color,
            num_segments,
        );
        proof {
            assert(spec_seg_start(gsa, ginc, j - 1) == mid - ov);
            assert(spec_seg_end(gsa, gea, ginc, gov, gk, j - 1) == mid2 + gov);
            assert(expected[j - 1] == spec_arc_cmd(
                center,
                radius.raw as int,
                (mid - ov) as int,
                (mid2 + ov) as int,
                thickness,
                color,
                num_segments,
            ));
            assert(canvas.cmds@ =~= old(canvas).cmds@ + expected.take(j as int));
        }
        mid = mid2;
        j = j + 1;
    }
    draw_arc1(
        canvas,
        center,
        radius,
        Fx { raw: mid - ov },
        end_angle,
        thickness,
        color,
        num_segments,
    );
    proof {
        assert(spec_seg_start(gsa, ginc, gk - 1) == mid - ov);
        assert(spec_seg_end(gsa, gea, ginc, gov, gk, gk - 1) == gea);
        assert(expected[gk - 1] == spec_arc_cmd(
            center,
            radius.raw as int,
            (mid - ov) as int,
            gea,
            thickness,
            color,
            num_segments,
        ));
        assert(canvas.cmds@ =~= old(canvas).cmds@ + expected);
    }
}

/// With a `bezier_count` of zero or one, [`draw_arc`] records exactly
/// one stroke, and it spans the whole angle range without subdivision.
pub proof fn lemma_arc_single(
    center: Vec2,
    radius: int,
    sa: int,
    ea: int,
    thickness: Fx,
    color: Color,
    segments: u32,
    bezier_count: u8,
)
    requires
        bezier_count <= 1,
    ensures
        spec_arc_cmds(center, radius, sa, ea, thickness, color, segments, bezier_count).len() == 1,
        spec_arc_cmds(center, radius, sa, ea, thickness, color, segments, bezier_count)[0]
            == spec_arc_cmd(center, radius, sa, ea, thickness, color, segments),
{
    let inc = spec_arc_step(sa, ea, 1);
    vstd::arithmetic::mul::lemma_mul_basics(inc);
}

/// With `k` sub-arcs the recorded strokes' nominal angle ranges
/// partition `[sa, ea]`: ignoring the seam padding, stroke 0 starts at
/// `sa`, each interior stroke ends where the next begins, and the final
/// stroke ends at `ea`.
pub proof fn lemma_arc_partition(sa: int, ea: int, inc: int, ov: int, k: int)
    requires
        k >= 1,
    ensures
        spec_seg_start(sa, inc, 0) == sa,
        spec_seg_end(sa, ea, inc, ov, k, k - 1) == ea,
        forall|j: int|
            0 <= j < k - 1 ==> spec_seg_end(sa, ea, inc, ov, k, j) - 2 * ov == spec_seg_start(
                sa,
                inc,
                j + 1,
            ),
{
    vstd::arithmetic::mul::lemma_mul_basics(inc);
}

/// For the renderer's own step and an increasing angle range, the
/// nominal sub-arc boundaries are ordered and never leave the range.
pub proof fn lemma_arc_boundaries_in_range(sa: int, ea: int, k: int)
    requires
        k >= 1,
        sa <= ea,
    ensures
        forall|j: int|
            0 <= j <= k - 1 ==> sa <= #[trigger] spec_seg_start(sa, spec_arc_step(sa, ea, k), j)
                <= ea,
        forall|j: int|
            0 <= j < k - 1 ==> #[trigger] spec_seg_start(sa, spec_arc_step(sa, ea, k), j)
                <= spec_seg_start(sa, spec_arc_step(sa, ea, k), j + 1),
{
    let inc = spec_arc_step(sa, ea, k);
    vstd::arithmetic::div_mod::lemma_div_pos_is_pos(ea - sa, k);
    assert forall|j: int| 0 <= j <= k - 1 implies sa <= #[trigger] spec_seg_start(sa, inc, j)
        <= ea by {
        vstd::arithmetic::mul::lemma_mul_nonnegative(j, inc);
        vstd::arithmetic::mul::lemma_mul_inequality(j, k, inc);
        vstd::arithmetic::mul::lemma_mul_is_commutative(j, inc);
        vstd::arithmetic::mul::lemma_mul_is_commutative(k, inc);
        vstd::arithmetic::div_mod::lemma_fundamental_div_mod(ea - sa, k);
        vstd::arithmetic::div_mod::lemma_mod_bound(ea - sa, k);
    }
    assert forall|j: int| 0 <= j < k - 1 implies #[trigger] spec_seg_start(sa, inc, j)
        <= spec_seg_start(sa, inc, j + 1) by {
        vstd::arithmetic::mul::lemma_mul_is_distributive_add_other_way(inc, j, 1);
        vstd::arithmetic::mul::lemma_mul_basics(inc);
    }
}

/// With `k` sub-arcs, [`draw_arc`] records exactly `k` strokes.
pub proof fn lemma_arc_count(
    center: Vec2,
    radius: int,
    sa: int,
    ea: int,
    thickness: Fx,
    color: Color,
    segments: u32,
    bezier_count: u8,
)
    requires
        bezier_count >= 1,
    ensures
        spec_arc_cmds(center, radius, sa, ea, thickness, color, segments, bezier_count).len()
            == bezier_count as int,
{
}

} // verus!
