//! Cubic Bezier approximation of circular arcs.
//!
//! [`bezier_arc`] takes a circle center and two points on the circle and
//! computes the two control points of the cubic Bezier curve that best
//! approximates the arc between them.  The arc span must be strictly
//! between zero and half a turn: at exactly 0 or half a turn the defining
//! division degenerates (a floating-point implementation would produce
//! NaN); this implementation detects the degenerate case — and any result
//! that fixed-point range cannot carry — and falls back to the chord
//! endpoints, stating both outcomes in its contract.

use vstd::prelude::*;
use crate::fixed::{
    Fx, FX_ONE, LEN_LIM, POS_LIM, tdiv, tdiv_i128, lemma_div_le_self, lemma_mul_magnitude,
};

verus! {

/// A point or vector in screen space, fixed-point units.
#[derive(Clone, Copy, PartialEq, Eq, Structural, Debug)]
pub struct Vec2 {
    pub x: Fx,
    pub y: Fx,
}

/// `r` is the integer square root of `x`, rounded down.
pub open spec fn is_sqrt_floor(x: int, r: int) -> bool {
    0 <= r && r * r <= x && x < (r + 1) * (r + 1)
}

/// The integer square root, rounded down.
pub open spec fn sqrt_floor(x: int) -> int {
    choose|r: int| is_sqrt_floor(x, r)
}

/// The rounded-down square root is unique, so any witness names it.
pub proof fn lemma_sqrt_floor_unique(x: int, r: int)
    requires
        is_sqrt_floor(x, r),
    ensures
        sqrt_floor(x) == r,
{
    let s = choose|s: int| is_sqrt_floor(x, s);
    assert(is_sqrt_floor(x, s));
    assert(s == r) by (nonlinear_arith)
        requires
            is_sqrt_floor(x, s),
            is_sqrt_floor(x, r),
    ;
}

/// Integer square root by bisection.
pub fn isqrt_u128(x: u128) -> (r: u64)
    requires
        x < 0x1000_0000_0000_0000_0000_0000_0000_0000,
    ensures
        is_sqrt_floor(x as int, r as int),
        r as int == sqrt_floor(x as int),
{
    let mut lo: u128 = 0;
    let mut hi: u128 = 0x4000_0000_0000_0000;
    proof {
        lemma_mul_magnitude(hi as int, hi as int, 0x4000_0000_0000_0000, 0x4000_0000_0000_0000);
    }
    while lo + 1 < hi
        invariant
            lo < hi,
            hi <= 0x4000_0000_0000_0000,
            lo * lo <= x,
            x < hi * hi,
        decreases hi - lo,
    {
        let mid: u128 = lo + (hi - lo) / 2;
        proof {
            lemma_div_le_self((hi - lo) as int, 2);
            vstd::arithmetic::div_mod::lemma_div_is_ordered(2, (hi - lo) as int, 2);
            vstd::arithmetic::div_mod::lemma_div_is_strictly_smaller((hi - lo) as int, 2);
            lemma_mul_magnitude(mid as int, mid as int, 0x4000_0000_0000_0000, 0x4000_0000_0000_0000);
        }
        if mid * mid <= x {
            lo = mid;
        } else {
            hi = mid;
        }
    }
    proof {
        lemma_sqrt_floor_unique(x as int, lo as int);
    }
    lo as u64
}

/// Truncating division extended to divisors of either sign.
pub open spec fn tdiv_signed(n: int, d: int) -> int {
    if d >= 0 {
        tdiv(n, d)
    } else {
        -tdiv(n, -d)
    }
}

/// The start-to-center offset components; both points are meant to lie on
/// the same circle around `center`.
pub open spec fn spec_off_x(center: Vec2, p: Vec2) -> int {
    p.x.raw - center.x.raw
}

pub open spec fn spec_off_y(center: Vec2, p: Vec2) -> int {
    p.y.raw - center.y.raw
}

/// The Bezier stiffness coefficient `k2 = (4/3)·(sqrt(2·q1·q2) - q2) / cross`,
/// carried in raw units (scaled by `FX_ONE`), with the square root rounded
/// down and both divisions truncated.
pub open spec fn spec_bezier_k2(center: Vec2, start: Vec2, end: Vec2) -> int {
    let ax = spec_off_x(center, start);
    let ay = spec_off_y(center, start);
    let bx = spec_off_x(center, end);
    let by = spec_off_y(center, end);
    let q1 = ax * ax + ay * ay;
    let q2 = q1 + ax * bx + ay * by;
    let cross = ax * by - ay * bx;
    tdiv_signed(4 * (sqrt_floor(2 * q1 * q2) - q2) * FX_ONE, 3 * cross)
}

/// The four raw control-point coordinates before the representability
/// check: `c1 = start + k2·perp(a)`, `c2 = end - k2·perp(b)`, with
/// `perp(v) = (-v.y, v.x)`.
pub open spec fn spec_bezier_c1x(center: Vec2, start: Vec2, end: Vec2) -> int {
    start.x.raw - tdiv(spec_bezier_k2(center, start, end) * spec_off_y(center, start), FX_ONE as int)
}

pub open spec fn spec_bezier_c1y(center: Vec2, start: Vec2, end: Vec2) -> int {
    start.y.raw + tdiv(spec_bezier_k2(center, start, end) * spec_off_x(center, start), FX_ONE as int)
}

pub open spec fn spec_bezier_c2x(center: Vec2, start: Vec2, end: Vec2) -> int {
    end.x.raw + tdiv(spec_bezier_k2(center, start, end) * spec_off_y(center, end), FX_ONE as int)
}

pub open spec fn spec_bezier_c2y(center: Vec2, start: Vec2, end: Vec2) -> int {
    end.y.raw - tdiv(spec_bezier_k2(center, start, end) * spec_off_x(center, end), FX_ONE as int)
}

/// The control points are defined when the configuration is not
/// degenerate (`cross != 0`, which rules out spans of 0 and half a turn,
/// and `q2 >= 0`, which two points at equal distance from the center
/// always satisfy in exact arithmetic) and every coordinate fits `i64`.
pub open spec fn spec_bezier_defined(center: Vec2, start: Vec2, end: Vec2) -> bool {
    let ax = spec_off_x(center, start);
    let ay = spec_off_y(center, start);
    let bx = spec_off_x(center, end);
    let by = spec_off_y(center, end);
    let q1 = ax * ax + ay * ay;
    let q2 = q1 + ax * bx + ay * by;
    let cross = ax * by - ay * bx;
    &&& cross != 0
    &&& q2 >= 0
    &&& i64::MIN <= spec_bezier_c1x(center, start, end) <= i64::MAX
    &&& i64::MIN <= spec_bezier_c1y(center, start, end) <= i64::MAX
    &&& i64::MIN <= spec_bezier_c2x(center, start, end) <= i64::MAX
    &&& i64::MIN <= spec_bezier_c2y(center, start, end) <= i64::MAX
}

/// The pair [`bezier_arc`] returns: the exact control points when they
/// are defined, the chord endpoints otherwise.
pub open spec fn spec_bezier_pair(center: Vec2, start: Vec2, end: Vec2) -> (Vec2, Vec2) {
    if spec_bezier_defined(center, start, end) {
        (
            Vec2 {
                x: Fx { raw: spec_bezier_c1x(center, start, end) as i64 },
                y: Fx { raw: spec_bezier_c1y(center, start, end) as i64 },
            },
            Vec2 {
                x: Fx { raw: spec_bezier_c2x(center, start, end) as i64 },
                y: Fx { raw: spec_bezier_c2y(center, start, end) as i64 },
            },
        )
    } else {
        (start, end)
    }
}

/// Whether `bezier_arc`'s inputs are inside the machine limits: the
/// center on screen, both points within a radius-scale offset of it.
pub open spec fn bezier_inputs_ok(center: Vec2, start: Vec2, end: Vec2) -> bool {
    &&& -POS_LIM <= center.x.raw <= POS_LIM
    &&& -POS_LIM <= center.y.raw <= POS_LIM
    &&& -LEN_LIM <= spec_off_x(center, start) <= LEN_LIM
    &&& -LEN_LIM <= spec_off_y(center, start) <= LEN_LIM
    &&& -LEN_LIM <= spec_off_x(center, end) <= LEN_LIM
    &&& -LEN_LIM <= spec_off_y(center, end) <= LEN_LIM
}

/// Truncating division of `n` by nonzero `d` of either sign.
fn tdiv_signed_i128(n: i128, d: i128) -> (r: i128)
    requires
        d != 0,
        -0x7fff_ffff_ffff_ffff_ffff_ffff_ffff_ffff <= n,
        -0x7fff_ffff_ffff_ffff_ffff_ffff_ffff_ffff <= d,
    ensures
        r == tdiv_signed(n as int, d as int),
        n >= 0 ==> -n <= r <= n,
        n < 0 ==> n <= r <= -n,
{
    if d >= 0 {
        tdiv_i128(n, d)
    } else {
        -tdiv_i128(n, -d)
    }
}

/// Cubic Bezier control points for the circular arc from `start` to
/// `end` around `center`.  Exactly [`spec_bezier_c1x`] and friends when
/// [`spec_bezier_defined`] holds; the chord endpoints otherwise.
pub fn bezier_arc(center: Vec2, start: Vec2, end: Vec2) -> (r: (Vec2, Vec2))
    requires
        bezier_inputs_ok(center, start, end),
    ensures
        spec_bezier_defined(center, start, end) ==> {
            &&& r.0.x.raw == spec_bezier_c1x(center, start, end)
            &&& r.0.y.raw == spec_bezier_c1y(center, start, end)
            &&& r.1.x.raw == spec_bezier_c2x(center, start, end)
            &&& r.1.y.raw == spec_bezier_c2y(center, start, end)
        },
        !spec_bezier_defined(center, start, end) ==> r == (start, end),
        r == spec_bezier_pair(center, start, end),
{
    let ax: i128 = (start.x.raw as i128) - (center.x.raw as i128);
    let ay: i128 = (start.y.raw as i128) - (center.y.raw as i128);
    let bx: i128 = (end.x.raw as i128) - (center.x.raw as i128);
    let by: i128 = (end.y.raw as i128) - (center.y.raw as i128);
    proof {
        lemma_mul_magnitude(ax as int, ax as int, LEN_LIM as int, LEN_LIM as int);
        lemma_mul_magnitude(ay as int, ay as int, LEN_LIM as int, LEN_LIM as int);
        lemma_mul_magnitude(ax as int, bx as int, LEN_LIM as int, LEN_LIM as int);
        lemma_mul_magnitude(ay as int, by as int, LEN_LIM as int, LEN_LIM as int);
        lemma_mul_magnitude(ax as int, by as int, LEN_LIM as int, LEN_LIM as int);
        lemma_mul_magnitude(ay as int, bx as int, LEN_LIM as int, LEN_LIM as int);
    }
    let q1: i128 = ax * ax + ay * ay;
    let q2: i128 = q1 + ax * bx + ay * by;
    let cross: i128 = ax * by - ay * bx;
    if cross == 0 || q2 < 0 {
        return (start, end);
    }
    proof {
        assert(ax * ax >= 0 && ay * ay >= 0) by (nonlinear_arith);
        lemma_mul_magnitude(2 * (q1 as int), q2 as int, 4_000_000_000_000_000_000, 4_000_000_000_000_000_000);
        assert((2 * (q1 as int)) * (q2 as int) >= 0) by (nonlinear_arith)
            requires
                q1 as int >= 0,
                q2 as int >= 0,
        ;
    }
    let s: u64 = isqrt_u128((2 * q1 * q2) as u128);
    proof {
        assert(s as int <= 4_000_000_000_000_000_000) by (nonlinear_arith)
            requires
                0 <= s as int,
                (s as int) * (s as int) <= 16_000_000_000_000_000_000_000_000_000_000_000_000,
        ;
        lemma_mul_magnitude(
            4 * ((s as int) - (q2 as int)),
            FX_ONE as int,
            20_000_000_000_000_000_000,
            1_000_000,
        );
    }
    let num: i128 = 4 * ((s as i128) - q2) * (FX_ONE as i128);
    let den: i128 = 3 * cross;
    let k2: i128 = tdiv_signed_i128(num, den);
    proof {
        lemma_mul_magnitude(
            k2 as int,
            ay as int,
            40_000_000_000_000_000_000_000_000,
            LEN_LIM as int,
        );
        lemma_mul_magnitude(
            k2 as int,
            ax as int,
            40_000_000_000_000_000_000_000_000,
            LEN_LIM as int,
        );
        lemma_mul_magnitude(
            k2 as int,
            by as int,
            40_000_000_000_000_000_000_000_000,
            LEN_LIM as int,
        );
        lemma_mul_magnitude(
            k2 as int,
            bx as int,
            40_000_000_000_000_000_000_000_000,
            LEN_LIM as int,
        );
    }
    let c1x: i128 = (start.x.raw as i128) - tdiv_i128(k2 * ay, 1_000_000);
    let c1y: i128 = (start.y.raw as i128) + tdiv_i128(k2 * ax, 1_000_000);
    let c2x: i128 = (end.x.raw as i128) + tdiv_i128(k2 * by, 1_000_000);
    let c2y: i128 = (end.y.raw as i128) - tdiv_i128(k2 * bx, 1_000_000);
    let min64: i128 = i64::MIN as i128;
    let max64: i128 = i64::MAX as i128;
    if min64 <= c1x && c1x <= max64 && min64 <= c1y && c1y <= max64 && min64 <= c2x && c2x <= max64
        && min64 <= c2y && c2y <= max64 {
        (
            Vec2 { x: Fx { raw: c1x as i64 }, y: Fx { raw: c1y as i64 } },
            Vec2 { x: Fx { raw: c2x as i64 }, y: Fx { raw: c2y as i64 } },
        )
    } else {
        (start, end)
    }
}

} // verus!
