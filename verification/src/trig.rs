//! Fixed-point trigonometry.
//!
//! Angles are raw micro-radians ([`crate::fixed::FX_ONE`] raw units per
//! radian), measured from +x and increasing clockwise in screen space
//! (+y points down).  [`cos_sin_fx`] reduces its argument to a quarter
//! turn and evaluates a truncated Taylor series in integer arithmetic;
//! its result is pinned exactly to the spec-level mirror of that series,
//! so geometry built on it has exact contracts.

use vstd::prelude::*;
use crate::fixed::{Fx, FX_ONE, clamp, lemma_div_le_self, lemma_div_prod_le, lemma_mul_magnitude};

verus! {

/// A quarter turn in raw micro-radians.
pub const HALF_PI_FX: i64 = 1_570_796;

/// Half a turn in raw micro-radians.
pub const PI_FX: i64 = 3_141_593;

/// One full turn in raw micro-radians.
pub const TWO_PI_FX: i64 = 6_283_185;

/// Largest quarter-turn argument after range reduction.
pub const QUARTER_MAX: i64 = 1_570_796;

/// Square of [`QUARTER_MAX`], the ceiling for every intermediate term of
/// the Taylor evaluations.
pub const QUARTER_SQ: i64 = 2_467_400_073_616;

/// Truncated Taylor series for cosine on a quarter turn, in raw units:
/// `1 - x^2/2! + x^4/4! - x^6/6! + x^8/8! - x^10/10!`, every scaling
/// division truncated, the result clamped to `[-FX_ONE, FX_ONE]`.
pub open spec fn spec_cos_quarter(r: int) -> int {
    let r2 = r * r;
    let t1 = r2 / 2_000_000;
    let t2 = (t1 * r2) / 12_000_000_000_000;
    let t3 = (t2 * r2) / 30_000_000_000_000;
    let t4 = (t3 * r2) / 56_000_000_000_000;
    let t5 = (t4 * r2) / 90_000_000_000_000;
    clamp(FX_ONE - t1 + t2 - t3 + t4 - t5, -FX_ONE as int, FX_ONE as int)
}

/// Truncated Taylor series for sine on a quarter turn, in raw units:
/// `x - x^3/3! + x^5/5! - x^7/7! + x^9/9! - x^11/11!`, truncated and
/// clamped like [`spec_cos_quarter`].
pub open spec fn spec_sin_quarter(r: int) -> int {
    let r2 = r * r;
    let u1 = (r * r2) / 6_000_000_000_000;
    let u2 = (u1 * r2) / 20_000_000_000_000;
    let u3 = (u2 * r2) / 42_000_000_000_000;
    let u4 = (u3 * r2) / 72_000_000_000_000;
    let u5 = (u4 * r2) / 110_000_000_000_000;
    clamp(r - u1 + u2 - u3 + u4 - u5, -FX_ONE as int, FX_ONE as int)
}

/// The angle reduced to `[0, TWO_PI_FX)`; `%` here is Euclidean.
pub open spec fn spec_angle_reduce(a: int) -> int {
    a % (TWO_PI_FX as int)
}

/// Which quarter turn a reduced angle falls in; the last sliver of the
/// turn (past four exact quarter constants) folds into quadrant 3.
pub open spec fn spec_quadrant(m: int) -> int {
    let q = m / (HALF_PI_FX as int);
    if q > 3 {
        3
    } else {
        q
    }
}

/// The residual angle within the quarter turn.
pub open spec fn spec_quarter_arg(m: int) -> int {
    m - spec_quadrant(m) * HALF_PI_FX
}

/// Fixed-point cosine of an arbitrary angle.
pub open spec fn spec_cos(a: int) -> int {
    let m = spec_angle_reduce(a);
    let q = spec_quadrant(m);
    let r = spec_quarter_arg(m);
    if q == 0 {
        spec_cos_quarter(r)
    } else if q == 1 {
        -spec_sin_quarter(r)
    } else if q == 2 {
        -spec_cos_quarter(r)
    } else {
        spec_sin_quarter(r)
    }
}

/// Fixed-point sine of an arbitrary angle.
pub open spec fn spec_sin(a: int) -> int {
    let m = spec_angle_reduce(a);
    let q = spec_quadrant(m);
    let r = spec_quarter_arg(m);
    if q == 0 {
        spec_sin_quarter(r)
    } else if q == 1 {
        spec_cos_quarter(r)
    } else if q == 2 {
        -spec_sin_quarter(r)
    } else {
        -spec_cos_quarter(r)
    }
}

fn cos_quarter(r: u64) -> (c: i64)
    requires
        0 <= r <= QUARTER_MAX,
    ensures
        c == spec_cos_quarter(r as int),
{
    proof {
        lemma_mul_magnitude(r as int, r as int, QUARTER_MAX as int, QUARTER_MAX as int);
    }
    let r2: u128 = (r as u128) * (r as u128);
    let t1: u128 = r2 / 2_000_000;
    proof {
        lemma_div_le_self(r2 as int, 2_000_000);
        lemma_mul_magnitude(t1 as int, r2 as int, QUARTER_SQ as int, QUARTER_SQ as int);
    }
    let t2: u128 = (t1 * r2) / 12_000_000_000_000;
    proof {
        lemma_div_prod_le((t1 * r2) as int, 12_000_000_000_000, QUARTER_SQ as int);
        lemma_mul_magnitude(t2 as int, r2 as int, QUARTER_SQ as int, QUARTER_SQ as int);
    }
    let t3: u128 = (t2 * r2) / 30_000_000_000_000;
    proof {
        lemma_div_prod_le((t2 * r2) as int, 30_000_000_000_000, QUARTER_SQ as int);
        lemma_mul_magnitude(t3 as int, r2 as int, QUARTER_SQ as int, QUARTER_SQ as int);
    }
    let t4: u128 = (t3 * r2) / 56_000_000_000_000;
    proof {
        lemma_div_prod_le((t3 * r2) as int, 56_000_000_000_000, QUARTER_SQ as int);
        lemma_mul_magnitude(t4 as int, r2 as int, QUARTER_SQ as int, QUARTER_SQ as int);
    }
    let t5: u128 = (t4 * r2) / 90_000_000_000_000;
    proof {
        lemma_div_prod_le((t4 * r2) as int, 90_000_000_000_000, QUARTER_SQ as int);
    }
    let c: i128 = (FX_ONE as i128) - (t1 as i128) + (t2 as i128) - (t3 as i128) + (t4 as i128)
        - (t5 as i128);
    if c > FX_ONE as i128 {
        FX_ONE
    } else if c < -(FX_ONE as i128) {
        -FX_ONE
    } else {
        c as i64
    }
}

fn sin_quarter(r: u64) -> (s: i64)
    requires
        0 <= r <= QUARTER_MAX,
    ensures
        s == spec_sin_quarter(r as int),
{
    proof {
        lemma_mul_magnitude(r as int, r as int, QUARTER_MAX as int, QUARTER_MAX as int);
        lemma_mul_magnitude(
            r as int,
            (r * r) as int,
            QUARTER_SQ as int,
            QUARTER_SQ as int,
        );
    }
    let r2: u128 = (r as u128) * (r as u128);
    let u1: u128 = ((r as u128) * r2) / 6_000_000_000_000;
    proof {
        lemma_div_prod_le(((r as u128) * r2) as int, 6_000_000_000_000, QUARTER_SQ as int);
        lemma_mul_magnitude(u1 as int, r2 as int, QUARTER_SQ as int, QUARTER_SQ as int);
    }
    let u2: u128 = (u1 * r2) / 20_000_000_000_000;
    proof {
        lemma_div_prod_le((u1 * r2) as int, 20_000_000_000_000, QUARTER_SQ as int);
        lemma_mul_magnitude(u2 as int, r2 as int, QUARTER_SQ as int, QUARTER_SQ as int);
    }
    let u3: u128 = (u2 * r2) / 42_000_000_000_000;
    proof {
        lemma_div_prod_le((u2 * r2) as int, 42_000_000_000_000, QUARTER_SQ as int);
        lemma_mul_magnitude(u3 as int, r2 as int, QUARTER_SQ as int, QUARTER_SQ as int);
    }
    let u4: u128 = (u3 * r2) / 72_000_000_000_000;
    proof {
        lemma_div_prod_le((u3 * r2) as int, 72_000_000_000_000, QUARTER_SQ as int);
        lemma_mul_magnitude(u4 as int, r2 as int, QUARTER_SQ as int, QUARTER_SQ as int);
    }
    let u5: u128 = (u4 * r2) / 110_000_000_000_000;
    proof {
        lemma_div_prod_le((u4 * r2) as int, 110_000_000_000_000, QUARTER_SQ as int);
    }
    let s: i128 = (r as i128) - (u1 as i128) + (u2 as i128) - (u3 as i128) + (u4 as i128)
        - (u5 as i128);
    if s > FX_ONE as i128 {
        FX_ONE
    } else if s < -(FX_ONE as i128) {
        -FX_ONE
    } else {
        s as i64
    }
}

/// Reduces an angle to `[0, TWO_PI_FX)`, Euclidean.
fn angle_mod_two_pi(a: i64) -> (m: i64)
    ensures
        m == spec_angle_reduce(a as int),
        0 <= m < TWO_PI_FX,
{
    let t: i64 = TWO_PI_FX;
    proof {
        vstd::arithmetic::div_mod::lemma_mod_bound(a as int, t as int);
    }
    if a >= 0 {
        let m: u64 = (a as u64) % (t as u64);
        m as i64
    } else {
        let n64: u64 = (((-(a as i128)) as u128) % (t as u128)) as u64;
        proof {
            let b = -(a as int);
            let q0 = b / (t as int);
            vstd::arithmetic::div_mod::lemma_fundamental_div_mod(b, t as int);
            vstd::arithmetic::div_mod::lemma_mod_bound(b, t as int);
            if n64 as int == 0 {
                assert(a as int == (-q0) * (t as int) + 0) by {
                    vstd::arithmetic::mul::lemma_mul_is_commutative(t as int, q0);
                    vstd::arithmetic::mul::lemma_mul_is_commutative(-q0, t as int);
                };
                vstd::arithmetic::div_mod::lemma_fundamental_div_mod_converse_mod(
                    a as int,
                    t as int,
                    -q0,
                    0,
                );
            } else {
                assert(a as int == (-q0 - 1) * (t as int) + (t as int - n64 as int)) by {
                    vstd::arithmetic::mul::lemma_mul_is_distributive_sub_other_way(
                        t as int,
                        -q0,
                        1,
                    );
                    vstd::arithmetic::mul::lemma_mul_is_commutative(t as int, q0);
                };
                vstd::arithmetic::div_mod::lemma_fundamental_div_mod_converse_mod(
                    a as int,
                    t as int,
                    -q0 - 1,
                    t as int - n64 as int,
                );
            }
        }
        if n64 == 0 {
            0
        } else {
            t - (n64 as i64)
        }
    }
}

/// Fixed-point cosine and sine of an angle, exact against [`spec_cos`]
/// and [`spec_sin`], each within `[-FX_ONE, FX_ONE]`.
pub fn cos_sin_fx(angle: Fx) -> (r: (Fx, Fx))
    ensures
        r.0.raw == spec_cos(angle.raw as int),
        r.1.raw == spec_sin(angle.raw as int),
        -FX_ONE <= r.0.raw <= FX_ONE,
        -FX_ONE <= r.1.raw <= FX_ONE,
{
    let m: i64 = angle_mod_two_pi(angle.raw);
    let q0: u64 = (m as u64) / (HALF_PI_FX as u64);
    let q: u64 = if q0 > 3 {
        3
    } else {
        q0
    };
    proof {
        vstd::arithmetic::div_mod::lemma_fundamental_div_mod(m as int, HALF_PI_FX as int);
        vstd::arithmetic::div_mod::lemma_mod_bound(m as int, HALF_PI_FX as int);
        if q0 > 3 {
            vstd::arithmetic::div_mod::lemma_div_is_ordered(m as int, TWO_PI_FX - 1, HALF_PI_FX as int);
        }
    }
    let r: u64 = (m as u64) - q * (HALF_PI_FX as u64);
    let c: i64;
    let s: i64;
    if q == 0 {
        c = cos_quarter(r);
        s = sin_quarter(r);
    } else if q == 1 {
        c = -sin_quarter(r);
        s = cos_quarter(r);
    } else if q == 2 {
        c = -cos_quarter(r);
        s = -sin_quarter(r);
    } else {
        c = sin_quarter(r);
        s = -cos_quarter(r);
    }
    (Fx { raw: c }, Fx { raw: s })
}

} // verus!
