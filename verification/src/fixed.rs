//! Fixed-point scalars.
//!
//! Every length, angle, value and color component in this crate is a count
//! of millionths ([`FX_ONE`] raw units make 1.0).  Products are divided back
//! down by [`FX_ONE`] with truncation toward zero; [`tdiv`] is the
//! specification of that division.

use vstd::prelude::*;

verus! {

/// Raw units in 1.0: six decimal places of fixed-point precision.
pub const FX_ONE: i64 = 1_000_000;

/// General magnitude cap on raw values (one million whole units); keeps
/// every product of two raw values inside `i128`.
pub const FX_LIM: i64 = 1_000_000_000_000;

/// Magnitude cap on knob values, bounds and drag deltas (1000 whole units).
pub const VAL_LIM: i64 = 1_000_000_000;

/// Magnitude cap on radii and stroke thicknesses (1000 whole units).
pub const LEN_LIM: i64 = 1_000_000_000;

/// Magnitude cap on screen coordinates (100000 whole units).
pub const POS_LIM: i64 = 100_000_000_000;

/// Magnitude cap on angles in raw micro-radians; far beyond any full turn,
/// but with enough headroom that angle arithmetic stays inside `i64`.
pub const ANG_LIM: i64 = 10_000_000_000_000_000;

/// A fixed-point scalar: `raw` counts millionths.
#[derive(Clone, Copy, PartialEq, Eq, Structural, Debug)]
pub struct Fx {
    pub raw: i64,
}

/// Truncating division (round toward zero), the semantics of every scaling
/// division in this crate.  Unspecified for `d <= 0`, which no caller allows.
pub open spec fn tdiv(n: int, d: int) -> int {
    if n >= 0 {
        n / d
    } else {
        -((-n) / d)
    }
}

/// Clamping to a closed interval.
pub open spec fn clamp(v: int, lo: int, hi: int) -> int {
    if v < lo {
        lo
    } else if v > hi {
        hi
    } else {
        v
    }
}

impl Fx {
    /// The mathematical value is `raw / FX_ONE`; contracts speak of `raw`
    /// directly.
    pub open spec fn bounded(self) -> bool {
        -FX_LIM <= self.raw <= FX_LIM
    }

    /// The scalar for a whole number of units.
    pub fn from_units(u: i32) -> (r: Fx)
        ensures
            r.raw == u * FX_ONE,
    {
        Fx { raw: (u as i64) * FX_ONE }
    }
}

/// The magnitude of a product is bounded by the product of the magnitudes.
pub proof fn lemma_mul_magnitude(a: int, b: int, ma: int, mb: int)
    by (nonlinear_arith)
    requires
        -ma <= a <= ma,
        -mb <= b <= mb,
    ensures
        -(ma * mb) <= a * b <= ma * mb,
{
}

/// A nonnegative number shrinks under division by a positive divisor.
pub proof fn lemma_div_le_self(x: int, d: int)
    requires
        0 <= x,
        0 < d,
    ensures
        0 <= x / d <= x,
{
    vstd::arithmetic::div_mod::lemma_div_pos_is_pos(x, d);
    vstd::arithmetic::div_mod::lemma_div_is_ordered_by_denominator(x, 1, d);
    vstd::arithmetic::div_mod::lemma_div_basics_2(x);
}

/// A product of two factors below `b`, divided by a constant at least
/// `b`, stays below `b`.
pub proof fn lemma_div_prod_le(p: int, d: int, b: int)
    requires
        0 <= p <= b * b,
        1 <= b <= d,
    ensures
        0 <= p / d <= b,
{
    vstd::arithmetic::div_mod::lemma_div_pos_is_pos(p, d);
    vstd::arithmetic::div_mod::lemma_div_is_ordered_by_denominator(p, b, d);
    vstd::arithmetic::div_mod::lemma_div_is_ordered(p, b * b, b);
    vstd::arithmetic::div_mod::lemma_div_multiples_vanish(b, b);
}

/// Truncating division truncates the magnitude: the quotient of values no
/// larger than `m` is no larger than `m / d`, and it keeps the sign of `n`.
pub proof fn lemma_tdiv_bounds(n: int, d: int, m: int)
    requires
        d > 0,
        0 <= m,
        -m <= n <= m,
    ensures
        -(m / d) <= tdiv(n, d) <= m / d,
        n >= 0 ==> tdiv(n, d) >= 0,
        n <= 0 ==> tdiv(n, d) <= 0,
{
    if n >= 0 {
        vstd::arithmetic::div_mod::lemma_div_is_ordered(n, m, d);
        vstd::arithmetic::div_mod::lemma_div_pos_is_pos(n, d);
        vstd::arithmetic::div_mod::lemma_div_pos_is_pos(m, d);
    } else {
        vstd::arithmetic::div_mod::lemma_div_is_ordered(-n, m, d);
        vstd::arithmetic::div_mod::lemma_div_pos_is_pos(-n, d);
        vstd::arithmetic::div_mod::lemma_div_pos_is_pos(m, d);
    }
}

/// Truncating division of `n` by a positive `d`, computed on the
/// nonnegative magnitude so that the executable quotient is exactly
/// [`tdiv`].
pub fn tdiv_i128(n: i128, d: i128) -> (r: i128)
    requires
        d > 0,
        -0x7fff_ffff_ffff_ffff_ffff_ffff_ffff_ffff <= n,
    ensures
        r == tdiv(n as int, d as int),
        n >= 0 ==> 0 <= r <= n,
        n < 0 ==> n <= r <= 0,
{
    if n >= 0 {
        proof {
            lemma_div_le_self(n as int, d as int);
        }
        let q: u128 = (n as u128) / (d as u128);
        q as i128
    } else {
        proof {
            lemma_div_le_self(-(n as int), d as int);
        }
        let q: u128 = ((-n) as u128) / (d as u128);
        -(q as i128)
    }
}

/// Fixed-point multiplication: the exact product scaled back down by
/// [`FX_ONE`], truncated toward zero.
pub fn fx_mul(a: Fx, b: Fx) -> (r: Fx)
    requires
        a.bounded(),
        b.bounded(),
    ensures
        r.raw == tdiv(a.raw * b.raw, FX_ONE as int),
        -1_000_000_000_000_000_000 <= r.raw <= 1_000_000_000_000_000_000,
{
    proof {
        lemma_mul_magnitude(a.raw as int, b.raw as int, FX_LIM as int, FX_LIM as int);
        lemma_tdiv_bounds(
            (a.raw as int) * (b.raw as int),
            FX_ONE as int,
            (FX_LIM as int) * (FX_LIM as int),
        );
    }
    let p: i128 = (a.raw as i128) * (b.raw as i128);
    let q: i128 = tdiv_i128(p, 1_000_000);
    Fx { raw: q as i64 }
}

} // verus!
