//! Colors and interaction-state color selection.
//!
//! A [`Color`] is four fixed-point components, conventionally in
//! `[0, FX_ONE]`.  A [`ColorSet`] keys three colors by interaction state
//! (base / hovered / active); every draw call picks one of the three from
//! the knob's state for the frame.  [`hsv2rgb`] is the caller-convenience
//! conversion from hue/saturation/value to red/green/blue.

use vstd::prelude::*;
use crate::fixed::{Fx, FX_ONE, clamp, lemma_div_prod_le, lemma_mul_magnitude};

verus! {

/// An RGBA color in fixed-point components; [`hsv2rgb`] reads the same
/// layout as hue, saturation, value, alpha.
#[derive(Clone, Copy, PartialEq, Eq, Structural, Debug)]
pub struct Color {
    pub r: Fx,
    pub g: Fx,
    pub b: Fx,
    pub a: Fx,
}

impl Color {
    pub fn new(r: Fx, g: Fx, b: Fx, a: Fx) -> (c: Color)
        ensures
            c == (Color { r, g, b, a }),
    {
        Color { r, g, b, a }
    }
}

/// Three colors keyed by interaction state.
#[derive(Clone, Copy, PartialEq, Eq, Structural, Debug)]
pub struct ColorSet {
    pub base: Color,
    pub hovered: Color,
    pub active: Color,
}

/// The color a draw call uses: active wins over hovered, hovered over base.
pub open spec fn spec_color_for(cs: ColorSet, is_active: bool, is_hovered: bool) -> Color {
    if is_active {
        cs.active
    } else if is_hovered {
        cs.hovered
    } else {
        cs.base
    }
}

impl ColorSet {
    pub fn new(base: Color, hovered: Color, active: Color) -> (r: ColorSet)
        ensures
            r == (ColorSet { base, hovered, active }),
    {
        ColorSet { base, hovered, active }
    }

    /// Picks the color for the given interaction state.
    pub fn color_for(&self, is_active: bool, is_hovered: bool) -> (c: Color)
        ensures
            c == spec_color_for(*self, is_active, is_hovered),
    {
        if is_active {
            self.active
        } else if is_hovered {
            self.hovered
        } else {
            self.base
        }
    }
}

impl From<Color> for ColorSet {
    /// A set whose three states share one color.
    fn from(color: Color) -> ColorSet {
        ColorSet { base: color, hovered: color, active: color }
    }
}

impl vstd::std_specs::convert::FromSpecImpl<Color> for ColorSet {
    open spec fn obeys_from_spec() -> bool {
        true
    }

    open spec fn from_spec(color: Color) -> ColorSet {
        ColorSet { base: color, hovered: color, active: color }
    }
}

/// Hue/saturation/value to red/green/blue, alpha passed through.  Hue,
/// saturation and value are clamped to `[0, FX_ONE]`; a hue of exactly
/// one wraps to zero.  Mirrors the classic sector decomposition with all
/// scaling divisions truncated.
pub open spec fn spec_hsv2rgb(hsva: Color) -> Color {
    let h0 = clamp(hsva.r.raw as int, 0, FX_ONE as int);
    let s = clamp(hsva.g.raw as int, 0, FX_ONE as int);
    let v = clamp(hsva.b.raw as int, 0, FX_ONE as int);
    let h = if h0 == FX_ONE {
        0
    } else {
        h0
    };
    let h6 = 6 * h;
    let i = h6 / (FX_ONE as int);
    let f = h6 - i * FX_ONE;
    let p = (v * (FX_ONE - s)) / (FX_ONE as int);
    let q = (v * (FX_ONE - (s * f) / (FX_ONE as int))) / (FX_ONE as int);
    let t = (v * (FX_ONE - (s * (FX_ONE - f)) / (FX_ONE as int))) / (FX_ONE as int);
    if i == 0 {
        Color { r: Fx { raw: v as i64 }, g: Fx { raw: t as i64 }, b: Fx { raw: p as i64 }, a: hsva.a }
    } else if i == 1 {
        Color { r: Fx { raw: q as i64 }, g: Fx { raw: v as i64 }, b: Fx { raw: p as i64 }, a: hsva.a }
    } else if i == 2 {
        Color { r: Fx { raw: p as i64 }, g: Fx { raw: v as i64 }, b: Fx { raw: t as i64 }, a: hsva.a }
    } else if i == 3 {
        Color { r: Fx { raw: p as i64 }, g: Fx { raw: q as i64 }, b: Fx { raw: v as i64 }, a: hsva.a }
    } else if i == 4 {
        Color { r: Fx { raw: t as i64 }, g: Fx { raw: p as i64 }, b: Fx { raw: v as i64 }, a: hsva.a }
    } else if i == 5 {
        Color { r: Fx { raw: v as i64 }, g: Fx { raw: p as i64 }, b: Fx { raw: q as i64 }, a: hsva.a }
    } else {
        Color { r: Fx { raw: 0 }, g: Fx { raw: 0 }, b: Fx { raw: 0 }, a: hsva.a }
    }
}

/// A hue of exactly one is treated identically to a hue of zero.
pub proof fn lemma_hue_wraps(c: Color)
    ensures
        spec_hsv2rgb((Color { r: Fx { raw: FX_ONE }, g: c.g, b: c.b, a: c.a })) == spec_hsv2rgb(
            (Color { r: Fx { raw: 0 }, g: c.g, b: c.b, a: c.a }),
        ),
{
}

fn clamp_unit(x: i64) -> (r: i64)
    ensures
        r == clamp(x as int, 0, FX_ONE as int),
{
    if x < 0 {
        0
    } else if x > FX_ONE {
        FX_ONE
    } else {
        x
    }
}

/// Hue/saturation/value to red/green/blue, exactly [`spec_hsv2rgb`]; the
/// red, green and blue components of the result lie in `[0, FX_ONE]`.
pub fn hsv2rgb(hsva: Color) -> (rgba: Color)
    ensures
        rgba == spec_hsv2rgb(hsva),
        0 <= rgba.r.raw <= FX_ONE,
        0 <= rgba.g.raw <= FX_ONE,
        0 <= rgba.b.raw <= FX_ONE,
{
    let h0: i64 = clamp_unit(hsva.r.raw);
    let s: u64 = clamp_unit(hsva.g.raw) as u64;
    let v: u64 = clamp_unit(hsva.b.raw) as u64;
    let h: u64 = if h0 == FX_ONE {
        0
    } else {
        h0 as u64
    };
    let one: u64 = FX_ONE as u64;
    let h6: u64 = 6 * h;
    let i: u64 = h6 / one;
    proof {
        vstd::arithmetic::div_mod::lemma_fundamental_div_mod(h6 as int, FX_ONE as int);
        vstd::arithmetic::div_mod::lemma_mod_bound(h6 as int, FX_ONE as int);
        vstd::arithmetic::div_mod::lemma_div_is_ordered(h6 as int, 6 * FX_ONE - 6, FX_ONE as int);
        vstd::arithmetic::div_mod::lemma_div_pos_is_pos(h6 as int, FX_ONE as int);
    }
    let f: u64 = h6 - i * one;
    proof {
        lemma_mul_magnitude(v as int, FX_ONE - s as int, FX_ONE as int, FX_ONE as int);
        lemma_div_prod_le((v as int) * (FX_ONE - s as int), FX_ONE as int, FX_ONE as int);
        lemma_mul_magnitude(s as int, f as int, FX_ONE as int, FX_ONE as int);
        lemma_div_prod_le((s as int) * (f as int), FX_ONE as int, FX_ONE as int);
        lemma_mul_magnitude(s as int, FX_ONE - f as int, FX_ONE as int, FX_ONE as int);
        lemma_div_prod_le((s as int) * (FX_ONE - f as int), FX_ONE as int, FX_ONE as int);
    }
    let p: u64 = (v * (one - s)) / one;
    let sf: u64 = (s * f) / one;
    let sg: u64 = (s * (one - f)) / one;
    proof {
        lemma_mul_magnitude(v as int, FX_ONE - sf as int, FX_ONE as int, FX_ONE as int);
        lemma_div_prod_le((v as int) * (FX_ONE - sf as int), FX_ONE as int, FX_ONE as int);
        lemma_mul_magnitude(v as int, FX_ONE - sg as int, FX_ONE as int, FX_ONE as int);
        lemma_div_prod_le((v as int) * (FX_ONE - sg as int), FX_ONE as int, FX_ONE as int);
    }
    let q: u64 = (v * (one - sf)) / one;
    let t: u64 = (v * (one - sg)) / one;
    let vf = Fx { raw: v as i64 };
    let pf = Fx { raw: p as i64 };
    let qf = Fx { raw: q as i64 };
    let tf = Fx { raw: t as i64 };
    if i == 0 {
        Color { r: vf, g: tf, b: pf, a: hsva.a }
    } else if i == 1 {
        Color { r: qf, g: vf, b: pf, a: hsva.a }
    } else if i == 2 {
        Color { r: pf, g: vf, b: tf, a: hsva.a }
    } else if i == 3 {
        Color { r: pf, g: qf, b: vf, a: hsva.a }
    } else if i == 4 {
        Color { r: tf, g: pf, b: vf, a: hsva.a }
    } else if i == 5 {
        Color { r: vf, g: pf, b: qf, a: hsva.a }
    } else {
        Color { r: Fx { raw: 0 }, g: Fx { raw: 0 }, b: Fx { raw: 0 }, a: hsva.a }
    }
}

} // verus!
