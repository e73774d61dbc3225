//! Colors as red/green/blue intensity triples.
//!
//! Intensities are unclamped scalars; clamping into a displayable range
//! happens only at the output-encoding boundary, through [`Color::to_byte`].

use crate::scalar::{s_add, s_mul, s_sub, s_zero, spec_floor_int, to_scalar, Scalar, SCALE};
use vstd::prelude::*;

verus! {

#[derive(Clone, Copy, Debug, PartialEq, Eq, Structural)]
pub struct Color {
    pub r: Scalar,
    pub g: Scalar,
    pub b: Scalar,
}

pub open spec fn spec_color(r: Scalar, g: Scalar, b: Scalar) -> Color {
    Color { r, g, b }
}

pub open spec fn spec_black() -> Color {
    Color { r: s_zero(), g: s_zero(), b: s_zero() }
}

pub open spec fn spec_white() -> Color {
    Color { r: to_scalar(SCALE as int), g: to_scalar(SCALE as int), b: to_scalar(SCALE as int) }
}

pub open spec fn spec_color_add(a: Color, b: Color) -> Color {
    Color { r: s_add(a.r, b.r), g: s_add(a.g, b.g), b: s_add(a.b, b.b) }
}

pub open spec fn spec_color_sub(a: Color, b: Color) -> Color {
    Color { r: s_sub(a.r, b.r), g: s_sub(a.g, b.g), b: s_sub(a.b, b.b) }
}

pub open spec fn spec_color_scale(a: Color, s: Scalar) -> Color {
    Color { r: s_mul(a.r, s), g: s_mul(a.g, s), b: s_mul(a.b, s) }
}

/// Component-wise (Hadamard) product of two colors.
pub open spec fn spec_color_mul(a: Color, b: Color) -> Color {
    Color { r: s_mul(a.r, b.r), g: s_mul(a.g, b.g), b: s_mul(a.b, b.b) }
}

/// The display byte for one intensity: `c * 255`, clamped into `0..=255` and
/// rounded down.
pub open spec fn spec_to_byte(c: Scalar) -> u8 {
    let scaled = spec_floor_int(255 * c.raw);
    if scaled < 0 {
        0u8
    } else if scaled > 255 {
        255u8
    } else {
        scaled as u8
    }
}

pub fn color(r: Scalar, g: Scalar, b: Scalar) -> (c: Color)
    ensures
        c == spec_color(r, g, b),
{
    Color { r, g, b }
}

pub fn black() -> (c: Color)
    ensures
        c == spec_black(),
{
    Color { r: Scalar::zero(), g: Scalar::zero(), b: Scalar::zero() }
}

pub fn white() -> (c: Color)
    ensures
        c == spec_white(),
{
    Color { r: Scalar::one(), g: Scalar::one(), b: Scalar::one() }
}

impl Color {
    pub fn add(self, o: Color) -> (c: Color)
        ensures
            c == spec_color_add(self, o),
    {
        Color { r: self.r.add(o.r), g: self.g.add(o.g), b: self.b.add(o.b) }
    }

    pub fn sub(self, o: Color) -> (c: Color)
        ensures
            c == spec_color_sub(self, o),
    {
        Color { r: self.r.sub(o.r), g: self.g.sub(o.g), b: self.b.sub(o.b) }
    }

    /// Each component multiplied by `s`.
    pub fn scale(self, s: Scalar) -> (c: Color)
        ensures
            c == spec_color_scale(self, s),
    {
        Color { r: self.r.mul(s), g: self.g.mul(s), b: self.b.mul(s) }
    }

    /// Component-wise (Hadamard) product.
    pub fn mul(self, o: Color) -> (c: Color)
        ensures
            c == spec_color_mul(self, o),
    {
        Color { r: self.r.mul(o.r), g: self.g.mul(o.g), b: self.b.mul(o.b) }
    }

    /// The display byte for one intensity: `c * 255`, clamped into `0..=255`
    /// and rounded down.
    pub fn to_byte(c: Scalar) -> (v: u8)
        ensures
            v == spec_to_byte(c),
    {
        let scaled_wide: i128 = 255i128 * (c.raw as i128);
        if scaled_wide < 0 {
            proof {
                let x = 255 * (c.raw as int);
                let q = spec_floor_int(x);
                vstd::arithmetic::div_mod::lemma_fundamental_div_mod(x, SCALE as int);
                vstd::arithmetic::div_mod::lemma_mod_division_less_than_divisor(x, SCALE as int);
                assert(q < 0) by (nonlinear_arith)
                    requires
                        x < 0,
                        x == (SCALE as int) * q + (x % (SCALE as int)),
                        0 <= x % (SCALE as int),
                ;
            }
            return 0;
        }
        let k = (scaled_wide as u128) / 4294967296u128;
        if k > 255 {
            255
        } else {
            k as u8
        }
    }
}

} // verus!
