//! Linear RGB colors with fixed-point channels.
//!
//! A color is three `Fixed` channels in a linear RGB space. Channels are
//! not clamped to `[0, 1]`: interpolation may overshoot and the arithmetic
//! combinators may push a channel past one or below zero by design; only
//! saturation at the far ends of the `Fixed` range applies.

use vstd::prelude::*;

use crate::fixed::{spec_add, spec_divide, spec_lerp, spec_mul, spec_sub, Fixed};

verus! {

/// An RGB color; each channel counts millionths, `SCALE` being full
/// intensity.
#[derive(Clone, Copy, Debug, PartialEq, Eq, Structural)]
pub struct Color {
    pub red: Fixed,
    pub green: Fixed,
    pub blue: Fixed,
}

/// The mathematical value of a color: its three raw channel counts.
pub ghost struct ColorModel {
    pub r: int,
    pub g: int,
    pub b: int,
}

impl View for Color {
    type V = ColorModel;

    open spec fn view(&self) -> ColorModel {
        ColorModel { r: self.red@, g: self.green@, b: self.blue@ }
    }
}

/// All-zero color.
pub open spec fn black_color() -> ColorModel {
    ColorModel { r: 0, g: 0, b: 0 }
}

/// Channel-wise linear interpolation from `a` to `b` by factor `t`.
pub open spec fn mix_color(a: ColorModel, b: ColorModel, t: int) -> ColorModel {
    ColorModel { r: spec_lerp(a.r, b.r, t), g: spec_lerp(a.g, b.g, t), b: spec_lerp(a.b, b.b, t) }
}

/// Channel-wise sum.
pub open spec fn add_color(a: ColorModel, b: ColorModel) -> ColorModel {
    ColorModel { r: spec_add(a.r, b.r), g: spec_add(a.g, b.g), b: spec_add(a.b, b.b) }
}

/// Channel-wise difference.
pub open spec fn sub_color(a: ColorModel, b: ColorModel) -> ColorModel {
    ColorModel { r: spec_sub(a.r, b.r), g: spec_sub(a.g, b.g), b: spec_sub(a.b, b.b) }
}

/// Channel-wise fixed-point product.
pub open spec fn mul_color(a: ColorModel, b: ColorModel) -> ColorModel {
    ColorModel { r: spec_mul(a.r, b.r), g: spec_mul(a.g, b.g), b: spec_mul(a.b, b.b) }
}

/// Channel-wise fixed-point quotient.
pub open spec fn div_color(a: ColorModel, b: ColorModel) -> ColorModel {
    ColorModel { r: spec_divide(a.r, b.r), g: spec_divide(a.g, b.g), b: spec_divide(a.b, b.b) }
}

/// Whether all three channels are representable `Fixed` counts.
pub open spec fn color_in_range(c: ColorModel) -> bool {
    crate::fixed::in_range(c.r) && crate::fixed::in_range(c.g) && crate::fixed::in_range(c.b)
}

impl Color {
    /// A color from its three channels.
    pub fn new(red: Fixed, green: Fixed, blue: Fixed) -> (c: Color)
        ensures
            c@ == (ColorModel { r: red@, g: green@, b: blue@ }),
    {
        Color { red, green, blue }
    }

    /// Full black.
    pub fn black() -> (c: Color)
        ensures
            c@ == black_color(),
    {
        Color { red: Fixed::zero(), green: Fixed::zero(), blue: Fixed::zero() }
    }

    /// Channel-wise interpolation toward `rhs` by factor `t`.
    pub fn mix(self, rhs: Color, t: Fixed) -> (c: Color)
        ensures
            c@ == mix_color(self@, rhs@, t@),
    {
        Color {
            red: self.red.lerp(rhs.red, t),
            green: self.green.lerp(rhs.green, t),
            blue: self.blue.lerp(rhs.blue, t),
        }
    }

    /// Channel-wise sum.
    pub fn add(self, rhs: Color) -> (c: Color)
        ensures
            c@ == add_color(self@, rhs@),
    {
        Color {
            red: self.red.add(rhs.red),
            green: self.green.add(rhs.green),
            blue: self.blue.add(rhs.blue),
        }
    }

    /// Channel-wise difference.
    pub fn sub(self, rhs: Color) -> (c: Color)
        ensures
            c@ == sub_color(self@, rhs@),
    {
        Color {
            red: self.red.sub(rhs.red),
            green: self.green.sub(rhs.green),
            blue: self.blue.sub(rhs.blue),
        }
    }

    /// Channel-wise fixed-point product.
    pub fn mul(self, rhs: Color) -> (c: Color)
        ensures
            c@ == mul_color(self@, rhs@),
    {
        Color {
            red: self.red.mul(rhs.red),
            green: self.green.mul(rhs.green),
            blue: self.blue.mul(rhs.blue),
        }
    }

    /// Channel-wise fixed-point quotient.
    pub fn div(self, rhs: Color) -> (c: Color)
        ensures
            c@ == div_color(self@, rhs@),
    {
        Color {
            red: self.red.div(rhs.red),
            green: self.green.div(rhs.green),
            blue: self.blue.div(rhs.blue),
        }
    }
}

} // verus!
