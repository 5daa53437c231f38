//! Hue-based color math.
//!
//! The hue-bearing representation used by `rotate_hue` and `rainbow` is
//! HSL over the library's fixed-point scalars: hue counts millionths of a
//! degree in `[0, 360)`, saturation and lightness count millionths of a
//! unit. The conversions follow the standard piecewise-linear HSL
//! formulas, with the library's saturating products and truncated
//! divisions; the spec functions state exactly that arithmetic.

use vstd::prelude::*;

use crate::color::{Color, ColorModel};
use crate::fixed::{clip, clip_i128, emod_i128, iabs, tdiv, tdiv_i128, Fixed, SCALE};

verus! {

/// Raw count of a full hue circle: 360 degrees of millionths.
pub const FULL_CIRCLE: i64 = 360_000_000;

/// Raw count of one 60-degree hue sector.
pub const HUE_SECTOR: i64 = 60_000_000;

/// Raw count of one half unit: the lightness of a rainbow color.
pub const HALF_UNIT: i64 = 500_000;

/// Largest of three channel counts.
pub open spec fn max3(a: int, b: int, c: int) -> int {
    if a >= b && a >= c {
        a
    } else if b >= c {
        b
    } else {
        c
    }
}

/// Smallest of three channel counts.
pub open spec fn min3(a: int, b: int, c: int) -> int {
    if a <= b && a <= c {
        a
    } else if b <= c {
        b
    } else {
        c
    }
}

/// The color of hue `h`, saturation `s`, lightness `l`, by the standard
/// HSL sector formula over saturating fixed-point arithmetic. `h` is
/// expected in `[0, FULL_CIRCLE)`.
pub open spec fn hsl_to_rgb(h: int, s: int, l: int) -> ColorModel {
    let chroma = clip(tdiv(clip(SCALE - iabs(2 * l - SCALE)) * s, SCALE as int));
    let u = h % (2 * HUE_SECTOR);
    let x = tdiv(chroma * ((HUE_SECTOR as int) - iabs(u - HUE_SECTOR)), HUE_SECTOR as int);
    let m0 = l - tdiv(chroma, 2);
    let sector = h / (HUE_SECTOR as int);
    let rgb: (int, int, int) = if sector == 0 {
        (chroma, x, 0)
    } else if sector == 1 {
        (x, chroma, 0)
    } else if sector == 2 {
        (0, chroma, x)
    } else if sector == 3 {
        (0, x, chroma)
    } else if sector == 4 {
        (x, 0, chroma)
    } else if sector == 5 {
        (chroma, 0, x)
    } else {
        (0, 0, 0)
    };
    ColorModel { r: clip(rgb.0 + m0), g: clip(rgb.1 + m0), b: clip(rgb.2 + m0) }
}

/// Hue, saturation and lightness of a color. Saturation is capped at one
/// full unit so colors outside the displayable range still convert.
pub open spec fn rgb_to_hsl(c: ColorModel) -> (int, int, int) {
    let mx = max3(c.r, c.g, c.b);
    let mn = min3(c.r, c.g, c.b);
    let l = tdiv(mx + mn, 2);
    let d = mx - mn;
    if d == 0 {
        (0, 0, l)
    } else {
        let base = if c.r >= c.g && c.r >= c.b {
            tdiv((c.g - c.b) * SCALE, d)
        } else if c.g >= c.b {
            tdiv((c.b - c.r) * SCALE, d) + 2 * SCALE
        } else {
            tdiv((c.r - c.g) * SCALE, d) + 4 * SCALE
        };
        let h = (base * 60) % (FULL_CIRCLE as int);
        let den = clip(SCALE - iabs(2 * l - SCALE));
        let s = if den <= 0 {
            SCALE as int
        } else {
            let s0 = tdiv((mx - mn) * SCALE, den);
            if s0 > SCALE {
                SCALE as int
            } else {
                s0
            }
        };
        (h, s, l)
    }
}

/// The color with its hue advanced by `angle` millionths of a degree.
pub open spec fn rotate_hue_color(c: ColorModel, angle: int) -> ColorModel {
    let hsl = rgb_to_hsl(c);
    hsl_to_rgb((hsl.0 + angle) % (FULL_CIRCLE as int), hsl.1, hsl.2)
}

/// The full-saturation, half-lightness color at hue position `t`, the hue
/// taken modulo a full circle.
pub open spec fn rainbow_color(t: int) -> ColorModel {
    hsl_to_rgb(t % (FULL_CIRCLE as int), SCALE as int, HALF_UNIT as int)
}

/// Product of a channel difference with `SCALE`, wide enough to be exact.
fn diff_times_scale(a: i64, b: i64) -> (p: i128)
    ensures
        p as int == (a - b) * SCALE,
        iabs(p as int) <= 85070591730234615865843651857942052864,
{
    proof {
        assert(((a as int) - (b as int)) * (SCALE as int)
            <= 85070591730234615865843651857942052864 && ((a as int) - (b as int)) * (SCALE as int)
            >= -85070591730234615865843651857942052864) by (nonlinear_arith)
            requires
                i64::MIN <= a <= i64::MAX,
                i64::MIN <= b <= i64::MAX,
        ;
    }
    ((a as i128) - (b as i128)) * (SCALE as i128)
}

/// Executable absolute value of an `i128` intermediate.
fn iabs_i128(x: i128) -> (r: i128)
    requires
        x > i128::MIN,
    ensures
        r as int == iabs(x as int),
{
    if x < 0 {
        -x
    } else {
        x
    }
}

/// Executable HSL-to-RGB conversion.
pub(crate) fn hsl_to_rgb_exec(h: i64, s: i64, l: i64) -> (c: Color)
    requires
        0 <= h < FULL_CIRCLE,
    ensures
        c@ == hsl_to_rgb(h as int, s as int, l as int),
{
    let spread: i64 = clip_i128(SCALE as i128 - iabs_i128(2 * (l as i128) - SCALE as i128));
    proof {
        assert((spread as int) * (s as int) <= 85070591730234615865843651857942052864 && (
        spread as int) * (s as int) >= -85070591730234615865843651857942052864)
            by (nonlinear_arith)
            requires
                i64::MIN <= spread <= i64::MAX,
                i64::MIN <= s <= i64::MAX,
        ;
    }
    let chroma: i64 = clip_i128(tdiv_i128((spread as i128) * (s as i128), SCALE as i128));
    let u: i64 = ((h as u64) % ((2 * HUE_SECTOR) as u64)) as i64;
    proof {
        assert((h as int) / (HUE_SECTOR as int) < 6 && (h as int) / (HUE_SECTOR as int) >= 0)
            by (nonlinear_arith)
            requires
                0 <= h < FULL_CIRCLE,
        ;
        assert((chroma as int) * ((HUE_SECTOR as int) - iabs((u as int) - (HUE_SECTOR as int)))
            <= 85070591730234615865843651857942052864 && (chroma as int) * ((HUE_SECTOR as int)
            - iabs((u as int) - (HUE_SECTOR as int)))
            >= -85070591730234615865843651857942052864) by (nonlinear_arith)
            requires
                i64::MIN <= chroma <= i64::MAX,
                0 <= u < 2 * HUE_SECTOR,
        ;
    }
    let x128: i128 = tdiv_i128(
        (chroma as i128) * ((HUE_SECTOR as i128) - iabs_i128((u as i128) - (HUE_SECTOR as i128))),
        HUE_SECTOR as i128,
    );
    let m0: i128 = (l as i128) - tdiv_i128(chroma as i128, 2);
    let sector: i64 = ((h as u64) / (HUE_SECTOR as u64)) as i64;
    let (r0, g0, b0): (i128, i128, i128) = if sector == 0 {
        (chroma as i128, x128, 0)
    } else if sector == 1 {
        (x128, chroma as i128, 0)
    } else if sector == 2 {
        (0, chroma as i128, x128)
    } else if sector == 3 {
        (0, x128, chroma as i128)
    } else if sector == 4 {
        (x128, 0, chroma as i128)
    } else {
        (chroma as i128, 0, x128)
    };
    Color {
        red: Fixed { raw: clip_i128(r0 + m0) },
        green: Fixed { raw: clip_i128(g0 + m0) },
        blue: Fixed { raw: clip_i128(b0 + m0) },
    }
}

/// Executable RGB-to-HSL conversion.
pub(crate) fn rgb_to_hsl_exec(c: Color) -> (hsl: (i64, i64, i64))
    ensures
        (hsl.0 as int, hsl.1 as int, hsl.2 as int) == rgb_to_hsl(c@),
{
    let r: i64 = c.red.raw;
    let g: i64 = c.green.raw;
    let b: i64 = c.blue.raw;
    let mx: i64 = if r >= g && r >= b {
        r
    } else if g >= b {
        g
    } else {
        b
    };
    let mn: i64 = if r <= g && r <= b {
        r
    } else if g <= b {
        g
    } else {
        b
    };
    let l: i64 = tdiv_i128(mx as i128 + mn as i128, 2) as i64;
    let d: i128 = mx as i128 - mn as i128;
    if d == 0 {
        (0, 0, l)
    } else {
        let base: i128 = if r >= g && r >= b {
            tdiv_sign(diff_times_scale(g, b), d)
        } else if g >= b {
            tdiv_sign(diff_times_scale(b, r), d) + 2 * (SCALE as i128)
        } else {
            tdiv_sign(diff_times_scale(r, g), d) + 4 * (SCALE as i128)
        };
        let h: i64 = emod_i128(base * 60, FULL_CIRCLE as i128) as i64;
        let den: i64 = clip_i128(SCALE as i128 - iabs_i128(2 * (l as i128) - SCALE as i128));
        let s: i64 = if den <= 0 {
            SCALE
        } else {
            let s0: i128 = tdiv_i128(diff_times_scale(mx, mn), den as i128);
            if s0 > SCALE as i128 {
                SCALE
            } else {
                s0 as i64
            }
        };
        (h, s, l)
    }
}

/// Truncated division by any nonzero divisor.
pub(crate) fn tdiv_sign(a: i128, b: i128) -> (q: i128)
    requires
        b != 0,
        a > i128::MIN,
        b > i128::MIN,
    ensures
        q as int == tdiv(a as int, b as int),
        iabs(q as int) <= iabs(a as int),
{
    if b > 0 {
        tdiv_i128(a, b)
    } else {
        -tdiv_i128(a, -b)
    }
}

/// Executable hue rotation.
pub(crate) fn rotate_hue_exec(c: Color, angle: Fixed) -> (out: Color)
    ensures
        out@ == rotate_hue_color(c@, angle@),
{
    let (h, s, l): (i64, i64, i64) = rgb_to_hsl_exec(c);
    let h2: i64 = emod_i128(h as i128 + angle.raw as i128, FULL_CIRCLE as i128) as i64;
    hsl_to_rgb_exec(h2, s, l)
}

/// Executable rainbow color.
pub(crate) fn rainbow_exec(t: Fixed) -> (out: Color)
    ensures
        out@ == rainbow_color(t@),
{
    let h: i64 = emod_i128(t.raw as i128, FULL_CIRCLE as i128) as i64;
    hsl_to_rgb_exec(h, SCALE, HALF_UNIT)
}

} // verus!
