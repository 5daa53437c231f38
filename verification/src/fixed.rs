//! Fixed-point scalars.
//!
//! Coordinates, times, interpolation factors and color channels are all
//! `Fixed` values: signed 64-bit counts of millionths of a unit. Arithmetic
//! saturates at the representable range instead of wrapping, and division
//! truncates toward zero; the spec functions here state both behaviours
//! exactly, so every combinator contract can be written over plain integers.

use vstd::prelude::*;

verus! {

/// Number of raw steps in one unit: `Fixed { raw: SCALE }` is `1.0`.
pub const SCALE: i64 = 1_000_000;

/// A fixed-point scalar holding `raw` millionths of a unit.
#[derive(Clone, Copy, Debug, PartialEq, Eq, Structural)]
pub struct Fixed {
    pub raw: i64,
}

impl View for Fixed {
    type V = int;

    open spec fn view(&self) -> int {
        self.raw as int
    }
}

/// Whether a mathematical integer is representable as a raw `Fixed` count.
pub open spec fn in_range(x: int) -> bool {
    i64::MIN <= x <= i64::MAX
}

/// Saturation to the representable range.
pub open spec fn clip(x: int) -> int {
    if x > i64::MAX {
        i64::MAX as int
    } else if x < i64::MIN {
        i64::MIN as int
    } else {
        x
    }
}

/// Absolute value of a mathematical integer.
pub open spec fn iabs(x: int) -> int {
    if x < 0 {
        -x
    } else {
        x
    }
}

/// Division truncated toward zero, total with `tdiv(a, 0) == 0`.
pub open spec fn tdiv(a: int, b: int) -> int {
    if b == 0 {
        0
    } else if (a < 0) == (b < 0) {
        iabs(a) / iabs(b)
    } else {
        -(iabs(a) / iabs(b))
    }
}

/// Saturating addition of raw counts.
pub open spec fn spec_add(a: int, b: int) -> int {
    clip(a + b)
}

/// Saturating subtraction of raw counts.
pub open spec fn spec_sub(a: int, b: int) -> int {
    clip(a - b)
}

/// Saturating fixed-point product: `a * b` rescaled by `SCALE`.
pub open spec fn spec_mul(a: int, b: int) -> int {
    clip(tdiv(a * b, SCALE as int))
}

/// Saturating fixed-point quotient: `a / b` rescaled by `SCALE`.
/// A zero divisor saturates by the sign of the dividend, echoing the
/// infinities floating-point division would produce.
pub open spec fn spec_divide(a: int, b: int) -> int {
    if b == 0 {
        if a > 0 {
            i64::MAX as int
        } else if a < 0 {
            i64::MIN as int
        } else {
            0
        }
    } else {
        clip(tdiv(a * SCALE, b))
    }
}

/// Saturating linear interpolation of raw counts: `a + (b - a) * t`, with
/// `t` a fixed-point factor.
pub open spec fn spec_lerp(a: int, b: int, t: int) -> int {
    clip(a + tdiv(clip(b - a) * t, SCALE as int))
}

/// Saturate an `i128` intermediate back to the `i64` range.
pub(crate) fn clip_i128(x: i128) -> (r: i64)
    ensures
        r as int == clip(x as int),
{
    if x > i64::MAX as i128 {
        i64::MAX
    } else if x < i64::MIN as i128 {
        i64::MIN
    } else {
        x as i64
    }
}

/// Truncated division of an `i128` by a positive divisor.
pub(crate) fn tdiv_i128(a: i128, b: i128) -> (q: i128)
    requires
        b > 0,
        a > i128::MIN,
    ensures
        q as int == tdiv(a as int, b as int),
        iabs(q as int) == iabs(a as int) / (b as int),
        iabs(q as int) <= iabs(a as int),
{
    proof {
        vstd::arithmetic::div_mod::lemma_div_is_ordered_by_denominator(iabs(a as int), 1, b as int);
        vstd::arithmetic::div_mod::lemma_div_basics(iabs(a as int));
        vstd::arithmetic::div_mod::lemma_div_pos_is_pos(iabs(a as int), b as int);
    }
    if a >= 0 {
        let q: u128 = (a as u128) / (b as u128);
        q as i128
    } else {
        let mag: u128 = (-a) as u128;
        let q: u128 = mag / (b as u128);
        -(q as i128)
    }
}


/// Euclidean remainder of an `i128` intermediate by a positive modulus.
pub(crate) fn emod_i128(a: i128, m: i128) -> (r: i128)
    requires
        m > 0,
        a > i128::MIN,
    ensures
        r as int == (a as int) % (m as int),
        0 <= r < m,
{
    if a >= 0 {
        proof {
            vstd::arithmetic::div_mod::lemma_mod_division_less_than_divisor(a as int, m as int);
        }
        (a as u128 % (m as u128)) as i128
    } else {
        let mag: u128 = (-a) as u128;
        let md: u128 = m as u128;
        let rm: u128 = mag % md;
        proof {
            let gq = (mag as int) / (md as int);
            let gr = (mag as int) % (md as int);
            vstd::arithmetic::div_mod::lemma_fundamental_div_mod(mag as int, md as int);
            if rm as int == 0 {
                assert(a as int == (-gq) * (m as int) + 0) by (nonlinear_arith)
                    requires
                        mag as int == (md as int) * gq,
                        a as int == -(mag as int),
                        md as int == m as int,
                ;
                vstd::arithmetic::div_mod::lemma_fundamental_div_mod_converse(
                    a as int,
                    m as int,
                    -gq,
                    0,
                );
            } else {
                assert(a as int == (-gq - 1) * (m as int) + ((md as int) - gr)) by (nonlinear_arith)
                    requires
                        mag as int == (md as int) * gq + gr,
                        a as int == -(mag as int),
                        md as int == m as int,
                ;
                vstd::arithmetic::div_mod::lemma_fundamental_div_mod_converse(
                    a as int,
                    m as int,
                    -gq - 1,
                    (md as int) - (rm as int),
                );
            }
        }
        if rm == 0 {
            0
        } else {
            (md - rm) as i128
        }
    }
}

impl Fixed {
    /// The zero scalar.
    pub fn zero() -> (r: Fixed)
        ensures
            r@ == 0,
    {
        Fixed { raw: 0 }
    }

    /// The scalar `1.0`.
    pub fn one() -> (r: Fixed)
        ensures
            r@ == SCALE as int,
    {
        Fixed { raw: SCALE }
    }

    /// A scalar from a raw count of millionths.
    pub fn from_millionths(raw: i64) -> (r: Fixed)
        ensures
            r@ == raw as int,
    {
        Fixed { raw }
    }

    /// A scalar holding `n` whole units, saturated to the range.
    pub fn from_units(n: i64) -> (r: Fixed)
        ensures
            r@ == clip(n * SCALE),
    {
        proof {
            assert((n as int) * (SCALE as int) <= i128::MAX && (n as int) * (SCALE as int)
                >= i128::MIN + 1) by (nonlinear_arith)
                requires
                    i64::MIN <= n <= i64::MAX,
            ;
        }
        Fixed { raw: clip_i128((n as i128) * (SCALE as i128)) }
    }

    /// Saturating addition.
    pub fn add(self, rhs: Fixed) -> (r: Fixed)
        ensures
            r@ == spec_add(self@, rhs@),
    {
        Fixed { raw: clip_i128(self.raw as i128 + rhs.raw as i128) }
    }

    /// Saturating subtraction.
    pub fn sub(self, rhs: Fixed) -> (r: Fixed)
        ensures
            r@ == spec_sub(self@, rhs@),
    {
        Fixed { raw: clip_i128(self.raw as i128 - rhs.raw as i128) }
    }

    /// Saturating fixed-point multiplication.
    pub fn mul(self, rhs: Fixed) -> (r: Fixed)
        ensures
            r@ == spec_mul(self@, rhs@),
    {
        proof {
            assert((self.raw as int) * (rhs.raw as int) <= i128::MAX && (self.raw as int) * (
            rhs.raw as int) >= i128::MIN + 1) by (nonlinear_arith)
                requires
                    i64::MIN <= self.raw <= i64::MAX,
                    i64::MIN <= rhs.raw <= i64::MAX,
            ;
        }
        let p: i128 = (self.raw as i128) * (rhs.raw as i128);
        Fixed { raw: clip_i128(tdiv_i128(p, SCALE as i128)) }
    }

    /// Saturating fixed-point division; a zero divisor saturates by the
    /// sign of the dividend.
    pub fn div(self, rhs: Fixed) -> (r: Fixed)
        ensures
            r@ == spec_divide(self@, rhs@),
    {
        if rhs.raw == 0 {
            if self.raw > 0 {
                Fixed { raw: i64::MAX }
            } else if self.raw < 0 {
                Fixed { raw: i64::MIN }
            } else {
                Fixed { raw: 0 }
            }
        } else {
            proof {
                assert((self.raw as int) * (SCALE as int) <= i128::MAX && (self.raw as int) * (
                SCALE as int) >= i128::MIN + 1) by (nonlinear_arith)
                    requires
                        i64::MIN <= self.raw <= i64::MAX,
                ;
            }
            let p: i128 = (self.raw as i128) * (SCALE as i128);
            let q: i128 = if rhs.raw > 0 {
                tdiv_i128(p, rhs.raw as i128)
            } else {
                -tdiv_i128(p, -(rhs.raw as i128))
            };
            Fixed { raw: clip_i128(q) }
        }
    }

    /// Saturating linear interpolation toward `rhs` by factor `t`.
    pub fn lerp(self, rhs: Fixed, t: Fixed) -> (r: Fixed)
        ensures
            r@ == spec_lerp(self@, rhs@, t@),
    {
        let d: i64 = clip_i128(rhs.raw as i128 - self.raw as i128);
        proof {
            assert((d as int) * (t.raw as int) <= 85070591730234615865843651857942052864 && (
            d as int) * (t.raw as int) >= -85070591730234615865843651857942052864)
                by (nonlinear_arith)
                requires
                    i64::MIN <= d <= i64::MAX,
                    i64::MIN <= t.raw <= i64::MAX,
            ;
        }
        let p: i128 = (d as i128) * (t.raw as i128);
        let q: i128 = tdiv_i128(p, SCALE as i128);
        Fixed { raw: clip_i128(self.raw as i128 + q) }
    }

    /// Saturating absolute value.
    pub fn abs(self) -> (r: Fixed)
        ensures
            r@ == clip(iabs(self@)),
    {
        if self.raw == i64::MIN {
            Fixed { raw: i64::MAX }
        } else if self.raw < 0 {
            Fixed { raw: -self.raw }
        } else {
            self
        }
    }

    /// Euclidean remainder: the representative of `self` in `[0, m)`.
    pub fn rem_euclid(self, m: Fixed) -> (r: Fixed)
        requires
            m@ > 0,
        ensures
            r@ == self@ % m@,
    {
        Fixed { raw: emod_i128(self.raw as i128, m.raw as i128) as i64 }
    }

    /// How many whole strides fit in the magnitude of `self`: the cell
    /// index used by the checkerboard pattern.
    pub fn cell_index(self, stride: Fixed) -> (q: u64)
        requires
            stride@ != 0,
        ensures
            q as int == iabs(self@) / iabs(stride@),
    {
        let mag: u128 = if self.raw < 0 {
            (-(self.raw as i128)) as u128
        } else {
            self.raw as u128
        };
        let smag: u128 = if stride.raw < 0 {
            (-(stride.raw as i128)) as u128
        } else {
            stride.raw as u128
        };
        proof {
            vstd::arithmetic::div_mod::lemma_div_is_ordered_by_denominator(
                mag as int,
                1,
                smag as int,
            );
            vstd::arithmetic::div_mod::lemma_div_basics(mag as int);
        }
        (mag / smag) as u64
    }

    /// Comparison on the underlying count.
    pub fn lt(self, rhs: Fixed) -> (r: bool)
        ensures
            r == (self@ < rhs@),
    {
        self.raw < rhs.raw
    }
}

} // verus!
