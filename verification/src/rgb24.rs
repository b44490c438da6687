//! The 24-bit RGB color value type, its channel arithmetic, and the weight
//! triple used for weighted channel averaging.

use crate::channel::clamp_255;
use crate::channel::interpolate_channel;
use crate::channel::interpolate_spec;
use crate::channel::lemma_interpolate_endpoints;
use crate::channel::normalised_mul_channel;
use crate::channel::normalised_mul_spec;
use crate::channel::saturating_add_spec;
use crate::channel::saturating_mul_div_channel;
use crate::channel::saturating_sub_spec;
use crate::rgba32::Rgba32;
use vstd::arithmetic::div_mod::lemma_div_is_ordered;
use vstd::arithmetic::div_mod::lemma_div_multiples_vanish;
use vstd::arithmetic::div_mod::lemma_div_multiples_vanish_quotient;
use vstd::prelude::*;

verus! {

/// A triple of 16-bit channel weights together with their precomputed sum,
/// consumed by [`Rgb24::weighted_mean_u16`].
///
/// The only way to build one is [`WeightsU16::new`], so the stored sum always
/// equals the sum of the three weights.
#[derive(Clone, Copy, Debug)]
pub struct WeightsU16 {
    r: u16,
    g: u16,
    b: u16,
    sum: u32,
}

impl WeightsU16 {
    /// The stored red weight.
    pub closed spec fn spec_r(self) -> u16 {
        self.r
    }

    /// The stored green weight.
    pub closed spec fn spec_g(self) -> u16 {
        self.g
    }

    /// The stored blue weight.
    pub closed spec fn spec_b(self) -> u16 {
        self.b
    }

    /// The stored weight sum.
    pub closed spec fn spec_sum(self) -> u32 {
        self.sum
    }

    /// The stored sum equals the arithmetic sum of the three weights.
    pub open spec fn wf(self) -> bool {
        self.spec_sum() == self.spec_r() + self.spec_g() + self.spec_b()
    }

    pub fn new(r: u16, g: u16, b: u16) -> (w: Self)
        ensures
            w.spec_r() == r,
            w.spec_g() == g,
            w.spec_b() == b,
            w.wf(),
    {
        WeightsU16 { r, g, b, sum: r as u32 + g as u32 + b as u32 }
    }
}

/// A color with three 8-bit channels: red, green, blue.
///
/// An immutable plain value: every operation returns a new color.
#[derive(Clone, Copy, Debug, PartialEq, Eq, Structural, PartialOrd, Ord, Hash)]
pub struct Rgb24 {
    pub r: u8,
    pub g: u8,
    pub b: u8,
}

/// The weighted channel sum `r * w.r + g * w.g + b * w.b` that the weighted
/// mean divides by the weight sum.
pub open spec fn weighted_sum_spec(c: Rgb24, w: WeightsU16) -> int {
    c.r * w.spec_r() + c.g * w.spec_g() + c.b * w.spec_b()
}

impl Rgb24 {
    pub fn new(r: u8, g: u8, b: u8) -> (c: Self)
        ensures
            c == (Rgb24 { r, g, b }),
    {
        Rgb24 { r, g, b }
    }

    /// The color encoded in the low 24 bits of `hex`, laid out `0x00RRGGBB`;
    /// the top byte is ignored.
    pub fn hex(hex: u32) -> (c: Self)
        ensures
            c.r == (hex / 0x10000) % 0x100,
            c.g == (hex / 0x100) % 0x100,
            c.b == hex % 0x100,
    {
        Rgb24 {
            r: ((hex / 0x10000) % 0x100) as u8,
            g: ((hex / 0x100) % 0x100) as u8,
            b: (hex % 0x100) as u8,
        }
    }

    pub fn with_r(self, r: u8) -> (c: Self)
        ensures
            c == (Rgb24 { r, ..self }),
    {
        Rgb24 { r, ..self }
    }

    pub fn with_g(self, g: u8) -> (c: Self)
        ensures
            c == (Rgb24 { g, ..self }),
    {
        Rgb24 { g, ..self }
    }

    pub fn with_b(self, b: u8) -> (c: Self)
        ensures
            c == (Rgb24 { b, ..self }),
    {
        Rgb24 { b, ..self }
    }

    /// The grey color with all three channels equal to `c`.
    pub fn new_grey(c: u8) -> (grey: Self)
        ensures
            grey == (Rgb24 { r: c, g: c, b: c }),
    {
        Rgb24 { r: c, g: c, b: c }
    }

    /// Each channel raised to at least `min`.
    pub fn floor(self, min: u8) -> (c: Self)
        ensures
            c.r == if self.r < min { min as int } else { self.r as int },
            c.g == if self.g < min { min as int } else { self.g as int },
            c.b == if self.b < min { min as int } else { self.b as int },
    {
        Rgb24 {
            r: if self.r < min { min } else { self.r },
            g: if self.g < min { min } else { self.g },
            b: if self.b < min { min } else { self.b },
        }
    }

    /// Each channel lowered to at most `max`.
    pub fn ceil(self, max: u8) -> (c: Self)
        ensures
            c.r == if self.r > max { max as int } else { self.r as int },
            c.g == if self.g > max { max as int } else { self.g as int },
            c.b == if self.b > max { max as int } else { self.b as int },
    {
        Rgb24 {
            r: if self.r > max { max } else { self.r },
            g: if self.g > max { max } else { self.g },
            b: if self.b > max { max } else { self.b },
        }
    }

    /// The color this one becomes when attached to an alpha channel.
    pub open spec fn to_rgba32_spec(self, a: u8) -> Rgba32 {
        Rgba32 { r: self.r, g: self.g, b: self.b, a }
    }

    /// The color attached to an alpha channel, as a 32-bit RGBA value.
    pub fn to_rgba32(self, a: u8) -> (c: Rgba32)
        ensures
            c == self.to_rgba32_spec(a),
    {
        Rgba32 { r: self.r, g: self.g, b: self.b, a }
    }

    /// Per-channel addition, each channel saturating at 255.
    pub fn saturating_add(self, other: Self) -> (c: Self)
        ensures
            c.r == saturating_add_spec(self.r as int, other.r as int),
            c.g == saturating_add_spec(self.g as int, other.g as int),
            c.b == saturating_add_spec(self.b as int, other.b as int),
    {
        let r: u16 = self.r as u16 + other.r as u16;
        let g: u16 = self.g as u16 + other.g as u16;
        let b: u16 = self.b as u16 + other.b as u16;
        Rgb24 {
            r: if r > 255 { 255 } else { r as u8 },
            g: if g > 255 { 255 } else { g as u8 },
            b: if b > 255 { 255 } else { b as u8 },
        }
    }

    /// Per-channel subtraction, each channel saturating at 0.
    pub fn saturating_sub(self, other: Self) -> (c: Self)
        ensures
            c.r == saturating_sub_spec(self.r as int, other.r as int),
            c.g == saturating_sub_spec(self.g as int, other.g as int),
            c.b == saturating_sub_spec(self.b as int, other.b as int),
    {
        Rgb24 {
            r: if self.r >= other.r { self.r - other.r } else { 0 },
            g: if self.g >= other.g { self.g - other.g } else { 0 },
            b: if self.b >= other.b { self.b - other.b } else { 0 },
        }
    }

    /// Each channel multiplied by `scalar` in widened arithmetic, clamped
    /// to 255.
    pub fn saturating_scalar_mul(self, scalar: u32) -> (c: Self)
        ensures
            c.r == clamp_255(self.r * scalar),
            c.g == clamp_255(self.g * scalar),
            c.b == clamp_255(self.b * scalar),
    {
        proof {
            lemma_scalar_mul_is_mul_div(self.r, scalar);
            lemma_scalar_mul_is_mul_div(self.g, scalar);
            lemma_scalar_mul_is_mul_div(self.b, scalar);
        }
        Rgb24 {
            r: saturating_mul_div_channel(self.r, scalar, 1),
            g: saturating_mul_div_channel(self.g, scalar, 1),
            b: saturating_mul_div_channel(self.b, scalar, 1),
        }
    }

    /// Each channel integer-divided by `scalar`. `scalar` must not be zero:
    /// division by zero is a caller error, not a recoverable condition.
    pub fn scalar_div(self, scalar: u32) -> (c: Self)
        requires
            scalar != 0,
        ensures
            c.r == self.r as int / scalar as int,
            c.g == self.g as int / scalar as int,
            c.b == self.b as int / scalar as int,
    {
        proof {
            lemma_u8_div_fits(self.r, scalar);
            lemma_u8_div_fits(self.g, scalar);
            lemma_u8_div_fits(self.b, scalar);
        }
        Rgb24 {
            r: (self.r as u32 / scalar) as u8,
            g: (self.g as u32 / scalar) as u8,
            b: (self.b as u32 / scalar) as u8,
        }
    }

    /// Each channel multiplied by `numerator` and divided by `denominator` in
    /// widened arithmetic, clamped to 255. `denominator` must not be zero.
    pub fn saturating_scalar_mul_div(self, numerator: u32, denominator: u32) -> (c: Self)
        requires
            denominator != 0,
        ensures
            c.r == clamp_255((self.r * numerator) / (denominator as int)),
            c.g == clamp_255((self.g * numerator) / (denominator as int)),
            c.b == clamp_255((self.b * numerator) / (denominator as int)),
    {
        Rgb24 {
            r: saturating_mul_div_channel(self.r, numerator, denominator),
            g: saturating_mul_div_channel(self.g, numerator, denominator),
            b: saturating_mul_div_channel(self.b, numerator, denominator),
        }
    }

    /// Per-channel normalised fixed-point multiplication `(a * b) / 255`,
    /// both colors read as triples of fractions of full scale.
    pub fn normalised_mul(self, other: Self) -> (c: Self)
        ensures
            c.r == normalised_mul_spec(self.r as int, other.r as int),
            c.g == normalised_mul_spec(self.g as int, other.g as int),
            c.b == normalised_mul_spec(self.b as int, other.b as int),
    {
        Rgb24 {
            r: normalised_mul_channel(self.r, other.r),
            g: normalised_mul_channel(self.g, other.g),
            b: normalised_mul_channel(self.b, other.b),
        }
    }

    /// Each channel multiplied by `scalar / 255`, the scalar read as a
    /// fraction of full scale.
    pub fn normalised_scalar_mul(self, scalar: u8) -> (c: Self)
        ensures
            c.r == normalised_mul_spec(self.r as int, scalar as int),
            c.g == normalised_mul_spec(self.g as int, scalar as int),
            c.b == normalised_mul_spec(self.b as int, scalar as int),
    {
        Rgb24 {
            r: normalised_mul_channel(self.r, scalar),
            g: normalised_mul_channel(self.g, scalar),
            b: normalised_mul_channel(self.b, scalar),
        }
    }

    /// Per-channel linear interpolation from `self` toward `to` by the
    /// fraction `by / 255`. Interpolating by 0 returns `self` exactly, and
    /// by 255 returns `to` exactly.
    pub fn linear_interpolate(self, to: Rgb24, by: u8) -> (c: Self)
        ensures
            c.r == interpolate_spec(self.r as int, to.r as int, by as int),
            c.g == interpolate_spec(self.g as int, to.g as int, by as int),
            c.b == interpolate_spec(self.b as int, to.b as int, by as int),
            by == 0 ==> c == self,
            by == 255 ==> c == to,
    {
        proof {
            lemma_interpolate_endpoints(self.r as int, to.r as int);
            lemma_interpolate_endpoints(self.g as int, to.g as int);
            lemma_interpolate_endpoints(self.b as int, to.b as int);
        }
        Rgb24 {
            r: interpolate_channel(self.r, to.r, by),
            g: interpolate_channel(self.g, to.g, by),
            b: interpolate_channel(self.b, to.b, by),
        }
    }

    /// The smallest of the three channels.
    pub fn min_channel(self) -> (m: u8)
        ensures
            m <= self.r && m <= self.g && m <= self.b,
            m == self.r || m == self.g || m == self.b,
    {
        let rg: u8 = if self.r <= self.g { self.r } else { self.g };
        if rg <= self.b { rg } else { self.b }
    }

    /// The largest of the three channels.
    pub fn max_channel(self) -> (m: u8)
        ensures
            m >= self.r && m >= self.g && m >= self.b,
            m == self.r || m == self.g || m == self.b,
    {
        let rg: u8 = if self.r >= self.g { self.r } else { self.g };
        if rg >= self.b { rg } else { self.b }
    }

    /// The sum of the three channels, saturating at 255.
    pub fn saturating_channel_total(self) -> (t: u8)
        ensures
            t == clamp_255(self.r + self.g + self.b),
    {
        let total: u16 = self.r as u16 + self.g as u16 + self.b as u16;
        if total > 255 {
            255
        } else {
            total as u8
        }
    }

    /// The channel-wise color inverse `255 - channel`.
    pub fn complement(self) -> (c: Self)
        ensures
            c.r == 255 - self.r,
            c.g == 255 - self.g,
            c.b == 255 - self.b,
    {
        Rgb24 { r: 255 - self.r, g: 255 - self.g, b: 255 - self.b }
    }

    /// The weighted mean of the three channels,
    /// `(r * w.r + g * w.g + b * w.b) / w.sum`, truncated. The weights must
    /// not all be zero: a zero weight sum is a caller error, not a
    /// recoverable condition.
    pub fn weighted_mean_u16(self, weights: WeightsU16) -> (m: u8)
        requires
            weights.wf(),
            weights.spec_sum() != 0,
        ensures
            m == weighted_sum_spec(self, weights) / weights.spec_sum() as int,
    {
        proof {
            lemma_weighted_sum_bounds(self, weights);
        }
        let weighted_sum: u32 = self.r as u32 * weights.r as u32 + self.g as u32 * weights.g
            as u32 + self.b as u32 * weights.b as u32;
        proof {
            lemma_div_is_ordered(
                weighted_sum as int,
                255 * weights.spec_sum(),
                weights.spec_sum() as int,
            );
            assert(255 * weights.spec_sum() == weights.spec_sum() as int * 255);
            lemma_div_multiples_vanish(255, weights.spec_sum() as int);
        }
        (weighted_sum / weights.sum) as u8
    }
}

/// The weighted channel sum fits in 32 bits and never exceeds 255 times the
/// weight sum, so the weighted mean always fits in a channel.
proof fn lemma_weighted_sum_bounds(c: Rgb24, w: WeightsU16)
    ensures
        weighted_sum_spec(c, w) <= 255 * (w.spec_r() + w.spec_g() + w.spec_b()),
        0 <= weighted_sum_spec(c, w) <= 255 * 0xffff * 3,
{
    assert(c.r * w.spec_r() <= 255 * w.spec_r() && c.r * w.spec_r() <= 255 * 0xffff)
        by (nonlinear_arith);
    assert(c.g * w.spec_g() <= 255 * w.spec_g() && c.g * w.spec_g() <= 255 * 0xffff)
        by (nonlinear_arith);
    assert(c.b * w.spec_b() <= 255 * w.spec_b() && c.b * w.spec_b() <= 255 * 0xffff)
        by (nonlinear_arith);
    assert(c.r * w.spec_r() >= 0 && c.g * w.spec_g() >= 0 && c.b * w.spec_b() >= 0)
        by (nonlinear_arith);
}

/// Multiplying a channel by a scalar and clamping is the same as a scalar
/// multiply-divide with denominator 1.
proof fn lemma_scalar_mul_is_mul_div(c: u8, scalar: u32)
    ensures
        clamp_255((c * scalar) / 1int) == clamp_255(c * scalar),
{
    assert((c * scalar) / 1int == c * scalar) by (nonlinear_arith);
}

/// A channel divided by a nonzero scalar still fits in a channel.
proof fn lemma_u8_div_fits(c: u8, scalar: u32)
    requires
        scalar != 0,
    ensures
        0 <= c as int / scalar as int <= c,
{
    assert(0 <= c as int / scalar as int <= c) by (nonlinear_arith)
        requires
            scalar >= 1,
            0 <= c,
    ;
}

/// Saturating channel addition and subtraction never leave the 8-bit range,
/// and agree with ordinary addition and subtraction whenever no clamping is
/// needed.
pub proof fn lemma_saturating_arithmetic(a: int, b: int)
    requires
        0 <= a <= 255,
        0 <= b <= 255,
    ensures
        0 <= saturating_add_spec(a, b) <= 255,
        0 <= saturating_sub_spec(a, b) <= 255,
        a + b <= 255 ==> saturating_add_spec(a, b) == a + b,
        a - b >= 0 ==> saturating_sub_spec(a, b) == a - b,
{
}

/// Dividing every channel of a color by a scalar larger than any channel
/// value yields the black color, whatever the color was.
pub proof fn lemma_scalar_div_large_scalar_is_zero(c: Rgb24, scalar: u32)
    requires
        scalar >= 256,
    ensures
        c.r as int / scalar as int == 0,
        c.g as int / scalar as int == 0,
        c.b as int / scalar as int == 0,
{
    assert(c.r as int / scalar as int == 0 && c.g as int / scalar as int == 0 && c.b as int
        / scalar as int == 0) by (nonlinear_arith)
        requires
            scalar >= 256,
            c.r < 256 && c.g < 256 && c.b < 256,
    ;
}

/// Normalised multiplication by a full-scale channel is the identity: a
/// full-scale operand stands for the fraction 1.0.
pub proof fn lemma_normalised_mul_identity(c: int)
    requires
        0 <= c <= 255,
    ensures
        normalised_mul_spec(255, c) == c,
        normalised_mul_spec(c, 255) == c,
{
    lemma_div_multiples_vanish(c, 255);
    assert(c * 255 == 255 * c);
}

/// The weighted mean is unchanged when all three weights are scaled by the
/// same positive factor: the scale cancels between the weighted sum and the
/// weight sum.
pub proof fn lemma_weighted_mean_scale_invariant(c: Rgb24, w1: WeightsU16, w2: WeightsU16, k: int)
    requires
        w1.wf(),
        w2.wf(),
        w1.spec_sum() != 0,
        k >= 1,
        w2.spec_r() == k * w1.spec_r(),
        w2.spec_g() == k * w1.spec_g(),
        w2.spec_b() == k * w1.spec_b(),
    ensures
        w2.spec_sum() == k * w1.spec_sum(),
        w2.spec_sum() != 0,
        weighted_sum_spec(c, w2) / w2.spec_sum() as int == weighted_sum_spec(c, w1)
            / w1.spec_sum() as int,
{
    assert(w2.spec_sum() == k * w1.spec_sum()) by (nonlinear_arith)
        requires
            w1.wf(),
            w2.wf(),
            w2.spec_r() == k * w1.spec_r(),
            w2.spec_g() == k * w1.spec_g(),
            w2.spec_b() == k * w1.spec_b(),
    ;
    assert(weighted_sum_spec(c, w2) == k * weighted_sum_spec(c, w1)) by (nonlinear_arith)
        requires
            w2.spec_r() == k * w1.spec_r(),
            w2.spec_g() == k * w1.spec_g(),
            w2.spec_b() == k * w1.spec_b(),
            weighted_sum_spec(c, w1) == c.r * w1.spec_r() + c.g * w1.spec_g() + c.b * w1.spec_b(),
            weighted_sum_spec(c, w2) == c.r * w2.spec_r() + c.g * w2.spec_g() + c.b * w2.spec_b(),
    ;
    lemma_weighted_sum_bounds(c, w1);
    lemma_div_multiples_vanish_quotient(k, weighted_sum_spec(c, w1), w1.spec_sum() as int);
}

} // verus!
