//! The 32-bit RGBA color value type, its channel arithmetic, and alpha
//! compositing.

use crate::channel::clamp_255;
use crate::channel::interpolate_channel;
use crate::channel::interpolate_spec;
use crate::channel::lemma_interpolate_endpoints;
use crate::channel::normalised_mul_channel;
use crate::channel::normalised_mul_spec;
use crate::channel::saturating_mul_div_channel;
use crate::rgb24::Rgb24;
use vstd::arithmetic::div_mod::lemma_div_is_ordered;
use vstd::arithmetic::div_mod::lemma_div_multiples_vanish;
use vstd::arithmetic::div_mod::lemma_div_pos_is_pos;
use vstd::prelude::*;

verus! {

/// A color with four 8-bit channels: red, green, blue, and alpha.
/// Alpha 0 is fully transparent; alpha 255 is fully opaque. Alpha is
/// straight (not premultiplied), and no invariant ties it to the other
/// channels.
///
/// An immutable plain value: every operation returns a new color.
#[derive(Clone, Copy, Debug, PartialEq, Eq, Structural, PartialOrd, Ord, Hash)]
pub struct Rgba32 {
    pub r: u8,
    pub g: u8,
    pub b: u8,
    pub a: u8,
}

impl Rgba32 {
    pub fn new(r: u8, g: u8, b: u8, a: u8) -> (c: Self)
        ensures
            c == (Rgba32 { r, g, b, a }),
    {
        Rgba32 { r, g, b, a }
    }

    /// The fully opaque color with the given RGB channels.
    pub fn new_rgb(r: u8, g: u8, b: u8) -> (c: Self)
        ensures
            c == (Rgba32 { r, g, b, a: 255 }),
    {
        Rgba32 { r, g, b, a: 255 }
    }

    /// The fully opaque grey color with all three RGB channels equal to `x`.
    pub fn new_grey(x: u8) -> (c: Self)
        ensures
            c == (Rgba32 { r: x, g: x, b: x, a: 255 }),
    {
        Rgba32 { r: x, g: x, b: x, a: 255 }
    }

    /// The color encoded in `hex` laid out `0xRRGGBBAA`: alpha occupies the
    /// lowest byte, unlike [`Rgb24::hex`].
    pub fn hex(hex: u32) -> (c: Self)
        ensures
            c.r == hex / 0x1000000,
            c.g == (hex / 0x10000) % 0x100,
            c.b == (hex / 0x100) % 0x100,
            c.a == hex % 0x100,
    {
        Rgba32 {
            r: (hex / 0x1000000) as u8,
            g: ((hex / 0x10000) % 0x100) as u8,
            b: ((hex / 0x100) % 0x100) as u8,
            a: (hex % 0x100) as u8,
        }
    }

    /// The fully opaque color whose RGB channels are encoded in the low
    /// 24 bits of `hex`, laid out `0x00RRGGBB`; the top byte is ignored.
    pub fn hex_rgb(hex: u32) -> (c: Self)
        ensures
            c.r == (hex / 0x10000) % 0x100,
            c.g == (hex / 0x100) % 0x100,
            c.b == hex % 0x100,
            c.a == 255,
    {
        Rgba32 {
            r: ((hex / 0x10000) % 0x100) as u8,
            g: ((hex / 0x100) % 0x100) as u8,
            b: (hex % 0x100) as u8,
            a: 255,
        }
    }

    /// The color this one becomes when the alpha channel is dropped.
    pub open spec fn to_rgb24_spec(self) -> Rgb24 {
        Rgb24 { r: self.r, g: self.g, b: self.b }
    }

    /// The color with the alpha channel dropped.
    pub fn to_rgb24(self) -> (c: Rgb24)
        ensures
            c == self.to_rgb24_spec(),
    {
        Rgb24 { r: self.r, g: self.g, b: self.b }
    }

    pub fn with_r(self, r: u8) -> (c: Self)
        ensures
            c == (Rgba32 { r, ..self }),
    {
        Rgba32 { r, ..self }
    }

    pub fn with_g(self, g: u8) -> (c: Self)
        ensures
            c == (Rgba32 { g, ..self }),
    {
        Rgba32 { g, ..self }
    }

    pub fn with_b(self, b: u8) -> (c: Self)
        ensures
            c == (Rgba32 { b, ..self }),
    {
        Rgba32 { b, ..self }
    }

    pub fn with_a(self, a: u8) -> (c: Self)
        ensures
            c == (Rgba32 { a, ..self }),
    {
        Rgba32 { a, ..self }
    }

    /// Per-channel linear interpolation from `self` toward `to` by the
    /// fraction `by / 255`, the alpha channel interpolated like the others.
    /// Interpolating by 0 returns `self` exactly, and by 255 returns `to`
    /// exactly.
    pub fn linear_interpolate(self, to: Rgba32, by: u8) -> (c: Self)
        ensures
            c.r == interpolate_spec(self.r as int, to.r as int, by as int),
            c.g == interpolate_spec(self.g as int, to.g as int, by as int),
            c.b == interpolate_spec(self.b as int, to.b as int, by as int),
            c.a == interpolate_spec(self.a as int, to.a as int, by as int),
            by == 0 ==> c == self,
            by == 255 ==> c == to,
    {
        proof {
            lemma_interpolate_endpoints(self.r as int, to.r as int);
            lemma_interpolate_endpoints(self.g as int, to.g as int);
            lemma_interpolate_endpoints(self.b as int, to.b as int);
            lemma_interpolate_endpoints(self.a as int, to.a as int);
        }
        Rgba32 {
            r: interpolate_channel(self.r, to.r, by),
            g: interpolate_channel(self.g, to.g, by),
            b: interpolate_channel(self.b, to.b, by),
            a: interpolate_channel(self.a, to.a, by),
        }
    }

    /// The below color's alpha contribution to the composite:
    /// `below.a * (255 - self.a) / 255`.
    pub open spec fn alpha_out_rhs_spec(self, below: Rgba32) -> int {
        normalised_mul_spec(below.a as int, 255 - self.a)
    }

    /// The composite alpha: `self.a + below.a * (255 - self.a) / 255`.
    pub open spec fn alpha_out_spec(self, below: Rgba32) -> int {
        self.a + self.alpha_out_rhs_spec(below)
    }

    /// One composite RGB channel: the premultiplied contributions of the
    /// two colors, un-premultiplied by the composite alpha.
    pub open spec fn composite_channel_spec(self, below: Rgba32, ca: int, cb: int) -> int {
        (255 * (normalised_mul_spec(ca, self.a as int) + normalised_mul_spec(
            cb,
            self.alpha_out_rhs_spec(below),
        ))) / self.alpha_out_spec(below)
    }

    /// Porter-Duff "over" compositing of `self` above `below` in 8-bit fixed
    /// point, on straight-alpha colors. At least one of the two alphas must
    /// be nonzero: compositing two fully transparent colors is a caller
    /// error, not a recoverable condition.
    ///
    /// The composite alpha never exceeds 255, so the alpha addition neither
    /// wraps nor saturates; see [`lemma_alpha_composite_alpha_in_range`].
    pub fn alpha_composite(self, below: Rgba32) -> (c: Rgba32)
        requires
            self.a != 0 || below.a != 0,
        ensures
            c.r == self.composite_channel_spec(below, self.r as int, below.r as int),
            c.g == self.composite_channel_spec(below, self.g as int, below.g as int),
            c.b == self.composite_channel_spec(below, self.b as int, below.b as int),
            c.a == self.alpha_out_spec(below),
    {
        let rhs: u8 = normalised_mul_channel(below.a, 255 - self.a);
        let alpha_out: u8 = self.a + rhs;
        proof {
            if self.a == 0 && below.a != 0 {
                assert(below.a as int * (255 - self.a) == 255 * below.a as int);
                lemma_div_multiples_vanish(below.a as int, 255);
            }
        }
        Rgba32 {
            r: composite_channel(self.r, below.r, self.a, rhs, alpha_out),
            g: composite_channel(self.g, below.g, self.a, rhs, alpha_out),
            b: composite_channel(self.b, below.b, self.a, rhs, alpha_out),
            a: alpha_out,
        }
    }

    /// Each RGB channel multiplied by `scalar / 255`, the scalar read as a
    /// fraction of full scale; alpha passes through unchanged.
    pub fn normalised_scalar_mul(self, scalar: u8) -> (c: Self)
        ensures
            c.r == normalised_mul_spec(self.r as int, scalar as int),
            c.g == normalised_mul_spec(self.g as int, scalar as int),
            c.b == normalised_mul_spec(self.b as int, scalar as int),
            c.a == self.a,
    {
        Rgba32 {
            r: normalised_mul_channel(self.r, scalar),
            g: normalised_mul_channel(self.g, scalar),
            b: normalised_mul_channel(self.b, scalar),
            a: self.a,
        }
    }

    /// Each RGB channel multiplied by `numerator` and divided by
    /// `denominator` in widened arithmetic, clamped to 255; alpha passes
    /// through unchanged. `denominator` must not be zero.
    pub fn saturating_scalar_mul_div(self, numerator: u32, denominator: u32) -> (c: Self)
        requires
            denominator != 0,
        ensures
            c.r == clamp_255((self.r * numerator) / (denominator as int)),
            c.g == clamp_255((self.g * numerator) / (denominator as int)),
            c.b == clamp_255((self.b * numerator) / (denominator as int)),
            c.a == self.a,
    {
        Rgba32 {
            r: saturating_mul_div_channel(self.r, numerator, denominator),
            g: saturating_mul_div_channel(self.g, numerator, denominator),
            b: saturating_mul_div_channel(self.b, numerator, denominator),
            a: self.a,
        }
    }

    /// Per-channel normalised fixed-point multiplication `(a * b) / 255` of
    /// the RGB channels; alpha passes through unchanged.
    pub fn normalised_mul(self, other: Self) -> (c: Self)
        ensures
            c.r == normalised_mul_spec(self.r as int, other.r as int),
            c.g == normalised_mul_spec(self.g as int, other.g as int),
            c.b == normalised_mul_spec(self.b as int, other.b as int),
            c.a == self.a,
    {
        Rgba32 {
            r: normalised_mul_channel(self.r, other.r),
            g: normalised_mul_channel(self.g, other.g),
            b: normalised_mul_channel(self.b, other.b),
            a: self.a,
        }
    }
}

/// One composite RGB channel: `(255 * (ca * a_top / 255 + cb * rhs / 255))
/// / alpha_out`, where `alpha_out = a_top + rhs` is nonzero. The two
/// premultiplied contributions are each bounded by their alpha factor, so
/// their sum is bounded by `alpha_out` and the result fits in a channel.
fn composite_channel(ca: u8, cb: u8, a_top: u8, rhs: u8, alpha_out: u8) -> (r: u8)
    requires
        alpha_out == a_top + rhs,
        alpha_out != 0,
    ensures
        r == (255 * (normalised_mul_spec(ca as int, a_top as int) + normalised_mul_spec(
            cb as int,
            rhs as int,
        ))) / alpha_out as int,
{
    let x: u8 = normalised_mul_channel(ca, a_top);
    let y: u8 = normalised_mul_channel(cb, rhs);
    let total: u8 = x + y;
    proof {
        lemma_div_is_ordered(255 * total as int, 255 * alpha_out as int, alpha_out as int);
        assert(255 * alpha_out as int == alpha_out as int * 255);
        lemma_div_multiples_vanish(255, alpha_out as int);
    }
    let wide: u16 = 255 * total as u16;
    (wide / alpha_out as u16) as u8
}

/// The composite alpha `a + below.a * (255 - a) / 255` always lies in the
/// 8-bit channel range: the second term is at most `255 - a`, so the
/// addition in alpha compositing can neither wrap nor need saturation.
pub proof fn lemma_alpha_composite_alpha_in_range(above: Rgba32, below: Rgba32)
    ensures
        0 <= above.alpha_out_spec(below) <= 255,
        above.alpha_out_rhs_spec(below) <= 255 - above.a,
{
    assert(below.a as int * (255 - above.a) <= 255 * (255 - above.a)) by (nonlinear_arith);
    assert(below.a as int * (255 - above.a) >= 0) by (nonlinear_arith);
    lemma_div_pos_is_pos(below.a as int * (255 - above.a), 255);
    lemma_div_is_ordered(below.a as int * (255 - above.a), 255 * (255 - above.a), 255);
    assert(255 * (255 - above.a) == (255 - above.a) * 255);
    lemma_div_multiples_vanish(255 - above.a, 255);
}

/// Attaching any alpha to a 24-bit color and dropping it again returns the
/// original color, for every color and every alpha.
pub proof fn lemma_to_rgba32_to_rgb24_roundtrip(c: Rgb24, a: u8)
    ensures
        c.to_rgba32_spec(a).to_rgb24_spec() == c,
{
}

} // verus!
