//! Per-channel arithmetic shared by the color value types.
//!
//! A channel is an 8-bit color component. The specification functions here
//! describe each channel operation over mathematical integers; the executable
//! helpers compute them in widened machine arithmetic, proved exact.

use vstd::arithmetic::div_mod::lemma_div_is_ordered;
use vstd::arithmetic::div_mod::lemma_div_multiples_vanish;
use vstd::prelude::*;

verus! {

/// Clamp an integer to the top of the 8-bit channel range.
pub open spec fn clamp_255(x: int) -> int {
    if x > 255 {
        255
    } else {
        x
    }
}

/// Channel addition, saturating at 255.
pub open spec fn saturating_add_spec(a: int, b: int) -> int {
    clamp_255(a + b)
}

/// Channel subtraction, saturating at 0.
pub open spec fn saturating_sub_spec(a: int, b: int) -> int {
    if a - b < 0 {
        0
    } else {
        a - b
    }
}

/// Division rounding toward zero, as machine signed division does.
/// Spec-mode `/` is Euclidean division, which differs from machine division
/// when the numerator is negative.
pub open spec fn div_trunc(a: int, b: int) -> int {
    if a >= 0 {
        a / b
    } else {
        -((-a) / b)
    }
}

/// The normalised fixed-point product `(a * b) / 255`, with both operands
/// read as fractions of full scale (255 stands for 1.0).
pub open spec fn normalised_mul_spec(a: int, b: int) -> int {
    (a * b) / 255
}

/// Linear interpolation from `from` toward `to` by the fraction `by / 255`:
/// `from + ((to - from) * by) / 255`, the scaled delta rounded toward zero.
pub open spec fn interpolate_spec(from: int, to: int, by: int) -> int {
    from + div_trunc((to - from) * by, 255)
}

/// One channel of a saturating scalar multiply-divide:
/// `(c * numerator) / denominator`, clamped to 255.
pub(crate) fn saturating_mul_div_channel(c: u8, numerator: u32, denominator: u32) -> (r: u8)
    requires
        denominator != 0,
    ensures
        r == clamp_255((c * numerator) / (denominator as int)),
{
    assert(c * numerator <= 255 * 0xffff_ffffu64) by (nonlinear_arith);
    let wide: u64 = c as u64 * numerator as u64;
    let q: u64 = wide / denominator as u64;
    if q > 255 {
        255
    } else {
        q as u8
    }
}

/// One channel of the normalised fixed-point multiply `(a * b) / 255`.
pub(crate) fn normalised_mul_channel(a: u8, b: u8) -> (r: u8)
    ensures
        r == normalised_mul_spec(a as int, b as int),
        r <= a,
        r <= b,
{
    assert(a * b <= 255 * 255) by (nonlinear_arith);
    assert(a * b <= a * 255 && a * b <= 255 * b) by (nonlinear_arith);
    proof {
        lemma_div_is_ordered(a as int * b as int, a as int * 255, 255);
        lemma_div_is_ordered(a as int * b as int, 255 * b as int, 255);
        lemma_div_multiples_vanish(b as int, 255);
        assert(a as int * 255 == 255 * a as int);
        lemma_div_multiples_vanish(a as int, 255);
    }
    let wide: u16 = a as u16 * b as u16;
    (wide / 255) as u8
}

/// One channel of linear interpolation, computed in unsigned arithmetic by
/// splitting on the sign of the delta.
pub(crate) fn interpolate_channel(from: u8, to: u8, by: u8) -> (r: u8)
    ensures
        r == interpolate_spec(from as int, to as int, by as int),
{
    if to >= from {
        let d: u8 = to - from;
        proof {
            assert(d * by <= 255 * 255) by (nonlinear_arith);
            assert(d * by <= d * 255) by (nonlinear_arith);
            lemma_div_is_ordered(d as int * by as int, d as int * 255, 255);
            assert(d as int * 255 == 255 * (d as int));
            lemma_div_multiples_vanish(d as int, 255);
        }
        let delta: u32 = d as u32 * by as u32;
        let step: u32 = delta / 255;
        from + step as u8
    } else {
        let d: u8 = from - to;
        proof {
            assert(d * by <= 255 * 255) by (nonlinear_arith);
            assert(d * by <= d * 255) by (nonlinear_arith);
            lemma_div_is_ordered(d as int * by as int, d as int * 255, 255);
            assert(d as int * 255 == 255 * (d as int));
            lemma_div_multiples_vanish(d as int, 255);
            assert((to - from) as int * by as int == -((d as int) * (by as int)))
                by (nonlinear_arith)
                requires
                    d == from - to,
            ;
        }
        let delta: u32 = d as u32 * by as u32;
        let step: u32 = delta / 255;
        from - step as u8
    }
}

/// Interpolating by 0 leaves a channel unchanged, and interpolating by 255
/// lands exactly on the target channel.
pub proof fn lemma_interpolate_endpoints(from: int, to: int)
    requires
        0 <= from <= 255,
        0 <= to <= 255,
    ensures
        interpolate_spec(from, to, 0) == from,
        interpolate_spec(from, to, 255) == to,
{
    assert(interpolate_spec(from, to, 0) == from) by {
        assert((to - from) * 0 == 0);
        assert(div_trunc(0, 255) == 0);
    }
    assert(interpolate_spec(from, to, 255) == to) by {
        if to >= from {
            assert((to - from) * 255 == 255 * (to - from));
            lemma_div_multiples_vanish(to - from, 255);
        } else {
            assert(-((to - from) * 255) == (from - to) * 255);
            assert((from - to) * 255 == 255 * (from - to));
            lemma_div_multiples_vanish(from - to, 255);
        }
    }
}

} // verus!
