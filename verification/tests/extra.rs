use rgb_int::Rgb24;
use rgb_int::Rgba32;
use rgb_int::WeightsU16;

#[test]
fn add_without_clamping_is_exact() {
    assert_eq!(
        Rgb24::new(10, 20, 30).saturating_add(Rgb24::new(1, 2, 3)),
        Rgb24::new(11, 22, 33)
    );
}

#[test]
fn sub_without_clamping_is_exact() {
    assert_eq!(
        Rgb24::new(10, 20, 30).saturating_sub(Rgb24::new(1, 2, 3)),
        Rgb24::new(9, 18, 27)
    );
}

#[test]
fn hex_ignores_top_byte() {
    assert_eq!(Rgb24::hex(0xff123456), Rgb24::hex(0x123456));
    assert_eq!(Rgba32::hex_rgb(0xff123456), Rgba32::hex_rgb(0x123456));
}

#[test]
fn with_channel_replaces_only_that_channel() {
    let c = Rgb24::new(1, 2, 3);
    assert_eq!(c.with_r(9), Rgb24::new(9, 2, 3));
    assert_eq!(c.with_g(9), Rgb24::new(1, 9, 3));
    assert_eq!(c.with_b(9), Rgb24::new(1, 2, 9));
    let d = Rgba32::new(1, 2, 3, 4);
    assert_eq!(d.with_r(9), Rgba32::new(9, 2, 3, 4));
    assert_eq!(d.with_g(9), Rgba32::new(1, 9, 3, 4));
    assert_eq!(d.with_b(9), Rgba32::new(1, 2, 9, 4));
    assert_eq!(d.with_a(9), Rgba32::new(1, 2, 3, 9));
}

#[test]
fn rgba32_constructors_are_opaque() {
    assert_eq!(Rgba32::new_rgb(1, 2, 3), Rgba32::new(1, 2, 3, 255));
    assert_eq!(Rgba32::new_grey(7), Rgba32::new(7, 7, 7, 255));
}

#[test]
fn rgba32_round_trip_preserves_rgb() {
    let c = Rgb24::new(12, 34, 56);
    assert_eq!(c.to_rgba32(0).to_rgb24(), c);
    assert_eq!(c.to_rgba32(128).to_rgb24(), c);
    assert_eq!(c.to_rgba32(255).to_rgb24(), c);
}

#[test]
fn complement_inverts_channels() {
    assert_eq!(Rgb24::new(0, 100, 255).complement(), Rgb24::new(255, 155, 0));
    assert_eq!(Rgb24::new(0, 0, 0).complement(), Rgb24::new(255, 255, 255));
}

#[test]
fn channel_extrema() {
    let c = Rgb24::new(10, 200, 100);
    assert_eq!(c.min_channel(), 10);
    assert_eq!(c.max_channel(), 200);
    let grey = Rgb24::new_grey(50);
    assert_eq!(grey.min_channel(), 50);
    assert_eq!(grey.max_channel(), 50);
}

#[test]
fn channel_total_saturates() {
    assert_eq!(Rgb24::new(10, 20, 30).saturating_channel_total(), 60);
    assert_eq!(Rgb24::new(200, 200, 200).saturating_channel_total(), 255);
}

#[test]
fn weighted_mean_scaled_weights_agree() {
    let c = Rgb24::new(14, 120, 201);
    assert_eq!(
        c.weighted_mean_u16(WeightsU16::new(299, 587, 114)),
        c.weighted_mean_u16(WeightsU16::new(299 * 7, 587 * 7, 114 * 7))
    );
}

#[test]
fn opaque_above_composites_to_itself() {
    let above = Rgba32::new(100, 0, 0, 255);
    let below = Rgba32::new(0, 200, 0, 255);
    assert_eq!(above.alpha_composite(below), above);
}

#[test]
fn transparent_above_composites_to_opaque_below() {
    let above = Rgba32::new(100, 50, 25, 0);
    let below = Rgba32::new(10, 20, 30, 255);
    assert_eq!(above.alpha_composite(below), below);
}

#[test]
fn half_alpha_composite() {
    let above = Rgba32::new(100, 0, 0, 128);
    let below = Rgba32::new(0, 200, 0, 255);
    assert_eq!(above.alpha_composite(below), Rgba32::new(50, 99, 0, 255));
}

#[test]
fn rgba32_mul_div_passes_alpha_through() {
    assert_eq!(
        Rgba32::new(1, 2, 3, 77).saturating_scalar_mul_div(1500, 1000),
        Rgba32::new(1, 3, 4, 77)
    );
    assert_eq!(
        Rgba32::new(1, 2, 3, 77).saturating_scalar_mul_div(1500, 1),
        Rgba32::new(255, 255, 255, 77)
    );
}

#[test]
fn floor_and_ceil_at_extremes() {
    assert_eq!(Rgb24::new(1, 2, 3).floor(0), Rgb24::new(1, 2, 3));
    assert_eq!(Rgb24::new(1, 2, 3).floor(255), Rgb24::new_grey(255));
    assert_eq!(Rgb24::new(1, 2, 3).ceil(255), Rgb24::new(1, 2, 3));
    assert_eq!(Rgb24::new(1, 2, 3).ceil(0), Rgb24::new_grey(0));
}

#[test]
fn interpolate_between_equal_colors_is_constant() {
    let c = Rgba32::new(9, 8, 7, 6);
    assert_eq!(c.linear_interpolate(c, 100), c);
    let g = Rgb24::new(9, 8, 7);
    assert_eq!(g.linear_interpolate(g, 100), g);
}
