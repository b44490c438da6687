use rgb_int::Rgba32;

#[test]
fn rgba32_normalised_mul() {
    assert_eq!(
        Rgba32::new(255, 255, 255, 127).normalised_mul(Rgba32::new(1, 2, 3, 127)),
        Rgba32::new(1, 2, 3, 127)
    );
    assert_eq!(
        Rgba32::new(255, 127, 0, 127).normalised_mul(Rgba32::new(10, 20, 30, 127)),
        Rgba32::new(10, 9, 0, 127)
    );
}

#[test]
fn rgba32_normalised_scalar_mul() {
    assert_eq!(
        Rgba32::new(255, 128, 0, 127).normalised_scalar_mul(128),
        Rgba32::new(128, 64, 0, 127)
    );
}

#[test]
fn rgba32_interpolate() {
    let from = Rgba32::new(0, 255, 100, 127);
    let to = Rgba32::new(255, 0, 120, 127);
    assert_eq!(from.linear_interpolate(to, 0), from);
    assert_eq!(from.linear_interpolate(to, 255), to);
    assert_eq!(
        from.linear_interpolate(to, 63),
        Rgba32::new(63, 192, 104, 127)
    );
}

#[test]
fn rgba32_hex() {
    assert_eq!(Rgba32::hex(0x12345678), Rgba32::new(0x12, 0x34, 0x56, 0x78));
}

#[test]
fn hex_rgb() {
    assert_eq!(Rgba32::hex_rgb(0x123456), Rgba32::new_rgb(0x12, 0x34, 0x56));
}
