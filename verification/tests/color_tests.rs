use render_core::color::{
    black, blue, cyan, green, magenta, red, white, yellow, Color8Bit, Color8BitA, Color10Bit,
    Color10BitA, Color12Bit, Color12BitA,
};

#[test]
fn rgb_keeps_channels() {
    let c = Color8Bit::rgb(12, 34, 56);
    assert_eq!(c.r, 12);
    assert_eq!(c.g, 34);
    assert_eq!(c.b, 56);
}

#[test]
fn rgba_keeps_channels() {
    let c = Color8Bit::rgba(12, 34, 56, 78);
    assert_eq!(c, Color8BitA::rgba(12, 34, 56, 78));
    assert_eq!(c.a, 78);
}

#[test]
fn as_rgb_drops_alpha() {
    let c = Color8BitA::rgba(1, 2, 3, 4).as_rgb();
    assert_eq!(c, Color8Bit::rgb(1, 2, 3));
}

#[test]
fn narrow_10bit_full_scale() {
    assert_eq!(
        Color10Bit::rgb(1023, 1023, 1023).as_8bit(),
        Color8Bit::rgb(255, 255, 255)
    );
}

#[test]
fn narrow_12bit_zero() {
    assert_eq!(Color12Bit::rgb(0, 0, 0).as_8bit(), Color8Bit::rgb(0, 0, 0));
}

#[test]
fn narrow_10bit_midrange() {
    // 511 * 255 / 1023 = 127, 512 * 255 / 1023 = 127, 100 * 255 / 1023 = 24.
    assert_eq!(
        Color10Bit::rgb(511, 512, 100).as_8bit(),
        Color8Bit::rgb(127, 127, 24)
    );
}

#[test]
fn narrow_12bit_midrange() {
    // 2048 * 255 / 4095 = 127, 1000 * 255 / 4095 = 62, 4095 * 255 / 4095 = 255.
    assert_eq!(
        Color12Bit::rgb(2048, 1000, 4095).as_8bit(),
        Color8Bit::rgb(127, 62, 255)
    );
}

#[test]
fn narrow_clamps_out_of_range_channels() {
    // Channels above the nominal maximum are a caller error; the rescale
    // still clamps to the 8-bit range instead of wrapping.
    assert_eq!(
        Color10Bit::rgb(65535, 2047, 1024).as_8bit(),
        Color8Bit::rgb(255, 255, 255)
    );
}

#[test]
fn narrow_10bit_with_alpha() {
    assert_eq!(
        Color10BitA::rgba(1023, 0, 511, 1023).as_8bit(),
        Color8BitA::rgba(255, 0, 127, 255)
    );
}

#[test]
fn narrow_12bit_with_alpha() {
    assert_eq!(
        Color12BitA::rgba(4095, 0, 2048, 4095).as_8bit(),
        Color8BitA::rgba(255, 0, 127, 255)
    );
}

#[test]
fn ten_bit_as_rgb_drops_alpha() {
    assert_eq!(
        Color10BitA::rgba(1, 2, 3, 4).as_rgb(),
        Color10Bit::rgb(1, 2, 3)
    );
}

#[test]
fn twelve_bit_as_rgb_drops_alpha() {
    assert_eq!(
        Color12BitA::rgba(1, 2, 3, 4).as_rgb(),
        Color12Bit::rgb(1, 2, 3)
    );
}

#[test]
fn twelve_bit_rgba_builder() {
    assert_eq!(
        Color12Bit::rgba(9, 8, 7, 6),
        Color12BitA::rgba(9, 8, 7, 6)
    );
}

#[test]
fn ten_bit_rgba_builder() {
    assert_eq!(
        Color10Bit::rgba(9, 8, 7, 6),
        Color10BitA::rgba(9, 8, 7, 6)
    );
}

#[test]
fn add_saturates_at_full_scale() {
    let sum = Color8Bit::rgb(250, 250, 250).add(Color8Bit::rgb(10, 10, 10));
    assert_eq!(sum, Color8Bit::rgb(255, 255, 255));
}

#[test]
fn add_is_exact_below_full_scale() {
    let sum = Color8Bit::rgb(100, 20, 0).add(Color8Bit::rgb(50, 30, 200));
    assert_eq!(sum, Color8Bit::rgb(150, 50, 200));
}

#[test]
fn sub_saturates_at_zero() {
    let diff = Color8Bit::rgb(5, 5, 5).sub(Color8Bit::rgb(10, 10, 10));
    assert_eq!(diff, Color8Bit::rgb(0, 0, 0));
}

#[test]
fn sub_is_exact_above_zero() {
    let diff = Color8Bit::rgb(200, 50, 10).sub(Color8Bit::rgb(50, 50, 10));
    assert_eq!(diff, Color8Bit::rgb(150, 0, 0));
}

#[test]
fn named_colors() {
    assert_eq!(white(), Color8Bit::rgb(255, 255, 255));
    assert_eq!(black(), Color8Bit::rgb(0, 0, 0));
    assert_eq!(red(), Color8Bit::rgb(255, 0, 0));
    assert_eq!(green(), Color8Bit::rgb(0, 255, 0));
    assert_eq!(blue(), Color8Bit::rgb(0, 0, 255));
    assert_eq!(yellow(), Color8Bit::rgb(255, 255, 0));
    assert_eq!(magenta(), Color8Bit::rgb(255, 0, 255));
    assert_eq!(cyan(), Color8Bit::rgb(0, 255, 255));
}
