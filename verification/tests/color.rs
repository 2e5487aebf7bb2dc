use rbx_types::Color3;
use rbx_types::Color3uint8;

fn c3(r: f32, g: f32, b: f32) -> Color3 {
    Color3::new(r.to_bits(), g.to_bits(), b.to_bits())
}

#[test]
fn clamped_conversion() {
    // Channels outside the unit interval clamp; 0.5 * 255 = 127.5 rounds
    // away from zero to 128.
    assert_eq!(
        Color3uint8::from(c3(-1.0, 0.5, 2.0)),
        Color3uint8::new(0, 128, 255)
    );
}

#[test]
fn byte_conversion_matches_float_arithmetic() {
    // The integer rounding path agrees with the floating-point formula on
    // values whose product with 255 is exact.
    let cases: [(f32, u8); 10] = [
        (0.0, 0),
        (-0.0, 0),
        (1.0, 255),
        (0.25, 64),
        (0.75, 191),
        (2.5, 255),
        (-0.25, 0),
        (f32::INFINITY, 255),
        (f32::NEG_INFINITY, 0),
        (f32::MIN_POSITIVE, 0),
    ];
    for &(x, expected) in cases.iter() {
        let got = Color3uint8::from(c3(x, x, x));
        assert_eq!(got, Color3uint8::new(expected, expected, expected), "channel {x}");
    }
}

#[test]
fn nan_clamps_to_zero() {
    let got = Color3uint8::from(c3(f32::NAN, 0.5, f32::NAN));
    assert_eq!(got, Color3uint8::new(0, 128, 0));
}

#[test]
fn expansion_is_exact_division() {
    // Every byte expands to exactly the float the division produces.
    for b in 0u8..=255 {
        let up = Color3::from(Color3uint8::new(b, b, b));
        let expected = (b as f32 / 255.0).to_bits();
        assert_eq!(up.r, expected, "byte {b}");
        assert_eq!(up.g, expected);
        assert_eq!(up.b, expected);
    }
}

#[test]
fn every_byte_survives_the_float_round_trip() {
    for b in 0u8..=255 {
        let byte = Color3uint8::new(b, b.wrapping_add(17), b / 2);
        let back = Color3uint8::from(Color3::from(byte));
        assert_eq!(back, byte, "byte {b}");
    }
}

#[test]
fn denormal_channels_round_to_zero() {
    let tiny = f32::from_bits(0x0000_0001);
    assert_eq!(Color3uint8::from(c3(tiny, tiny, tiny)), Color3uint8::new(0, 0, 0));
}
