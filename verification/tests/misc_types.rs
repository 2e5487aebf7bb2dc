use rbx_types::valid_grid_resolution;
use rbx_types::Content;
use rbx_types::CustomPhysicalProperties;
use rbx_types::Enum;
use rbx_types::Font;
use rbx_types::FontStyle;
use rbx_types::FontWeight;
use rbx_types::PhysicalProperties;

#[test]
fn font_weight_codes_round_trip() {
    for code in [100u16, 200, 300, 400, 500, 600, 700, 800, 900] {
        let w = FontWeight::from_u16(code).unwrap();
        assert_eq!(w.as_u16(), code);
    }
    assert_eq!(FontWeight::from_u16(0), None);
    assert_eq!(FontWeight::from_u16(450), None);
    assert_eq!(FontWeight::from_u16(1000), None);
}

#[test]
fn font_style_codes_round_trip() {
    assert_eq!(FontStyle::from_u8(0), Some(FontStyle::Normal));
    assert_eq!(FontStyle::from_u8(1), Some(FontStyle::Italic));
    for code in 2u8..=255 {
        assert_eq!(FontStyle::from_u8(code), None);
    }
}

#[test]
fn font_constructors() {
    let f = Font::new("rbxasset://fonts/families/Arial.json", FontWeight::Bold, FontStyle::Italic);
    assert_eq!(f.family, "rbxasset://fonts/families/Arial.json");
    assert_eq!(f.weight, FontWeight::Bold);
    assert_eq!(f.style, FontStyle::Italic);
    assert_eq!(f.cached_face_id, None);

    let r = Font::regular("rbxasset://fonts/families/Arial.json");
    assert_eq!(r.weight, FontWeight::Regular);
    assert_eq!(r.style, FontStyle::Normal);

    let d = Font::default();
    assert_eq!(d.family, "rbxasset://fonts/families/SourceSansPro.json");
    assert_eq!(d.weight, FontWeight::Regular);
    assert_eq!(d.style, FontStyle::Normal);
}

#[test]
fn content_wraps_a_url() {
    let c = Content::new();
    assert_eq!(c.into_string(), "");

    let c = Content::from_url("rbxassetid://12345");
    assert_eq!(c.into_string(), "rbxassetid://12345");
}

#[test]
fn enum_wraps_a_raw_value() {
    assert_eq!(Enum::from_u32(1234).to_u32(), 1234);
}

#[test]
fn custom_physical_properties_promote() {
    let custom = CustomPhysicalProperties {
        density: 1.0f32.to_bits(),
        friction: 0.5f32.to_bits(),
        elasticity: 0.0f32.to_bits(),
        friction_weight: 6.0f32.to_bits(),
        elasticity_weight: 5.0f32.to_bits(),
    };
    assert_eq!(PhysicalProperties::from(custom), PhysicalProperties::Custom(custom));
    assert!(PhysicalProperties::Default != PhysicalProperties::from(custom));
}

#[test]
fn grid_resolution_validity() {
    assert!(valid_grid_resolution(4.0f32.to_bits()));
    assert!(valid_grid_resolution(0.5f32.to_bits()));
    assert!(!valid_grid_resolution(0.0f32.to_bits()));
    assert!(!valid_grid_resolution((-4.0f32).to_bits()));
    assert!(!valid_grid_resolution(f32::NAN.to_bits()));
    assert!(!valid_grid_resolution(f32::INFINITY.to_bits()));
    assert!(!valid_grid_resolution(1)); // subnormal
}
