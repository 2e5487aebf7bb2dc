//! Font faces: typeface family, weight, and style.
//!
//! Weights and styles are closed enumerations with fixed numeric codes on
//! the wire; every code outside the table is rejected. The default family
//! is the engine's standard typeface.
use vstd::prelude::*;

verus! {

/// A font weight, on the conventional hundred-step scale.
#[derive(Debug, Copy, Clone, PartialEq, Eq, Hash, Default, Structural)]
pub enum FontWeight {
    Thin,
    ExtraLight,
    Light,
    #[default]
    Regular,
    Medium,
    SemiBold,
    Bold,
    ExtraBold,
    Heavy,
}

/// The weight a wire code names: the nine multiples of one hundred from
/// 100 to 900, and nothing else.
pub open spec fn spec_font_weight_from_u16(weight: u16) -> Option<FontWeight> {
    match weight {
        100u16 => Some(FontWeight::Thin),
        200u16 => Some(FontWeight::ExtraLight),
        300u16 => Some(FontWeight::Light),
        400u16 => Some(FontWeight::Regular),
        500u16 => Some(FontWeight::Medium),
        600u16 => Some(FontWeight::SemiBold),
        700u16 => Some(FontWeight::Bold),
        800u16 => Some(FontWeight::ExtraBold),
        900u16 => Some(FontWeight::Heavy),
        _ => None,
    }
}

/// The wire code of a weight.
pub open spec fn spec_font_weight_as_u16(weight: FontWeight) -> u16 {
    match weight {
        FontWeight::Thin => 100,
        FontWeight::ExtraLight => 200,
        FontWeight::Light => 300,
        FontWeight::Regular => 400,
        FontWeight::Medium => 500,
        FontWeight::SemiBold => 600,
        FontWeight::Bold => 700,
        FontWeight::ExtraBold => 800,
        FontWeight::Heavy => 900,
    }
}

impl FontWeight {
    /// Reads a weight from its wire code; every code outside the table is
    /// rejected.
    pub fn from_u16(weight: u16) -> (r: Option<Self>)
        ensures
            r == spec_font_weight_from_u16(weight),
    {
        match weight {
            100 => Some(FontWeight::Thin),
            200 => Some(FontWeight::ExtraLight),
            300 => Some(FontWeight::Light),
            400 => Some(FontWeight::Regular),
            500 => Some(FontWeight::Medium),
            600 => Some(FontWeight::SemiBold),
            700 => Some(FontWeight::Bold),
            800 => Some(FontWeight::ExtraBold),
            900 => Some(FontWeight::Heavy),
            _ => None,
        }
    }

    /// The wire code of this weight.
    pub fn as_u16(self) -> (r: u16)
        ensures
            r == spec_font_weight_as_u16(self),
    {
        match self {
            FontWeight::Thin => 100,
            FontWeight::ExtraLight => 200,
            FontWeight::Light => 300,
            FontWeight::Regular => 400,
            FontWeight::Medium => 500,
            FontWeight::SemiBold => 600,
            FontWeight::Bold => 700,
            FontWeight::ExtraBold => 800,
            FontWeight::Heavy => 900,
        }
    }
}

/// Every weight survives the code round trip.
pub proof fn lemma_font_weight_round_trip(weight: FontWeight)
    ensures
        spec_font_weight_from_u16(spec_font_weight_as_u16(weight)) == Some(weight),
{
}

/// Every valid weight code survives the decode–encode round trip.
pub proof fn lemma_font_weight_code_round_trip(weight: u16)
    requires
        spec_font_weight_from_u16(weight) is Some,
    ensures
        spec_font_weight_as_u16(spec_font_weight_from_u16(weight)->Some_0) == weight,
{
}

/// A font style: upright or italic.
#[derive(Debug, Copy, Clone, PartialEq, Eq, Hash, Default, Structural)]
pub enum FontStyle {
    #[default]
    Normal,
    Italic,
}

/// The style a wire code names: zero and one, and nothing else.
pub open spec fn spec_font_style_from_u8(style: u8) -> Option<FontStyle> {
    match style {
        0u8 => Some(FontStyle::Normal),
        1u8 => Some(FontStyle::Italic),
        _ => None,
    }
}

/// The wire code of a style.
pub open spec fn spec_font_style_as_u8(style: FontStyle) -> u8 {
    match style {
        FontStyle::Normal => 0,
        FontStyle::Italic => 1,
    }
}

impl FontStyle {
    /// Reads a style from its wire code; every other code is rejected.
    pub fn from_u8(style: u8) -> (r: Option<Self>)
        ensures
            r == spec_font_style_from_u8(style),
    {
        match style {
            0 => Some(FontStyle::Normal),
            1 => Some(FontStyle::Italic),
            _ => None,
        }
    }

    /// The wire code of this style.
    pub fn as_u8(self) -> (r: u8)
        ensures
            r == spec_font_style_as_u8(self),
    {
        match self {
            FontStyle::Normal => 0,
            FontStyle::Italic => 1,
        }
    }
}

/// Every style survives the code round trip.
pub proof fn lemma_font_style_round_trip(style: FontStyle)
    ensures
        spec_font_style_from_u8(spec_font_style_as_u8(style)) == Some(style),
{
}

/// A font face: a typeface family with style properties.
#[derive(Debug, Clone, PartialEq, Eq, Hash)]
pub struct Font {
    pub family: String,
    pub weight: FontWeight,
    pub style: FontStyle,
    pub cached_face_id: Option<String>,
}

impl Font {
    /// A face of the given family, weight and style, with no cached face
    /// id.
    pub fn new(family: &str, weight: FontWeight, style: FontStyle) -> (r: Self)
        ensures
            r.family@ == family@,
            r.weight == weight,
            r.style == style,
            r.cached_face_id is None,
    {
        Self { family: family.to_owned(), weight, style, cached_face_id: None }
    }

    /// A face of the given family with the default weight and style.
    pub fn regular(family: &str) -> (r: Self)
        ensures
            r.family@ == family@,
            r.weight == FontWeight::Regular,
            r.style == FontStyle::Normal,
            r.cached_face_id is None,
    {
        Self {
            family: family.to_owned(),
            weight: FontWeight::Regular,
            style: FontStyle::Normal,
            cached_face_id: None,
        }
    }
}

impl Default for Font {
    /// The engine's standard typeface, regular and upright.
    fn default() -> (r: Self)
        ensures
            r.family@ == "rbxasset://fonts/families/SourceSansPro.json"@,
            r.weight == FontWeight::Regular,
            r.style == FontStyle::Normal,
            r.cached_face_id is None,
    {
        Self {
            family: "rbxasset://fonts/families/SourceSansPro.json".to_owned(),
            weight: FontWeight::Regular,
            style: FontStyle::Normal,
            cached_face_id: None,
        }
    }
}

} // verus!
