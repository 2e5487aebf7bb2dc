//! Value types and exact codecs for a 3D scene-description format.
//!
//! The crate defines the closed set of geometric and visual value types of the
//! format (vectors, orientation matrices, transforms, colors, UI units,
//! bitmasks, keypoint sequences) together with the encodings that must round
//! trip exactly: the 24-entry compact rotation-code table, the six-flag face
//! mask in its human-readable and packed-byte forms, and the positional tuple
//! scheme that flattens a value to an ordered sequence of fields.
//!
//! Scalar fields that the wire format stores as 32-bit floats are carried here
//! as their IEEE 754 bit patterns (`u32`). Every codec in this crate moves
//! such a field verbatim, so values survive encoding bit-exactly; the bit
//! patterns also let the discrete decisions of the format (axis
//! identification within machine epsilon, byte-channel rounding, grid
//! resolution validity) be stated and checked as exact integer arithmetic.
//! Floating-point kernels that genuinely compute with the values
//! (normalization, interpolation interiors, color-space transforms) live with
//! the embedding application, outside this crate.
use vstd::prelude::*;

mod cframe;
mod color;
mod content;
mod faces;
mod fbits;
mod font;
mod matrix;
mod physical;
mod shapes;
mod tuple;
mod units;
mod vector;

pub use cframe::CFrame;

pub use content::Content;

pub use font::lemma_font_style_round_trip;
pub use font::lemma_font_weight_code_round_trip;
pub use font::lemma_font_weight_round_trip;
pub use font::spec_font_style_as_u8;
pub use font::spec_font_style_from_u8;
pub use font::spec_font_weight_as_u16;
pub use font::spec_font_weight_from_u16;
pub use font::Font;
pub use font::FontStyle;
pub use font::FontWeight;

pub use physical::CustomPhysicalProperties;
pub use physical::PhysicalProperties;

pub use color::lemma_channel_byte_round_trip;
pub use color::lemma_color_byte_round_trip;
pub use color::round_nearest_away;
pub use color::scale_exp;
pub use color::spec_byte_channel_bits;
pub use color::spec_channel_byte;
pub use color::Color3;
pub use color::Color3uint8;

pub use faces::lemma_faces_bits_round_trip;
pub use faces::lemma_faces_byte_round_trip;
pub use faces::lemma_faces_human_round_trip;
pub use faces::seq_views;
pub use faces::spec_face_names;
pub use faces::spec_faces_display;
pub use faces::spec_join_names;
pub use faces::spec_faces_bits;
pub use faces::spec_faces_from_bits;
pub use faces::spec_parse_faces;
pub use faces::valid_face_name;
pub use faces::Faces;

pub use matrix::lemma_rotation_code_round_trip;
pub use matrix::lemma_rotation_code_sound;
pub use matrix::spec_basic_rotation;
pub use matrix::spec_to_basic_rotation_id;
pub use matrix::spec_transpose;
pub use matrix::valid_rotation_id;
pub use matrix::Matrix3;

pub use vector::spec_axis_class;
pub use vector::spec_normal_id;
pub use vector::Vector2;
pub use vector::Vector2int16;
pub use vector::Vector3;
pub use vector::Vector3int16;

pub use shapes::ColorSequence;
pub use shapes::ColorSequenceKeypoint;
pub use shapes::NumberSequence;
pub use shapes::NumberSequenceKeypoint;
pub use shapes::Ray;
pub use shapes::Region3;
pub use shapes::Region3int16;

pub use tuple::rows_views;
pub use tuple::Scalar;
pub use tuple::lemma_color3_tuple_round_trip;
pub use tuple::spec_decode_color3;
pub use tuple::spec_encode_color3;
pub use tuple::spec_tuple_err_color3;
pub use tuple::lemma_color3uint8_tuple_round_trip;
pub use tuple::spec_decode_color3uint8;
pub use tuple::spec_encode_color3uint8;
pub use tuple::spec_tuple_err_color3uint8;
pub use tuple::lemma_matrix3_tuple_round_trip;
pub use tuple::spec_decode_matrix3;
pub use tuple::spec_encode_matrix3;
pub use tuple::spec_tuple_err_matrix3;
pub use tuple::lemma_number_range_tuple_round_trip;
pub use tuple::spec_decode_number_range;
pub use tuple::spec_encode_number_range;
pub use tuple::spec_tuple_err_number_range;
pub use tuple::lemma_rect_tuple_round_trip;
pub use tuple::spec_decode_rect;
pub use tuple::spec_encode_rect;
pub use tuple::spec_tuple_err_rect;
pub use tuple::lemma_region3_tuple_round_trip;
pub use tuple::spec_decode_region3;
pub use tuple::spec_encode_region3;
pub use tuple::spec_tuple_err_region3;
pub use tuple::lemma_region3int16_tuple_round_trip;
pub use tuple::spec_decode_region3int16;
pub use tuple::spec_encode_region3int16;
pub use tuple::spec_tuple_err_region3int16;
pub use tuple::lemma_udim_tuple_round_trip;
pub use tuple::spec_decode_udim;
pub use tuple::spec_encode_udim;
pub use tuple::spec_tuple_err_udim;
pub use tuple::lemma_udim2_tuple_round_trip;
pub use tuple::spec_decode_udim2;
pub use tuple::spec_encode_udim2;
pub use tuple::spec_tuple_err_udim2;
pub use tuple::lemma_vector2_tuple_round_trip;
pub use tuple::spec_decode_vector2;
pub use tuple::spec_encode_vector2;
pub use tuple::spec_tuple_err_vector2;
pub use tuple::lemma_vector2int16_tuple_round_trip;
pub use tuple::spec_decode_vector2int16;
pub use tuple::spec_encode_vector2int16;
pub use tuple::spec_tuple_err_vector2int16;
pub use tuple::lemma_vector3_tuple_round_trip;
pub use tuple::spec_decode_vector3;
pub use tuple::spec_encode_vector3;
pub use tuple::spec_tuple_err_vector3;
pub use tuple::lemma_vector3int16_tuple_round_trip;
pub use tuple::spec_decode_vector3int16;
pub use tuple::spec_encode_vector3int16;
pub use tuple::spec_tuple_err_vector3int16;

pub use units::NumberRange;
pub use units::Rect;
pub use units::UDim;
pub use units::UDim2;

pub use fbits::lerp_boundary;
pub use fbits::valid_grid_resolution;
pub use fbits::LerpBoundary;

verus! {

/// A typed, recoverable decoding failure.
///
/// Every decode boundary of the format reports failure through this type,
/// carrying the literal offending input: the bad byte, the bad name, or the
/// shape that was found instead of the one expected.
#[derive(Debug, Clone, PartialEq, Eq)]
pub enum Error {
    /// A tuple-encoded value was given a sequence of the wrong length.
    MismatchedLength { expected: usize, found: usize },
    /// A tuple-encoded value was given a field of the wrong type; `index` is
    /// the first offending position.
    MismatchedField { index: usize },
    /// A compact rotation code outside the 24-entry table.
    InvalidRotationId { id: u8 },
    /// A packed face byte with either of its two high bits set.
    InvalidFacesBits { bits: u8 },
    /// A face name outside the six recognized ones.
    UnknownFaceName { name: String },
    /// The requested axis-order conversion is not provided.
    UnsupportedRotationOrder,
}

/// An opaque enum value of the host API: a bare `u32`, the meaning of which
/// depends on where it is assigned.
#[derive(Debug, Clone, Copy, PartialEq, Eq, Structural)]
pub struct Enum {
    value: u32,
}

impl Enum {
    /// The wrapped raw value.
    pub closed spec fn spec_value(self) -> u32 {
        self.value
    }

    pub fn from_u32(value: u32) -> (r: Self)
        ensures
            r.spec_value() == value,
    {
        Self { value }
    }

    pub fn to_u32(self) -> (r: u32)
        ensures
            r == self.spec_value(),
    {
        self.value
    }
}

} // verus!
