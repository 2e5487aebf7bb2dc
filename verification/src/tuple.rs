//! The positional tuple scheme: a value as an ordered field sequence.
//!
//! Most flat value types of the format serialize as the ordered sequence of
//! their fields in a fixed, documented order; compound types nest one level
//! of sequences. This module gives each such type its exact encoder and
//! decoder over `Scalar`, the tagged wire field. Encoding moves every field
//! verbatim — float fields travel as their bit patterns, so the path is
//! bit-exact — and decoding accepts exactly the sequences encoding
//! produces: a sequence of the wrong length or field type is rejected,
//! naming the expected length or the first offending position. For every
//! type here, decoding an encoding returns the original value, proved
//! below.
use vstd::prelude::*;

use crate::color::Color3;
use crate::color::Color3uint8;
use crate::matrix::Matrix3;
use crate::shapes::Region3;
use crate::shapes::Region3int16;
use crate::units::NumberRange;
use crate::units::Rect;
use crate::units::UDim;
use crate::units::UDim2;
use crate::vector::Vector2;
use crate::vector::Vector2int16;
use crate::vector::Vector3;
use crate::vector::Vector3int16;
use crate::Error;

verus! {

/// One wire field of a tuple-encoded value.
#[derive(Debug, Clone, Copy, PartialEq, Eq, Structural)]
pub enum Scalar {
    /// A 32-bit float, as its IEEE 754 bit pattern.
    Float(u32),
    /// A signed 32-bit integer.
    Int(i32),
    /// A signed 16-bit integer.
    Short(i16),
    /// An unsigned byte.
    Byte(u8),
}

/// The views of the rows of a nested tuple encoding.
pub open spec fn rows_views(rows: Seq<Vec<Scalar>>) -> Seq<Seq<Scalar>> {
    rows.map_values(|row: Vec<Scalar>| row@)
}

/// The tuple encoding of a `Vector2`: its fields in order.
pub open spec fn spec_encode_vector2(v: Vector2) -> Seq<Scalar> {
    seq![Scalar::Float(v.x), Scalar::Float(v.y)]
}

/// The `Vector2` a field sequence decodes to, when it has exactly the
/// encoded shape.
pub open spec fn spec_decode_vector2(s: Seq<Scalar>) -> Option<Vector2> {
    if s.len() == 2 && s[0] is Float && s[1] is Float {
        Some(Vector2 { x: s[0]->Float_0, y: s[1]->Float_0 })
    } else {
        None
    }
}

/// The error a malformed field sequence for a `Vector2` is rejected
/// with.
pub open spec fn spec_tuple_err_vector2(s: Seq<Scalar>) -> Error {
    if s.len() != 2 {
        Error::MismatchedLength { expected: 2, found: s.len() as usize }
    } else if !(s[0] is Float) {
        Error::MismatchedField { index: 0 }
    } else {
        Error::MismatchedField { index: 1 }
    }
}

impl Vector2 {
    /// Encodes the value as its ordered field sequence.
    pub fn encode_tuple(&self) -> (r: Vec<Scalar>)
        ensures
            r@ == spec_encode_vector2(*self),
    {
        let mut out: Vec<Scalar> = Vec::new();
        out.push(Scalar::Float(self.x));
        out.push(Scalar::Float(self.y));
        proof {
            assert(out@ =~= spec_encode_vector2(*self));
        }
        out
    }

    /// Decodes an ordered field sequence; exactly the sequences that
    /// encoding produces are accepted.
    pub fn decode_tuple(fields: &Vec<Scalar>) -> (r: Result<Self, Error>)
        ensures
            match r {
                Ok(v) => spec_decode_vector2(fields@) == Some(v),
                Err(e) => spec_decode_vector2(fields@) is None && e == spec_tuple_err_vector2(fields@),
            },
    {
        if fields.len() != 2 {
            return Err(Error::MismatchedLength { expected: 2, found: fields.len() });
        }
        let x: u32 = match fields[0] {
            Scalar::Float(v) => v,
            _ => {
                return Err(Error::MismatchedField { index: 0 });
            },
        };
        let y: u32 = match fields[1] {
            Scalar::Float(v) => v,
            _ => {
                return Err(Error::MismatchedField { index: 1 });
            },
        };
        Ok(Vector2 { x, y })
    }
}

/// Decoding the tuple encoding of any `Vector2` recovers it exactly.
pub proof fn lemma_vector2_tuple_round_trip(v: Vector2)
    ensures
        spec_decode_vector2(spec_encode_vector2(v)) == Some(v),
{
}

/// The tuple encoding of a `Vector2int16`: its fields in order.
pub open spec fn spec_encode_vector2int16(v: Vector2int16) -> Seq<Scalar> {
    seq![Scalar::Short(v.x), Scalar::Short(v.y)]
}

/// The `Vector2int16` a field sequence decodes to, when it has exactly the
/// encoded shape.
pub open spec fn spec_decode_vector2int16(s: Seq<Scalar>) -> Option<Vector2int16> {
    if s.len() == 2 && s[0] is Short && s[1] is Short {
        Some(Vector2int16 { x: s[0]->Short_0, y: s[1]->Short_0 })
    } else {
        None
    }
}

/// The error a malformed field sequence for a `Vector2int16` is rejected
/// with.
pub open spec fn spec_tuple_err_vector2int16(s: Seq<Scalar>) -> Error {
    if s.len() != 2 {
        Error::MismatchedLength { expected: 2, found: s.len() as usize }
    } else if !(s[0] is Short) {
        Error::MismatchedField { index: 0 }
    } else {
        Error::MismatchedField { index: 1 }
    }
}

impl Vector2int16 {
    /// Encodes the value as its ordered field sequence.
    pub fn encode_tuple(&self) -> (r: Vec<Scalar>)
        ensures
            r@ == spec_encode_vector2int16(*self),
    {
        let mut out: Vec<Scalar> = Vec::new();
        out.push(Scalar::Short(self.x));
        out.push(Scalar::Short(self.y));
        proof {
            assert(out@ =~= spec_encode_vector2int16(*self));
        }
        out
    }

    /// Decodes an ordered field sequence; exactly the sequences that
    /// encoding produces are accepted.
    pub fn decode_tuple(fields: &Vec<Scalar>) -> (r: Result<Self, Error>)
        ensures
            match r {
                Ok(v) => spec_decode_vector2int16(fields@) == Some(v),
                Err(e) => spec_decode_vector2int16(fields@) is None && e == spec_tuple_err_vector2int16(fields@),
            },
    {
        if fields.len() != 2 {
            return Err(Error::MismatchedLength { expected: 2, found: fields.len() });
        }
        let x: i16 = match fields[0] {
            Scalar::Short(v) => v,
            _ => {
                return Err(Error::MismatchedField { index: 0 });
            },
        };
        let y: i16 = match fields[1] {
            Scalar::Short(v) => v,
            _ => {
                return Err(Error::MismatchedField { index: 1 });
            },
        };
        Ok(Vector2int16 { x, y })
    }
}

/// Decoding the tuple encoding of any `Vector2int16` recovers it exactly.
pub proof fn lemma_vector2int16_tuple_round_trip(v: Vector2int16)
    ensures
        spec_decode_vector2int16(spec_encode_vector2int16(v)) == Some(v),
{
}

/// The tuple encoding of a `Vector3`: its fields in order.
pub open spec fn spec_encode_vector3(v: Vector3) -> Seq<Scalar> {
    seq![Scalar::Float(v.x), Scalar::Float(v.y), Scalar::Float(v.z)]
}

/// The `Vector3` a field sequence decodes to, when it has exactly the
/// encoded shape.
pub open spec fn spec_decode_vector3(s: Seq<Scalar>) -> Option<Vector3> {
    if s.len() == 3 && s[0] is Float && s[1] is Float && s[2] is Float {
        Some(Vector3 { x: s[0]->Float_0, y: s[1]->Float_0, z: s[2]->Float_0 })
    } else {
        None
    }
}

/// The error a malformed field sequence for a `Vector3` is rejected
/// with.
pub open spec fn spec_tuple_err_vector3(s: Seq<Scalar>) -> Error {
    if s.len() != 3 {
        Error::MismatchedLength { expected: 3, found: s.len() as usize }
    } else if !(s[0] is Float) {
        Error::MismatchedField { index: 0 }
    } else if !(s[1] is Float) {
        Error::MismatchedField { index: 1 }
    } else {
        Error::MismatchedField { index: 2 }
    }
}

impl Vector3 {
    /// Encodes the value as its ordered field sequence.
    pub fn encode_tuple(&self) -> (r: Vec<Scalar>)
        ensures
            r@ == spec_encode_vector3(*self),
    {
        let mut out: Vec<Scalar> = Vec::new();
        out.push(Scalar::Float(self.x));
        out.push(Scalar::Float(self.y));
        out.push(Scalar::Float(self.z));
        proof {
            assert(out@ =~= spec_encode_vector3(*self));
        }
        out
    }

    /// Decodes an ordered field sequence; exactly the sequences that
    /// encoding produces are accepted.
    pub fn decode_tuple(fields: &Vec<Scalar>) -> (r: Result<Self, Error>)
        ensures
            match r {
                Ok(v) => spec_decode_vector3(fields@) == Some(v),
                Err(e) => spec_decode_vector3(fields@) is None && e == spec_tuple_err_vector3(fields@),
            },
    {
        if fields.len() != 3 {
            return Err(Error::MismatchedLength { expected: 3, found: fields.len() });
        }
        let x: u32 = match fields[0] {
            Scalar::Float(v) => v,
            _ => {
                return Err(Error::MismatchedField { index: 0 });
            },
        };
        let y: u32 = match fields[1] {
            Scalar::Float(v) => v,
            _ => {
                return Err(Error::MismatchedField { index: 1 });
            },
        };
        let z: u32 = match fields[2] {
            Scalar::Float(v) => v,
            _ => {
                return Err(Error::MismatchedField { index: 2 });
            },
        };
        Ok(Vector3 { x, y, z })
    }
}

/// Decoding the tuple encoding of any `Vector3` recovers it exactly.
pub proof fn lemma_vector3_tuple_round_trip(v: Vector3)
    ensures
        spec_decode_vector3(spec_encode_vector3(v)) == Some(v),
{
}

/// The tuple encoding of a `Vector3int16`: its fields in order.
pub open spec fn spec_encode_vector3int16(v: Vector3int16) -> Seq<Scalar> {
    seq![Scalar::Short(v.x), Scalar::Short(v.y), Scalar::Short(v.z)]
}

/// The `Vector3int16` a field sequence decodes to, when it has exactly the
/// encoded shape.
pub open spec fn spec_decode_vector3int16(s: Seq<Scalar>) -> Option<Vector3int16> {
    if s.len() == 3 && s[0] is Short && s[1] is Short && s[2] is Short {
        Some(Vector3int16 { x: s[0]->Short_0, y: s[1]->Short_0, z: s[2]->Short_0 })
    } else {
        None
    }
}

/// The error a malformed field sequence for a `Vector3int16` is rejected
/// with.
pub open spec fn spec_tuple_err_vector3int16(s: Seq<Scalar>) -> Error {
    if s.len() != 3 {
        Error::MismatchedLength { expected: 3, found: s.len() as usize }
    } else if !(s[0] is Short) {
        Error::MismatchedField { index: 0 }
    } else if !(s[1] is Short) {
        Error::MismatchedField { index: 1 }
    } else {
        Error::MismatchedField { index: 2 }
    }
}

impl Vector3int16 {
    /// Encodes the value as its ordered field sequence.
    pub fn encode_tuple(&self) -> (r: Vec<Scalar>)
        ensures
            r@ == spec_encode_vector3int16(*self),
    {
        let mut out: Vec<Scalar> = Vec::new();
        out.push(Scalar::Short(self.x));
        out.push(Scalar::Short(self.y));
        out.push(Scalar::Short(self.z));
        proof {
            assert(out@ =~= spec_encode_vector3int16(*self));
        }
        out
    }

    /// Decodes an ordered field sequence; exactly the sequences that
    /// encoding produces are accepted.
    pub fn decode_tuple(fields: &Vec<Scalar>) -> (r: Result<Self, Error>)
        ensures
            match r {
                Ok(v) => spec_decode_vector3int16(fields@) == Some(v),
                Err(e) => spec_decode_vector3int16(fields@) is None && e == spec_tuple_err_vector3int16(fields@),
            },
    {
        if fields.len() != 3 {
            return Err(Error::MismatchedLength { expected: 3, found: fields.len() });
        }
        let x: i16 = match fields[0] {
            Scalar::Short(v) => v,
            _ => {
                return Err(Error::MismatchedField { index: 0 });
            },
        };
        let y: i16 = match fields[1] {
            Scalar::Short(v) => v,
            _ => {
                return Err(Error::MismatchedField { index: 1 });
            },
        };
        let z: i16 = match fields[2] {
            Scalar::Short(v) => v,
            _ => {
                return Err(Error::MismatchedField { index: 2 });
            },
        };
        Ok(Vector3int16 { x, y, z })
    }
}

/// Decoding the tuple encoding of any `Vector3int16` recovers it exactly.
pub proof fn lemma_vector3int16_tuple_round_trip(v: Vector3int16)
    ensures
        spec_decode_vector3int16(spec_encode_vector3int16(v)) == Some(v),
{
}

/// The tuple encoding of a `Color3`: its fields in order.
pub open spec fn spec_encode_color3(v: Color3) -> Seq<Scalar> {
    seq![Scalar::Float(v.r), Scalar::Float(v.g), Scalar::Float(v.b)]
}

/// The `Color3` a field sequence decodes to, when it has exactly the
/// encoded shape.
pub open spec fn spec_decode_color3(s: Seq<Scalar>) -> Option<Color3> {
    if s.len() == 3 && s[0] is Float && s[1] is Float && s[2] is Float {
        Some(Color3 { r: s[0]->Float_0, g: s[1]->Float_0, b: s[2]->Float_0 })
    } else {
        None
    }
}

/// The error a malformed field sequence for a `Color3` is rejected
/// with.
pub open spec fn spec_tuple_err_color3(s: Seq<Scalar>) -> Error {
    if s.len() != 3 {
        Error::MismatchedLength { expected: 3, found: s.len() as usize }
    } else if !(s[0] is Float) {
        Error::MismatchedField { index: 0 }
    } else if !(s[1] is Float) {
        Error::MismatchedField { index: 1 }
    } else {
        Error::MismatchedField { index: 2 }
    }
}

impl Color3 {
    /// Encodes the value as its ordered field sequence.
    pub fn encode_tuple(&self) -> (r: Vec<Scalar>)
        ensures
            r@ == spec_encode_color3(*self),
    {
        let mut out: Vec<Scalar> = Vec::new();
        out.push(Scalar::Float(self.r));
        out.push(Scalar::Float(self.g));
        out.push(Scalar::Float(self.b));
        proof {
            assert(out@ =~= spec_encode_color3(*self));
        }
        out
    }

    /// Decodes an ordered field sequence; exactly the sequences that
    /// encoding produces are accepted.
    pub fn decode_tuple(fields: &Vec<Scalar>) -> (r: Result<Self, Error>)
        ensures
            match r {
                Ok(v) => spec_decode_color3(fields@) == Some(v),
                Err(e) => spec_decode_color3(fields@) is None && e == spec_tuple_err_color3(fields@),
            },
    {
        if fields.len() != 3 {
            return Err(Error::MismatchedLength { expected: 3, found: fields.len() });
        }
        let r: u32 = match fields[0] {
            Scalar::Float(v) => v,
            _ => {
                return Err(Error::MismatchedField { index: 0 });
            },
        };
        let g: u32 = match fields[1] {
            Scalar::Float(v) => v,
            _ => {
                return Err(Error::MismatchedField { index: 1 });
            },
        };
        let b: u32 = match fields[2] {
            Scalar::Float(v) => v,
            _ => {
                return Err(Error::MismatchedField { index: 2 });
            },
        };
        Ok(Color3 { r, g, b })
    }
}

/// Decoding the tuple encoding of any `Color3` recovers it exactly.
pub proof fn lemma_color3_tuple_round_trip(v: Color3)
    ensures
        spec_decode_color3(spec_encode_color3(v)) == Some(v),
{
}

/// The tuple encoding of a `Color3uint8`: its fields in order.
pub open spec fn spec_encode_color3uint8(v: Color3uint8) -> Seq<Scalar> {
    seq![Scalar::Byte(v.r), Scalar::Byte(v.g), Scalar::Byte(v.b)]
}

/// The `Color3uint8` a field sequence decodes to, when it has exactly the
/// encoded shape.
pub open spec fn spec_decode_color3uint8(s: Seq<Scalar>) -> Option<Color3uint8> {
    if s.len() == 3 && s[0] is Byte && s[1] is Byte && s[2] is Byte {
        Some(Color3uint8 { r: s[0]->Byte_0, g: s[1]->Byte_0, b: s[2]->Byte_0 })
    } else {
        None
    }
}

/// The error a malformed field sequence for a `Color3uint8` is rejected
/// with.
pub open spec fn spec_tuple_err_color3uint8(s: Seq<Scalar>) -> Error {
    if s.len() != 3 {
        Error::MismatchedLength { expected: 3, found: s.len() as usize }
    } else if !(s[0] is Byte) {
        Error::MismatchedField { index: 0 }
    } else if !(s[1] is Byte) {
        Error::MismatchedField { index: 1 }
    } else {
        Error::MismatchedField { index: 2 }
    }
}

impl Color3uint8 {
    /// Encodes the value as its ordered field sequence.
    pub fn encode_tuple(&self) -> (r: Vec<Scalar>)
        ensures
            r@ == spec_encode_color3uint8(*self),
    {
        let mut out: Vec<Scalar> = Vec::new();
        out.push(Scalar::Byte(self.r));
        out.push(Scalar::Byte(self.g));
        out.push(Scalar::Byte(self.b));
        proof {
            assert(out@ =~= spec_encode_color3uint8(*self));
        }
        out
    }

    /// Decodes an ordered field sequence; exactly the sequences that
    /// encoding produces are accepted.
    pub fn decode_tuple(fields: &Vec<Scalar>) -> (r: Result<Self, Error>)
        ensures
            match r {
                Ok(v) => spec_decode_color3uint8(fields@) == Some(v),
                Err(e) => spec_decode_color3uint8(fields@) is None && e == spec_tuple_err_color3uint8(fields@),
            },
    {
        if fields.len() != 3 {
            return Err(Error::MismatchedLength { expected: 3, found: fields.len() });
        }
        let r: u8 = match fields[0] {
            Scalar::Byte(v) => v,
            _ => {
                return Err(Error::MismatchedField { index: 0 });
            },
        };
        let g: u8 = match fields[1] {
            Scalar::Byte(v) => v,
            _ => {
                return Err(Error::MismatchedField { index: 1 });
            },
        };
        let b: u8 = match fields[2] {
            Scalar::Byte(v) => v,
            _ => {
                return Err(Error::MismatchedField { index: 2 });
            },
        };
        Ok(Color3uint8 { r, g, b })
    }
}

/// Decoding the tuple encoding of any `Color3uint8` recovers it exactly.
pub proof fn lemma_color3uint8_tuple_round_trip(v: Color3uint8)
    ensures
        spec_decode_color3uint8(spec_encode_color3uint8(v)) == Some(v),
{
}

/// The tuple encoding of a `UDim`: its fields in order.
pub open spec fn spec_encode_udim(v: UDim) -> Seq<Scalar> {
    seq![Scalar::Float(v.scale), Scalar::Int(v.offset)]
}

/// The `UDim` a field sequence decodes to, when it has exactly the
/// encoded shape.
pub open spec fn spec_decode_udim(s: Seq<Scalar>) -> Option<UDim> {
    if s.len() == 2 && s[0] is Float && s[1] is Int {
        Some(UDim { scale: s[0]->Float_0, offset: s[1]->Int_0 })
    } else {
        None
    }
}

/// The error a malformed field sequence for a `UDim` is rejected
/// with.
pub open spec fn spec_tuple_err_udim(s: Seq<Scalar>) -> Error {
    if s.len() != 2 {
        Error::MismatchedLength { expected: 2, found: s.len() as usize }
    } else if !(s[0] is Float) {
        Error::MismatchedField { index: 0 }
    } else {
        Error::MismatchedField { index: 1 }
    }
}

impl UDim {
    /// Encodes the value as its ordered field sequence.
    pub fn encode_tuple(&self) -> (r: Vec<Scalar>)
        ensures
            r@ == spec_encode_udim(*self),
    {
        let mut out: Vec<Scalar> = Vec::new();
        out.push(Scalar::Float(self.scale));
        out.push(Scalar::Int(self.offset));
        proof {
            assert(out@ =~= spec_encode_udim(*self));
        }
        out
    }

    /// Decodes an ordered field sequence; exactly the sequences that
    /// encoding produces are accepted.
    pub fn decode_tuple(fields: &Vec<Scalar>) -> (r: Result<Self, Error>)
        ensures
            match r {
                Ok(v) => spec_decode_udim(fields@) == Some(v),
                Err(e) => spec_decode_udim(fields@) is None && e == spec_tuple_err_udim(fields@),
            },
    {
        if fields.len() != 2 {
            return Err(Error::MismatchedLength { expected: 2, found: fields.len() });
        }
        let scale: u32 = match fields[0] {
            Scalar::Float(v) => v,
            _ => {
                return Err(Error::MismatchedField { index: 0 });
            },
        };
        let offset: i32 = match fields[1] {
            Scalar::Int(v) => v,
            _ => {
                return Err(Error::MismatchedField { index: 1 });
            },
        };
        Ok(UDim { scale, offset })
    }
}

/// Decoding the tuple encoding of any `UDim` recovers it exactly.
pub proof fn lemma_udim_tuple_round_trip(v: UDim)
    ensures
        spec_decode_udim(spec_encode_udim(v)) == Some(v),
{
}

/// The tuple encoding of a `NumberRange`: its fields in order.
pub open spec fn spec_encode_number_range(v: NumberRange) -> Seq<Scalar> {
    seq![Scalar::Float(v.min), Scalar::Float(v.max)]
}

/// The `NumberRange` a field sequence decodes to, when it has exactly the
/// encoded shape.
pub open spec fn spec_decode_number_range(s: Seq<Scalar>) -> Option<NumberRange> {
    if s.len() == 2 && s[0] is Float && s[1] is Float {
        Some(NumberRange { min: s[0]->Float_0, max: s[1]->Float_0 })
    } else {
        None
    }
}

/// The error a malformed field sequence for a `NumberRange` is rejected
/// with.
pub open spec fn spec_tuple_err_number_range(s: Seq<Scalar>) -> Error {
    if s.len() != 2 {
        Error::MismatchedLength { expected: 2, found: s.len() as usize }
    } else if !(s[0] is Float) {
        Error::MismatchedField { index: 0 }
    } else {
        Error::MismatchedField { index: 1 }
    }
}

impl NumberRange {
    /// Encodes the value as its ordered field sequence.
    pub fn encode_tuple(&self) -> (r: Vec<Scalar>)
        ensures
            r@ == spec_encode_number_range(*self),
    {
        let mut out: Vec<Scalar> = Vec::new();
        out.push(Scalar::Float(self.min));
        out.push(Scalar::Float(self.max));
        proof {
            assert(out@ =~= spec_encode_number_range(*self));
        }
        out
    }

    /// Decodes an ordered field sequence; exactly the sequences that
    /// encoding produces are accepted.
    pub fn decode_tuple(fields: &Vec<Scalar>) -> (r: Result<Self, Error>)
        ensures
            match r {
                Ok(v) => spec_decode_number_range(fields@) == Some(v),
                Err(e) => spec_decode_number_range(fields@) is None && e == spec_tuple_err_number_range(fields@),
            },
    {
        if fields.len() != 2 {
            return Err(Error::MismatchedLength { expected: 2, found: fields.len() });
        }
        let min: u32 = match fields[0] {
            Scalar::Float(v) => v,
            _ => {
                return Err(Error::MismatchedField { index: 0 });
            },
        };
        let max: u32 = match fields[1] {
            Scalar::Float(v) => v,
            _ => {
                return Err(Error::MismatchedField { index: 1 });
            },
        };
        Ok(NumberRange { min, max })
    }
}

/// Decoding the tuple encoding of any `NumberRange` recovers it exactly.
pub proof fn lemma_number_range_tuple_round_trip(v: NumberRange)
    ensures
        spec_decode_number_range(spec_encode_number_range(v)) == Some(v),
{
}

/// The tuple encoding of a `UDim2`: one encoded row per field, in
/// order.
pub open spec fn spec_encode_udim2(v: UDim2) -> Seq<Seq<Scalar>> {
    seq![spec_encode_udim(v.x), spec_encode_udim(v.y)]
}

/// The `UDim2` a row sequence decodes to, when it has exactly the
/// encoded shape.
pub open spec fn spec_decode_udim2(rows: Seq<Seq<Scalar>>) -> Option<UDim2> {
    if rows.len() == 2 && spec_decode_udim(rows[0]) is Some && spec_decode_udim(rows[1]) is Some {
        Some(UDim2 { x: spec_decode_udim(rows[0])->Some_0, y: spec_decode_udim(rows[1])->Some_0 })
    } else {
        None
    }
}

/// The error a malformed row sequence for a `UDim2` is rejected with;
/// a bad row reports its own inner error.
pub open spec fn spec_tuple_err_udim2(rows: Seq<Seq<Scalar>>) -> Error {
    if rows.len() != 2 {
        Error::MismatchedLength { expected: 2, found: rows.len() as usize }
    } else if spec_decode_udim(rows[0]) is None {
        spec_tuple_err_udim(rows[0])
    } else {
        spec_tuple_err_udim(rows[1])
    }
}

impl UDim2 {
    /// Encodes the value as its nested ordered field sequence.
    pub fn encode_tuple(&self) -> (r: Vec<Vec<Scalar>>)
        ensures
            rows_views(r@) == spec_encode_udim2(*self),
    {
        let mut out: Vec<Vec<Scalar>> = Vec::new();
        out.push(self.x.encode_tuple());
        out.push(self.y.encode_tuple());
        proof {
            assert(rows_views(out@) =~= spec_encode_udim2(*self));
        }
        out
    }

    /// Decodes a nested ordered field sequence; exactly the sequences
    /// that encoding produces are accepted.
    pub fn decode_tuple(rows: &Vec<Vec<Scalar>>) -> (r: Result<Self, Error>)
        ensures
            match r {
                Ok(v) => spec_decode_udim2(rows_views(rows@)) == Some(v),
                Err(e) => spec_decode_udim2(rows_views(rows@)) is None && e == spec_tuple_err_udim2(
                    rows_views(rows@),
                ),
            },
    {
        if rows.len() != 2 {
            return Err(Error::MismatchedLength { expected: 2, found: rows.len() });
        }
        proof {
            assert(forall|i: int|
                #![trigger rows_views(rows@)[i]]
                0 <= i < rows@.len() ==> rows_views(rows@)[i] == rows@[i]@);
        }
        let x: UDim = match UDim::decode_tuple(&rows[0]) {
            Ok(v) => v,
            Err(e) => {
                return Err(e);
            },
        };
        let y: UDim = match UDim::decode_tuple(&rows[1]) {
            Ok(v) => v,
            Err(e) => {
                return Err(e);
            },
        };
        Ok(UDim2 { x, y })
    }
}

/// Decoding the tuple encoding of any `UDim2` recovers it exactly.
pub proof fn lemma_udim2_tuple_round_trip(v: UDim2)
    ensures
        spec_decode_udim2(spec_encode_udim2(v)) == Some(v),
{
    lemma_udim_tuple_round_trip(v.x);
    lemma_udim_tuple_round_trip(v.y);
}

/// The tuple encoding of a `Rect`: one encoded row per field, in
/// order.
pub open spec fn spec_encode_rect(v: Rect) -> Seq<Seq<Scalar>> {
    seq![spec_encode_vector2(v.min), spec_encode_vector2(v.max)]
}

/// The `Rect` a row sequence decodes to, when it has exactly the
/// encoded shape.
pub open spec fn spec_decode_rect(rows: Seq<Seq<Scalar>>) -> Option<Rect> {
    if rows.len() == 2 && spec_decode_vector2(rows[0]) is Some && spec_decode_vector2(rows[1]) is Some {
        Some(Rect { min: spec_decode_vector2(rows[0])->Some_0, max: spec_decode_vector2(rows[1])->Some_0 })
    } else {
        None
    }
}

/// The error a malformed row sequence for a `Rect` is rejected with;
/// a bad row reports its own inner error.
pub open spec fn spec_tuple_err_rect(rows: Seq<Seq<Scalar>>) -> Error {
    if rows.len() != 2 {
        Error::MismatchedLength { expected: 2, found: rows.len() as usize }
    } else if spec_decode_vector2(rows[0]) is None {
        spec_tuple_err_vector2(rows[0])
    } else {
        spec_tuple_err_vector2(rows[1])
    }
}

impl Rect {
    /// Encodes the value as its nested ordered field sequence.
    pub fn encode_tuple(&self) -> (r: Vec<Vec<Scalar>>)
        ensures
            rows_views(r@) == spec_encode_rect(*self),
    {
        let mut out: Vec<Vec<Scalar>> = Vec::new();
        out.push(self.min.encode_tuple());
        out.push(self.max.encode_tuple());
        proof {
            assert(rows_views(out@) =~= spec_encode_rect(*self));
        }
        out
    }

    /// Decodes a nested ordered field sequence; exactly the sequences
    /// that encoding produces are accepted.
    pub fn decode_tuple(rows: &Vec<Vec<Scalar>>) -> (r: Result<Self, Error>)
        ensures
            match r {
                Ok(v) => spec_decode_rect(rows_views(rows@)) == Some(v),
                Err(e) => spec_decode_rect(rows_views(rows@)) is None && e == spec_tuple_err_rect(
                    rows_views(rows@),
                ),
            },
    {
        if rows.len() != 2 {
            return Err(Error::MismatchedLength { expected: 2, found: rows.len() });
        }
        proof {
            assert(forall|i: int|
                #![trigger rows_views(rows@)[i]]
                0 <= i < rows@.len() ==> rows_views(rows@)[i] == rows@[i]@);
        }
        let min: Vector2 = match Vector2::decode_tuple(&rows[0]) {
            Ok(v) => v,
            Err(e) => {
                return Err(e);
            },
        };
        let max: Vector2 = match Vector2::decode_tuple(&rows[1]) {
            Ok(v) => v,
            Err(e) => {
                return Err(e);
            },
        };
        Ok(Rect { min, max })
    }
}

/// Decoding the tuple encoding of any `Rect` recovers it exactly.
pub proof fn lemma_rect_tuple_round_trip(v: Rect)
    ensures
        spec_decode_rect(spec_encode_rect(v)) == Some(v),
{
    lemma_vector2_tuple_round_trip(v.min);
    lemma_vector2_tuple_round_trip(v.max);
}

/// The tuple encoding of a `Region3`: one encoded row per field, in
/// order.
pub open spec fn spec_encode_region3(v: Region3) -> Seq<Seq<Scalar>> {
    seq![spec_encode_vector3(v.min), spec_encode_vector3(v.max)]
}

/// The `Region3` a row sequence decodes to, when it has exactly the
/// encoded shape.
pub open spec fn spec_decode_region3(rows: Seq<Seq<Scalar>>) -> Option<Region3> {
    if rows.len() == 2 && spec_decode_vector3(rows[0]) is Some && spec_decode_vector3(rows[1]) is Some {
        Some(Region3 { min: spec_decode_vector3(rows[0])->Some_0, max: spec_decode_vector3(rows[1])->Some_0 })
    } else {
        None
    }
}

/// The error a malformed row sequence for a `Region3` is rejected with;
/// a bad row reports its own inner error.
pub open spec fn spec_tuple_err_region3(rows: Seq<Seq<Scalar>>) -> Error {
    if rows.len() != 2 {
        Error::MismatchedLength { expected: 2, found: rows.len() as usize }
    } else if spec_decode_vector3(rows[0]) is None {
        spec_tuple_err_vector3(rows[0])
    } else {
        spec_tuple_err_vector3(rows[1])
    }
}

impl Region3 {
    /// Encodes the value as its nested ordered field sequence.
    pub fn encode_tuple(&self) -> (r: Vec<Vec<Scalar>>)
        ensures
            rows_views(r@) == spec_encode_region3(*self),
    {
        let mut out: Vec<Vec<Scalar>> = Vec::new();
        out.push(self.min.encode_tuple());
        out.push(self.max.encode_tuple());
        proof {
            assert(rows_views(out@) =~= spec_encode_region3(*self));
        }
        out
    }

    /// Decodes a nested ordered field sequence; exactly the sequences
    /// that encoding produces are accepted.
    pub fn decode_tuple(rows: &Vec<Vec<Scalar>>) -> (r: Result<Self, Error>)
        ensures
            match r {
                Ok(v) => spec_decode_region3(rows_views(rows@)) == Some(v),
                Err(e) => spec_decode_region3(rows_views(rows@)) is None && e == spec_tuple_err_region3(
                    rows_views(rows@),
                ),
            },
    {
        if rows.len() != 2 {
            return Err(Error::MismatchedLength { expected: 2, found: rows.len() });
        }
        proof {
            assert(forall|i: int|
                #![trigger rows_views(rows@)[i]]
                0 <= i < rows@.len() ==> rows_views(rows@)[i] == rows@[i]@);
        }
        let min: Vector3 = match Vector3::decode_tuple(&rows[0]) {
            Ok(v) => v,
            Err(e) => {
                return Err(e);
            },
        };
        let max: Vector3 = match Vector3::decode_tuple(&rows[1]) {
            Ok(v) => v,
            Err(e) => {
                return Err(e);
            },
        };
        Ok(Region3 { min, max })
    }
}

/// Decoding the tuple encoding of any `Region3` recovers it exactly.
pub proof fn lemma_region3_tuple_round_trip(v: Region3)
    ensures
        spec_decode_region3(spec_encode_region3(v)) == Some(v),
{
    lemma_vector3_tuple_round_trip(v.min);
    lemma_vector3_tuple_round_trip(v.max);
}

/// The tuple encoding of a `Region3int16`: one encoded row per field, in
/// order.
pub open spec fn spec_encode_region3int16(v: Region3int16) -> Seq<Seq<Scalar>> {
    seq![spec_encode_vector3int16(v.min), spec_encode_vector3int16(v.max)]
}

/// The `Region3int16` a row sequence decodes to, when it has exactly the
/// encoded shape.
pub open spec fn spec_decode_region3int16(rows: Seq<Seq<Scalar>>) -> Option<Region3int16> {
    if rows.len() == 2 && spec_decode_vector3int16(rows[0]) is Some && spec_decode_vector3int16(rows[1]) is Some {
        Some(Region3int16 { min: spec_decode_vector3int16(rows[0])->Some_0, max: spec_decode_vector3int16(rows[1])->Some_0 })
    } else {
        None
    }
}

/// The error a malformed row sequence for a `Region3int16` is rejected with;
/// a bad row reports its own inner error.
pub open spec fn spec_tuple_err_region3int16(rows: Seq<Seq<Scalar>>) -> Error {
    if rows.len() != 2 {
        Error::MismatchedLength { expected: 2, found: rows.len() as usize }
    } else if spec_decode_vector3int16(rows[0]) is None {
        spec_tuple_err_vector3int16(rows[0])
    } else {
        spec_tuple_err_vector3int16(rows[1])
    }
}

impl Region3int16 {
    /// Encodes the value as its nested ordered field sequence.
    pub fn encode_tuple(&self) -> (r: Vec<Vec<Scalar>>)
        ensures
            rows_views(r@) == spec_encode_region3int16(*self),
    {
        let mut out: Vec<Vec<Scalar>> = Vec::new();
        out.push(self.min.encode_tuple());
        out.push(self.max.encode_tuple());
        proof {
            assert(rows_views(out@) =~= spec_encode_region3int16(*self));
        }
        out
    }

    /// Decodes a nested ordered field sequence; exactly the sequences
    /// that encoding produces are accepted.
    pub fn decode_tuple(rows: &Vec<Vec<Scalar>>) -> (r: Result<Self, Error>)
        ensures
            match r {
                Ok(v) => spec_decode_region3int16(rows_views(rows@)) == Some(v),
                Err(e) => spec_decode_region3int16(rows_views(rows@)) is None && e == spec_tuple_err_region3int16(
                    rows_views(rows@),
                ),
            },
    {
        if rows.len() != 2 {
            return Err(Error::MismatchedLength { expected: 2, found: rows.len() });
        }
        proof {
            assert(forall|i: int|
                #![trigger rows_views(rows@)[i]]
                0 <= i < rows@.len() ==> rows_views(rows@)[i] == rows@[i]@);
        }
        let min: Vector3int16 = match Vector3int16::decode_tuple(&rows[0]) {
            Ok(v) => v,
            Err(e) => {
                return Err(e);
            },
        };
        let max: Vector3int16 = match Vector3int16::decode_tuple(&rows[1]) {
            Ok(v) => v,
            Err(e) => {
                return Err(e);
            },
        };
        Ok(Region3int16 { min, max })
    }
}

/// Decoding the tuple encoding of any `Region3int16` recovers it exactly.
pub proof fn lemma_region3int16_tuple_round_trip(v: Region3int16)
    ensures
        spec_decode_region3int16(spec_encode_region3int16(v)) == Some(v),
{
    lemma_vector3int16_tuple_round_trip(v.min);
    lemma_vector3int16_tuple_round_trip(v.max);
}

/// The tuple encoding of a `Matrix3`: one encoded row per field, in
/// order.
pub open spec fn spec_encode_matrix3(v: Matrix3) -> Seq<Seq<Scalar>> {
    seq![spec_encode_vector3(v.x), spec_encode_vector3(v.y), spec_encode_vector3(v.z)]
}

/// The `Matrix3` a row sequence decodes to, when it has exactly the
/// encoded shape.
pub open spec fn spec_decode_matrix3(rows: Seq<Seq<Scalar>>) -> Option<Matrix3> {
    if rows.len() == 3 && spec_decode_vector3(rows[0]) is Some && spec_decode_vector3(rows[1]) is Some && spec_decode_vector3(rows[2]) is Some {
        Some(Matrix3 { x: spec_decode_vector3(rows[0])->Some_0, y: spec_decode_vector3(rows[1])->Some_0, z: spec_decode_vector3(rows[2])->Some_0 })
    } else {
        None
    }
}

/// The error a malformed row sequence for a `Matrix3` is rejected with;
/// a bad row reports its own inner error.
pub open spec fn spec_tuple_err_matrix3(rows: Seq<Seq<Scalar>>) -> Error {
    if rows.len() != 3 {
        Error::MismatchedLength { expected: 3, found: rows.len() as usize }
    } else if spec_decode_vector3(rows[0]) is None {
        spec_tuple_err_vector3(rows[0])
    } else if spec_decode_vector3(rows[1]) is None {
        spec_tuple_err_vector3(rows[1])
    } else {
        spec_tuple_err_vector3(rows[2])
    }
}

impl Matrix3 {
    /// Encodes the value as its nested ordered field sequence.
    pub fn encode_tuple(&self) -> (r: Vec<Vec<Scalar>>)
        ensures
            rows_views(r@) == spec_encode_matrix3(*self),
    {
        let mut out: Vec<Vec<Scalar>> = Vec::new();
        out.push(self.x.encode_tuple());
        out.push(self.y.encode_tuple());
        out.push(self.z.encode_tuple());
        proof {
            assert(rows_views(out@) =~= spec_encode_matrix3(*self));
        }
        out
    }

    /// Decodes a nested ordered field sequence; exactly the sequences
    /// that encoding produces are accepted.
    pub fn decode_tuple(rows: &Vec<Vec<Scalar>>) -> (r: Result<Self, Error>)
        ensures
            match r {
                Ok(v) => spec_decode_matrix3(rows_views(rows@)) == Some(v),
                Err(e) => spec_decode_matrix3(rows_views(rows@)) is None && e == spec_tuple_err_matrix3(
                    rows_views(rows@),
                ),
            },
    {
        if rows.len() != 3 {
            return Err(Error::MismatchedLength { expected: 3, found: rows.len() });
        }
        proof {
            assert(forall|i: int|
                #![trigger rows_views(rows@)[i]]
                0 <= i < rows@.len() ==> rows_views(rows@)[i] == rows@[i]@);
        }
        let x: Vector3 = match Vector3::decode_tuple(&rows[0]) {
            Ok(v) => v,
            Err(e) => {
                return Err(e);
            },
        };
        let y: Vector3 = match Vector3::decode_tuple(&rows[1]) {
            Ok(v) => v,
            Err(e) => {
                return Err(e);
            },
        };
        let z: Vector3 = match Vector3::decode_tuple(&rows[2]) {
            Ok(v) => v,
            Err(e) => {
                return Err(e);
            },
        };
        Ok(Matrix3 { x, y, z })
    }
}

/// Decoding the tuple encoding of any `Matrix3` recovers it exactly.
pub proof fn lemma_matrix3_tuple_round_trip(v: Matrix3)
    ensures
        spec_decode_matrix3(spec_encode_matrix3(v)) == Some(v),
{
    lemma_vector3_tuple_round_trip(v.x);
    lemma_vector3_tuple_round_trip(v.y);
    lemma_vector3_tuple_round_trip(v.z);
}

} // verus!
