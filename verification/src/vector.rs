//! Fixed-size 2D and 3D vectors.
//!
//! `Vector2`/`Vector3` carry 32-bit float coordinates as IEEE 754 bit
//! patterns (see `fbits`); any pattern is a valid coordinate, NaN and
//! infinity included. `Vector2int16`/`Vector3int16` carry exact signed
//! 16-bit grid coordinates and support elementwise arithmetic.
use vstd::prelude::*;

use crate::fbits::f32_sign;
use crate::fbits::f32_unitish;
use crate::fbits::f32_zeroish;

verus! {

/// The standard 2D vector: two float coordinates as bit patterns.
#[derive(Debug, Clone, Copy, PartialEq, Eq, Structural)]
pub struct Vector2 {
    pub x: u32,
    pub y: u32,
}

impl Vector2 {
    pub fn new(x: u32, y: u32) -> (r: Self)
        ensures
            r == (Vector2 { x, y }),
    {
        Self { x, y }
    }
}

/// A 2D vector with exact signed 16-bit integer coordinates.
#[derive(Debug, Clone, Copy, PartialEq, Eq, Structural)]
pub struct Vector2int16 {
    pub x: i16,
    pub y: i16,
}

impl Vector2int16 {
    pub fn new(x: i16, y: i16) -> (r: Self)
        ensures
            r == (Vector2int16 { x, y }),
    {
        Self { x, y }
    }

    /// Elementwise sum.
    pub fn add(self, rhs: Self) -> (r: Self)
        requires
            i16::MIN <= self.x + rhs.x <= i16::MAX,
            i16::MIN <= self.y + rhs.y <= i16::MAX,
        ensures
            r.x == self.x + rhs.x,
            r.y == self.y + rhs.y,
    {
        Self { x: self.x + rhs.x, y: self.y + rhs.y }
    }

    /// Elementwise difference.
    pub fn sub(self, rhs: Self) -> (r: Self)
        requires
            i16::MIN <= self.x - rhs.x <= i16::MAX,
            i16::MIN <= self.y - rhs.y <= i16::MAX,
        ensures
            r.x == self.x - rhs.x,
            r.y == self.y - rhs.y,
    {
        Self { x: self.x - rhs.x, y: self.y - rhs.y }
    }

    /// Elementwise negation.
    pub fn neg(self) -> (r: Self)
        requires
            self.x != i16::MIN,
            self.y != i16::MIN,
        ensures
            r.x == -self.x,
            r.y == -self.y,
    {
        Self { x: -self.x, y: -self.y }
    }

    /// Elementwise product.
    pub fn component_mul(self, rhs: Self) -> (r: Self)
        requires
            i16::MIN <= self.x * rhs.x <= i16::MAX,
            i16::MIN <= self.y * rhs.y <= i16::MAX,
        ensures
            r.x == self.x * rhs.x,
            r.y == self.y * rhs.y,
    {
        Self { x: self.x * rhs.x, y: self.y * rhs.y }
    }

    /// Multiplication by an integer scalar.
    pub fn scale(self, rhs: i16) -> (r: Self)
        requires
            i16::MIN <= self.x * rhs <= i16::MAX,
            i16::MIN <= self.y * rhs <= i16::MAX,
        ensures
            r.x == self.x * rhs,
            r.y == self.y * rhs,
    {
        Self { x: self.x * rhs, y: self.y * rhs }
    }
}

/// The standard 3D vector: three float coordinates as bit patterns.
#[derive(Debug, Clone, Copy, PartialEq, Eq, Structural)]
pub struct Vector3 {
    pub x: u32,
    pub y: u32,
    pub z: u32,
}

/// Classifies one coordinate for axis identification: `Some(0)` when the
/// value is zero within tolerance, `Some(1)`/`Some(-1)` when it is a signed
/// unit within tolerance, `None` otherwise. The two windows are disjoint.
pub open spec fn spec_axis_class(b: u32) -> Option<i32> {
    if f32_zeroish(b) {
        Some(0i32)
    } else if f32_unitish(b) {
        if f32_sign(b) {
            Some(-1i32)
        } else {
            Some(1i32)
        }
    } else {
        None
    }
}

/// The discrete code of an axis-aligned unit vector: `0`/`1`/`2` for
/// `+X`/`+Y`/`+Z`, `3`/`4`/`5` for `-X`/`-Y`/`-Z`, `None` unless exactly one
/// coordinate is a signed unit within tolerance and the other two are zero
/// within tolerance.
pub open spec fn spec_normal_id(x: u32, y: u32, z: u32) -> Option<u8> {
    match (spec_axis_class(x), spec_axis_class(y), spec_axis_class(z)) {
        (Some(cx), Some(0), Some(0)) if cx != 0 => Some(
            if cx == 1 {
                0
            } else {
                3
            },
        ),
        (Some(0), Some(cy), Some(0)) if cy != 0 => Some(
            if cy == 1 {
                1
            } else {
                4
            },
        ),
        (Some(0), Some(0), Some(cz)) if cz != 0 => Some(
            if cz == 1 {
                2
            } else {
                5
            },
        ),
        _ => None,
    }
}

/// Classifies one coordinate pattern as zero, a signed unit, or neither,
/// within the tolerance windows of `fbits`.
fn approx_unit_or_zero(b: u32) -> (r: Option<i32>)
    ensures
        r == spec_axis_class(b),
{
    let abs = b % 0x8000_0000;
    if abs <= 0x3400_0000 {
        Some(0)
    } else if 0x3F7F_FFFE <= abs && abs <= 0x3F80_0001 {
        if b >= 0x8000_0000 {
            Some(-1)
        } else {
            Some(1)
        }
    } else {
        None
    }
}

impl Vector3 {
    pub fn new(x: u32, y: u32, z: u32) -> (r: Self)
        ensures
            r == (Vector3 { x, y, z }),
    {
        Self { x, y, z }
    }

    /// If the vector is a positive or negative basis vector within tolerance,
    /// returns its discrete code: `0`/`1`/`2` for `+X`/`+Y`/`+Z` and
    /// `3`/`4`/`5` for `-X`/`-Y`/`-Z`. Returns `None` otherwise.
    pub fn to_normal_id(&self) -> (r: Option<u8>)
        ensures
            r == spec_normal_id(self.x, self.y, self.z),
    {
        let cx = approx_unit_or_zero(self.x);
        let cy = approx_unit_or_zero(self.y);
        let cz = approx_unit_or_zero(self.z);
        match (cx, cy, cz) {
            (Some(1), Some(0), Some(0)) => Some(0),
            (Some(-1), Some(0), Some(0)) => Some(3),
            (Some(0), Some(1), Some(0)) => Some(1),
            (Some(0), Some(-1), Some(0)) => Some(4),
            (Some(0), Some(0), Some(1)) => Some(2),
            (Some(0), Some(0), Some(-1)) => Some(5),
            _ => None,
        }
    }
}

/// A 3D vector with exact signed 16-bit integer coordinates.
#[derive(Debug, Clone, Copy, PartialEq, Eq, Structural)]
pub struct Vector3int16 {
    pub x: i16,
    pub y: i16,
    pub z: i16,
}

impl Vector3int16 {
    pub fn new(x: i16, y: i16, z: i16) -> (r: Self)
        ensures
            r == (Vector3int16 { x, y, z }),
    {
        Self { x, y, z }
    }

    /// Elementwise sum.
    pub fn add(self, rhs: Self) -> (r: Self)
        requires
            i16::MIN <= self.x + rhs.x <= i16::MAX,
            i16::MIN <= self.y + rhs.y <= i16::MAX,
            i16::MIN <= self.z + rhs.z <= i16::MAX,
        ensures
            r.x == self.x + rhs.x,
            r.y == self.y + rhs.y,
            r.z == self.z + rhs.z,
    {
        Self { x: self.x + rhs.x, y: self.y + rhs.y, z: self.z + rhs.z }
    }

    /// Elementwise difference.
    pub fn sub(self, rhs: Self) -> (r: Self)
        requires
            i16::MIN <= self.x - rhs.x <= i16::MAX,
            i16::MIN <= self.y - rhs.y <= i16::MAX,
            i16::MIN <= self.z - rhs.z <= i16::MAX,
        ensures
            r.x == self.x - rhs.x,
            r.y == self.y - rhs.y,
            r.z == self.z - rhs.z,
    {
        Self { x: self.x - rhs.x, y: self.y - rhs.y, z: self.z - rhs.z }
    }

    /// Elementwise negation.
    pub fn neg(self) -> (r: Self)
        requires
            self.x != i16::MIN,
            self.y != i16::MIN,
            self.z != i16::MIN,
        ensures
            r.x == -self.x,
            r.y == -self.y,
            r.z == -self.z,
    {
        Self { x: -self.x, y: -self.y, z: -self.z }
    }

    /// Elementwise product.
    pub fn component_mul(self, rhs: Self) -> (r: Self)
        requires
            i16::MIN <= self.x * rhs.x <= i16::MAX,
            i16::MIN <= self.y * rhs.y <= i16::MAX,
            i16::MIN <= self.z * rhs.z <= i16::MAX,
        ensures
            r.x == self.x * rhs.x,
            r.y == self.y * rhs.y,
            r.z == self.z * rhs.z,
    {
        Self { x: self.x * rhs.x, y: self.y * rhs.y, z: self.z * rhs.z }
    }

    /// Multiplication by an integer scalar.
    pub fn scale(self, rhs: i16) -> (r: Self)
        requires
            i16::MIN <= self.x * rhs <= i16::MAX,
            i16::MIN <= self.y * rhs <= i16::MAX,
            i16::MIN <= self.z * rhs <= i16::MAX,
        ensures
            r.x == self.x * rhs,
            r.y == self.y * rhs,
            r.z == self.z * rhs,
    {
        Self { x: self.x * rhs, y: self.y * rhs, z: self.z * rhs }
    }
}

} // verus!
