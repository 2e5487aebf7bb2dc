//! UI measurement units and numeric ranges.
//!
//! `UDim` measures one axis as a float fraction of the container plus an
//! exact pixel offset; `UDim2` pairs one per axis. `NumberRange` is a plain
//! min/max float pair with no ordering invariant. Float fields are carried
//! as IEEE 754 bit patterns; the interpolation arithmetic on these types is
//! floating point and lives with the embedding application, which selects
//! endpoints exactly through `lerp_boundary`.
use vstd::prelude::*;

use crate::vector::Vector2;

verus! {

/// One UI axis: a float scale (fraction of the container, as a bit
/// pattern) and an exact pixel offset.
#[derive(Debug, Clone, Copy, PartialEq, Eq, Structural)]
pub struct UDim {
    pub scale: u32,
    pub offset: i32,
}

impl UDim {
    pub fn new(scale: u32, offset: i32) -> (r: Self)
        ensures
            r == (UDim { scale, offset }),
    {
        Self { scale, offset }
    }
}

/// A 2D UI measurement: one `UDim` per axis.
#[derive(Debug, Clone, Copy, PartialEq, Eq, Structural)]
pub struct UDim2 {
    pub x: UDim,
    pub y: UDim,
}

impl UDim2 {
    pub fn new(x: UDim, y: UDim) -> (r: Self)
        ensures
            r == (UDim2 { x, y }),
    {
        Self { x, y }
    }
}

/// A min/max float pair; no ordering is enforced.
#[derive(Debug, Clone, Copy, PartialEq, Eq, Structural)]
pub struct NumberRange {
    pub min: u32,
    pub max: u32,
}

impl NumberRange {
    pub fn new(min: u32, max: u32) -> (r: Self)
        ensures
            r == (NumberRange { min, max }),
    {
        Self { min, max }
    }
}

/// A bounding rectangle in 2D space; no min/max ordering is enforced.
#[derive(Debug, Clone, Copy, PartialEq, Eq, Structural)]
pub struct Rect {
    pub min: Vector2,
    pub max: Vector2,
}

impl Rect {
    pub fn new(min: Vector2, max: Vector2) -> (r: Self)
        ensures
            r == (Rect { min, max }),
    {
        Self { min, max }
    }
}

} // verus!
