//! Rays, bounding regions, and keypoint sequences.
//!
//! These are flat value types over the vector and color types. No min/max
//! ordering and no keypoint-time monotonicity is enforced: callers that
//! need ordered data supply it ordered. The floating-point operations of
//! the original API (ray projection, grid expansion) live with the
//! embedding application; the grid-resolution validity test they rely on is
//! `valid_grid_resolution`.
use vstd::prelude::*;

use crate::color::Color3;
use crate::vector::Vector3;
use crate::vector::Vector3int16;

verus! {

/// A ray: an origin and a direction, which need not be a unit vector.
#[derive(Debug, Clone, Copy, PartialEq, Eq, Structural)]
pub struct Ray {
    pub origin: Vector3,
    pub direction: Vector3,
}

impl Ray {
    pub fn new(origin: Vector3, direction: Vector3) -> (r: Self)
        ensures
            r == (Ray { origin, direction }),
    {
        Self { origin, direction }
    }
}

/// A bounding box in 3D space; no min/max ordering is enforced.
#[derive(Debug, Clone, Copy, PartialEq, Eq, Structural)]
pub struct Region3 {
    pub min: Vector3,
    pub max: Vector3,
}

impl Region3 {
    pub fn new(min: Vector3, max: Vector3) -> (r: Self)
        ensures
            r == (Region3 { min, max }),
    {
        Self { min, max }
    }
}

/// A bounding box on the exact 16-bit integer grid.
#[derive(Debug, Clone, Copy, PartialEq, Eq, Structural)]
pub struct Region3int16 {
    pub min: Vector3int16,
    pub max: Vector3int16,
}

impl Region3int16 {
    pub fn new(min: Vector3int16, max: Vector3int16) -> (r: Self)
        ensures
            r == (Region3int16 { min, max }),
    {
        Self { min, max }
    }
}

/// One keypoint of a `ColorSequence`: a time and a color.
#[derive(Debug, Clone, Copy, PartialEq, Eq, Structural)]
pub struct ColorSequenceKeypoint {
    pub time: u32,
    pub color: Color3,
}

impl ColorSequenceKeypoint {
    pub fn new(time: u32, color: Color3) -> (r: Self)
        ensures
            r == (ColorSequenceKeypoint { time, color }),
    {
        Self { time, color }
    }
}

/// A series of colors to tween through.
#[derive(Debug, Clone, PartialEq)]
pub struct ColorSequence {
    pub keypoints: Vec<ColorSequenceKeypoint>,
}

/// One keypoint of a `NumberSequence`: a time, a value, and an envelope
/// for randomized spread.
#[derive(Debug, Clone, Copy, PartialEq, Eq, Structural)]
pub struct NumberSequenceKeypoint {
    pub time: u32,
    pub value: u32,
    pub envelope: u32,
}

impl NumberSequenceKeypoint {
    pub fn new(time: u32, value: u32, envelope: u32) -> (r: Self)
        ensures
            r == (NumberSequenceKeypoint { time, value, envelope }),
    {
        Self { time, value, envelope }
    }
}

/// A sequence of numbers on a timeline.
#[derive(Debug, Clone, PartialEq)]
pub struct NumberSequence {
    pub keypoints: Vec<NumberSequenceKeypoint>,
}

} // verus!
