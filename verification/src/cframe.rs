//! The rigid transform: a position and an orientation matrix.
//!
//! A `CFrame` encodes a rigid transform exactly when its orientation is
//! orthonormal; the type does not enforce this. The operations here are the
//! exact ones: construction, the rotation-only copy, the basis column
//! accessors (the look vector negates its column, which is an exact sign
//! flip on the bit patterns), and the flattening to the twelve wire
//! components. Composition, inversion, interpolation interiors and the
//! space conversions are floating-point kernels and live with the
//! embedding application; interpolation endpoints are selected exactly
//! through `lerp_boundary`.
use vstd::prelude::*;

use crate::fbits::f32_neg_bits;
use crate::fbits::neg_bits;
use crate::matrix::Matrix3;
use crate::vector::Vector3;

verus! {

/// A position and orientation in 3D space.
#[derive(Debug, Clone, Copy, PartialEq, Eq, Structural)]
pub struct CFrame {
    pub position: Vector3,
    pub orientation: Matrix3,
}

impl CFrame {
    pub fn new(position: Vector3, orientation: Matrix3) -> (r: Self)
        ensures
            r == (CFrame { position, orientation }),
    {
        Self { position, orientation }
    }

    /// The same orientation at the origin.
    pub fn rotation(&self) -> (r: Self)
        ensures
            r.position == (Vector3 { x: 0u32, y: 0u32, z: 0u32 }),
            r.orientation == self.orientation,
    {
        Self {
            position: Vector3::new(0, 0, 0),
            orientation: self.orientation,
        }
    }

    /// The first column of the orientation: the direction its x axis maps
    /// to.
    pub fn right_vector(&self) -> (r: Vector3)
        ensures
            r == (Vector3 {
                x: self.orientation.x.x,
                y: self.orientation.y.x,
                z: self.orientation.z.x,
            }),
    {
        let o = &self.orientation;
        Vector3::new(o.x.x, o.y.x, o.z.x)
    }

    /// The second column of the orientation: the direction its y axis maps
    /// to.
    pub fn up_vector(&self) -> (r: Vector3)
        ensures
            r == (Vector3 {
                x: self.orientation.x.y,
                y: self.orientation.y.y,
                z: self.orientation.z.y,
            }),
    {
        let o = &self.orientation;
        Vector3::new(o.x.y, o.y.y, o.z.y)
    }

    /// The negated third column of the orientation: the facing direction.
    /// Negation flips sign bits only, so this is exact for every pattern.
    pub fn look_vector(&self) -> (r: Vector3)
        ensures
            r == (Vector3 {
                x: f32_neg_bits(self.orientation.x.z),
                y: f32_neg_bits(self.orientation.y.z),
                z: f32_neg_bits(self.orientation.z.z),
            }),
    {
        let o = &self.orientation;
        Vector3::new(neg_bits(o.x.z), neg_bits(o.y.z), neg_bits(o.z.z))
    }

    /// The twelve wire components in storage order: the position, then the
    /// orientation row by row.
    pub fn components(&self) -> (r: (
        u32,
        u32,
        u32,
        u32,
        u32,
        u32,
        u32,
        u32,
        u32,
        u32,
        u32,
        u32,
    ))
        ensures
            r == (
                self.position.x,
                self.position.y,
                self.position.z,
                self.orientation.x.x,
                self.orientation.x.y,
                self.orientation.x.z,
                self.orientation.y.x,
                self.orientation.y.y,
                self.orientation.y.z,
                self.orientation.z.x,
                self.orientation.z.y,
                self.orientation.z.z,
            ),
    {
        let p = &self.position;
        let o = &self.orientation;
        (p.x, p.y, p.z, o.x.x, o.x.y, o.x.z, o.y.x, o.y.y, o.y.z, o.z.x, o.z.y, o.z.z)
    }

    /// A transform from the named fields of a host record: a position and
    /// the three orientation rows.
    pub fn from_parts(position: Vector3, x: Vector3, y: Vector3, z: Vector3) -> (r: Self)
        ensures
            r.position == position,
            r.orientation == (Matrix3 { x, y, z }),
    {
        Self { position, orientation: Matrix3::new(x, y, z) }
    }
}

} // verus!
