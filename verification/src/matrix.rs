//! The 3×3 row-major orientation matrix and its compact rotation code.
//!
//! A matrix represents a rotation only if orthonormal; the type does not
//! enforce this. When each row is exactly one of the six signed unit basis
//! vectors and the rows form one of the 24 rotational symmetries of the
//! cube, the matrix compacts to a single byte, the *basic rotation id*. The
//! byte values of that table are enumerated data: they are the binary-format
//! compatibility contract and must match existing encoded scenes value for
//! value.
use vstd::prelude::*;

use crate::vector::spec_normal_id;
use crate::vector::Vector3;
use crate::Error;

verus! {

/// The bit pattern of `1.0f32`.
pub const POS_ONE_BITS: u32 = 0x3F80_0000;

/// The bit pattern of `-1.0f32`.
pub const NEG_ONE_BITS: u32 = 0xBF80_0000;

/// The bit pattern of `0.0f32`.
pub const ZERO_BITS: u32 = 0;

/// A 3×3 orientation matrix; each `Vector3` is one row.
#[derive(Debug, Clone, Copy, PartialEq, Eq, Structural)]
pub struct Matrix3 {
    pub x: Vector3,
    pub y: Vector3,
    pub z: Vector3,
}

/// The enumerated rotation table: the matrix each of the 24 valid byte codes
/// decodes to, `None` for the other 232 bytes.
pub open spec fn spec_basic_rotation(id: u8) -> Option<Matrix3> {
    let p = POS_ONE_BITS;
    let n = NEG_ONE_BITS;
    let o = ZERO_BITS;
    match id {
        0x02 => Some(spec_matrix(p, o, o, o, p, o, o, o, p)),
        0x03 => Some(spec_matrix(p, o, o, o, o, n, o, p, o)),
        0x05 => Some(spec_matrix(p, o, o, o, n, o, o, o, n)),
        0x06 => Some(spec_matrix(p, o, o, o, o, p, o, n, o)),
        0x07 => Some(spec_matrix(o, p, o, p, o, o, o, o, n)),
        0x09 => Some(spec_matrix(o, o, p, p, o, o, o, p, o)),
        0x0a => Some(spec_matrix(o, n, o, p, o, o, o, o, p)),
        0x0c => Some(spec_matrix(o, o, n, p, o, o, o, n, o)),
        0x0d => Some(spec_matrix(o, p, o, o, o, p, p, o, o)),
        0x0e => Some(spec_matrix(o, o, n, o, p, o, p, o, o)),
        0x10 => Some(spec_matrix(o, n, o, o, o, n, p, o, o)),
        0x11 => Some(spec_matrix(o, o, p, o, n, o, p, o, o)),
        0x14 => Some(spec_matrix(n, o, o, o, p, o, o, o, n)),
        0x15 => Some(spec_matrix(n, o, o, o, o, p, o, p, o)),
        0x17 => Some(spec_matrix(n, o, o, o, n, o, o, o, p)),
        0x18 => Some(spec_matrix(n, o, o, o, o, n, o, n, o)),
        0x19 => Some(spec_matrix(o, p, o, n, o, o, o, o, p)),
        0x1b => Some(spec_matrix(o, o, n, n, o, o, o, p, o)),
        0x1c => Some(spec_matrix(o, n, o, n, o, o, o, o, n)),
        0x1e => Some(spec_matrix(o, o, p, n, o, o, o, n, o)),
        0x1f => Some(spec_matrix(o, p, o, o, o, n, n, o, o)),
        0x20 => Some(spec_matrix(o, o, p, o, p, o, n, o, o)),
        0x22 => Some(spec_matrix(o, n, o, o, o, p, n, o, o)),
        0x23 => Some(spec_matrix(o, o, n, o, n, o, n, o, o)),
        _ => None,
    }
}

/// True for the 24 byte codes of the rotation table.
pub open spec fn valid_rotation_id(id: u8) -> bool {
    spec_basic_rotation(id) is Some
}

/// A matrix from its nine entries, row by row.
pub open spec fn spec_matrix(
    xx: u32,
    xy: u32,
    xz: u32,
    yx: u32,
    yy: u32,
    yz: u32,
    zx: u32,
    zy: u32,
    zz: u32,
) -> Matrix3 {
    Matrix3 {
        x: Vector3 { x: xx, y: xy, z: xz },
        y: Vector3 { x: yx, y: yy, z: yz },
        z: Vector3 { x: zx, y: zy, z: zz },
    }
}

/// The algebraic transpose: rows and columns swapped, entries untouched.
pub open spec fn spec_transpose(m: Matrix3) -> Matrix3 {
    spec_matrix(m.x.x, m.y.x, m.z.x, m.x.y, m.y.y, m.z.y, m.x.z, m.y.z, m.z.z)
}

/// The compaction of a matrix to its rotation code, when one exists.
///
/// The columns (rows of the transpose) are identified as signed axis unit
/// vectors; the candidate code is `6 * x_id + y_id + 1`; the candidate is
/// accepted only if the table row it decodes to has the same z column
/// identification, which rules out left-handed and inconsistent bases.
pub open spec fn spec_to_basic_rotation_id(m: Matrix3) -> Option<u8> {
    let t = spec_transpose(m);
    match (
        spec_normal_id(t.x.x, t.x.y, t.x.z),
        spec_normal_id(t.y.x, t.y.y, t.y.z),
        spec_normal_id(t.z.x, t.z.y, t.z.z),
    ) {
        (Some(xi), Some(yi), Some(zi)) => {
            let id = (6 * xi + yi + 1) as u8;
            match spec_basic_rotation(id) {
                Some(bm) => {
                    let bt = spec_transpose(bm);
                    if spec_normal_id(bt.z.x, bt.z.y, bt.z.z) == Some(zi) {
                        Some(id)
                    } else {
                        None
                    }
                },
                None => None,
            }
        },
        _ => None,
    }
}

impl Matrix3 {
    pub fn new(x: Vector3, y: Vector3, z: Vector3) -> (r: Self)
        ensures
            r == (Matrix3 { x, y, z }),
    {
        Self { x, y, z }
    }

    /// The identity rotation.
    pub fn identity() -> (r: Self)
        ensures
            r == spec_matrix(
                POS_ONE_BITS,
                ZERO_BITS,
                ZERO_BITS,
                ZERO_BITS,
                POS_ONE_BITS,
                ZERO_BITS,
                ZERO_BITS,
                ZERO_BITS,
                POS_ONE_BITS,
            ),
    {
        Self {
            x: Vector3::new(POS_ONE_BITS, ZERO_BITS, ZERO_BITS),
            y: Vector3::new(ZERO_BITS, POS_ONE_BITS, ZERO_BITS),
            z: Vector3::new(ZERO_BITS, ZERO_BITS, POS_ONE_BITS),
        }
    }

    /// The pure algebraic transpose, with no normalization side effect.
    pub fn transpose(&self) -> (r: Self)
        ensures
            r == spec_transpose(*self),
    {
        Self {
            x: Vector3::new(self.x.x, self.y.x, self.z.x),
            y: Vector3::new(self.x.y, self.y.y, self.z.y),
            z: Vector3::new(self.x.z, self.y.z, self.z.z),
        }
    }

    /// The rotation code of this matrix: `Some` exactly when the matrix is
    /// one of the 24 table entries up to the tolerance of axis
    /// identification, `None` otherwise.
    pub fn to_basic_rotation_id(&self) -> (r: Option<u8>)
        ensures
            r == spec_to_basic_rotation_id(*self),
    {
        let t = self.transpose();
        let xi = match t.x.to_normal_id() {
            Some(v) => v,
            None => {
                return None;
            },
        };
        let yi = match t.y.to_normal_id() {
            Some(v) => v,
            None => {
                return None;
            },
        };
        let zi = match t.z.to_normal_id() {
            Some(v) => v,
            None => {
                return None;
            },
        };
        let id = 6 * xi + yi + 1;
        let bm = match Self::from_basic_rotation_id(id) {
            Ok(m) => m,
            Err(_) => {
                return None;
            },
        };
        let bz = match bm.transpose().z.to_normal_id() {
            Some(v) => v,
            None => {
                return None;
            },
        };
        if bz == zi {
            Some(id)
        } else {
            None
        }
    }

    /// Decodes a rotation code through the 24-entry table. Every byte
    /// outside the table is rejected, carrying the offending byte.
    pub fn from_basic_rotation_id(id: u8) -> (r: Result<Matrix3, Error>)
        ensures
            match r {
                Ok(m) => spec_basic_rotation(id) == Some(m),
                Err(e) => !valid_rotation_id(id) && e == (Error::InvalidRotationId { id }),
            },
    {
        let p = POS_ONE_BITS;
        let n = NEG_ONE_BITS;
        let o = ZERO_BITS;
        match id {
            0x02 => Ok(Self::identity()),
            0x03 => Ok(Self::rows(p, o, o, o, o, n, o, p, o)),
            0x05 => Ok(Self::rows(p, o, o, o, n, o, o, o, n)),
            0x06 => Ok(Self::rows(p, o, o, o, o, p, o, n, o)),
            0x07 => Ok(Self::rows(o, p, o, p, o, o, o, o, n)),
            0x09 => Ok(Self::rows(o, o, p, p, o, o, o, p, o)),
            0x0a => Ok(Self::rows(o, n, o, p, o, o, o, o, p)),
            0x0c => Ok(Self::rows(o, o, n, p, o, o, o, n, o)),
            0x0d => Ok(Self::rows(o, p, o, o, o, p, p, o, o)),
            0x0e => Ok(Self::rows(o, o, n, o, p, o, p, o, o)),
            0x10 => Ok(Self::rows(o, n, o, o, o, n, p, o, o)),
            0x11 => Ok(Self::rows(o, o, p, o, n, o, p, o, o)),
            0x14 => Ok(Self::rows(n, o, o, o, p, o, o, o, n)),
            0x15 => Ok(Self::rows(n, o, o, o, o, p, o, p, o)),
            0x17 => Ok(Self::rows(n, o, o, o, n, o, o, o, p)),
            0x18 => Ok(Self::rows(n, o, o, o, o, n, o, n, o)),
            0x19 => Ok(Self::rows(o, p, o, n, o, o, o, o, p)),
            0x1b => Ok(Self::rows(o, o, n, n, o, o, o, p, o)),
            0x1c => Ok(Self::rows(o, n, o, n, o, o, o, o, n)),
            0x1e => Ok(Self::rows(o, o, p, n, o, o, o, n, o)),
            0x1f => Ok(Self::rows(o, p, o, o, o, n, n, o, o)),
            0x20 => Ok(Self::rows(o, o, p, o, p, o, n, o, o)),
            0x22 => Ok(Self::rows(o, n, o, o, o, p, n, o, o)),
            0x23 => Ok(Self::rows(o, o, n, o, n, o, n, o, o)),
            _ => Err(Error::InvalidRotationId { id }),
        }
    }

    /// A matrix from its nine entries, row by row.
    fn rows(
        xx: u32,
        xy: u32,
        xz: u32,
        yx: u32,
        yy: u32,
        yz: u32,
        zx: u32,
        zy: u32,
        zz: u32,
    ) -> (r: Self)
        ensures
            r == spec_matrix(xx, xy, xz, yx, yy, yz, zx, zy, zz),
    {
        Self {
            x: Vector3::new(xx, xy, xz),
            y: Vector3::new(yx, yy, yz),
            z: Vector3::new(zx, zy, zz),
        }
    }
}

/// Every code the compaction produces is a valid table byte.
pub proof fn lemma_rotation_code_sound(m: Matrix3)
    ensures
        spec_to_basic_rotation_id(m) is Some ==> valid_rotation_id(
            spec_to_basic_rotation_id(m)->Some_0,
        ),
{
}

/// Every valid rotation code survives the decode–encode round trip: the
/// matrix a table byte decodes to compacts back to exactly that byte.
#[verifier::rlimit(60)]
pub proof fn lemma_rotation_code_round_trip(id: u8)
    requires
        valid_rotation_id(id),
    ensures
        spec_to_basic_rotation_id(spec_basic_rotation(id)->Some_0) == Some(id),
{
}

} // verus!
