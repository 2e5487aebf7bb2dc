//! The IEEE 754 single-precision bit-pattern model.
//!
//! Scalar fields of the format are carried as `u32` bit patterns. This module
//! gives the bit patterns their numeric reading: field decomposition, the
//! class predicates, and the two tolerance windows the format's discrete
//! decisions depend on. For non-negative patterns, numeric order coincides
//! with integer order on the pattern, so each window below is an exact
//! integer rendering of a floating-point comparison:
//!
//! * "zero within tolerance" means an absolute value of at most the machine
//!   epsilon `2^-23` (pattern `0x3400_0000`), so absolute patterns up to that
//!   bound;
//! * "unit within tolerance" means an absolute value within epsilon of `1.0`.
//!   Floats in `[0.5, 2.0]` subtract `1.0` exactly, the spacing below `1.0`
//!   is `2^-24` and above it `2^-23`, so the qualifying absolute patterns are
//!   exactly `0x3F7F_FFFE ..= 0x3F80_0001`.
use vstd::prelude::*;

verus! {

/// The absolute-value pattern: the pattern with its sign bit cleared.
pub open spec fn f32_abs_bits(b: u32) -> u32 {
    (b % 0x8000_0000) as u32
}

/// True when the pattern's sign bit is set.
pub open spec fn f32_sign(b: u32) -> bool {
    b >= 0x8000_0000
}

/// The biased exponent field (bits 23..31 of the pattern).
pub open spec fn f32_exp_field(b: u32) -> u32 {
    (f32_abs_bits(b) / 0x80_0000) as u32
}

/// The mantissa field (bits 0..23 of the pattern).
pub open spec fn f32_man_field(b: u32) -> u32 {
    (b % 0x80_0000) as u32
}

/// A NaN: exponent field all ones and a non-zero mantissa.
pub open spec fn f32_is_nan(b: u32) -> bool {
    f32_abs_bits(b) > 0x7F80_0000
}

/// A finite value: exponent field below all ones.
pub open spec fn f32_is_finite(b: u32) -> bool {
    f32_abs_bits(b) < 0x7F80_0000
}

/// The full significand as an integer: the mantissa field, with the implicit
/// leading bit added for normal values.
pub open spec fn f32_sig(b: u32) -> nat {
    if f32_exp_field(b) == 0 {
        f32_man_field(b) as nat
    } else {
        (f32_man_field(b) + 0x80_0000) as nat
    }
}

/// For a finite pattern, the power of two that divides the significand to
/// give the absolute value: `|b| == f32_sig(b) / pow2(f32_frac_exp(b))`.
/// Negative powers never arise for the magnitudes this crate reasons about
/// (all below `2^104`), so the result is clipped at zero.
pub open spec fn f32_frac_exp(b: u32) -> nat {
    if f32_exp_field(b) == 0 {
        149
    } else if f32_exp_field(b) <= 150 {
        (150 - f32_exp_field(b)) as nat
    } else {
        0
    }
}

/// Zero within tolerance: `|x| <= EPSILON` (see the module comment).
pub open spec fn f32_zeroish(b: u32) -> bool {
    f32_abs_bits(b) <= 0x3400_0000
}

/// A signed unit within tolerance: `|x|` within `EPSILON` of `1.0`
/// (see the module comment).
pub open spec fn f32_unitish(b: u32) -> bool {
    0x3F7F_FFFE <= f32_abs_bits(b) && f32_abs_bits(b) <= 0x3F80_0001
}

/// Exact floating-point negation: the same pattern with the sign bit
/// flipped.
pub open spec fn f32_neg_bits(b: u32) -> u32 {
    if b >= 0x8000_0000 {
        (b - 0x8000_0000) as u32
    } else {
        (b + 0x8000_0000) as u32
    }
}

/// Flips the sign bit of a pattern, which negates the value it encodes
/// exactly.
pub fn neg_bits(b: u32) -> (r: u32)
    ensures
        r == f32_neg_bits(b),
{
    if b >= 0x8000_0000 {
        b - 0x8000_0000
    } else {
        b + 0x8000_0000
    }
}

/// Where an interpolation with the given alpha must land.
///
/// The format requires an interpolation evaluated at alpha exactly `0.0` or
/// `1.0` to return the corresponding endpoint unchanged, with no round trip
/// through the interpolation arithmetic.
#[derive(Debug, Clone, Copy, PartialEq, Eq, Structural)]
pub enum LerpBoundary {
    /// Alpha compares equal to `0.0`: the result is the start value, bit for
    /// bit.
    Start,
    /// Alpha compares equal to `1.0`: the result is the goal value, bit for
    /// bit.
    End,
    /// Any other alpha: the interpolation arithmetic decides.
    Interior,
}

/// Classifies an interpolation alpha, given as a bit pattern.
///
/// Both zero patterns (`0.0` and `-0.0`) compare equal to `0.0` and select
/// the start endpoint, matching the floating-point comparison they stand
/// for.
pub fn lerp_boundary(alpha_bits: u32) -> (r: LerpBoundary)
    ensures
        r == LerpBoundary::Start <==> (alpha_bits == 0 || alpha_bits == 0x8000_0000),
        r == LerpBoundary::End <==> alpha_bits == 0x3F80_0000,
{
    if alpha_bits == 0 || alpha_bits == 0x8000_0000 {
        LerpBoundary::Start
    } else if alpha_bits == 0x3F80_0000 {
        LerpBoundary::End
    } else {
        LerpBoundary::Interior
    }
}

/// True exactly for the patterns accepted as a grid resolution: a positive
/// normal value (not zero, subnormal, infinite, or NaN, and not negative).
pub fn valid_grid_resolution(b: u32) -> (r: bool)
    ensures
        r <==> (!f32_sign(b) && 1 <= f32_exp_field(b) && f32_exp_field(b) <= 254),
{
    if b >= 0x8000_0000 {
        return false;
    }
    let e = b / 0x80_0000;
    assert(f32_abs_bits(b) == b);
    1 <= e && e <= 254
}

} // verus!
