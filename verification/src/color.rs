//! HDR and 8-bit colors, and the exact conversions between them.
//!
//! `Color3` carries three unconstrained float channels as IEEE 754 bit
//! patterns; channels may exceed one to represent over-bright color.
//! `Color3uint8` is its lossy byte form: converting clamps each channel to
//! the unit interval and rounds to the nearest of the 256 byte steps, ties
//! away from zero; converting back divides the byte by 255 under the usual
//! round-to-nearest float semantics. Both directions are defined and checked
//! here as exact integer arithmetic on the bit patterns, and converting a
//! byte to float and back returns the byte unchanged.
use vstd::arithmetic::div_mod::lemma_div_is_ordered;
use vstd::arithmetic::div_mod::lemma_fundamental_div_mod;
use vstd::arithmetic::div_mod::lemma_fundamental_div_mod_converse;
use vstd::arithmetic::mul::lemma_mul_inequality;
use vstd::arithmetic::mul::lemma_mul_is_associative;
use vstd::arithmetic::power2::lemma2_to64;
use vstd::arithmetic::power2::lemma2_to64_rest;
use vstd::arithmetic::power2::lemma_pow2_adds;
use vstd::arithmetic::power2::lemma_pow2_pos;
use vstd::arithmetic::power2::lemma_pow2_strictly_increases;
use vstd::arithmetic::power2::lemma_pow2_unfold;
use vstd::arithmetic::power2::pow2;
use vstd::prelude::*;

use crate::fbits::f32_abs_bits;
use crate::fbits::f32_frac_exp;
use crate::fbits::f32_is_nan;
use crate::fbits::f32_sig;
use crate::fbits::f32_sign;

verus! {

/// A color with three unconstrained float channels, as bit patterns.
#[derive(Debug, Clone, Copy, PartialEq, Eq, Structural)]
pub struct Color3 {
    pub r: u32,
    pub g: u32,
    pub b: u32,
}

/// A color with three exact byte channels.
#[derive(Debug, Clone, Copy, PartialEq, Eq, Structural)]
pub struct Color3uint8 {
    pub r: u8,
    pub g: u8,
    pub b: u8,
}

/// The integer nearest to `a / d` for positive `d`, ties away from zero;
/// callers pass non-negative `a`.
pub open spec fn round_nearest_away(a: int, d: int) -> int {
    (2 * a + d) / (2 * d)
}

/// Doubling the multiplier doubles the product.
proof fn lemma_double_factor(v: int, a: int, b: int)
    by (nonlinear_arith)
    requires
        a == 2 * b,
    ensures
        v * a == 2 * (v * b),
{
}

/// The byte a float channel clamps and rounds to: `NaN` and everything at
/// or below zero give `0`, everything at or above one gives `255`, and a
/// value strictly inside the unit interval rounds `255 * value` to the
/// nearest integer, ties away from zero. In the last case the value is
/// `sig / pow2(frac)` exactly, so the rounding is stated over those
/// integers.
pub open spec fn spec_channel_byte(b: u32) -> int {
    if f32_is_nan(b) || f32_sign(b) || f32_abs_bits(b) == 0 {
        0
    } else if f32_abs_bits(b) >= 0x3F80_0000 {
        255
    } else {
        round_nearest_away(255 * f32_sig(b) as int, pow2(f32_frac_exp(b)) as int)
    }
}

/// The smallest scale `s` with `j <= s <= 8` such that `v * pow2(s)`
/// reaches 255, or 8 if none does.
pub open spec fn scale_exp(v: u8, j: nat) -> nat
    decreases 8 - j,
{
    if j >= 8 {
        8
    } else if v * pow2(j) >= 255 {
        j
    } else {
        scale_exp(v, j + 1)
    }
}

/// The bit pattern of the float nearest to `v / 255`: zero and one map to
/// their exact patterns; any other byte normalizes to significand
/// `m / pow2(23 + j)` with `m` rounded to 24 bits, which is exact nearest
/// rounding because `v * pow2(k) / 255` is never a tie.
pub open spec fn spec_byte_channel_bits(v: u8) -> u32 {
    if v == 0 {
        0
    } else if v == 255 {
        0x3F80_0000
    } else {
        let j = scale_exp(v, 1);
        let m = (v * pow2((j + 24) as nat) + 255) / 510;
        (((127 - j) * 0x80_0000 + (m - 0x80_0000)) as u32)
    }
}

/// Computes `pow2(s)` for scales up to 32.
fn pow2_u64(s: u32) -> (r: u64)
    requires
        s <= 32,
    ensures
        r == pow2(s as nat),
{
    let mut i: u32 = 0;
    let mut acc: u64 = 1;
    proof {
        lemma2_to64();
    }
    while i < s
        invariant
            0 <= i <= s <= 32,
            acc == pow2(i as nat),
            acc <= 0x1_0000_0000,
        decreases s - i,
    {
        proof {
            lemma_pow2_unfold((i + 1) as nat);
            lemma2_to64();
            if i + 1 < 32 {
                lemma_pow2_strictly_increases((i + 1) as nat, 32);
            }
        }
        acc = acc * 2;
        i = i + 1;
    }
    acc
}

/// Clamps and rounds one float channel to its byte, exactly as
/// `spec_channel_byte` states.
fn channel_byte(b: u32) -> (r: u8)
    ensures
        r as int == spec_channel_byte(b),
{
    let abs = b % 0x8000_0000;
    if abs > 0x7F80_0000 || b >= 0x8000_0000 || abs == 0 {
        return 0;
    }
    if abs >= 0x3F80_0000 {
        return 255;
    }
    let exp = abs / 0x80_0000;
    let man = abs % 0x80_0000;
    let sig: u64 = if exp == 0 {
        man as u64
    } else {
        man as u64 + 0x80_0000
    };
    let s: u32 = if exp == 0 {
        149
    } else {
        150 - exp
    };
    proof {
        assert(f32_abs_bits(b) == abs);
        assert(f32_sig(b) == sig);
        assert(f32_frac_exp(b) == s);
        assert(sig < 0x100_0000);
    }
    if s >= 33 {
        proof {
            lemma2_to64();
            lemma2_to64_rest();
            if s > 33 {
                lemma_pow2_strictly_increases(33, s as nat);
            }
            let d = pow2(s as nat) as int;
            assert(d >= pow2(33));
            assert(2 * (255 * (sig as int)) + d < 2 * d);
            assert(round_nearest_away(255 * (sig as int), d) == 0) by {
                vstd::arithmetic::div_mod::lemma_basic_div(2 * (255 * (sig as int)) + d, 2 * d);
            }
        }
        return 0;
    }
    let d: u64 = pow2_u64(s);
    proof {
        lemma2_to64();
        lemma_pow2_strictly_increases(24, 33);
        if s > 24 {
            lemma_pow2_strictly_increases(24, s as nat);
        }
        assert(d <= 0x1_0000_0000) by {
            if s < 32 {
                lemma_pow2_strictly_increases(s as nat, 32);
            }
        }
        assert(sig < d);
        assert(510 * sig + d < 511 * d);
        assert((510 * sig + d) / (2 * d) <= 255) by {
            assert(510 * (sig as int) + d < (2 * (d as int)) * 256) by {
                lemma_double_factor(256, 2 * (d as int), d as int);
            }
            vstd::arithmetic::div_mod::lemma_multiply_divide_lt(
                510 * (sig as int) + d,
                2 * (d as int),
                256,
            );
        }
    }
    let q: u64 = (510 * sig + d) / (2 * d);
    q as u8
}

/// Expands one byte channel to the bit pattern of the nearest float,
/// exactly as `spec_byte_channel_bits` states.
fn byte_channel_bits(v: u8) -> (r: u32)
    ensures
        r == spec_byte_channel_bits(v),
{
    if v == 0 {
        return 0;
    }
    if v == 255 {
        return 0x3F80_0000;
    }
    let mut j: u32 = 1;
    let mut p: u64 = 2;
    proof {
        lemma2_to64();
        assert((v as int) * pow2(0) < 255) by {
            assert(pow2(0) == 1);
        }
    }
    while (v as u64) * p < 255
        invariant
            1 <= v < 255,
            1 <= j <= 8,
            p == pow2(j as nat),
            p <= 256,
            (v as int) * (p as int) <= 0x10000,
            (v as int) * pow2((j - 1) as nat) < 255,
            scale_exp(v, 1) == scale_exp(v, j as nat),
        decreases 8 - j,
    {
        proof {
            lemma2_to64();
            assert(j < 8) by {
                if j == 8 {
                    assert(p == 256);
                    lemma_mul_inequality(1, v as int, 256);
                }
            }
            lemma_pow2_unfold((j + 1) as nat);
            lemma_double_factor(v as int, 2 * (p as int), p as int);
        }
        j = j + 1;
        p = p * 2;
    }
    proof {
        lemma2_to64();
        assert(scale_exp(v, j as nat) == j);
        lemma_pow2_adds(j as nat, 24);
        let vi = v as int;
        // The scale brackets 255: one doubling at or above, the last below.
        assert(vi * (p as int) >= 255);
        assert(vi * (p as int) <= 508) by {
            lemma_pow2_unfold(j as nat);
            lemma_double_factor(vi, p as int, pow2((j - 1) as nat) as int);
            assert(vi * pow2((j - 1) as nat) <= 254);
        }
    }
    let m: u64 = ((v as u64) * p * 0x100_0000 + 255) / 510;
    proof {
        let vi = v as int;
        let big = vi * pow2((j + 24) as nat);
        assert(big == vi * (p as int) * 0x100_0000) by {
            lemma_mul_is_associative(vi, p as int, 0x100_0000);
        }
        assert(big >= 255 * 0x100_0000) by {
            lemma_mul_inequality(255, vi * (p as int), 0x100_0000);
        }
        assert(m >= 0x80_0000) by {
            lemma_div_is_ordered(255int * 0x100_0000 + 255, (big + 255) as int, 510);
        }
        assert(big <= 508 * 0x100_0000) by {
            lemma_mul_inequality(vi * (p as int), 508, 0x100_0000);
        }
        assert(m < 0x100_0000) by {
            lemma_div_is_ordered((big + 255) as int, 508int * 0x100_0000 + 255, 510);
        }
    }
    let r: u32 = (127 - j) * 0x80_0000 + (m as u32 - 0x80_0000);
    r
}

impl Color3 {
    pub fn new(r: u32, g: u32, b: u32) -> (c: Self)
        ensures
            c == (Color3 { r, g, b }),
    {
        Self { r, g, b }
    }
}

impl Color3uint8 {
    pub fn new(r: u8, g: u8, b: u8) -> (c: Self)
        ensures
            c == (Color3uint8 { r, g, b }),
    {
        Self { r, g, b }
    }
}

impl From<Color3> for Color3uint8 {
    /// The lossy byte form of an HDR color: each channel clamped to the
    /// unit interval, then rounded to the nearest byte step, ties away from
    /// zero.
    fn from(c: Color3) -> Self {
        Self { r: channel_byte(c.r), g: channel_byte(c.g), b: channel_byte(c.b) }
    }
}

impl vstd::std_specs::convert::FromSpecImpl<Color3> for Color3uint8 {
    open spec fn obeys_from_spec() -> bool {
        true
    }

    open spec fn from_spec(c: Color3) -> Self {
        Color3uint8 {
            r: spec_channel_byte(c.r) as u8,
            g: spec_channel_byte(c.g) as u8,
            b: spec_channel_byte(c.b) as u8,
        }
    }
}

impl From<Color3uint8> for Color3 {
    /// The exact float form of a byte color: each channel becomes the float
    /// nearest to the byte divided by 255.
    fn from(c: Color3uint8) -> Self {
        Self { r: byte_channel_bits(c.r), g: byte_channel_bits(c.g), b: byte_channel_bits(c.b) }
    }
}

impl vstd::std_specs::convert::FromSpecImpl<Color3uint8> for Color3 {
    open spec fn obeys_from_spec() -> bool {
        true
    }

    open spec fn from_spec(c: Color3uint8) -> Self {
        Color3 {
            r: spec_byte_channel_bits(c.r),
            g: spec_byte_channel_bits(c.g),
            b: spec_byte_channel_bits(c.b),
        }
    }
}

/// Expanding a byte channel to its float and clamping back rounds to the
/// same byte: the byte form of a color is stable under the float round
/// trip.
pub proof fn lemma_channel_byte_round_trip(v: u8)
    ensures
        spec_channel_byte(spec_byte_channel_bits(v)) == v as int,
{
    lemma2_to64();
    if v == 0 {
    } else if v == 255 {
    } else {
        let j = scale_exp(v, 1);
        lemma_scale_exp_bounds(v);
        let vi = v as int;
        let big = vi * pow2((j + 24) as nat);
        let m = (big + 255) / 510;
        let mm = m - 0x80_0000;
        let r = spec_byte_channel_bits(v);
        lemma_pow2_adds(j, 24);
        lemma_pow2_adds(j, 23);
        lemma_pow2_adds(j + 23, 1);
        lemma_pow2_pos(j);
        // m lies in the normalized band.
        assert(vi * pow2(j) >= 255 && vi * pow2(j) <= 508);
        assert(vi * pow2((j + 24) as nat) == vi * pow2(j) * 0x100_0000) by {
            lemma_mul_is_associative(vi, pow2(j) as int, 0x100_0000);
        }
        assert(big >= 255 * 0x100_0000) by {
            lemma_mul_inequality(255, vi * pow2(j) as int, 0x100_0000);
        }
        assert(big <= 508 * 0x100_0000) by {
            lemma_mul_inequality(vi * pow2(j) as int, 508, 0x100_0000);
        }
        assert(m >= 0x80_0000) by {
            lemma_div_is_ordered(255int * 0x100_0000 + 255, (big + 255) as int, 510);
        }
        assert(m < 0x100_0000) by {
            lemma_div_is_ordered((big + 255) as int, 508int * 0x100_0000 + 255, 510);
        }
        assert(r == (127 - j) * 0x80_0000 + mm);
        assert(r < 0x3F80_0000 && r >= 0x0080_0000) by {
            assert(127 - j <= 126 && 127 - j >= 119);
        }
        // Field decomposition of the produced pattern.
        assert(f32_abs_bits(r) == r);
        lemma_fundamental_div_mod_converse(r as int, 0x80_0000, 127 - j, mm);
        assert(crate::fbits::f32_exp_field(r) == 127 - j);
        assert(crate::fbits::f32_man_field(r) == mm);
        assert(f32_sig(r) == m);
        assert(f32_frac_exp(r) == 23 + j);
        assert(!f32_is_nan(r) && !f32_sign(r));
        // The rounding of 255 * m / pow2(23 + j) recovers v.
        let rem = (big + 255) % 510;
        lemma_fundamental_div_mod(big + 255, 510);
        assert(510 * m == big + 255 - rem);
        let h = pow2((j + 23) as nat) as int;
        let dd = pow2((j + 24) as nat) as int;
        assert(dd == 2 * h);
        assert(2 * (255 * m) + h == vi * dd + h + 255 - rem);
        assert(0 <= rem < 510);
        assert(h >= 0x100_0000);
        assert(0 <= h + 255 - rem < 2 * h);
        lemma_fundamental_div_mod_converse(2 * (255 * m) + h, 2 * h, vi, h + 255 - rem);
        assert(round_nearest_away(255 * m, h) == vi);
    }
}

/// The scale picked for a mid-range byte brackets 255: one more doubling
/// reaches it, the scale before fell short.
proof fn lemma_scale_exp_bounds(v: u8)
    requires
        1 <= v < 255,
    ensures
        1 <= scale_exp(v, 1) <= 8,
        (v as int) * pow2(scale_exp(v, 1)) >= 255,
        (v as int) * pow2(scale_exp(v, 1)) <= 508,
{
    lemma2_to64();
    assert((v as int) * pow2(0) < 255) by {
        assert(pow2(0) == 1);
    }
    lemma_scale_exp_step(v, 1);
}

/// For any starting scale with `v * pow2(j - 1) < 255`, the chosen scale
/// brackets 255 from above by at most a factor of two.
proof fn lemma_scale_exp_step(v: u8, j: nat)
    requires
        1 <= v < 255,
        1 <= j <= 8,
        (v as int) * pow2((j - 1) as nat) < 255,
    ensures
        j <= scale_exp(v, j) <= 8,
        (v as int) * pow2(scale_exp(v, j)) >= 255,
        (v as int) * pow2(scale_exp(v, j)) <= 508,
    decreases 8 - j,
{
    lemma2_to64();
    let vi = v as int;
    lemma_pow2_unfold(j);
    lemma_double_factor(vi, pow2(j) as int, pow2((j - 1) as nat) as int);
    if j == 8 {
        assert(vi * pow2(7) < 255);
        assert(vi * pow2(8) <= 508);
        assert(vi * pow2(8) >= 255) by {
            lemma_mul_inequality(1, vi, 256);
        }
        assert(scale_exp(v, 8) == 8);
    } else if vi * pow2(j) >= 255 {
        assert(scale_exp(v, j) == j);
        assert(vi * pow2(j) <= 508);
    } else {
        assert(scale_exp(v, j) == scale_exp(v, j + 1));
        lemma_scale_exp_step(v, j + 1);
    }
}

/// Converting a byte color to its float form and back returns it
/// unchanged: the documented exactness of the byte-to-float direction.
pub proof fn lemma_color_byte_round_trip(c: Color3uint8)
    ensures
        ({
            let up = Color3 {
                r: spec_byte_channel_bits(c.r),
                g: spec_byte_channel_bits(c.g),
                b: spec_byte_channel_bits(c.b),
            };
            let back = Color3uint8 {
                r: spec_channel_byte(up.r) as u8,
                g: spec_channel_byte(up.g) as u8,
                b: spec_channel_byte(up.b) as u8,
            };
            back == c
        }),
{
    lemma_channel_byte_round_trip(c.r);
    lemma_channel_byte_round_trip(c.g);
    lemma_channel_byte_round_trip(c.b);
}

} // verus!
