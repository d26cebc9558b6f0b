//! Floats as their bit patterns. The library carries every 32-bit float as
//! the `u32` that holds its bits, and reads from the bits what it needs of
//! the float: whether two floats compare equal, the absolute value, and the
//! whole number that a float holds.

use vstd::arithmetic::power2::{lemma2_to64, lemma_pow2_strictly_increases, pow2};
use vstd::bits::{lemma_u32_shl_is_mul, lemma_u32_shr_is_div};
use vstd::prelude::*;

verus! {

/// Bit pattern of the float 1.0.
pub const F32_ONE: u32 = 0x3F80_0000;

/// Bit pattern of the float 1920.0.
pub const F32_DEFAULT_WIDTH: u32 = 0x44F0_0000;

/// Bit pattern of the float 1080.0.
pub const F32_DEFAULT_HEIGHT: u32 = 0x4487_0000;

/// Bit pattern of the float quotient 1920.0 / 1080.0.
pub const F32_DEFAULT_ASPECT: u32 = 0x3FE3_8E39;

/// Bit pattern of the float 2.0.
pub const F32_TWO: u32 = 0x4000_0000;

/// Bit pattern of the float 4.0.
pub const F32_FOUR: u32 = 0x4080_0000;

/// Bit pattern of the float 5.0.
pub const F32_FIVE: u32 = 0x40A0_0000;

/// Bit pattern of the float 1280.0.
pub const F32_STARTUP_WIDTH: u32 = 0x44A0_0000;

/// Bit pattern of the float 720.0.
pub const F32_STARTUP_HEIGHT: u32 = 0x4434_0000;

/// The exponent field of a float's bit pattern: bits 23 to 30, the exponent
/// with 127 added.
pub open spec fn exponent_field(bits: u32) -> int {
    (bits as int / 0x80_0000) % 256
}

/// The fraction field of a float's bit pattern: the low 23 bits, the
/// significand without its leading 1.
pub open spec fn fraction_field(bits: u32) -> int {
    bits as int % 0x80_0000
}

/// The bit pattern without its sign, bit 31.
pub open spec fn magnitude(bits: u32) -> int {
    bits as int % 0x8000_0000
}

/// The bits are those of a float that is not a number: all exponent bits
/// set and a fraction that is not zero.
pub open spec fn is_nan(bits: u32) -> bool {
    exponent_field(bits) == 255 && fraction_field(bits) != 0
}

/// The floats with these bit patterns compare equal: neither is not a
/// number, and they have the same bits or are both zero, of either sign.
pub open spec fn float_eq(a: u32, b: u32) -> bool {
    !is_nan(a) && !is_nan(b) && (a == b || (magnitude(a) == 0 && magnitude(b) == 0))
}

/// Whether the floats with bit patterns `a` and `b` compare equal.
pub fn float_bits_equal(a: u32, b: u32) -> (equal: bool)
    ensures
        equal == float_eq(a, b),
{
    let a_nan = (a & 0x7FFF_FFFF) > 0x7F80_0000;
    let b_nan = (b & 0x7FFF_FFFF) > 0x7F80_0000;
    let both_zero = ((a | b) & 0x7FFF_FFFF) == 0;
    proof {
        lemma_nan_bits(a);
        lemma_nan_bits(b);
        assert((((a | b) & 0x7FFF_FFFFu32) == 0) == (a % 0x8000_0000u32 == 0 && b % 0x8000_0000u32
            == 0)) by (bit_vector);
    }
    !a_nan && !b_nan && (a == b || both_zero)
}

/// The test on bits for a float that is not a number: without its sign, the
/// bit pattern lies above that of infinity.
pub proof fn lemma_nan_bits(bits: u32)
    ensures
        ((bits & 0x7FFF_FFFFu32) > 0x7F80_0000u32) == is_nan(bits),
{
    assert(((bits & 0x7FFF_FFFFu32) > 0x7F80_0000u32) == ((bits / 0x80_0000u32) % 256u32 == 255u32
        && bits % 0x80_0000u32 != 0u32)) by (bit_vector);
}

/// The whole number of pixels in the float with bit pattern `bits`: the float
/// with its fraction cut off, 0 for a negative float and for one that is not
/// a number, and the largest `u32` for every float beyond it.
///
/// A float with exponent field `e` and fraction field `f` has the value
/// `(2^23 + f) * 2^(e - 150)`. With `e` under 127 it is below 1; with `e` of
/// 159 or more it is 2^32 or above.
pub open spec fn pixels(bits: u32) -> u32 {
    let e = exponent_field(bits);
    let significand = fraction_field(bits) + 0x80_0000;
    if is_nan(bits) || bits >= 0x8000_0000u32 || e < 127 {
        0u32
    } else if e >= 159 {
        0xFFFF_FFFFu32
    } else if e >= 150 {
        (significand * pow2((e - 150) as nat)) as u32
    } else {
        (significand / (pow2((150 - e) as nat) as int)) as u32
    }
}

/// The whole number of pixels in the float with bit pattern `bits`.
pub fn float_bits_to_pixels(bits: u32) -> (n: u32)
    ensures
        n == pixels(bits),
{
    let exponent: u32 = (bits >> 23u32) & 0xFFu32;
    let significand: u32 = (bits & 0x007F_FFFFu32) | 0x0080_0000u32;
    proof {
        lemma_nan_bits(bits);
        assert((bits >> 23u32) & 0xFFu32 == (bits / 0x80_0000u32) % 256u32) by (bit_vector);
        assert((bits & 0x007F_FFFFu32) | 0x0080_0000u32 == bits % 0x80_0000u32 + 0x80_0000u32)
            by (bit_vector);
    }
    if (bits & 0x7FFF_FFFFu32) > 0x7F80_0000u32 || bits >= 0x8000_0000u32 || exponent < 127 {
        0
    } else if exponent >= 159 {
        0xFFFF_FFFF
    } else if exponent >= 150 {
        let by: u32 = exponent - 150;
        proof {
            lemma2_to64();
            assert(pow2(by as nat) <= 256) by {
                if by < 8 {
                    lemma_pow2_strictly_increases(by as nat, 8);
                }
            }
            assert(significand * pow2(by as nat) <= 0xFFFF_FFFF) by (nonlinear_arith)
                requires
                    significand < 0x100_0000,
                    pow2(by as nat) <= 256,
            ;
            lemma_u32_shl_is_mul(significand, by);
        }
        significand << by
    } else {
        let by: u32 = 150 - exponent;
        proof {
            lemma_u32_shr_is_div(significand, by);
        }
        significand >> by
    }
}

/// Floats that compare equal hold the same whole number of pixels.
pub proof fn lemma_equal_floats_same_pixels(a: u32, b: u32)
    requires
        float_eq(a, b),
    ensures
        pixels(a) == pixels(b),
{
    if a != b {
        assert(a == 0 || a == 0x8000_0000u32);
        assert(b == 0 || b == 0x8000_0000u32);
    }
}

/// The startup size, 1280.0 by 720.0, is 1280 by 720 pixels.
pub proof fn lemma_startup_extent()
    ensures
        pixels(F32_STARTUP_WIDTH) == 1280,
        pixels(F32_STARTUP_HEIGHT) == 720,
{
    lemma2_to64();
    assert(exponent_field(F32_STARTUP_WIDTH) == 137);
    assert(fraction_field(F32_STARTUP_WIDTH) == 0x20_0000);
    assert(exponent_field(F32_STARTUP_HEIGHT) == 136);
    assert(fraction_field(F32_STARTUP_HEIGHT) == 0x34_0000);
    assert(pow2(13) == 0x2000 && pow2(14) == 0x4000);
    assert(0xA0_0000int / 0x2000 == 1280 && 0xB4_0000int / 0x4000 == 720);
    assert(!is_nan(F32_STARTUP_WIDTH) && !is_nan(F32_STARTUP_HEIGHT));
}

/// The bit pattern of the absolute value of the float with bit pattern
/// `bits`: the same bits with the sign cleared.
pub open spec fn abs_bits(bits: u32) -> u32 {
    (bits % 0x8000_0000) as u32
}

/// The bit pattern of the absolute value of the float with bit pattern
/// `bits`.
pub fn float_bits_abs(bits: u32) -> (abs: u32)
    ensures
        abs == abs_bits(bits),
{
    assert(bits & 0x7FFF_FFFFu32 == bits % 0x8000_0000u32) by (bit_vector);
    bits & 0x7FFF_FFFF
}

} // verus!
