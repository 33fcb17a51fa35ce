//! The bit-level model of the two IEEE-754 binary formats.
//!
//! A 32-bit scalar is a `u32` holding sign (bit 31), exponent (bits 23..31)
//! and fraction (bits 0..23); a 64-bit scalar is a `u64` laid out the same
//! way with an 11-bit exponent. These spec functions say, directly on the
//! bits, what the executable operations of the crate compute: sign tests,
//! magnitude, the NaN/infinity/zero classes, the value ordering, and the
//! conditions under which an arithmetic operation produces a NaN.

use vstd::prelude::*;

verus! {

/// Sign bit mask of the 32-bit format; also the pattern of negative zero.
pub const SIGN_32: u32 = 0x8000_0000;
/// Magnitude mask of the 32-bit format (everything but the sign).
pub const MAG_32: u32 = 0x7FFF_FFFF;
/// Magnitude of an infinity in the 32-bit format.
pub const INF_32: u32 = 0x7F80_0000;
/// The canonical quiet NaN of the 32-bit format.
pub const QNAN_32: u32 = 0x7FC0_0000;
/// The 32-bit pattern of one.
pub const ONE_32: u32 = 0x3F80_0000;
/// The 32-bit pattern of negative one.
pub const NEG_ONE_32: u32 = 0xBF80_0000;
/// The 32-bit pattern of positive zero.
pub const ZERO_32: u32 = 0x0000_0000;
/// The 32-bit pattern of negative zero.
pub const NEG_ZERO_32: u32 = 0x8000_0000;
/// The 32-bit pattern of two.
pub const TWO_32: u32 = 0x4000_0000;
/// The 32-bit pattern nearest to pi.
pub const PI_32: u32 = 0x4049_0FDB;

/// Sign bit mask of the 64-bit format; also the pattern of negative zero.
pub const SIGN_64: u64 = 0x8000_0000_0000_0000;
/// Magnitude mask of the 64-bit format (everything but the sign).
pub const MAG_64: u64 = 0x7FFF_FFFF_FFFF_FFFF;
/// Magnitude of an infinity in the 64-bit format.
pub const INF_64: u64 = 0x7FF0_0000_0000_0000;
/// The canonical quiet NaN of the 64-bit format.
pub const QNAN_64: u64 = 0x7FF8_0000_0000_0000;
/// The 64-bit pattern of one.
pub const ONE_64: u64 = 0x3FF0_0000_0000_0000;
/// The 64-bit pattern of negative one.
pub const NEG_ONE_64: u64 = 0xBFF0_0000_0000_0000;
/// The 64-bit pattern of positive zero.
pub const ZERO_64: u64 = 0x0000_0000_0000_0000;

/// Sign bit of a 32-bit pattern: 1 for negative, 0 for positive.
pub open spec fn sign32(b: u32) -> u32 {
    b >> 31
}

/// Magnitude (all bits but the sign) of a 32-bit pattern.
pub open spec fn mag32(b: u32) -> u32 {
    b & MAG_32
}

/// Whether a 32-bit pattern encodes a NaN: magnitude above that of infinity,
/// that is, exponent all ones with a nonzero fraction.
pub open spec fn is_nan32(b: u32) -> bool {
    mag32(b) > INF_32
}

/// Whether a 32-bit pattern encodes an infinity.
pub open spec fn is_inf32(b: u32) -> bool {
    mag32(b) == INF_32
}

/// Whether a 32-bit pattern encodes a zero of either sign.
pub open spec fn is_zero32(b: u32) -> bool {
    mag32(b) == 0
}

/// Whether a 32-bit pattern encodes a finite value.
pub open spec fn is_finite32(b: u32) -> bool {
    mag32(b) < INF_32
}

/// The pattern with the sign cleared: the absolute value.
pub open spec fn abs32_of(b: u32) -> u32 {
    b & MAG_32
}

/// The magnitude of `m` joined with the sign bit of `s`.
pub open spec fn copysign32_of(m: u32, s: u32) -> u32 {
    (m & MAG_32) | (s & SIGN_32)
}

/// The IEEE-754 `<` on 32-bit patterns: false whenever either side is NaN,
/// the two zeros equal, negatives ordered by descending magnitude.
pub open spec fn lt32(a: u32, b: u32) -> bool {
    &&& !is_nan32(a)
    &&& !is_nan32(b)
    &&& (if sign32(a) == 1 {
        if sign32(b) == 1 {
            mag32(b) < mag32(a)
        } else {
            !(mag32(a) == 0 && mag32(b) == 0)
        }
    } else {
        if sign32(b) == 1 {
            false
        } else {
            mag32(a) < mag32(b)
        }
    })
}

/// The IEEE-754 `==` on 32-bit patterns: NaN equals nothing, the two zeros
/// equal each other, all else compares by identical bits.
pub open spec fn eq_val32(a: u32, b: u32) -> bool {
    &&& !is_nan32(a)
    &&& !is_nan32(b)
    &&& (a == b || (mag32(a) == 0 && mag32(b) == 0))
}

/// The IEEE-754 `<=` on 32-bit patterns.
pub open spec fn le32(a: u32, b: u32) -> bool {
    lt32(a, b) || eq_val32(a, b)
}

/// The signum of a 32-bit pattern: the canonical NaN for NaN, else one with
/// the sign of the input (so a zero of either sign keeps its sign's one).
pub open spec fn signum32_of(b: u32) -> u32 {
    if is_nan32(b) {
        QNAN_32
    } else if sign32(b) == 1 {
        NEG_ONE_32
    } else {
        ONE_32
    }
}

/// The smaller operand, preferring the other side on a NaN, and the second
/// operand when the two compare equal.
pub open spec fn min32_of(a: u32, b: u32) -> u32 {
    if is_nan32(a) {
        b
    } else if is_nan32(b) {
        a
    } else if lt32(b, a) {
        b
    } else {
        a
    }
}

/// The larger operand, preferring the other side on a NaN, and the second
/// operand when the two compare equal.
pub open spec fn max32_of(a: u32, b: u32) -> u32 {
    if is_nan32(a) {
        b
    } else if is_nan32(b) {
        a
    } else if lt32(a, b) {
        b
    } else {
        a
    }
}

/// `v` clamped to `[lo, hi]`: NaN passes through, anything below `lo` maps
/// to `lo`, anything above `hi` maps to `hi`.
pub open spec fn clamp32_of(v: u32, lo: u32, hi: u32) -> u32 {
    if is_nan32(v) {
        v
    } else if lt32(v, lo) {
        lo
    } else if lt32(hi, v) {
        hi
    } else {
        v
    }
}

/// Whether a product of the two patterns is a NaN: a NaN operand, or zero
/// times infinity.
pub open spec fn mul_nan32(a: u32, b: u32) -> bool {
    ||| is_nan32(a)
    ||| is_nan32(b)
    ||| (is_inf32(a) && is_zero32(b))
    ||| (is_zero32(a) && is_inf32(b))
}

/// Whether the exact product of the two patterns is an infinity.
pub open spec fn prod_inf32(a: u32, b: u32) -> bool {
    !mul_nan32(a, b) && (is_inf32(a) || is_inf32(b))
}

/// The sign bit of a product of the two patterns.
pub open spec fn prod_sign32(a: u32, b: u32) -> u32 {
    sign32(a) ^ sign32(b)
}

/// Whether a fused multiply-add of the three patterns is a NaN: a NaN from
/// the product, a NaN addend, or an infinite product meeting the opposite
/// infinity.
pub open spec fn fma_nan32(a: u32, b: u32, c: u32) -> bool {
    ||| mul_nan32(a, b)
    ||| is_nan32(c)
    ||| (prod_inf32(a, b) && is_inf32(c) && sign32(c) != prod_sign32(a, b))
}

/// Whether a square root of the pattern is a NaN: a NaN input, or a negative
/// input other than negative zero.
pub open spec fn sqrt_nan32(b: u32) -> bool {
    is_nan32(b) || (sign32(b) == 1 && !is_zero32(b))
}

/// Sign bit of a 64-bit pattern: 1 for negative, 0 for positive.
pub open spec fn sign64(b: u64) -> u64 {
    b >> 63
}

/// Magnitude (all bits but the sign) of a 64-bit pattern.
pub open spec fn mag64(b: u64) -> u64 {
    b & MAG_64
}

/// Whether a 64-bit pattern encodes a NaN.
pub open spec fn is_nan64(b: u64) -> bool {
    mag64(b) > INF_64
}

/// Whether a 64-bit pattern encodes an infinity.
pub open spec fn is_inf64(b: u64) -> bool {
    mag64(b) == INF_64
}

/// Whether a 64-bit pattern encodes a zero of either sign.
pub open spec fn is_zero64(b: u64) -> bool {
    mag64(b) == 0
}

/// Whether a 64-bit pattern encodes a finite value.
pub open spec fn is_finite64(b: u64) -> bool {
    mag64(b) < INF_64
}

/// The pattern with the sign cleared: the absolute value.
pub open spec fn abs64_of(b: u64) -> u64 {
    b & MAG_64
}

/// The magnitude of `m` joined with the sign bit of `s`.
pub open spec fn copysign64_of(m: u64, s: u64) -> u64 {
    (m & MAG_64) | (s & SIGN_64)
}

/// The IEEE-754 `<` on 64-bit patterns.
pub open spec fn lt64(a: u64, b: u64) -> bool {
    &&& !is_nan64(a)
    &&& !is_nan64(b)
    &&& (if sign64(a) == 1 {
        if sign64(b) == 1 {
            mag64(b) < mag64(a)
        } else {
            !(mag64(a) == 0 && mag64(b) == 0)
        }
    } else {
        if sign64(b) == 1 {
            false
        } else {
            mag64(a) < mag64(b)
        }
    })
}

/// The IEEE-754 `==` on 64-bit patterns.
pub open spec fn eq_val64(a: u64, b: u64) -> bool {
    &&& !is_nan64(a)
    &&& !is_nan64(b)
    &&& (a == b || (mag64(a) == 0 && mag64(b) == 0))
}

/// The IEEE-754 `<=` on 64-bit patterns.
pub open spec fn le64(a: u64, b: u64) -> bool {
    lt64(a, b) || eq_val64(a, b)
}

/// The signum of a 64-bit pattern.
pub open spec fn signum64_of(b: u64) -> u64 {
    if is_nan64(b) {
        QNAN_64
    } else if sign64(b) == 1 {
        NEG_ONE_64
    } else {
        ONE_64
    }
}

/// `v` clamped to `[lo, hi]` in the 64-bit format.
pub open spec fn clamp64_of(v: u64, lo: u64, hi: u64) -> u64 {
    if is_nan64(v) {
        v
    } else if lt64(v, lo) {
        lo
    } else if lt64(hi, v) {
        hi
    } else {
        v
    }
}

/// Whether a square root of the 64-bit pattern is a NaN.
pub open spec fn sqrt_nan64(b: u64) -> bool {
    is_nan64(b) || (sign64(b) == 1 && !is_zero64(b))
}

} // verus!
