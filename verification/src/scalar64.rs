//! The 64-bit scalar math facade.
//!
//! The same operations as the 32-bit facade, on 64-bit IEEE-754 patterns,
//! except for the fast arccosine approximation, which exists only for the
//! narrower format. Bit work carries exact contracts; rounding operations
//! delegate to the software math provider, with any NaN made canonical.

use vstd::prelude::*;
use crate::fbits::{
    abs64_of, clamp64_of, copysign64_of, is_finite64, is_nan64, le64, lt64, mag64, sign64,
    signum64_of, sqrt_nan64, INF_64, MAG_64, NEG_ONE_64, ONE_64, QNAN_64, SIGN_64,
};
use crate::provider::{
    acos64_bits, acos64_of, asin64_bits, asin64_of, atan2_64_bits, atan2_64_of, cos64_bits,
    cos64_of, recip64_of, rsqrt64_bits, sin64_bits, sin64_of, sincos64_bits, sincos64_of,
    sqrt64_bits, sqrt64_of,
};

verus! {

/// Whether the sign bit of the pattern is set; a pure bit test, exact for
/// signed zero and NaN alike.
pub fn is_sign_negative_f64(v: u64) -> (r: bool)
    ensures
        r == (sign64(v) == 1),
{
    (v >> 63) == 1
}

/// Whether the sign bit of the pattern is clear.
pub fn is_sign_positive_f64(v: u64) -> (r: bool)
    ensures
        r == (sign64(v) == 0),
{
    (v >> 63) == 0
}

/// Whether the pattern encodes a NaN.
pub fn is_nan_f64(v: u64) -> (r: bool)
    ensures
        r == is_nan64(v),
{
    (v & MAG_64) > INF_64
}

/// The absolute value: the input with its sign bit cleared.
pub fn abs_f64(v: u64) -> (r: u64)
    ensures
        r == abs64_of(v),
{
    proof {
        assert(v >> 63 == 0 ==> (v & 0x7FFF_FFFF_FFFF_FFFF) == v) by (bit_vector);
        assert(v >> 63 != 0 ==> (v ^ 0x8000_0000_0000_0000) == (v & 0x7FFF_FFFF_FFFF_FFFF))
            by (bit_vector);
    }
    if is_sign_positive_f64(v) {
        v
    } else {
        v ^ SIGN_64
    }
}

/// The magnitude of `v` joined with the sign bit of `sign`.
pub fn copysign_f64(v: u64, sign: u64) -> (r: u64)
    ensures
        r == copysign64_of(v, sign),
{
    (v & MAG_64) | (sign & SIGN_64)
}

/// The canonical NaN for a NaN input, else one with the input's sign.
pub fn signum_f64(v: u64) -> (r: u64)
    ensures
        r == signum64_of(v),
{
    proof {
        assert((0x3FF0_0000_0000_0000u64 & 0x7FFF_FFFF_FFFF_FFFF) | (v & 0x8000_0000_0000_0000)
            == (
        if v >> 63 == 1 {
            0xBFF0_0000_0000_0000u64
        } else {
            0x3FF0_0000_0000_0000u64
        }
        )) by (bit_vector);
    }
    if is_nan_f64(v) {
        QNAN_64
    } else {
        copysign_f64(ONE_64, v)
    }
}

/// The IEEE `<` on 64-bit patterns.
pub fn lt_f64(a: u64, b: u64) -> (r: bool)
    ensures
        r == lt64(a, b),
{
    if is_nan_f64(a) || is_nan_f64(b) {
        false
    } else {
        let ma = a & MAG_64;
        let mb = b & MAG_64;
        if (a >> 63) == 1 {
            if (b >> 63) == 1 {
                mb < ma
            } else {
                !(ma == 0 && mb == 0)
            }
        } else {
            if (b >> 63) == 1 {
                false
            } else {
                ma < mb
            }
        }
    }
}

/// `v` clamped to `[lo, hi]`; a NaN input passes through.
pub fn clamp_f64(v: u64, lo: u64, hi: u64) -> (r: u64)
    requires
        !is_nan64(lo),
        !is_nan64(hi),
        le64(lo, hi),
    ensures
        r == clamp64_of(v, lo, hi),
{
    if is_nan_f64(v) {
        v
    } else if lt_f64(v, lo) {
        lo
    } else if lt_f64(hi, v) {
        hi
    } else {
        v
    }
}

/// The provider's 64-bit sine, total over the bits.
pub open spec fn sin64_s(x: u64) -> u64 {
    if is_finite64(x) {
        sin64_of(x)
    } else {
        QNAN_64
    }
}

/// The provider's 64-bit cosine, total over the bits.
pub open spec fn cos64_s(x: u64) -> u64 {
    if is_finite64(x) {
        cos64_of(x)
    } else {
        QNAN_64
    }
}

/// The provider's 64-bit arcsine, total over the bits.
pub open spec fn asin64_s(x: u64) -> u64 {
    if !is_nan64(x) && mag64(x) <= ONE_64 {
        asin64_of(x)
    } else {
        QNAN_64
    }
}

/// The provider's 64-bit arccosine, total over the bits.
pub open spec fn acos64_s(x: u64) -> u64 {
    if !is_nan64(x) && mag64(x) <= ONE_64 {
        acos64_of(x)
    } else {
        QNAN_64
    }
}

/// The provider's 64-bit four-quadrant arctangent, total over the bits.
pub open spec fn atan2_64_s(y: u64, x: u64) -> u64 {
    if !is_nan64(y) && !is_nan64(x) {
        atan2_64_of(y, x)
    } else {
        QNAN_64
    }
}

/// The 64-bit square root, total over the bits.
pub open spec fn sqrt64_s(x: u64) -> u64 {
    if sqrt_nan64(x) {
        QNAN_64
    } else {
        sqrt64_of(x)
    }
}

/// The 64-bit reciprocal square root, total over the bits.
pub open spec fn rsqrt64_s(x: u64) -> u64 {
    if sqrt_nan64(x) {
        QNAN_64
    } else {
        recip64_of(sqrt64_of(x))
    }
}

/// The square root.
pub fn sqrt_f64(x: u64) -> (r: u64)
    ensures
        r == sqrt64_s(x),
{
    let t = sqrt64_bits(x);
    if is_nan_f64(t) {
        QNAN_64
    } else {
        t
    }
}

/// The reciprocal square root `1 / sqrt(x)`, defined through the square
/// root.
pub fn rsqrt_f64(x: u64) -> (r: u64)
    ensures
        r == rsqrt64_s(x),
{
    let t = rsqrt64_bits(x);
    if is_nan_f64(t) {
        QNAN_64
    } else {
        t
    }
}

/// The sine, in radians.
pub fn sin_f64(x: u64) -> (r: u64)
    ensures
        r == sin64_s(x),
{
    let t = sin64_bits(x);
    if is_nan_f64(t) {
        QNAN_64
    } else {
        t
    }
}

/// The cosine, in radians.
pub fn cos_f64(x: u64) -> (r: u64)
    ensures
        r == cos64_s(x),
{
    let t = cos64_bits(x);
    if is_nan_f64(t) {
        QNAN_64
    } else {
        t
    }
}

/// The sine and cosine together, computed by the provider's pair call.
pub fn sin_cos_f64(x: u64) -> (r: (u64, u64))
    ensures
        is_finite64(x) ==> r == sincos64_of(x),
        !is_finite64(x) ==> r == (QNAN_64, QNAN_64),
{
    let (s, c) = sincos64_bits(x);
    let s = if is_nan_f64(s) {
        QNAN_64
    } else {
        s
    };
    let c = if is_nan_f64(c) {
        QNAN_64
    } else {
        c
    };
    (s, c)
}

/// The arcsine, in radians.
pub fn asin_f64(x: u64) -> (r: u64)
    ensures
        r == asin64_s(x),
{
    let t = asin64_bits(x);
    if is_nan_f64(t) {
        QNAN_64
    } else {
        t
    }
}

/// The four-quadrant arctangent of `y / x`, in radians.
pub fn atan2_f64(y: u64, x: u64) -> (r: u64)
    ensures
        r == atan2_64_s(y, x),
{
    let t = atan2_64_bits(y, x);
    if is_nan_f64(t) {
        QNAN_64
    } else {
        t
    }
}

/// The arccosine of the input clamped to `[-1, 1]`, in radians.
pub fn acos_clamped_f64(x: u64) -> (r: u64)
    ensures
        r == acos64_s(clamp64_of(x, NEG_ONE_64, ONE_64)),
{
    proof {
        assert(0xBFF0_0000_0000_0000u64 & 0x7FFF_FFFF_FFFF_FFFF == 0x3FF0_0000_0000_0000u64)
            by (bit_vector);
        assert(0x3FF0_0000_0000_0000u64 & 0x7FFF_FFFF_FFFF_FFFF == 0x3FF0_0000_0000_0000u64)
            by (bit_vector);
        assert(0xBFF0_0000_0000_0000u64 >> 63 == 1u64) by (bit_vector);
        assert(0x3FF0_0000_0000_0000u64 >> 63 == 0u64) by (bit_vector);
    }
    let c = clamp_f64(x, NEG_ONE_64, ONE_64);
    let t = acos64_bits(c);
    if is_nan_f64(t) {
        QNAN_64
    } else {
        t
    }
}

} // verus!
