//! The 32-bit scalar math facade.
//!
//! Every function takes and returns 32-bit IEEE-754 patterns. Sign
//! inspection, absolute value, copysign and signum are pure bit work and
//! carry exact contracts; the comparisons implement the IEEE ordering in
//! which NaN compares false and the two zeros compare equal. The rounding
//! operations delegate to the software math provider and pin their result
//! to the provider's named, input-determined pattern; any NaN they hand
//! back is made canonical, so each is a total function of its input bits.

use vstd::prelude::*;
use crate::arith::{add32, add32_s, mul32, mul32_s, sqrt32, sqrt32_s, sub32, sub32_s};
use crate::fbits::{
    abs32_of, clamp32_of, copysign32_of, is_finite32, is_nan32, le32, lt32, mag32, max32_of,
    min32_of, sign32, signum32_of, sqrt_nan32, INF_32, MAG_32, NEG_ONE_32, NEG_ZERO_32, ONE_32,
    PI_32, QNAN_32, SIGN_32, ZERO_32,
};
use crate::provider::{
    acos32_of, acosf_bits, asin32_of, asinf_bits, atan2_32_of, atan2f_bits, cos32_of, cosf_bits,
    recip32_of, rsqrtf_bits, sin32_of, sincosf_bits, sinf_bits, sqrt32_of,
};

verus! {

/// Degree-7 minimax coefficient of the arccosine approximation (highest).
pub const ACOS_C7: u32 = 0xBAA5_7A2C;
/// Degree-6 minimax coefficient of the arccosine approximation.
pub const ACOS_C6: u32 = 0x3BDA_90C5;
/// Degree-5 minimax coefficient of the arccosine approximation.
pub const ACOS_C5: u32 = 0xBC8B_FC66;
/// Degree-4 minimax coefficient of the arccosine approximation.
pub const ACOS_C4: u32 = 0x3CFD_10F8;
/// Degree-3 minimax coefficient of the arccosine approximation.
pub const ACOS_C3: u32 = 0xBD4D_8392;
/// Degree-2 minimax coefficient of the arccosine approximation.
pub const ACOS_C2: u32 = 0x3DB6_3A9E;
/// Degree-1 minimax coefficient of the arccosine approximation.
pub const ACOS_C1: u32 = 0xBE5B_BFCA;
/// Degree-0 minimax coefficient of the arccosine approximation: half pi
/// rounded down.
pub const ACOS_C0: u32 = 0x3FC9_0FDA;

/// Whether the sign bit of the pattern is set. NaN has a sign bit like any
/// other pattern and reports it; an ordering comparison would say false.
pub fn is_sign_negative_f32(v: u32) -> (r: bool)
    ensures
        r == (sign32(v) == 1),
{
    (v >> 31) == 1
}

/// Whether the sign bit of the pattern is clear.
pub fn is_sign_positive_f32(v: u32) -> (r: bool)
    ensures
        r == (sign32(v) == 0),
{
    (v >> 31) == 0
}

/// Whether the pattern encodes a NaN.
pub fn is_nan(v: u32) -> (r: bool)
    ensures
        r == is_nan32(v),
{
    (v & MAG_32) > INF_32
}

/// The absolute value: the input with its sign bit cleared, found by sign
/// inspection, which is exact for signed zero and NaN alike.
pub fn abs(v: u32) -> (r: u32)
    ensures
        r == abs32_of(v),
{
    proof {
        assert(v >> 31 == 0 ==> (v & 0x7FFF_FFFF) == v) by (bit_vector);
        assert(v >> 31 != 0 ==> (v ^ 0x8000_0000) == (v & 0x7FFF_FFFF)) by (bit_vector);
    }
    if is_sign_positive_f32(v) {
        v
    } else {
        v ^ SIGN_32
    }
}

/// The magnitude of `v` joined with the sign bit of `sign`.
pub fn copysign(v: u32, sign: u32) -> (r: u32)
    ensures
        r == copysign32_of(v, sign),
{
    (v & MAG_32) | (sign & SIGN_32)
}

/// The canonical NaN for a NaN input, else one with the input's sign — so
/// positive zero maps to one and negative zero to negative one.
pub fn signum(v: u32) -> (r: u32)
    ensures
        r == signum32_of(v),
{
    proof {
        assert((0x3F80_0000u32 & 0x7FFF_FFFF) | (v & 0x8000_0000) == (
            if v >> 31 == 1 {
                0xBF80_0000u32
            } else {
                0x3F80_0000u32
            }
        )) by (bit_vector);
    }
    if is_nan(v) {
        QNAN_32
    } else {
        copysign(ONE_32, v)
    }
}

/// The signum pins the edge patterns: positive zero maps to one, negative
/// zero to negative one, and a NaN to a NaN.
pub proof fn lemma_signum_of_zeros_and_nan()
    ensures
        signum32_of(ZERO_32) == ONE_32,
        signum32_of(NEG_ZERO_32) == NEG_ONE_32,
        is_nan32(signum32_of(QNAN_32)),
{
    assert(0u32 & 0x7FFF_FFFF == 0u32) by (bit_vector);
    assert(0u32 >> 31 == 0u32) by (bit_vector);
    assert(0x8000_0000u32 & 0x7FFF_FFFF == 0u32) by (bit_vector);
    assert(0x8000_0000u32 >> 31 == 1u32) by (bit_vector);
    assert(0x7FC0_0000u32 & 0x7FFF_FFFF == 0x7FC0_0000u32) by (bit_vector);
}

/// The IEEE `<`: false whenever either side is a NaN, the two zeros equal.
pub fn lt(a: u32, b: u32) -> (r: bool)
    ensures
        r == lt32(a, b),
{
    if is_nan(a) || is_nan(b) {
        false
    } else {
        let ma = a & MAG_32;
        let mb = b & MAG_32;
        if (a >> 31) == 1 {
            if (b >> 31) == 1 {
                mb < ma
            } else {
                !(ma == 0 && mb == 0)
            }
        } else {
            if (b >> 31) == 1 {
                false
            } else {
                ma < mb
            }
        }
    }
}

/// The IEEE `<=`: false whenever either side is a NaN.
pub fn le(a: u32, b: u32) -> (r: bool)
    ensures
        r == le32(a, b),
{
    if is_nan(a) || is_nan(b) {
        false
    } else if a == b || ((a & MAG_32) == 0 && (b & MAG_32) == 0) {
        true
    } else {
        lt(a, b)
    }
}

/// The smaller operand, preferring the other side on a NaN.
pub fn min(a: u32, b: u32) -> (r: u32)
    ensures
        r == min32_of(a, b),
{
    if is_nan(a) {
        b
    } else if is_nan(b) {
        a
    } else if lt(b, a) {
        b
    } else {
        a
    }
}

/// The larger operand, preferring the other side on a NaN.
pub fn max(a: u32, b: u32) -> (r: u32)
    ensures
        r == max32_of(a, b),
{
    if is_nan(a) {
        b
    } else if is_nan(b) {
        a
    } else if lt(a, b) {
        b
    } else {
        a
    }
}

/// `v` clamped to `[lo, hi]`; a NaN input passes through. The bounds must
/// be ordered non-NaN values, as the native clamp demands.
pub fn clamp(v: u32, lo: u32, hi: u32) -> (r: u32)
    requires
        !is_nan32(lo),
        !is_nan32(hi),
        le32(lo, hi),
    ensures
        r == clamp32_of(v, lo, hi),
{
    if is_nan(v) {
        v
    } else if lt(v, lo) {
        lo
    } else if lt(hi, v) {
        hi
    } else {
        v
    }
}

/// The provider's sine, total over the bits: a canonical NaN for a NaN or
/// infinite argument.
pub open spec fn sin32_s(x: u32) -> u32 {
    if is_finite32(x) {
        sin32_of(x)
    } else {
        QNAN_32
    }
}

/// The provider's cosine, total over the bits.
pub open spec fn cos32_s(x: u32) -> u32 {
    if is_finite32(x) {
        cos32_of(x)
    } else {
        QNAN_32
    }
}

/// The provider's arcsine, total over the bits: a canonical NaN outside
/// `[-1, 1]`.
pub open spec fn asin32_s(x: u32) -> u32 {
    if !is_nan32(x) && mag32(x) <= ONE_32 {
        asin32_of(x)
    } else {
        QNAN_32
    }
}

/// The provider's arccosine, total over the bits: a canonical NaN outside
/// `[-1, 1]`.
pub open spec fn acos32_s(x: u32) -> u32 {
    if !is_nan32(x) && mag32(x) <= ONE_32 {
        acos32_of(x)
    } else {
        QNAN_32
    }
}

/// The provider's four-quadrant arctangent, total over the bits.
pub open spec fn atan2_32_s(y: u32, x: u32) -> u32 {
    if !is_nan32(y) && !is_nan32(x) {
        atan2_32_of(y, x)
    } else {
        QNAN_32
    }
}

/// The reciprocal square root, total over the bits.
pub open spec fn rsqrt32_s(x: u32) -> u32 {
    if sqrt_nan32(x) {
        QNAN_32
    } else {
        recip32_of(sqrt32_of(x))
    }
}

/// The square root.
pub fn sqrt(x: u32) -> (r: u32)
    ensures
        r == sqrt32_s(x),
{
    sqrt32(x)
}

/// The reciprocal square root `1 / sqrt(x)`, defined through the square
/// root so that every provider computes it the same way.
pub fn rsqrt(x: u32) -> (r: u32)
    ensures
        r == rsqrt32_s(x),
{
    let t = rsqrtf_bits(x);
    if is_nan(t) {
        QNAN_32
    } else {
        t
    }
}

/// The sine, in radians.
pub fn sin(x: u32) -> (r: u32)
    ensures
        r == sin32_s(x),
{
    let t = sinf_bits(x);
    if is_nan(t) {
        QNAN_32
    } else {
        t
    }
}

/// The cosine, in radians.
pub fn cos(x: u32) -> (r: u32)
    ensures
        r == cos32_s(x),
{
    let t = cosf_bits(x);
    if is_nan(t) {
        QNAN_32
    } else {
        t
    }
}

/// The sine and cosine together. Each half equals the corresponding single
/// call, bit for bit.
pub fn sin_cos(x: u32) -> (r: (u32, u32))
    ensures
        r.0 == sin32_s(x),
        r.1 == cos32_s(x),
{
    let (s, c) = sincosf_bits(x);
    let s = if is_nan(s) {
        QNAN_32
    } else {
        s
    };
    let c = if is_nan(c) {
        QNAN_32
    } else {
        c
    };
    (s, c)
}

/// The arcsine, in radians.
pub fn asin(x: u32) -> (r: u32)
    ensures
        r == asin32_s(x),
{
    let t = asinf_bits(x);
    if is_nan(t) {
        QNAN_32
    } else {
        t
    }
}

/// The four-quadrant arctangent of `y / x`, in radians.
pub fn atan2(y: u32, x: u32) -> (r: u32)
    ensures
        r == atan2_32_s(y, x),
{
    let t = atan2f_bits(y, x);
    if is_nan(t) {
        QNAN_32
    } else {
        t
    }
}

/// The arccosine of the input clamped to `[-1, 1]`, in radians: the exact,
/// library-precision variant.
pub fn acos_clamped(x: u32) -> (r: u32)
    ensures
        r == acos32_s(clamp32_of(x, NEG_ONE_32, ONE_32)),
{
    proof {
        assert(0xBF80_0000u32 & 0x7FFF_FFFF == 0x3F80_0000u32) by (bit_vector);
        assert(0x3F80_0000u32 & 0x7FFF_FFFF == 0x3F80_0000u32) by (bit_vector);
        assert(0xBF80_0000u32 >> 31 == 1u32) by (bit_vector);
        assert(0x3F80_0000u32 >> 31 == 0u32) by (bit_vector);
    }
    let c = clamp(x, NEG_ONE_32, ONE_32);
    let t = acosf_bits(c);
    if is_nan(t) {
        QNAN_32
    } else {
        t
    }
}

/// The Horner evaluation of the degree-7 minimax polynomial, each step a
/// separately rounded multiply and add.
pub open spec fn acos_poly32(x: u32) -> u32 {
    let t = add32_s(mul32_s(ACOS_C7, x), ACOS_C6);
    let t = add32_s(mul32_s(t, x), ACOS_C5);
    let t = add32_s(mul32_s(t, x), ACOS_C4);
    let t = add32_s(mul32_s(t, x), ACOS_C3);
    let t = add32_s(mul32_s(t, x), ACOS_C2);
    let t = add32_s(mul32_s(t, x), ACOS_C1);
    add32_s(mul32_s(t, x), ACOS_C0)
}

/// The fast arccosine approximation: mirror a negative input, take the
/// square root of the clamped `1 - |x|` as a common factor, evaluate the
/// minimax polynomial, and undo the mirror.
pub open spec fn acos_approx32_s(v: u32) -> u32 {
    let x = abs32_of(v);
    let omx = sub32_s(ONE_32, x);
    let omx2 = if lt32(omx, ZERO_32) {
        ZERO_32
    } else {
        omx
    };
    let root = sqrt32_s(omx2);
    let res = mul32_s(acos_poly32(x), root);
    if le32(ZERO_32, v) {
        res
    } else {
        sub32_s(PI_32, res)
    }
}

/// A close approximation of the arccosine of the input clamped to
/// `[-1, 1]`, accurate to a few hundred-thousandths over that interval. It
/// never calls the exact arccosine: the point of this variant is to avoid
/// that cost where angles are computed in bulk.
pub fn acos_approx(v: u32) -> (r: u32)
    ensures
        r == acos_approx32_s(v),
{
    let nonnegative = le(ZERO_32, v);
    let x = abs(v);
    let omx = sub32(ONE_32, x);
    let omx = if lt(omx, ZERO_32) {
        ZERO_32
    } else {
        omx
    };
    let root = sqrt32(omx);

    let t = add32(mul32(ACOS_C7, x), ACOS_C6);
    let t = add32(mul32(t, x), ACOS_C5);
    let t = add32(mul32(t, x), ACOS_C4);
    let t = add32(mul32(t, x), ACOS_C3);
    let t = add32(mul32(t, x), ACOS_C2);
    let t = add32(mul32(t, x), ACOS_C1);
    let t = add32(mul32(t, x), ACOS_C0);
    let result = mul32(t, root);

    if nonnegative {
        result
    } else {
        sub32(PI_32, result)
    }
}

} // verus!
