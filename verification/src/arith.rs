//! Rounded 32-bit arithmetic, built on the provider's fused multiply-add.
//!
//! The provider contributes a single rounding primitive, the fused multiply-
//! add. The three elementary operations come out of it exactly:
//! a multiply is a fused multiply-add with a negative-zero addend (adding
//! negative zero under round-to-nearest leaves every sum unchanged, and a
//! zero product keeps its sign); an addition multiplies the first operand by
//! one, which is exact; a subtraction multiplies the subtrahend by negative
//! one, which only flips its sign bit. Each operation therefore rounds once,
//! exactly as the plain hardware operation does.
//!
//! A NaN result is returned as the canonical quiet NaN, so that every
//! operation is a total function of its operand bits.

use vstd::prelude::*;
use crate::fbits::{
    fma_nan32, is_finite32, is_nan32, mag32, sign32, sqrt_nan32, INF_32, MAG_32, NEG_ONE_32,
    NEG_ZERO_32, ONE_32, QNAN_32, ZERO_32,
};
use crate::provider::{fma32_of, fmaf_bits, sqrt32_of, sqrtf_bits};

verus! {

/// The rounded fused multiply-add `a * b + c`, with a NaN result made
/// canonical.
pub open spec fn fma32_s(a: u32, b: u32, c: u32) -> u32 {
    if fma_nan32(a, b, c) {
        QNAN_32
    } else {
        fma32_of(a, b, c)
    }
}

/// Whether a pattern is one of the two zeros.
pub open spec fn zero_pat32(b: u32) -> bool {
    b == ZERO_32 || b == NEG_ZERO_32
}

/// The rounded product `a * b`, with a NaN result made canonical. The two
/// exact cases IEEE-754 pins are written out: a factor of one hands the
/// other factor through, and a positive-zero factor against a finite value
/// makes the zero of that value's sign.
pub open spec fn mul32_s(a: u32, b: u32) -> u32 {
    if a == ONE_32 && !is_nan32(b) {
        b
    } else if a == ZERO_32 && is_finite32(b) {
        if sign32(b) == 1 {
            NEG_ZERO_32
        } else {
            ZERO_32
        }
    } else {
        fma32_s(a, b, NEG_ZERO_32)
    }
}

/// The rounded sum `a + b`, with a NaN result made canonical. The exact
/// cases IEEE-754 pins are written out: a zero added on either side of a
/// nonzero value leaves it unchanged, and a sum of two zeros is negative
/// only where both are.
pub open spec fn add32_s(a: u32, b: u32) -> u32 {
    if !is_nan32(a) && mag32(a) != 0 && zero_pat32(b) {
        a
    } else if zero_pat32(a) && !is_nan32(b) && mag32(b) != 0 {
        b
    } else if zero_pat32(a) && zero_pat32(b) {
        if a == NEG_ZERO_32 && b == NEG_ZERO_32 {
            NEG_ZERO_32
        } else {
            ZERO_32
        }
    } else {
        fma32_s(a, ONE_32, b)
    }
}

/// The rounded difference `a - b`, with a NaN result made canonical.
pub open spec fn sub32_s(a: u32, b: u32) -> u32 {
    fma32_s(b, NEG_ONE_32, a)
}

/// The rounded square root, with a NaN result made canonical.
pub open spec fn sqrt32_s(x: u32) -> u32 {
    if sqrt_nan32(x) {
        QNAN_32
    } else {
        sqrt32_of(x)
    }
}

/// Fused multiply-add `a * b + c`, rounded once. The conditional clauses
/// pass the provider's exact cases through to the callers that build the
/// product and the sum out of this primitive.
pub fn fma32(a: u32, b: u32, c: u32) -> (r: u32)
    ensures
        r == fma32_s(a, b, c),
        a == ONE_32 && c == NEG_ZERO_32 && !is_nan32(b) ==> r == b,
        a == ZERO_32 && c == NEG_ZERO_32 && is_finite32(b) ==> r == (
        if sign32(b) == 1 {
            NEG_ZERO_32
        } else {
            ZERO_32
        }),
        b == ONE_32 && !is_nan32(a) && mag32(a) != 0 && zero_pat32(c) ==> r == a,
        b == ONE_32 && zero_pat32(a) && !is_nan32(c) && mag32(c) != 0 ==> r == c,
        b == ONE_32 && zero_pat32(a) && zero_pat32(c) ==> r == (
        if a == NEG_ZERO_32 && c == NEG_ZERO_32 {
            NEG_ZERO_32
        } else {
            ZERO_32
        }),
{
    proof {
        assert(0u32 & 0x7FFF_FFFF == 0u32) by (bit_vector);
        assert(0x8000_0000u32 & 0x7FFF_FFFF == 0u32) by (bit_vector);
    }
    let t = fmaf_bits(a, b, c);
    if (t & MAG_32) > INF_32 {
        QNAN_32
    } else {
        t
    }
}

/// The rounded product `a * b`.
pub fn mul32(a: u32, b: u32) -> (r: u32)
    ensures
        r == mul32_s(a, b),
{
    fma32(a, b, NEG_ZERO_32)
}

/// The rounded sum `a + b`.
pub fn add32(a: u32, b: u32) -> (r: u32)
    ensures
        r == add32_s(a, b),
{
    fma32(a, ONE_32, b)
}

/// The rounded difference `a - b`.
pub fn sub32(a: u32, b: u32) -> (r: u32)
    ensures
        r == sub32_s(a, b),
{
    fma32(b, NEG_ONE_32, a)
}

/// The rounded square root.
pub fn sqrt32(x: u32) -> (r: u32)
    ensures
        r == sqrt32_s(x),
{
    let t = sqrtf_bits(x);
    if (t & MAG_32) > INF_32 {
        QNAN_32
    } else {
        t
    }
}

} // verus!
