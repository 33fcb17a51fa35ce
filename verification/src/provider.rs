//! The software math provider.
//!
//! Every operation of this crate that rounds — fused multiply-add, square
//! root, reciprocal, the trigonometric and inverse-trigonometric calls — is
//! obtained from `libm` through the trusted declarations in this module and
//! nowhere else. Each wrapper takes and returns IEEE-754 bit patterns. Its
//! contract pins the result to a named, input-determined pattern whenever
//! the operation does not produce a NaN, and otherwise says only that the
//! result is a NaN: NaN payloads are the one detail that may differ between
//! the provider's software path and a hardware instruction, so no name is
//! given to them.

use vstd::prelude::*;
use crate::fbits::{
    fma_nan32, is_finite32, is_finite64, is_inf32, is_inf64, is_nan32, is_nan64, mag32, mag64,
    sign32, sqrt_nan32, sqrt_nan64, NEG_ZERO_32, ONE_32, ONE_64, ZERO_32,
};

verus! {

/// The 32-bit fused multiply-add `a * b + c`, rounded once.
pub uninterp spec fn fma32_of(a: u32, b: u32, c: u32) -> u32;

/// The correctly rounded 32-bit square root.
pub uninterp spec fn sqrt32_of(b: u32) -> u32;

/// The correctly rounded 32-bit reciprocal.
pub uninterp spec fn recip32_of(b: u32) -> u32;

/// The provider's 32-bit sine, in radians.
pub uninterp spec fn sin32_of(b: u32) -> u32;

/// The provider's 32-bit cosine, in radians.
pub uninterp spec fn cos32_of(b: u32) -> u32;

/// The provider's 32-bit arcsine, in radians.
pub uninterp spec fn asin32_of(b: u32) -> u32;

/// The provider's 32-bit arccosine, in radians.
pub uninterp spec fn acos32_of(b: u32) -> u32;

/// The provider's 32-bit four-quadrant arctangent of `y / x`, in radians.
pub uninterp spec fn atan2_32_of(y: u32, x: u32) -> u32;

/// Relies on libm::fmaf: `x * y + z` rounded as one operation (a hardware
/// fused instruction where the processor has one, else an exact software
/// fallback; both are correctly rounded, so for inputs that do not make a
/// NaN every path returns the same bits). It returns a NaN exactly when a
/// NaN comes in, zero meets infinity in the product, or the product is an
/// infinity and meets the opposite infinity. The remaining clauses are the
/// cases IEEE-754 round-to-nearest makes exact, which any correctly
/// rounded fused multiply-add obeys: a factor of one with a negative-zero
/// addend hands the other factor through; a positive-zero factor against a
/// finite value makes the zero of that value's sign; adding a zero to a
/// nonzero value, or a nonzero value to a zero, leaves it unchanged; and a
/// sum of two zeros is negative only where both are.
#[verifier::external_body]
pub(crate) fn fmaf_bits(a: u32, b: u32, c: u32) -> (r: u32)
    ensures
        is_nan32(r) <==> fma_nan32(a, b, c),
        !fma_nan32(a, b, c) ==> r == fma32_of(a, b, c),
        a == ONE_32 && c == NEG_ZERO_32 && !is_nan32(b) ==> r == b,
        a == ZERO_32 && c == NEG_ZERO_32 && is_finite32(b) ==> r == (
        if sign32(b) == 1 {
            NEG_ZERO_32
        } else {
            ZERO_32
        }),
        b == ONE_32 && !is_nan32(a) && mag32(a) != 0 && (c == ZERO_32 || c == NEG_ZERO_32)
            ==> r == a,
        b == ONE_32 && (a == ZERO_32 || a == NEG_ZERO_32) && !is_nan32(c) && mag32(c) != 0
            ==> r == c,
        b == ONE_32 && (a == ZERO_32 || a == NEG_ZERO_32) && (c == ZERO_32 || c == NEG_ZERO_32)
            ==> r == (
        if a == NEG_ZERO_32 && c == NEG_ZERO_32 {
            NEG_ZERO_32
        } else {
            ZERO_32
        }),
{
    libm::fmaf(bytemuck::cast(a), bytemuck::cast(b), bytemuck::cast(c)).to_bits()
}

/// Relies on libm::sqrtf: the correctly rounded square root, a NaN exactly
/// for a NaN input or a negative input other than negative zero (the square
/// root of a zero is that zero).
#[verifier::external_body]
pub(crate) fn sqrtf_bits(x: u32) -> (r: u32)
    ensures
        is_nan32(r) <==> sqrt_nan32(x),
        !sqrt_nan32(x) ==> r == sqrt32_of(x),
{
    libm::sqrtf(bytemuck::cast(x)).to_bits()
}

/// Relies on libm::sqrtf and f32::recip (the correctly rounded division of
/// one by the operand): the reciprocal of the square root. The reciprocal
/// of a non-NaN square root is never a NaN — a zero gives the infinity of
/// its sign, an infinity gives a zero.
#[verifier::external_body]
pub(crate) fn rsqrtf_bits(x: u32) -> (r: u32)
    ensures
        is_nan32(r) <==> sqrt_nan32(x),
        !sqrt_nan32(x) ==> r == recip32_of(sqrt32_of(x)),
{
    libm::sqrtf(bytemuck::cast(x)).recip().to_bits()
}

/// Relies on libm::sinf: a NaN exactly for a NaN or infinite input, else
/// the provider's deterministic sine.
#[verifier::external_body]
pub(crate) fn sinf_bits(x: u32) -> (r: u32)
    ensures
        is_nan32(r) <==> (is_nan32(x) || is_inf32(x)),
        is_finite32(x) ==> r == sin32_of(x),
{
    libm::sinf(bytemuck::cast(x)).to_bits()
}

/// Relies on libm::cosf: a NaN exactly for a NaN or infinite input, else
/// the provider's deterministic cosine.
#[verifier::external_body]
pub(crate) fn cosf_bits(x: u32) -> (r: u32)
    ensures
        is_nan32(r) <==> (is_nan32(x) || is_inf32(x)),
        is_finite32(x) ==> r == cos32_of(x),
{
    libm::cosf(bytemuck::cast(x)).to_bits()
}

/// Relies on libm::sincosf: it takes the same branches, with the same
/// thresholds, reduction and polynomial kernels, as libm::sinf and
/// libm::cosf, so each half of the pair is bit-equal to the corresponding
/// single call.
#[verifier::external_body]
pub(crate) fn sincosf_bits(x: u32) -> (r: (u32, u32))
    ensures
        is_nan32(r.0) <==> (is_nan32(x) || is_inf32(x)),
        is_nan32(r.1) <==> (is_nan32(x) || is_inf32(x)),
        is_finite32(x) ==> r.0 == sin32_of(x) && r.1 == cos32_of(x),
{
    let (s, c) = libm::sincosf(bytemuck::cast(x));
    (s.to_bits(), c.to_bits())
}

/// Relies on libm::asinf: a NaN exactly for a NaN input or one of magnitude
/// above one, else the provider's deterministic arcsine.
#[verifier::external_body]
pub(crate) fn asinf_bits(x: u32) -> (r: u32)
    ensures
        is_nan32(r) <==> (is_nan32(x) || mag32(x) > ONE_32),
        !is_nan32(x) && mag32(x) <= ONE_32 ==> r == asin32_of(x),
{
    libm::asinf(bytemuck::cast(x)).to_bits()
}

/// Relies on libm::acosf: a NaN exactly for a NaN input or one of magnitude
/// above one, else the provider's deterministic arccosine.
#[verifier::external_body]
pub(crate) fn acosf_bits(x: u32) -> (r: u32)
    ensures
        is_nan32(r) <==> (is_nan32(x) || mag32(x) > ONE_32),
        !is_nan32(x) && mag32(x) <= ONE_32 ==> r == acos32_of(x),
{
    libm::acosf(bytemuck::cast(x)).to_bits()
}

/// Relies on libm::atan2f: a NaN exactly when an operand is a NaN (the
/// four-quadrant arctangent is defined even where both operands are zeros
/// or infinities), else the provider's deterministic result.
#[verifier::external_body]
pub(crate) fn atan2f_bits(y: u32, x: u32) -> (r: u32)
    ensures
        is_nan32(r) <==> (is_nan32(y) || is_nan32(x)),
        !is_nan32(y) && !is_nan32(x) ==> r == atan2_32_of(y, x),
{
    libm::atan2f(bytemuck::cast(y), bytemuck::cast(x)).to_bits()
}

/// The correctly rounded 64-bit square root.
pub uninterp spec fn sqrt64_of(b: u64) -> u64;

/// The correctly rounded 64-bit reciprocal.
pub uninterp spec fn recip64_of(b: u64) -> u64;

/// The provider's 64-bit sine, in radians.
pub uninterp spec fn sin64_of(b: u64) -> u64;

/// The provider's 64-bit cosine, in radians.
pub uninterp spec fn cos64_of(b: u64) -> u64;

/// The provider's 64-bit sine-cosine pair, in radians. Its halves are not
/// claimed to be bit-equal to the single sine and cosine calls: the pair
/// call reduces very small arguments with a different threshold.
pub uninterp spec fn sincos64_of(b: u64) -> (u64, u64);

/// The provider's 64-bit arcsine, in radians.
pub uninterp spec fn asin64_of(b: u64) -> u64;

/// The provider's 64-bit arccosine, in radians.
pub uninterp spec fn acos64_of(b: u64) -> u64;

/// The provider's 64-bit four-quadrant arctangent of `y / x`, in radians.
pub uninterp spec fn atan2_64_of(y: u64, x: u64) -> u64;

/// Relies on libm::sqrt: the correctly rounded square root, a NaN exactly
/// for a NaN input or a negative input other than negative zero.
#[verifier::external_body]
pub(crate) fn sqrt64_bits(x: u64) -> (r: u64)
    ensures
        is_nan64(r) <==> sqrt_nan64(x),
        !sqrt_nan64(x) ==> r == sqrt64_of(x),
{
    libm::sqrt(bytemuck::cast(x)).to_bits()
}

/// Relies on libm::sqrt and f64::recip (the correctly rounded division of
/// one by the operand): the reciprocal of the square root.
#[verifier::external_body]
pub(crate) fn rsqrt64_bits(x: u64) -> (r: u64)
    ensures
        is_nan64(r) <==> sqrt_nan64(x),
        !sqrt_nan64(x) ==> r == recip64_of(sqrt64_of(x)),
{
    libm::sqrt(bytemuck::cast(x)).recip().to_bits()
}

/// Relies on libm::sin: a NaN exactly for a NaN or infinite input.
#[verifier::external_body]
pub(crate) fn sin64_bits(x: u64) -> (r: u64)
    ensures
        is_nan64(r) <==> (is_nan64(x) || is_inf64(x)),
        is_finite64(x) ==> r == sin64_of(x),
{
    libm::sin(bytemuck::cast(x)).to_bits()
}

/// Relies on libm::cos: a NaN exactly for a NaN or infinite input.
#[verifier::external_body]
pub(crate) fn cos64_bits(x: u64) -> (r: u64)
    ensures
        is_nan64(r) <==> (is_nan64(x) || is_inf64(x)),
        is_finite64(x) ==> r == cos64_of(x),
{
    libm::cos(bytemuck::cast(x)).to_bits()
}

/// Relies on libm::sincos: a NaN pair exactly for a NaN or infinite input.
#[verifier::external_body]
pub(crate) fn sincos64_bits(x: u64) -> (r: (u64, u64))
    ensures
        is_nan64(r.0) <==> (is_nan64(x) || is_inf64(x)),
        is_nan64(r.1) <==> (is_nan64(x) || is_inf64(x)),
        is_finite64(x) ==> r == sincos64_of(x),
{
    let (s, c) = libm::sincos(bytemuck::cast(x));
    (s.to_bits(), c.to_bits())
}

/// Relies on libm::asin: a NaN exactly for a NaN input or one of magnitude
/// above one.
#[verifier::external_body]
pub(crate) fn asin64_bits(x: u64) -> (r: u64)
    ensures
        is_nan64(r) <==> (is_nan64(x) || mag64(x) > ONE_64),
        !is_nan64(x) && mag64(x) <= ONE_64 ==> r == asin64_of(x),
{
    libm::asin(bytemuck::cast(x)).to_bits()
}

/// Relies on libm::acos: a NaN exactly for a NaN input or one of magnitude
/// above one.
#[verifier::external_body]
pub(crate) fn acos64_bits(x: u64) -> (r: u64)
    ensures
        is_nan64(r) <==> (is_nan64(x) || mag64(x) > ONE_64),
        !is_nan64(x) && mag64(x) <= ONE_64 ==> r == acos64_of(x),
{
    libm::acos(bytemuck::cast(x)).to_bits()
}

/// Relies on libm::atan2: a NaN exactly when an operand is a NaN.
#[verifier::external_body]
pub(crate) fn atan2_64_bits(y: u64, x: u64) -> (r: u64)
    ensures
        is_nan64(r) <==> (is_nan64(y) || is_nan64(x)),
        !is_nan64(y) && !is_nan64(x) ==> r == atan2_64_of(y, x),
{
    libm::atan2(bytemuck::cast(y), bytemuck::cast(x)).to_bits()
}

} // verus!
