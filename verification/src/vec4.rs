//! The four-component vector, in the aligned layout: four lanes, all of
//! them logical. Lanes hold 32-bit IEEE-754 patterns; every rounded
//! operation is pinned to its composition of the provider's named results.

use vstd::prelude::*;
use crate::arith::{add32, add32_s, mul32, mul32_s, sqrt32, sqrt32_s, sub32, sub32_s};
use crate::fbits::{
    clamp32_of, is_finite32, is_nan32, le32, lt32, max32_of, min32_of, INF_32, MAG_32, ZERO_32,
};
use crate::scalar::{clamp, max, min, rsqrt, rsqrt32_s};

verus! {

/// The aligned four-component vector.
#[derive(Clone, Copy, Debug, PartialEq, Eq, Structural)]
pub struct Vec4A {
    pub x: u32,
    pub y: u32,
    pub z: u32,
    pub w: u32,
}

/// The rounded dot product of the four lanes, summed left to right.
pub open spec fn dot4_s(a: Vec4A, b: Vec4A) -> u32 {
    add32_s(
        add32_s(add32_s(mul32_s(a.x, b.x), mul32_s(a.y, b.y)), mul32_s(a.z, b.z)),
        mul32_s(a.w, b.w),
    )
}

/// Each lane scaled by `s`.
pub open spec fn scale4_s(v: Vec4A, s: u32) -> Vec4A {
    Vec4A {
        x: mul32_s(v.x, s),
        y: mul32_s(v.y, s),
        z: mul32_s(v.z, s),
        w: mul32_s(v.w, s),
    }
}

/// Lane-by-lane sum.
pub open spec fn add4_s(a: Vec4A, b: Vec4A) -> Vec4A {
    Vec4A {
        x: add32_s(a.x, b.x),
        y: add32_s(a.y, b.y),
        z: add32_s(a.z, b.z),
        w: add32_s(a.w, b.w),
    }
}

impl Vec4A {
    /// A vector from its four components.
    pub fn new(x: u32, y: u32, z: u32, w: u32) -> (r: Vec4A)
        ensures
            r == (Vec4A { x, y, z, w }),
    {
        Vec4A { x, y, z, w }
    }

    /// Lane-by-lane sum.
    pub fn add(self, rhs: Vec4A) -> (r: Vec4A)
        ensures
            r == add4_s(self, rhs),
    {
        Vec4A {
            x: add32(self.x, rhs.x),
            y: add32(self.y, rhs.y),
            z: add32(self.z, rhs.z),
            w: add32(self.w, rhs.w),
        }
    }

    /// Lane-by-lane difference.
    pub fn sub(self, rhs: Vec4A) -> (r: Vec4A)
        ensures
            r.x == sub32_s(self.x, rhs.x),
            r.y == sub32_s(self.y, rhs.y),
            r.z == sub32_s(self.z, rhs.z),
            r.w == sub32_s(self.w, rhs.w),
    {
        Vec4A {
            x: sub32(self.x, rhs.x),
            y: sub32(self.y, rhs.y),
            z: sub32(self.z, rhs.z),
            w: sub32(self.w, rhs.w),
        }
    }

    /// Every lane scaled by `s`.
    pub fn scale(self, s: u32) -> (r: Vec4A)
        ensures
            r == scale4_s(self, s),
    {
        Vec4A {
            x: mul32(self.x, s),
            y: mul32(self.y, s),
            z: mul32(self.z, s),
            w: mul32(self.w, s),
        }
    }

    /// The dot product: the four lane products summed left to right, one
    /// rounding per step.
    pub fn dot(self, rhs: Vec4A) -> (r: u32)
        ensures
            r == dot4_s(self, rhs),
    {
        add32(
            add32(add32(mul32(self.x, rhs.x), mul32(self.y, rhs.y)), mul32(self.z, rhs.z)),
            mul32(self.w, rhs.w),
        )
    }

    /// The squared length: the dot product of the vector with itself.
    pub fn length_squared(self) -> (r: u32)
        ensures
            r == dot4_s(self, self),
    {
        self.dot(self)
    }

    /// The length: the square root of the squared length.
    pub fn length(self) -> (r: u32)
        ensures
            r == sqrt32_s(dot4_s(self, self)),
    {
        sqrt32(self.dot(self))
    }

    /// The vector scaled by the reciprocal square root of its squared
    /// length; a zero vector comes out as NaN lanes rather than trapping.
    pub fn normalize(self) -> (r: Vec4A)
        ensures
            r == scale4_s(self, rsqrt32_s(dot4_s(self, self))),
    {
        let s = rsqrt(self.dot(self));
        self.scale(s)
    }

    /// The normalized vector, or nothing when the reciprocal of the length
    /// is not a positive finite number.
    pub fn try_normalize(self) -> (r: Option<Vec4A>)
        ensures
            ({
                let s = rsqrt32_s(dot4_s(self, self));
                if is_finite32(s) && lt32(ZERO_32, s) {
                    r == Some(scale4_s(self, s))
                } else {
                    r == None::<Vec4A>
                }
            }),
    {
        proof {
            assert(0u32 & 0x7FFF_FFFF == 0u32) by (bit_vector);
            assert(0u32 >> 31 == 0u32) by (bit_vector);
        }
        let s = rsqrt(self.dot(self));
        if (s & MAG_32) < INF_32 && (s >> 31) != 1 && (s & MAG_32) != 0 {
            Some(self.scale(s))
        } else {
            None
        }
    }

    /// Lane-by-lane minimum.
    pub fn min(self, rhs: Vec4A) -> (r: Vec4A)
        ensures
            r.x == min32_of(self.x, rhs.x),
            r.y == min32_of(self.y, rhs.y),
            r.z == min32_of(self.z, rhs.z),
            r.w == min32_of(self.w, rhs.w),
    {
        Vec4A {
            x: min(self.x, rhs.x),
            y: min(self.y, rhs.y),
            z: min(self.z, rhs.z),
            w: min(self.w, rhs.w),
        }
    }

    /// Lane-by-lane maximum.
    pub fn max(self, rhs: Vec4A) -> (r: Vec4A)
        ensures
            r.x == max32_of(self.x, rhs.x),
            r.y == max32_of(self.y, rhs.y),
            r.z == max32_of(self.z, rhs.z),
            r.w == max32_of(self.w, rhs.w),
    {
        Vec4A {
            x: max(self.x, rhs.x),
            y: max(self.y, rhs.y),
            z: max(self.z, rhs.z),
            w: max(self.w, rhs.w),
        }
    }

    /// Lane-by-lane clamp; the bounds must be ordered non-NaN lanes.
    pub fn clamp(self, lo: Vec4A, hi: Vec4A) -> (r: Vec4A)
        requires
            !is_nan32(lo.x) && !is_nan32(lo.y) && !is_nan32(lo.z) && !is_nan32(lo.w),
            !is_nan32(hi.x) && !is_nan32(hi.y) && !is_nan32(hi.z) && !is_nan32(hi.w),
            le32(lo.x, hi.x) && le32(lo.y, hi.y) && le32(lo.z, hi.z) && le32(lo.w, hi.w),
        ensures
            r.x == clamp32_of(self.x, lo.x, hi.x),
            r.y == clamp32_of(self.y, lo.y, hi.y),
            r.z == clamp32_of(self.z, lo.z, hi.z),
            r.w == clamp32_of(self.w, lo.w, hi.w),
    {
        Vec4A {
            x: clamp(self.x, lo.x, hi.x),
            y: clamp(self.y, lo.y, hi.y),
            z: clamp(self.z, lo.z, hi.z),
            w: clamp(self.w, lo.w, hi.w),
        }
    }

    /// Linear interpolation `self + (rhs - self) * t`, lane by lane; `t`
    /// outside `[0, 1]` extrapolates on purpose.
    pub fn lerp(self, rhs: Vec4A, t: u32) -> (r: Vec4A)
        ensures
            r.x == add32_s(self.x, mul32_s(sub32_s(rhs.x, self.x), t)),
            r.y == add32_s(self.y, mul32_s(sub32_s(rhs.y, self.y), t)),
            r.z == add32_s(self.z, mul32_s(sub32_s(rhs.z, self.z), t)),
            r.w == add32_s(self.w, mul32_s(sub32_s(rhs.w, self.w), t)),
    {
        self.add(rhs.sub(self).scale(t))
    }
}

} // verus!
