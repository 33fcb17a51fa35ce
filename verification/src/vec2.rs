//! The two-component vector, in the packed layout: two scalars, no hidden
//! lanes. Lanes hold 32-bit IEEE-754 patterns; every rounded operation is
//! pinned to its composition of the provider's named results.

use vstd::prelude::*;
use crate::arith::{add32, add32_s, mul32, mul32_s, sqrt32, sqrt32_s, sub32, sub32_s};
use crate::fbits::{
    clamp32_of, is_finite32, is_nan32, le32, lt32, max32_of, min32_of, INF_32, MAG_32, ZERO_32,
};
use crate::scalar::{clamp, max, min, rsqrt, rsqrt32_s};

verus! {

/// The packed two-component vector.
#[derive(Clone, Copy, Debug, PartialEq, Eq, Structural)]
pub struct Vec2 {
    pub x: u32,
    pub y: u32,
}

/// The rounded dot product of the two lanes.
pub open spec fn dot2_s(a: Vec2, b: Vec2) -> u32 {
    add32_s(mul32_s(a.x, b.x), mul32_s(a.y, b.y))
}

/// Each lane scaled by `s`.
pub open spec fn scale2_s(v: Vec2, s: u32) -> Vec2 {
    Vec2 { x: mul32_s(v.x, s), y: mul32_s(v.y, s) }
}

/// Linear interpolation `a + (b - a) * t`, lane by lane.
pub open spec fn lerp2_s(a: Vec2, b: Vec2, t: u32) -> Vec2 {
    Vec2 {
        x: add32_s(a.x, mul32_s(sub32_s(b.x, a.x), t)),
        y: add32_s(a.y, mul32_s(sub32_s(b.y, a.y), t)),
    }
}

impl Vec2 {
    /// A vector from its two components.
    pub fn new(x: u32, y: u32) -> (r: Vec2)
        ensures
            r == (Vec2 { x, y }),
    {
        Vec2 { x, y }
    }

    /// Lane-by-lane sum.
    pub fn add(self, rhs: Vec2) -> (r: Vec2)
        ensures
            r.x == add32_s(self.x, rhs.x),
            r.y == add32_s(self.y, rhs.y),
    {
        Vec2 { x: add32(self.x, rhs.x), y: add32(self.y, rhs.y) }
    }

    /// Lane-by-lane difference.
    pub fn sub(self, rhs: Vec2) -> (r: Vec2)
        ensures
            r.x == sub32_s(self.x, rhs.x),
            r.y == sub32_s(self.y, rhs.y),
    {
        Vec2 { x: sub32(self.x, rhs.x), y: sub32(self.y, rhs.y) }
    }

    /// Every lane scaled by `s`.
    pub fn scale(self, s: u32) -> (r: Vec2)
        ensures
            r == scale2_s(self, s),
    {
        Vec2 { x: mul32(self.x, s), y: mul32(self.y, s) }
    }

    /// The dot product: the two lane products summed, one rounding per
    /// step.
    pub fn dot(self, rhs: Vec2) -> (r: u32)
        ensures
            r == dot2_s(self, rhs),
    {
        add32(mul32(self.x, rhs.x), mul32(self.y, rhs.y))
    }

    /// The squared length: the dot product of the vector with itself.
    pub fn length_squared(self) -> (r: u32)
        ensures
            r == dot2_s(self, self),
    {
        self.dot(self)
    }

    /// The length: the square root of the squared length.
    pub fn length(self) -> (r: u32)
        ensures
            r == sqrt32_s(dot2_s(self, self)),
    {
        sqrt32(self.dot(self))
    }

    /// The vector scaled by the reciprocal square root of its squared
    /// length; a zero vector comes out as NaN lanes rather than trapping.
    pub fn normalize(self) -> (r: Vec2)
        ensures
            r == scale2_s(self, rsqrt32_s(dot2_s(self, self))),
    {
        let s = rsqrt(self.dot(self));
        self.scale(s)
    }

    /// The normalized vector, or nothing when the reciprocal of the length
    /// is not a positive finite number.
    pub fn try_normalize(self) -> (r: Option<Vec2>)
        ensures
            ({
                let s = rsqrt32_s(dot2_s(self, self));
                if is_finite32(s) && lt32(ZERO_32, s) {
                    r == Some(scale2_s(self, s))
                } else {
                    r == None::<Vec2>
                }
            }),
    {
        proof {
            assert(0u32 & 0x7FFF_FFFF == 0u32) by (bit_vector);
            assert(0u32 >> 31 == 0u32) by (bit_vector);
        }
        let s = rsqrt(self.dot(self));
        if (s & MAG_32) < INF_32 && (s >> 31) != 1 && (s & MAG_32) != 0 {
            Some(self.scale(s))
        } else {
            None
        }
    }

    /// Lane-by-lane minimum.
    pub fn min(self, rhs: Vec2) -> (r: Vec2)
        ensures
            r.x == min32_of(self.x, rhs.x),
            r.y == min32_of(self.y, rhs.y),
    {
        Vec2 { x: min(self.x, rhs.x), y: min(self.y, rhs.y) }
    }

    /// Lane-by-lane maximum.
    pub fn max(self, rhs: Vec2) -> (r: Vec2)
        ensures
            r.x == max32_of(self.x, rhs.x),
            r.y == max32_of(self.y, rhs.y),
    {
        Vec2 { x: max(self.x, rhs.x), y: max(self.y, rhs.y) }
    }

    /// Lane-by-lane clamp; the bounds must be ordered non-NaN lanes.
    pub fn clamp(self, lo: Vec2, hi: Vec2) -> (r: Vec2)
        requires
            !is_nan32(lo.x) && !is_nan32(lo.y),
            !is_nan32(hi.x) && !is_nan32(hi.y),
            le32(lo.x, hi.x) && le32(lo.y, hi.y),
        ensures
            r.x == clamp32_of(self.x, lo.x, hi.x),
            r.y == clamp32_of(self.y, lo.y, hi.y),
    {
        Vec2 { x: clamp(self.x, lo.x, hi.x), y: clamp(self.y, lo.y, hi.y) }
    }

    /// Linear interpolation `self + (rhs - self) * t`, lane by lane; `t`
    /// outside `[0, 1]` extrapolates on purpose.
    pub fn lerp(self, rhs: Vec2, t: u32) -> (r: Vec2)
        ensures
            r == lerp2_s(self, rhs, t),
    {
        self.add(rhs.sub(self).scale(t))
    }
}

} // verus!
