//! Three-component vectors, in both physical layouts.
//!
//! `Vec3` is the packed layout: exactly three scalars. `Vec3A` is the
//! aligned layout: four physical lanes of which three are logical and the
//! fourth is padding — unspecified, never selectable, and never read by any
//! operation, which the contracts make plain by speaking of the three
//! logical lanes alone. Conversion between the layouts carries the logical
//! lanes across bit for bit.
//!
//! All lanes hold 32-bit IEEE-754 patterns, and every rounded operation is
//! pinned to its composition of the provider's named results.

use vstd::prelude::*;
use crate::arith::{add32, add32_s, mul32, mul32_s, sqrt32, sqrt32_s, sub32, sub32_s};
use crate::fbits::{
    clamp32_of, is_finite32, is_nan32, le32, lt32, max32_of, min32_of, INF_32, MAG_32, ZERO_32,
};
use crate::scalar::{clamp, max, min, rsqrt, rsqrt32_s};

verus! {

/// The packed three-component vector: three scalars, no hidden lanes.
#[derive(Clone, Copy, Debug, PartialEq, Eq, Structural)]
pub struct Vec3 {
    pub x: u32,
    pub y: u32,
    pub z: u32,
}

/// The aligned three-component vector: four physical lanes, three of them
/// logical.
#[derive(Clone, Copy, Debug)]
pub struct Vec3A {
    pub x: u32,
    pub y: u32,
    pub z: u32,
    /// The padding lane: unspecified, never selectable, and read by no
    /// operation — no contract in this crate names it.
    pub pad: u32,
}

/// The rounded dot product of the logical lanes, summed left to right.
pub open spec fn dot3_s(a: Vec3A, b: Vec3A) -> u32 {
    add32_s(
        add32_s(mul32_s(a.x, b.x), mul32_s(a.y, b.y)),
        mul32_s(a.z, b.z),
    )
}

/// The cross product of the logical lanes.
pub open spec fn cross3_s(a: Vec3A, b: Vec3A) -> (u32, u32, u32) {
    (
        sub32_s(mul32_s(a.y, b.z), mul32_s(a.z, b.y)),
        sub32_s(mul32_s(a.z, b.x), mul32_s(a.x, b.z)),
        sub32_s(mul32_s(a.x, b.y), mul32_s(a.y, b.x)),
    )
}

/// Each logical lane scaled by `s`.
pub open spec fn scale3_s(v: Vec3A, s: u32) -> (u32, u32, u32) {
    (mul32_s(v.x, s), mul32_s(v.y, s), mul32_s(v.z, s))
}

/// Lane-by-lane sum of two lane triples.
pub open spec fn tuple3_add(a: (u32, u32, u32), b: (u32, u32, u32)) -> (u32, u32, u32) {
    (add32_s(a.0, b.0), add32_s(a.1, b.1), add32_s(a.2, b.2))
}

/// Each lane of a lane triple scaled by `s`.
pub open spec fn tuple3_scale(a: (u32, u32, u32), s: u32) -> (u32, u32, u32) {
    (mul32_s(a.0, s), mul32_s(a.1, s), mul32_s(a.2, s))
}

impl Vec3 {
    /// A packed vector from its three components.
    pub fn new(x: u32, y: u32, z: u32) -> (r: Vec3)
        ensures
            r == (Vec3 { x, y, z }),
    {
        Vec3 { x, y, z }
    }

    /// The same logical lanes in the aligned layout.
    pub fn to_aligned(self) -> (r: Vec3A)
        ensures
            r.x == self.x,
            r.y == self.y,
            r.z == self.z,
    {
        Vec3A::new(self.x, self.y, self.z)
    }
}

impl Vec3A {
    /// An aligned vector from its three logical components.
    pub fn new(x: u32, y: u32, z: u32) -> (r: Vec3A)
        ensures
            r.x == x,
            r.y == y,
            r.z == z,
    {
        Vec3A { x, y, z, pad: 0 }
    }

    /// The same logical lanes in the packed layout; the padding lane does
    /// not come across.
    pub fn to_packed(self) -> (r: Vec3)
        ensures
            r == (Vec3 { x: self.x, y: self.y, z: self.z }),
    {
        Vec3 { x: self.x, y: self.y, z: self.z }
    }

    /// Lane-by-lane sum.
    pub fn add(self, rhs: Vec3A) -> (r: Vec3A)
        ensures
            r.x == add32_s(self.x, rhs.x),
            r.y == add32_s(self.y, rhs.y),
            r.z == add32_s(self.z, rhs.z),
    {
        Vec3A::new(add32(self.x, rhs.x), add32(self.y, rhs.y), add32(self.z, rhs.z))
    }

    /// Lane-by-lane difference.
    pub fn sub(self, rhs: Vec3A) -> (r: Vec3A)
        ensures
            r.x == sub32_s(self.x, rhs.x),
            r.y == sub32_s(self.y, rhs.y),
            r.z == sub32_s(self.z, rhs.z),
    {
        Vec3A::new(sub32(self.x, rhs.x), sub32(self.y, rhs.y), sub32(self.z, rhs.z))
    }

    /// Every lane scaled by `s`.
    pub fn scale(self, s: u32) -> (r: Vec3A)
        ensures
            (r.x, r.y, r.z) == scale3_s(self, s),
    {
        Vec3A::new(mul32(self.x, s), mul32(self.y, s), mul32(self.z, s))
    }

    /// The dot product: the lane products summed left to right, one
    /// rounding per step.
    pub fn dot(self, rhs: Vec3A) -> (r: u32)
        ensures
            r == dot3_s(self, rhs),
    {
        add32(
            add32(mul32(self.x, rhs.x), mul32(self.y, rhs.y)),
            mul32(self.z, rhs.z),
        )
    }

    /// The cross product.
    pub fn cross(self, rhs: Vec3A) -> (r: Vec3A)
        ensures
            (r.x, r.y, r.z) == cross3_s(self, rhs),
    {
        Vec3A::new(
            sub32(mul32(self.y, rhs.z), mul32(self.z, rhs.y)),
            sub32(mul32(self.z, rhs.x), mul32(self.x, rhs.z)),
            sub32(mul32(self.x, rhs.y), mul32(self.y, rhs.x)),
        )
    }

    /// The squared length: the dot product of the vector with itself.
    pub fn length_squared(self) -> (r: u32)
        ensures
            r == dot3_s(self, self),
    {
        self.dot(self)
    }

    /// The length: the square root of the squared length.
    pub fn length(self) -> (r: u32)
        ensures
            r == sqrt32_s(dot3_s(self, self)),
    {
        sqrt32(self.dot(self))
    }

    /// The vector scaled by the reciprocal square root of its squared
    /// length. A zero vector comes out as infinities and NaNs rather than
    /// trapping; `try_normalize` is the guarded variant.
    pub fn normalize(self) -> (r: Vec3A)
        ensures
            (r.x, r.y, r.z) == scale3_s(self, rsqrt32_s(dot3_s(self, self))),
    {
        let s = rsqrt(self.dot(self));
        self.scale(s)
    }

    /// The normalized vector, or nothing when the reciprocal of the length
    /// is not a positive finite number — which catches the zero vector,
    /// vectors short enough to underflow, vectors long enough to overflow,
    /// and NaN lanes.
    pub fn try_normalize(self) -> (r: Option<Vec3A>)
        ensures
            ({
                let s = rsqrt32_s(dot3_s(self, self));
                if is_finite32(s) && lt32(ZERO_32, s) {
                    r matches Some(v) && (v.x, v.y, v.z) == scale3_s(self, s)
                } else {
                    r matches None
                }
            }),
    {
        proof {
            assert(0u32 & 0x7FFF_FFFF == 0u32) by (bit_vector);
            assert(0u32 >> 31 == 0u32) by (bit_vector);
        }
        let s = rsqrt(self.dot(self));
        if (s & MAG_32) < INF_32 && (s >> 31) != 1 && (s & MAG_32) != 0 {
            Some(self.scale(s))
        } else {
            None
        }
    }

    /// Lane-by-lane minimum.
    pub fn min(self, rhs: Vec3A) -> (r: Vec3A)
        ensures
            r.x == min32_of(self.x, rhs.x),
            r.y == min32_of(self.y, rhs.y),
            r.z == min32_of(self.z, rhs.z),
    {
        Vec3A::new(min(self.x, rhs.x), min(self.y, rhs.y), min(self.z, rhs.z))
    }

    /// Lane-by-lane maximum.
    pub fn max(self, rhs: Vec3A) -> (r: Vec3A)
        ensures
            r.x == max32_of(self.x, rhs.x),
            r.y == max32_of(self.y, rhs.y),
            r.z == max32_of(self.z, rhs.z),
    {
        Vec3A::new(max(self.x, rhs.x), max(self.y, rhs.y), max(self.z, rhs.z))
    }

    /// Lane-by-lane clamp; the bounds must be ordered non-NaN lanes.
    pub fn clamp(self, lo: Vec3A, hi: Vec3A) -> (r: Vec3A)
        requires
            !is_nan32(lo.x) && !is_nan32(lo.y) && !is_nan32(lo.z),
            !is_nan32(hi.x) && !is_nan32(hi.y) && !is_nan32(hi.z),
            le32(lo.x, hi.x) && le32(lo.y, hi.y) && le32(lo.z, hi.z),
        ensures
            r.x == clamp32_of(self.x, lo.x, hi.x),
            r.y == clamp32_of(self.y, lo.y, hi.y),
            r.z == clamp32_of(self.z, lo.z, hi.z),
    {
        Vec3A::new(
            clamp(self.x, lo.x, hi.x),
            clamp(self.y, lo.y, hi.y),
            clamp(self.z, lo.z, hi.z),
        )
    }

    /// Linear interpolation `self + (rhs - self) * t`, lane by lane; `t`
    /// outside `[0, 1]` extrapolates on purpose.
    pub fn lerp(self, rhs: Vec3A, t: u32) -> (r: Vec3A)
        ensures
            r.x == add32_s(self.x, mul32_s(sub32_s(rhs.x, self.x), t)),
            r.y == add32_s(self.y, mul32_s(sub32_s(rhs.y, self.y), t)),
            r.z == add32_s(self.z, mul32_s(sub32_s(rhs.z, self.z), t)),
    {
        self.add(rhs.sub(self).scale(t))
    }
}

/// The padding lane of an aligned three-vector never influences a result:
/// two vectors that agree on their logical lanes have the same dot product,
/// cross product, and scaled lanes against any third operand.
pub proof fn lemma_pad_never_read(a: Vec3A, b: Vec3A, c: Vec3A, s: u32)
    requires
        a.x == b.x,
        a.y == b.y,
        a.z == b.z,
    ensures
        dot3_s(a, c) == dot3_s(b, c),
        dot3_s(c, a) == dot3_s(c, b),
        cross3_s(a, c) == cross3_s(b, c),
        cross3_s(c, a) == cross3_s(c, b),
        scale3_s(a, s) == scale3_s(b, s),
{
}

} // verus!
