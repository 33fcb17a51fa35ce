//! The quaternion: a four-lane rotation value `(x, y, z, w)` with the
//! vector part first, composed by the Hamilton product. Rotating a vector
//! by a unit quaternion agrees with transforming it by the rotation matrix
//! built from the same quaternion, up to floating point rounding.

use vstd::prelude::*;
use crate::arith::{add32, add32_s, mul32, mul32_s, sub32, sub32_s};
use crate::fbits::{ONE_32, TWO_32, ZERO_32};
use crate::vec3::{cross3_s, dot3_s, tuple3_add, tuple3_scale, Vec3A};

verus! {

/// A quaternion, vector part `(x, y, z)` and scalar part `w`.
#[derive(Clone, Copy, Debug, PartialEq, Eq, Structural)]
pub struct Quat {
    pub x: u32,
    pub y: u32,
    pub z: u32,
    pub w: u32,
}

/// The vector part of a quaternion as an aligned three-vector.
pub open spec fn quat_vector_part(q: Quat) -> Vec3A {
    Vec3A { x: q.x, y: q.y, z: q.z, pad: 0 }
}

/// The Hamilton product of two quaternions, each lane summed left to
/// right with one rounding per step.
pub open spec fn quat_mul_s(a: Quat, b: Quat) -> Quat {
    Quat {
        x: sub32_s(
            add32_s(add32_s(mul32_s(a.w, b.x), mul32_s(a.x, b.w)), mul32_s(a.y, b.z)),
            mul32_s(a.z, b.y),
        ),
        y: add32_s(
            add32_s(sub32_s(mul32_s(a.w, b.y), mul32_s(a.x, b.z)), mul32_s(a.y, b.w)),
            mul32_s(a.z, b.x),
        ),
        z: add32_s(
            sub32_s(add32_s(mul32_s(a.w, b.z), mul32_s(a.x, b.y)), mul32_s(a.y, b.x)),
            mul32_s(a.z, b.w),
        ),
        w: sub32_s(
            sub32_s(sub32_s(mul32_s(a.w, b.w), mul32_s(a.x, b.x)), mul32_s(a.y, b.y)),
            mul32_s(a.z, b.z),
        ),
    }
}

/// The rotation of `v` by `q`, written with the vector part `b` as
/// `v * (w * w - b . b)  +  b * (2 * (v . b))  +  (b x v) * (2 * w)`.
pub open spec fn quat_rotate_s(q: Quat, v: Vec3A) -> (u32, u32, u32) {
    let b = quat_vector_part(q);
    let s1 = sub32_s(mul32_s(q.w, q.w), dot3_s(b, b));
    let s2 = mul32_s(dot3_s(v, b), TWO_32);
    let s3 = mul32_s(q.w, TWO_32);
    tuple3_add(
        tuple3_add(tuple3_scale((v.x, v.y, v.z), s1), tuple3_scale((b.x, b.y, b.z), s2)),
        tuple3_scale(cross3_s(b, v), s3),
    )
}

impl Quat {
    /// A quaternion from its four lanes.
    pub fn from_xyzw(x: u32, y: u32, z: u32, w: u32) -> (r: Quat)
        ensures
            r == (Quat { x, y, z, w }),
    {
        Quat { x, y, z, w }
    }

    /// The identity rotation.
    pub fn identity() -> (r: Quat)
        ensures
            r == (Quat { x: ZERO_32, y: ZERO_32, z: ZERO_32, w: ONE_32 }),
    {
        Quat { x: ZERO_32, y: ZERO_32, z: ZERO_32, w: ONE_32 }
    }

    /// The Hamilton product `self * rhs`: the composed rotation that
    /// applies `rhs` first and `self` second. Associative, not
    /// commutative.
    pub fn mul_quat(self, rhs: Quat) -> (r: Quat)
        ensures
            r == quat_mul_s(self, rhs),
    {
        Quat {
            x: sub32(
                add32(add32(mul32(self.w, rhs.x), mul32(self.x, rhs.w)), mul32(self.y, rhs.z)),
                mul32(self.z, rhs.y),
            ),
            y: add32(
                add32(sub32(mul32(self.w, rhs.y), mul32(self.x, rhs.z)), mul32(self.y, rhs.w)),
                mul32(self.z, rhs.x),
            ),
            z: add32(
                sub32(add32(mul32(self.w, rhs.z), mul32(self.x, rhs.y)), mul32(self.y, rhs.x)),
                mul32(self.z, rhs.w),
            ),
            w: sub32(
                sub32(sub32(mul32(self.w, rhs.w), mul32(self.x, rhs.x)), mul32(self.y, rhs.y)),
                mul32(self.z, rhs.z),
            ),
        }
    }

    /// `v` rotated by `self`, which must be a unit (or near-unit)
    /// quaternion for the result to be a rotation.
    pub fn rotate_vec3a(self, v: Vec3A) -> (r: Vec3A)
        ensures
            (r.x, r.y, r.z) == quat_rotate_s(self, v),
    {
        let b = Vec3A::new(self.x, self.y, self.z);
        let s1 = sub32(mul32(self.w, self.w), b.dot(b));
        let s2 = mul32(v.dot(b), TWO_32);
        let s3 = mul32(self.w, TWO_32);
        v.scale(s1).add(b.scale(s2)).add(b.cross(v).scale(s3))
    }
}

} // verus!
