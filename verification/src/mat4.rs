//! The 4x4 matrix: four column vectors, owned by value, column-major —
//! the matrix times a vector combines the columns, weighted by the
//! vector's lanes. Multiplication composes and is associative but not
//! commutative.

use vstd::prelude::*;
use crate::arith::{add32, add32_s, mul32, mul32_s, sub32, sub32_s};
use crate::fbits::{is_finite32, NEG_ZERO_32, ONE_32, ZERO_32};
use crate::quat::Quat;
use crate::vec4::{add4_s, scale4_s, Vec4A};

verus! {

/// A 4x4 matrix of column vectors.
#[derive(Clone, Copy, Debug, PartialEq, Eq, Structural)]
pub struct Mat4 {
    pub x_axis: Vec4A,
    pub y_axis: Vec4A,
    pub z_axis: Vec4A,
    pub w_axis: Vec4A,
}

/// The matrix-vector product: the columns scaled by the vector's lanes and
/// summed left to right, lane by lane.
pub open spec fn mat4_mul_vec4_s(m: Mat4, v: Vec4A) -> Vec4A {
    add4_s(
        add4_s(
            add4_s(scale4_s(m.x_axis, v.x), scale4_s(m.y_axis, v.y)),
            scale4_s(m.z_axis, v.z),
        ),
        scale4_s(m.w_axis, v.w),
    )
}

/// The identity matrix: the four unit columns.
pub open spec fn mat4_identity_s() -> Mat4 {
    Mat4 {
        x_axis: Vec4A { x: ONE_32, y: ZERO_32, z: ZERO_32, w: ZERO_32 },
        y_axis: Vec4A { x: ZERO_32, y: ONE_32, z: ZERO_32, w: ZERO_32 },
        z_axis: Vec4A { x: ZERO_32, y: ZERO_32, z: ONE_32, w: ZERO_32 },
        w_axis: Vec4A { x: ZERO_32, y: ZERO_32, z: ZERO_32, w: ONE_32 },
    }
}

/// The rotation matrix of a unit quaternion, column by column.
pub open spec fn mat4_from_quat_s(q: Quat) -> Mat4 {
    let x2 = add32_s(q.x, q.x);
    let y2 = add32_s(q.y, q.y);
    let z2 = add32_s(q.z, q.z);
    let xx = mul32_s(q.x, x2);
    let xy = mul32_s(q.x, y2);
    let xz = mul32_s(q.x, z2);
    let yy = mul32_s(q.y, y2);
    let yz = mul32_s(q.y, z2);
    let zz = mul32_s(q.z, z2);
    let wx = mul32_s(q.w, x2);
    let wy = mul32_s(q.w, y2);
    let wz = mul32_s(q.w, z2);
    Mat4 {
        x_axis: Vec4A {
            x: sub32_s(ONE_32, add32_s(yy, zz)),
            y: add32_s(xy, wz),
            z: sub32_s(xz, wy),
            w: ZERO_32,
        },
        y_axis: Vec4A {
            x: sub32_s(xy, wz),
            y: sub32_s(ONE_32, add32_s(xx, zz)),
            z: add32_s(yz, wx),
            w: ZERO_32,
        },
        z_axis: Vec4A {
            x: add32_s(xz, wy),
            y: sub32_s(yz, wx),
            z: sub32_s(ONE_32, add32_s(xx, yy)),
            w: ZERO_32,
        },
        w_axis: Vec4A { x: ZERO_32, y: ZERO_32, z: ZERO_32, w: ONE_32 },
    }
}

impl Mat4 {
    /// A matrix from its four columns.
    pub fn from_cols(x_axis: Vec4A, y_axis: Vec4A, z_axis: Vec4A, w_axis: Vec4A) -> (r: Mat4)
        ensures
            r == (Mat4 { x_axis, y_axis, z_axis, w_axis }),
    {
        Mat4 { x_axis, y_axis, z_axis, w_axis }
    }

    /// The identity matrix: the four unit columns.
    pub fn identity() -> (r: Mat4)
        ensures
            r == mat4_identity_s(),
    {
        Mat4 {
            x_axis: Vec4A { x: ONE_32, y: ZERO_32, z: ZERO_32, w: ZERO_32 },
            y_axis: Vec4A { x: ZERO_32, y: ONE_32, z: ZERO_32, w: ZERO_32 },
            z_axis: Vec4A { x: ZERO_32, y: ZERO_32, z: ONE_32, w: ZERO_32 },
            w_axis: Vec4A { x: ZERO_32, y: ZERO_32, z: ZERO_32, w: ONE_32 },
        }
    }

    /// The matrix applied to a vector: the columns scaled by the vector's
    /// lanes and summed left to right.
    pub fn mul_vec4(self, v: Vec4A) -> (r: Vec4A)
        ensures
            r == mat4_mul_vec4_s(self, v),
    {
        self.x_axis.scale(v.x).add(self.y_axis.scale(v.y)).add(self.z_axis.scale(v.z)).add(
            self.w_axis.scale(v.w),
        )
    }

    /// The matrix product `self * rhs`: `self` applied to each column of
    /// `rhs`.
    pub fn mul_mat4(self, rhs: Mat4) -> (r: Mat4)
        ensures
            r.x_axis == mat4_mul_vec4_s(self, rhs.x_axis),
            r.y_axis == mat4_mul_vec4_s(self, rhs.y_axis),
            r.z_axis == mat4_mul_vec4_s(self, rhs.z_axis),
            r.w_axis == mat4_mul_vec4_s(self, rhs.w_axis),
    {
        Mat4 {
            x_axis: self.mul_vec4(rhs.x_axis),
            y_axis: self.mul_vec4(rhs.y_axis),
            z_axis: self.mul_vec4(rhs.z_axis),
            w_axis: self.mul_vec4(rhs.w_axis),
        }
    }

    /// The identity matrix times any vector returns the vector unchanged.
    /// The excluded lanes are exactly the ones IEEE arithmetic itself
    /// disturbs: a negative-zero lane meets the positive zeros of the
    /// other columns and comes back as positive zero, and a NaN or
    /// infinite lane turns the zero columns into NaN.
    pub proof fn lemma_identity_transform(v: Vec4A)
        requires
            is_finite32(v.x) && v.x != NEG_ZERO_32,
            is_finite32(v.y) && v.y != NEG_ZERO_32,
            is_finite32(v.z) && v.z != NEG_ZERO_32,
            is_finite32(v.w) && v.w != NEG_ZERO_32,
        ensures
            mat4_mul_vec4_s(mat4_identity_s(), v) == v,
    {
        assert(0u32 & 0x7FFF_FFFF == 0u32) by (bit_vector);
        assert(0x8000_0000u32 & 0x7FFF_FFFF == 0u32) by (bit_vector);
        let vx = v.x;
        let vy = v.y;
        let vz = v.z;
        let vw = v.w;
        assert(vx & 0x7FFF_FFFF == 0 ==> (vx == 0 || vx == 0x8000_0000u32)) by (bit_vector);
        assert(vy & 0x7FFF_FFFF == 0 ==> (vy == 0 || vy == 0x8000_0000u32)) by (bit_vector);
        assert(vz & 0x7FFF_FFFF == 0 ==> (vz == 0 || vz == 0x8000_0000u32)) by (bit_vector);
        assert(vw & 0x7FFF_FFFF == 0 ==> (vw == 0 || vw == 0x8000_0000u32)) by (bit_vector);
    }

    /// The rotation matrix equivalent to a unit quaternion: transforming a
    /// vector by it agrees with rotating by the quaternion, up to
    /// rounding.
    pub fn from_quat(q: Quat) -> (r: Mat4)
        ensures
            r == mat4_from_quat_s(q),
    {
        let x2 = add32(q.x, q.x);
        let y2 = add32(q.y, q.y);
        let z2 = add32(q.z, q.z);
        let xx = mul32(q.x, x2);
        let xy = mul32(q.x, y2);
        let xz = mul32(q.x, z2);
        let yy = mul32(q.y, y2);
        let yz = mul32(q.y, z2);
        let zz = mul32(q.z, z2);
        let wx = mul32(q.w, x2);
        let wy = mul32(q.w, y2);
        let wz = mul32(q.w, z2);
        Mat4 {
            x_axis: Vec4A {
                x: sub32(ONE_32, add32(yy, zz)),
                y: add32(xy, wz),
                z: sub32(xz, wy),
                w: ZERO_32,
            },
            y_axis: Vec4A {
                x: sub32(xy, wz),
                y: sub32(ONE_32, add32(xx, zz)),
                z: add32(yz, wx),
                w: ZERO_32,
            },
            z_axis: Vec4A {
                x: add32(xz, wy),
                y: sub32(yz, wx),
                z: sub32(ONE_32, add32(xx, yy)),
                w: ZERO_32,
            },
            w_axis: Vec4A { x: ZERO_32, y: ZERO_32, z: ZERO_32, w: ONE_32 },
        }
    }
}

} // verus!
