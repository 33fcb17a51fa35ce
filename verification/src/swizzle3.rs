//! The three-lane swizzles of the aligned four-vector: every selection of
//! three of its lanes, in every order and with repeats, each a pure field
//! copy whose result carries the selected lanes bit for bit. The padding
//! lane of the three-vector that comes out is not selectable and holds no
//! selected lane.

use vstd::prelude::*;
use crate::vec3::Vec3A;
use crate::vec4::Vec4A;

verus! {

impl Vec4A {
    /// Lanes (x, x, x) of `self`.
    pub fn xxx(self) -> (r: Vec3A)
        ensures
            r.x == self.x,
            r.y == self.x,
            r.z == self.x,
    {
        Vec3A::new(self.x, self.x, self.x)
    }

    /// Lanes (x, x, y) of `self`.
    pub fn xxy(self) -> (r: Vec3A)
        ensures
            r.x == self.x,
            r.y == self.x,
            r.z == self.y,
    {
        Vec3A::new(self.x, self.x, self.y)
    }

    /// Lanes (x, x, z) of `self`.
    pub fn xxz(self) -> (r: Vec3A)
        ensures
            r.x == self.x,
            r.y == self.x,
            r.z == self.z,
    {
        Vec3A::new(self.x, self.x, self.z)
    }

    /// Lanes (x, x, w) of `self`.
    pub fn xxw(self) -> (r: Vec3A)
        ensures
            r.x == self.x,
            r.y == self.x,
            r.z == self.w,
    {
        Vec3A::new(self.x, self.x, self.w)
    }

    /// Lanes (x, y, x) of `self`.
    pub fn xyx(self) -> (r: Vec3A)
        ensures
            r.x == self.x,
            r.y == self.y,
            r.z == self.x,
    {
        Vec3A::new(self.x, self.y, self.x)
    }

    /// Lanes (x, y, y) of `self`.
    pub fn xyy(self) -> (r: Vec3A)
        ensures
            r.x == self.x,
            r.y == self.y,
            r.z == self.y,
    {
        Vec3A::new(self.x, self.y, self.y)
    }

    /// Lanes (x, y, z) of `self`.
    pub fn xyz(self) -> (r: Vec3A)
        ensures
            r.x == self.x,
            r.y == self.y,
            r.z == self.z,
    {
        Vec3A::new(self.x, self.y, self.z)
    }

    /// Lanes (x, y, w) of `self`.
    pub fn xyw(self) -> (r: Vec3A)
        ensures
            r.x == self.x,
            r.y == self.y,
            r.z == self.w,
    {
        Vec3A::new(self.x, self.y, self.w)
    }

    /// Lanes (x, z, x) of `self`.
    pub fn xzx(self) -> (r: Vec3A)
        ensures
            r.x == self.x,
            r.y == self.z,
            r.z == self.x,
    {
        Vec3A::new(self.x, self.z, self.x)
    }

    /// Lanes (x, z, y) of `self`.
    pub fn xzy(self) -> (r: Vec3A)
        ensures
            r.x == self.x,
            r.y == self.z,
            r.z == self.y,
    {
        Vec3A::new(self.x, self.z, self.y)
    }

    /// Lanes (x, z, z) of `self`.
    pub fn xzz(self) -> (r: Vec3A)
        ensures
            r.x == self.x,
            r.y == self.z,
            r.z == self.z,
    {
        Vec3A::new(self.x, self.z, self.z)
    }

    /// Lanes (x, z, w) of `self`.
    pub fn xzw(self) -> (r: Vec3A)
        ensures
            r.x == self.x,
            r.y == self.z,
            r.z == self.w,
    {
        Vec3A::new(self.x, self.z, self.w)
    }

    /// Lanes (x, w, x) of `self`.
    pub fn xwx(self) -> (r: Vec3A)
        ensures
            r.x == self.x,
            r.y == self.w,
            r.z == self.x,
    {
        Vec3A::new(self.x, self.w, self.x)
    }

    /// Lanes (x, w, y) of `self`.
    pub fn xwy(self) -> (r: Vec3A)
        ensures
            r.x == self.x,
            r.y == self.w,
            r.z == self.y,
    {
        Vec3A::new(self.x, self.w, self.y)
    }

    /// Lanes (x, w, z) of `self`.
    pub fn xwz(self) -> (r: Vec3A)
        ensures
            r.x == self.x,
            r.y == self.w,
            r.z == self.z,
    {
        Vec3A::new(self.x, self.w, self.z)
    }

    /// Lanes (x, w, w) of `self`.
    pub fn xww(self) -> (r: Vec3A)
        ensures
            r.x == self.x,
            r.y == self.w,
            r.z == self.w,
    {
        Vec3A::new(self.x, self.w, self.w)
    }

    /// Lanes (y, x, x) of `self`.
    pub fn yxx(self) -> (r: Vec3A)
        ensures
            r.x == self.y,
            r.y == self.x,
            r.z == self.x,
    {
        Vec3A::new(self.y, self.x, self.x)
    }

    /// Lanes (y, x, y) of `self`.
    pub fn yxy(self) -> (r: Vec3A)
        ensures
            r.x == self.y,
            r.y == self.x,
            r.z == self.y,
    {
        Vec3A::new(self.y, self.x, self.y)
    }

    /// Lanes (y, x, z) of `self`.
    pub fn yxz(self) -> (r: Vec3A)
        ensures
            r.x == self.y,
            r.y == self.x,
            r.z == self.z,
    {
        Vec3A::new(self.y, self.x, self.z)
    }

    /// Lanes (y, x, w) of `self`.
    pub fn yxw(self) -> (r: Vec3A)
        ensures
            r.x == self.y,
            r.y == self.x,
            r.z == self.w,
    {
        Vec3A::new(self.y, self.x, self.w)
    }

    /// Lanes (y, y, x) of `self`.
    pub fn yyx(self) -> (r: Vec3A)
        ensures
            r.x == self.y,
            r.y == self.y,
            r.z == self.x,
    {
        Vec3A::new(self.y, self.y, self.x)
    }

    /// Lanes (y, y, y) of `self`.
    pub fn yyy(self) -> (r: Vec3A)
        ensures
            r.x == self.y,
            r.y == self.y,
            r.z == self.y,
    {
        Vec3A::new(self.y, self.y, self.y)
    }

    /// Lanes (y, y, z) of `self`.
    pub fn yyz(self) -> (r: Vec3A)
        ensures
            r.x == self.y,
            r.y == self.y,
            r.z == self.z,
    {
        Vec3A::new(self.y, self.y, self.z)
    }

    /// Lanes (y, y, w) of `self`.
    pub fn yyw(self) -> (r: Vec3A)
        ensures
            r.x == self.y,
            r.y == self.y,
            r.z == self.w,
    {
        Vec3A::new(self.y, self.y, self.w)
    }

    /// Lanes (y, z, x) of `self`.
    pub fn yzx(self) -> (r: Vec3A)
        ensures
            r.x == self.y,
            r.y == self.z,
            r.z == self.x,
    {
        Vec3A::new(self.y, self.z, self.x)
    }

    /// Lanes (y, z, y) of `self`.
    pub fn yzy(self) -> (r: Vec3A)
        ensures
            r.x == self.y,
            r.y == self.z,
            r.z == self.y,
    {
        Vec3A::new(self.y, self.z, self.y)
    }

    /// Lanes (y, z, z) of `self`.
    pub fn yzz(self) -> (r: Vec3A)
        ensures
            r.x == self.y,
            r.y == self.z,
            r.z == self.z,
    {
        Vec3A::new(self.y, self.z, self.z)
    }

    /// Lanes (y, z, w) of `self`.
    pub fn yzw(self) -> (r: Vec3A)
        ensures
            r.x == self.y,
            r.y == self.z,
            r.z == self.w,
    {
        Vec3A::new(self.y, self.z, self.w)
    }

    /// Lanes (y, w, x) of `self`.
    pub fn ywx(self) -> (r: Vec3A)
        ensures
            r.x == self.y,
            r.y == self.w,
            r.z == self.x,
    {
        Vec3A::new(self.y, self.w, self.x)
    }

    /// Lanes (y, w, y) of `self`.
    pub fn ywy(self) -> (r: Vec3A)
        ensures
            r.x == self.y,
            r.y == self.w,
            r.z == self.y,
    {
        Vec3A::new(self.y, self.w, self.y)
    }

    /// Lanes (y, w, z) of `self`.
    pub fn ywz(self) -> (r: Vec3A)
        ensures
            r.x == self.y,
            r.y == self.w,
            r.z == self.z,
    {
        Vec3A::new(self.y, self.w, self.z)
    }

    /// Lanes (y, w, w) of `self`.
    pub fn yww(self) -> (r: Vec3A)
        ensures
            r.x == self.y,
            r.y == self.w,
            r.z == self.w,
    {
        Vec3A::new(self.y, self.w, self.w)
    }

    /// Lanes (z, x, x) of `self`.
    pub fn zxx(self) -> (r: Vec3A)
        ensures
            r.x == self.z,
            r.y == self.x,
            r.z == self.x,
    {
        Vec3A::new(self.z, self.x, self.x)
    }

    /// Lanes (z, x, y) of `self`.
    pub fn zxy(self) -> (r: Vec3A)
        ensures
            r.x == self.z,
            r.y == self.x,
            r.z == self.y,
    {
        Vec3A::new(self.z, self.x, self.y)
    }

    /// Lanes (z, x, z) of `self`.
    pub fn zxz(self) -> (r: Vec3A)
        ensures
            r.x == self.z,
            r.y == self.x,
            r.z == self.z,
    {
        Vec3A::new(self.z, self.x, self.z)
    }

    /// Lanes (z, x, w) of `self`.
    pub fn zxw(self) -> (r: Vec3A)
        ensures
            r.x == self.z,
            r.y == self.x,
            r.z == self.w,
    {
        Vec3A::new(self.z, self.x, self.w)
    }

    /// Lanes (z, y, x) of `self`.
    pub fn zyx(self) -> (r: Vec3A)
        ensures
            r.x == self.z,
            r.y == self.y,
            r.z == self.x,
    {
        Vec3A::new(self.z, self.y, self.x)
    }

    /// Lanes (z, y, y) of `self`.
    pub fn zyy(self) -> (r: Vec3A)
        ensures
            r.x == self.z,
            r.y == self.y,
            r.z == self.y,
    {
        Vec3A::new(self.z, self.y, self.y)
    }

    /// Lanes (z, y, z) of `self`.
    pub fn zyz(self) -> (r: Vec3A)
        ensures
            r.x == self.z,
            r.y == self.y,
            r.z == self.z,
    {
        Vec3A::new(self.z, self.y, self.z)
    }

    /// Lanes (z, y, w) of `self`.
    pub fn zyw(self) -> (r: Vec3A)
        ensures
            r.x == self.z,
            r.y == self.y,
            r.z == self.w,
    {
        Vec3A::new(self.z, self.y, self.w)
    }

    /// Lanes (z, z, x) of `self`.
    pub fn zzx(self) -> (r: Vec3A)
        ensures
            r.x == self.z,
            r.y == self.z,
            r.z == self.x,
    {
        Vec3A::new(self.z, self.z, self.x)
    }

    /// Lanes (z, z, y) of `self`.
    pub fn zzy(self) -> (r: Vec3A)
        ensures
            r.x == self.z,
            r.y == self.z,
            r.z == self.y,
    {
        Vec3A::new(self.z, self.z, self.y)
    }

    /// Lanes (z, z, z) of `self`.
    pub fn zzz(self) -> (r: Vec3A)
        ensures
            r.x == self.z,
            r.y == self.z,
            r.z == self.z,
    {
        Vec3A::new(self.z, self.z, self.z)
    }

    /// Lanes (z, z, w) of `self`.
    pub fn zzw(self) -> (r: Vec3A)
        ensures
            r.x == self.z,
            r.y == self.z,
            r.z == self.w,
    {
        Vec3A::new(self.z, self.z, self.w)
    }

    /// Lanes (z, w, x) of `self`.
    pub fn zwx(self) -> (r: Vec3A)
        ensures
            r.x == self.z,
            r.y == self.w,
            r.z == self.x,
    {
        Vec3A::new(self.z, self.w, self.x)
    }

    /// Lanes (z, w, y) of `self`.
    pub fn zwy(self) -> (r: Vec3A)
        ensures
            r.x == self.z,
            r.y == self.w,
            r.z == self.y,
    {
        Vec3A::new(self.z, self.w, self.y)
    }

    /// Lanes (z, w, z) of `self`.
    pub fn zwz(self) -> (r: Vec3A)
        ensures
            r.x == self.z,
            r.y == self.w,
            r.z == self.z,
    {
        Vec3A::new(self.z, self.w, self.z)
    }

    /// Lanes (z, w, w) of `self`.
    pub fn zww(self) -> (r: Vec3A)
        ensures
            r.x == self.z,
            r.y == self.w,
            r.z == self.w,
    {
        Vec3A::new(self.z, self.w, self.w)
    }

    /// Lanes (w, x, x) of `self`.
    pub fn wxx(self) -> (r: Vec3A)
        ensures
            r.x == self.w,
            r.y == self.x,
            r.z == self.x,
    {
        Vec3A::new(self.w, self.x, self.x)
    }

    /// Lanes (w, x, y) of `self`.
    pub fn wxy(self) -> (r: Vec3A)
        ensures
            r.x == self.w,
            r.y == self.x,
            r.z == self.y,
    {
        Vec3A::new(self.w, self.x, self.y)
    }

    /// Lanes (w, x, z) of `self`.
    pub fn wxz(self) -> (r: Vec3A)
        ensures
            r.x == self.w,
            r.y == self.x,
            r.z == self.z,
    {
        Vec3A::new(self.w, self.x, self.z)
    }

    /// Lanes (w, x, w) of `self`.
    pub fn wxw(self) -> (r: Vec3A)
        ensures
            r.x == self.w,
            r.y == self.x,
            r.z == self.w,
    {
        Vec3A::new(self.w, self.x, self.w)
    }

    /// Lanes (w, y, x) of `self`.
    pub fn wyx(self) -> (r: Vec3A)
        ensures
            r.x == self.w,
            r.y == self.y,
            r.z == self.x,
    {
        Vec3A::new(self.w, self.y, self.x)
    }

    /// Lanes (w, y, y) of `self`.
    pub fn wyy(self) -> (r: Vec3A)
        ensures
            r.x == self.w,
            r.y == self.y,
            r.z == self.y,
    {
        Vec3A::new(self.w, self.y, self.y)
    }

    /// Lanes (w, y, z) of `self`.
    pub fn wyz(self) -> (r: Vec3A)
        ensures
            r.x == self.w,
            r.y == self.y,
            r.z == self.z,
    {
        Vec3A::new(self.w, self.y, self.z)
    }

    /// Lanes (w, y, w) of `self`.
    pub fn wyw(self) -> (r: Vec3A)
        ensures
            r.x == self.w,
            r.y == self.y,
            r.z == self.w,
    {
        Vec3A::new(self.w, self.y, self.w)
    }

    /// Lanes (w, z, x) of `self`.
    pub fn wzx(self) -> (r: Vec3A)
        ensures
            r.x == self.w,
            r.y == self.z,
            r.z == self.x,
    {
        Vec3A::new(self.w, self.z, self.x)
    }

    /// Lanes (w, z, y) of `self`.
    pub fn wzy(self) -> (r: Vec3A)
        ensures
            r.x == self.w,
            r.y == self.z,
            r.z == self.y,
    {
        Vec3A::new(self.w, self.z, self.y)
    }

    /// Lanes (w, z, z) of `self`.
    pub fn wzz(self) -> (r: Vec3A)
        ensures
            r.x == self.w,
            r.y == self.z,
            r.z == self.z,
    {
        Vec3A::new(self.w, self.z, self.z)
    }

    /// Lanes (w, z, w) of `self`.
    pub fn wzw(self) -> (r: Vec3A)
        ensures
            r.x == self.w,
            r.y == self.z,
            r.z == self.w,
    {
        Vec3A::new(self.w, self.z, self.w)
    }

    /// Lanes (w, w, x) of `self`.
    pub fn wwx(self) -> (r: Vec3A)
        ensures
            r.x == self.w,
            r.y == self.w,
            r.z == self.x,
    {
        Vec3A::new(self.w, self.w, self.x)
    }

    /// Lanes (w, w, y) of `self`.
    pub fn wwy(self) -> (r: Vec3A)
        ensures
            r.x == self.w,
            r.y == self.w,
            r.z == self.y,
    {
        Vec3A::new(self.w, self.w, self.y)
    }

    /// Lanes (w, w, z) of `self`.
    pub fn wwz(self) -> (r: Vec3A)
        ensures
            r.x == self.w,
            r.y == self.w,
            r.z == self.z,
    {
        Vec3A::new(self.w, self.w, self.z)
    }

    /// Lanes (w, w, w) of `self`.
    pub fn www(self) -> (r: Vec3A)
        ensures
            r.x == self.w,
            r.y == self.w,
            r.z == self.w,
    {
        Vec3A::new(self.w, self.w, self.w)
    }

}

} // verus!
