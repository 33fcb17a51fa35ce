//! The two-lane swizzles of the aligned four-vector: every selection of
//! two of its lanes, in every order and with repeats, each a pure field
//! copy whose result carries the selected lanes bit for bit.

use vstd::prelude::*;
use crate::vec2::Vec2;
use crate::vec4::Vec4A;

verus! {

impl Vec4A {
    /// Lanes (x, x) of `self`.
    pub fn xx(self) -> (r: Vec2)
        ensures
            r.x == self.x,
            r.y == self.x,
    {
        Vec2 { x: self.x, y: self.x }
    }

    /// Lanes (x, y) of `self`.
    pub fn xy(self) -> (r: Vec2)
        ensures
            r.x == self.x,
            r.y == self.y,
    {
        Vec2 { x: self.x, y: self.y }
    }

    /// Lanes (x, z) of `self`.
    pub fn xz(self) -> (r: Vec2)
        ensures
            r.x == self.x,
            r.y == self.z,
    {
        Vec2 { x: self.x, y: self.z }
    }

    /// Lanes (x, w) of `self`.
    pub fn xw(self) -> (r: Vec2)
        ensures
            r.x == self.x,
            r.y == self.w,
    {
        Vec2 { x: self.x, y: self.w }
    }

    /// Lanes (y, x) of `self`.
    pub fn yx(self) -> (r: Vec2)
        ensures
            r.x == self.y,
            r.y == self.x,
    {
        Vec2 { x: self.y, y: self.x }
    }

    /// Lanes (y, y) of `self`.
    pub fn yy(self) -> (r: Vec2)
        ensures
            r.x == self.y,
            r.y == self.y,
    {
        Vec2 { x: self.y, y: self.y }
    }

    /// Lanes (y, z) of `self`.
    pub fn yz(self) -> (r: Vec2)
        ensures
            r.x == self.y,
            r.y == self.z,
    {
        Vec2 { x: self.y, y: self.z }
    }

    /// Lanes (y, w) of `self`.
    pub fn yw(self) -> (r: Vec2)
        ensures
            r.x == self.y,
            r.y == self.w,
    {
        Vec2 { x: self.y, y: self.w }
    }

    /// Lanes (z, x) of `self`.
    pub fn zx(self) -> (r: Vec2)
        ensures
            r.x == self.z,
            r.y == self.x,
    {
        Vec2 { x: self.z, y: self.x }
    }

    /// Lanes (z, y) of `self`.
    pub fn zy(self) -> (r: Vec2)
        ensures
            r.x == self.z,
            r.y == self.y,
    {
        Vec2 { x: self.z, y: self.y }
    }

    /// Lanes (z, z) of `self`.
    pub fn zz(self) -> (r: Vec2)
        ensures
            r.x == self.z,
            r.y == self.z,
    {
        Vec2 { x: self.z, y: self.z }
    }

    /// Lanes (z, w) of `self`.
    pub fn zw(self) -> (r: Vec2)
        ensures
            r.x == self.z,
            r.y == self.w,
    {
        Vec2 { x: self.z, y: self.w }
    }

    /// Lanes (w, x) of `self`.
    pub fn wx(self) -> (r: Vec2)
        ensures
            r.x == self.w,
            r.y == self.x,
    {
        Vec2 { x: self.w, y: self.x }
    }

    /// Lanes (w, y) of `self`.
    pub fn wy(self) -> (r: Vec2)
        ensures
            r.x == self.w,
            r.y == self.y,
    {
        Vec2 { x: self.w, y: self.y }
    }

    /// Lanes (w, z) of `self`.
    pub fn wz(self) -> (r: Vec2)
        ensures
            r.x == self.w,
            r.y == self.z,
    {
        Vec2 { x: self.w, y: self.z }
    }

    /// Lanes (w, w) of `self`.
    pub fn ww(self) -> (r: Vec2)
        ensures
            r.x == self.w,
            r.y == self.w,
    {
        Vec2 { x: self.w, y: self.w }
    }

}

} // verus!
