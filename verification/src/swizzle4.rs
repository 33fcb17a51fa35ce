//! The four-lane swizzles of the aligned four-vector: every selection of
//! four of its lanes, in every order and with repeats, each a pure field
//! copy whose result carries the selected lanes bit for bit. The identity
//! selection returns the input itself, bit for bit.

use vstd::prelude::*;
use crate::vec4::Vec4A;

verus! {

impl Vec4A {
    /// Lanes (x, x, x, x) of `self`.
    pub fn xxxx(self) -> (r: Vec4A)
        ensures
            r.x == self.x,
            r.y == self.x,
            r.z == self.x,
            r.w == self.x,
    {
        Vec4A { x: self.x, y: self.x, z: self.x, w: self.x }
    }

    /// Lanes (x, x, x, y) of `self`.
    pub fn xxxy(self) -> (r: Vec4A)
        ensures
            r.x == self.x,
            r.y == self.x,
            r.z == self.x,
            r.w == self.y,
    {
        Vec4A { x: self.x, y: self.x, z: self.x, w: self.y }
    }

    /// Lanes (x, x, x, z) of `self`.
    pub fn xxxz(self) -> (r: Vec4A)
        ensures
            r.x == self.x,
            r.y == self.x,
            r.z == self.x,
            r.w == self.z,
    {
        Vec4A { x: self.x, y: self.x, z: self.x, w: self.z }
    }

    /// Lanes (x, x, x, w) of `self`.
    pub fn xxxw(self) -> (r: Vec4A)
        ensures
            r.x == self.x,
            r.y == self.x,
            r.z == self.x,
            r.w == self.w,
    {
        Vec4A { x: self.x, y: self.x, z: self.x, w: self.w }
    }

    /// Lanes (x, x, y, x) of `self`.
    pub fn xxyx(self) -> (r: Vec4A)
        ensures
            r.x == self.x,
            r.y == self.x,
            r.z == self.y,
            r.w == self.x,
    {
        Vec4A { x: self.x, y: self.x, z: self.y, w: self.x }
    }

    /// Lanes (x, x, y, y) of `self`.
    pub fn xxyy(self) -> (r: Vec4A)
        ensures
            r.x == self.x,
            r.y == self.x,
            r.z == self.y,
            r.w == self.y,
    {
        Vec4A { x: self.x, y: self.x, z: self.y, w: self.y }
    }

    /// Lanes (x, x, y, z) of `self`.
    pub fn xxyz(self) -> (r: Vec4A)
        ensures
            r.x == self.x,
            r.y == self.x,
            r.z == self.y,
            r.w == self.z,
    {
        Vec4A { x: self.x, y: self.x, z: self.y, w: self.z }
    }

    /// Lanes (x, x, y, w) of `self`.
    pub fn xxyw(self) -> (r: Vec4A)
        ensures
            r.x == self.x,
            r.y == self.x,
            r.z == self.y,
            r.w == self.w,
    {
        Vec4A { x: self.x, y: self.x, z: self.y, w: self.w }
    }

    /// Lanes (x, x, z, x) of `self`.
    pub fn xxzx(self) -> (r: Vec4A)
        ensures
            r.x == self.x,
            r.y == self.x,
            r.z == self.z,
            r.w == self.x,
    {
        Vec4A { x: self.x, y: self.x, z: self.z, w: self.x }
    }

    /// Lanes (x, x, z, y) of `self`.
    pub fn xxzy(self) -> (r: Vec4A)
        ensures
            r.x == self.x,
            r.y == self.x,
            r.z == self.z,
            r.w == self.y,
    {
        Vec4A { x: self.x, y: self.x, z: self.z, w: self.y }
    }

    /// Lanes (x, x, z, z) of `self`.
    pub fn xxzz(self) -> (r: Vec4A)
        ensures
            r.x == self.x,
            r.y == self.x,
            r.z == self.z,
            r.w == self.z,
    {
        Vec4A { x: self.x, y: self.x, z: self.z, w: self.z }
    }

    /// Lanes (x, x, z, w) of `self`.
    pub fn xxzw(self) -> (r: Vec4A)
        ensures
            r.x == self.x,
            r.y == self.x,
            r.z == self.z,
            r.w == self.w,
    {
        Vec4A { x: self.x, y: self.x, z: self.z, w: self.w }
    }

    /// Lanes (x, x, w, x) of `self`.
    pub fn xxwx(self) -> (r: Vec4A)
        ensures
            r.x == self.x,
            r.y == self.x,
            r.z == self.w,
            r.w == self.x,
    {
        Vec4A { x: self.x, y: self.x, z: self.w, w: self.x }
    }

    /// Lanes (x, x, w, y) of `self`.
    pub fn xxwy(self) -> (r: Vec4A)
        ensures
            r.x == self.x,
            r.y == self.x,
            r.z == self.w,
            r.w == self.y,
    {
        Vec4A { x: self.x, y: self.x, z: self.w, w: self.y }
    }

    /// Lanes (x, x, w, z) of `self`.
    pub fn xxwz(self) -> (r: Vec4A)
        ensures
            r.x == self.x,
            r.y == self.x,
            r.z == self.w,
            r.w == self.z,
    {
        Vec4A { x: self.x, y: self.x, z: self.w, w: self.z }
    }

    /// Lanes (x, x, w, w) of `self`.
    pub fn xxww(self) -> (r: Vec4A)
        ensures
            r.x == self.x,
            r.y == self.x,
            r.z == self.w,
            r.w == self.w,
    {
        Vec4A { x: self.x, y: self.x, z: self.w, w: self.w }
    }

    /// Lanes (x, y, x, x) of `self`.
    pub fn xyxx(self) -> (r: Vec4A)
        ensures
            r.x == self.x,
            r.y == self.y,
            r.z == self.x,
            r.w == self.x,
    {
        Vec4A { x: self.x, y: self.y, z: self.x, w: self.x }
    }

    /// Lanes (x, y, x, y) of `self`.
    pub fn xyxy(self) -> (r: Vec4A)
        ensures
            r.x == self.x,
            r.y == self.y,
            r.z == self.x,
            r.w == self.y,
    {
        Vec4A { x: self.x, y: self.y, z: self.x, w: self.y }
    }

    /// Lanes (x, y, x, z) of `self`.
    pub fn xyxz(self) -> (r: Vec4A)
        ensures
            r.x == self.x,
            r.y == self.y,
            r.z == self.x,
            r.w == self.z,
    {
        Vec4A { x: self.x, y: self.y, z: self.x, w: self.z }
    }

    /// Lanes (x, y, x, w) of `self`.
    pub fn xyxw(self) -> (r: Vec4A)
        ensures
            r.x == self.x,
            r.y == self.y,
            r.z == self.x,
            r.w == self.w,
    {
        Vec4A { x: self.x, y: self.y, z: self.x, w: self.w }
    }

    /// Lanes (x, y, y, x) of `self`.
    pub fn xyyx(self) -> (r: Vec4A)
        ensures
            r.x == self.x,
            r.y == self.y,
            r.z == self.y,
            r.w == self.x,
    {
        Vec4A { x: self.x, y: self.y, z: self.y, w: self.x }
    }

    /// Lanes (x, y, y, y) of `self`.
    pub fn xyyy(self) -> (r: Vec4A)
        ensures
            r.x == self.x,
            r.y == self.y,
            r.z == self.y,
            r.w == self.y,
    {
        Vec4A { x: self.x, y: self.y, z: self.y, w: self.y }
    }

    /// Lanes (x, y, y, z) of `self`.
    pub fn xyyz(self) -> (r: Vec4A)
        ensures
            r.x == self.x,
            r.y == self.y,
            r.z == self.y,
            r.w == self.z,
    {
        Vec4A { x: self.x, y: self.y, z: self.y, w: self.z }
    }

    /// Lanes (x, y, y, w) of `self`.
    pub fn xyyw(self) -> (r: Vec4A)
        ensures
            r.x == self.x,
            r.y == self.y,
            r.z == self.y,
            r.w == self.w,
    {
        Vec4A { x: self.x, y: self.y, z: self.y, w: self.w }
    }

    /// Lanes (x, y, z, x) of `self`.
    pub fn xyzx(self) -> (r: Vec4A)
        ensures
            r.x == self.x,
            r.y == self.y,
            r.z == self.z,
            r.w == self.x,
    {
        Vec4A { x: self.x, y: self.y, z: self.z, w: self.x }
    }

    /// Lanes (x, y, z, y) of `self`.
    pub fn xyzy(self) -> (r: Vec4A)
        ensures
            r.x == self.x,
            r.y == self.y,
            r.z == self.z,
            r.w == self.y,
    {
        Vec4A { x: self.x, y: self.y, z: self.z, w: self.y }
    }

    /// Lanes (x, y, z, z) of `self`.
    pub fn xyzz(self) -> (r: Vec4A)
        ensures
            r.x == self.x,
            r.y == self.y,
            r.z == self.z,
            r.w == self.z,
    {
        Vec4A { x: self.x, y: self.y, z: self.z, w: self.z }
    }

    /// Lanes (x, y, z, w) of `self`.
    pub fn xyzw(self) -> (r: Vec4A)
        ensures
            r.x == self.x,
            r.y == self.y,
            r.z == self.z,
            r.w == self.w,
            r == self,
    {
        Vec4A { x: self.x, y: self.y, z: self.z, w: self.w }
    }

    /// Lanes (x, y, w, x) of `self`.
    pub fn xywx(self) -> (r: Vec4A)
        ensures
            r.x == self.x,
            r.y == self.y,
            r.z == self.w,
            r.w == self.x,
    {
        Vec4A { x: self.x, y: self.y, z: self.w, w: self.x }
    }

    /// Lanes (x, y, w, y) of `self`.
    pub fn xywy(self) -> (r: Vec4A)
        ensures
            r.x == self.x,
            r.y == self.y,
            r.z == self.w,
            r.w == self.y,
    {
        Vec4A { x: self.x, y: self.y, z: self.w, w: self.y }
    }

    /// Lanes (x, y, w, z) of `self`.
    pub fn xywz(self) -> (r: Vec4A)
        ensures
            r.x == self.x,
            r.y == self.y,
            r.z == self.w,
            r.w == self.z,
    {
        Vec4A { x: self.x, y: self.y, z: self.w, w: self.z }
    }

    /// Lanes (x, y, w, w) of `self`.
    pub fn xyww(self) -> (r: Vec4A)
        ensures
            r.x == self.x,
            r.y == self.y,
            r.z == self.w,
            r.w == self.w,
    {
        Vec4A { x: self.x, y: self.y, z: self.w, w: self.w }
    }

    /// Lanes (x, z, x, x) of `self`.
    pub fn xzxx(self) -> (r: Vec4A)
        ensures
            r.x == self.x,
            r.y == self.z,
            r.z == self.x,
            r.w == self.x,
    {
        Vec4A { x: self.x, y: self.z, z: self.x, w: self.x }
    }

    /// Lanes (x, z, x, y) of `self`.
    pub fn xzxy(self) -> (r: Vec4A)
        ensures
            r.x == self.x,
            r.y == self.z,
            r.z == self.x,
            r.w == self.y,
    {
        Vec4A { x: self.x, y: self.z, z: self.x, w: self.y }
    }

    /// Lanes (x, z, x, z) of `self`.
    pub fn xzxz(self) -> (r: Vec4A)
        ensures
            r.x == self.x,
            r.y == self.z,
            r.z == self.x,
            r.w == self.z,
    {
        Vec4A { x: self.x, y: self.z, z: self.x, w: self.z }
    }

    /// Lanes (x, z, x, w) of `self`.
    pub fn xzxw(self) -> (r: Vec4A)
        ensures
            r.x == self.x,
            r.y == self.z,
            r.z == self.x,
            r.w == self.w,
    {
        Vec4A { x: self.x, y: self.z, z: self.x, w: self.w }
    }

    /// Lanes (x, z, y, x) of `self`.
    pub fn xzyx(self) -> (r: Vec4A)
        ensures
            r.x == self.x,
            r.y == self.z,
            r.z == self.y,
            r.w == self.x,
    {
        Vec4A { x: self.x, y: self.z, z: self.y, w: self.x }
    }

    /// Lanes (x, z, y, y) of `self`.
    pub fn xzyy(self) -> (r: Vec4A)
        ensures
            r.x == self.x,
            r.y == self.z,
            r.z == self.y,
            r.w == self.y,
    {
        Vec4A { x: self.x, y: self.z, z: self.y, w: self.y }
    }

    /// Lanes (x, z, y, z) of `self`.
    pub fn xzyz(self) -> (r: Vec4A)
        ensures
            r.x == self.x,
            r.y == self.z,
            r.z == self.y,
            r.w == self.z,
    {
        Vec4A { x: self.x, y: self.z, z: self.y, w: self.z }
    }

    /// Lanes (x, z, y, w) of `self`.
    pub fn xzyw(self) -> (r: Vec4A)
        ensures
            r.x == self.x,
            r.y == self.z,
            r.z == self.y,
            r.w == self.w,
    {
        Vec4A { x: self.x, y: self.z, z: self.y, w: self.w }
    }

    /// Lanes (x, z, z, x) of `self`.
    pub fn xzzx(self) -> (r: Vec4A)
        ensures
            r.x == self.x,
            r.y == self.z,
            r.z == self.z,
            r.w == self.x,
    {
        Vec4A { x: self.x, y: self.z, z: self.z, w: self.x }
    }

    /// Lanes (x, z, z, y) of `self`.
    pub fn xzzy(self) -> (r: Vec4A)
        ensures
            r.x == self.x,
            r.y == self.z,
            r.z == self.z,
            r.w == self.y,
    {
        Vec4A { x: self.x, y: self.z, z: self.z, w: self.y }
    }

    /// Lanes (x, z, z, z) of `self`.
    pub fn xzzz(self) -> (r: Vec4A)
        ensures
            r.x == self.x,
            r.y == self.z,
            r.z == self.z,
            r.w == self.z,
    {
        Vec4A { x: self.x, y: self.z, z: self.z, w: self.z }
    }

    /// Lanes (x, z, z, w) of `self`.
    pub fn xzzw(self) -> (r: Vec4A)
        ensures
            r.x == self.x,
            r.y == self.z,
            r.z == self.z,
            r.w == self.w,
    {
        Vec4A { x: self.x, y: self.z, z: self.z, w: self.w }
    }

    /// Lanes (x, z, w, x) of `self`.
    pub fn xzwx(self) -> (r: Vec4A)
        ensures
            r.x == self.x,
            r.y == self.z,
            r.z == self.w,
            r.w == self.x,
    {
        Vec4A { x: self.x, y: self.z, z: self.w, w: self.x }
    }

    /// Lanes (x, z, w, y) of `self`.
    pub fn xzwy(self) -> (r: Vec4A)
        ensures
            r.x == self.x,
            r.y == self.z,
            r.z == self.w,
            r.w == self.y,
    {
        Vec4A { x: self.x, y: self.z, z: self.w, w: self.y }
    }

    /// Lanes (x, z, w, z) of `self`.
    pub fn xzwz(self) -> (r: Vec4A)
        ensures
            r.x == self.x,
            r.y == self.z,
            r.z == self.w,
            r.w == self.z,
    {
        Vec4A { x: self.x, y: self.z, z: self.w, w: self.z }
    }

    /// Lanes (x, z, w, w) of `self`.
    pub fn xzww(self) -> (r: Vec4A)
        ensures
            r.x == self.x,
            r.y == self.z,
            r.z == self.w,
            r.w == self.w,
    {
        Vec4A { x: self.x, y: self.z, z: self.w, w: self.w }
    }

    /// Lanes (x, w, x, x) of `self`.
    pub fn xwxx(self) -> (r: Vec4A)
        ensures
            r.x == self.x,
            r.y == self.w,
            r.z == self.x,
            r.w == self.x,
    {
        Vec4A { x: self.x, y: self.w, z: self.x, w: self.x }
    }

    /// Lanes (x, w, x, y) of `self`.
    pub fn xwxy(self) -> (r: Vec4A)
        ensures
            r.x == self.x,
            r.y == self.w,
            r.z == self.x,
            r.w == self.y,
    {
        Vec4A { x: self.x, y: self.w, z: self.x, w: self.y }
    }

    /// Lanes (x, w, x, z) of `self`.
    pub fn xwxz(self) -> (r: Vec4A)
        ensures
            r.x == self.x,
            r.y == self.w,
            r.z == self.x,
            r.w == self.z,
    {
        Vec4A { x: self.x, y: self.w, z: self.x, w: self.z }
    }

    /// Lanes (x, w, x, w) of `self`.
    pub fn xwxw(self) -> (r: Vec4A)
        ensures
            r.x == self.x,
            r.y == self.w,
            r.z == self.x,
            r.w == self.w,
    {
        Vec4A { x: self.x, y: self.w, z: self.x, w: self.w }
    }

    /// Lanes (x, w, y, x) of `self`.
    pub fn xwyx(self) -> (r: Vec4A)
        ensures
            r.x == self.x,
            r.y == self.w,
            r.z == self.y,
            r.w == self.x,
    {
        Vec4A { x: self.x, y: self.w, z: self.y, w: self.x }
    }

    /// Lanes (x, w, y, y) of `self`.
    pub fn xwyy(self) -> (r: Vec4A)
        ensures
            r.x == self.x,
            r.y == self.w,
            r.z == self.y,
            r.w == self.y,
    {
        Vec4A { x: self.x, y: self.w, z: self.y, w: self.y }
    }

    /// Lanes (x, w, y, z) of `self`.
    pub fn xwyz(self) -> (r: Vec4A)
        ensures
            r.x == self.x,
            r.y == self.w,
            r.z == self.y,
            r.w == self.z,
    {
        Vec4A { x: self.x, y: self.w, z: self.y, w: self.z }
    }

    /// Lanes (x, w, y, w) of `self`.
    pub fn xwyw(self) -> (r: Vec4A)
        ensures
            r.x == self.x,
            r.y == self.w,
            r.z == self.y,
            r.w == self.w,
    {
        Vec4A { x: self.x, y: self.w, z: self.y, w: self.w }
    }

    /// Lanes (x, w, z, x) of `self`.
    pub fn xwzx(self) -> (r: Vec4A)
        ensures
            r.x == self.x,
            r.y == self.w,
            r.z == self.z,
            r.w == self.x,
    {
        Vec4A { x: self.x, y: self.w, z: self.z, w: self.x }
    }

    /// Lanes (x, w, z, y) of `self`.
    pub fn xwzy(self) -> (r: Vec4A)
        ensures
            r.x == self.x,
            r.y == self.w,
            r.z == self.z,
            r.w == self.y,
    {
        Vec4A { x: self.x, y: self.w, z: self.z, w: self.y }
    }

    /// Lanes (x, w, z, z) of `self`.
    pub fn xwzz(self) -> (r: Vec4A)
        ensures
            r.x == self.x,
            r.y == self.w,
            r.z == self.z,
            r.w == self.z,
    {
        Vec4A { x: self.x, y: self.w, z: self.z, w: self.z }
    }

    /// Lanes (x, w, z, w) of `self`.
    pub fn xwzw(self) -> (r: Vec4A)
        ensures
            r.x == self.x,
            r.y == self.w,
            r.z == self.z,
            r.w == self.w,
    {
        Vec4A { x: self.x, y: self.w, z: self.z, w: self.w }
    }

    /// Lanes (x, w, w, x) of `self`.
    pub fn xwwx(self) -> (r: Vec4A)
        ensures
            r.x == self.x,
            r.y == self.w,
            r.z == self.w,
            r.w == self.x,
    {
        Vec4A { x: self.x, y: self.w, z: self.w, w: self.x }
    }

    /// Lanes (x, w, w, y) of `self`.
    pub fn xwwy(self) -> (r: Vec4A)
        ensures
            r.x == self.x,
            r.y == self.w,
            r.z == self.w,
            r.w == self.y,
    {
        Vec4A { x: self.x, y: self.w, z: self.w, w: self.y }
    }

    /// Lanes (x, w, w, z) of `self`.
    pub fn xwwz(self) -> (r: Vec4A)
        ensures
            r.x == self.x,
            r.y == self.w,
            r.z == self.w,
            r.w == self.z,
    {
        Vec4A { x: self.x, y: self.w, z: self.w, w: self.z }
    }

    /// Lanes (x, w, w, w) of `self`.
    pub fn xwww(self) -> (r: Vec4A)
        ensures
            r.x == self.x,
            r.y == self.w,
            r.z == self.w,
            r.w == self.w,
    {
        Vec4A { x: self.x, y: self.w, z: self.w, w: self.w }
    }

    /// Lanes (y, x, x, x) of `self`.
    pub fn yxxx(self) -> (r: Vec4A)
        ensures
            r.x == self.y,
            r.y == self.x,
            r.z == self.x,
            r.w == self.x,
    {
        Vec4A { x: self.y, y: self.x, z: self.x, w: self.x }
    }

    /// Lanes (y, x, x, y) of `self`.
    pub fn yxxy(self) -> (r: Vec4A)
        ensures
            r.x == self.y,
            r.y == self.x,
            r.z == self.x,
            r.w == self.y,
    {
        Vec4A { x: self.y, y: self.x, z: self.x, w: self.y }
    }

    /// Lanes (y, x, x, z) of `self`.
    pub fn yxxz(self) -> (r: Vec4A)
        ensures
            r.x == self.y,
            r.y == self.x,
            r.z == self.x,
            r.w == self.z,
    {
        Vec4A { x: self.y, y: self.x, z: self.x, w: self.z }
    }

    /// Lanes (y, x, x, w) of `self`.
    pub fn yxxw(self) -> (r: Vec4A)
        ensures
            r.x == self.y,
            r.y == self.x,
            r.z == self.x,
            r.w == self.w,
    {
        Vec4A { x: self.y, y: self.x, z: self.x, w: self.w }
    }

    /// Lanes (y, x, y, x) of `self`.
    pub fn yxyx(self) -> (r: Vec4A)
        ensures
            r.x == self.y,
            r.y == self.x,
            r.z == self.y,
            r.w == self.x,
    {
        Vec4A { x: self.y, y: self.x, z: self.y, w: self.x }
    }

    /// Lanes (y, x, y, y) of `self`.
    pub fn yxyy(self) -> (r: Vec4A)
        ensures
            r.x == self.y,
            r.y == self.x,
            r.z == self.y,
            r.w == self.y,
    {
        Vec4A { x: self.y, y: self.x, z: self.y, w: self.y }
    }

    /// Lanes (y, x, y, z) of `self`.
    pub fn yxyz(self) -> (r: Vec4A)
        ensures
            r.x == self.y,
            r.y == self.x,
            r.z == self.y,
            r.w == self.z,
    {
        Vec4A { x: self.y, y: self.x, z: self.y, w: self.z }
    }

    /// Lanes (y, x, y, w) of `self`.
    pub fn yxyw(self) -> (r: Vec4A)
        ensures
            r.x == self.y,
            r.y == self.x,
            r.z == self.y,
            r.w == self.w,
    {
        Vec4A { x: self.y, y: self.x, z: self.y, w: self.w }
    }

    /// Lanes (y, x, z, x) of `self`.
    pub fn yxzx(self) -> (r: Vec4A)
        ensures
            r.x == self.y,
            r.y == self.x,
            r.z == self.z,
            r.w == self.x,
    {
        Vec4A { x: self.y, y: self.x, z: self.z, w: self.x }
    }

    /// Lanes (y, x, z, y) of `self`.
    pub fn yxzy(self) -> (r: Vec4A)
        ensures
            r.x == self.y,
            r.y == self.x,
            r.z == self.z,
            r.w == self.y,
    {
        Vec4A { x: self.y, y: self.x, z: self.z, w: self.y }
    }

    /// Lanes (y, x, z, z) of `self`.
    pub fn yxzz(self) -> (r: Vec4A)
        ensures
            r.x == self.y,
            r.y == self.x,
            r.z == self.z,
            r.w == self.z,
    {
        Vec4A { x: self.y, y: self.x, z: self.z, w: self.z }
    }

    /// Lanes (y, x, z, w) of `self`.
    pub fn yxzw(self) -> (r: Vec4A)
        ensures
            r.x == self.y,
            r.y == self.x,
            r.z == self.z,
            r.w == self.w,
    {
        Vec4A { x: self.y, y: self.x, z: self.z, w: self.w }
    }

    /// Lanes (y, x, w, x) of `self`.
    pub fn yxwx(self) -> (r: Vec4A)
        ensures
            r.x == self.y,
            r.y == self.x,
            r.z == self.w,
            r.w == self.x,
    {
        Vec4A { x: self.y, y: self.x, z: self.w, w: self.x }
    }

    /// Lanes (y, x, w, y) of `self`.
    pub fn yxwy(self) -> (r: Vec4A)
        ensures
            r.x == self.y,
            r.y == self.x,
            r.z == self.w,
            r.w == self.y,
    {
        Vec4A { x: self.y, y: self.x, z: self.w, w: self.y }
    }

    /// Lanes (y, x, w, z) of `self`.
    pub fn yxwz(self) -> (r: Vec4A)
        ensures
            r.x == self.y,
            r.y == self.x,
            r.z == self.w,
            r.w == self.z,
    {
        Vec4A { x: self.y, y: self.x, z: self.w, w: self.z }
    }

    /// Lanes (y, x, w, w) of `self`.
    pub fn yxww(self) -> (r: Vec4A)
        ensures
            r.x == self.y,
            r.y == self.x,
            r.z == self.w,
            r.w == self.w,
    {
        Vec4A { x: self.y, y: self.x, z: self.w, w: self.w }
    }

    /// Lanes (y, y, x, x) of `self`.
    pub fn yyxx(self) -> (r: Vec4A)
        ensures
            r.x == self.y,
            r.y == self.y,
            r.z == self.x,
            r.w == self.x,
    {
        Vec4A { x: self.y, y: self.y, z: self.x, w: self.x }
    }

    /// Lanes (y, y, x, y) of `self`.
    pub fn yyxy(self) -> (r: Vec4A)
        ensures
            r.x == self.y,
            r.y == self.y,
            r.z == self.x,
            r.w == self.y,
    {
        Vec4A { x: self.y, y: self.y, z: self.x, w: self.y }
    }

    /// Lanes (y, y, x, z) of `self`.
    pub fn yyxz(self) -> (r: Vec4A)
        ensures
            r.x == self.y,
            r.y == self.y,
            r.z == self.x,
            r.w == self.z,
    {
        Vec4A { x: self.y, y: self.y, z: self.x, w: self.z }
    }

    /// Lanes (y, y, x, w) of `self`.
    pub fn yyxw(self) -> (r: Vec4A)
        ensures
            r.x == self.y,
            r.y == self.y,
            r.z == self.x,
            r.w == self.w,
    {
        Vec4A { x: self.y, y: self.y, z: self.x, w: self.w }
    }

    /// Lanes (y, y, y, x) of `self`.
    pub fn yyyx(self) -> (r: Vec4A)
        ensures
            r.x == self.y,
            r.y == self.y,
            r.z == self.y,
            r.w == self.x,
    {
        Vec4A { x: self.y, y: self.y, z: self.y, w: self.x }
    }

    /// Lanes (y, y, y, y) of `self`.
    pub fn yyyy(self) -> (r: Vec4A)
        ensures
            r.x == self.y,
            r.y == self.y,
            r.z == self.y,
            r.w == self.y,
    {
        Vec4A { x: self.y, y: self.y, z: self.y, w: self.y }
    }

    /// Lanes (y, y, y, z) of `self`.
    pub fn yyyz(self) -> (r: Vec4A)
        ensures
            r.x == self.y,
            r.y == self.y,
            r.z == self.y,
            r.w == self.z,
    {
        Vec4A { x: self.y, y: self.y, z: self.y, w: self.z }
    }

    /// Lanes (y, y, y, w) of `self`.
    pub fn yyyw(self) -> (r: Vec4A)
        ensures
            r.x == self.y,
            r.y == self.y,
            r.z == self.y,
            r.w == self.w,
    {
        Vec4A { x: self.y, y: self.y, z: self.y, w: self.w }
    }

    /// Lanes (y, y, z, x) of `self`.
    pub fn yyzx(self) -> (r: Vec4A)
        ensures
            r.x == self.y,
            r.y == self.y,
            r.z == self.z,
            r.w == self.x,
    {
        Vec4A { x: self.y, y: self.y, z: self.z, w: self.x }
    }

    /// Lanes (y, y, z, y) of `self`.
    pub fn yyzy(self) -> (r: Vec4A)
        ensures
            r.x == self.y,
            r.y == self.y,
            r.z == self.z,
            r.w == self.y,
    {
        Vec4A { x: self.y, y: self.y, z: self.z, w: self.y }
    }

    /// Lanes (y, y, z, z) of `self`.
    pub fn yyzz(self) -> (r: Vec4A)
        ensures
            r.x == self.y,
            r.y == self.y,
            r.z == self.z,
            r.w == self.z,
    {
        Vec4A { x: self.y, y: self.y, z: self.z, w: self.z }
    }

    /// Lanes (y, y, z, w) of `self`.
    pub fn yyzw(self) -> (r: Vec4A)
        ensures
            r.x == self.y,
            r.y == self.y,
            r.z == self.z,
            r.w == self.w,
    {
        Vec4A { x: self.y, y: self.y, z: self.z, w: self.w }
    }

    /// Lanes (y, y, w, x) of `self`.
    pub fn yywx(self) -> (r: Vec4A)
        ensures
            r.x == self.y,
            r.y == self.y,
            r.z == self.w,
            r.w == self.x,
    {
        Vec4A { x: self.y, y: self.y, z: self.w, w: self.x }
    }

    /// Lanes (y, y, w, y) of `self`.
    pub fn yywy(self) -> (r: Vec4A)
        ensures
            r.x == self.y,
            r.y == self.y,
            r.z == self.w,
            r.w == self.y,
    {
        Vec4A { x: self.y, y: self.y, z: self.w, w: self.y }
    }

    /// Lanes (y, y, w, z) of `self`.
    pub fn yywz(self) -> (r: Vec4A)
        ensures
            r.x == self.y,
            r.y == self.y,
            r.z == self.w,
            r.w == self.z,
    {
        Vec4A { x: self.y, y: self.y, z: self.w, w: self.z }
    }

    /// Lanes (y, y, w, w) of `self`.
    pub fn yyww(self) -> (r: Vec4A)
        ensures
            r.x == self.y,
            r.y == self.y,
            r.z == self.w,
            r.w == self.w,
    {
        Vec4A { x: self.y, y: self.y, z: self.w, w: self.w }
    }

    /// Lanes (y, z, x, x) of `self`.
    pub fn yzxx(self) -> (r: Vec4A)
        ensures
            r.x == self.y,
            r.y == self.z,
            r.z == self.x,
            r.w == self.x,
    {
        Vec4A { x: self.y, y: self.z, z: self.x, w: self.x }
    }

    /// Lanes (y, z, x, y) of `self`.
    pub fn yzxy(self) -> (r: Vec4A)
        ensures
            r.x == self.y,
            r.y == self.z,
            r.z == self.x,
            r.w == self.y,
    {
        Vec4A { x: self.y, y: self.z, z: self.x, w: self.y }
    }

    /// Lanes (y, z, x, z) of `self`.
    pub fn yzxz(self) -> (r: Vec4A)
        ensures
            r.x == self.y,
            r.y == self.z,
            r.z == self.x,
            r.w == self.z,
    {
        Vec4A { x: self.y, y: self.z, z: self.x, w: self.z }
    }

    /// Lanes (y, z, x, w) of `self`.
    pub fn yzxw(self) -> (r: Vec4A)
        ensures
            r.x == self.y,
            r.y == self.z,
            r.z == self.x,
            r.w == self.w,
    {
        Vec4A { x: self.y, y: self.z, z: self.x, w: self.w }
    }

    /// Lanes (y, z, y, x) of `self`.
    pub fn yzyx(self) -> (r: Vec4A)
        ensures
            r.x == self.y,
            r.y == self.z,
            r.z == self.y,
            r.w == self.x,
    {
        Vec4A { x: self.y, y: self.z, z: self.y, w: self.x }
    }

    /// Lanes (y, z, y, y) of `self`.
    pub fn yzyy(self) -> (r: Vec4A)
        ensures
            r.x == self.y,
            r.y == self.z,
            r.z == self.y,
            r.w == self.y,
    {
        Vec4A { x: self.y, y: self.z, z: self.y, w: self.y }
    }

    /// Lanes (y, z, y, z) of `self`.
    pub fn yzyz(self) -> (r: Vec4A)
        ensures
            r.x == self.y,
            r.y == self.z,
            r.z == self.y,
            r.w == self.z,
    {
        Vec4A { x: self.y, y: self.z, z: self.y, w: self.z }
    }

    /// Lanes (y, z, y, w) of `self`.
    pub fn yzyw(self) -> (r: Vec4A)
        ensures
            r.x == self.y,
            r.y == self.z,
            r.z == self.y,
            r.w == self.w,
    {
        Vec4A { x: self.y, y: self.z, z: self.y, w: self.w }
    }

    /// Lanes (y, z, z, x) of `self`.
    pub fn yzzx(self) -> (r: Vec4A)
        ensures
            r.x == self.y,
            r.y == self.z,
            r.z == self.z,
            r.w == self.x,
    {
        Vec4A { x: self.y, y: self.z, z: self.z, w: self.x }
    }

    /// Lanes (y, z, z, y) of `self`.
    pub fn yzzy(self) -> (r: Vec4A)
        ensures
            r.x == self.y,
            r.y == self.z,
            r.z == self.z,
            r.w == self.y,
    {
        Vec4A { x: self.y, y: self.z, z: self.z, w: self.y }
    }

    /// Lanes (y, z, z, z) of `self`.
    pub fn yzzz(self) -> (r: Vec4A)
        ensures
            r.x == self.y,
            r.y == self.z,
            r.z == self.z,
            r.w == self.z,
    {
        Vec4A { x: self.y, y: self.z, z: self.z, w: self.z }
    }

    /// Lanes (y, z, z, w) of `self`.
    pub fn yzzw(self) -> (r: Vec4A)
        ensures
            r.x == self.y,
            r.y == self.z,
            r.z == self.z,
            r.w == self.w,
    {
        Vec4A { x: self.y, y: self.z, z: self.z, w: self.w }
    }

    /// Lanes (y, z, w, x) of `self`.
    pub fn yzwx(self) -> (r: Vec4A)
        ensures
            r.x == self.y,
            r.y == self.z,
            r.z == self.w,
            r.w == self.x,
    {
        Vec4A { x: self.y, y: self.z, z: self.w, w: self.x }
    }

    /// Lanes (y, z, w, y) of `self`.
    pub fn yzwy(self) -> (r: Vec4A)
        ensures
            r.x == self.y,
            r.y == self.z,
            r.z == self.w,
            r.w == self.y,
    {
        Vec4A { x: self.y, y: self.z, z: self.w, w: self.y }
    }

    /// Lanes (y, z, w, z) of `self`.
    pub fn yzwz(self) -> (r: Vec4A)
        ensures
            r.x == self.y,
            r.y == self.z,
            r.z == self.w,
            r.w == self.z,
    {
        Vec4A { x: self.y, y: self.z, z: self.w, w: self.z }
    }

    /// Lanes (y, z, w, w) of `self`.
    pub fn yzww(self) -> (r: Vec4A)
        ensures
            r.x == self.y,
            r.y == self.z,
            r.z == self.w,
            r.w == self.w,
    {
        Vec4A { x: self.y, y: self.z, z: self.w, w: self.w }
    }

    /// Lanes (y, w, x, x) of `self`.
    pub fn ywxx(self) -> (r: Vec4A)
        ensures
            r.x == self.y,
            r.y == self.w,
            r.z == self.x,
            r.w == self.x,
    {
        Vec4A { x: self.y, y: self.w, z: self.x, w: self.x }
    }

    /// Lanes (y, w, x, y) of `self`.
    pub fn ywxy(self) -> (r: Vec4A)
        ensures
            r.x == self.y,
            r.y == self.w,
            r.z == self.x,
            r.w == self.y,
    {
        Vec4A { x: self.y, y: self.w, z: self.x, w: self.y }
    }

    /// Lanes (y, w, x, z) of `self`.
    pub fn ywxz(self) -> (r: Vec4A)
        ensures
            r.x == self.y,
            r.y == self.w,
            r.z == self.x,
            r.w == self.z,
    {
        Vec4A { x: self.y, y: self.w, z: self.x, w: self.z }
    }

    /// Lanes (y, w, x, w) of `self`.
    pub fn ywxw(self) -> (r: Vec4A)
        ensures
            r.x == self.y,
            r.y == self.w,
            r.z == self.x,
            r.w == self.w,
    {
        Vec4A { x: self.y, y: self.w, z: self.x, w: self.w }
    }

    /// Lanes (y, w, y, x) of `self`.
    pub fn ywyx(self) -> (r: Vec4A)
        ensures
            r.x == self.y,
            r.y == self.w,
            r.z == self.y,
            r.w == self.x,
    {
        Vec4A { x: self.y, y: self.w, z: self.y, w: self.x }
    }

    /// Lanes (y, w, y, y) of `self`.
    pub fn ywyy(self) -> (r: Vec4A)
        ensures
            r.x == self.y,
            r.y == self.w,
            r.z == self.y,
            r.w == self.y,
    {
        Vec4A { x: self.y, y: self.w, z: self.y, w: self.y }
    }

    /// Lanes (y, w, y, z) of `self`.
    pub fn ywyz(self) -> (r: Vec4A)
        ensures
            r.x == self.y,
            r.y == self.w,
            r.z == self.y,
            r.w == self.z,
    {
        Vec4A { x: self.y, y: self.w, z: self.y, w: self.z }
    }

    /// Lanes (y, w, y, w) of `self`.
    pub fn ywyw(self) -> (r: Vec4A)
        ensures
            r.x == self.y,
            r.y == self.w,
            r.z == self.y,
            r.w == self.w,
    {
        Vec4A { x: self.y, y: self.w, z: self.y, w: self.w }
    }

    /// Lanes (y, w, z, x) of `self`.
    pub fn ywzx(self) -> (r: Vec4A)
        ensures
            r.x == self.y,
            r.y == self.w,
            r.z == self.z,
            r.w == self.x,
    {
        Vec4A { x: self.y, y: self.w, z: self.z, w: self.x }
    }

    /// Lanes (y, w, z, y) of `self`.
    pub fn ywzy(self) -> (r: Vec4A)
        ensures
            r.x == self.y,
            r.y == self.w,
            r.z == self.z,
            r.w == self.y,
    {
        Vec4A { x: self.y, y: self.w, z: self.z, w: self.y }
    }

    /// Lanes (y, w, z, z) of `self`.
    pub fn ywzz(self) -> (r: Vec4A)
        ensures
            r.x == self.y,
            r.y == self.w,
            r.z == self.z,
            r.w == self.z,
    {
        Vec4A { x: self.y, y: self.w, z: self.z, w: self.z }
    }

    /// Lanes (y, w, z, w) of `self`.
    pub fn ywzw(self) -> (r: Vec4A)
        ensures
            r.x == self.y,
            r.y == self.w,
            r.z == self.z,
            r.w == self.w,
    {
        Vec4A { x: self.y, y: self.w, z: self.z, w: self.w }
    }

    /// Lanes (y, w, w, x) of `self`.
    pub fn ywwx(self) -> (r: Vec4A)
        ensures
            r.x == self.y,
            r.y == self.w,
            r.z == self.w,
            r.w == self.x,
    {
        Vec4A { x: self.y, y: self.w, z: self.w, w: self.x }
    }

    /// Lanes (y, w, w, y) of `self`.
    pub fn ywwy(self) -> (r: Vec4A)
        ensures
            r.x == self.y,
            r.y == self.w,
            r.z == self.w,
            r.w == self.y,
    {
        Vec4A { x: self.y, y: self.w, z: self.w, w: self.y }
    }

    /// Lanes (y, w, w, z) of `self`.
    pub fn ywwz(self) -> (r: Vec4A)
        ensures
            r.x == self.y,
            r.y == self.w,
            r.z == self.w,
            r.w == self.z,
    {
        Vec4A { x: self.y, y: self.w, z: self.w, w: self.z }
    }

    /// Lanes (y, w, w, w) of `self`.
    pub fn ywww(self) -> (r: Vec4A)
        ensures
            r.x == self.y,
            r.y == self.w,
            r.z == self.w,
            r.w == self.w,
    {
        Vec4A { x: self.y, y: self.w, z: self.w, w: self.w }
    }

    /// Lanes (z, x, x, x) of `self`.
    pub fn zxxx(self) -> (r: Vec4A)
        ensures
            r.x == self.z,
            r.y == self.x,
            r.z == self.x,
            r.w == self.x,
    {
        Vec4A { x: self.z, y: self.x, z: self.x, w: self.x }
    }

    /// Lanes (z, x, x, y) of `self`.
    pub fn zxxy(self) -> (r: Vec4A)
        ensures
            r.x == self.z,
            r.y == self.x,
            r.z == self.x,
            r.w == self.y,
    {
        Vec4A { x: self.z, y: self.x, z: self.x, w: self.y }
    }

    /// Lanes (z, x, x, z) of `self`.
    pub fn zxxz(self) -> (r: Vec4A)
        ensures
            r.x == self.z,
            r.y == self.x,
            r.z == self.x,
            r.w == self.z,
    {
        Vec4A { x: self.z, y: self.x, z: self.x, w: self.z }
    }

    /// Lanes (z, x, x, w) of `self`.
    pub fn zxxw(self) -> (r: Vec4A)
        ensures
            r.x == self.z,
            r.y == self.x,
            r.z == self.x,
            r.w == self.w,
    {
        Vec4A { x: self.z, y: self.x, z: self.x, w: self.w }
    }

    /// Lanes (z, x, y, x) of `self`.
    pub fn zxyx(self) -> (r: Vec4A)
        ensures
            r.x == self.z,
            r.y == self.x,
            r.z == self.y,
            r.w == self.x,
    {
        Vec4A { x: self.z, y: self.x, z: self.y, w: self.x }
    }

    /// Lanes (z, x, y, y) of `self`.
    pub fn zxyy(self) -> (r: Vec4A)
        ensures
            r.x == self.z,
            r.y == self.x,
            r.z == self.y,
            r.w == self.y,
    {
        Vec4A { x: self.z, y: self.x, z: self.y, w: self.y }
    }

    /// Lanes (z, x, y, z) of `self`.
    pub fn zxyz(self) -> (r: Vec4A)
        ensures
            r.x == self.z,
            r.y == self.x,
            r.z == self.y,
            r.w == self.z,
    {
        Vec4A { x: self.z, y: self.x, z: self.y, w: self.z }
    }

    /// Lanes (z, x, y, w) of `self`.
    pub fn zxyw(self) -> (r: Vec4A)
        ensures
            r.x == self.z,
            r.y == self.x,
            r.z == self.y,
            r.w == self.w,
    {
        Vec4A { x: self.z, y: self.x, z: self.y, w: self.w }
    }

    /// Lanes (z, x, z, x) of `self`.
    pub fn zxzx(self) -> (r: Vec4A)
        ensures
            r.x == self.z,
            r.y == self.x,
            r.z == self.z,
            r.w == self.x,
    {
        Vec4A { x: self.z, y: self.x, z: self.z, w: self.x }
    }

    /// Lanes (z, x, z, y) of `self`.
    pub fn zxzy(self) -> (r: Vec4A)
        ensures
            r.x == self.z,
            r.y == self.x,
            r.z == self.z,
            r.w == self.y,
    {
        Vec4A { x: self.z, y: self.x, z: self.z, w: self.y }
    }

    /// Lanes (z, x, z, z) of `self`.
    pub fn zxzz(self) -> (r: Vec4A)
        ensures
            r.x == self.z,
            r.y == self.x,
            r.z == self.z,
            r.w == self.z,
    {
        Vec4A { x: self.z, y: self.x, z: self.z, w: self.z }
    }

    /// Lanes (z, x, z, w) of `self`.
    pub fn zxzw(self) -> (r: Vec4A)
        ensures
            r.x == self.z,
            r.y == self.x,
            r.z == self.z,
            r.w == self.w,
    {
        Vec4A { x: self.z, y: self.x, z: self.z, w: self.w }
    }

    /// Lanes (z, x, w, x) of `self`.
    pub fn zxwx(self) -> (r: Vec4A)
        ensures
            r.x == self.z,
            r.y == self.x,
            r.z == self.w,
            r.w == self.x,
    {
        Vec4A { x: self.z, y: self.x, z: self.w, w: self.x }
    }

    /// Lanes (z, x, w, y) of `self`.
    pub fn zxwy(self) -> (r: Vec4A)
        ensures
            r.x == self.z,
            r.y == self.x,
            r.z == self.w,
            r.w == self.y,
    {
        Vec4A { x: self.z, y: self.x, z: self.w, w: self.y }
    }

    /// Lanes (z, x, w, z) of `self`.
    pub fn zxwz(self) -> (r: Vec4A)
        ensures
            r.x == self.z,
            r.y == self.x,
            r.z == self.w,
            r.w == self.z,
    {
        Vec4A { x: self.z, y: self.x, z: self.w, w: self.z }
    }

    /// Lanes (z, x, w, w) of `self`.
    pub fn zxww(self) -> (r: Vec4A)
        ensures
            r.x == self.z,
            r.y == self.x,
            r.z == self.w,
            r.w == self.w,
    {
        Vec4A { x: self.z, y: self.x, z: self.w, w: self.w }
    }

    /// Lanes (z, y, x, x) of `self`.
    pub fn zyxx(self) -> (r: Vec4A)
        ensures
            r.x == self.z,
            r.y == self.y,
            r.z == self.x,
            r.w == self.x,
    {
        Vec4A { x: self.z, y: self.y, z: self.x, w: self.x }
    }

    /// Lanes (z, y, x, y) of `self`.
    pub fn zyxy(self) -> (r: Vec4A)
        ensures
            r.x == self.z,
            r.y == self.y,
            r.z == self.x,
            r.w == self.y,
    {
        Vec4A { x: self.z, y: self.y, z: self.x, w: self.y }
    }

    /// Lanes (z, y, x, z) of `self`.
    pub fn zyxz(self) -> (r: Vec4A)
        ensures
            r.x == self.z,
            r.y == self.y,
            r.z == self.x,
            r.w == self.z,
    {
        Vec4A { x: self.z, y: self.y, z: self.x, w: self.z }
    }

    /// Lanes (z, y, x, w) of `self`.
    pub fn zyxw(self) -> (r: Vec4A)
        ensures
            r.x == self.z,
            r.y == self.y,
            r.z == self.x,
            r.w == self.w,
    {
        Vec4A { x: self.z, y: self.y, z: self.x, w: self.w }
    }

    /// Lanes (z, y, y, x) of `self`.
    pub fn zyyx(self) -> (r: Vec4A)
        ensures
            r.x == self.z,
            r.y == self.y,
            r.z == self.y,
            r.w == self.x,
    {
        Vec4A { x: self.z, y: self.y, z: self.y, w: self.x }
    }

    /// Lanes (z, y, y, y) of `self`.
    pub fn zyyy(self) -> (r: Vec4A)
        ensures
            r.x == self.z,
            r.y == self.y,
            r.z == self.y,
            r.w == self.y,
    {
        Vec4A { x: self.z, y: self.y, z: self.y, w: self.y }
    }

    /// Lanes (z, y, y, z) of `self`.
    pub fn zyyz(self) -> (r: Vec4A)
        ensures
            r.x == self.z,
            r.y == self.y,
            r.z == self.y,
            r.w == self.z,
    {
        Vec4A { x: self.z, y: self.y, z: self.y, w: self.z }
    }

    /// Lanes (z, y, y, w) of `self`.
    pub fn zyyw(self) -> (r: Vec4A)
        ensures
            r.x == self.z,
            r.y == self.y,
            r.z == self.y,
            r.w == self.w,
    {
        Vec4A { x: self.z, y: self.y, z: self.y, w: self.w }
    }

    /// Lanes (z, y, z, x) of `self`.
    pub fn zyzx(self) -> (r: Vec4A)
        ensures
            r.x == self.z,
            r.y == self.y,
            r.z == self.z,
            r.w == self.x,
    {
        Vec4A { x: self.z, y: self.y, z: self.z, w: self.x }
    }

    /// Lanes (z, y, z, y) of `self`.
    pub fn zyzy(self) -> (r: Vec4A)
        ensures
            r.x == self.z,
            r.y == self.y,
            r.z == self.z,
            r.w == self.y,
    {
        Vec4A { x: self.z, y: self.y, z: self.z, w: self.y }
    }

    /// Lanes (z, y, z, z) of `self`.
    pub fn zyzz(self) -> (r: Vec4A)
        ensures
            r.x == self.z,
            r.y == self.y,
            r.z == self.z,
            r.w == self.z,
    {
        Vec4A { x: self.z, y: self.y, z: self.z, w: self.z }
    }

    /// Lanes (z, y, z, w) of `self`.
    pub fn zyzw(self) -> (r: Vec4A)
        ensures
            r.x == self.z,
            r.y == self.y,
            r.z == self.z,
            r.w == self.w,
    {
        Vec4A { x: self.z, y: self.y, z: self.z, w: self.w }
    }

    /// Lanes (z, y, w, x) of `self`.
    pub fn zywx(self) -> (r: Vec4A)
        ensures
            r.x == self.z,
            r.y == self.y,
            r.z == self.w,
            r.w == self.x,
    {
        Vec4A { x: self.z, y: self.y, z: self.w, w: self.x }
    }

    /// Lanes (z, y, w, y) of `self`.
    pub fn zywy(self) -> (r: Vec4A)
        ensures
            r.x == self.z,
            r.y == self.y,
            r.z == self.w,
            r.w == self.y,
    {
        Vec4A { x: self.z, y: self.y, z: self.w, w: self.y }
    }

    /// Lanes (z, y, w, z) of `self`.
    pub fn zywz(self) -> (r: Vec4A)
        ensures
            r.x == self.z,
            r.y == self.y,
            r.z == self.w,
            r.w == self.z,
    {
        Vec4A { x: self.z, y: self.y, z: self.w, w: self.z }
    }

    /// Lanes (z, y, w, w) of `self`.
    pub fn zyww(self) -> (r: Vec4A)
        ensures
            r.x == self.z,
            r.y == self.y,
            r.z == self.w,
            r.w == self.w,
    {
        Vec4A { x: self.z, y: self.y, z: self.w, w: self.w }
    }

    /// Lanes (z, z, x, x) of `self`.
    pub fn zzxx(self) -> (r: Vec4A)
        ensures
            r.x == self.z,
            r.y == self.z,
            r.z == self.x,
            r.w == self.x,
    {
        Vec4A { x: self.z, y: self.z, z: self.x, w: self.x }
    }

    /// Lanes (z, z, x, y) of `self`.
    pub fn zzxy(self) -> (r: Vec4A)
        ensures
            r.x == self.z,
            r.y == self.z,
            r.z == self.x,
            r.w == self.y,
    {
        Vec4A { x: self.z, y: self.z, z: self.x, w: self.y }
    }

    /// Lanes (z, z, x, z) of `self`.
    pub fn zzxz(self) -> (r: Vec4A)
        ensures
            r.x == self.z,
            r.y == self.z,
            r.z == self.x,
            r.w == self.z,
    {
        Vec4A { x: self.z, y: self.z, z: self.x, w: self.z }
    }

    /// Lanes (z, z, x, w) of `self`.
    pub fn zzxw(self) -> (r: Vec4A)
        ensures
            r.x == self.z,
            r.y == self.z,
            r.z == self.x,
            r.w == self.w,
    {
        Vec4A { x: self.z, y: self.z, z: self.x, w: self.w }
    }

    /// Lanes (z, z, y, x) of `self`.
    pub fn zzyx(self) -> (r: Vec4A)
        ensures
            r.x == self.z,
            r.y == self.z,
            r.z == self.y,
            r.w == self.x,
    {
        Vec4A { x: self.z, y: self.z, z: self.y, w: self.x }
    }

    /// Lanes (z, z, y, y) of `self`.
    pub fn zzyy(self) -> (r: Vec4A)
        ensures
            r.x == self.z,
            r.y == self.z,
            r.z == self.y,
            r.w == self.y,
    {
        Vec4A { x: self.z, y: self.z, z: self.y, w: self.y }
    }

    /// Lanes (z, z, y, z) of `self`.
    pub fn zzyz(self) -> (r: Vec4A)
        ensures
            r.x == self.z,
            r.y == self.z,
            r.z == self.y,
            r.w == self.z,
    {
        Vec4A { x: self.z, y: self.z, z: self.y, w: self.z }
    }

    /// Lanes (z, z, y, w) of `self`.
    pub fn zzyw(self) -> (r: Vec4A)
        ensures
            r.x == self.z,
            r.y == self.z,
            r.z == self.y,
            r.w == self.w,
    {
        Vec4A { x: self.z, y: self.z, z: self.y, w: self.w }
    }

    /// Lanes (z, z, z, x) of `self`.
    pub fn zzzx(self) -> (r: Vec4A)
        ensures
            r.x == self.z,
            r.y == self.z,
            r.z == self.z,
            r.w == self.x,
    {
        Vec4A { x: self.z, y: self.z, z: self.z, w: self.x }
    }

    /// Lanes (z, z, z, y) of `self`.
    pub fn zzzy(self) -> (r: Vec4A)
        ensures
            r.x == self.z,
            r.y == self.z,
            r.z == self.z,
            r.w == self.y,
    {
        Vec4A { x: self.z, y: self.z, z: self.z, w: self.y }
    }

    /// Lanes (z, z, z, z) of `self`.
    pub fn zzzz(self) -> (r: Vec4A)
        ensures
            r.x == self.z,
            r.y == self.z,
            r.z == self.z,
            r.w == self.z,
    {
        Vec4A { x: self.z, y: self.z, z: self.z, w: self.z }
    }

    /// Lanes (z, z, z, w) of `self`.
    pub fn zzzw(self) -> (r: Vec4A)
        ensures
            r.x == self.z,
            r.y == self.z,
            r.z == self.z,
            r.w == self.w,
    {
        Vec4A { x: self.z, y: self.z, z: self.z, w: self.w }
    }

    /// Lanes (z, z, w, x) of `self`.
    pub fn zzwx(self) -> (r: Vec4A)
        ensures
            r.x == self.z,
            r.y == self.z,
            r.z == self.w,
            r.w == self.x,
    {
        Vec4A { x: self.z, y: self.z, z: self.w, w: self.x }
    }

    /// Lanes (z, z, w, y) of `self`.
    pub fn zzwy(self) -> (r: Vec4A)
        ensures
            r.x == self.z,
            r.y == self.z,
            r.z == self.w,
            r.w == self.y,
    {
        Vec4A { x: self.z, y: self.z, z: self.w, w: self.y }
    }

    /// Lanes (z, z, w, z) of `self`.
    pub fn zzwz(self) -> (r: Vec4A)
        ensures
            r.x == self.z,
            r.y == self.z,
            r.z == self.w,
            r.w == self.z,
    {
        Vec4A { x: self.z, y: self.z, z: self.w, w: self.z }
    }

    /// Lanes (z, z, w, w) of `self`.
    pub fn zzww(self) -> (r: Vec4A)
        ensures
            r.x == self.z,
            r.y == self.z,
            r.z == self.w,
            r.w == self.w,
    {
        Vec4A { x: self.z, y: self.z, z: self.w, w: self.w }
    }

    /// Lanes (z, w, x, x) of `self`.
    pub fn zwxx(self) -> (r: Vec4A)
        ensures
            r.x == self.z,
            r.y == self.w,
            r.z == self.x,
            r.w == self.x,
    {
        Vec4A { x: self.z, y: self.w, z: self.x, w: self.x }
    }

    /// Lanes (z, w, x, y) of `self`.
    pub fn zwxy(self) -> (r: Vec4A)
        ensures
            r.x == self.z,
            r.y == self.w,
            r.z == self.x,
            r.w == self.y,
    {
        Vec4A { x: self.z, y: self.w, z: self.x, w: self.y }
    }

    /// Lanes (z, w, x, z) of `self`.
    pub fn zwxz(self) -> (r: Vec4A)
        ensures
            r.x == self.z,
            r.y == self.w,
            r.z == self.x,
            r.w == self.z,
    {
        Vec4A { x: self.z, y: self.w, z: self.x, w: self.z }
    }

    /// Lanes (z, w, x, w) of `self`.
    pub fn zwxw(self) -> (r: Vec4A)
        ensures
            r.x == self.z,
            r.y == self.w,
            r.z == self.x,
            r.w == self.w,
    {
        Vec4A { x: self.z, y: self.w, z: self.x, w: self.w }
    }

    /// Lanes (z, w, y, x) of `self`.
    pub fn zwyx(self) -> (r: Vec4A)
        ensures
            r.x == self.z,
            r.y == self.w,
            r.z == self.y,
            r.w == self.x,
    {
        Vec4A { x: self.z, y: self.w, z: self.y, w: self.x }
    }

    /// Lanes (z, w, y, y) of `self`.
    pub fn zwyy(self) -> (r: Vec4A)
        ensures
            r.x == self.z,
            r.y == self.w,
            r.z == self.y,
            r.w == self.y,
    {
        Vec4A { x: self.z, y: self.w, z: self.y, w: self.y }
    }

    /// Lanes (z, w, y, z) of `self`.
    pub fn zwyz(self) -> (r: Vec4A)
        ensures
            r.x == self.z,
            r.y == self.w,
            r.z == self.y,
            r.w == self.z,
    {
        Vec4A { x: self.z, y: self.w, z: self.y, w: self.z }
    }

    /// Lanes (z, w, y, w) of `self`.
    pub fn zwyw(self) -> (r: Vec4A)
        ensures
            r.x == self.z,
            r.y == self.w,
            r.z == self.y,
            r.w == self.w,
    {
        Vec4A { x: self.z, y: self.w, z: self.y, w: self.w }
    }

    /// Lanes (z, w, z, x) of `self`.
    pub fn zwzx(self) -> (r: Vec4A)
        ensures
            r.x == self.z,
            r.y == self.w,
            r.z == self.z,
            r.w == self.x,
    {
        Vec4A { x: self.z, y: self.w, z: self.z, w: self.x }
    }

    /// Lanes (z, w, z, y) of `self`.
    pub fn zwzy(self) -> (r: Vec4A)
        ensures
            r.x == self.z,
            r.y == self.w,
            r.z == self.z,
            r.w == self.y,
    {
        Vec4A { x: self.z, y: self.w, z: self.z, w: self.y }
    }

    /// Lanes (z, w, z, z) of `self`.
    pub fn zwzz(self) -> (r: Vec4A)
        ensures
            r.x == self.z,
            r.y == self.w,
            r.z == self.z,
            r.w == self.z,
    {
        Vec4A { x: self.z, y: self.w, z: self.z, w: self.z }
    }

    /// Lanes (z, w, z, w) of `self`.
    pub fn zwzw(self) -> (r: Vec4A)
        ensures
            r.x == self.z,
            r.y == self.w,
            r.z == self.z,
            r.w == self.w,
    {
        Vec4A { x: self.z, y: self.w, z: self.z, w: self.w }
    }

    /// Lanes (z, w, w, x) of `self`.
    pub fn zwwx(self) -> (r: Vec4A)
        ensures
            r.x == self.z,
            r.y == self.w,
            r.z == self.w,
            r.w == self.x,
    {
        Vec4A { x: self.z, y: self.w, z: self.w, w: self.x }
    }

    /// Lanes (z, w, w, y) of `self`.
    pub fn zwwy(self) -> (r: Vec4A)
        ensures
            r.x == self.z,
            r.y == self.w,
            r.z == self.w,
            r.w == self.y,
    {
        Vec4A { x: self.z, y: self.w, z: self.w, w: self.y }
    }

    /// Lanes (z, w, w, z) of `self`.
    pub fn zwwz(self) -> (r: Vec4A)
        ensures
            r.x == self.z,
            r.y == self.w,
            r.z == self.w,
            r.w == self.z,
    {
        Vec4A { x: self.z, y: self.w, z: self.w, w: self.z }
    }

    /// Lanes (z, w, w, w) of `self`.
    pub fn zwww(self) -> (r: Vec4A)
        ensures
            r.x == self.z,
            r.y == self.w,
            r.z == self.w,
            r.w == self.w,
    {
        Vec4A { x: self.z, y: self.w, z: self.w, w: self.w }
    }

    /// Lanes (w, x, x, x) of `self`.
    pub fn wxxx(self) -> (r: Vec4A)
        ensures
            r.x == self.w,
            r.y == self.x,
            r.z == self.x,
            r.w == self.x,
    {
        Vec4A { x: self.w, y: self.x, z: self.x, w: self.x }
    }

    /// Lanes (w, x, x, y) of `self`.
    pub fn wxxy(self) -> (r: Vec4A)
        ensures
            r.x == self.w,
            r.y == self.x,
            r.z == self.x,
            r.w == self.y,
    {
        Vec4A { x: self.w, y: self.x, z: self.x, w: self.y }
    }

    /// Lanes (w, x, x, z) of `self`.
    pub fn wxxz(self) -> (r: Vec4A)
        ensures
            r.x == self.w,
            r.y == self.x,
            r.z == self.x,
            r.w == self.z,
    {
        Vec4A { x: self.w, y: self.x, z: self.x, w: self.z }
    }

    /// Lanes (w, x, x, w) of `self`.
    pub fn wxxw(self) -> (r: Vec4A)
        ensures
            r.x == self.w,
            r.y == self.x,
            r.z == self.x,
            r.w == self.w,
    {
        Vec4A { x: self.w, y: self.x, z: self.x, w: self.w }
    }

    /// Lanes (w, x, y, x) of `self`.
    pub fn wxyx(self) -> (r: Vec4A)
        ensures
            r.x == self.w,
            r.y == self.x,
            r.z == self.y,
            r.w == self.x,
    {
        Vec4A { x: self.w, y: self.x, z: self.y, w: self.x }
    }

    /// Lanes (w, x, y, y) of `self`.
    pub fn wxyy(self) -> (r: Vec4A)
        ensures
            r.x == self.w,
            r.y == self.x,
            r.z == self.y,
            r.w == self.y,
    {
        Vec4A { x: self.w, y: self.x, z: self.y, w: self.y }
    }

    /// Lanes (w, x, y, z) of `self`.
    pub fn wxyz(self) -> (r: Vec4A)
        ensures
            r.x == self.w,
            r.y == self.x,
            r.z == self.y,
            r.w == self.z,
    {
        Vec4A { x: self.w, y: self.x, z: self.y, w: self.z }
    }

    /// Lanes (w, x, y, w) of `self`.
    pub fn wxyw(self) -> (r: Vec4A)
        ensures
            r.x == self.w,
            r.y == self.x,
            r.z == self.y,
            r.w == self.w,
    {
        Vec4A { x: self.w, y: self.x, z: self.y, w: self.w }
    }

    /// Lanes (w, x, z, x) of `self`.
    pub fn wxzx(self) -> (r: Vec4A)
        ensures
            r.x == self.w,
            r.y == self.x,
            r.z == self.z,
            r.w == self.x,
    {
        Vec4A { x: self.w, y: self.x, z: self.z, w: self.x }
    }

    /// Lanes (w, x, z, y) of `self`.
    pub fn wxzy(self) -> (r: Vec4A)
        ensures
            r.x == self.w,
            r.y == self.x,
            r.z == self.z,
            r.w == self.y,
    {
        Vec4A { x: self.w, y: self.x, z: self.z, w: self.y }
    }

    /// Lanes (w, x, z, z) of `self`.
    pub fn wxzz(self) -> (r: Vec4A)
        ensures
            r.x == self.w,
            r.y == self.x,
            r.z == self.z,
            r.w == self.z,
    {
        Vec4A { x: self.w, y: self.x, z: self.z, w: self.z }
    }

    /// Lanes (w, x, z, w) of `self`.
    pub fn wxzw(self) -> (r: Vec4A)
        ensures
            r.x == self.w,
            r.y == self.x,
            r.z == self.z,
            r.w == self.w,
    {
        Vec4A { x: self.w, y: self.x, z: self.z, w: self.w }
    }

    /// Lanes (w, x, w, x) of `self`.
    pub fn wxwx(self) -> (r: Vec4A)
        ensures
            r.x == self.w,
            r.y == self.x,
            r.z == self.w,
            r.w == self.x,
    {
        Vec4A { x: self.w, y: self.x, z: self.w, w: self.x }
    }

    /// Lanes (w, x, w, y) of `self`.
    pub fn wxwy(self) -> (r: Vec4A)
        ensures
            r.x == self.w,
            r.y == self.x,
            r.z == self.w,
            r.w == self.y,
    {
        Vec4A { x: self.w, y: self.x, z: self.w, w: self.y }
    }

    /// Lanes (w, x, w, z) of `self`.
    pub fn wxwz(self) -> (r: Vec4A)
        ensures
            r.x == self.w,
            r.y == self.x,
            r.z == self.w,
            r.w == self.z,
    {
        Vec4A { x: self.w, y: self.x, z: self.w, w: self.z }
    }

    /// Lanes (w, x, w, w) of `self`.
    pub fn wxww(self) -> (r: Vec4A)
        ensures
            r.x == self.w,
            r.y == self.x,
            r.z == self.w,
            r.w == self.w,
    {
        Vec4A { x: self.w, y: self.x, z: self.w, w: self.w }
    }

    /// Lanes (w, y, x, x) of `self`.
    pub fn wyxx(self) -> (r: Vec4A)
        ensures
            r.x == self.w,
            r.y == self.y,
            r.z == self.x,
            r.w == self.x,
    {
        Vec4A { x: self.w, y: self.y, z: self.x, w: self.x }
    }

    /// Lanes (w, y, x, y) of `self`.
    pub fn wyxy(self) -> (r: Vec4A)
        ensures
            r.x == self.w,
            r.y == self.y,
            r.z == self.x,
            r.w == self.y,
    {
        Vec4A { x: self.w, y: self.y, z: self.x, w: self.y }
    }

    /// Lanes (w, y, x, z) of `self`.
    pub fn wyxz(self) -> (r: Vec4A)
        ensures
            r.x == self.w,
            r.y == self.y,
            r.z == self.x,
            r.w == self.z,
    {
        Vec4A { x: self.w, y: self.y, z: self.x, w: self.z }
    }

    /// Lanes (w, y, x, w) of `self`.
    pub fn wyxw(self) -> (r: Vec4A)
        ensures
            r.x == self.w,
            r.y == self.y,
            r.z == self.x,
            r.w == self.w,
    {
        Vec4A { x: self.w, y: self.y, z: self.x, w: self.w }
    }

    /// Lanes (w, y, y, x) of `self`.
    pub fn wyyx(self) -> (r: Vec4A)
        ensures
            r.x == self.w,
            r.y == self.y,
            r.z == self.y,
            r.w == self.x,
    {
        Vec4A { x: self.w, y: self.y, z: self.y, w: self.x }
    }

    /// Lanes (w, y, y, y) of `self`.
    pub fn wyyy(self) -> (r: Vec4A)
        ensures
            r.x == self.w,
            r.y == self.y,
            r.z == self.y,
            r.w == self.y,
    {
        Vec4A { x: self.w, y: self.y, z: self.y, w: self.y }
    }

    /// Lanes (w, y, y, z) of `self`.
    pub fn wyyz(self) -> (r: Vec4A)
        ensures
            r.x == self.w,
            r.y == self.y,
            r.z == self.y,
            r.w == self.z,
    {
        Vec4A { x: self.w, y: self.y, z: self.y, w: self.z }
    }

    /// Lanes (w, y, y, w) of `self`.
    pub fn wyyw(self) -> (r: Vec4A)
        ensures
            r.x == self.w,
            r.y == self.y,
            r.z == self.y,
            r.w == self.w,
    {
        Vec4A { x: self.w, y: self.y, z: self.y, w: self.w }
    }

    /// Lanes (w, y, z, x) of `self`.
    pub fn wyzx(self) -> (r: Vec4A)
        ensures
            r.x == self.w,
            r.y == self.y,
            r.z == self.z,
            r.w == self.x,
    {
        Vec4A { x: self.w, y: self.y, z: self.z, w: self.x }
    }

    /// Lanes (w, y, z, y) of `self`.
    pub fn wyzy(self) -> (r: Vec4A)
        ensures
            r.x == self.w,
            r.y == self.y,
            r.z == self.z,
            r.w == self.y,
    {
        Vec4A { x: self.w, y: self.y, z: self.z, w: self.y }
    }

    /// Lanes (w, y, z, z) of `self`.
    pub fn wyzz(self) -> (r: Vec4A)
        ensures
            r.x == self.w,
            r.y == self.y,
            r.z == self.z,
            r.w == self.z,
    {
        Vec4A { x: self.w, y: self.y, z: self.z, w: self.z }
    }

    /// Lanes (w, y, z, w) of `self`.
    pub fn wyzw(self) -> (r: Vec4A)
        ensures
            r.x == self.w,
            r.y == self.y,
            r.z == self.z,
            r.w == self.w,
    {
        Vec4A { x: self.w, y: self.y, z: self.z, w: self.w }
    }

    /// Lanes (w, y, w, x) of `self`.
    pub fn wywx(self) -> (r: Vec4A)
        ensures
            r.x == self.w,
            r.y == self.y,
            r.z == self.w,
            r.w == self.x,
    {
        Vec4A { x: self.w, y: self.y, z: self.w, w: self.x }
    }

    /// Lanes (w, y, w, y) of `self`.
    pub fn wywy(self) -> (r: Vec4A)
        ensures
            r.x == self.w,
            r.y == self.y,
            r.z == self.w,
            r.w == self.y,
    {
        Vec4A { x: self.w, y: self.y, z: self.w, w: self.y }
    }

    /// Lanes (w, y, w, z) of `self`.
    pub fn wywz(self) -> (r: Vec4A)
        ensures
            r.x == self.w,
            r.y == self.y,
            r.z == self.w,
            r.w == self.z,
    {
        Vec4A { x: self.w, y: self.y, z: self.w, w: self.z }
    }

    /// Lanes (w, y, w, w) of `self`.
    pub fn wyww(self) -> (r: Vec4A)
        ensures
            r.x == self.w,
            r.y == self.y,
            r.z == self.w,
            r.w == self.w,
    {
        Vec4A { x: self.w, y: self.y, z: self.w, w: self.w }
    }

    /// Lanes (w, z, x, x) of `self`.
    pub fn wzxx(self) -> (r: Vec4A)
        ensures
            r.x == self.w,
            r.y == self.z,
            r.z == self.x,
            r.w == self.x,
    {
        Vec4A { x: self.w, y: self.z, z: self.x, w: self.x }
    }

    /// Lanes (w, z, x, y) of `self`.
    pub fn wzxy(self) -> (r: Vec4A)
        ensures
            r.x == self.w,
            r.y == self.z,
            r.z == self.x,
            r.w == self.y,
    {
        Vec4A { x: self.w, y: self.z, z: self.x, w: self.y }
    }

    /// Lanes (w, z, x, z) of `self`.
    pub fn wzxz(self) -> (r: Vec4A)
        ensures
            r.x == self.w,
            r.y == self.z,
            r.z == self.x,
            r.w == self.z,
    {
        Vec4A { x: self.w, y: self.z, z: self.x, w: self.z }
    }

    /// Lanes (w, z, x, w) of `self`.
    pub fn wzxw(self) -> (r: Vec4A)
        ensures
            r.x == self.w,
            r.y == self.z,
            r.z == self.x,
            r.w == self.w,
    {
        Vec4A { x: self.w, y: self.z, z: self.x, w: self.w }
    }

    /// Lanes (w, z, y, x) of `self`.
    pub fn wzyx(self) -> (r: Vec4A)
        ensures
            r.x == self.w,
            r.y == self.z,
            r.z == self.y,
            r.w == self.x,
    {
        Vec4A { x: self.w, y: self.z, z: self.y, w: self.x }
    }

    /// Lanes (w, z, y, y) of `self`.
    pub fn wzyy(self) -> (r: Vec4A)
        ensures
            r.x == self.w,
            r.y == self.z,
            r.z == self.y,
            r.w == self.y,
    {
        Vec4A { x: self.w, y: self.z, z: self.y, w: self.y }
    }

    /// Lanes (w, z, y, z) of `self`.
    pub fn wzyz(self) -> (r: Vec4A)
        ensures
            r.x == self.w,
            r.y == self.z,
            r.z == self.y,
            r.w == self.z,
    {
        Vec4A { x: self.w, y: self.z, z: self.y, w: self.z }
    }

    /// Lanes (w, z, y, w) of `self`.
    pub fn wzyw(self) -> (r: Vec4A)
        ensures
            r.x == self.w,
            r.y == self.z,
            r.z == self.y,
            r.w == self.w,
    {
        Vec4A { x: self.w, y: self.z, z: self.y, w: self.w }
    }

    /// Lanes (w, z, z, x) of `self`.
    pub fn wzzx(self) -> (r: Vec4A)
        ensures
            r.x == self.w,
            r.y == self.z,
            r.z == self.z,
            r.w == self.x,
    {
        Vec4A { x: self.w, y: self.z, z: self.z, w: self.x }
    }

    /// Lanes (w, z, z, y) of `self`.
    pub fn wzzy(self) -> (r: Vec4A)
        ensures
            r.x == self.w,
            r.y == self.z,
            r.z == self.z,
            r.w == self.y,
    {
        Vec4A { x: self.w, y: self.z, z: self.z, w: self.y }
    }

    /// Lanes (w, z, z, z) of `self`.
    pub fn wzzz(self) -> (r: Vec4A)
        ensures
            r.x == self.w,
            r.y == self.z,
            r.z == self.z,
            r.w == self.z,
    {
        Vec4A { x: self.w, y: self.z, z: self.z, w: self.z }
    }

    /// Lanes (w, z, z, w) of `self`.
    pub fn wzzw(self) -> (r: Vec4A)
        ensures
            r.x == self.w,
            r.y == self.z,
            r.z == self.z,
            r.w == self.w,
    {
        Vec4A { x: self.w, y: self.z, z: self.z, w: self.w }
    }

    /// Lanes (w, z, w, x) of `self`.
    pub fn wzwx(self) -> (r: Vec4A)
        ensures
            r.x == self.w,
            r.y == self.z,
            r.z == self.w,
            r.w == self.x,
    {
        Vec4A { x: self.w, y: self.z, z: self.w, w: self.x }
    }

    /// Lanes (w, z, w, y) of `self`.
    pub fn wzwy(self) -> (r: Vec4A)
        ensures
            r.x == self.w,
            r.y == self.z,
            r.z == self.w,
            r.w == self.y,
    {
        Vec4A { x: self.w, y: self.z, z: self.w, w: self.y }
    }

    /// Lanes (w, z, w, z) of `self`.
    pub fn wzwz(self) -> (r: Vec4A)
        ensures
            r.x == self.w,
            r.y == self.z,
            r.z == self.w,
            r.w == self.z,
    {
        Vec4A { x: self.w, y: self.z, z: self.w, w: self.z }
    }

    /// Lanes (w, z, w, w) of `self`.
    pub fn wzww(self) -> (r: Vec4A)
        ensures
            r.x == self.w,
            r.y == self.z,
            r.z == self.w,
            r.w == self.w,
    {
        Vec4A { x: self.w, y: self.z, z: self.w, w: self.w }
    }

    /// Lanes (w, w, x, x) of `self`.
    pub fn wwxx(self) -> (r: Vec4A)
        ensures
            r.x == self.w,
            r.y == self.w,
            r.z == self.x,
            r.w == self.x,
    {
        Vec4A { x: self.w, y: self.w, z: self.x, w: self.x }
    }

    /// Lanes (w, w, x, y) of `self`.
    pub fn wwxy(self) -> (r: Vec4A)
        ensures
            r.x == self.w,
            r.y == self.w,
            r.z == self.x,
            r.w == self.y,
    {
        Vec4A { x: self.w, y: self.w, z: self.x, w: self.y }
    }

    /// Lanes (w, w, x, z) of `self`.
    pub fn wwxz(self) -> (r: Vec4A)
        ensures
            r.x == self.w,
            r.y == self.w,
            r.z == self.x,
            r.w == self.z,
    {
        Vec4A { x: self.w, y: self.w, z: self.x, w: self.z }
    }

    /// Lanes (w, w, x, w) of `self`.
    pub fn wwxw(self) -> (r: Vec4A)
        ensures
            r.x == self.w,
            r.y == self.w,
            r.z == self.x,
            r.w == self.w,
    {
        Vec4A { x: self.w, y: self.w, z: self.x, w: self.w }
    }

    /// Lanes (w, w, y, x) of `self`.
    pub fn wwyx(self) -> (r: Vec4A)
        ensures
            r.x == self.w,
            r.y == self.w,
            r.z == self.y,
            r.w == self.x,
    {
        Vec4A { x: self.w, y: self.w, z: self.y, w: self.x }
    }

    /// Lanes (w, w, y, y) of `self`.
    pub fn wwyy(self) -> (r: Vec4A)
        ensures
            r.x == self.w,
            r.y == self.w,
            r.z == self.y,
            r.w == self.y,
    {
        Vec4A { x: self.w, y: self.w, z: self.y, w: self.y }
    }

    /// Lanes (w, w, y, z) of `self`.
    pub fn wwyz(self) -> (r: Vec4A)
        ensures
            r.x == self.w,
            r.y == self.w,
            r.z == self.y,
            r.w == self.z,
    {
        Vec4A { x: self.w, y: self.w, z: self.y, w: self.z }
    }

    /// Lanes (w, w, y, w) of `self`.
    pub fn wwyw(self) -> (r: Vec4A)
        ensures
            r.x == self.w,
            r.y == self.w,
            r.z == self.y,
            r.w == self.w,
    {
        Vec4A { x: self.w, y: self.w, z: self.y, w: self.w }
    }

    /// Lanes (w, w, z, x) of `self`.
    pub fn wwzx(self) -> (r: Vec4A)
        ensures
            r.x == self.w,
            r.y == self.w,
            r.z == self.z,
            r.w == self.x,
    {
        Vec4A { x: self.w, y: self.w, z: self.z, w: self.x }
    }

    /// Lanes (w, w, z, y) of `self`.
    pub fn wwzy(self) -> (r: Vec4A)
        ensures
            r.x == self.w,
            r.y == self.w,
            r.z == self.z,
            r.w == self.y,
    {
        Vec4A { x: self.w, y: self.w, z: self.z, w: self.y }
    }

    /// Lanes (w, w, z, z) of `self`.
    pub fn wwzz(self) -> (r: Vec4A)
        ensures
            r.x == self.w,
            r.y == self.w,
            r.z == self.z,
            r.w == self.z,
    {
        Vec4A { x: self.w, y: self.w, z: self.z, w: self.z }
    }

    /// Lanes (w, w, z, w) of `self`.
    pub fn wwzw(self) -> (r: Vec4A)
        ensures
            r.x == self.w,
            r.y == self.w,
            r.z == self.z,
            r.w == self.w,
    {
        Vec4A { x: self.w, y: self.w, z: self.z, w: self.w }
    }

    /// Lanes (w, w, w, x) of `self`.
    pub fn wwwx(self) -> (r: Vec4A)
        ensures
            r.x == self.w,
            r.y == self.w,
            r.z == self.w,
            r.w == self.x,
    {
        Vec4A { x: self.w, y: self.w, z: self.w, w: self.x }
    }

    /// Lanes (w, w, w, y) of `self`.
    pub fn wwwy(self) -> (r: Vec4A)
        ensures
            r.x == self.w,
            r.y == self.w,
            r.z == self.w,
            r.w == self.y,
    {
        Vec4A { x: self.w, y: self.w, z: self.w, w: self.y }
    }

    /// Lanes (w, w, w, z) of `self`.
    pub fn wwwz(self) -> (r: Vec4A)
        ensures
            r.x == self.w,
            r.y == self.w,
            r.z == self.w,
            r.w == self.z,
    {
        Vec4A { x: self.w, y: self.w, z: self.w, w: self.z }
    }

    /// Lanes (w, w, w, w) of `self`.
    pub fn wwww(self) -> (r: Vec4A)
        ensures
            r.x == self.w,
            r.y == self.w,
            r.z == self.w,
            r.w == self.w,
    {
        Vec4A { x: self.w, y: self.w, z: self.w, w: self.w }
    }

}

} // verus!
