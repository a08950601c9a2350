//! Points in 2, 3 and 4 dimensions, tagged with a unit of measure.

use core::marker::PhantomData;

use vstd::prelude::*;

use crate::model::Vec4;
use crate::UnknownUnit;

verus! {

/// A 2d point in the unit `U`.
#[derive(Copy, PartialEq, Eq, Debug)]
pub struct TypedPoint2D<T, U> {
    pub x: T,
    pub y: T,
    pub _unit: PhantomData<U>,
}

/// A 2d point with no unit.
pub type Point2D<T> = TypedPoint2D<T, UnknownUnit>;

impl<T: Copy, U> Clone for TypedPoint2D<T, U> {
    fn clone(&self) -> (r: Self)
        ensures
            r == *self,
    {
        TypedPoint2D { x: self.x, y: self.y, _unit: PhantomData }
    }
}

impl<T, U> TypedPoint2D<T, U> {
    /// Creates the point `(x, y)`.
    pub fn new(x: T, y: T) -> (r: Self)
        ensures
            r.x == x,
            r.y == y,
    {
        TypedPoint2D { x, y, _unit: PhantomData }
    }
}

/// A 3d point in the unit `U`.
#[derive(Copy, PartialEq, Eq, Debug)]
pub struct TypedPoint3D<T, U> {
    pub x: T,
    pub y: T,
    pub z: T,
    pub _unit: PhantomData<U>,
}

/// A 3d point with no unit.
pub type Point3D<T> = TypedPoint3D<T, UnknownUnit>;

impl<T: Copy, U> Clone for TypedPoint3D<T, U> {
    fn clone(&self) -> (r: Self)
        ensures
            r == *self,
    {
        TypedPoint3D { x: self.x, y: self.y, z: self.z, _unit: PhantomData }
    }
}

impl<T, U> TypedPoint3D<T, U> {
    /// Creates the point `(x, y, z)`.
    pub fn new(x: T, y: T, z: T) -> (r: Self)
        ensures
            r.x == x,
            r.y == y,
            r.z == z,
    {
        TypedPoint3D { x, y, z, _unit: PhantomData }
    }
}

/// A point in homogeneous coordinates, in the unit `U`.
#[derive(Copy, PartialEq, Eq, Debug)]
pub struct TypedPoint4D<T, U> {
    pub x: T,
    pub y: T,
    pub z: T,
    pub w: T,
    pub _unit: PhantomData<U>,
}

/// A homogeneous point with no unit.
pub type Point4D<T> = TypedPoint4D<T, UnknownUnit>;

impl<T: Copy, U> Clone for TypedPoint4D<T, U> {
    fn clone(&self) -> (r: Self)
        ensures
            r == *self,
    {
        TypedPoint4D { x: self.x, y: self.y, z: self.z, w: self.w, _unit: PhantomData }
    }
}

impl<T, U> TypedPoint4D<T, U> {
    /// Creates the point `(x, y, z, w)`.
    pub fn new(x: T, y: T, z: T, w: T) -> (r: Self)
        ensures
            r.x == x,
            r.y == y,
            r.z == z,
            r.w == w,
    {
        TypedPoint4D { x, y, z, w, _unit: PhantomData }
    }
}

impl<T: Copy, U> TypedPoint4D<T, U> {
    /// The `x` and `y` coordinates of this point.
    pub fn to_2d(&self) -> (r: TypedPoint2D<T, U>)
        ensures
            r.x == self.x,
            r.y == self.y,
    {
        TypedPoint2D::new(self.x, self.y)
    }

    /// The `x`, `y` and `z` coordinates of this point.
    pub fn to_3d(&self) -> (r: TypedPoint3D<T, U>)
        ensures
            r.x == self.x,
            r.y == self.y,
            r.z == self.z,
    {
        TypedPoint3D::new(self.x, self.y, self.z)
    }
}

impl<U> View for TypedPoint4D<i64, U> {
    type V = Vec4;

    open spec fn view(&self) -> Vec4 {
        Vec4 { x: self.x as int, y: self.y as int, z: self.z as int, w: self.w as int }
    }
}

} // verus!
