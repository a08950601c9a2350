//! 3 by 2 matrices for 2d affine transformations.

use core::marker::PhantomData;

use vstd::prelude::*;

use crate::UnknownUnit;

verus! {

/// A 2d affine transformation from the unit `Src` to the unit `Dst`: the
/// linear terms `m11`, `m12`, `m21`, `m22` and the translation `m31`, `m32`.
#[derive(Copy, PartialEq, Eq, Debug)]
pub struct TypedMatrix2D<T, Src, Dst> {
    pub m11: T,
    pub m12: T,
    pub m21: T,
    pub m22: T,
    pub m31: T,
    pub m32: T,
    pub _unit: PhantomData<(Src, Dst)>,
}

/// A 2d matrix with no units.
pub type Matrix2D<T> = TypedMatrix2D<T, UnknownUnit, UnknownUnit>;

impl<T: Copy, Src, Dst> Clone for TypedMatrix2D<T, Src, Dst> {
    fn clone(&self) -> (r: Self)
        ensures
            r == *self,
    {
        TypedMatrix2D {
            m11: self.m11,
            m12: self.m12,
            m21: self.m21,
            m22: self.m22,
            m31: self.m31,
            m32: self.m32,
            _unit: PhantomData,
        }
    }
}

impl<T, Src, Dst> TypedMatrix2D<T, Src, Dst> {
    /// Creates a matrix from its components in row-major order.
    pub fn row_major(m11: T, m12: T, m21: T, m22: T, m31: T, m32: T) -> (r: Self)
        ensures
            r.m11 == m11,
            r.m12 == m12,
            r.m21 == m21,
            r.m22 == m22,
            r.m31 == m31,
            r.m32 == m32,
    {
        TypedMatrix2D { m11, m12, m21, m22, m31, m32, _unit: PhantomData }
    }
}

} // verus!
