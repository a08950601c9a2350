//! 4 by 4 matrices that transform points from one unit to another.

use core::marker::PhantomData;

use vstd::prelude::*;

use crate::matrix2d::TypedMatrix2D;
use crate::laws::lemma_inverse_is_inverse;
use crate::model::{
    adjugate_fits, det_fits, mat_adjugate, mat_det, mat_from_2d, mat_identity, mat_inverse,
    mat_is_2d, mat_mul, mat_scale, mat_scaling, mat_translation, mul_fits, point_fits,
    point_image, scale_fits, vec_fits, vec_mul, Mat4,
};
use crate::point::{TypedPoint2D, TypedPoint3D, TypedPoint4D};
use crate::scale_factor::ScaleFactor;
use crate::UnknownUnit;

verus! {

/// A 4 by 4 matrix stored in row-major order, useful to represent 3d
/// transformations.
///
/// Matrices are parametrized over the source and destination units, to
/// describe a transformation from a space to another: `transform_point4d`
/// takes a point in the unit `Src` and returns a point in the unit `Dst`.
///
/// Points are row vectors multiplied on the left of the matrix. A
/// pre-transformation is applied before the rest of the transformation, a
/// post-transformation after it.
#[derive(Copy, PartialEq, Eq, Debug)]
pub struct TypedMatrix4D<T, Src, Dst> {
    pub m11: T,
    pub m12: T,
    pub m13: T,
    pub m14: T,
    pub m21: T,
    pub m22: T,
    pub m23: T,
    pub m24: T,
    pub m31: T,
    pub m32: T,
    pub m33: T,
    pub m34: T,
    pub m41: T,
    pub m42: T,
    pub m43: T,
    pub m44: T,
    pub _unit: PhantomData<(Src, Dst)>,
}

/// A 4 by 4 matrix with no units.
pub type Matrix4D<T> = TypedMatrix4D<T, UnknownUnit, UnknownUnit>;

impl<T: Copy, Src, Dst> Clone for TypedMatrix4D<T, Src, Dst> {
    fn clone(&self) -> (r: Self)
        ensures
            r == *self,
    {
        TypedMatrix4D::row_major(
            self.m11, self.m12, self.m13, self.m14,
            self.m21, self.m22, self.m23, self.m24,
            self.m31, self.m32, self.m33, self.m34,
            self.m41, self.m42, self.m43, self.m44,
        )
    }
}

impl<T, Src, Dst> TypedMatrix4D<T, Src, Dst> {
    /// The 16 terms in row-major order: row after row.
    pub open spec fn row_major_entries(&self) -> Seq<T> {
        seq![
            self.m11, self.m12, self.m13, self.m14,
            self.m21, self.m22, self.m23, self.m24,
            self.m31, self.m32, self.m33, self.m34,
            self.m41, self.m42, self.m43, self.m44,
        ]
    }

    /// The 16 terms in column-major order: column after column.
    pub open spec fn column_major_entries(&self) -> Seq<T> {
        seq![
            self.m11, self.m21, self.m31, self.m41,
            self.m12, self.m22, self.m32, self.m42,
            self.m13, self.m23, self.m33, self.m43,
            self.m14, self.m24, self.m34, self.m44,
        ]
    }

    /// Creates a matrix from its components in row-major order.
    ///
    /// For example, the translation terms `m41`, `m42`, `m43` on the last row
    /// with the row-major convention are the 13th, 14th and 15th parameters.
    pub fn row_major(
        m11: T, m12: T, m13: T, m14: T,
        m21: T, m22: T, m23: T, m24: T,
        m31: T, m32: T, m33: T, m34: T,
        m41: T, m42: T, m43: T, m44: T,
    ) -> (r: Self)
        ensures
            r.m11 == m11,
            r.m12 == m12,
            r.m13 == m13,
            r.m14 == m14,
            r.m21 == m21,
            r.m22 == m22,
            r.m23 == m23,
            r.m24 == m24,
            r.m31 == m31,
            r.m32 == m32,
            r.m33 == m33,
            r.m34 == m34,
            r.m41 == m41,
            r.m42 == m42,
            r.m43 == m43,
            r.m44 == m44,
    {
        TypedMatrix4D {
            m11,
            m12,
            m13,
            m14,
            m21,
            m22,
            m23,
            m24,
            m31,
            m32,
            m33,
            m34,
            m41,
            m42,
            m43,
            m44,
            _unit: PhantomData,
        }
    }

    /// Creates a matrix from its components in column-major order.
    ///
    /// For example, the translation terms `m41`, `m42`, `m43` on the last
    /// column with the column-major convention are the 4th, 8th and 12th
    /// parameters.
    pub fn column_major(
        m11: T, m21: T, m31: T, m41: T,
        m12: T, m22: T, m32: T, m42: T,
        m13: T, m23: T, m33: T, m43: T,
        m14: T, m24: T, m34: T, m44: T,
    ) -> (r: Self)
        ensures
            r.m11 == m11,
            r.m12 == m12,
            r.m13 == m13,
            r.m14 == m14,
            r.m21 == m21,
            r.m22 == m22,
            r.m23 == m23,
            r.m24 == m24,
            r.m31 == m31,
            r.m32 == m32,
            r.m33 == m33,
            r.m34 == m34,
            r.m41 == m41,
            r.m42 == m42,
            r.m43 == m43,
            r.m44 == m44,
    {
        TypedMatrix4D {
            m11,
            m12,
            m13,
            m14,
            m21,
            m22,
            m23,
            m24,
            m31,
            m32,
            m33,
            m34,
            m41,
            m42,
            m43,
            m44,
            _unit: PhantomData,
        }
    }
}

impl<T: Copy, Src, Dst> TypedMatrix4D<T, Src, Dst> {
    /// Returns the same matrix with a different destination unit.
    pub fn with_destination<NewDst>(&self) -> (r: TypedMatrix4D<T, Src, NewDst>)
        ensures
            r.row_major_entries() == self.row_major_entries(),
    {
        TypedMatrix4D::row_major(
            self.m11, self.m12, self.m13, self.m14,
            self.m21, self.m22, self.m23, self.m24,
            self.m31, self.m32, self.m33, self.m34,
            self.m41, self.m42, self.m43, self.m44,
        )
    }

    /// Returns the same matrix with a different source unit.
    pub fn with_source<NewSrc>(&self) -> (r: TypedMatrix4D<T, NewSrc, Dst>)
        ensures
            r.row_major_entries() == self.row_major_entries(),
    {
        TypedMatrix4D::row_major(
            self.m11, self.m12, self.m13, self.m14,
            self.m21, self.m22, self.m23, self.m24,
            self.m31, self.m32, self.m33, self.m34,
            self.m41, self.m42, self.m43, self.m44,
        )
    }

    /// Creates a 2d matrix from the terms of this matrix that a 2d
    /// transformation has.
    ///
    /// This assumes that this matrix represents a 2d transformation; callers
    /// should check that `is_2d` returns true beforehand.
    pub fn to_2d(&self) -> (r: TypedMatrix2D<T, Src, Dst>)
        ensures
            r.m11 == self.m11,
            r.m12 == self.m12,
            r.m21 == self.m21,
            r.m22 == self.m22,
            r.m31 == self.m41,
            r.m32 == self.m42,
    {
        TypedMatrix2D::row_major(self.m11, self.m12, self.m21, self.m22, self.m41, self.m42)
    }

    /// Returns an array with this matrix's terms in row-major order (the order
    /// in which the matrix is laid out in memory).
    pub fn to_row_major_array(&self) -> (r: [T; 16])
        ensures
            r@ == self.row_major_entries(),
    {
        [
            self.m11, self.m12, self.m13, self.m14,
            self.m21, self.m22, self.m23, self.m24,
            self.m31, self.m32, self.m33, self.m34,
            self.m41, self.m42, self.m43, self.m44,
        ]
    }

    /// Returns an array with this matrix's terms in column-major order.
    pub fn to_column_major_array(&self) -> (r: [T; 16])
        ensures
            r@ == self.column_major_entries(),
    {
        [
            self.m11, self.m21, self.m31, self.m41,
            self.m12, self.m22, self.m32, self.m42,
            self.m13, self.m23, self.m33, self.m43,
            self.m14, self.m24, self.m34, self.m44,
        ]
    }

    /// Returns an array with this matrix's 4 rows, each as an array.
    pub fn to_row_arrays(&self) -> (r: [[T; 4]; 4])
        ensures
            r@[0]@ == seq![self.m11, self.m12, self.m13, self.m14],
            r@[1]@ == seq![self.m21, self.m22, self.m23, self.m24],
            r@[2]@ == seq![self.m31, self.m32, self.m33, self.m34],
            r@[3]@ == seq![self.m41, self.m42, self.m43, self.m44],
    {
        [
            [self.m11, self.m12, self.m13, self.m14],
            [self.m21, self.m22, self.m23, self.m24],
            [self.m31, self.m32, self.m33, self.m34],
            [self.m41, self.m42, self.m43, self.m44],
        ]
    }

    /// Returns an array with this matrix's 4 columns, each as an array (the 4
    /// rows in column-major order).
    pub fn to_column_arrays(&self) -> (r: [[T; 4]; 4])
        ensures
            r@[0]@ == seq![self.m11, self.m21, self.m31, self.m41],
            r@[1]@ == seq![self.m12, self.m22, self.m32, self.m42],
            r@[2]@ == seq![self.m13, self.m23, self.m33, self.m43],
            r@[3]@ == seq![self.m14, self.m24, self.m34, self.m44],
    {
        [
            [self.m11, self.m21, self.m31, self.m41],
            [self.m12, self.m22, self.m32, self.m42],
            [self.m13, self.m23, self.m33, self.m43],
            [self.m14, self.m24, self.m34, self.m44],
        ]
    }
}

impl<Src, Dst> View for TypedMatrix4D<i64, Src, Dst> {
    type V = Mat4;

    open spec fn view(&self) -> Mat4 {
        Mat4 {
            m11: self.m11 as int,
            m12: self.m12 as int,
            m13: self.m13 as int,
            m14: self.m14 as int,
            m21: self.m21 as int,
            m22: self.m22 as int,
            m23: self.m23 as int,
            m24: self.m24 as int,
            m31: self.m31 as int,
            m32: self.m32 as int,
            m33: self.m33 as int,
            m34: self.m34 as int,
            m41: self.m41 as int,
            m42: self.m42 as int,
            m43: self.m43 as int,
            m44: self.m44 as int,
        }
    }
}

impl<Src, Dst> TypedMatrix4D<i64, Src, Dst> {
    /// Creates a 4 by 4 matrix representing a 2d transformation, from its
    /// components in row-major order.
    pub fn row_major_2d(m11: i64, m12: i64, m21: i64, m22: i64, m41: i64, m42: i64) -> (r: Self)
        ensures
            r@ == mat_from_2d(m11 as int, m12 as int, m21 as int, m22 as int, m41 as int, m42 as int),
    {
        let (_0, _1): (i64, i64) = (0, 1);
        TypedMatrix4D::row_major(
            m11, m12, _0, _0,
            m21, m22, _0, _0,
            _0, _0, _1, _0,
            m41, m42, _0, _1,
        )
    }

    /// The identity matrix.
    pub fn identity() -> (r: Self)
        ensures
            r@ == mat_identity(),
    {
        let (_0, _1): (i64, i64) = (0, 1);
        TypedMatrix4D::row_major(
            _1, _0, _0, _0,
            _0, _1, _0, _0,
            _0, _0, _1, _0,
            _0, _0, _0, _1,
        )
    }

    /// Returns true if this matrix can be represented with a `TypedMatrix2D`.
    ///
    /// See <https://drafts.csswg.org/css-transforms/#2d-matrix>.
    pub fn is_2d(&self) -> (r: bool)
        ensures
            r == mat_is_2d(self@),
    {
        let (_0, _1): (i64, i64) = (0, 1);
        self.m31 == _0 && self.m32 == _0 && self.m13 == _0 && self.m23 == _0 && self.m43 == _0
            && self.m14 == _0 && self.m24 == _0 && self.m34 == _0 && self.m33 == _1 && self.m44
            == _1
    }

    /// Whether the two matrices are approximately equal, term by term.
    ///
    /// Integer terms are exact, so two terms are approximately equal when
    /// they are equal.
    pub fn approx_eq(&self, other: &TypedMatrix4D<i64, Src, Dst>) -> (r: bool)
        ensures
            r == (self@ == other@),
    {
        self.m11 == other.m11 &&
        self.m12 == other.m12 &&
        self.m13 == other.m13 &&
        self.m14 == other.m14 &&
        self.m21 == other.m21 &&
        self.m22 == other.m22 &&
        self.m23 == other.m23 &&
        self.m24 == other.m24 &&
        self.m31 == other.m31 &&
        self.m32 == other.m32 &&
        self.m33 == other.m33 &&
        self.m34 == other.m34 &&
        self.m41 == other.m41 &&
        self.m42 == other.m42 &&
        self.m43 == other.m43 &&
        self.m44 == other.m44
    }

    /// Returns the product of the two matrices such that `mat`'s transformation
    /// applies after `self`'s transformation.
    pub fn post_mul<NewDst>(&self, mat: &TypedMatrix4D<i64, Dst, NewDst>) -> (r: TypedMatrix4D<
        i64,
        Src,
        NewDst,
    >)
        requires
            mul_fits(self@, mat@),
        ensures
            r@ == mat_mul(self@, mat@),
    {
        TypedMatrix4D::row_major(
            self.m11 * mat.m11 + self.m12 * mat.m21 + self.m13 * mat.m31 + self.m14 * mat.m41,
            self.m11 * mat.m12 + self.m12 * mat.m22 + self.m13 * mat.m32 + self.m14 * mat.m42,
            self.m11 * mat.m13 + self.m12 * mat.m23 + self.m13 * mat.m33 + self.m14 * mat.m43,
            self.m11 * mat.m14 + self.m12 * mat.m24 + self.m13 * mat.m34 + self.m14 * mat.m44,
            self.m21 * mat.m11 + self.m22 * mat.m21 + self.m23 * mat.m31 + self.m24 * mat.m41,
            self.m21 * mat.m12 + self.m22 * mat.m22 + self.m23 * mat.m32 + self.m24 * mat.m42,
            self.m21 * mat.m13 + self.m22 * mat.m23 + self.m23 * mat.m33 + self.m24 * mat.m43,
            self.m21 * mat.m14 + self.m22 * mat.m24 + self.m23 * mat.m34 + self.m24 * mat.m44,
            self.m31 * mat.m11 + self.m32 * mat.m21 + self.m33 * mat.m31 + self.m34 * mat.m41,
            self.m31 * mat.m12 + self.m32 * mat.m22 + self.m33 * mat.m32 + self.m34 * mat.m42,
            self.m31 * mat.m13 + self.m32 * mat.m23 + self.m33 * mat.m33 + self.m34 * mat.m43,
            self.m31 * mat.m14 + self.m32 * mat.m24 + self.m33 * mat.m34 + self.m34 * mat.m44,
            self.m41 * mat.m11 + self.m42 * mat.m21 + self.m43 * mat.m31 + self.m44 * mat.m41,
            self.m41 * mat.m12 + self.m42 * mat.m22 + self.m43 * mat.m32 + self.m44 * mat.m42,
            self.m41 * mat.m13 + self.m42 * mat.m23 + self.m43 * mat.m33 + self.m44 * mat.m43,
            self.m41 * mat.m14 + self.m42 * mat.m24 + self.m43 * mat.m34 + self.m44 * mat.m44,
        )
    }

    /// Returns the product of the two matrices such that `mat`'s transformation
    /// applies before `self`'s transformation.
    pub fn pre_mul<NewSrc>(&self, mat: &TypedMatrix4D<i64, NewSrc, Src>) -> (r: TypedMatrix4D<
        i64,
        NewSrc,
        Dst,
    >)
        requires
            mul_fits(mat@, self@),
        ensures
            r@ == mat_mul(mat@, self@),
    {
        mat.post_mul(self)
    }

    /// Returns the inverse matrix when it has integer terms: exactly when the
    /// determinant is 1 or -1, since the determinants of an integer matrix
    /// and of an integer inverse are integers whose product is 1. The inverse
    /// is then the adjugate divided by the determinant.
    pub fn inverse(&self) -> (r: Option<TypedMatrix4D<i64, Dst, Src>>)
        requires
            det_fits(self@),
            mat_det(self@) == 1 || mat_det(self@) == -1 ==> adjugate_fits(self@) && scale_fits(
                mat_adjugate(self@),
                mat_det(self@),
            ),
        ensures
            r is Some <==> mat_det(self@) == 1 || mat_det(self@) == -1,
            r matches Some(inv) ==> mat_inverse(self@) == Some(inv@),
            r matches Some(inv) ==> mat_mul(self@, inv@) == mat_identity() && mat_mul(
                inv@,
                self@,
            ) == mat_identity(),
    {
        let det = self.determinant();

        if det != 1 && det != -1 {
            return None;
        }
        let m = TypedMatrix4D::row_major(
            self.m23 * self.m34 * self.m42 - self.m24 * self.m33 * self.m42
            + self.m24 * self.m32 * self.m43 - self.m22 * self.m34 * self.m43
            - self.m23 * self.m32 * self.m44 + self.m22 * self.m33 * self.m44,

            self.m14 * self.m33 * self.m42 - self.m13 * self.m34 * self.m42
            - self.m14 * self.m32 * self.m43 + self.m12 * self.m34 * self.m43
            + self.m13 * self.m32 * self.m44 - self.m12 * self.m33 * self.m44,

            self.m13 * self.m24 * self.m42 - self.m14 * self.m23 * self.m42
            + self.m14 * self.m22 * self.m43 - self.m12 * self.m24 * self.m43
            - self.m13 * self.m22 * self.m44 + self.m12 * self.m23 * self.m44,

            self.m14 * self.m23 * self.m32 - self.m13 * self.m24 * self.m32
            - self.m14 * self.m22 * self.m33 + self.m12 * self.m24 * self.m33
            + self.m13 * self.m22 * self.m34 - self.m12 * self.m23 * self.m34,

            self.m24 * self.m33 * self.m41 - self.m23 * self.m34 * self.m41
            - self.m24 * self.m31 * self.m43 + self.m21 * self.m34 * self.m43
            + self.m23 * self.m31 * self.m44 - self.m21 * self.m33 * self.m44,

            self.m13 * self.m34 * self.m41 - self.m14 * self.m33 * self.m41
            + self.m14 * self.m31 * self.m43 - self.m11 * self.m34 * self.m43
            - self.m13 * self.m31 * self.m44 + self.m11 * self.m33 * self.m44,

            self.m14 * self.m23 * self.m41 - self.m13 * self.m24 * self.m41
            - self.m14 * self.m21 * self.m43 + self.m11 * self.m24 * self.m43
            + self.m13 * self.m21 * self.m44 - self.m11 * self.m23 * self.m44,

            self.m13 * self.m24 * self.m31 - self.m14 * self.m23 * self.m31
            + self.m14 * self.m21 * self.m33 - self.m11 * self.m24 * self.m33
            - self.m13 * self.m21 * self.m34 + self.m11 * self.m23 * self.m34,

            self.m22 * self.m34 * self.m41 - self.m24 * self.m32 * self.m41
            + self.m24 * self.m31 * self.m42 - self.m21 * self.m34 * self.m42
            - self.m22 * self.m31 * self.m44 + self.m21 * self.m32 * self.m44,

            self.m14 * self.m32 * self.m41 - self.m12 * self.m34 * self.m41
            - self.m14 * self.m31 * self.m42 + self.m11 * self.m34 * self.m42
            + self.m12 * self.m31 * self.m44 - self.m11 * self.m32 * self.m44,

            self.m12 * self.m24 * self.m41 - self.m14 * self.m22 * self.m41
            + self.m14 * self.m21 * self.m42 - self.m11 * self.m24 * self.m42
            - self.m12 * self.m21 * self.m44 + self.m11 * self.m22 * self.m44,

            self.m14 * self.m22 * self.m31 - self.m12 * self.m24 * self.m31
            - self.m14 * self.m21 * self.m32 + self.m11 * self.m24 * self.m32
            + self.m12 * self.m21 * self.m34 - self.m11 * self.m22 * self.m34,

            self.m23 * self.m32 * self.m41 - self.m22 * self.m33 * self.m41
            - self.m23 * self.m31 * self.m42 + self.m21 * self.m33 * self.m42
            + self.m22 * self.m31 * self.m43 - self.m21 * self.m32 * self.m43,

            self.m12 * self.m33 * self.m41 - self.m13 * self.m32 * self.m41
            + self.m13 * self.m31 * self.m42 - self.m11 * self.m33 * self.m42
            - self.m12 * self.m31 * self.m43 + self.m11 * self.m32 * self.m43,

            self.m13 * self.m22 * self.m41 - self.m12 * self.m23 * self.m41
            - self.m13 * self.m21 * self.m42 + self.m11 * self.m23 * self.m42
            + self.m12 * self.m21 * self.m43 - self.m11 * self.m22 * self.m43,

            self.m12 * self.m23 * self.m31 - self.m13 * self.m22 * self.m31
            + self.m13 * self.m21 * self.m32 - self.m11 * self.m23 * self.m32
            - self.m12 * self.m21 * self.m33 + self.m11 * self.m22 * self.m33,
        );

        proof {
            lemma_inverse_is_inverse(self@);
        }
        Some(m.mul_s(det))
    }

    /// Computes the determinant of the matrix.
    pub fn determinant(&self) -> (r: i64)
        requires
            det_fits(self@),
        ensures
            r == mat_det(self@),
    {
        self.m14 * self.m23 * self.m32 * self.m41 - self.m13 * self.m24 * self.m32 * self.m41
        - self.m14 * self.m22 * self.m33 * self.m41 + self.m12 * self.m24 * self.m33 * self.m41
        + self.m13 * self.m22 * self.m34 * self.m41 - self.m12 * self.m23 * self.m34 * self.m41
        - self.m14 * self.m23 * self.m31 * self.m42 + self.m13 * self.m24 * self.m31 * self.m42
        + self.m14 * self.m21 * self.m33 * self.m42 - self.m11 * self.m24 * self.m33 * self.m42
        - self.m13 * self.m21 * self.m34 * self.m42 + self.m11 * self.m23 * self.m34 * self.m42
        + self.m14 * self.m22 * self.m31 * self.m43 - self.m12 * self.m24 * self.m31 * self.m43
        - self.m14 * self.m21 * self.m32 * self.m43 + self.m11 * self.m24 * self.m32 * self.m43
        + self.m12 * self.m21 * self.m34 * self.m43 - self.m11 * self.m22 * self.m34 * self.m43
        - self.m13 * self.m22 * self.m31 * self.m44 + self.m12 * self.m23 * self.m31 * self.m44
        + self.m13 * self.m21 * self.m32 * self.m44 - self.m11 * self.m23 * self.m32 * self.m44
        - self.m12 * self.m21 * self.m33 * self.m44 + self.m11 * self.m22 * self.m33 * self.m44
    }

    /// Multiplies all of the matrix's components by a scalar and returns the
    /// result.
    pub fn mul_s(&self, x: i64) -> (r: Self)
        requires
            scale_fits(self@, x as int),
        ensures
            r@ == mat_scale(self@, x as int),
    {
        TypedMatrix4D::row_major(
            self.m11 * x, self.m12 * x, self.m13 * x, self.m14 * x,
            self.m21 * x, self.m22 * x, self.m23 * x, self.m24 * x,
            self.m31 * x, self.m32 * x, self.m33 * x, self.m34 * x,
            self.m41 * x, self.m42 * x, self.m43 * x, self.m44 * x,
        )
    }

    /// Creates a scale matrix from a scale factor.
    pub fn from_scale_factor(scale: ScaleFactor<i64, Src, Dst>) -> (r: Self)
        ensures
            r@ == mat_scaling(scale.0 as int, scale.0 as int, scale.0 as int),
    {
        TypedMatrix4D::create_scale(scale.get(), scale.get(), scale.get())
    }

    /// Returns the given 2d point transformed by this matrix.
    ///
    /// The input point uses the unit `Src`, and the returned point has the
    /// unit `Dst`.
    pub fn transform_point(&self, p: &TypedPoint2D<i64, Src>) -> (r: TypedPoint2D<i64, Dst>)
        requires
            point_fits(self@, p.x as int, p.y as int, 0),
        ensures
            r.x == point_image(self@, p.x as int, p.y as int, 0).x,
            r.y == point_image(self@, p.x as int, p.y as int, 0).y,
    {
        self.transform_point4d(&TypedPoint4D::new(p.x, p.y, 0, 1)).to_2d()
    }

    /// Returns the given 3d point transformed by this matrix.
    ///
    /// The input point uses the unit `Src`, and the returned point has the
    /// unit `Dst`.
    pub fn transform_point3d(&self, p: &TypedPoint3D<i64, Src>) -> (r: TypedPoint3D<i64, Dst>)
        requires
            point_fits(self@, p.x as int, p.y as int, p.z as int),
        ensures
            r.x == point_image(self@, p.x as int, p.y as int, p.z as int).x,
            r.y == point_image(self@, p.x as int, p.y as int, p.z as int).y,
            r.z == point_image(self@, p.x as int, p.y as int, p.z as int).z,
    {
        self.transform_point4d(&TypedPoint4D::new(p.x, p.y, p.z, 1)).to_3d()
    }

    /// Returns the given 4d point transformed by this matrix: the point, as a
    /// row vector, times the matrix.
    ///
    /// The input point uses the unit `Src`, and the returned point has the
    /// unit `Dst`.
    pub fn transform_point4d(&self, p: &TypedPoint4D<i64, Src>) -> (r: TypedPoint4D<i64, Dst>)
        requires
            vec_fits(p@, self@),
        ensures
            r@ == vec_mul(p@, self@),
    {
        let x = p.x * self.m11 + p.y * self.m21 + p.z * self.m31 + p.w * self.m41;
        let y = p.x * self.m12 + p.y * self.m22 + p.z * self.m32 + p.w * self.m42;
        let z = p.x * self.m13 + p.y * self.m23 + p.z * self.m33 + p.w * self.m43;
        let w = p.x * self.m14 + p.y * self.m24 + p.z * self.m34 + p.w * self.m44;
        TypedPoint4D::new(x, y, z, w)
    }

    /// Creates a 3d translation matrix.
    pub fn create_translation(x: i64, y: i64, z: i64) -> (r: Self)
        ensures
            r@ == mat_translation(x as int, y as int, z as int),
    {
        let (_0, _1): (i64, i64) = (0, 1);
        TypedMatrix4D::row_major(
            _1, _0, _0, _0,
            _0, _1, _0, _0,
            _0, _0, _1, _0,
            x, y, z, _1,
        )
    }

    /// Returns a matrix with a translation applied before `self`'s
    /// transformation.
    pub fn pre_translated(&self, x: i64, y: i64, z: i64) -> (r: Self)
        requires
            mul_fits(mat_translation(x as int, y as int, z as int), self@),
        ensures
            r@ == mat_mul(mat_translation(x as int, y as int, z as int), self@),
    {
        self.pre_mul(&TypedMatrix4D::create_translation(x, y, z))
    }

    /// Returns a matrix with a translation applied after `self`'s
    /// transformation.
    pub fn post_translated(&self, x: i64, y: i64, z: i64) -> (r: Self)
        requires
            mul_fits(self@, mat_translation(x as int, y as int, z as int)),
        ensures
            r@ == mat_mul(self@, mat_translation(x as int, y as int, z as int)),
    {
        self.post_mul(&TypedMatrix4D::create_translation(x, y, z))
    }

    /// Creates a 3d scale matrix.
    pub fn create_scale(x: i64, y: i64, z: i64) -> (r: Self)
        ensures
            r@ == mat_scaling(x as int, y as int, z as int),
    {
        let (_0, _1): (i64, i64) = (0, 1);
        TypedMatrix4D::row_major(
            x, _0, _0, _0,
            _0, y, _0, _0,
            _0, _0, z, _0,
            _0, _0, _0, _1,
        )
    }

    /// Returns a matrix with a scale applied before `self`'s transformation.
    pub fn pre_scaled(&self, x: i64, y: i64, z: i64) -> (r: Self)
        requires
            mul_fits(mat_scaling(x as int, y as int, z as int), self@),
        ensures
            r@ == mat_mul(mat_scaling(x as int, y as int, z as int), self@),
    {
        self.pre_mul(&TypedMatrix4D::create_scale(x, y, z))
    }

    /// Returns a matrix with a scale applied after `self`'s transformation.
    pub fn post_scaled(&self, x: i64, y: i64, z: i64) -> (r: Self)
        requires
            mul_fits(self@, mat_scaling(x as int, y as int, z as int)),
        ensures
            r@ == mat_mul(self@, mat_scaling(x as int, y as int, z as int)),
    {
        self.post_mul(&TypedMatrix4D::create_scale(x, y, z))
    }
}

} // verus!
