//! The mathematical model of the library: matrices and vectors of unbounded
//! integers, the operations on them, and the conditions under which a
//! computation on `i64` entries stays in range.

use vstd::prelude::*;

verus! {

/// Whether an integer lies in the range of `i64`.
pub open spec fn in_i64(x: int) -> bool {
    i64::MIN <= x <= i64::MAX
}

/// A 4 by 4 matrix of integers; `mij` is the entry in row `i` and column `j`.
pub struct Mat4 {
    pub m11: int,
    pub m12: int,
    pub m13: int,
    pub m14: int,
    pub m21: int,
    pub m22: int,
    pub m23: int,
    pub m24: int,
    pub m31: int,
    pub m32: int,
    pub m33: int,
    pub m34: int,
    pub m41: int,
    pub m42: int,
    pub m43: int,
    pub m44: int,
}

/// A homogeneous vector of integers.
pub struct Vec4 {
    pub x: int,
    pub y: int,
    pub z: int,
    pub w: int,
}

/// The identity matrix.
pub open spec fn mat_identity() -> Mat4 {
    Mat4 {
        m11: 1,
        m12: 0,
        m13: 0,
        m14: 0,
        m21: 0,
        m22: 1,
        m23: 0,
        m24: 0,
        m31: 0,
        m32: 0,
        m33: 1,
        m34: 0,
        m41: 0,
        m42: 0,
        m43: 0,
        m44: 1,
    }
}

/// The matrix product `a * b`: row `i` of `a` against column `j` of `b`.
pub open spec fn mat_mul(a: Mat4, b: Mat4) -> Mat4 {
    Mat4 {
        m11: a.m11 * b.m11 + a.m12 * b.m21 + a.m13 * b.m31 + a.m14 * b.m41,
        m12: a.m11 * b.m12 + a.m12 * b.m22 + a.m13 * b.m32 + a.m14 * b.m42,
        m13: a.m11 * b.m13 + a.m12 * b.m23 + a.m13 * b.m33 + a.m14 * b.m43,
        m14: a.m11 * b.m14 + a.m12 * b.m24 + a.m13 * b.m34 + a.m14 * b.m44,
        m21: a.m21 * b.m11 + a.m22 * b.m21 + a.m23 * b.m31 + a.m24 * b.m41,
        m22: a.m21 * b.m12 + a.m22 * b.m22 + a.m23 * b.m32 + a.m24 * b.m42,
        m23: a.m21 * b.m13 + a.m22 * b.m23 + a.m23 * b.m33 + a.m24 * b.m43,
        m24: a.m21 * b.m14 + a.m22 * b.m24 + a.m23 * b.m34 + a.m24 * b.m44,
        m31: a.m31 * b.m11 + a.m32 * b.m21 + a.m33 * b.m31 + a.m34 * b.m41,
        m32: a.m31 * b.m12 + a.m32 * b.m22 + a.m33 * b.m32 + a.m34 * b.m42,
        m33: a.m31 * b.m13 + a.m32 * b.m23 + a.m33 * b.m33 + a.m34 * b.m43,
        m34: a.m31 * b.m14 + a.m32 * b.m24 + a.m33 * b.m34 + a.m34 * b.m44,
        m41: a.m41 * b.m11 + a.m42 * b.m21 + a.m43 * b.m31 + a.m44 * b.m41,
        m42: a.m41 * b.m12 + a.m42 * b.m22 + a.m43 * b.m32 + a.m44 * b.m42,
        m43: a.m41 * b.m13 + a.m42 * b.m23 + a.m43 * b.m33 + a.m44 * b.m43,
        m44: a.m41 * b.m14 + a.m42 * b.m24 + a.m43 * b.m34 + a.m44 * b.m44,
    }
}

/// The transpose: rows become columns.
pub open spec fn mat_transpose(m: Mat4) -> Mat4 {
    Mat4 {
        m11: m.m11,
        m12: m.m21,
        m13: m.m31,
        m14: m.m41,
        m21: m.m12,
        m22: m.m22,
        m23: m.m32,
        m24: m.m42,
        m31: m.m13,
        m32: m.m23,
        m33: m.m33,
        m34: m.m43,
        m41: m.m14,
        m42: m.m24,
        m43: m.m34,
        m44: m.m44,
    }
}

/// Every entry of `a` multiplied by `k`.
pub open spec fn mat_scale(a: Mat4, k: int) -> Mat4 {
    Mat4 {
        m11: a.m11 * k,
        m12: a.m12 * k,
        m13: a.m13 * k,
        m14: a.m14 * k,
        m21: a.m21 * k,
        m22: a.m22 * k,
        m23: a.m23 * k,
        m24: a.m24 * k,
        m31: a.m31 * k,
        m32: a.m32 * k,
        m33: a.m33 * k,
        m34: a.m34 * k,
        m41: a.m41 * k,
        m42: a.m42 * k,
        m43: a.m43 * k,
        m44: a.m44 * k,
    }
}

/// The row vector `v` multiplied by the matrix `m`.
pub open spec fn vec_mul(v: Vec4, m: Mat4) -> Vec4 {
    Vec4 {
        x: v.x * m.m11 + v.y * m.m21 + v.z * m.m31 + v.w * m.m41,
        y: v.x * m.m12 + v.y * m.m22 + v.z * m.m32 + v.w * m.m42,
        z: v.x * m.m13 + v.y * m.m23 + v.z * m.m33 + v.w * m.m43,
        w: v.x * m.m14 + v.y * m.m24 + v.z * m.m34 + v.w * m.m44,
    }
}

/// The image of the point `(x, y, z)`, taken with `w = 1`, under `m`.
pub open spec fn point_image(m: Mat4, x: int, y: int, z: int) -> Vec4 {
    vec_mul(Vec4 { x, y, z, w: 1 }, m)
}

/// The translation by `(x, y, z)`, in the row-vector convention.
pub open spec fn mat_translation(x: int, y: int, z: int) -> Mat4 {
    Mat4 {
        m11: 1,
        m12: 0,
        m13: 0,
        m14: 0,
        m21: 0,
        m22: 1,
        m23: 0,
        m24: 0,
        m31: 0,
        m32: 0,
        m33: 1,
        m34: 0,
        m41: x,
        m42: y,
        m43: z,
        m44: 1,
    }
}

/// The scale by `x`, `y` and `z` along the three axes.
pub open spec fn mat_scaling(x: int, y: int, z: int) -> Mat4 {
    Mat4 {
        m11: x,
        m12: 0,
        m13: 0,
        m14: 0,
        m21: 0,
        m22: y,
        m23: 0,
        m24: 0,
        m31: 0,
        m32: 0,
        m33: z,
        m34: 0,
        m41: 0,
        m42: 0,
        m43: 0,
        m44: 1,
    }
}

/// The 4 by 4 matrix of a 2d transformation whose 2d terms are given in
/// row-major order.
pub open spec fn mat_from_2d(m11: int, m12: int, m21: int, m22: int, m41: int, m42: int) -> Mat4 {
    Mat4 {
        m11: m11,
        m12: m12,
        m13: 0,
        m14: 0,
        m21: m21,
        m22: m22,
        m23: 0,
        m24: 0,
        m31: 0,
        m32: 0,
        m33: 1,
        m34: 0,
        m41: m41,
        m42: m42,
        m43: 0,
        m44: 1,
    }
}

/// Whether `m` only moves points within the plane `z = 0`, keeping `w`:
/// the terms that a 2d matrix does not have are those of the identity.
pub open spec fn mat_is_2d(m: Mat4) -> bool {
    &&& m.m31 == 0
    &&& m.m32 == 0
    &&& m.m13 == 0
    &&& m.m23 == 0
    &&& m.m43 == 0
    &&& m.m14 == 0
    &&& m.m24 == 0
    &&& m.m34 == 0
    &&& m.m33 == 1
    &&& m.m44 == 1
}

/// The determinant, as the sum over the 24 permutations of four columns.
pub open spec fn mat_det(m: Mat4) -> int {
    m.m14 * m.m23 * m.m32 * m.m41 - m.m13 * m.m24 * m.m32 * m.m41
    - m.m14 * m.m22 * m.m33 * m.m41 + m.m12 * m.m24 * m.m33 * m.m41
    + m.m13 * m.m22 * m.m34 * m.m41 - m.m12 * m.m23 * m.m34 * m.m41
    - m.m14 * m.m23 * m.m31 * m.m42 + m.m13 * m.m24 * m.m31 * m.m42
    + m.m14 * m.m21 * m.m33 * m.m42 - m.m11 * m.m24 * m.m33 * m.m42
    - m.m13 * m.m21 * m.m34 * m.m42 + m.m11 * m.m23 * m.m34 * m.m42
    + m.m14 * m.m22 * m.m31 * m.m43 - m.m12 * m.m24 * m.m31 * m.m43
    - m.m14 * m.m21 * m.m32 * m.m43 + m.m11 * m.m24 * m.m32 * m.m43
    + m.m12 * m.m21 * m.m34 * m.m43 - m.m11 * m.m22 * m.m34 * m.m43
    - m.m13 * m.m22 * m.m31 * m.m44 + m.m12 * m.m23 * m.m31 * m.m44
    + m.m13 * m.m21 * m.m32 * m.m44 - m.m11 * m.m23 * m.m32 * m.m44
    - m.m12 * m.m21 * m.m33 * m.m44 + m.m11 * m.m22 * m.m33 * m.m44
}

/// The determinant of the 3 by 3 matrix with the rows `(a11, a12, a13)`,
/// `(a21, a22, a23)` and `(a31, a32, a33)`.
pub open spec fn det3(
    a11: int, a12: int, a13: int,
    a21: int, a22: int, a23: int,
    a31: int, a32: int, a33: int,
) -> int {
    a11 * a22 * a33 + a12 * a23 * a31 + a13 * a21 * a32 - a13 * a22 * a31 - a12 * a21 * a33
        - a11 * a23 * a32
}

/// The adjugate: the entry in row `i` and column `j` is the cofactor of the
/// entry in row `j` and column `i`, the determinant of the 3 by 3 matrix left
/// without row `j` and column `i`, negated when `i + j` is odd.
pub open spec fn mat_adjugate(m: Mat4) -> Mat4 {
    Mat4 {
        m11: det3(m.m22, m.m23, m.m24, m.m32, m.m33, m.m34, m.m42, m.m43, m.m44),
        m12: -det3(m.m12, m.m13, m.m14, m.m32, m.m33, m.m34, m.m42, m.m43, m.m44),
        m13: det3(m.m12, m.m13, m.m14, m.m22, m.m23, m.m24, m.m42, m.m43, m.m44),
        m14: -det3(m.m12, m.m13, m.m14, m.m22, m.m23, m.m24, m.m32, m.m33, m.m34),
        m21: -det3(m.m21, m.m23, m.m24, m.m31, m.m33, m.m34, m.m41, m.m43, m.m44),
        m22: det3(m.m11, m.m13, m.m14, m.m31, m.m33, m.m34, m.m41, m.m43, m.m44),
        m23: -det3(m.m11, m.m13, m.m14, m.m21, m.m23, m.m24, m.m41, m.m43, m.m44),
        m24: det3(m.m11, m.m13, m.m14, m.m21, m.m23, m.m24, m.m31, m.m33, m.m34),
        m31: det3(m.m21, m.m22, m.m24, m.m31, m.m32, m.m34, m.m41, m.m42, m.m44),
        m32: -det3(m.m11, m.m12, m.m14, m.m31, m.m32, m.m34, m.m41, m.m42, m.m44),
        m33: det3(m.m11, m.m12, m.m14, m.m21, m.m22, m.m24, m.m41, m.m42, m.m44),
        m34: -det3(m.m11, m.m12, m.m14, m.m21, m.m22, m.m24, m.m31, m.m32, m.m34),
        m41: -det3(m.m21, m.m22, m.m23, m.m31, m.m32, m.m33, m.m41, m.m42, m.m43),
        m42: det3(m.m11, m.m12, m.m13, m.m31, m.m32, m.m33, m.m41, m.m42, m.m43),
        m43: -det3(m.m11, m.m12, m.m13, m.m21, m.m22, m.m23, m.m41, m.m42, m.m43),
        m44: det3(m.m11, m.m12, m.m13, m.m21, m.m22, m.m23, m.m31, m.m32, m.m33),
    }
}

/// The inverse with integer terms, which exists exactly when the
/// determinant is 1 or -1: the adjugate divided by the determinant.
pub open spec fn mat_inverse(m: Mat4) -> Option<Mat4> {
    if mat_det(m) == 1 || mat_det(m) == -1 {
        Some(mat_scale(mat_adjugate(m), mat_det(m)))
    } else {
        None
    }
}

/// Every product and partial sum of `a * b`, summed from the left, is an `i64`.
pub open spec fn mul_fits(a: Mat4, b: Mat4) -> bool {
    &&& (in_i64(a.m11 * b.m11) && in_i64(a.m12 * b.m21) && in_i64(a.m11 * b.m11 + a.m12 * b.m21)
            && in_i64(a.m13 * b.m31) && in_i64(a.m11 * b.m11 + a.m12 * b.m21 + a.m13 * b.m31)
            && in_i64(a.m14 * b.m41) && in_i64(a.m11 * b.m11 + a.m12 * b.m21 + a.m13 * b.m31 + a.m14 * b.m41))
    &&& (in_i64(a.m11 * b.m12) && in_i64(a.m12 * b.m22) && in_i64(a.m11 * b.m12 + a.m12 * b.m22)
            && in_i64(a.m13 * b.m32) && in_i64(a.m11 * b.m12 + a.m12 * b.m22 + a.m13 * b.m32)
            && in_i64(a.m14 * b.m42) && in_i64(a.m11 * b.m12 + a.m12 * b.m22 + a.m13 * b.m32 + a.m14 * b.m42))
    &&& (in_i64(a.m11 * b.m13) && in_i64(a.m12 * b.m23) && in_i64(a.m11 * b.m13 + a.m12 * b.m23)
            && in_i64(a.m13 * b.m33) && in_i64(a.m11 * b.m13 + a.m12 * b.m23 + a.m13 * b.m33)
            && in_i64(a.m14 * b.m43) && in_i64(a.m11 * b.m13 + a.m12 * b.m23 + a.m13 * b.m33 + a.m14 * b.m43))
    &&& (in_i64(a.m11 * b.m14) && in_i64(a.m12 * b.m24) && in_i64(a.m11 * b.m14 + a.m12 * b.m24)
            && in_i64(a.m13 * b.m34) && in_i64(a.m11 * b.m14 + a.m12 * b.m24 + a.m13 * b.m34)
            && in_i64(a.m14 * b.m44) && in_i64(a.m11 * b.m14 + a.m12 * b.m24 + a.m13 * b.m34 + a.m14 * b.m44))
    &&& (in_i64(a.m21 * b.m11) && in_i64(a.m22 * b.m21) && in_i64(a.m21 * b.m11 + a.m22 * b.m21)
            && in_i64(a.m23 * b.m31) && in_i64(a.m21 * b.m11 + a.m22 * b.m21 + a.m23 * b.m31)
            && in_i64(a.m24 * b.m41) && in_i64(a.m21 * b.m11 + a.m22 * b.m21 + a.m23 * b.m31 + a.m24 * b.m41))
    &&& (in_i64(a.m21 * b.m12) && in_i64(a.m22 * b.m22) && in_i64(a.m21 * b.m12 + a.m22 * b.m22)
            && in_i64(a.m23 * b.m32) && in_i64(a.m21 * b.m12 + a.m22 * b.m22 + a.m23 * b.m32)
            && in_i64(a.m24 * b.m42) && in_i64(a.m21 * b.m12 + a.m22 * b.m22 + a.m23 * b.m32 + a.m24 * b.m42))
    &&& (in_i64(a.m21 * b.m13) && in_i64(a.m22 * b.m23) && in_i64(a.m21 * b.m13 + a.m22 * b.m23)
            && in_i64(a.m23 * b.m33) && in_i64(a.m21 * b.m13 + a.m22 * b.m23 + a.m23 * b.m33)
            && in_i64(a.m24 * b.m43) && in_i64(a.m21 * b.m13 + a.m22 * b.m23 + a.m23 * b.m33 + a.m24 * b.m43))
    &&& (in_i64(a.m21 * b.m14) && in_i64(a.m22 * b.m24) && in_i64(a.m21 * b.m14 + a.m22 * b.m24)
            && in_i64(a.m23 * b.m34) && in_i64(a.m21 * b.m14 + a.m22 * b.m24 + a.m23 * b.m34)
            && in_i64(a.m24 * b.m44) && in_i64(a.m21 * b.m14 + a.m22 * b.m24 + a.m23 * b.m34 + a.m24 * b.m44))
    &&& (in_i64(a.m31 * b.m11) && in_i64(a.m32 * b.m21) && in_i64(a.m31 * b.m11 + a.m32 * b.m21)
            && in_i64(a.m33 * b.m31) && in_i64(a.m31 * b.m11 + a.m32 * b.m21 + a.m33 * b.m31)
            && in_i64(a.m34 * b.m41) && in_i64(a.m31 * b.m11 + a.m32 * b.m21 + a.m33 * b.m31 + a.m34 * b.m41))
    &&& (in_i64(a.m31 * b.m12) && in_i64(a.m32 * b.m22) && in_i64(a.m31 * b.m12 + a.m32 * b.m22)
            && in_i64(a.m33 * b.m32) && in_i64(a.m31 * b.m12 + a.m32 * b.m22 + a.m33 * b.m32)
            && in_i64(a.m34 * b.m42) && in_i64(a.m31 * b.m12 + a.m32 * b.m22 + a.m33 * b.m32 + a.m34 * b.m42))
    &&& (in_i64(a.m31 * b.m13) && in_i64(a.m32 * b.m23) && in_i64(a.m31 * b.m13 + a.m32 * b.m23)
            && in_i64(a.m33 * b.m33) && in_i64(a.m31 * b.m13 + a.m32 * b.m23 + a.m33 * b.m33)
            && in_i64(a.m34 * b.m43) && in_i64(a.m31 * b.m13 + a.m32 * b.m23 + a.m33 * b.m33 + a.m34 * b.m43))
    &&& (in_i64(a.m31 * b.m14) && in_i64(a.m32 * b.m24) && in_i64(a.m31 * b.m14 + a.m32 * b.m24)
            && in_i64(a.m33 * b.m34) && in_i64(a.m31 * b.m14 + a.m32 * b.m24 + a.m33 * b.m34)
            && in_i64(a.m34 * b.m44) && in_i64(a.m31 * b.m14 + a.m32 * b.m24 + a.m33 * b.m34 + a.m34 * b.m44))
    &&& (in_i64(a.m41 * b.m11) && in_i64(a.m42 * b.m21) && in_i64(a.m41 * b.m11 + a.m42 * b.m21)
            && in_i64(a.m43 * b.m31) && in_i64(a.m41 * b.m11 + a.m42 * b.m21 + a.m43 * b.m31)
            && in_i64(a.m44 * b.m41) && in_i64(a.m41 * b.m11 + a.m42 * b.m21 + a.m43 * b.m31 + a.m44 * b.m41))
    &&& (in_i64(a.m41 * b.m12) && in_i64(a.m42 * b.m22) && in_i64(a.m41 * b.m12 + a.m42 * b.m22)
            && in_i64(a.m43 * b.m32) && in_i64(a.m41 * b.m12 + a.m42 * b.m22 + a.m43 * b.m32)
            && in_i64(a.m44 * b.m42) && in_i64(a.m41 * b.m12 + a.m42 * b.m22 + a.m43 * b.m32 + a.m44 * b.m42))
    &&& (in_i64(a.m41 * b.m13) && in_i64(a.m42 * b.m23) && in_i64(a.m41 * b.m13 + a.m42 * b.m23)
            && in_i64(a.m43 * b.m33) && in_i64(a.m41 * b.m13 + a.m42 * b.m23 + a.m43 * b.m33)
            && in_i64(a.m44 * b.m43) && in_i64(a.m41 * b.m13 + a.m42 * b.m23 + a.m43 * b.m33 + a.m44 * b.m43))
    &&& (in_i64(a.m41 * b.m14) && in_i64(a.m42 * b.m24) && in_i64(a.m41 * b.m14 + a.m42 * b.m24)
            && in_i64(a.m43 * b.m34) && in_i64(a.m41 * b.m14 + a.m42 * b.m24 + a.m43 * b.m34)
            && in_i64(a.m44 * b.m44) && in_i64(a.m41 * b.m14 + a.m42 * b.m24 + a.m43 * b.m34 + a.m44 * b.m44))
}

/// Every entry of `a` times `k` is an `i64`.
pub open spec fn scale_fits(a: Mat4, k: int) -> bool {
    &&& in_i64(a.m11 * k)
    &&& in_i64(a.m12 * k)
    &&& in_i64(a.m13 * k)
    &&& in_i64(a.m14 * k)
    &&& in_i64(a.m21 * k)
    &&& in_i64(a.m22 * k)
    &&& in_i64(a.m23 * k)
    &&& in_i64(a.m24 * k)
    &&& in_i64(a.m31 * k)
    &&& in_i64(a.m32 * k)
    &&& in_i64(a.m33 * k)
    &&& in_i64(a.m34 * k)
    &&& in_i64(a.m41 * k)
    &&& in_i64(a.m42 * k)
    &&& in_i64(a.m43 * k)
    &&& in_i64(a.m44 * k)
}

/// Every product and partial sum of the row vector `v` times `m`, summed
/// from the left, is an `i64`.
pub open spec fn vec_fits(v: Vec4, m: Mat4) -> bool {
    &&& (in_i64(v.x * m.m11) && in_i64(v.y * m.m21) && in_i64(v.x * m.m11 + v.y * m.m21)
        && in_i64(v.z * m.m31) && in_i64(v.x * m.m11 + v.y * m.m21 + v.z * m.m31)
        && in_i64(v.w * m.m41) && in_i64(v.x * m.m11 + v.y * m.m21 + v.z * m.m31 + v.w * m.m41))
    &&& (in_i64(v.x * m.m12) && in_i64(v.y * m.m22) && in_i64(v.x * m.m12 + v.y * m.m22)
        && in_i64(v.z * m.m32) && in_i64(v.x * m.m12 + v.y * m.m22 + v.z * m.m32)
        && in_i64(v.w * m.m42) && in_i64(v.x * m.m12 + v.y * m.m22 + v.z * m.m32 + v.w * m.m42))
    &&& (in_i64(v.x * m.m13) && in_i64(v.y * m.m23) && in_i64(v.x * m.m13 + v.y * m.m23)
        && in_i64(v.z * m.m33) && in_i64(v.x * m.m13 + v.y * m.m23 + v.z * m.m33)
        && in_i64(v.w * m.m43) && in_i64(v.x * m.m13 + v.y * m.m23 + v.z * m.m33 + v.w * m.m43))
    &&& (in_i64(v.x * m.m14) && in_i64(v.y * m.m24) && in_i64(v.x * m.m14 + v.y * m.m24)
        && in_i64(v.z * m.m34) && in_i64(v.x * m.m14 + v.y * m.m24 + v.z * m.m34)
        && in_i64(v.w * m.m44) && in_i64(v.x * m.m14 + v.y * m.m24 + v.z * m.m34 + v.w * m.m44))
}

/// Every product and partial sum of the image of `(x, y, z)`, taken with
/// `w = 1`, under `m` is an `i64`.
pub open spec fn point_fits(m: Mat4, x: int, y: int, z: int) -> bool {
    vec_fits(Vec4 { x, y, z, w: 1 }, m)
}

/// Every product and partial sum of the determinant, computed from the left
/// in the order of `mat_det`, is an `i64`.
pub open spec fn det_fits(m: Mat4) -> bool {
    let d_t1_2 = m.m14 * m.m23;
    let d_t1_3 = d_t1_2 * m.m32;
    let d_t1_4 = d_t1_3 * m.m41;
    let d_t2_2 = m.m13 * m.m24;
    let d_t2_3 = d_t2_2 * m.m32;
    let d_t2_4 = d_t2_3 * m.m41;
    let d_t3_2 = m.m14 * m.m22;
    let d_t3_3 = d_t3_2 * m.m33;
    let d_t3_4 = d_t3_3 * m.m41;
    let d_t4_2 = m.m12 * m.m24;
    let d_t4_3 = d_t4_2 * m.m33;
    let d_t4_4 = d_t4_3 * m.m41;
    let d_t5_2 = m.m13 * m.m22;
    let d_t5_3 = d_t5_2 * m.m34;
    let d_t5_4 = d_t5_3 * m.m41;
    let d_t6_2 = m.m12 * m.m23;
    let d_t6_3 = d_t6_2 * m.m34;
    let d_t6_4 = d_t6_3 * m.m41;
    let d_t7_2 = m.m14 * m.m23;
    let d_t7_3 = d_t7_2 * m.m31;
    let d_t7_4 = d_t7_3 * m.m42;
    let d_t8_2 = m.m13 * m.m24;
    let d_t8_3 = d_t8_2 * m.m31;
    let d_t8_4 = d_t8_3 * m.m42;
    let d_t9_2 = m.m14 * m.m21;
    let d_t9_3 = d_t9_2 * m.m33;
    let d_t9_4 = d_t9_3 * m.m42;
    let d_t10_2 = m.m11 * m.m24;
    let d_t10_3 = d_t10_2 * m.m33;
    let d_t10_4 = d_t10_3 * m.m42;
    let d_t11_2 = m.m13 * m.m21;
    let d_t11_3 = d_t11_2 * m.m34;
    let d_t11_4 = d_t11_3 * m.m42;
    let d_t12_2 = m.m11 * m.m23;
    let d_t12_3 = d_t12_2 * m.m34;
    let d_t12_4 = d_t12_3 * m.m42;
    let d_t13_2 = m.m14 * m.m22;
    let d_t13_3 = d_t13_2 * m.m31;
    let d_t13_4 = d_t13_3 * m.m43;
    let d_t14_2 = m.m12 * m.m24;
    let d_t14_3 = d_t14_2 * m.m31;
    let d_t14_4 = d_t14_3 * m.m43;
    let d_t15_2 = m.m14 * m.m21;
    let d_t15_3 = d_t15_2 * m.m32;
    let d_t15_4 = d_t15_3 * m.m43;
    let d_t16_2 = m.m11 * m.m24;
    let d_t16_3 = d_t16_2 * m.m32;
    let d_t16_4 = d_t16_3 * m.m43;
    let d_t17_2 = m.m12 * m.m21;
    let d_t17_3 = d_t17_2 * m.m34;
    let d_t17_4 = d_t17_3 * m.m43;
    let d_t18_2 = m.m11 * m.m22;
    let d_t18_3 = d_t18_2 * m.m34;
    let d_t18_4 = d_t18_3 * m.m43;
    let d_t19_2 = m.m13 * m.m22;
    let d_t19_3 = d_t19_2 * m.m31;
    let d_t19_4 = d_t19_3 * m.m44;
    let d_t20_2 = m.m12 * m.m23;
    let d_t20_3 = d_t20_2 * m.m31;
    let d_t20_4 = d_t20_3 * m.m44;
    let d_t21_2 = m.m13 * m.m21;
    let d_t21_3 = d_t21_2 * m.m32;
    let d_t21_4 = d_t21_3 * m.m44;
    let d_t22_2 = m.m11 * m.m23;
    let d_t22_3 = d_t22_2 * m.m32;
    let d_t22_4 = d_t22_3 * m.m44;
    let d_t23_2 = m.m12 * m.m21;
    let d_t23_3 = d_t23_2 * m.m33;
    let d_t23_4 = d_t23_3 * m.m44;
    let d_t24_2 = m.m11 * m.m22;
    let d_t24_3 = d_t24_2 * m.m33;
    let d_t24_4 = d_t24_3 * m.m44;
    let d_s2 = d_t1_4 - d_t2_4;
    let d_s3 = d_s2 - d_t3_4;
    let d_s4 = d_s3 + d_t4_4;
    let d_s5 = d_s4 + d_t5_4;
    let d_s6 = d_s5 - d_t6_4;
    let d_s7 = d_s6 - d_t7_4;
    let d_s8 = d_s7 + d_t8_4;
    let d_s9 = d_s8 + d_t9_4;
    let d_s10 = d_s9 - d_t10_4;
    let d_s11 = d_s10 - d_t11_4;
    let d_s12 = d_s11 + d_t12_4;
    let d_s13 = d_s12 + d_t13_4;
    let d_s14 = d_s13 - d_t14_4;
    let d_s15 = d_s14 - d_t15_4;
    let d_s16 = d_s15 + d_t16_4;
    let d_s17 = d_s16 + d_t17_4;
    let d_s18 = d_s17 - d_t18_4;
    let d_s19 = d_s18 - d_t19_4;
    let d_s20 = d_s19 + d_t20_4;
    let d_s21 = d_s20 + d_t21_4;
    let d_s22 = d_s21 - d_t22_4;
    let d_s23 = d_s22 - d_t23_4;
    let d_s24 = d_s23 + d_t24_4;
    &&& in_i64(d_t1_2)
    &&& in_i64(d_t1_3)
    &&& in_i64(d_t1_4)
    &&& in_i64(d_t2_2)
    &&& in_i64(d_t2_3)
    &&& in_i64(d_t2_4)
    &&& in_i64(d_t3_2)
    &&& in_i64(d_t3_3)
    &&& in_i64(d_t3_4)
    &&& in_i64(d_t4_2)
    &&& in_i64(d_t4_3)
    &&& in_i64(d_t4_4)
    &&& in_i64(d_t5_2)
    &&& in_i64(d_t5_3)
    &&& in_i64(d_t5_4)
    &&& in_i64(d_t6_2)
    &&& in_i64(d_t6_3)
    &&& in_i64(d_t6_4)
    &&& in_i64(d_t7_2)
    &&& in_i64(d_t7_3)
    &&& in_i64(d_t7_4)
    &&& in_i64(d_t8_2)
    &&& in_i64(d_t8_3)
    &&& in_i64(d_t8_4)
    &&& in_i64(d_t9_2)
    &&& in_i64(d_t9_3)
    &&& in_i64(d_t9_4)
    &&& in_i64(d_t10_2)
    &&& in_i64(d_t10_3)
    &&& in_i64(d_t10_4)
    &&& in_i64(d_t11_2)
    &&& in_i64(d_t11_3)
    &&& in_i64(d_t11_4)
    &&& in_i64(d_t12_2)
    &&& in_i64(d_t12_3)
    &&& in_i64(d_t12_4)
    &&& in_i64(d_t13_2)
    &&& in_i64(d_t13_3)
    &&& in_i64(d_t13_4)
    &&& in_i64(d_t14_2)
    &&& in_i64(d_t14_3)
    &&& in_i64(d_t14_4)
    &&& in_i64(d_t15_2)
    &&& in_i64(d_t15_3)
    &&& in_i64(d_t15_4)
    &&& in_i64(d_t16_2)
    &&& in_i64(d_t16_3)
    &&& in_i64(d_t16_4)
    &&& in_i64(d_t17_2)
    &&& in_i64(d_t17_3)
    &&& in_i64(d_t17_4)
    &&& in_i64(d_t18_2)
    &&& in_i64(d_t18_3)
    &&& in_i64(d_t18_4)
    &&& in_i64(d_t19_2)
    &&& in_i64(d_t19_3)
    &&& in_i64(d_t19_4)
    &&& in_i64(d_t20_2)
    &&& in_i64(d_t20_3)
    &&& in_i64(d_t20_4)
    &&& in_i64(d_t21_2)
    &&& in_i64(d_t21_3)
    &&& in_i64(d_t21_4)
    &&& in_i64(d_t22_2)
    &&& in_i64(d_t22_3)
    &&& in_i64(d_t22_4)
    &&& in_i64(d_t23_2)
    &&& in_i64(d_t23_3)
    &&& in_i64(d_t23_4)
    &&& in_i64(d_t24_2)
    &&& in_i64(d_t24_3)
    &&& in_i64(d_t24_4)
    &&& in_i64(d_s2)
    &&& in_i64(d_s3)
    &&& in_i64(d_s4)
    &&& in_i64(d_s5)
    &&& in_i64(d_s6)
    &&& in_i64(d_s7)
    &&& in_i64(d_s8)
    &&& in_i64(d_s9)
    &&& in_i64(d_s10)
    &&& in_i64(d_s11)
    &&& in_i64(d_s12)
    &&& in_i64(d_s13)
    &&& in_i64(d_s14)
    &&& in_i64(d_s15)
    &&& in_i64(d_s16)
    &&& in_i64(d_s17)
    &&& in_i64(d_s18)
    &&& in_i64(d_s19)
    &&& in_i64(d_s20)
    &&& in_i64(d_s21)
    &&& in_i64(d_s22)
    &&& in_i64(d_s23)
    &&& in_i64(d_s24)
}

/// Every product and partial sum of the adjugate's entries, computed from the
/// left in the order of `mat_adjugate`, is an `i64`.
pub open spec fn adjugate_fits(m: Mat4) -> bool {
    let a11_t1_2 = m.m23 * m.m34;
    let a11_t1_3 = a11_t1_2 * m.m42;
    let a11_t2_2 = m.m24 * m.m33;
    let a11_t2_3 = a11_t2_2 * m.m42;
    let a11_t3_2 = m.m24 * m.m32;
    let a11_t3_3 = a11_t3_2 * m.m43;
    let a11_t4_2 = m.m22 * m.m34;
    let a11_t4_3 = a11_t4_2 * m.m43;
    let a11_t5_2 = m.m23 * m.m32;
    let a11_t5_3 = a11_t5_2 * m.m44;
    let a11_t6_2 = m.m22 * m.m33;
    let a11_t6_3 = a11_t6_2 * m.m44;
    let a11_s2 = a11_t1_3 - a11_t2_3;
    let a11_s3 = a11_s2 + a11_t3_3;
    let a11_s4 = a11_s3 - a11_t4_3;
    let a11_s5 = a11_s4 - a11_t5_3;
    let a11_s6 = a11_s5 + a11_t6_3;
    let a12_t1_2 = m.m14 * m.m33;
    let a12_t1_3 = a12_t1_2 * m.m42;
    let a12_t2_2 = m.m13 * m.m34;
    let a12_t2_3 = a12_t2_2 * m.m42;
    let a12_t3_2 = m.m14 * m.m32;
    let a12_t3_3 = a12_t3_2 * m.m43;
    let a12_t4_2 = m.m12 * m.m34;
    let a12_t4_3 = a12_t4_2 * m.m43;
    let a12_t5_2 = m.m13 * m.m32;
    let a12_t5_3 = a12_t5_2 * m.m44;
    let a12_t6_2 = m.m12 * m.m33;
    let a12_t6_3 = a12_t6_2 * m.m44;
    let a12_s2 = a12_t1_3 - a12_t2_3;
    let a12_s3 = a12_s2 - a12_t3_3;
    let a12_s4 = a12_s3 + a12_t4_3;
    let a12_s5 = a12_s4 + a12_t5_3;
    let a12_s6 = a12_s5 - a12_t6_3;
    let a13_t1_2 = m.m13 * m.m24;
    let a13_t1_3 = a13_t1_2 * m.m42;
    let a13_t2_2 = m.m14 * m.m23;
    let a13_t2_3 = a13_t2_2 * m.m42;
    let a13_t3_2 = m.m14 * m.m22;
    let a13_t3_3 = a13_t3_2 * m.m43;
    let a13_t4_2 = m.m12 * m.m24;
    let a13_t4_3 = a13_t4_2 * m.m43;
    let a13_t5_2 = m.m13 * m.m22;
    let a13_t5_3 = a13_t5_2 * m.m44;
    let a13_t6_2 = m.m12 * m.m23;
    let a13_t6_3 = a13_t6_2 * m.m44;
    let a13_s2 = a13_t1_3 - a13_t2_3;
    let a13_s3 = a13_s2 + a13_t3_3;
    let a13_s4 = a13_s3 - a13_t4_3;
    let a13_s5 = a13_s4 - a13_t5_3;
    let a13_s6 = a13_s5 + a13_t6_3;
    let a14_t1_2 = m.m14 * m.m23;
    let a14_t1_3 = a14_t1_2 * m.m32;
    let a14_t2_2 = m.m13 * m.m24;
    let a14_t2_3 = a14_t2_2 * m.m32;
    let a14_t3_2 = m.m14 * m.m22;
    let a14_t3_3 = a14_t3_2 * m.m33;
    let a14_t4_2 = m.m12 * m.m24;
    let a14_t4_3 = a14_t4_2 * m.m33;
    let a14_t5_2 = m.m13 * m.m22;
    let a14_t5_3 = a14_t5_2 * m.m34;
    let a14_t6_2 = m.m12 * m.m23;
    let a14_t6_3 = a14_t6_2 * m.m34;
    let a14_s2 = a14_t1_3 - a14_t2_3;
    let a14_s3 = a14_s2 - a14_t3_3;
    let a14_s4 = a14_s3 + a14_t4_3;
    let a14_s5 = a14_s4 + a14_t5_3;
    let a14_s6 = a14_s5 - a14_t6_3;
    let a21_t1_2 = m.m24 * m.m33;
    let a21_t1_3 = a21_t1_2 * m.m41;
    let a21_t2_2 = m.m23 * m.m34;
    let a21_t2_3 = a21_t2_2 * m.m41;
    let a21_t3_2 = m.m24 * m.m31;
    let a21_t3_3 = a21_t3_2 * m.m43;
    let a21_t4_2 = m.m21 * m.m34;
    let a21_t4_3 = a21_t4_2 * m.m43;
    let a21_t5_2 = m.m23 * m.m31;
    let a21_t5_3 = a21_t5_2 * m.m44;
    let a21_t6_2 = m.m21 * m.m33;
    let a21_t6_3 = a21_t6_2 * m.m44;
    let a21_s2 = a21_t1_3 - a21_t2_3;
    let a21_s3 = a21_s2 - a21_t3_3;
    let a21_s4 = a21_s3 + a21_t4_3;
    let a21_s5 = a21_s4 + a21_t5_3;
    let a21_s6 = a21_s5 - a21_t6_3;
    let a22_t1_2 = m.m13 * m.m34;
    let a22_t1_3 = a22_t1_2 * m.m41;
    let a22_t2_2 = m.m14 * m.m33;
    let a22_t2_3 = a22_t2_2 * m.m41;
    let a22_t3_2 = m.m14 * m.m31;
    let a22_t3_3 = a22_t3_2 * m.m43;
    let a22_t4_2 = m.m11 * m.m34;
    let a22_t4_3 = a22_t4_2 * m.m43;
    let a22_t5_2 = m.m13 * m.m31;
    let a22_t5_3 = a22_t5_2 * m.m44;
    let a22_t6_2 = m.m11 * m.m33;
    let a22_t6_3 = a22_t6_2 * m.m44;
    let a22_s2 = a22_t1_3 - a22_t2_3;
    let a22_s3 = a22_s2 + a22_t3_3;
    let a22_s4 = a22_s3 - a22_t4_3;
    let a22_s5 = a22_s4 - a22_t5_3;
    let a22_s6 = a22_s5 + a22_t6_3;
    let a23_t1_2 = m.m14 * m.m23;
    let a23_t1_3 = a23_t1_2 * m.m41;
    let a23_t2_2 = m.m13 * m.m24;
    let a23_t2_3 = a23_t2_2 * m.m41;
    let a23_t3_2 = m.m14 * m.m21;
    let a23_t3_3 = a23_t3_2 * m.m43;
    let a23_t4_2 = m.m11 * m.m24;
    let a23_t4_3 = a23_t4_2 * m.m43;
    let a23_t5_2 = m.m13 * m.m21;
    let a23_t5_3 = a23_t5_2 * m.m44;
    let a23_t6_2 = m.m11 * m.m23;
    let a23_t6_3 = a23_t6_2 * m.m44;
    let a23_s2 = a23_t1_3 - a23_t2_3;
    let a23_s3 = a23_s2 - a23_t3_3;
    let a23_s4 = a23_s3 + a23_t4_3;
    let a23_s5 = a23_s4 + a23_t5_3;
    let a23_s6 = a23_s5 - a23_t6_3;
    let a24_t1_2 = m.m13 * m.m24;
    let a24_t1_3 = a24_t1_2 * m.m31;
    let a24_t2_2 = m.m14 * m.m23;
    let a24_t2_3 = a24_t2_2 * m.m31;
    let a24_t3_2 = m.m14 * m.m21;
    let a24_t3_3 = a24_t3_2 * m.m33;
    let a24_t4_2 = m.m11 * m.m24;
    let a24_t4_3 = a24_t4_2 * m.m33;
    let a24_t5_2 = m.m13 * m.m21;
    let a24_t5_3 = a24_t5_2 * m.m34;
    let a24_t6_2 = m.m11 * m.m23;
    let a24_t6_3 = a24_t6_2 * m.m34;
    let a24_s2 = a24_t1_3 - a24_t2_3;
    let a24_s3 = a24_s2 + a24_t3_3;
    let a24_s4 = a24_s3 - a24_t4_3;
    let a24_s5 = a24_s4 - a24_t5_3;
    let a24_s6 = a24_s5 + a24_t6_3;
    let a31_t1_2 = m.m22 * m.m34;
    let a31_t1_3 = a31_t1_2 * m.m41;
    let a31_t2_2 = m.m24 * m.m32;
    let a31_t2_3 = a31_t2_2 * m.m41;
    let a31_t3_2 = m.m24 * m.m31;
    let a31_t3_3 = a31_t3_2 * m.m42;
    let a31_t4_2 = m.m21 * m.m34;
    let a31_t4_3 = a31_t4_2 * m.m42;
    let a31_t5_2 = m.m22 * m.m31;
    let a31_t5_3 = a31_t5_2 * m.m44;
    let a31_t6_2 = m.m21 * m.m32;
    let a31_t6_3 = a31_t6_2 * m.m44;
    let a31_s2 = a31_t1_3 - a31_t2_3;
    let a31_s3 = a31_s2 + a31_t3_3;
    let a31_s4 = a31_s3 - a31_t4_3;
    let a31_s5 = a31_s4 - a31_t5_3;
    let a31_s6 = a31_s5 + a31_t6_3;
    let a32_t1_2 = m.m14 * m.m32;
    let a32_t1_3 = a32_t1_2 * m.m41;
    let a32_t2_2 = m.m12 * m.m34;
    let a32_t2_3 = a32_t2_2 * m.m41;
    let a32_t3_2 = m.m14 * m.m31;
    let a32_t3_3 = a32_t3_2 * m.m42;
    let a32_t4_2 = m.m11 * m.m34;
    let a32_t4_3 = a32_t4_2 * m.m42;
    let a32_t5_2 = m.m12 * m.m31;
    let a32_t5_3 = a32_t5_2 * m.m44;
    let a32_t6_2 = m.m11 * m.m32;
    let a32_t6_3 = a32_t6_2 * m.m44;
    let a32_s2 = a32_t1_3 - a32_t2_3;
    let a32_s3 = a32_s2 - a32_t3_3;
    let a32_s4 = a32_s3 + a32_t4_3;
    let a32_s5 = a32_s4 + a32_t5_3;
    let a32_s6 = a32_s5 - a32_t6_3;
    let a33_t1_2 = m.m12 * m.m24;
    let a33_t1_3 = a33_t1_2 * m.m41;
    let a33_t2_2 = m.m14 * m.m22;
    let a33_t2_3 = a33_t2_2 * m.m41;
    let a33_t3_2 = m.m14 * m.m21;
    let a33_t3_3 = a33_t3_2 * m.m42;
    let a33_t4_2 = m.m11 * m.m24;
    let a33_t4_3 = a33_t4_2 * m.m42;
    let a33_t5_2 = m.m12 * m.m21;
    let a33_t5_3 = a33_t5_2 * m.m44;
    let a33_t6_2 = m.m11 * m.m22;
    let a33_t6_3 = a33_t6_2 * m.m44;
    let a33_s2 = a33_t1_3 - a33_t2_3;
    let a33_s3 = a33_s2 + a33_t3_3;
    let a33_s4 = a33_s3 - a33_t4_3;
    let a33_s5 = a33_s4 - a33_t5_3;
    let a33_s6 = a33_s5 + a33_t6_3;
    let a34_t1_2 = m.m14 * m.m22;
    let a34_t1_3 = a34_t1_2 * m.m31;
    let a34_t2_2 = m.m12 * m.m24;
    let a34_t2_3 = a34_t2_2 * m.m31;
    let a34_t3_2 = m.m14 * m.m21;
    let a34_t3_3 = a34_t3_2 * m.m32;
    let a34_t4_2 = m.m11 * m.m24;
    let a34_t4_3 = a34_t4_2 * m.m32;
    let a34_t5_2 = m.m12 * m.m21;
    let a34_t5_3 = a34_t5_2 * m.m34;
    let a34_t6_2 = m.m11 * m.m22;
    let a34_t6_3 = a34_t6_2 * m.m34;
    let a34_s2 = a34_t1_3 - a34_t2_3;
    let a34_s3 = a34_s2 - a34_t3_3;
    let a34_s4 = a34_s3 + a34_t4_3;
    let a34_s5 = a34_s4 + a34_t5_3;
    let a34_s6 = a34_s5 - a34_t6_3;
    let a41_t1_2 = m.m23 * m.m32;
    let a41_t1_3 = a41_t1_2 * m.m41;
    let a41_t2_2 = m.m22 * m.m33;
    let a41_t2_3 = a41_t2_2 * m.m41;
    let a41_t3_2 = m.m23 * m.m31;
    let a41_t3_3 = a41_t3_2 * m.m42;
    let a41_t4_2 = m.m21 * m.m33;
    let a41_t4_3 = a41_t4_2 * m.m42;
    let a41_t5_2 = m.m22 * m.m31;
    let a41_t5_3 = a41_t5_2 * m.m43;
    let a41_t6_2 = m.m21 * m.m32;
    let a41_t6_3 = a41_t6_2 * m.m43;
    let a41_s2 = a41_t1_3 - a41_t2_3;
    let a41_s3 = a41_s2 - a41_t3_3;
    let a41_s4 = a41_s3 + a41_t4_3;
    let a41_s5 = a41_s4 + a41_t5_3;
    let a41_s6 = a41_s5 - a41_t6_3;
    let a42_t1_2 = m.m12 * m.m33;
    let a42_t1_3 = a42_t1_2 * m.m41;
    let a42_t2_2 = m.m13 * m.m32;
    let a42_t2_3 = a42_t2_2 * m.m41;
    let a42_t3_2 = m.m13 * m.m31;
    let a42_t3_3 = a42_t3_2 * m.m42;
    let a42_t4_2 = m.m11 * m.m33;
    let a42_t4_3 = a42_t4_2 * m.m42;
    let a42_t5_2 = m.m12 * m.m31;
    let a42_t5_3 = a42_t5_2 * m.m43;
    let a42_t6_2 = m.m11 * m.m32;
    let a42_t6_3 = a42_t6_2 * m.m43;
    let a42_s2 = a42_t1_3 - a42_t2_3;
    let a42_s3 = a42_s2 + a42_t3_3;
    let a42_s4 = a42_s3 - a42_t4_3;
    let a42_s5 = a42_s4 - a42_t5_3;
    let a42_s6 = a42_s5 + a42_t6_3;
    let a43_t1_2 = m.m13 * m.m22;
    let a43_t1_3 = a43_t1_2 * m.m41;
    let a43_t2_2 = m.m12 * m.m23;
    let a43_t2_3 = a43_t2_2 * m.m41;
    let a43_t3_2 = m.m13 * m.m21;
    let a43_t3_3 = a43_t3_2 * m.m42;
    let a43_t4_2 = m.m11 * m.m23;
    let a43_t4_3 = a43_t4_2 * m.m42;
    let a43_t5_2 = m.m12 * m.m21;
    let a43_t5_3 = a43_t5_2 * m.m43;
    let a43_t6_2 = m.m11 * m.m22;
    let a43_t6_3 = a43_t6_2 * m.m43;
    let a43_s2 = a43_t1_3 - a43_t2_3;
    let a43_s3 = a43_s2 - a43_t3_3;
    let a43_s4 = a43_s3 + a43_t4_3;
    let a43_s5 = a43_s4 + a43_t5_3;
    let a43_s6 = a43_s5 - a43_t6_3;
    let a44_t1_2 = m.m12 * m.m23;
    let a44_t1_3 = a44_t1_2 * m.m31;
    let a44_t2_2 = m.m13 * m.m22;
    let a44_t2_3 = a44_t2_2 * m.m31;
    let a44_t3_2 = m.m13 * m.m21;
    let a44_t3_3 = a44_t3_2 * m.m32;
    let a44_t4_2 = m.m11 * m.m23;
    let a44_t4_3 = a44_t4_2 * m.m32;
    let a44_t5_2 = m.m12 * m.m21;
    let a44_t5_3 = a44_t5_2 * m.m33;
    let a44_t6_2 = m.m11 * m.m22;
    let a44_t6_3 = a44_t6_2 * m.m33;
    let a44_s2 = a44_t1_3 - a44_t2_3;
    let a44_s3 = a44_s2 + a44_t3_3;
    let a44_s4 = a44_s3 - a44_t4_3;
    let a44_s5 = a44_s4 - a44_t5_3;
    let a44_s6 = a44_s5 + a44_t6_3;
    &&& in_i64(a11_t1_2)
    &&& in_i64(a11_t1_3)
    &&& in_i64(a11_t2_2)
    &&& in_i64(a11_t2_3)
    &&& in_i64(a11_t3_2)
    &&& in_i64(a11_t3_3)
    &&& in_i64(a11_t4_2)
    &&& in_i64(a11_t4_3)
    &&& in_i64(a11_t5_2)
    &&& in_i64(a11_t5_3)
    &&& in_i64(a11_t6_2)
    &&& in_i64(a11_t6_3)
    &&& in_i64(a11_s2)
    &&& in_i64(a11_s3)
    &&& in_i64(a11_s4)
    &&& in_i64(a11_s5)
    &&& in_i64(a11_s6)
    &&& in_i64(a12_t1_2)
    &&& in_i64(a12_t1_3)
    &&& in_i64(a12_t2_2)
    &&& in_i64(a12_t2_3)
    &&& in_i64(a12_t3_2)
    &&& in_i64(a12_t3_3)
    &&& in_i64(a12_t4_2)
    &&& in_i64(a12_t4_3)
    &&& in_i64(a12_t5_2)
    &&& in_i64(a12_t5_3)
    &&& in_i64(a12_t6_2)
    &&& in_i64(a12_t6_3)
    &&& in_i64(a12_s2)
    &&& in_i64(a12_s3)
    &&& in_i64(a12_s4)
    &&& in_i64(a12_s5)
    &&& in_i64(a12_s6)
    &&& in_i64(a13_t1_2)
    &&& in_i64(a13_t1_3)
    &&& in_i64(a13_t2_2)
    &&& in_i64(a13_t2_3)
    &&& in_i64(a13_t3_2)
    &&& in_i64(a13_t3_3)
    &&& in_i64(a13_t4_2)
    &&& in_i64(a13_t4_3)
    &&& in_i64(a13_t5_2)
    &&& in_i64(a13_t5_3)
    &&& in_i64(a13_t6_2)
    &&& in_i64(a13_t6_3)
    &&& in_i64(a13_s2)
    &&& in_i64(a13_s3)
    &&& in_i64(a13_s4)
    &&& in_i64(a13_s5)
    &&& in_i64(a13_s6)
    &&& in_i64(a14_t1_2)
    &&& in_i64(a14_t1_3)
    &&& in_i64(a14_t2_2)
    &&& in_i64(a14_t2_3)
    &&& in_i64(a14_t3_2)
    &&& in_i64(a14_t3_3)
    &&& in_i64(a14_t4_2)
    &&& in_i64(a14_t4_3)
    &&& in_i64(a14_t5_2)
    &&& in_i64(a14_t5_3)
    &&& in_i64(a14_t6_2)
    &&& in_i64(a14_t6_3)
    &&& in_i64(a14_s2)
    &&& in_i64(a14_s3)
    &&& in_i64(a14_s4)
    &&& in_i64(a14_s5)
    &&& in_i64(a14_s6)
    &&& in_i64(a21_t1_2)
    &&& in_i64(a21_t1_3)
    &&& in_i64(a21_t2_2)
    &&& in_i64(a21_t2_3)
    &&& in_i64(a21_t3_2)
    &&& in_i64(a21_t3_3)
    &&& in_i64(a21_t4_2)
    &&& in_i64(a21_t4_3)
    &&& in_i64(a21_t5_2)
    &&& in_i64(a21_t5_3)
    &&& in_i64(a21_t6_2)
    &&& in_i64(a21_t6_3)
    &&& in_i64(a21_s2)
    &&& in_i64(a21_s3)
    &&& in_i64(a21_s4)
    &&& in_i64(a21_s5)
    &&& in_i64(a21_s6)
    &&& in_i64(a22_t1_2)
    &&& in_i64(a22_t1_3)
    &&& in_i64(a22_t2_2)
    &&& in_i64(a22_t2_3)
    &&& in_i64(a22_t3_2)
    &&& in_i64(a22_t3_3)
    &&& in_i64(a22_t4_2)
    &&& in_i64(a22_t4_3)
    &&& in_i64(a22_t5_2)
    &&& in_i64(a22_t5_3)
    &&& in_i64(a22_t6_2)
    &&& in_i64(a22_t6_3)
    &&& in_i64(a22_s2)
    &&& in_i64(a22_s3)
    &&& in_i64(a22_s4)
    &&& in_i64(a22_s5)
    &&& in_i64(a22_s6)
    &&& in_i64(a23_t1_2)
    &&& in_i64(a23_t1_3)
    &&& in_i64(a23_t2_2)
    &&& in_i64(a23_t2_3)
    &&& in_i64(a23_t3_2)
    &&& in_i64(a23_t3_3)
    &&& in_i64(a23_t4_2)
    &&& in_i64(a23_t4_3)
    &&& in_i64(a23_t5_2)
    &&& in_i64(a23_t5_3)
    &&& in_i64(a23_t6_2)
    &&& in_i64(a23_t6_3)
    &&& in_i64(a23_s2)
    &&& in_i64(a23_s3)
    &&& in_i64(a23_s4)
    &&& in_i64(a23_s5)
    &&& in_i64(a23_s6)
    &&& in_i64(a24_t1_2)
    &&& in_i64(a24_t1_3)
    &&& in_i64(a24_t2_2)
    &&& in_i64(a24_t2_3)
    &&& in_i64(a24_t3_2)
    &&& in_i64(a24_t3_3)
    &&& in_i64(a24_t4_2)
    &&& in_i64(a24_t4_3)
    &&& in_i64(a24_t5_2)
    &&& in_i64(a24_t5_3)
    &&& in_i64(a24_t6_2)
    &&& in_i64(a24_t6_3)
    &&& in_i64(a24_s2)
    &&& in_i64(a24_s3)
    &&& in_i64(a24_s4)
    &&& in_i64(a24_s5)
    &&& in_i64(a24_s6)
    &&& in_i64(a31_t1_2)
    &&& in_i64(a31_t1_3)
    &&& in_i64(a31_t2_2)
    &&& in_i64(a31_t2_3)
    &&& in_i64(a31_t3_2)
    &&& in_i64(a31_t3_3)
    &&& in_i64(a31_t4_2)
    &&& in_i64(a31_t4_3)
    &&& in_i64(a31_t5_2)
    &&& in_i64(a31_t5_3)
    &&& in_i64(a31_t6_2)
    &&& in_i64(a31_t6_3)
    &&& in_i64(a31_s2)
    &&& in_i64(a31_s3)
    &&& in_i64(a31_s4)
    &&& in_i64(a31_s5)
    &&& in_i64(a31_s6)
    &&& in_i64(a32_t1_2)
    &&& in_i64(a32_t1_3)
    &&& in_i64(a32_t2_2)
    &&& in_i64(a32_t2_3)
    &&& in_i64(a32_t3_2)
    &&& in_i64(a32_t3_3)
    &&& in_i64(a32_t4_2)
    &&& in_i64(a32_t4_3)
    &&& in_i64(a32_t5_2)
    &&& in_i64(a32_t5_3)
    &&& in_i64(a32_t6_2)
    &&& in_i64(a32_t6_3)
    &&& in_i64(a32_s2)
    &&& in_i64(a32_s3)
    &&& in_i64(a32_s4)
    &&& in_i64(a32_s5)
    &&& in_i64(a32_s6)
    &&& in_i64(a33_t1_2)
    &&& in_i64(a33_t1_3)
    &&& in_i64(a33_t2_2)
    &&& in_i64(a33_t2_3)
    &&& in_i64(a33_t3_2)
    &&& in_i64(a33_t3_3)
    &&& in_i64(a33_t4_2)
    &&& in_i64(a33_t4_3)
    &&& in_i64(a33_t5_2)
    &&& in_i64(a33_t5_3)
    &&& in_i64(a33_t6_2)
    &&& in_i64(a33_t6_3)
    &&& in_i64(a33_s2)
    &&& in_i64(a33_s3)
    &&& in_i64(a33_s4)
    &&& in_i64(a33_s5)
    &&& in_i64(a33_s6)
    &&& in_i64(a34_t1_2)
    &&& in_i64(a34_t1_3)
    &&& in_i64(a34_t2_2)
    &&& in_i64(a34_t2_3)
    &&& in_i64(a34_t3_2)
    &&& in_i64(a34_t3_3)
    &&& in_i64(a34_t4_2)
    &&& in_i64(a34_t4_3)
    &&& in_i64(a34_t5_2)
    &&& in_i64(a34_t5_3)
    &&& in_i64(a34_t6_2)
    &&& in_i64(a34_t6_3)
    &&& in_i64(a34_s2)
    &&& in_i64(a34_s3)
    &&& in_i64(a34_s4)
    &&& in_i64(a34_s5)
    &&& in_i64(a34_s6)
    &&& in_i64(a41_t1_2)
    &&& in_i64(a41_t1_3)
    &&& in_i64(a41_t2_2)
    &&& in_i64(a41_t2_3)
    &&& in_i64(a41_t3_2)
    &&& in_i64(a41_t3_3)
    &&& in_i64(a41_t4_2)
    &&& in_i64(a41_t4_3)
    &&& in_i64(a41_t5_2)
    &&& in_i64(a41_t5_3)
    &&& in_i64(a41_t6_2)
    &&& in_i64(a41_t6_3)
    &&& in_i64(a41_s2)
    &&& in_i64(a41_s3)
    &&& in_i64(a41_s4)
    &&& in_i64(a41_s5)
    &&& in_i64(a41_s6)
    &&& in_i64(a42_t1_2)
    &&& in_i64(a42_t1_3)
    &&& in_i64(a42_t2_2)
    &&& in_i64(a42_t2_3)
    &&& in_i64(a42_t3_2)
    &&& in_i64(a42_t3_3)
    &&& in_i64(a42_t4_2)
    &&& in_i64(a42_t4_3)
    &&& in_i64(a42_t5_2)
    &&& in_i64(a42_t5_3)
    &&& in_i64(a42_t6_2)
    &&& in_i64(a42_t6_3)
    &&& in_i64(a42_s2)
    &&& in_i64(a42_s3)
    &&& in_i64(a42_s4)
    &&& in_i64(a42_s5)
    &&& in_i64(a42_s6)
    &&& in_i64(a43_t1_2)
    &&& in_i64(a43_t1_3)
    &&& in_i64(a43_t2_2)
    &&& in_i64(a43_t2_3)
    &&& in_i64(a43_t3_2)
    &&& in_i64(a43_t3_3)
    &&& in_i64(a43_t4_2)
    &&& in_i64(a43_t4_3)
    &&& in_i64(a43_t5_2)
    &&& in_i64(a43_t5_3)
    &&& in_i64(a43_t6_2)
    &&& in_i64(a43_t6_3)
    &&& in_i64(a43_s2)
    &&& in_i64(a43_s3)
    &&& in_i64(a43_s4)
    &&& in_i64(a43_s5)
    &&& in_i64(a43_s6)
    &&& in_i64(a44_t1_2)
    &&& in_i64(a44_t1_3)
    &&& in_i64(a44_t2_2)
    &&& in_i64(a44_t2_3)
    &&& in_i64(a44_t3_2)
    &&& in_i64(a44_t3_3)
    &&& in_i64(a44_t4_2)
    &&& in_i64(a44_t4_3)
    &&& in_i64(a44_t5_2)
    &&& in_i64(a44_t5_3)
    &&& in_i64(a44_t6_2)
    &&& in_i64(a44_t6_3)
    &&& in_i64(a44_s2)
    &&& in_i64(a44_s3)
    &&& in_i64(a44_s4)
    &&& in_i64(a44_s5)
    &&& in_i64(a44_s6)
}

} // verus!
