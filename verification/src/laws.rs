//! Laws of the matrix operations: what the products, the determinant, the
//! adjugate and the inverse satisfy for every matrix.

use vstd::prelude::*;

use crate::matrix4d::TypedMatrix4D;
use crate::point::TypedPoint4D;
use crate::model::{
    mat_adjugate, mat_det, mat_from_2d, mat_identity, mat_inverse, mat_is_2d, mat_mul, mat_scale,
    mat_scaling, mat_translation, mat_transpose, point_image, vec_mul, Mat4, Vec4,
};

verus! {

// Small algebraic steps, each checked by the nonlinear solver on its own.

proof fn lemma_distribute4_right(s1: int, s2: int, s3: int, s4: int, x: int)
    by (nonlinear_arith)
    ensures
        (s1 + s2 + s3 + s4) * x == s1 * x + s2 * x + s3 * x + s4 * x,
{
}

proof fn lemma_distribute4_left(x: int, s1: int, s2: int, s3: int, s4: int)
    by (nonlinear_arith)
    ensures
        x * (s1 + s2 + s3 + s4) == x * s1 + x * s2 + x * s3 + x * s4,
{
}

proof fn lemma_distribute2_left(x: int, t1: int, t2: int)
    by (nonlinear_arith)
    ensures
        x * (t1 + t2) == x * t1 + x * t2,
{
}

proof fn lemma_distribute6_left(x: int, t1: int, t2: int, t3: int, t4: int, t5: int, t6: int)
    by (nonlinear_arith)
    ensures
        x * (t1 + t2 + t3 + t4 + t5 + t6) == x * t1 + x * t2 + x * t3 + x * t4 + x * t5 + x * t6,
{
}

proof fn lemma_associate3(a: int, b: int, c: int)
    by (nonlinear_arith)
    ensures
        (a * b) * c == a * (b * c),
        (a * c) * b == (a * b) * c,
{
}

proof fn lemma_reassociate4(a1: int, a2: int, a3: int, a4: int, x: int)
    by (nonlinear_arith)
    ensures
        a1 * a2 * a3 * a4 * x == a1 * (a2 * (a3 * (a4 * x))),
        a1 * (a2 * (a3 * (a4 * (-x)))) == -(a1 * (a2 * (a3 * (a4 * x)))),
{
}

proof fn lemma_mul_by_zero(a: int, t: int)
    by (nonlinear_arith)
    requires
        t == 0,
    ensures
        a * t == 0,
{
}

proof fn lemma_mul_by_equal(a: int, t: int, u: int)
    by (nonlinear_arith)
    requires
        t == u,
    ensures
        a * t == a * u,
{
}

/// The product of four factors, with the factor in position `p` pulled to
/// the front.
proof fn lemma_pull_factor(a: int, b: int, c: int, d: int)
    by (nonlinear_arith)
    ensures
        a * b * c * d == a * (b * c * d),
        a * b * c * d == b * (a * c * d),
        a * b * c * d == c * (a * b * d),
        a * b * c * d == d * (a * b * c),
{
}

proof fn lemma_det3_transpose(
    a11: int, a12: int, a13: int,
    a21: int, a22: int, a23: int,
    a31: int, a32: int, a33: int,
)
    by (nonlinear_arith)
    ensures
        crate::model::det3(a11, a12, a13, a21, a22, a23, a31, a32, a33)
            == crate::model::det3(a11, a21, a31, a12, a22, a32, a13, a23, a33),
{
}

proof fn lemma_scale_mppmmp_left(x: int, t1: int, t2: int, t3: int, t4: int, t5: int, t6: int)
    by (nonlinear_arith)
    ensures
        x * (-(t1) + t2 + t3 - t4 - t5 + t6) == -(x * t1) + x * t2 + x * t3 - x * t4 - x * t5 + x * t6,
{
}

proof fn lemma_scale_pmmppm_left(x: int, t1: int, t2: int, t3: int, t4: int, t5: int, t6: int)
    by (nonlinear_arith)
    ensures
        x * (t1 - t2 - t3 + t4 + t5 - t6) == x * t1 - x * t2 - x * t3 + x * t4 + x * t5 - x * t6,
{
}

proof fn lemma_scale_pmmppm_right(t1: int, t2: int, t3: int, t4: int, t5: int, t6: int, x: int)
    by (nonlinear_arith)
    ensures
        (t1 - t2 - t3 + t4 + t5 - t6) * x == t1 * x - t2 * x - t3 * x + t4 * x + t5 * x - t6 * x,
{
}

proof fn lemma_scale_mppmmp_right(t1: int, t2: int, t3: int, t4: int, t5: int, t6: int, x: int)
    by (nonlinear_arith)
    ensures
        (-(t1) + t2 + t3 - t4 - t5 + t6) * x == -(t1 * x) + t2 * x + t3 * x - t4 * x - t5 * x + t6 * x,
{
}

// Rows, columns and dot products.

spec fn dot(u: Vec4, v: Vec4) -> int {
    u.x * v.x + u.y * v.y + u.z * v.z + u.w * v.w
}

spec fn mat_row(m: Mat4, i: int) -> Vec4 {
    if i == 1 {
        Vec4 { x: m.m11, y: m.m12, z: m.m13, w: m.m14 }
    } else if i == 2 {
        Vec4 { x: m.m21, y: m.m22, z: m.m23, w: m.m24 }
    } else if i == 3 {
        Vec4 { x: m.m31, y: m.m32, z: m.m33, w: m.m34 }
    } else {
        Vec4 { x: m.m41, y: m.m42, z: m.m43, w: m.m44 }
    }
}

spec fn mat_col(m: Mat4, j: int) -> Vec4 {
    if j == 1 {
        Vec4 { x: m.m11, y: m.m21, z: m.m31, w: m.m41 }
    } else if j == 2 {
        Vec4 { x: m.m12, y: m.m22, z: m.m32, w: m.m42 }
    } else if j == 3 {
        Vec4 { x: m.m13, y: m.m23, z: m.m33, w: m.m43 }
    } else {
        Vec4 { x: m.m14, y: m.m24, z: m.m34, w: m.m44 }
    }
}

/// The column vector `a * c`.
spec fn mat_times_col(a: Mat4, c: Vec4) -> Vec4 {
    Vec4 {
        x: dot(mat_row(a, 1), c),
        y: dot(mat_row(a, 2), c),
        z: dot(mat_row(a, 3), c),
        w: dot(mat_row(a, 4), c),
    }
}

proof fn lemma_dot_commute(a: Vec4, b: Vec4)
    by (nonlinear_arith)
    ensures
        dot(a, b) == dot(b, a),
{
}

/// `(v * a) . c == v . (a * c)`.
proof fn lemma_dot_associative(v: Vec4, a: Mat4, c: Vec4)
    ensures
        dot(vec_mul(v, a), c) == dot(v, mat_times_col(a, c)),
{

    lemma_distribute4_right(v.x * a.m11, v.y * a.m21, v.z * a.m31, v.w * a.m41, c.x);
    lemma_distribute4_right(v.x * a.m12, v.y * a.m22, v.z * a.m32, v.w * a.m42, c.y);
    lemma_distribute4_right(v.x * a.m13, v.y * a.m23, v.z * a.m33, v.w * a.m43, c.z);
    lemma_distribute4_right(v.x * a.m14, v.y * a.m24, v.z * a.m34, v.w * a.m44, c.w);
    lemma_distribute4_left(v.x, a.m11 * c.x, a.m12 * c.y, a.m13 * c.z, a.m14 * c.w);
    lemma_distribute4_left(v.y, a.m21 * c.x, a.m22 * c.y, a.m23 * c.z, a.m24 * c.w);
    lemma_distribute4_left(v.z, a.m31 * c.x, a.m32 * c.y, a.m33 * c.z, a.m34 * c.w);
    lemma_distribute4_left(v.w, a.m41 * c.x, a.m42 * c.y, a.m43 * c.z, a.m44 * c.w);
    lemma_associate3(v.x, a.m11, c.x);
    lemma_associate3(v.x, a.m12, c.y);
    lemma_associate3(v.x, a.m13, c.z);
    lemma_associate3(v.x, a.m14, c.w);
    lemma_associate3(v.y, a.m21, c.x);
    lemma_associate3(v.y, a.m22, c.y);
    lemma_associate3(v.y, a.m23, c.z);
    lemma_associate3(v.y, a.m24, c.w);
    lemma_associate3(v.z, a.m31, c.x);
    lemma_associate3(v.z, a.m32, c.y);
    lemma_associate3(v.z, a.m33, c.z);
    lemma_associate3(v.z, a.m34, c.w);
    lemma_associate3(v.w, a.m41, c.x);
    lemma_associate3(v.w, a.m42, c.y);
    lemma_associate3(v.w, a.m43, c.z);
    lemma_associate3(v.w, a.m44, c.w);
}

/// Multiplying a row vector by `a * b` applies `a` first and `b` after it.
pub proof fn lemma_vec_mul_composes(v: Vec4, a: Mat4, b: Mat4)
    ensures
        vec_mul(v, mat_mul(a, b)) == vec_mul(vec_mul(v, a), b),
{
    lemma_dot_associative(v, a, mat_col(b, 1));
    lemma_dot_associative(v, a, mat_col(b, 2));
    lemma_dot_associative(v, a, mat_col(b, 3));
    lemma_dot_associative(v, a, mat_col(b, 4));
}

/// The product of matrices is associative: composing three transformations
/// does not depend on how they are grouped.
pub proof fn lemma_mul_associative(a: Mat4, b: Mat4, c: Mat4)
    ensures
        mat_mul(mat_mul(a, b), c) == mat_mul(a, mat_mul(b, c)),
{
    lemma_vec_mul_composes(mat_row(a, 1), b, c);
    lemma_vec_mul_composes(mat_row(a, 2), b, c);
    lemma_vec_mul_composes(mat_row(a, 3), b, c);
    lemma_vec_mul_composes(mat_row(a, 4), b, c);
}

/// The identity matrix is neutral on both sides of the product.
pub proof fn lemma_mul_identity(a: Mat4)
    ensures
        mat_mul(mat_identity(), a) == a,
        mat_mul(a, mat_identity()) == a,
{
}

proof fn lemma_transpose_mul(x: Mat4, y: Mat4)
    ensures
        mat_transpose(mat_mul(x, y)) == mat_mul(mat_transpose(y), mat_transpose(x)),
{
    lemma_dot_commute(mat_row(x, 1), mat_col(y, 1));
    lemma_dot_commute(mat_row(x, 2), mat_col(y, 1));
    lemma_dot_commute(mat_row(x, 3), mat_col(y, 1));
    lemma_dot_commute(mat_row(x, 4), mat_col(y, 1));
    lemma_dot_commute(mat_row(x, 1), mat_col(y, 2));
    lemma_dot_commute(mat_row(x, 2), mat_col(y, 2));
    lemma_dot_commute(mat_row(x, 3), mat_col(y, 2));
    lemma_dot_commute(mat_row(x, 4), mat_col(y, 2));
    lemma_dot_commute(mat_row(x, 1), mat_col(y, 3));
    lemma_dot_commute(mat_row(x, 2), mat_col(y, 3));
    lemma_dot_commute(mat_row(x, 3), mat_col(y, 3));
    lemma_dot_commute(mat_row(x, 4), mat_col(y, 3));
    lemma_dot_commute(mat_row(x, 1), mat_col(y, 4));
    lemma_dot_commute(mat_row(x, 2), mat_col(y, 4));
    lemma_dot_commute(mat_row(x, 3), mat_col(y, 4));
    lemma_dot_commute(mat_row(x, 4), mat_col(y, 4));
}

// Products with a scaled factor.

proof fn lemma_dot_scaled(a1: int, a2: int, a3: int, a4: int, b1: int, b2: int, b3: int, b4: int, q: int)
    ensures
        (a1 * q) * b1 + (a2 * q) * b2 + (a3 * q) * b3 + (a4 * q) * b4
            == (a1 * b1 + a2 * b2 + a3 * b3 + a4 * b4) * q,
        a1 * (b1 * q) + a2 * (b2 * q) + a3 * (b3 * q) + a4 * (b4 * q)
            == (a1 * b1 + a2 * b2 + a3 * b3 + a4 * b4) * q,
{
    lemma_associate3(a1, b1, q);
    lemma_associate3(a2, b2, q);
    lemma_associate3(a3, b3, q);
    lemma_associate3(a4, b4, q);
    lemma_distribute4_right(a1 * b1, a2 * b2, a3 * b3, a4 * b4, q);
}

proof fn lemma_mul_scale(a: Mat4, b: Mat4, q: int)
    ensures
        mat_mul(mat_scale(a, q), b) == mat_scale(mat_mul(a, b), q),
        mat_mul(a, mat_scale(b, q)) == mat_scale(mat_mul(a, b), q),
{
    lemma_dot_scaled(a.m11, a.m12, a.m13, a.m14, b.m11, b.m21, b.m31, b.m41, q);
    lemma_dot_scaled(a.m11, a.m12, a.m13, a.m14, b.m12, b.m22, b.m32, b.m42, q);
    lemma_dot_scaled(a.m11, a.m12, a.m13, a.m14, b.m13, b.m23, b.m33, b.m43, q);
    lemma_dot_scaled(a.m11, a.m12, a.m13, a.m14, b.m14, b.m24, b.m34, b.m44, q);
    lemma_dot_scaled(a.m21, a.m22, a.m23, a.m24, b.m11, b.m21, b.m31, b.m41, q);
    lemma_dot_scaled(a.m21, a.m22, a.m23, a.m24, b.m12, b.m22, b.m32, b.m42, q);
    lemma_dot_scaled(a.m21, a.m22, a.m23, a.m24, b.m13, b.m23, b.m33, b.m43, q);
    lemma_dot_scaled(a.m21, a.m22, a.m23, a.m24, b.m14, b.m24, b.m34, b.m44, q);
    lemma_dot_scaled(a.m31, a.m32, a.m33, a.m34, b.m11, b.m21, b.m31, b.m41, q);
    lemma_dot_scaled(a.m31, a.m32, a.m33, a.m34, b.m12, b.m22, b.m32, b.m42, q);
    lemma_dot_scaled(a.m31, a.m32, a.m33, a.m34, b.m13, b.m23, b.m33, b.m43, q);
    lemma_dot_scaled(a.m31, a.m32, a.m33, a.m34, b.m14, b.m24, b.m34, b.m44, q);
    lemma_dot_scaled(a.m41, a.m42, a.m43, a.m44, b.m11, b.m21, b.m31, b.m41, q);
    lemma_dot_scaled(a.m41, a.m42, a.m43, a.m44, b.m12, b.m22, b.m32, b.m42, q);
    lemma_dot_scaled(a.m41, a.m42, a.m43, a.m44, b.m13, b.m23, b.m33, b.m43, q);
    lemma_dot_scaled(a.m41, a.m42, a.m43, a.m44, b.m14, b.m24, b.m34, b.m44, q);
}


// The determinant as a function of four rows: linear in each row, zero when
// two rows are equal, and changing sign when two neighbouring rows swap.

spec fn rows(r1: Vec4, r2: Vec4, r3: Vec4, r4: Vec4) -> Mat4 {
    Mat4 {
        m11: r1.x,
        m12: r1.y,
        m13: r1.z,
        m14: r1.w,
        m21: r2.x,
        m22: r2.y,
        m23: r2.z,
        m24: r2.w,
        m31: r3.x,
        m32: r3.y,
        m33: r3.z,
        m34: r3.w,
        m41: r4.x,
        m42: r4.y,
        m43: r4.z,
        m44: r4.w,
    }
}

spec fn comb(c1: int, c2: int, c3: int, c4: int, s1: Vec4, s2: Vec4, s3: Vec4, s4: Vec4) -> Vec4 {
    Vec4 {
        x: c1 * s1.x + c2 * s2.x + c3 * s3.x + c4 * s4.x,
        y: c1 * s1.y + c2 * s2.y + c3 * s3.y + c4 * s4.y,
        z: c1 * s1.z + c2 * s2.z + c3 * s3.z + c4 * s4.z,
        w: c1 * s1.w + c2 * s2.w + c3 * s3.w + c4 * s4.w,
    }
}

#[verifier::opaque]
spec fn det_rows(r1: Vec4, r2: Vec4, r3: Vec4, r4: Vec4) -> int {
    mat_det(rows(r1, r2, r3, r4))
}

proof fn lemma_det_rows_of(m: Mat4)
    ensures
        det_rows(mat_row(m, 1), mat_row(m, 2), mat_row(m, 3), mat_row(m, 4)) == mat_det(m),
{
    reveal(det_rows);
    assert(rows(mat_row(m, 1), mat_row(m, 2), mat_row(m, 3), mat_row(m, 4)) == m);
}

spec fn cofactor_11(r2: Vec4, r3: Vec4, r4: Vec4) -> int {
    -(r2.w * r3.z * r4.y) + r2.z * r3.w * r4.y + r2.w * r3.y * r4.z - r2.y * r3.w * r4.z - r2.z * r3.y * r4.w + r2.y * r3.z * r4.w
}

spec fn cofactor_12(r2: Vec4, r3: Vec4, r4: Vec4) -> int {
    r2.w * r3.z * r4.x - r2.z * r3.w * r4.x - r2.w * r3.x * r4.z + r2.x * r3.w * r4.z + r2.z * r3.x * r4.w - r2.x * r3.z * r4.w
}

spec fn cofactor_13(r2: Vec4, r3: Vec4, r4: Vec4) -> int {
    -(r2.w * r3.y * r4.x) + r2.y * r3.w * r4.x + r2.w * r3.x * r4.y - r2.x * r3.w * r4.y - r2.y * r3.x * r4.w + r2.x * r3.y * r4.w
}

spec fn cofactor_14(r2: Vec4, r3: Vec4, r4: Vec4) -> int {
    r2.z * r3.y * r4.x - r2.y * r3.z * r4.x - r2.z * r3.x * r4.y + r2.x * r3.z * r4.y + r2.y * r3.x * r4.z - r2.x * r3.y * r4.z
}

proof fn lemma_det_rows_expand_1(r1: Vec4, r2: Vec4, r3: Vec4, r4: Vec4)
    ensures
        det_rows(r1, r2, r3, r4) == r1.x * cofactor_11(r2, r3, r4) + r1.y * cofactor_12(r2, r3, r4) + r1.z * cofactor_13(r2, r3, r4) + r1.w * cofactor_14(r2, r3, r4),
{
    reveal(det_rows);
    lemma_pull_factor(r1.w, r2.z, r3.y, r4.x);
    lemma_pull_factor(r1.z, r2.w, r3.y, r4.x);
    lemma_pull_factor(r1.w, r2.y, r3.z, r4.x);
    lemma_pull_factor(r1.y, r2.w, r3.z, r4.x);
    lemma_pull_factor(r1.z, r2.y, r3.w, r4.x);
    lemma_pull_factor(r1.y, r2.z, r3.w, r4.x);
    lemma_pull_factor(r1.w, r2.z, r3.x, r4.y);
    lemma_pull_factor(r1.z, r2.w, r3.x, r4.y);
    lemma_pull_factor(r1.w, r2.x, r3.z, r4.y);
    lemma_pull_factor(r1.x, r2.w, r3.z, r4.y);
    lemma_pull_factor(r1.z, r2.x, r3.w, r4.y);
    lemma_pull_factor(r1.x, r2.z, r3.w, r4.y);
    lemma_pull_factor(r1.w, r2.y, r3.x, r4.z);
    lemma_pull_factor(r1.y, r2.w, r3.x, r4.z);
    lemma_pull_factor(r1.w, r2.x, r3.y, r4.z);
    lemma_pull_factor(r1.x, r2.w, r3.y, r4.z);
    lemma_pull_factor(r1.y, r2.x, r3.w, r4.z);
    lemma_pull_factor(r1.x, r2.y, r3.w, r4.z);
    lemma_pull_factor(r1.z, r2.y, r3.x, r4.w);
    lemma_pull_factor(r1.y, r2.z, r3.x, r4.w);
    lemma_pull_factor(r1.z, r2.x, r3.y, r4.w);
    lemma_pull_factor(r1.x, r2.z, r3.y, r4.w);
    lemma_pull_factor(r1.y, r2.x, r3.z, r4.w);
    lemma_pull_factor(r1.x, r2.y, r3.z, r4.w);
    lemma_scale_mppmmp_left(r1.x, r2.w * r3.z * r4.y, r2.z * r3.w * r4.y, r2.w * r3.y * r4.z, r2.y * r3.w * r4.z, r2.z * r3.y * r4.w, r2.y * r3.z * r4.w);
    lemma_scale_pmmppm_left(r1.y, r2.w * r3.z * r4.x, r2.z * r3.w * r4.x, r2.w * r3.x * r4.z, r2.x * r3.w * r4.z, r2.z * r3.x * r4.w, r2.x * r3.z * r4.w);
    lemma_scale_mppmmp_left(r1.z, r2.w * r3.y * r4.x, r2.y * r3.w * r4.x, r2.w * r3.x * r4.y, r2.x * r3.w * r4.y, r2.y * r3.x * r4.w, r2.x * r3.y * r4.w);
    lemma_scale_pmmppm_left(r1.w, r2.z * r3.y * r4.x, r2.y * r3.z * r4.x, r2.z * r3.x * r4.y, r2.x * r3.z * r4.y, r2.y * r3.x * r4.z, r2.x * r3.y * r4.z);
}

proof fn lemma_det_rows_linear_1(c1: int, c2: int, c3: int, c4: int, s1: Vec4, s2: Vec4, s3: Vec4, s4: Vec4, r2: Vec4, r3: Vec4, r4: Vec4)
    ensures
        det_rows(comb(c1, c2, c3, c4, s1, s2, s3, s4), r2, r3, r4) == c1 * det_rows(s1, r2, r3, r4) + c2 * det_rows(s2, r2, r3, r4) + c3 * det_rows(s3, r2, r3, r4) + c4 * det_rows(s4, r2, r3, r4),
{
    lemma_det_rows_expand_1(comb(c1, c2, c3, c4, s1, s2, s3, s4), r2, r3, r4);
    lemma_det_rows_expand_1(s1, r2, r3, r4);
    lemma_det_rows_expand_1(s2, r2, r3, r4);
    lemma_det_rows_expand_1(s3, r2, r3, r4);
    lemma_det_rows_expand_1(s4, r2, r3, r4);
    lemma_distribute4_right(c1 * s1.x, c2 * s2.x, c3 * s3.x, c4 * s4.x, cofactor_11(r2, r3, r4));
    lemma_associate3(c1, s1.x, cofactor_11(r2, r3, r4));
    lemma_associate3(c2, s2.x, cofactor_11(r2, r3, r4));
    lemma_associate3(c3, s3.x, cofactor_11(r2, r3, r4));
    lemma_associate3(c4, s4.x, cofactor_11(r2, r3, r4));
    lemma_distribute4_right(c1 * s1.y, c2 * s2.y, c3 * s3.y, c4 * s4.y, cofactor_12(r2, r3, r4));
    lemma_associate3(c1, s1.y, cofactor_12(r2, r3, r4));
    lemma_associate3(c2, s2.y, cofactor_12(r2, r3, r4));
    lemma_associate3(c3, s3.y, cofactor_12(r2, r3, r4));
    lemma_associate3(c4, s4.y, cofactor_12(r2, r3, r4));
    lemma_distribute4_right(c1 * s1.z, c2 * s2.z, c3 * s3.z, c4 * s4.z, cofactor_13(r2, r3, r4));
    lemma_associate3(c1, s1.z, cofactor_13(r2, r3, r4));
    lemma_associate3(c2, s2.z, cofactor_13(r2, r3, r4));
    lemma_associate3(c3, s3.z, cofactor_13(r2, r3, r4));
    lemma_associate3(c4, s4.z, cofactor_13(r2, r3, r4));
    lemma_distribute4_right(c1 * s1.w, c2 * s2.w, c3 * s3.w, c4 * s4.w, cofactor_14(r2, r3, r4));
    lemma_associate3(c1, s1.w, cofactor_14(r2, r3, r4));
    lemma_associate3(c2, s2.w, cofactor_14(r2, r3, r4));
    lemma_associate3(c3, s3.w, cofactor_14(r2, r3, r4));
    lemma_associate3(c4, s4.w, cofactor_14(r2, r3, r4));
    lemma_distribute4_left(c1, s1.x * cofactor_11(r2, r3, r4), s1.y * cofactor_12(r2, r3, r4), s1.z * cofactor_13(r2, r3, r4), s1.w * cofactor_14(r2, r3, r4));
    lemma_distribute4_left(c2, s2.x * cofactor_11(r2, r3, r4), s2.y * cofactor_12(r2, r3, r4), s2.z * cofactor_13(r2, r3, r4), s2.w * cofactor_14(r2, r3, r4));
    lemma_distribute4_left(c3, s3.x * cofactor_11(r2, r3, r4), s3.y * cofactor_12(r2, r3, r4), s3.z * cofactor_13(r2, r3, r4), s3.w * cofactor_14(r2, r3, r4));
    lemma_distribute4_left(c4, s4.x * cofactor_11(r2, r3, r4), s4.y * cofactor_12(r2, r3, r4), s4.z * cofactor_13(r2, r3, r4), s4.w * cofactor_14(r2, r3, r4));
}

spec fn cofactor_21(r1: Vec4, r3: Vec4, r4: Vec4) -> int {
    r1.w * r3.z * r4.y - r1.z * r3.w * r4.y - r1.w * r3.y * r4.z + r1.y * r3.w * r4.z + r1.z * r3.y * r4.w - r1.y * r3.z * r4.w
}

spec fn cofactor_22(r1: Vec4, r3: Vec4, r4: Vec4) -> int {
    -(r1.w * r3.z * r4.x) + r1.z * r3.w * r4.x + r1.w * r3.x * r4.z - r1.x * r3.w * r4.z - r1.z * r3.x * r4.w + r1.x * r3.z * r4.w
}

spec fn cofactor_23(r1: Vec4, r3: Vec4, r4: Vec4) -> int {
    r1.w * r3.y * r4.x - r1.y * r3.w * r4.x - r1.w * r3.x * r4.y + r1.x * r3.w * r4.y + r1.y * r3.x * r4.w - r1.x * r3.y * r4.w
}

spec fn cofactor_24(r1: Vec4, r3: Vec4, r4: Vec4) -> int {
    -(r1.z * r3.y * r4.x) + r1.y * r3.z * r4.x + r1.z * r3.x * r4.y - r1.x * r3.z * r4.y - r1.y * r3.x * r4.z + r1.x * r3.y * r4.z
}

proof fn lemma_det_rows_expand_2(r1: Vec4, r2: Vec4, r3: Vec4, r4: Vec4)
    ensures
        det_rows(r1, r2, r3, r4) == r2.x * cofactor_21(r1, r3, r4) + r2.y * cofactor_22(r1, r3, r4) + r2.z * cofactor_23(r1, r3, r4) + r2.w * cofactor_24(r1, r3, r4),
{
    reveal(det_rows);
    lemma_pull_factor(r1.w, r2.z, r3.y, r4.x);
    lemma_pull_factor(r1.z, r2.w, r3.y, r4.x);
    lemma_pull_factor(r1.w, r2.y, r3.z, r4.x);
    lemma_pull_factor(r1.y, r2.w, r3.z, r4.x);
    lemma_pull_factor(r1.z, r2.y, r3.w, r4.x);
    lemma_pull_factor(r1.y, r2.z, r3.w, r4.x);
    lemma_pull_factor(r1.w, r2.z, r3.x, r4.y);
    lemma_pull_factor(r1.z, r2.w, r3.x, r4.y);
    lemma_pull_factor(r1.w, r2.x, r3.z, r4.y);
    lemma_pull_factor(r1.x, r2.w, r3.z, r4.y);
    lemma_pull_factor(r1.z, r2.x, r3.w, r4.y);
    lemma_pull_factor(r1.x, r2.z, r3.w, r4.y);
    lemma_pull_factor(r1.w, r2.y, r3.x, r4.z);
    lemma_pull_factor(r1.y, r2.w, r3.x, r4.z);
    lemma_pull_factor(r1.w, r2.x, r3.y, r4.z);
    lemma_pull_factor(r1.x, r2.w, r3.y, r4.z);
    lemma_pull_factor(r1.y, r2.x, r3.w, r4.z);
    lemma_pull_factor(r1.x, r2.y, r3.w, r4.z);
    lemma_pull_factor(r1.z, r2.y, r3.x, r4.w);
    lemma_pull_factor(r1.y, r2.z, r3.x, r4.w);
    lemma_pull_factor(r1.z, r2.x, r3.y, r4.w);
    lemma_pull_factor(r1.x, r2.z, r3.y, r4.w);
    lemma_pull_factor(r1.y, r2.x, r3.z, r4.w);
    lemma_pull_factor(r1.x, r2.y, r3.z, r4.w);
    lemma_scale_pmmppm_left(r2.x, r1.w * r3.z * r4.y, r1.z * r3.w * r4.y, r1.w * r3.y * r4.z, r1.y * r3.w * r4.z, r1.z * r3.y * r4.w, r1.y * r3.z * r4.w);
    lemma_scale_mppmmp_left(r2.y, r1.w * r3.z * r4.x, r1.z * r3.w * r4.x, r1.w * r3.x * r4.z, r1.x * r3.w * r4.z, r1.z * r3.x * r4.w, r1.x * r3.z * r4.w);
    lemma_scale_pmmppm_left(r2.z, r1.w * r3.y * r4.x, r1.y * r3.w * r4.x, r1.w * r3.x * r4.y, r1.x * r3.w * r4.y, r1.y * r3.x * r4.w, r1.x * r3.y * r4.w);
    lemma_scale_mppmmp_left(r2.w, r1.z * r3.y * r4.x, r1.y * r3.z * r4.x, r1.z * r3.x * r4.y, r1.x * r3.z * r4.y, r1.y * r3.x * r4.z, r1.x * r3.y * r4.z);
}

proof fn lemma_det_rows_linear_2(c1: int, c2: int, c3: int, c4: int, s1: Vec4, s2: Vec4, s3: Vec4, s4: Vec4, r1: Vec4, r3: Vec4, r4: Vec4)
    ensures
        det_rows(r1, comb(c1, c2, c3, c4, s1, s2, s3, s4), r3, r4) == c1 * det_rows(r1, s1, r3, r4) + c2 * det_rows(r1, s2, r3, r4) + c3 * det_rows(r1, s3, r3, r4) + c4 * det_rows(r1, s4, r3, r4),
{
    lemma_det_rows_expand_2(r1, comb(c1, c2, c3, c4, s1, s2, s3, s4), r3, r4);
    lemma_det_rows_expand_2(r1, s1, r3, r4);
    lemma_det_rows_expand_2(r1, s2, r3, r4);
    lemma_det_rows_expand_2(r1, s3, r3, r4);
    lemma_det_rows_expand_2(r1, s4, r3, r4);
    lemma_distribute4_right(c1 * s1.x, c2 * s2.x, c3 * s3.x, c4 * s4.x, cofactor_21(r1, r3, r4));
    lemma_associate3(c1, s1.x, cofactor_21(r1, r3, r4));
    lemma_associate3(c2, s2.x, cofactor_21(r1, r3, r4));
    lemma_associate3(c3, s3.x, cofactor_21(r1, r3, r4));
    lemma_associate3(c4, s4.x, cofactor_21(r1, r3, r4));
    lemma_distribute4_right(c1 * s1.y, c2 * s2.y, c3 * s3.y, c4 * s4.y, cofactor_22(r1, r3, r4));
    lemma_associate3(c1, s1.y, cofactor_22(r1, r3, r4));
    lemma_associate3(c2, s2.y, cofactor_22(r1, r3, r4));
    lemma_associate3(c3, s3.y, cofactor_22(r1, r3, r4));
    lemma_associate3(c4, s4.y, cofactor_22(r1, r3, r4));
    lemma_distribute4_right(c1 * s1.z, c2 * s2.z, c3 * s3.z, c4 * s4.z, cofactor_23(r1, r3, r4));
    lemma_associate3(c1, s1.z, cofactor_23(r1, r3, r4));
    lemma_associate3(c2, s2.z, cofactor_23(r1, r3, r4));
    lemma_associate3(c3, s3.z, cofactor_23(r1, r3, r4));
    lemma_associate3(c4, s4.z, cofactor_23(r1, r3, r4));
    lemma_distribute4_right(c1 * s1.w, c2 * s2.w, c3 * s3.w, c4 * s4.w, cofactor_24(r1, r3, r4));
    lemma_associate3(c1, s1.w, cofactor_24(r1, r3, r4));
    lemma_associate3(c2, s2.w, cofactor_24(r1, r3, r4));
    lemma_associate3(c3, s3.w, cofactor_24(r1, r3, r4));
    lemma_associate3(c4, s4.w, cofactor_24(r1, r3, r4));
    lemma_distribute4_left(c1, s1.x * cofactor_21(r1, r3, r4), s1.y * cofactor_22(r1, r3, r4), s1.z * cofactor_23(r1, r3, r4), s1.w * cofactor_24(r1, r3, r4));
    lemma_distribute4_left(c2, s2.x * cofactor_21(r1, r3, r4), s2.y * cofactor_22(r1, r3, r4), s2.z * cofactor_23(r1, r3, r4), s2.w * cofactor_24(r1, r3, r4));
    lemma_distribute4_left(c3, s3.x * cofactor_21(r1, r3, r4), s3.y * cofactor_22(r1, r3, r4), s3.z * cofactor_23(r1, r3, r4), s3.w * cofactor_24(r1, r3, r4));
    lemma_distribute4_left(c4, s4.x * cofactor_21(r1, r3, r4), s4.y * cofactor_22(r1, r3, r4), s4.z * cofactor_23(r1, r3, r4), s4.w * cofactor_24(r1, r3, r4));
}

spec fn cofactor_31(r1: Vec4, r2: Vec4, r4: Vec4) -> int {
    -(r1.w * r2.z * r4.y) + r1.z * r2.w * r4.y + r1.w * r2.y * r4.z - r1.y * r2.w * r4.z - r1.z * r2.y * r4.w + r1.y * r2.z * r4.w
}

spec fn cofactor_32(r1: Vec4, r2: Vec4, r4: Vec4) -> int {
    r1.w * r2.z * r4.x - r1.z * r2.w * r4.x - r1.w * r2.x * r4.z + r1.x * r2.w * r4.z + r1.z * r2.x * r4.w - r1.x * r2.z * r4.w
}

spec fn cofactor_33(r1: Vec4, r2: Vec4, r4: Vec4) -> int {
    -(r1.w * r2.y * r4.x) + r1.y * r2.w * r4.x + r1.w * r2.x * r4.y - r1.x * r2.w * r4.y - r1.y * r2.x * r4.w + r1.x * r2.y * r4.w
}

spec fn cofactor_34(r1: Vec4, r2: Vec4, r4: Vec4) -> int {
    r1.z * r2.y * r4.x - r1.y * r2.z * r4.x - r1.z * r2.x * r4.y + r1.x * r2.z * r4.y + r1.y * r2.x * r4.z - r1.x * r2.y * r4.z
}

proof fn lemma_det_rows_expand_3(r1: Vec4, r2: Vec4, r3: Vec4, r4: Vec4)
    ensures
        det_rows(r1, r2, r3, r4) == r3.x * cofactor_31(r1, r2, r4) + r3.y * cofactor_32(r1, r2, r4) + r3.z * cofactor_33(r1, r2, r4) + r3.w * cofactor_34(r1, r2, r4),
{
    reveal(det_rows);
    lemma_pull_factor(r1.w, r2.z, r3.y, r4.x);
    lemma_pull_factor(r1.z, r2.w, r3.y, r4.x);
    lemma_pull_factor(r1.w, r2.y, r3.z, r4.x);
    lemma_pull_factor(r1.y, r2.w, r3.z, r4.x);
    lemma_pull_factor(r1.z, r2.y, r3.w, r4.x);
    lemma_pull_factor(r1.y, r2.z, r3.w, r4.x);
    lemma_pull_factor(r1.w, r2.z, r3.x, r4.y);
    lemma_pull_factor(r1.z, r2.w, r3.x, r4.y);
    lemma_pull_factor(r1.w, r2.x, r3.z, r4.y);
    lemma_pull_factor(r1.x, r2.w, r3.z, r4.y);
    lemma_pull_factor(r1.z, r2.x, r3.w, r4.y);
    lemma_pull_factor(r1.x, r2.z, r3.w, r4.y);
    lemma_pull_factor(r1.w, r2.y, r3.x, r4.z);
    lemma_pull_factor(r1.y, r2.w, r3.x, r4.z);
    lemma_pull_factor(r1.w, r2.x, r3.y, r4.z);
    lemma_pull_factor(r1.x, r2.w, r3.y, r4.z);
    lemma_pull_factor(r1.y, r2.x, r3.w, r4.z);
    lemma_pull_factor(r1.x, r2.y, r3.w, r4.z);
    lemma_pull_factor(r1.z, r2.y, r3.x, r4.w);
    lemma_pull_factor(r1.y, r2.z, r3.x, r4.w);
    lemma_pull_factor(r1.z, r2.x, r3.y, r4.w);
    lemma_pull_factor(r1.x, r2.z, r3.y, r4.w);
    lemma_pull_factor(r1.y, r2.x, r3.z, r4.w);
    lemma_pull_factor(r1.x, r2.y, r3.z, r4.w);
    lemma_scale_mppmmp_left(r3.x, r1.w * r2.z * r4.y, r1.z * r2.w * r4.y, r1.w * r2.y * r4.z, r1.y * r2.w * r4.z, r1.z * r2.y * r4.w, r1.y * r2.z * r4.w);
    lemma_scale_pmmppm_left(r3.y, r1.w * r2.z * r4.x, r1.z * r2.w * r4.x, r1.w * r2.x * r4.z, r1.x * r2.w * r4.z, r1.z * r2.x * r4.w, r1.x * r2.z * r4.w);
    lemma_scale_mppmmp_left(r3.z, r1.w * r2.y * r4.x, r1.y * r2.w * r4.x, r1.w * r2.x * r4.y, r1.x * r2.w * r4.y, r1.y * r2.x * r4.w, r1.x * r2.y * r4.w);
    lemma_scale_pmmppm_left(r3.w, r1.z * r2.y * r4.x, r1.y * r2.z * r4.x, r1.z * r2.x * r4.y, r1.x * r2.z * r4.y, r1.y * r2.x * r4.z, r1.x * r2.y * r4.z);
}

proof fn lemma_det_rows_linear_3(c1: int, c2: int, c3: int, c4: int, s1: Vec4, s2: Vec4, s3: Vec4, s4: Vec4, r1: Vec4, r2: Vec4, r4: Vec4)
    ensures
        det_rows(r1, r2, comb(c1, c2, c3, c4, s1, s2, s3, s4), r4) == c1 * det_rows(r1, r2, s1, r4) + c2 * det_rows(r1, r2, s2, r4) + c3 * det_rows(r1, r2, s3, r4) + c4 * det_rows(r1, r2, s4, r4),
{
    lemma_det_rows_expand_3(r1, r2, comb(c1, c2, c3, c4, s1, s2, s3, s4), r4);
    lemma_det_rows_expand_3(r1, r2, s1, r4);
    lemma_det_rows_expand_3(r1, r2, s2, r4);
    lemma_det_rows_expand_3(r1, r2, s3, r4);
    lemma_det_rows_expand_3(r1, r2, s4, r4);
    lemma_distribute4_right(c1 * s1.x, c2 * s2.x, c3 * s3.x, c4 * s4.x, cofactor_31(r1, r2, r4));
    lemma_associate3(c1, s1.x, cofactor_31(r1, r2, r4));
    lemma_associate3(c2, s2.x, cofactor_31(r1, r2, r4));
    lemma_associate3(c3, s3.x, cofactor_31(r1, r2, r4));
    lemma_associate3(c4, s4.x, cofactor_31(r1, r2, r4));
    lemma_distribute4_right(c1 * s1.y, c2 * s2.y, c3 * s3.y, c4 * s4.y, cofactor_32(r1, r2, r4));
    lemma_associate3(c1, s1.y, cofactor_32(r1, r2, r4));
    lemma_associate3(c2, s2.y, cofactor_32(r1, r2, r4));
    lemma_associate3(c3, s3.y, cofactor_32(r1, r2, r4));
    lemma_associate3(c4, s4.y, cofactor_32(r1, r2, r4));
    lemma_distribute4_right(c1 * s1.z, c2 * s2.z, c3 * s3.z, c4 * s4.z, cofactor_33(r1, r2, r4));
    lemma_associate3(c1, s1.z, cofactor_33(r1, r2, r4));
    lemma_associate3(c2, s2.z, cofactor_33(r1, r2, r4));
    lemma_associate3(c3, s3.z, cofactor_33(r1, r2, r4));
    lemma_associate3(c4, s4.z, cofactor_33(r1, r2, r4));
    lemma_distribute4_right(c1 * s1.w, c2 * s2.w, c3 * s3.w, c4 * s4.w, cofactor_34(r1, r2, r4));
    lemma_associate3(c1, s1.w, cofactor_34(r1, r2, r4));
    lemma_associate3(c2, s2.w, cofactor_34(r1, r2, r4));
    lemma_associate3(c3, s3.w, cofactor_34(r1, r2, r4));
    lemma_associate3(c4, s4.w, cofactor_34(r1, r2, r4));
    lemma_distribute4_left(c1, s1.x * cofactor_31(r1, r2, r4), s1.y * cofactor_32(r1, r2, r4), s1.z * cofactor_33(r1, r2, r4), s1.w * cofactor_34(r1, r2, r4));
    lemma_distribute4_left(c2, s2.x * cofactor_31(r1, r2, r4), s2.y * cofactor_32(r1, r2, r4), s2.z * cofactor_33(r1, r2, r4), s2.w * cofactor_34(r1, r2, r4));
    lemma_distribute4_left(c3, s3.x * cofactor_31(r1, r2, r4), s3.y * cofactor_32(r1, r2, r4), s3.z * cofactor_33(r1, r2, r4), s3.w * cofactor_34(r1, r2, r4));
    lemma_distribute4_left(c4, s4.x * cofactor_31(r1, r2, r4), s4.y * cofactor_32(r1, r2, r4), s4.z * cofactor_33(r1, r2, r4), s4.w * cofactor_34(r1, r2, r4));
}

spec fn cofactor_41(r1: Vec4, r2: Vec4, r3: Vec4) -> int {
    r1.w * r2.z * r3.y - r1.z * r2.w * r3.y - r1.w * r2.y * r3.z + r1.y * r2.w * r3.z + r1.z * r2.y * r3.w - r1.y * r2.z * r3.w
}

spec fn cofactor_42(r1: Vec4, r2: Vec4, r3: Vec4) -> int {
    -(r1.w * r2.z * r3.x) + r1.z * r2.w * r3.x + r1.w * r2.x * r3.z - r1.x * r2.w * r3.z - r1.z * r2.x * r3.w + r1.x * r2.z * r3.w
}

spec fn cofactor_43(r1: Vec4, r2: Vec4, r3: Vec4) -> int {
    r1.w * r2.y * r3.x - r1.y * r2.w * r3.x - r1.w * r2.x * r3.y + r1.x * r2.w * r3.y + r1.y * r2.x * r3.w - r1.x * r2.y * r3.w
}

spec fn cofactor_44(r1: Vec4, r2: Vec4, r3: Vec4) -> int {
    -(r1.z * r2.y * r3.x) + r1.y * r2.z * r3.x + r1.z * r2.x * r3.y - r1.x * r2.z * r3.y - r1.y * r2.x * r3.z + r1.x * r2.y * r3.z
}

proof fn lemma_det_rows_expand_4(r1: Vec4, r2: Vec4, r3: Vec4, r4: Vec4)
    ensures
        det_rows(r1, r2, r3, r4) == r4.x * cofactor_41(r1, r2, r3) + r4.y * cofactor_42(r1, r2, r3) + r4.z * cofactor_43(r1, r2, r3) + r4.w * cofactor_44(r1, r2, r3),
{
    reveal(det_rows);
    lemma_pull_factor(r1.w, r2.z, r3.y, r4.x);
    lemma_pull_factor(r1.z, r2.w, r3.y, r4.x);
    lemma_pull_factor(r1.w, r2.y, r3.z, r4.x);
    lemma_pull_factor(r1.y, r2.w, r3.z, r4.x);
    lemma_pull_factor(r1.z, r2.y, r3.w, r4.x);
    lemma_pull_factor(r1.y, r2.z, r3.w, r4.x);
    lemma_pull_factor(r1.w, r2.z, r3.x, r4.y);
    lemma_pull_factor(r1.z, r2.w, r3.x, r4.y);
    lemma_pull_factor(r1.w, r2.x, r3.z, r4.y);
    lemma_pull_factor(r1.x, r2.w, r3.z, r4.y);
    lemma_pull_factor(r1.z, r2.x, r3.w, r4.y);
    lemma_pull_factor(r1.x, r2.z, r3.w, r4.y);
    lemma_pull_factor(r1.w, r2.y, r3.x, r4.z);
    lemma_pull_factor(r1.y, r2.w, r3.x, r4.z);
    lemma_pull_factor(r1.w, r2.x, r3.y, r4.z);
    lemma_pull_factor(r1.x, r2.w, r3.y, r4.z);
    lemma_pull_factor(r1.y, r2.x, r3.w, r4.z);
    lemma_pull_factor(r1.x, r2.y, r3.w, r4.z);
    lemma_pull_factor(r1.z, r2.y, r3.x, r4.w);
    lemma_pull_factor(r1.y, r2.z, r3.x, r4.w);
    lemma_pull_factor(r1.z, r2.x, r3.y, r4.w);
    lemma_pull_factor(r1.x, r2.z, r3.y, r4.w);
    lemma_pull_factor(r1.y, r2.x, r3.z, r4.w);
    lemma_pull_factor(r1.x, r2.y, r3.z, r4.w);
    lemma_scale_pmmppm_left(r4.x, r1.w * r2.z * r3.y, r1.z * r2.w * r3.y, r1.w * r2.y * r3.z, r1.y * r2.w * r3.z, r1.z * r2.y * r3.w, r1.y * r2.z * r3.w);
    lemma_scale_mppmmp_left(r4.y, r1.w * r2.z * r3.x, r1.z * r2.w * r3.x, r1.w * r2.x * r3.z, r1.x * r2.w * r3.z, r1.z * r2.x * r3.w, r1.x * r2.z * r3.w);
    lemma_scale_pmmppm_left(r4.z, r1.w * r2.y * r3.x, r1.y * r2.w * r3.x, r1.w * r2.x * r3.y, r1.x * r2.w * r3.y, r1.y * r2.x * r3.w, r1.x * r2.y * r3.w);
    lemma_scale_mppmmp_left(r4.w, r1.z * r2.y * r3.x, r1.y * r2.z * r3.x, r1.z * r2.x * r3.y, r1.x * r2.z * r3.y, r1.y * r2.x * r3.z, r1.x * r2.y * r3.z);
}

proof fn lemma_det_rows_linear_4(c1: int, c2: int, c3: int, c4: int, s1: Vec4, s2: Vec4, s3: Vec4, s4: Vec4, r1: Vec4, r2: Vec4, r3: Vec4)
    ensures
        det_rows(r1, r2, r3, comb(c1, c2, c3, c4, s1, s2, s3, s4)) == c1 * det_rows(r1, r2, r3, s1) + c2 * det_rows(r1, r2, r3, s2) + c3 * det_rows(r1, r2, r3, s3) + c4 * det_rows(r1, r2, r3, s4),
{
    lemma_det_rows_expand_4(r1, r2, r3, comb(c1, c2, c3, c4, s1, s2, s3, s4));
    lemma_det_rows_expand_4(r1, r2, r3, s1);
    lemma_det_rows_expand_4(r1, r2, r3, s2);
    lemma_det_rows_expand_4(r1, r2, r3, s3);
    lemma_det_rows_expand_4(r1, r2, r3, s4);
    lemma_distribute4_right(c1 * s1.x, c2 * s2.x, c3 * s3.x, c4 * s4.x, cofactor_41(r1, r2, r3));
    lemma_associate3(c1, s1.x, cofactor_41(r1, r2, r3));
    lemma_associate3(c2, s2.x, cofactor_41(r1, r2, r3));
    lemma_associate3(c3, s3.x, cofactor_41(r1, r2, r3));
    lemma_associate3(c4, s4.x, cofactor_41(r1, r2, r3));
    lemma_distribute4_right(c1 * s1.y, c2 * s2.y, c3 * s3.y, c4 * s4.y, cofactor_42(r1, r2, r3));
    lemma_associate3(c1, s1.y, cofactor_42(r1, r2, r3));
    lemma_associate3(c2, s2.y, cofactor_42(r1, r2, r3));
    lemma_associate3(c3, s3.y, cofactor_42(r1, r2, r3));
    lemma_associate3(c4, s4.y, cofactor_42(r1, r2, r3));
    lemma_distribute4_right(c1 * s1.z, c2 * s2.z, c3 * s3.z, c4 * s4.z, cofactor_43(r1, r2, r3));
    lemma_associate3(c1, s1.z, cofactor_43(r1, r2, r3));
    lemma_associate3(c2, s2.z, cofactor_43(r1, r2, r3));
    lemma_associate3(c3, s3.z, cofactor_43(r1, r2, r3));
    lemma_associate3(c4, s4.z, cofactor_43(r1, r2, r3));
    lemma_distribute4_right(c1 * s1.w, c2 * s2.w, c3 * s3.w, c4 * s4.w, cofactor_44(r1, r2, r3));
    lemma_associate3(c1, s1.w, cofactor_44(r1, r2, r3));
    lemma_associate3(c2, s2.w, cofactor_44(r1, r2, r3));
    lemma_associate3(c3, s3.w, cofactor_44(r1, r2, r3));
    lemma_associate3(c4, s4.w, cofactor_44(r1, r2, r3));
    lemma_distribute4_left(c1, s1.x * cofactor_41(r1, r2, r3), s1.y * cofactor_42(r1, r2, r3), s1.z * cofactor_43(r1, r2, r3), s1.w * cofactor_44(r1, r2, r3));
    lemma_distribute4_left(c2, s2.x * cofactor_41(r1, r2, r3), s2.y * cofactor_42(r1, r2, r3), s2.z * cofactor_43(r1, r2, r3), s2.w * cofactor_44(r1, r2, r3));
    lemma_distribute4_left(c3, s3.x * cofactor_41(r1, r2, r3), s3.y * cofactor_42(r1, r2, r3), s3.z * cofactor_43(r1, r2, r3), s3.w * cofactor_44(r1, r2, r3));
    lemma_distribute4_left(c4, s4.x * cofactor_41(r1, r2, r3), s4.y * cofactor_42(r1, r2, r3), s4.z * cofactor_43(r1, r2, r3), s4.w * cofactor_44(r1, r2, r3));
}

proof fn lemma_det_rows_repeated_12(r1: Vec4, r2: Vec4, r3: Vec4, r4: Vec4)
    requires
        r1 == r2,
    ensures
        det_rows(r1, r2, r3, r4) == 0,
{
    reveal(det_rows);
    assert(r1.w * r2.z * r3.y * r4.x == r2.z * r1.w * r3.y * r4.x) by (nonlinear_arith);
    assert(r1.w * r2.y * r3.z * r4.x == r2.y * r1.w * r3.z * r4.x) by (nonlinear_arith);
    assert(r1.z * r2.y * r3.w * r4.x == r2.y * r1.z * r3.w * r4.x) by (nonlinear_arith);
    assert(r1.w * r2.z * r3.x * r4.y == r2.z * r1.w * r3.x * r4.y) by (nonlinear_arith);
    assert(r1.w * r2.x * r3.z * r4.y == r2.x * r1.w * r3.z * r4.y) by (nonlinear_arith);
    assert(r1.z * r2.x * r3.w * r4.y == r2.x * r1.z * r3.w * r4.y) by (nonlinear_arith);
    assert(r1.w * r2.y * r3.x * r4.z == r2.y * r1.w * r3.x * r4.z) by (nonlinear_arith);
    assert(r1.w * r2.x * r3.y * r4.z == r2.x * r1.w * r3.y * r4.z) by (nonlinear_arith);
    assert(r1.y * r2.x * r3.w * r4.z == r2.x * r1.y * r3.w * r4.z) by (nonlinear_arith);
    assert(r1.z * r2.y * r3.x * r4.w == r2.y * r1.z * r3.x * r4.w) by (nonlinear_arith);
    assert(r1.z * r2.x * r3.y * r4.w == r2.x * r1.z * r3.y * r4.w) by (nonlinear_arith);
    assert(r1.y * r2.x * r3.z * r4.w == r2.x * r1.y * r3.z * r4.w) by (nonlinear_arith);
}

proof fn lemma_det_rows_repeated_13(r1: Vec4, r2: Vec4, r3: Vec4, r4: Vec4)
    requires
        r1 == r3,
    ensures
        det_rows(r1, r2, r3, r4) == 0,
{
    reveal(det_rows);
    assert(r1.w * r2.z * r3.y * r4.x == r3.y * r1.w * r2.z * r4.x) by (nonlinear_arith);
    assert(r1.z * r2.w * r3.y * r4.x == r3.y * r1.z * r2.w * r4.x) by (nonlinear_arith);
    assert(r1.w * r2.y * r3.z * r4.x == r3.z * r1.w * r2.y * r4.x) by (nonlinear_arith);
    assert(r1.y * r2.w * r3.z * r4.x == r1.y * r3.z * r2.w * r4.x) by (nonlinear_arith);
    assert(r1.z * r2.y * r3.w * r4.x == r1.z * r3.w * r2.y * r4.x) by (nonlinear_arith);
    assert(r1.y * r2.z * r3.w * r4.x == r1.y * r3.w * r2.z * r4.x) by (nonlinear_arith);
    assert(r1.w * r2.z * r3.x * r4.y == r3.x * r1.w * r2.z * r4.y) by (nonlinear_arith);
    assert(r1.z * r2.w * r3.x * r4.y == r3.x * r1.z * r2.w * r4.y) by (nonlinear_arith);
    assert(r1.w * r2.x * r3.z * r4.y == r3.z * r1.w * r2.x * r4.y) by (nonlinear_arith);
    assert(r1.x * r2.w * r3.z * r4.y == r1.x * r3.z * r2.w * r4.y) by (nonlinear_arith);
    assert(r1.z * r2.x * r3.w * r4.y == r1.z * r3.w * r2.x * r4.y) by (nonlinear_arith);
    assert(r1.x * r2.z * r3.w * r4.y == r1.x * r3.w * r2.z * r4.y) by (nonlinear_arith);
    assert(r1.w * r2.y * r3.x * r4.z == r3.x * r1.w * r2.y * r4.z) by (nonlinear_arith);
    assert(r1.y * r2.w * r3.x * r4.z == r3.x * r1.y * r2.w * r4.z) by (nonlinear_arith);
    assert(r1.w * r2.x * r3.y * r4.z == r3.y * r1.w * r2.x * r4.z) by (nonlinear_arith);
    assert(r1.x * r2.w * r3.y * r4.z == r1.x * r3.y * r2.w * r4.z) by (nonlinear_arith);
    assert(r1.y * r2.x * r3.w * r4.z == r1.y * r3.w * r2.x * r4.z) by (nonlinear_arith);
    assert(r1.x * r2.y * r3.w * r4.z == r1.x * r3.w * r2.y * r4.z) by (nonlinear_arith);
    assert(r1.z * r2.y * r3.x * r4.w == r3.x * r1.z * r2.y * r4.w) by (nonlinear_arith);
    assert(r1.y * r2.z * r3.x * r4.w == r3.x * r1.y * r2.z * r4.w) by (nonlinear_arith);
    assert(r1.z * r2.x * r3.y * r4.w == r3.y * r1.z * r2.x * r4.w) by (nonlinear_arith);
    assert(r1.x * r2.z * r3.y * r4.w == r1.x * r3.y * r2.z * r4.w) by (nonlinear_arith);
    assert(r1.y * r2.x * r3.z * r4.w == r1.y * r3.z * r2.x * r4.w) by (nonlinear_arith);
    assert(r1.x * r2.y * r3.z * r4.w == r1.x * r3.z * r2.y * r4.w) by (nonlinear_arith);
}

proof fn lemma_det_rows_repeated_14(r1: Vec4, r2: Vec4, r3: Vec4, r4: Vec4)
    requires
        r1 == r4,
    ensures
        det_rows(r1, r2, r3, r4) == 0,
{
    reveal(det_rows);
    assert(r1.w * r2.z * r3.y * r4.x == r4.x * r1.w * r2.z * r3.y) by (nonlinear_arith);
    assert(r1.z * r2.w * r3.y * r4.x == r4.x * r1.z * r2.w * r3.y) by (nonlinear_arith);
    assert(r1.w * r2.y * r3.z * r4.x == r4.x * r1.w * r2.y * r3.z) by (nonlinear_arith);
    assert(r1.y * r2.w * r3.z * r4.x == r4.x * r1.y * r2.w * r3.z) by (nonlinear_arith);
    assert(r1.z * r2.y * r3.w * r4.x == r4.x * r1.z * r2.y * r3.w) by (nonlinear_arith);
    assert(r1.y * r2.z * r3.w * r4.x == r4.x * r1.y * r2.z * r3.w) by (nonlinear_arith);
    assert(r1.w * r2.z * r3.x * r4.y == r4.y * r1.w * r2.z * r3.x) by (nonlinear_arith);
    assert(r1.z * r2.w * r3.x * r4.y == r4.y * r1.z * r2.w * r3.x) by (nonlinear_arith);
    assert(r1.w * r2.x * r3.z * r4.y == r4.y * r1.w * r2.x * r3.z) by (nonlinear_arith);
    assert(r1.x * r2.w * r3.z * r4.y == r1.x * r4.y * r2.w * r3.z) by (nonlinear_arith);
    assert(r1.z * r2.x * r3.w * r4.y == r4.y * r1.z * r2.x * r3.w) by (nonlinear_arith);
    assert(r1.x * r2.z * r3.w * r4.y == r1.x * r4.y * r2.z * r3.w) by (nonlinear_arith);
    assert(r1.w * r2.y * r3.x * r4.z == r4.z * r1.w * r2.y * r3.x) by (nonlinear_arith);
    assert(r1.y * r2.w * r3.x * r4.z == r1.y * r4.z * r2.w * r3.x) by (nonlinear_arith);
    assert(r1.w * r2.x * r3.y * r4.z == r4.z * r1.w * r2.x * r3.y) by (nonlinear_arith);
    assert(r1.x * r2.w * r3.y * r4.z == r1.x * r4.z * r2.w * r3.y) by (nonlinear_arith);
    assert(r1.y * r2.x * r3.w * r4.z == r1.y * r4.z * r2.x * r3.w) by (nonlinear_arith);
    assert(r1.x * r2.y * r3.w * r4.z == r1.x * r4.z * r2.y * r3.w) by (nonlinear_arith);
    assert(r1.z * r2.y * r3.x * r4.w == r1.z * r4.w * r2.y * r3.x) by (nonlinear_arith);
    assert(r1.y * r2.z * r3.x * r4.w == r1.y * r4.w * r2.z * r3.x) by (nonlinear_arith);
    assert(r1.z * r2.x * r3.y * r4.w == r1.z * r4.w * r2.x * r3.y) by (nonlinear_arith);
    assert(r1.x * r2.z * r3.y * r4.w == r1.x * r4.w * r2.z * r3.y) by (nonlinear_arith);
    assert(r1.y * r2.x * r3.z * r4.w == r1.y * r4.w * r2.x * r3.z) by (nonlinear_arith);
    assert(r1.x * r2.y * r3.z * r4.w == r1.x * r4.w * r2.y * r3.z) by (nonlinear_arith);
}

proof fn lemma_det_rows_repeated_23(r1: Vec4, r2: Vec4, r3: Vec4, r4: Vec4)
    requires
        r2 == r3,
    ensures
        det_rows(r1, r2, r3, r4) == 0,
{
    reveal(det_rows);
    assert(r1.w * r2.z * r3.y * r4.x == r1.w * r3.y * r2.z * r4.x) by (nonlinear_arith);
    assert(r1.z * r2.w * r3.y * r4.x == r1.z * r3.y * r2.w * r4.x) by (nonlinear_arith);
    assert(r1.y * r2.w * r3.z * r4.x == r1.y * r3.z * r2.w * r4.x) by (nonlinear_arith);
    assert(r1.w * r2.z * r3.x * r4.y == r1.w * r3.x * r2.z * r4.y) by (nonlinear_arith);
    assert(r1.z * r2.w * r3.x * r4.y == r1.z * r3.x * r2.w * r4.y) by (nonlinear_arith);
    assert(r1.x * r2.w * r3.z * r4.y == r1.x * r3.z * r2.w * r4.y) by (nonlinear_arith);
    assert(r1.w * r2.y * r3.x * r4.z == r1.w * r3.x * r2.y * r4.z) by (nonlinear_arith);
    assert(r1.y * r2.w * r3.x * r4.z == r1.y * r3.x * r2.w * r4.z) by (nonlinear_arith);
    assert(r1.x * r2.w * r3.y * r4.z == r1.x * r3.y * r2.w * r4.z) by (nonlinear_arith);
    assert(r1.z * r2.y * r3.x * r4.w == r1.z * r3.x * r2.y * r4.w) by (nonlinear_arith);
    assert(r1.y * r2.z * r3.x * r4.w == r1.y * r3.x * r2.z * r4.w) by (nonlinear_arith);
    assert(r1.x * r2.z * r3.y * r4.w == r1.x * r3.y * r2.z * r4.w) by (nonlinear_arith);
}

proof fn lemma_det_rows_repeated_24(r1: Vec4, r2: Vec4, r3: Vec4, r4: Vec4)
    requires
        r2 == r4,
    ensures
        det_rows(r1, r2, r3, r4) == 0,
{
    reveal(det_rows);
    assert(r1.w * r2.z * r3.y * r4.x == r1.w * r4.x * r2.z * r3.y) by (nonlinear_arith);
    assert(r1.z * r2.w * r3.y * r4.x == r1.z * r4.x * r2.w * r3.y) by (nonlinear_arith);
    assert(r1.w * r2.y * r3.z * r4.x == r1.w * r4.x * r2.y * r3.z) by (nonlinear_arith);
    assert(r1.y * r2.w * r3.z * r4.x == r1.y * r4.x * r2.w * r3.z) by (nonlinear_arith);
    assert(r1.z * r2.y * r3.w * r4.x == r1.z * r4.x * r2.y * r3.w) by (nonlinear_arith);
    assert(r1.y * r2.z * r3.w * r4.x == r1.y * r4.x * r2.z * r3.w) by (nonlinear_arith);
    assert(r1.w * r2.z * r3.x * r4.y == r1.w * r4.y * r2.z * r3.x) by (nonlinear_arith);
    assert(r1.z * r2.w * r3.x * r4.y == r1.z * r4.y * r2.w * r3.x) by (nonlinear_arith);
    assert(r1.w * r2.x * r3.z * r4.y == r1.w * r2.x * r4.y * r3.z) by (nonlinear_arith);
    assert(r1.x * r2.w * r3.z * r4.y == r1.x * r4.y * r2.w * r3.z) by (nonlinear_arith);
    assert(r1.z * r2.x * r3.w * r4.y == r1.z * r2.x * r4.y * r3.w) by (nonlinear_arith);
    assert(r1.x * r2.z * r3.w * r4.y == r1.x * r4.y * r2.z * r3.w) by (nonlinear_arith);
    assert(r1.w * r2.y * r3.x * r4.z == r1.w * r2.y * r4.z * r3.x) by (nonlinear_arith);
    assert(r1.y * r2.w * r3.x * r4.z == r1.y * r4.z * r2.w * r3.x) by (nonlinear_arith);
    assert(r1.w * r2.x * r3.y * r4.z == r1.w * r2.x * r4.z * r3.y) by (nonlinear_arith);
    assert(r1.x * r2.w * r3.y * r4.z == r1.x * r4.z * r2.w * r3.y) by (nonlinear_arith);
    assert(r1.y * r2.x * r3.w * r4.z == r1.y * r2.x * r4.z * r3.w) by (nonlinear_arith);
    assert(r1.x * r2.y * r3.w * r4.z == r1.x * r2.y * r4.z * r3.w) by (nonlinear_arith);
    assert(r1.z * r2.y * r3.x * r4.w == r1.z * r2.y * r4.w * r3.x) by (nonlinear_arith);
    assert(r1.y * r2.z * r3.x * r4.w == r1.y * r2.z * r4.w * r3.x) by (nonlinear_arith);
    assert(r1.z * r2.x * r3.y * r4.w == r1.z * r2.x * r4.w * r3.y) by (nonlinear_arith);
    assert(r1.x * r2.z * r3.y * r4.w == r1.x * r2.z * r4.w * r3.y) by (nonlinear_arith);
    assert(r1.y * r2.x * r3.z * r4.w == r1.y * r2.x * r4.w * r3.z) by (nonlinear_arith);
    assert(r1.x * r2.y * r3.z * r4.w == r1.x * r2.y * r4.w * r3.z) by (nonlinear_arith);
}

proof fn lemma_det_rows_repeated_34(r1: Vec4, r2: Vec4, r3: Vec4, r4: Vec4)
    requires
        r3 == r4,
    ensures
        det_rows(r1, r2, r3, r4) == 0,
{
    reveal(det_rows);
    assert(r1.w * r2.z * r3.y * r4.x == r1.w * r2.z * r4.x * r3.y) by (nonlinear_arith);
    assert(r1.z * r2.w * r3.y * r4.x == r1.z * r2.w * r4.x * r3.y) by (nonlinear_arith);
    assert(r1.w * r2.y * r3.z * r4.x == r1.w * r2.y * r4.x * r3.z) by (nonlinear_arith);
    assert(r1.y * r2.w * r3.z * r4.x == r1.y * r2.w * r4.x * r3.z) by (nonlinear_arith);
    assert(r1.z * r2.y * r3.w * r4.x == r1.z * r2.y * r4.x * r3.w) by (nonlinear_arith);
    assert(r1.y * r2.z * r3.w * r4.x == r1.y * r2.z * r4.x * r3.w) by (nonlinear_arith);
    assert(r1.w * r2.x * r3.z * r4.y == r1.w * r2.x * r4.y * r3.z) by (nonlinear_arith);
    assert(r1.x * r2.w * r3.z * r4.y == r1.x * r2.w * r4.y * r3.z) by (nonlinear_arith);
    assert(r1.z * r2.x * r3.w * r4.y == r1.z * r2.x * r4.y * r3.w) by (nonlinear_arith);
    assert(r1.x * r2.z * r3.w * r4.y == r1.x * r2.z * r4.y * r3.w) by (nonlinear_arith);
    assert(r1.y * r2.x * r3.w * r4.z == r1.y * r2.x * r4.z * r3.w) by (nonlinear_arith);
    assert(r1.x * r2.y * r3.w * r4.z == r1.x * r2.y * r4.z * r3.w) by (nonlinear_arith);
}

proof fn lemma_det_rows_swap_12(r1: Vec4, r2: Vec4, r3: Vec4, r4: Vec4)
    ensures
        det_rows(r2, r1, r3, r4) == -det_rows(r1, r2, r3, r4),
{
    reveal(det_rows);
    assert(r2.w * r1.z * r3.y * r4.x == r1.z * r2.w * r3.y * r4.x) by (nonlinear_arith);
    assert(r2.z * r1.w * r3.y * r4.x == r1.w * r2.z * r3.y * r4.x) by (nonlinear_arith);
    assert(r2.w * r1.y * r3.z * r4.x == r1.y * r2.w * r3.z * r4.x) by (nonlinear_arith);
    assert(r2.y * r1.w * r3.z * r4.x == r1.w * r2.y * r3.z * r4.x) by (nonlinear_arith);
    assert(r2.z * r1.y * r3.w * r4.x == r1.y * r2.z * r3.w * r4.x) by (nonlinear_arith);
    assert(r2.y * r1.z * r3.w * r4.x == r1.z * r2.y * r3.w * r4.x) by (nonlinear_arith);
    assert(r2.w * r1.z * r3.x * r4.y == r1.z * r2.w * r3.x * r4.y) by (nonlinear_arith);
    assert(r2.z * r1.w * r3.x * r4.y == r1.w * r2.z * r3.x * r4.y) by (nonlinear_arith);
    assert(r2.w * r1.x * r3.z * r4.y == r1.x * r2.w * r3.z * r4.y) by (nonlinear_arith);
    assert(r2.x * r1.w * r3.z * r4.y == r1.w * r2.x * r3.z * r4.y) by (nonlinear_arith);
    assert(r2.z * r1.x * r3.w * r4.y == r1.x * r2.z * r3.w * r4.y) by (nonlinear_arith);
    assert(r2.x * r1.z * r3.w * r4.y == r1.z * r2.x * r3.w * r4.y) by (nonlinear_arith);
    assert(r2.w * r1.y * r3.x * r4.z == r1.y * r2.w * r3.x * r4.z) by (nonlinear_arith);
    assert(r2.y * r1.w * r3.x * r4.z == r1.w * r2.y * r3.x * r4.z) by (nonlinear_arith);
    assert(r2.w * r1.x * r3.y * r4.z == r1.x * r2.w * r3.y * r4.z) by (nonlinear_arith);
    assert(r2.x * r1.w * r3.y * r4.z == r1.w * r2.x * r3.y * r4.z) by (nonlinear_arith);
    assert(r2.y * r1.x * r3.w * r4.z == r1.x * r2.y * r3.w * r4.z) by (nonlinear_arith);
    assert(r2.x * r1.y * r3.w * r4.z == r1.y * r2.x * r3.w * r4.z) by (nonlinear_arith);
    assert(r2.z * r1.y * r3.x * r4.w == r1.y * r2.z * r3.x * r4.w) by (nonlinear_arith);
    assert(r2.y * r1.z * r3.x * r4.w == r1.z * r2.y * r3.x * r4.w) by (nonlinear_arith);
    assert(r2.z * r1.x * r3.y * r4.w == r1.x * r2.z * r3.y * r4.w) by (nonlinear_arith);
    assert(r2.x * r1.z * r3.y * r4.w == r1.z * r2.x * r3.y * r4.w) by (nonlinear_arith);
    assert(r2.y * r1.x * r3.z * r4.w == r1.x * r2.y * r3.z * r4.w) by (nonlinear_arith);
    assert(r2.x * r1.y * r3.z * r4.w == r1.y * r2.x * r3.z * r4.w) by (nonlinear_arith);
}

proof fn lemma_det_rows_swap_23(r1: Vec4, r2: Vec4, r3: Vec4, r4: Vec4)
    ensures
        det_rows(r1, r3, r2, r4) == -det_rows(r1, r2, r3, r4),
{
    reveal(det_rows);
    assert(r1.w * r3.z * r2.y * r4.x == r1.w * r2.y * r3.z * r4.x) by (nonlinear_arith);
    assert(r1.z * r3.w * r2.y * r4.x == r1.z * r2.y * r3.w * r4.x) by (nonlinear_arith);
    assert(r1.w * r3.y * r2.z * r4.x == r1.w * r2.z * r3.y * r4.x) by (nonlinear_arith);
    assert(r1.y * r3.w * r2.z * r4.x == r1.y * r2.z * r3.w * r4.x) by (nonlinear_arith);
    assert(r1.z * r3.y * r2.w * r4.x == r1.z * r2.w * r3.y * r4.x) by (nonlinear_arith);
    assert(r1.y * r3.z * r2.w * r4.x == r1.y * r2.w * r3.z * r4.x) by (nonlinear_arith);
    assert(r1.w * r3.z * r2.x * r4.y == r1.w * r2.x * r3.z * r4.y) by (nonlinear_arith);
    assert(r1.z * r3.w * r2.x * r4.y == r1.z * r2.x * r3.w * r4.y) by (nonlinear_arith);
    assert(r1.w * r3.x * r2.z * r4.y == r1.w * r2.z * r3.x * r4.y) by (nonlinear_arith);
    assert(r1.x * r3.w * r2.z * r4.y == r1.x * r2.z * r3.w * r4.y) by (nonlinear_arith);
    assert(r1.z * r3.x * r2.w * r4.y == r1.z * r2.w * r3.x * r4.y) by (nonlinear_arith);
    assert(r1.x * r3.z * r2.w * r4.y == r1.x * r2.w * r3.z * r4.y) by (nonlinear_arith);
    assert(r1.w * r3.y * r2.x * r4.z == r1.w * r2.x * r3.y * r4.z) by (nonlinear_arith);
    assert(r1.y * r3.w * r2.x * r4.z == r1.y * r2.x * r3.w * r4.z) by (nonlinear_arith);
    assert(r1.w * r3.x * r2.y * r4.z == r1.w * r2.y * r3.x * r4.z) by (nonlinear_arith);
    assert(r1.x * r3.w * r2.y * r4.z == r1.x * r2.y * r3.w * r4.z) by (nonlinear_arith);
    assert(r1.y * r3.x * r2.w * r4.z == r1.y * r2.w * r3.x * r4.z) by (nonlinear_arith);
    assert(r1.x * r3.y * r2.w * r4.z == r1.x * r2.w * r3.y * r4.z) by (nonlinear_arith);
    assert(r1.z * r3.y * r2.x * r4.w == r1.z * r2.x * r3.y * r4.w) by (nonlinear_arith);
    assert(r1.y * r3.z * r2.x * r4.w == r1.y * r2.x * r3.z * r4.w) by (nonlinear_arith);
    assert(r1.z * r3.x * r2.y * r4.w == r1.z * r2.y * r3.x * r4.w) by (nonlinear_arith);
    assert(r1.x * r3.z * r2.y * r4.w == r1.x * r2.y * r3.z * r4.w) by (nonlinear_arith);
    assert(r1.y * r3.x * r2.z * r4.w == r1.y * r2.z * r3.x * r4.w) by (nonlinear_arith);
    assert(r1.x * r3.y * r2.z * r4.w == r1.x * r2.z * r3.y * r4.w) by (nonlinear_arith);
}

proof fn lemma_det_rows_swap_34(r1: Vec4, r2: Vec4, r3: Vec4, r4: Vec4)
    ensures
        det_rows(r1, r2, r4, r3) == -det_rows(r1, r2, r3, r4),
{
    reveal(det_rows);
    assert(r1.w * r2.z * r4.y * r3.x == r1.w * r2.z * r3.x * r4.y) by (nonlinear_arith);
    assert(r1.z * r2.w * r4.y * r3.x == r1.z * r2.w * r3.x * r4.y) by (nonlinear_arith);
    assert(r1.w * r2.y * r4.z * r3.x == r1.w * r2.y * r3.x * r4.z) by (nonlinear_arith);
    assert(r1.y * r2.w * r4.z * r3.x == r1.y * r2.w * r3.x * r4.z) by (nonlinear_arith);
    assert(r1.z * r2.y * r4.w * r3.x == r1.z * r2.y * r3.x * r4.w) by (nonlinear_arith);
    assert(r1.y * r2.z * r4.w * r3.x == r1.y * r2.z * r3.x * r4.w) by (nonlinear_arith);
    assert(r1.w * r2.z * r4.x * r3.y == r1.w * r2.z * r3.y * r4.x) by (nonlinear_arith);
    assert(r1.z * r2.w * r4.x * r3.y == r1.z * r2.w * r3.y * r4.x) by (nonlinear_arith);
    assert(r1.w * r2.x * r4.z * r3.y == r1.w * r2.x * r3.y * r4.z) by (nonlinear_arith);
    assert(r1.x * r2.w * r4.z * r3.y == r1.x * r2.w * r3.y * r4.z) by (nonlinear_arith);
    assert(r1.z * r2.x * r4.w * r3.y == r1.z * r2.x * r3.y * r4.w) by (nonlinear_arith);
    assert(r1.x * r2.z * r4.w * r3.y == r1.x * r2.z * r3.y * r4.w) by (nonlinear_arith);
    assert(r1.w * r2.y * r4.x * r3.z == r1.w * r2.y * r3.z * r4.x) by (nonlinear_arith);
    assert(r1.y * r2.w * r4.x * r3.z == r1.y * r2.w * r3.z * r4.x) by (nonlinear_arith);
    assert(r1.w * r2.x * r4.y * r3.z == r1.w * r2.x * r3.z * r4.y) by (nonlinear_arith);
    assert(r1.x * r2.w * r4.y * r3.z == r1.x * r2.w * r3.z * r4.y) by (nonlinear_arith);
    assert(r1.y * r2.x * r4.w * r3.z == r1.y * r2.x * r3.z * r4.w) by (nonlinear_arith);
    assert(r1.x * r2.y * r4.w * r3.z == r1.x * r2.y * r3.z * r4.w) by (nonlinear_arith);
    assert(r1.z * r2.y * r4.x * r3.w == r1.z * r2.y * r3.w * r4.x) by (nonlinear_arith);
    assert(r1.y * r2.z * r4.x * r3.w == r1.y * r2.z * r3.w * r4.x) by (nonlinear_arith);
    assert(r1.z * r2.x * r4.y * r3.w == r1.z * r2.x * r3.w * r4.y) by (nonlinear_arith);
    assert(r1.x * r2.z * r4.y * r3.w == r1.x * r2.z * r3.w * r4.y) by (nonlinear_arith);
    assert(r1.y * r2.x * r4.z * r3.w == r1.y * r2.x * r3.w * r4.z) by (nonlinear_arith);
    assert(r1.x * r2.y * r4.z * r3.w == r1.x * r2.y * r3.w * r4.z) by (nonlinear_arith);
}

proof fn lemma_adjugate_cofactors(m: Mat4)
    ensures
        mat_adjugate(m).m11 == cofactor_11(mat_row(m, 2), mat_row(m, 3), mat_row(m, 4)),
        mat_adjugate(m).m21 == cofactor_12(mat_row(m, 2), mat_row(m, 3), mat_row(m, 4)),
        mat_adjugate(m).m31 == cofactor_13(mat_row(m, 2), mat_row(m, 3), mat_row(m, 4)),
        mat_adjugate(m).m41 == cofactor_14(mat_row(m, 2), mat_row(m, 3), mat_row(m, 4)),
        mat_adjugate(m).m12 == cofactor_21(mat_row(m, 1), mat_row(m, 3), mat_row(m, 4)),
        mat_adjugate(m).m22 == cofactor_22(mat_row(m, 1), mat_row(m, 3), mat_row(m, 4)),
        mat_adjugate(m).m32 == cofactor_23(mat_row(m, 1), mat_row(m, 3), mat_row(m, 4)),
        mat_adjugate(m).m42 == cofactor_24(mat_row(m, 1), mat_row(m, 3), mat_row(m, 4)),
        mat_adjugate(m).m13 == cofactor_31(mat_row(m, 1), mat_row(m, 2), mat_row(m, 4)),
        mat_adjugate(m).m23 == cofactor_32(mat_row(m, 1), mat_row(m, 2), mat_row(m, 4)),
        mat_adjugate(m).m33 == cofactor_33(mat_row(m, 1), mat_row(m, 2), mat_row(m, 4)),
        mat_adjugate(m).m43 == cofactor_34(mat_row(m, 1), mat_row(m, 2), mat_row(m, 4)),
        mat_adjugate(m).m14 == cofactor_41(mat_row(m, 1), mat_row(m, 2), mat_row(m, 3)),
        mat_adjugate(m).m24 == cofactor_42(mat_row(m, 1), mat_row(m, 2), mat_row(m, 3)),
        mat_adjugate(m).m34 == cofactor_43(mat_row(m, 1), mat_row(m, 2), mat_row(m, 3)),
        mat_adjugate(m).m44 == cofactor_44(mat_row(m, 1), mat_row(m, 2), mat_row(m, 3)),
{
}

/// The matrix times its adjugate is the determinant times the identity.
pub proof fn lemma_adjugate_right(m: Mat4)
    ensures
        mat_mul(m, mat_adjugate(m)) == mat_scale(mat_identity(), mat_det(m)),
{
    lemma_adjugate_cofactors(m);
    lemma_det_rows_of(m);

    lemma_det_rows_expand_1(mat_row(m, 1), mat_row(m, 2), mat_row(m, 3), mat_row(m, 4));
    lemma_det_rows_expand_2(mat_row(m, 1), mat_row(m, 1), mat_row(m, 3), mat_row(m, 4));
    lemma_det_rows_repeated_12(mat_row(m, 1), mat_row(m, 1), mat_row(m, 3), mat_row(m, 4));
    lemma_det_rows_expand_3(mat_row(m, 1), mat_row(m, 2), mat_row(m, 1), mat_row(m, 4));
    lemma_det_rows_repeated_13(mat_row(m, 1), mat_row(m, 2), mat_row(m, 1), mat_row(m, 4));
    lemma_det_rows_expand_4(mat_row(m, 1), mat_row(m, 2), mat_row(m, 3), mat_row(m, 1));
    lemma_det_rows_repeated_14(mat_row(m, 1), mat_row(m, 2), mat_row(m, 3), mat_row(m, 1));
    lemma_det_rows_expand_1(mat_row(m, 2), mat_row(m, 2), mat_row(m, 3), mat_row(m, 4));
    lemma_det_rows_repeated_12(mat_row(m, 2), mat_row(m, 2), mat_row(m, 3), mat_row(m, 4));
    lemma_det_rows_expand_2(mat_row(m, 1), mat_row(m, 2), mat_row(m, 3), mat_row(m, 4));
    lemma_det_rows_expand_3(mat_row(m, 1), mat_row(m, 2), mat_row(m, 2), mat_row(m, 4));
    lemma_det_rows_repeated_23(mat_row(m, 1), mat_row(m, 2), mat_row(m, 2), mat_row(m, 4));
    lemma_det_rows_expand_4(mat_row(m, 1), mat_row(m, 2), mat_row(m, 3), mat_row(m, 2));
    lemma_det_rows_repeated_24(mat_row(m, 1), mat_row(m, 2), mat_row(m, 3), mat_row(m, 2));
    lemma_det_rows_expand_1(mat_row(m, 3), mat_row(m, 2), mat_row(m, 3), mat_row(m, 4));
    lemma_det_rows_repeated_13(mat_row(m, 3), mat_row(m, 2), mat_row(m, 3), mat_row(m, 4));
    lemma_det_rows_expand_2(mat_row(m, 1), mat_row(m, 3), mat_row(m, 3), mat_row(m, 4));
    lemma_det_rows_repeated_23(mat_row(m, 1), mat_row(m, 3), mat_row(m, 3), mat_row(m, 4));
    lemma_det_rows_expand_3(mat_row(m, 1), mat_row(m, 2), mat_row(m, 3), mat_row(m, 4));
    lemma_det_rows_expand_4(mat_row(m, 1), mat_row(m, 2), mat_row(m, 3), mat_row(m, 3));
    lemma_det_rows_repeated_34(mat_row(m, 1), mat_row(m, 2), mat_row(m, 3), mat_row(m, 3));
    lemma_det_rows_expand_1(mat_row(m, 4), mat_row(m, 2), mat_row(m, 3), mat_row(m, 4));
    lemma_det_rows_repeated_14(mat_row(m, 4), mat_row(m, 2), mat_row(m, 3), mat_row(m, 4));
    lemma_det_rows_expand_2(mat_row(m, 1), mat_row(m, 4), mat_row(m, 3), mat_row(m, 4));
    lemma_det_rows_repeated_24(mat_row(m, 1), mat_row(m, 4), mat_row(m, 3), mat_row(m, 4));
    lemma_det_rows_expand_3(mat_row(m, 1), mat_row(m, 2), mat_row(m, 4), mat_row(m, 4));
    lemma_det_rows_repeated_34(mat_row(m, 1), mat_row(m, 2), mat_row(m, 4), mat_row(m, 4));
    lemma_det_rows_expand_4(mat_row(m, 1), mat_row(m, 2), mat_row(m, 3), mat_row(m, 4));
}

proof fn lemma_adjugate_transpose(m: Mat4)
    ensures
        mat_adjugate(mat_transpose(m)) == mat_transpose(mat_adjugate(m)),
{

    lemma_det3_transpose(m.m22, m.m23, m.m24, m.m32, m.m33, m.m34, m.m42, m.m43, m.m44);
    lemma_det3_transpose(m.m21, m.m23, m.m24, m.m31, m.m33, m.m34, m.m41, m.m43, m.m44);
    lemma_det3_transpose(m.m21, m.m22, m.m24, m.m31, m.m32, m.m34, m.m41, m.m42, m.m44);
    lemma_det3_transpose(m.m21, m.m22, m.m23, m.m31, m.m32, m.m33, m.m41, m.m42, m.m43);
    lemma_det3_transpose(m.m12, m.m13, m.m14, m.m32, m.m33, m.m34, m.m42, m.m43, m.m44);
    lemma_det3_transpose(m.m11, m.m13, m.m14, m.m31, m.m33, m.m34, m.m41, m.m43, m.m44);
    lemma_det3_transpose(m.m11, m.m12, m.m14, m.m31, m.m32, m.m34, m.m41, m.m42, m.m44);
    lemma_det3_transpose(m.m11, m.m12, m.m13, m.m31, m.m32, m.m33, m.m41, m.m42, m.m43);
    lemma_det3_transpose(m.m12, m.m13, m.m14, m.m22, m.m23, m.m24, m.m42, m.m43, m.m44);
    lemma_det3_transpose(m.m11, m.m13, m.m14, m.m21, m.m23, m.m24, m.m41, m.m43, m.m44);
    lemma_det3_transpose(m.m11, m.m12, m.m14, m.m21, m.m22, m.m24, m.m41, m.m42, m.m44);
    lemma_det3_transpose(m.m11, m.m12, m.m13, m.m21, m.m22, m.m23, m.m41, m.m42, m.m43);
    lemma_det3_transpose(m.m12, m.m13, m.m14, m.m22, m.m23, m.m24, m.m32, m.m33, m.m34);
    lemma_det3_transpose(m.m11, m.m13, m.m14, m.m21, m.m23, m.m24, m.m31, m.m33, m.m34);
    lemma_det3_transpose(m.m11, m.m12, m.m14, m.m21, m.m22, m.m24, m.m31, m.m32, m.m34);
    lemma_det3_transpose(m.m11, m.m12, m.m13, m.m21, m.m22, m.m23, m.m31, m.m32, m.m33);
}

/// The adjugate times the matrix is the determinant times the identity.
pub proof fn lemma_adjugate_left(m: Mat4)
    ensures
        mat_mul(mat_adjugate(m), m) == mat_scale(mat_identity(), mat_det(m)),
{
    let t = mat_transpose(m);
    lemma_adjugate_right(t);
    lemma_adjugate_transpose(m);
    lemma_det_transpose(m);
    lemma_transpose_mul(mat_adjugate(m), m);
    assert(mat_transpose(mat_transpose(mat_mul(mat_adjugate(m), m))) == mat_mul(mat_adjugate(m), m));
}

proof fn lemma_identity_scaled_twice(d: int)
    requires
        d == 1 || d == -1,
    ensures
        mat_scale(mat_scale(mat_identity(), d), d) == mat_identity(),
{
    assert((1 * d) * d == 1) by (nonlinear_arith)
        requires
            d == 1 || d == -1,
    ;
    assert((0 * d) * d == 0) by (nonlinear_arith);
}

/// When the determinant is 1 or -1, the inverse exists and is the inverse on
/// both sides: composing a transformation with its inverse, in either order,
/// gives the identity.
pub proof fn lemma_inverse_is_inverse(m: Mat4)
    requires
        mat_det(m) == 1 || mat_det(m) == -1,
    ensures
        mat_inverse(m) is Some,
        mat_mul(mat_inverse(m)->0, m) == mat_identity(),
        mat_mul(m, mat_inverse(m)->0) == mat_identity(),
{
    let d = mat_det(m);
    lemma_mul_scale(mat_adjugate(m), m, d);
    lemma_mul_scale(m, mat_adjugate(m), d);
    lemma_adjugate_left(m);
    lemma_adjugate_right(m);
    lemma_identity_scaled_twice(d);
}

/// Transforming a point by `a * b` transforms it by `a`, then by `b`, when
/// the image under `a` keeps `w = 1` (as every affine `a` does).
pub proof fn lemma_point_image_composes(a: Mat4, b: Mat4, x: int, y: int, z: int)
    requires
        point_image(a, x, y, z).w == 1,
    ensures
        point_image(mat_mul(a, b), x, y, z) == point_image(
            b,
            point_image(a, x, y, z).x,
            point_image(a, x, y, z).y,
            point_image(a, x, y, z).z,
        ),
{
    lemma_vec_mul_composes(Vec4 { x, y, z, w: 1 }, a, b);
}

/// A matrix built from 2d terms is a 2d matrix.
pub proof fn lemma_from_2d_is_2d(m11: int, m12: int, m21: int, m22: int, m41: int, m42: int)
    ensures
        mat_is_2d(mat_from_2d(m11, m12, m21, m22, m41, m42)),
{
}

/// A 2d matrix is rebuilt from the terms that `to_2d` picks.
pub proof fn lemma_2d_round_trip(m: Mat4)
    requires
        mat_is_2d(m),
    ensures
        mat_from_2d(m.m11, m.m12, m.m21, m.m22, m.m41, m.m42) == m,
{
}

/// The terms in column-major order are the terms in row-major order,
/// transposed.
pub proof fn lemma_column_major_transposes<T, Src, Dst>(m: TypedMatrix4D<T, Src, Dst>)
    ensures
        m.column_major_entries() == {
            let r = m.row_major_entries();
            seq![
                r[0], r[4], r[8], r[12],
                r[1], r[5], r[9], r[13],
                r[2], r[6], r[10], r[14],
                r[3], r[7], r[11], r[15],
            ]
        },
{
}

/// A matrix's terms are determined by its terms in row-major order, so the
/// terms that `to_row_major_array` gives back rebuild it through `row_major`.
pub proof fn lemma_row_major_entries_determine<T, Src, Dst>(
    a: TypedMatrix4D<T, Src, Dst>,
    b: TypedMatrix4D<T, Src, Dst>,
)
    requires
        a.row_major_entries() == b.row_major_entries(),
    ensures
        a.m11 == b.m11,
        a.m12 == b.m12,
        a.m13 == b.m13,
        a.m14 == b.m14,
        a.m21 == b.m21,
        a.m22 == b.m22,
        a.m23 == b.m23,
        a.m24 == b.m24,
        a.m31 == b.m31,
        a.m32 == b.m32,
        a.m33 == b.m33,
        a.m34 == b.m34,
        a.m41 == b.m41,
        a.m42 == b.m42,
        a.m43 == b.m43,
        a.m44 == b.m44,
{
    let ra = a.row_major_entries();
    let rb = b.row_major_entries();
    assert(ra[0] == rb[0] && ra[1] == rb[1] && ra[2] == rb[2] && ra[3] == rb[3]);
    assert(ra[4] == rb[4] && ra[5] == rb[5] && ra[6] == rb[6] && ra[7] == rb[7]);
    assert(ra[8] == rb[8] && ra[9] == rb[9] && ra[10] == rb[10] && ra[11] == rb[11]);
    assert(ra[12] == rb[12] && ra[13] == rb[13] && ra[14] == rb[14] && ra[15] == rb[15]);
}

/// A translation matrix moves every point by the translation.
pub proof fn lemma_translation_moves_points(tx: int, ty: int, tz: int, x: int, y: int, z: int)
    by (nonlinear_arith)
    ensures
        point_image(mat_translation(tx, ty, tz), x, y, z) == (Vec4 {
            x: x + tx,
            y: y + ty,
            z: z + tz,
            w: 1,
        }),
{
}

/// A scale matrix multiplies the coordinates of every point by the factors.
pub proof fn lemma_scaling_scales_points(sx: int, sy: int, sz: int, x: int, y: int, z: int)
    by (nonlinear_arith)
    ensures
        point_image(mat_scaling(sx, sy, sz), x, y, z) == (Vec4 {
            x: x * sx,
            y: y * sy,
            z: z * sz,
            w: 1,
        }),
{
}

/// The identity has determinant 1 and is its own inverse.
pub proof fn lemma_identity_inverse()
    by (nonlinear_arith)
    ensures
        mat_det(mat_identity()) == 1,
        mat_inverse(mat_identity()) == Some(mat_identity()),
{
}

/// A translation has determinant 1, and its inverse is the opposite
/// translation.
pub proof fn lemma_translation_inverse(x: int, y: int, z: int)
    by (nonlinear_arith)
    ensures
        mat_det(mat_translation(x, y, z)) == 1,
        mat_inverse(mat_translation(x, y, z)) == Some(mat_translation(-x, -y, -z)),
{
}

/// The determinant of a scale matrix is the product of its factors.
pub proof fn lemma_scaling_determinant(x: int, y: int, z: int)
    by (nonlinear_arith)
    ensures
        mat_det(mat_scaling(x, y, z)) == x * y * z,
{
}

/// The identity leaves every point where it is.
pub proof fn lemma_identity_fixes_points(x: int, y: int, z: int)
    by (nonlinear_arith)
    ensures
        point_image(mat_identity(), x, y, z) == (Vec4 { x, y, z, w: 1 }),
{
}

/// When the determinant is 1 or -1, the inverse takes the image of a point
/// back to the point, provided the image keeps `w = 1`.
pub proof fn lemma_inverse_undoes_transform(m: Mat4, x: int, y: int, z: int)
    requires
        mat_det(m) == 1 || mat_det(m) == -1,
        point_image(m, x, y, z).w == 1,
    ensures
        mat_inverse(m) is Some,
        point_image(
            mat_inverse(m)->0,
            point_image(m, x, y, z).x,
            point_image(m, x, y, z).y,
            point_image(m, x, y, z).z,
        ) == (Vec4 { x, y, z, w: 1 }),
{
    lemma_inverse_is_inverse(m);
    lemma_point_image_composes(m, mat_inverse(m)->0, x, y, z);
    lemma_identity_fixes_points(x, y, z);
}


/// Transposing a matrix leaves its determinant unchanged.
pub proof fn lemma_det_transpose(m: Mat4)
    ensures
        mat_det(mat_transpose(m)) == mat_det(m),
{
    assert(m.m41 * m.m32 * m.m23 * m.m14 == m.m14 * m.m23 * m.m32 * m.m41) by (nonlinear_arith);
    assert(m.m31 * m.m42 * m.m23 * m.m14 == m.m14 * m.m23 * m.m31 * m.m42) by (nonlinear_arith);
    assert(m.m41 * m.m22 * m.m33 * m.m14 == m.m14 * m.m22 * m.m33 * m.m41) by (nonlinear_arith);
    assert(m.m21 * m.m42 * m.m33 * m.m14 == m.m14 * m.m21 * m.m33 * m.m42) by (nonlinear_arith);
    assert(m.m31 * m.m22 * m.m43 * m.m14 == m.m14 * m.m22 * m.m31 * m.m43) by (nonlinear_arith);
    assert(m.m21 * m.m32 * m.m43 * m.m14 == m.m14 * m.m21 * m.m32 * m.m43) by (nonlinear_arith);
    assert(m.m41 * m.m32 * m.m13 * m.m24 == m.m13 * m.m24 * m.m32 * m.m41) by (nonlinear_arith);
    assert(m.m31 * m.m42 * m.m13 * m.m24 == m.m13 * m.m24 * m.m31 * m.m42) by (nonlinear_arith);
    assert(m.m41 * m.m12 * m.m33 * m.m24 == m.m12 * m.m24 * m.m33 * m.m41) by (nonlinear_arith);
    assert(m.m11 * m.m42 * m.m33 * m.m24 == m.m11 * m.m24 * m.m33 * m.m42) by (nonlinear_arith);
    assert(m.m31 * m.m12 * m.m43 * m.m24 == m.m12 * m.m24 * m.m31 * m.m43) by (nonlinear_arith);
    assert(m.m11 * m.m32 * m.m43 * m.m24 == m.m11 * m.m24 * m.m32 * m.m43) by (nonlinear_arith);
    assert(m.m41 * m.m22 * m.m13 * m.m34 == m.m13 * m.m22 * m.m34 * m.m41) by (nonlinear_arith);
    assert(m.m21 * m.m42 * m.m13 * m.m34 == m.m13 * m.m21 * m.m34 * m.m42) by (nonlinear_arith);
    assert(m.m41 * m.m12 * m.m23 * m.m34 == m.m12 * m.m23 * m.m34 * m.m41) by (nonlinear_arith);
    assert(m.m11 * m.m42 * m.m23 * m.m34 == m.m11 * m.m23 * m.m34 * m.m42) by (nonlinear_arith);
    assert(m.m21 * m.m12 * m.m43 * m.m34 == m.m12 * m.m21 * m.m34 * m.m43) by (nonlinear_arith);
    assert(m.m11 * m.m22 * m.m43 * m.m34 == m.m11 * m.m22 * m.m34 * m.m43) by (nonlinear_arith);
    assert(m.m31 * m.m22 * m.m13 * m.m44 == m.m13 * m.m22 * m.m31 * m.m44) by (nonlinear_arith);
    assert(m.m21 * m.m32 * m.m13 * m.m44 == m.m13 * m.m21 * m.m32 * m.m44) by (nonlinear_arith);
    assert(m.m31 * m.m12 * m.m23 * m.m44 == m.m12 * m.m23 * m.m31 * m.m44) by (nonlinear_arith);
    assert(m.m11 * m.m32 * m.m23 * m.m44 == m.m11 * m.m23 * m.m32 * m.m44) by (nonlinear_arith);
    assert(m.m21 * m.m12 * m.m33 * m.m44 == m.m12 * m.m21 * m.m33 * m.m44) by (nonlinear_arith);
}

// The determinant of a product, expanded row by row of the first factor.

proof fn lemma_det_mul_111(a: Mat4, b: Mat4)
    ensures
        det_rows(mat_row(b, 1), mat_row(b, 1), mat_row(b, 1), comb(a.m41, a.m42, a.m43, a.m44, mat_row(b, 1), mat_row(b, 2), mat_row(b, 3), mat_row(b, 4))) == 0,
{
    lemma_det_rows_linear_4(a.m41, a.m42, a.m43, a.m44, mat_row(b, 1), mat_row(b, 2), mat_row(b, 3), mat_row(b, 4), mat_row(b, 1), mat_row(b, 1), mat_row(b, 1));
    lemma_det_rows_repeated_12(mat_row(b, 1), mat_row(b, 1), mat_row(b, 1), mat_row(b, 1));
    lemma_mul_by_zero(a.m41, det_rows(mat_row(b, 1), mat_row(b, 1), mat_row(b, 1), mat_row(b, 1)));
    lemma_det_rows_repeated_12(mat_row(b, 1), mat_row(b, 1), mat_row(b, 1), mat_row(b, 2));
    lemma_mul_by_zero(a.m42, det_rows(mat_row(b, 1), mat_row(b, 1), mat_row(b, 1), mat_row(b, 2)));
    lemma_det_rows_repeated_12(mat_row(b, 1), mat_row(b, 1), mat_row(b, 1), mat_row(b, 3));
    lemma_mul_by_zero(a.m43, det_rows(mat_row(b, 1), mat_row(b, 1), mat_row(b, 1), mat_row(b, 3)));
    lemma_det_rows_repeated_12(mat_row(b, 1), mat_row(b, 1), mat_row(b, 1), mat_row(b, 4));
    lemma_mul_by_zero(a.m44, det_rows(mat_row(b, 1), mat_row(b, 1), mat_row(b, 1), mat_row(b, 4)));
}

proof fn lemma_det_mul_112(a: Mat4, b: Mat4)
    ensures
        det_rows(mat_row(b, 1), mat_row(b, 1), mat_row(b, 2), comb(a.m41, a.m42, a.m43, a.m44, mat_row(b, 1), mat_row(b, 2), mat_row(b, 3), mat_row(b, 4))) == 0,
{
    lemma_det_rows_linear_4(a.m41, a.m42, a.m43, a.m44, mat_row(b, 1), mat_row(b, 2), mat_row(b, 3), mat_row(b, 4), mat_row(b, 1), mat_row(b, 1), mat_row(b, 2));
    lemma_det_rows_repeated_12(mat_row(b, 1), mat_row(b, 1), mat_row(b, 2), mat_row(b, 1));
    lemma_mul_by_zero(a.m41, det_rows(mat_row(b, 1), mat_row(b, 1), mat_row(b, 2), mat_row(b, 1)));
    lemma_det_rows_repeated_12(mat_row(b, 1), mat_row(b, 1), mat_row(b, 2), mat_row(b, 2));
    lemma_mul_by_zero(a.m42, det_rows(mat_row(b, 1), mat_row(b, 1), mat_row(b, 2), mat_row(b, 2)));
    lemma_det_rows_repeated_12(mat_row(b, 1), mat_row(b, 1), mat_row(b, 2), mat_row(b, 3));
    lemma_mul_by_zero(a.m43, det_rows(mat_row(b, 1), mat_row(b, 1), mat_row(b, 2), mat_row(b, 3)));
    lemma_det_rows_repeated_12(mat_row(b, 1), mat_row(b, 1), mat_row(b, 2), mat_row(b, 4));
    lemma_mul_by_zero(a.m44, det_rows(mat_row(b, 1), mat_row(b, 1), mat_row(b, 2), mat_row(b, 4)));
}

proof fn lemma_det_mul_113(a: Mat4, b: Mat4)
    ensures
        det_rows(mat_row(b, 1), mat_row(b, 1), mat_row(b, 3), comb(a.m41, a.m42, a.m43, a.m44, mat_row(b, 1), mat_row(b, 2), mat_row(b, 3), mat_row(b, 4))) == 0,
{
    lemma_det_rows_linear_4(a.m41, a.m42, a.m43, a.m44, mat_row(b, 1), mat_row(b, 2), mat_row(b, 3), mat_row(b, 4), mat_row(b, 1), mat_row(b, 1), mat_row(b, 3));
    lemma_det_rows_repeated_12(mat_row(b, 1), mat_row(b, 1), mat_row(b, 3), mat_row(b, 1));
    lemma_mul_by_zero(a.m41, det_rows(mat_row(b, 1), mat_row(b, 1), mat_row(b, 3), mat_row(b, 1)));
    lemma_det_rows_repeated_12(mat_row(b, 1), mat_row(b, 1), mat_row(b, 3), mat_row(b, 2));
    lemma_mul_by_zero(a.m42, det_rows(mat_row(b, 1), mat_row(b, 1), mat_row(b, 3), mat_row(b, 2)));
    lemma_det_rows_repeated_12(mat_row(b, 1), mat_row(b, 1), mat_row(b, 3), mat_row(b, 3));
    lemma_mul_by_zero(a.m43, det_rows(mat_row(b, 1), mat_row(b, 1), mat_row(b, 3), mat_row(b, 3)));
    lemma_det_rows_repeated_12(mat_row(b, 1), mat_row(b, 1), mat_row(b, 3), mat_row(b, 4));
    lemma_mul_by_zero(a.m44, det_rows(mat_row(b, 1), mat_row(b, 1), mat_row(b, 3), mat_row(b, 4)));
}

proof fn lemma_det_mul_114(a: Mat4, b: Mat4)
    ensures
        det_rows(mat_row(b, 1), mat_row(b, 1), mat_row(b, 4), comb(a.m41, a.m42, a.m43, a.m44, mat_row(b, 1), mat_row(b, 2), mat_row(b, 3), mat_row(b, 4))) == 0,
{
    lemma_det_rows_linear_4(a.m41, a.m42, a.m43, a.m44, mat_row(b, 1), mat_row(b, 2), mat_row(b, 3), mat_row(b, 4), mat_row(b, 1), mat_row(b, 1), mat_row(b, 4));
    lemma_det_rows_repeated_12(mat_row(b, 1), mat_row(b, 1), mat_row(b, 4), mat_row(b, 1));
    lemma_mul_by_zero(a.m41, det_rows(mat_row(b, 1), mat_row(b, 1), mat_row(b, 4), mat_row(b, 1)));
    lemma_det_rows_repeated_12(mat_row(b, 1), mat_row(b, 1), mat_row(b, 4), mat_row(b, 2));
    lemma_mul_by_zero(a.m42, det_rows(mat_row(b, 1), mat_row(b, 1), mat_row(b, 4), mat_row(b, 2)));
    lemma_det_rows_repeated_12(mat_row(b, 1), mat_row(b, 1), mat_row(b, 4), mat_row(b, 3));
    lemma_mul_by_zero(a.m43, det_rows(mat_row(b, 1), mat_row(b, 1), mat_row(b, 4), mat_row(b, 3)));
    lemma_det_rows_repeated_12(mat_row(b, 1), mat_row(b, 1), mat_row(b, 4), mat_row(b, 4));
    lemma_mul_by_zero(a.m44, det_rows(mat_row(b, 1), mat_row(b, 1), mat_row(b, 4), mat_row(b, 4)));
}

proof fn lemma_det_mul_121(a: Mat4, b: Mat4)
    ensures
        det_rows(mat_row(b, 1), mat_row(b, 2), mat_row(b, 1), comb(a.m41, a.m42, a.m43, a.m44, mat_row(b, 1), mat_row(b, 2), mat_row(b, 3), mat_row(b, 4))) == 0,
{
    lemma_det_rows_linear_4(a.m41, a.m42, a.m43, a.m44, mat_row(b, 1), mat_row(b, 2), mat_row(b, 3), mat_row(b, 4), mat_row(b, 1), mat_row(b, 2), mat_row(b, 1));
    lemma_det_rows_repeated_13(mat_row(b, 1), mat_row(b, 2), mat_row(b, 1), mat_row(b, 1));
    lemma_mul_by_zero(a.m41, det_rows(mat_row(b, 1), mat_row(b, 2), mat_row(b, 1), mat_row(b, 1)));
    lemma_det_rows_repeated_13(mat_row(b, 1), mat_row(b, 2), mat_row(b, 1), mat_row(b, 2));
    lemma_mul_by_zero(a.m42, det_rows(mat_row(b, 1), mat_row(b, 2), mat_row(b, 1), mat_row(b, 2)));
    lemma_det_rows_repeated_13(mat_row(b, 1), mat_row(b, 2), mat_row(b, 1), mat_row(b, 3));
    lemma_mul_by_zero(a.m43, det_rows(mat_row(b, 1), mat_row(b, 2), mat_row(b, 1), mat_row(b, 3)));
    lemma_det_rows_repeated_13(mat_row(b, 1), mat_row(b, 2), mat_row(b, 1), mat_row(b, 4));
    lemma_mul_by_zero(a.m44, det_rows(mat_row(b, 1), mat_row(b, 2), mat_row(b, 1), mat_row(b, 4)));
}

proof fn lemma_det_mul_122(a: Mat4, b: Mat4)
    ensures
        det_rows(mat_row(b, 1), mat_row(b, 2), mat_row(b, 2), comb(a.m41, a.m42, a.m43, a.m44, mat_row(b, 1), mat_row(b, 2), mat_row(b, 3), mat_row(b, 4))) == 0,
{
    lemma_det_rows_linear_4(a.m41, a.m42, a.m43, a.m44, mat_row(b, 1), mat_row(b, 2), mat_row(b, 3), mat_row(b, 4), mat_row(b, 1), mat_row(b, 2), mat_row(b, 2));
    lemma_det_rows_repeated_14(mat_row(b, 1), mat_row(b, 2), mat_row(b, 2), mat_row(b, 1));
    lemma_mul_by_zero(a.m41, det_rows(mat_row(b, 1), mat_row(b, 2), mat_row(b, 2), mat_row(b, 1)));
    lemma_det_rows_repeated_23(mat_row(b, 1), mat_row(b, 2), mat_row(b, 2), mat_row(b, 2));
    lemma_mul_by_zero(a.m42, det_rows(mat_row(b, 1), mat_row(b, 2), mat_row(b, 2), mat_row(b, 2)));
    lemma_det_rows_repeated_23(mat_row(b, 1), mat_row(b, 2), mat_row(b, 2), mat_row(b, 3));
    lemma_mul_by_zero(a.m43, det_rows(mat_row(b, 1), mat_row(b, 2), mat_row(b, 2), mat_row(b, 3)));
    lemma_det_rows_repeated_23(mat_row(b, 1), mat_row(b, 2), mat_row(b, 2), mat_row(b, 4));
    lemma_mul_by_zero(a.m44, det_rows(mat_row(b, 1), mat_row(b, 2), mat_row(b, 2), mat_row(b, 4)));
}

proof fn lemma_det_mul_123(a: Mat4, b: Mat4)
    ensures
        det_rows(mat_row(b, 1), mat_row(b, 2), mat_row(b, 3), comb(a.m41, a.m42, a.m43, a.m44, mat_row(b, 1), mat_row(b, 2), mat_row(b, 3), mat_row(b, 4))) == a.m44 * det_rows(mat_row(b, 1), mat_row(b, 2), mat_row(b, 3), mat_row(b, 4)),
{
    lemma_det_rows_linear_4(a.m41, a.m42, a.m43, a.m44, mat_row(b, 1), mat_row(b, 2), mat_row(b, 3), mat_row(b, 4), mat_row(b, 1), mat_row(b, 2), mat_row(b, 3));
    lemma_det_rows_repeated_14(mat_row(b, 1), mat_row(b, 2), mat_row(b, 3), mat_row(b, 1));
    lemma_mul_by_zero(a.m41, det_rows(mat_row(b, 1), mat_row(b, 2), mat_row(b, 3), mat_row(b, 1)));
    lemma_det_rows_repeated_24(mat_row(b, 1), mat_row(b, 2), mat_row(b, 3), mat_row(b, 2));
    lemma_mul_by_zero(a.m42, det_rows(mat_row(b, 1), mat_row(b, 2), mat_row(b, 3), mat_row(b, 2)));
    lemma_det_rows_repeated_34(mat_row(b, 1), mat_row(b, 2), mat_row(b, 3), mat_row(b, 3));
    lemma_mul_by_zero(a.m43, det_rows(mat_row(b, 1), mat_row(b, 2), mat_row(b, 3), mat_row(b, 3)));
    lemma_mul_by_equal(a.m44, det_rows(mat_row(b, 1), mat_row(b, 2), mat_row(b, 3), mat_row(b, 4)), det_rows(mat_row(b, 1), mat_row(b, 2), mat_row(b, 3), mat_row(b, 4)));
}

proof fn lemma_det_mul_124(a: Mat4, b: Mat4)
    ensures
        det_rows(mat_row(b, 1), mat_row(b, 2), mat_row(b, 4), comb(a.m41, a.m42, a.m43, a.m44, mat_row(b, 1), mat_row(b, 2), mat_row(b, 3), mat_row(b, 4))) == a.m43 * (-det_rows(mat_row(b, 1), mat_row(b, 2), mat_row(b, 3), mat_row(b, 4))),
{
    lemma_det_rows_linear_4(a.m41, a.m42, a.m43, a.m44, mat_row(b, 1), mat_row(b, 2), mat_row(b, 3), mat_row(b, 4), mat_row(b, 1), mat_row(b, 2), mat_row(b, 4));
    lemma_det_rows_repeated_14(mat_row(b, 1), mat_row(b, 2), mat_row(b, 4), mat_row(b, 1));
    lemma_mul_by_zero(a.m41, det_rows(mat_row(b, 1), mat_row(b, 2), mat_row(b, 4), mat_row(b, 1)));
    lemma_det_rows_repeated_24(mat_row(b, 1), mat_row(b, 2), mat_row(b, 4), mat_row(b, 2));
    lemma_mul_by_zero(a.m42, det_rows(mat_row(b, 1), mat_row(b, 2), mat_row(b, 4), mat_row(b, 2)));
    lemma_det_rows_swap_34(mat_row(b, 1), mat_row(b, 2), mat_row(b, 3), mat_row(b, 4));
    lemma_mul_by_equal(a.m43, det_rows(mat_row(b, 1), mat_row(b, 2), mat_row(b, 4), mat_row(b, 3)), (-det_rows(mat_row(b, 1), mat_row(b, 2), mat_row(b, 3), mat_row(b, 4))));
    lemma_det_rows_repeated_34(mat_row(b, 1), mat_row(b, 2), mat_row(b, 4), mat_row(b, 4));
    lemma_mul_by_zero(a.m44, det_rows(mat_row(b, 1), mat_row(b, 2), mat_row(b, 4), mat_row(b, 4)));
}

proof fn lemma_det_mul_131(a: Mat4, b: Mat4)
    ensures
        det_rows(mat_row(b, 1), mat_row(b, 3), mat_row(b, 1), comb(a.m41, a.m42, a.m43, a.m44, mat_row(b, 1), mat_row(b, 2), mat_row(b, 3), mat_row(b, 4))) == 0,
{
    lemma_det_rows_linear_4(a.m41, a.m42, a.m43, a.m44, mat_row(b, 1), mat_row(b, 2), mat_row(b, 3), mat_row(b, 4), mat_row(b, 1), mat_row(b, 3), mat_row(b, 1));
    lemma_det_rows_repeated_13(mat_row(b, 1), mat_row(b, 3), mat_row(b, 1), mat_row(b, 1));
    lemma_mul_by_zero(a.m41, det_rows(mat_row(b, 1), mat_row(b, 3), mat_row(b, 1), mat_row(b, 1)));
    lemma_det_rows_repeated_13(mat_row(b, 1), mat_row(b, 3), mat_row(b, 1), mat_row(b, 2));
    lemma_mul_by_zero(a.m42, det_rows(mat_row(b, 1), mat_row(b, 3), mat_row(b, 1), mat_row(b, 2)));
    lemma_det_rows_repeated_13(mat_row(b, 1), mat_row(b, 3), mat_row(b, 1), mat_row(b, 3));
    lemma_mul_by_zero(a.m43, det_rows(mat_row(b, 1), mat_row(b, 3), mat_row(b, 1), mat_row(b, 3)));
    lemma_det_rows_repeated_13(mat_row(b, 1), mat_row(b, 3), mat_row(b, 1), mat_row(b, 4));
    lemma_mul_by_zero(a.m44, det_rows(mat_row(b, 1), mat_row(b, 3), mat_row(b, 1), mat_row(b, 4)));
}

proof fn lemma_det_mul_132(a: Mat4, b: Mat4)
    ensures
        det_rows(mat_row(b, 1), mat_row(b, 3), mat_row(b, 2), comb(a.m41, a.m42, a.m43, a.m44, mat_row(b, 1), mat_row(b, 2), mat_row(b, 3), mat_row(b, 4))) == a.m44 * (-det_rows(mat_row(b, 1), mat_row(b, 2), mat_row(b, 3), mat_row(b, 4))),
{
    lemma_det_rows_linear_4(a.m41, a.m42, a.m43, a.m44, mat_row(b, 1), mat_row(b, 2), mat_row(b, 3), mat_row(b, 4), mat_row(b, 1), mat_row(b, 3), mat_row(b, 2));
    lemma_det_rows_repeated_14(mat_row(b, 1), mat_row(b, 3), mat_row(b, 2), mat_row(b, 1));
    lemma_mul_by_zero(a.m41, det_rows(mat_row(b, 1), mat_row(b, 3), mat_row(b, 2), mat_row(b, 1)));
    lemma_det_rows_repeated_34(mat_row(b, 1), mat_row(b, 3), mat_row(b, 2), mat_row(b, 2));
    lemma_mul_by_zero(a.m42, det_rows(mat_row(b, 1), mat_row(b, 3), mat_row(b, 2), mat_row(b, 2)));
    lemma_det_rows_repeated_24(mat_row(b, 1), mat_row(b, 3), mat_row(b, 2), mat_row(b, 3));
    lemma_mul_by_zero(a.m43, det_rows(mat_row(b, 1), mat_row(b, 3), mat_row(b, 2), mat_row(b, 3)));
    lemma_det_rows_swap_23(mat_row(b, 1), mat_row(b, 2), mat_row(b, 3), mat_row(b, 4));
    lemma_mul_by_equal(a.m44, det_rows(mat_row(b, 1), mat_row(b, 3), mat_row(b, 2), mat_row(b, 4)), (-det_rows(mat_row(b, 1), mat_row(b, 2), mat_row(b, 3), mat_row(b, 4))));
}

proof fn lemma_det_mul_133(a: Mat4, b: Mat4)
    ensures
        det_rows(mat_row(b, 1), mat_row(b, 3), mat_row(b, 3), comb(a.m41, a.m42, a.m43, a.m44, mat_row(b, 1), mat_row(b, 2), mat_row(b, 3), mat_row(b, 4))) == 0,
{
    lemma_det_rows_linear_4(a.m41, a.m42, a.m43, a.m44, mat_row(b, 1), mat_row(b, 2), mat_row(b, 3), mat_row(b, 4), mat_row(b, 1), mat_row(b, 3), mat_row(b, 3));
    lemma_det_rows_repeated_14(mat_row(b, 1), mat_row(b, 3), mat_row(b, 3), mat_row(b, 1));
    lemma_mul_by_zero(a.m41, det_rows(mat_row(b, 1), mat_row(b, 3), mat_row(b, 3), mat_row(b, 1)));
    lemma_det_rows_repeated_23(mat_row(b, 1), mat_row(b, 3), mat_row(b, 3), mat_row(b, 2));
    lemma_mul_by_zero(a.m42, det_rows(mat_row(b, 1), mat_row(b, 3), mat_row(b, 3), mat_row(b, 2)));
    lemma_det_rows_repeated_23(mat_row(b, 1), mat_row(b, 3), mat_row(b, 3), mat_row(b, 3));
    lemma_mul_by_zero(a.m43, det_rows(mat_row(b, 1), mat_row(b, 3), mat_row(b, 3), mat_row(b, 3)));
    lemma_det_rows_repeated_23(mat_row(b, 1), mat_row(b, 3), mat_row(b, 3), mat_row(b, 4));
    lemma_mul_by_zero(a.m44, det_rows(mat_row(b, 1), mat_row(b, 3), mat_row(b, 3), mat_row(b, 4)));
}

proof fn lemma_det_mul_134(a: Mat4, b: Mat4)
    ensures
        det_rows(mat_row(b, 1), mat_row(b, 3), mat_row(b, 4), comb(a.m41, a.m42, a.m43, a.m44, mat_row(b, 1), mat_row(b, 2), mat_row(b, 3), mat_row(b, 4))) == a.m42 * det_rows(mat_row(b, 1), mat_row(b, 2), mat_row(b, 3), mat_row(b, 4)),
{
    lemma_det_rows_linear_4(a.m41, a.m42, a.m43, a.m44, mat_row(b, 1), mat_row(b, 2), mat_row(b, 3), mat_row(b, 4), mat_row(b, 1), mat_row(b, 3), mat_row(b, 4));
    lemma_det_rows_repeated_14(mat_row(b, 1), mat_row(b, 3), mat_row(b, 4), mat_row(b, 1));
    lemma_mul_by_zero(a.m41, det_rows(mat_row(b, 1), mat_row(b, 3), mat_row(b, 4), mat_row(b, 1)));
    lemma_det_rows_swap_34(mat_row(b, 1), mat_row(b, 3), mat_row(b, 2), mat_row(b, 4));
    lemma_det_rows_swap_23(mat_row(b, 1), mat_row(b, 2), mat_row(b, 3), mat_row(b, 4));
    lemma_mul_by_equal(a.m42, det_rows(mat_row(b, 1), mat_row(b, 3), mat_row(b, 4), mat_row(b, 2)), det_rows(mat_row(b, 1), mat_row(b, 2), mat_row(b, 3), mat_row(b, 4)));
    lemma_det_rows_repeated_24(mat_row(b, 1), mat_row(b, 3), mat_row(b, 4), mat_row(b, 3));
    lemma_mul_by_zero(a.m43, det_rows(mat_row(b, 1), mat_row(b, 3), mat_row(b, 4), mat_row(b, 3)));
    lemma_det_rows_repeated_34(mat_row(b, 1), mat_row(b, 3), mat_row(b, 4), mat_row(b, 4));
    lemma_mul_by_zero(a.m44, det_rows(mat_row(b, 1), mat_row(b, 3), mat_row(b, 4), mat_row(b, 4)));
}

proof fn lemma_det_mul_141(a: Mat4, b: Mat4)
    ensures
        det_rows(mat_row(b, 1), mat_row(b, 4), mat_row(b, 1), comb(a.m41, a.m42, a.m43, a.m44, mat_row(b, 1), mat_row(b, 2), mat_row(b, 3), mat_row(b, 4))) == 0,
{
    lemma_det_rows_linear_4(a.m41, a.m42, a.m43, a.m44, mat_row(b, 1), mat_row(b, 2), mat_row(b, 3), mat_row(b, 4), mat_row(b, 1), mat_row(b, 4), mat_row(b, 1));
    lemma_det_rows_repeated_13(mat_row(b, 1), mat_row(b, 4), mat_row(b, 1), mat_row(b, 1));
    lemma_mul_by_zero(a.m41, det_rows(mat_row(b, 1), mat_row(b, 4), mat_row(b, 1), mat_row(b, 1)));
    lemma_det_rows_repeated_13(mat_row(b, 1), mat_row(b, 4), mat_row(b, 1), mat_row(b, 2));
    lemma_mul_by_zero(a.m42, det_rows(mat_row(b, 1), mat_row(b, 4), mat_row(b, 1), mat_row(b, 2)));
    lemma_det_rows_repeated_13(mat_row(b, 1), mat_row(b, 4), mat_row(b, 1), mat_row(b, 3));
    lemma_mul_by_zero(a.m43, det_rows(mat_row(b, 1), mat_row(b, 4), mat_row(b, 1), mat_row(b, 3)));
    lemma_det_rows_repeated_13(mat_row(b, 1), mat_row(b, 4), mat_row(b, 1), mat_row(b, 4));
    lemma_mul_by_zero(a.m44, det_rows(mat_row(b, 1), mat_row(b, 4), mat_row(b, 1), mat_row(b, 4)));
}

proof fn lemma_det_mul_142(a: Mat4, b: Mat4)
    ensures
        det_rows(mat_row(b, 1), mat_row(b, 4), mat_row(b, 2), comb(a.m41, a.m42, a.m43, a.m44, mat_row(b, 1), mat_row(b, 2), mat_row(b, 3), mat_row(b, 4))) == a.m43 * det_rows(mat_row(b, 1), mat_row(b, 2), mat_row(b, 3), mat_row(b, 4)),
{
    lemma_det_rows_linear_4(a.m41, a.m42, a.m43, a.m44, mat_row(b, 1), mat_row(b, 2), mat_row(b, 3), mat_row(b, 4), mat_row(b, 1), mat_row(b, 4), mat_row(b, 2));
    lemma_det_rows_repeated_14(mat_row(b, 1), mat_row(b, 4), mat_row(b, 2), mat_row(b, 1));
    lemma_mul_by_zero(a.m41, det_rows(mat_row(b, 1), mat_row(b, 4), mat_row(b, 2), mat_row(b, 1)));
    lemma_det_rows_repeated_34(mat_row(b, 1), mat_row(b, 4), mat_row(b, 2), mat_row(b, 2));
    lemma_mul_by_zero(a.m42, det_rows(mat_row(b, 1), mat_row(b, 4), mat_row(b, 2), mat_row(b, 2)));
    lemma_det_rows_swap_23(mat_row(b, 1), mat_row(b, 2), mat_row(b, 4), mat_row(b, 3));
    lemma_det_rows_swap_34(mat_row(b, 1), mat_row(b, 2), mat_row(b, 3), mat_row(b, 4));
    lemma_mul_by_equal(a.m43, det_rows(mat_row(b, 1), mat_row(b, 4), mat_row(b, 2), mat_row(b, 3)), det_rows(mat_row(b, 1), mat_row(b, 2), mat_row(b, 3), mat_row(b, 4)));
    lemma_det_rows_repeated_24(mat_row(b, 1), mat_row(b, 4), mat_row(b, 2), mat_row(b, 4));
    lemma_mul_by_zero(a.m44, det_rows(mat_row(b, 1), mat_row(b, 4), mat_row(b, 2), mat_row(b, 4)));
}

proof fn lemma_det_mul_143(a: Mat4, b: Mat4)
    ensures
        det_rows(mat_row(b, 1), mat_row(b, 4), mat_row(b, 3), comb(a.m41, a.m42, a.m43, a.m44, mat_row(b, 1), mat_row(b, 2), mat_row(b, 3), mat_row(b, 4))) == a.m42 * (-det_rows(mat_row(b, 1), mat_row(b, 2), mat_row(b, 3), mat_row(b, 4))),
{
    lemma_det_rows_linear_4(a.m41, a.m42, a.m43, a.m44, mat_row(b, 1), mat_row(b, 2), mat_row(b, 3), mat_row(b, 4), mat_row(b, 1), mat_row(b, 4), mat_row(b, 3));
    lemma_det_rows_repeated_14(mat_row(b, 1), mat_row(b, 4), mat_row(b, 3), mat_row(b, 1));
    lemma_mul_by_zero(a.m41, det_rows(mat_row(b, 1), mat_row(b, 4), mat_row(b, 3), mat_row(b, 1)));
    lemma_det_rows_swap_23(mat_row(b, 1), mat_row(b, 3), mat_row(b, 4), mat_row(b, 2));
    lemma_det_rows_swap_34(mat_row(b, 1), mat_row(b, 3), mat_row(b, 2), mat_row(b, 4));
    lemma_det_rows_swap_23(mat_row(b, 1), mat_row(b, 2), mat_row(b, 3), mat_row(b, 4));
    lemma_mul_by_equal(a.m42, det_rows(mat_row(b, 1), mat_row(b, 4), mat_row(b, 3), mat_row(b, 2)), (-det_rows(mat_row(b, 1), mat_row(b, 2), mat_row(b, 3), mat_row(b, 4))));
    lemma_det_rows_repeated_34(mat_row(b, 1), mat_row(b, 4), mat_row(b, 3), mat_row(b, 3));
    lemma_mul_by_zero(a.m43, det_rows(mat_row(b, 1), mat_row(b, 4), mat_row(b, 3), mat_row(b, 3)));
    lemma_det_rows_repeated_24(mat_row(b, 1), mat_row(b, 4), mat_row(b, 3), mat_row(b, 4));
    lemma_mul_by_zero(a.m44, det_rows(mat_row(b, 1), mat_row(b, 4), mat_row(b, 3), mat_row(b, 4)));
}

proof fn lemma_det_mul_144(a: Mat4, b: Mat4)
    ensures
        det_rows(mat_row(b, 1), mat_row(b, 4), mat_row(b, 4), comb(a.m41, a.m42, a.m43, a.m44, mat_row(b, 1), mat_row(b, 2), mat_row(b, 3), mat_row(b, 4))) == 0,
{
    lemma_det_rows_linear_4(a.m41, a.m42, a.m43, a.m44, mat_row(b, 1), mat_row(b, 2), mat_row(b, 3), mat_row(b, 4), mat_row(b, 1), mat_row(b, 4), mat_row(b, 4));
    lemma_det_rows_repeated_14(mat_row(b, 1), mat_row(b, 4), mat_row(b, 4), mat_row(b, 1));
    lemma_mul_by_zero(a.m41, det_rows(mat_row(b, 1), mat_row(b, 4), mat_row(b, 4), mat_row(b, 1)));
    lemma_det_rows_repeated_23(mat_row(b, 1), mat_row(b, 4), mat_row(b, 4), mat_row(b, 2));
    lemma_mul_by_zero(a.m42, det_rows(mat_row(b, 1), mat_row(b, 4), mat_row(b, 4), mat_row(b, 2)));
    lemma_det_rows_repeated_23(mat_row(b, 1), mat_row(b, 4), mat_row(b, 4), mat_row(b, 3));
    lemma_mul_by_zero(a.m43, det_rows(mat_row(b, 1), mat_row(b, 4), mat_row(b, 4), mat_row(b, 3)));
    lemma_det_rows_repeated_23(mat_row(b, 1), mat_row(b, 4), mat_row(b, 4), mat_row(b, 4));
    lemma_mul_by_zero(a.m44, det_rows(mat_row(b, 1), mat_row(b, 4), mat_row(b, 4), mat_row(b, 4)));
}

proof fn lemma_det_mul_211(a: Mat4, b: Mat4)
    ensures
        det_rows(mat_row(b, 2), mat_row(b, 1), mat_row(b, 1), comb(a.m41, a.m42, a.m43, a.m44, mat_row(b, 1), mat_row(b, 2), mat_row(b, 3), mat_row(b, 4))) == 0,
{
    lemma_det_rows_linear_4(a.m41, a.m42, a.m43, a.m44, mat_row(b, 1), mat_row(b, 2), mat_row(b, 3), mat_row(b, 4), mat_row(b, 2), mat_row(b, 1), mat_row(b, 1));
    lemma_det_rows_repeated_23(mat_row(b, 2), mat_row(b, 1), mat_row(b, 1), mat_row(b, 1));
    lemma_mul_by_zero(a.m41, det_rows(mat_row(b, 2), mat_row(b, 1), mat_row(b, 1), mat_row(b, 1)));
    lemma_det_rows_repeated_14(mat_row(b, 2), mat_row(b, 1), mat_row(b, 1), mat_row(b, 2));
    lemma_mul_by_zero(a.m42, det_rows(mat_row(b, 2), mat_row(b, 1), mat_row(b, 1), mat_row(b, 2)));
    lemma_det_rows_repeated_23(mat_row(b, 2), mat_row(b, 1), mat_row(b, 1), mat_row(b, 3));
    lemma_mul_by_zero(a.m43, det_rows(mat_row(b, 2), mat_row(b, 1), mat_row(b, 1), mat_row(b, 3)));
    lemma_det_rows_repeated_23(mat_row(b, 2), mat_row(b, 1), mat_row(b, 1), mat_row(b, 4));
    lemma_mul_by_zero(a.m44, det_rows(mat_row(b, 2), mat_row(b, 1), mat_row(b, 1), mat_row(b, 4)));
}

proof fn lemma_det_mul_212(a: Mat4, b: Mat4)
    ensures
        det_rows(mat_row(b, 2), mat_row(b, 1), mat_row(b, 2), comb(a.m41, a.m42, a.m43, a.m44, mat_row(b, 1), mat_row(b, 2), mat_row(b, 3), mat_row(b, 4))) == 0,
{
    lemma_det_rows_linear_4(a.m41, a.m42, a.m43, a.m44, mat_row(b, 1), mat_row(b, 2), mat_row(b, 3), mat_row(b, 4), mat_row(b, 2), mat_row(b, 1), mat_row(b, 2));
    lemma_det_rows_repeated_13(mat_row(b, 2), mat_row(b, 1), mat_row(b, 2), mat_row(b, 1));
    lemma_mul_by_zero(a.m41, det_rows(mat_row(b, 2), mat_row(b, 1), mat_row(b, 2), mat_row(b, 1)));
    lemma_det_rows_repeated_13(mat_row(b, 2), mat_row(b, 1), mat_row(b, 2), mat_row(b, 2));
    lemma_mul_by_zero(a.m42, det_rows(mat_row(b, 2), mat_row(b, 1), mat_row(b, 2), mat_row(b, 2)));
    lemma_det_rows_repeated_13(mat_row(b, 2), mat_row(b, 1), mat_row(b, 2), mat_row(b, 3));
    lemma_mul_by_zero(a.m43, det_rows(mat_row(b, 2), mat_row(b, 1), mat_row(b, 2), mat_row(b, 3)));
    lemma_det_rows_repeated_13(mat_row(b, 2), mat_row(b, 1), mat_row(b, 2), mat_row(b, 4));
    lemma_mul_by_zero(a.m44, det_rows(mat_row(b, 2), mat_row(b, 1), mat_row(b, 2), mat_row(b, 4)));
}

proof fn lemma_det_mul_213(a: Mat4, b: Mat4)
    ensures
        det_rows(mat_row(b, 2), mat_row(b, 1), mat_row(b, 3), comb(a.m41, a.m42, a.m43, a.m44, mat_row(b, 1), mat_row(b, 2), mat_row(b, 3), mat_row(b, 4))) == a.m44 * (-det_rows(mat_row(b, 1), mat_row(b, 2), mat_row(b, 3), mat_row(b, 4))),
{
    lemma_det_rows_linear_4(a.m41, a.m42, a.m43, a.m44, mat_row(b, 1), mat_row(b, 2), mat_row(b, 3), mat_row(b, 4), mat_row(b, 2), mat_row(b, 1), mat_row(b, 3));
    lemma_det_rows_repeated_24(mat_row(b, 2), mat_row(b, 1), mat_row(b, 3), mat_row(b, 1));
    lemma_mul_by_zero(a.m41, det_rows(mat_row(b, 2), mat_row(b, 1), mat_row(b, 3), mat_row(b, 1)));
    lemma_det_rows_repeated_14(mat_row(b, 2), mat_row(b, 1), mat_row(b, 3), mat_row(b, 2));
    lemma_mul_by_zero(a.m42, det_rows(mat_row(b, 2), mat_row(b, 1), mat_row(b, 3), mat_row(b, 2)));
    lemma_det_rows_repeated_34(mat_row(b, 2), mat_row(b, 1), mat_row(b, 3), mat_row(b, 3));
    lemma_mul_by_zero(a.m43, det_rows(mat_row(b, 2), mat_row(b, 1), mat_row(b, 3), mat_row(b, 3)));
    lemma_det_rows_swap_12(mat_row(b, 1), mat_row(b, 2), mat_row(b, 3), mat_row(b, 4));
    lemma_mul_by_equal(a.m44, det_rows(mat_row(b, 2), mat_row(b, 1), mat_row(b, 3), mat_row(b, 4)), (-det_rows(mat_row(b, 1), mat_row(b, 2), mat_row(b, 3), mat_row(b, 4))));
}

proof fn lemma_det_mul_214(a: Mat4, b: Mat4)
    ensures
        det_rows(mat_row(b, 2), mat_row(b, 1), mat_row(b, 4), comb(a.m41, a.m42, a.m43, a.m44, mat_row(b, 1), mat_row(b, 2), mat_row(b, 3), mat_row(b, 4))) == a.m43 * det_rows(mat_row(b, 1), mat_row(b, 2), mat_row(b, 3), mat_row(b, 4)),
{
    lemma_det_rows_linear_4(a.m41, a.m42, a.m43, a.m44, mat_row(b, 1), mat_row(b, 2), mat_row(b, 3), mat_row(b, 4), mat_row(b, 2), mat_row(b, 1), mat_row(b, 4));
    lemma_det_rows_repeated_24(mat_row(b, 2), mat_row(b, 1), mat_row(b, 4), mat_row(b, 1));
    lemma_mul_by_zero(a.m41, det_rows(mat_row(b, 2), mat_row(b, 1), mat_row(b, 4), mat_row(b, 1)));
    lemma_det_rows_repeated_14(mat_row(b, 2), mat_row(b, 1), mat_row(b, 4), mat_row(b, 2));
    lemma_mul_by_zero(a.m42, det_rows(mat_row(b, 2), mat_row(b, 1), mat_row(b, 4), mat_row(b, 2)));
    lemma_det_rows_swap_12(mat_row(b, 1), mat_row(b, 2), mat_row(b, 4), mat_row(b, 3));
    lemma_det_rows_swap_34(mat_row(b, 1), mat_row(b, 2), mat_row(b, 3), mat_row(b, 4));
    lemma_mul_by_equal(a.m43, det_rows(mat_row(b, 2), mat_row(b, 1), mat_row(b, 4), mat_row(b, 3)), det_rows(mat_row(b, 1), mat_row(b, 2), mat_row(b, 3), mat_row(b, 4)));
    lemma_det_rows_repeated_34(mat_row(b, 2), mat_row(b, 1), mat_row(b, 4), mat_row(b, 4));
    lemma_mul_by_zero(a.m44, det_rows(mat_row(b, 2), mat_row(b, 1), mat_row(b, 4), mat_row(b, 4)));
}

proof fn lemma_det_mul_221(a: Mat4, b: Mat4)
    ensures
        det_rows(mat_row(b, 2), mat_row(b, 2), mat_row(b, 1), comb(a.m41, a.m42, a.m43, a.m44, mat_row(b, 1), mat_row(b, 2), mat_row(b, 3), mat_row(b, 4))) == 0,
{
    lemma_det_rows_linear_4(a.m41, a.m42, a.m43, a.m44, mat_row(b, 1), mat_row(b, 2), mat_row(b, 3), mat_row(b, 4), mat_row(b, 2), mat_row(b, 2), mat_row(b, 1));
    lemma_det_rows_repeated_12(mat_row(b, 2), mat_row(b, 2), mat_row(b, 1), mat_row(b, 1));
    lemma_mul_by_zero(a.m41, det_rows(mat_row(b, 2), mat_row(b, 2), mat_row(b, 1), mat_row(b, 1)));
    lemma_det_rows_repeated_12(mat_row(b, 2), mat_row(b, 2), mat_row(b, 1), mat_row(b, 2));
    lemma_mul_by_zero(a.m42, det_rows(mat_row(b, 2), mat_row(b, 2), mat_row(b, 1), mat_row(b, 2)));
    lemma_det_rows_repeated_12(mat_row(b, 2), mat_row(b, 2), mat_row(b, 1), mat_row(b, 3));
    lemma_mul_by_zero(a.m43, det_rows(mat_row(b, 2), mat_row(b, 2), mat_row(b, 1), mat_row(b, 3)));
    lemma_det_rows_repeated_12(mat_row(b, 2), mat_row(b, 2), mat_row(b, 1), mat_row(b, 4));
    lemma_mul_by_zero(a.m44, det_rows(mat_row(b, 2), mat_row(b, 2), mat_row(b, 1), mat_row(b, 4)));
}

proof fn lemma_det_mul_222(a: Mat4, b: Mat4)
    ensures
        det_rows(mat_row(b, 2), mat_row(b, 2), mat_row(b, 2), comb(a.m41, a.m42, a.m43, a.m44, mat_row(b, 1), mat_row(b, 2), mat_row(b, 3), mat_row(b, 4))) == 0,
{
    lemma_det_rows_linear_4(a.m41, a.m42, a.m43, a.m44, mat_row(b, 1), mat_row(b, 2), mat_row(b, 3), mat_row(b, 4), mat_row(b, 2), mat_row(b, 2), mat_row(b, 2));
    lemma_det_rows_repeated_12(mat_row(b, 2), mat_row(b, 2), mat_row(b, 2), mat_row(b, 1));
    lemma_mul_by_zero(a.m41, det_rows(mat_row(b, 2), mat_row(b, 2), mat_row(b, 2), mat_row(b, 1)));
    lemma_det_rows_repeated_12(mat_row(b, 2), mat_row(b, 2), mat_row(b, 2), mat_row(b, 2));
    lemma_mul_by_zero(a.m42, det_rows(mat_row(b, 2), mat_row(b, 2), mat_row(b, 2), mat_row(b, 2)));
    lemma_det_rows_repeated_12(mat_row(b, 2), mat_row(b, 2), mat_row(b, 2), mat_row(b, 3));
    lemma_mul_by_zero(a.m43, det_rows(mat_row(b, 2), mat_row(b, 2), mat_row(b, 2), mat_row(b, 3)));
    lemma_det_rows_repeated_12(mat_row(b, 2), mat_row(b, 2), mat_row(b, 2), mat_row(b, 4));
    lemma_mul_by_zero(a.m44, det_rows(mat_row(b, 2), mat_row(b, 2), mat_row(b, 2), mat_row(b, 4)));
}

proof fn lemma_det_mul_223(a: Mat4, b: Mat4)
    ensures
        det_rows(mat_row(b, 2), mat_row(b, 2), mat_row(b, 3), comb(a.m41, a.m42, a.m43, a.m44, mat_row(b, 1), mat_row(b, 2), mat_row(b, 3), mat_row(b, 4))) == 0,
{
    lemma_det_rows_linear_4(a.m41, a.m42, a.m43, a.m44, mat_row(b, 1), mat_row(b, 2), mat_row(b, 3), mat_row(b, 4), mat_row(b, 2), mat_row(b, 2), mat_row(b, 3));
    lemma_det_rows_repeated_12(mat_row(b, 2), mat_row(b, 2), mat_row(b, 3), mat_row(b, 1));
    lemma_mul_by_zero(a.m41, det_rows(mat_row(b, 2), mat_row(b, 2), mat_row(b, 3), mat_row(b, 1)));
    lemma_det_rows_repeated_12(mat_row(b, 2), mat_row(b, 2), mat_row(b, 3), mat_row(b, 2));
    lemma_mul_by_zero(a.m42, det_rows(mat_row(b, 2), mat_row(b, 2), mat_row(b, 3), mat_row(b, 2)));
    lemma_det_rows_repeated_12(mat_row(b, 2), mat_row(b, 2), mat_row(b, 3), mat_row(b, 3));
    lemma_mul_by_zero(a.m43, det_rows(mat_row(b, 2), mat_row(b, 2), mat_row(b, 3), mat_row(b, 3)));
    lemma_det_rows_repeated_12(mat_row(b, 2), mat_row(b, 2), mat_row(b, 3), mat_row(b, 4));
    lemma_mul_by_zero(a.m44, det_rows(mat_row(b, 2), mat_row(b, 2), mat_row(b, 3), mat_row(b, 4)));
}

proof fn lemma_det_mul_224(a: Mat4, b: Mat4)
    ensures
        det_rows(mat_row(b, 2), mat_row(b, 2), mat_row(b, 4), comb(a.m41, a.m42, a.m43, a.m44, mat_row(b, 1), mat_row(b, 2), mat_row(b, 3), mat_row(b, 4))) == 0,
{
    lemma_det_rows_linear_4(a.m41, a.m42, a.m43, a.m44, mat_row(b, 1), mat_row(b, 2), mat_row(b, 3), mat_row(b, 4), mat_row(b, 2), mat_row(b, 2), mat_row(b, 4));
    lemma_det_rows_repeated_12(mat_row(b, 2), mat_row(b, 2), mat_row(b, 4), mat_row(b, 1));
    lemma_mul_by_zero(a.m41, det_rows(mat_row(b, 2), mat_row(b, 2), mat_row(b, 4), mat_row(b, 1)));
    lemma_det_rows_repeated_12(mat_row(b, 2), mat_row(b, 2), mat_row(b, 4), mat_row(b, 2));
    lemma_mul_by_zero(a.m42, det_rows(mat_row(b, 2), mat_row(b, 2), mat_row(b, 4), mat_row(b, 2)));
    lemma_det_rows_repeated_12(mat_row(b, 2), mat_row(b, 2), mat_row(b, 4), mat_row(b, 3));
    lemma_mul_by_zero(a.m43, det_rows(mat_row(b, 2), mat_row(b, 2), mat_row(b, 4), mat_row(b, 3)));
    lemma_det_rows_repeated_12(mat_row(b, 2), mat_row(b, 2), mat_row(b, 4), mat_row(b, 4));
    lemma_mul_by_zero(a.m44, det_rows(mat_row(b, 2), mat_row(b, 2), mat_row(b, 4), mat_row(b, 4)));
}

proof fn lemma_det_mul_231(a: Mat4, b: Mat4)
    ensures
        det_rows(mat_row(b, 2), mat_row(b, 3), mat_row(b, 1), comb(a.m41, a.m42, a.m43, a.m44, mat_row(b, 1), mat_row(b, 2), mat_row(b, 3), mat_row(b, 4))) == a.m44 * det_rows(mat_row(b, 1), mat_row(b, 2), mat_row(b, 3), mat_row(b, 4)),
{
    lemma_det_rows_linear_4(a.m41, a.m42, a.m43, a.m44, mat_row(b, 1), mat_row(b, 2), mat_row(b, 3), mat_row(b, 4), mat_row(b, 2), mat_row(b, 3), mat_row(b, 1));
    lemma_det_rows_repeated_34(mat_row(b, 2), mat_row(b, 3), mat_row(b, 1), mat_row(b, 1));
    lemma_mul_by_zero(a.m41, det_rows(mat_row(b, 2), mat_row(b, 3), mat_row(b, 1), mat_row(b, 1)));
    lemma_det_rows_repeated_14(mat_row(b, 2), mat_row(b, 3), mat_row(b, 1), mat_row(b, 2));
    lemma_mul_by_zero(a.m42, det_rows(mat_row(b, 2), mat_row(b, 3), mat_row(b, 1), mat_row(b, 2)));
    lemma_det_rows_repeated_24(mat_row(b, 2), mat_row(b, 3), mat_row(b, 1), mat_row(b, 3));
    lemma_mul_by_zero(a.m43, det_rows(mat_row(b, 2), mat_row(b, 3), mat_row(b, 1), mat_row(b, 3)));
    lemma_det_rows_swap_23(mat_row(b, 2), mat_row(b, 1), mat_row(b, 3), mat_row(b, 4));
    lemma_det_rows_swap_12(mat_row(b, 1), mat_row(b, 2), mat_row(b, 3), mat_row(b, 4));
    lemma_mul_by_equal(a.m44, det_rows(mat_row(b, 2), mat_row(b, 3), mat_row(b, 1), mat_row(b, 4)), det_rows(mat_row(b, 1), mat_row(b, 2), mat_row(b, 3), mat_row(b, 4)));
}

proof fn lemma_det_mul_232(a: Mat4, b: Mat4)
    ensures
        det_rows(mat_row(b, 2), mat_row(b, 3), mat_row(b, 2), comb(a.m41, a.m42, a.m43, a.m44, mat_row(b, 1), mat_row(b, 2), mat_row(b, 3), mat_row(b, 4))) == 0,
{
    lemma_det_rows_linear_4(a.m41, a.m42, a.m43, a.m44, mat_row(b, 1), mat_row(b, 2), mat_row(b, 3), mat_row(b, 4), mat_row(b, 2), mat_row(b, 3), mat_row(b, 2));
    lemma_det_rows_repeated_13(mat_row(b, 2), mat_row(b, 3), mat_row(b, 2), mat_row(b, 1));
    lemma_mul_by_zero(a.m41, det_rows(mat_row(b, 2), mat_row(b, 3), mat_row(b, 2), mat_row(b, 1)));
    lemma_det_rows_repeated_13(mat_row(b, 2), mat_row(b, 3), mat_row(b, 2), mat_row(b, 2));
    lemma_mul_by_zero(a.m42, det_rows(mat_row(b, 2), mat_row(b, 3), mat_row(b, 2), mat_row(b, 2)));
    lemma_det_rows_repeated_13(mat_row(b, 2), mat_row(b, 3), mat_row(b, 2), mat_row(b, 3));
    lemma_mul_by_zero(a.m43, det_rows(mat_row(b, 2), mat_row(b, 3), mat_row(b, 2), mat_row(b, 3)));
    lemma_det_rows_repeated_13(mat_row(b, 2), mat_row(b, 3), mat_row(b, 2), mat_row(b, 4));
    lemma_mul_by_zero(a.m44, det_rows(mat_row(b, 2), mat_row(b, 3), mat_row(b, 2), mat_row(b, 4)));
}

proof fn lemma_det_mul_233(a: Mat4, b: Mat4)
    ensures
        det_rows(mat_row(b, 2), mat_row(b, 3), mat_row(b, 3), comb(a.m41, a.m42, a.m43, a.m44, mat_row(b, 1), mat_row(b, 2), mat_row(b, 3), mat_row(b, 4))) == 0,
{
    lemma_det_rows_linear_4(a.m41, a.m42, a.m43, a.m44, mat_row(b, 1), mat_row(b, 2), mat_row(b, 3), mat_row(b, 4), mat_row(b, 2), mat_row(b, 3), mat_row(b, 3));
    lemma_det_rows_repeated_23(mat_row(b, 2), mat_row(b, 3), mat_row(b, 3), mat_row(b, 1));
    lemma_mul_by_zero(a.m41, det_rows(mat_row(b, 2), mat_row(b, 3), mat_row(b, 3), mat_row(b, 1)));
    lemma_det_rows_repeated_14(mat_row(b, 2), mat_row(b, 3), mat_row(b, 3), mat_row(b, 2));
    lemma_mul_by_zero(a.m42, det_rows(mat_row(b, 2), mat_row(b, 3), mat_row(b, 3), mat_row(b, 2)));
    lemma_det_rows_repeated_23(mat_row(b, 2), mat_row(b, 3), mat_row(b, 3), mat_row(b, 3));
    lemma_mul_by_zero(a.m43, det_rows(mat_row(b, 2), mat_row(b, 3), mat_row(b, 3), mat_row(b, 3)));
    lemma_det_rows_repeated_23(mat_row(b, 2), mat_row(b, 3), mat_row(b, 3), mat_row(b, 4));
    lemma_mul_by_zero(a.m44, det_rows(mat_row(b, 2), mat_row(b, 3), mat_row(b, 3), mat_row(b, 4)));
}

proof fn lemma_det_mul_234(a: Mat4, b: Mat4)
    ensures
        det_rows(mat_row(b, 2), mat_row(b, 3), mat_row(b, 4), comb(a.m41, a.m42, a.m43, a.m44, mat_row(b, 1), mat_row(b, 2), mat_row(b, 3), mat_row(b, 4))) == a.m41 * (-det_rows(mat_row(b, 1), mat_row(b, 2), mat_row(b, 3), mat_row(b, 4))),
{
    lemma_det_rows_linear_4(a.m41, a.m42, a.m43, a.m44, mat_row(b, 1), mat_row(b, 2), mat_row(b, 3), mat_row(b, 4), mat_row(b, 2), mat_row(b, 3), mat_row(b, 4));
    lemma_det_rows_swap_34(mat_row(b, 2), mat_row(b, 3), mat_row(b, 1), mat_row(b, 4));
    lemma_det_rows_swap_23(mat_row(b, 2), mat_row(b, 1), mat_row(b, 3), mat_row(b, 4));
    lemma_det_rows_swap_12(mat_row(b, 1), mat_row(b, 2), mat_row(b, 3), mat_row(b, 4));
    lemma_mul_by_equal(a.m41, det_rows(mat_row(b, 2), mat_row(b, 3), mat_row(b, 4), mat_row(b, 1)), (-det_rows(mat_row(b, 1), mat_row(b, 2), mat_row(b, 3), mat_row(b, 4))));
    lemma_det_rows_repeated_14(mat_row(b, 2), mat_row(b, 3), mat_row(b, 4), mat_row(b, 2));
    lemma_mul_by_zero(a.m42, det_rows(mat_row(b, 2), mat_row(b, 3), mat_row(b, 4), mat_row(b, 2)));
    lemma_det_rows_repeated_24(mat_row(b, 2), mat_row(b, 3), mat_row(b, 4), mat_row(b, 3));
    lemma_mul_by_zero(a.m43, det_rows(mat_row(b, 2), mat_row(b, 3), mat_row(b, 4), mat_row(b, 3)));
    lemma_det_rows_repeated_34(mat_row(b, 2), mat_row(b, 3), mat_row(b, 4), mat_row(b, 4));
    lemma_mul_by_zero(a.m44, det_rows(mat_row(b, 2), mat_row(b, 3), mat_row(b, 4), mat_row(b, 4)));
}

proof fn lemma_det_mul_241(a: Mat4, b: Mat4)
    ensures
        det_rows(mat_row(b, 2), mat_row(b, 4), mat_row(b, 1), comb(a.m41, a.m42, a.m43, a.m44, mat_row(b, 1), mat_row(b, 2), mat_row(b, 3), mat_row(b, 4))) == a.m43 * (-det_rows(mat_row(b, 1), mat_row(b, 2), mat_row(b, 3), mat_row(b, 4))),
{
    lemma_det_rows_linear_4(a.m41, a.m42, a.m43, a.m44, mat_row(b, 1), mat_row(b, 2), mat_row(b, 3), mat_row(b, 4), mat_row(b, 2), mat_row(b, 4), mat_row(b, 1));
    lemma_det_rows_repeated_34(mat_row(b, 2), mat_row(b, 4), mat_row(b, 1), mat_row(b, 1));
    lemma_mul_by_zero(a.m41, det_rows(mat_row(b, 2), mat_row(b, 4), mat_row(b, 1), mat_row(b, 1)));
    lemma_det_rows_repeated_14(mat_row(b, 2), mat_row(b, 4), mat_row(b, 1), mat_row(b, 2));
    lemma_mul_by_zero(a.m42, det_rows(mat_row(b, 2), mat_row(b, 4), mat_row(b, 1), mat_row(b, 2)));
    lemma_det_rows_swap_23(mat_row(b, 2), mat_row(b, 1), mat_row(b, 4), mat_row(b, 3));
    lemma_det_rows_swap_34(mat_row(b, 2), mat_row(b, 1), mat_row(b, 3), mat_row(b, 4));
    lemma_det_rows_swap_12(mat_row(b, 1), mat_row(b, 2), mat_row(b, 3), mat_row(b, 4));
    lemma_mul_by_equal(a.m43, det_rows(mat_row(b, 2), mat_row(b, 4), mat_row(b, 1), mat_row(b, 3)), (-det_rows(mat_row(b, 1), mat_row(b, 2), mat_row(b, 3), mat_row(b, 4))));
    lemma_det_rows_repeated_24(mat_row(b, 2), mat_row(b, 4), mat_row(b, 1), mat_row(b, 4));
    lemma_mul_by_zero(a.m44, det_rows(mat_row(b, 2), mat_row(b, 4), mat_row(b, 1), mat_row(b, 4)));
}

proof fn lemma_det_mul_242(a: Mat4, b: Mat4)
    ensures
        det_rows(mat_row(b, 2), mat_row(b, 4), mat_row(b, 2), comb(a.m41, a.m42, a.m43, a.m44, mat_row(b, 1), mat_row(b, 2), mat_row(b, 3), mat_row(b, 4))) == 0,
{
    lemma_det_rows_linear_4(a.m41, a.m42, a.m43, a.m44, mat_row(b, 1), mat_row(b, 2), mat_row(b, 3), mat_row(b, 4), mat_row(b, 2), mat_row(b, 4), mat_row(b, 2));
    lemma_det_rows_repeated_13(mat_row(b, 2), mat_row(b, 4), mat_row(b, 2), mat_row(b, 1));
    lemma_mul_by_zero(a.m41, det_rows(mat_row(b, 2), mat_row(b, 4), mat_row(b, 2), mat_row(b, 1)));
    lemma_det_rows_repeated_13(mat_row(b, 2), mat_row(b, 4), mat_row(b, 2), mat_row(b, 2));
    lemma_mul_by_zero(a.m42, det_rows(mat_row(b, 2), mat_row(b, 4), mat_row(b, 2), mat_row(b, 2)));
    lemma_det_rows_repeated_13(mat_row(b, 2), mat_row(b, 4), mat_row(b, 2), mat_row(b, 3));
    lemma_mul_by_zero(a.m43, det_rows(mat_row(b, 2), mat_row(b, 4), mat_row(b, 2), mat_row(b, 3)));
    lemma_det_rows_repeated_13(mat_row(b, 2), mat_row(b, 4), mat_row(b, 2), mat_row(b, 4));
    lemma_mul_by_zero(a.m44, det_rows(mat_row(b, 2), mat_row(b, 4), mat_row(b, 2), mat_row(b, 4)));
}

proof fn lemma_det_mul_243(a: Mat4, b: Mat4)
    ensures
        det_rows(mat_row(b, 2), mat_row(b, 4), mat_row(b, 3), comb(a.m41, a.m42, a.m43, a.m44, mat_row(b, 1), mat_row(b, 2), mat_row(b, 3), mat_row(b, 4))) == a.m41 * det_rows(mat_row(b, 1), mat_row(b, 2), mat_row(b, 3), mat_row(b, 4)),
{
    lemma_det_rows_linear_4(a.m41, a.m42, a.m43, a.m44, mat_row(b, 1), mat_row(b, 2), mat_row(b, 3), mat_row(b, 4), mat_row(b, 2), mat_row(b, 4), mat_row(b, 3));
    lemma_det_rows_swap_23(mat_row(b, 2), mat_row(b, 3), mat_row(b, 4), mat_row(b, 1));
    lemma_det_rows_swap_34(mat_row(b, 2), mat_row(b, 3), mat_row(b, 1), mat_row(b, 4));
    lemma_det_rows_swap_23(mat_row(b, 2), mat_row(b, 1), mat_row(b, 3), mat_row(b, 4));
    lemma_det_rows_swap_12(mat_row(b, 1), mat_row(b, 2), mat_row(b, 3), mat_row(b, 4));
    lemma_mul_by_equal(a.m41, det_rows(mat_row(b, 2), mat_row(b, 4), mat_row(b, 3), mat_row(b, 1)), det_rows(mat_row(b, 1), mat_row(b, 2), mat_row(b, 3), mat_row(b, 4)));
    lemma_det_rows_repeated_14(mat_row(b, 2), mat_row(b, 4), mat_row(b, 3), mat_row(b, 2));
    lemma_mul_by_zero(a.m42, det_rows(mat_row(b, 2), mat_row(b, 4), mat_row(b, 3), mat_row(b, 2)));
    lemma_det_rows_repeated_34(mat_row(b, 2), mat_row(b, 4), mat_row(b, 3), mat_row(b, 3));
    lemma_mul_by_zero(a.m43, det_rows(mat_row(b, 2), mat_row(b, 4), mat_row(b, 3), mat_row(b, 3)));
    lemma_det_rows_repeated_24(mat_row(b, 2), mat_row(b, 4), mat_row(b, 3), mat_row(b, 4));
    lemma_mul_by_zero(a.m44, det_rows(mat_row(b, 2), mat_row(b, 4), mat_row(b, 3), mat_row(b, 4)));
}

proof fn lemma_det_mul_244(a: Mat4, b: Mat4)
    ensures
        det_rows(mat_row(b, 2), mat_row(b, 4), mat_row(b, 4), comb(a.m41, a.m42, a.m43, a.m44, mat_row(b, 1), mat_row(b, 2), mat_row(b, 3), mat_row(b, 4))) == 0,
{
    lemma_det_rows_linear_4(a.m41, a.m42, a.m43, a.m44, mat_row(b, 1), mat_row(b, 2), mat_row(b, 3), mat_row(b, 4), mat_row(b, 2), mat_row(b, 4), mat_row(b, 4));
    lemma_det_rows_repeated_23(mat_row(b, 2), mat_row(b, 4), mat_row(b, 4), mat_row(b, 1));
    lemma_mul_by_zero(a.m41, det_rows(mat_row(b, 2), mat_row(b, 4), mat_row(b, 4), mat_row(b, 1)));
    lemma_det_rows_repeated_14(mat_row(b, 2), mat_row(b, 4), mat_row(b, 4), mat_row(b, 2));
    lemma_mul_by_zero(a.m42, det_rows(mat_row(b, 2), mat_row(b, 4), mat_row(b, 4), mat_row(b, 2)));
    lemma_det_rows_repeated_23(mat_row(b, 2), mat_row(b, 4), mat_row(b, 4), mat_row(b, 3));
    lemma_mul_by_zero(a.m43, det_rows(mat_row(b, 2), mat_row(b, 4), mat_row(b, 4), mat_row(b, 3)));
    lemma_det_rows_repeated_23(mat_row(b, 2), mat_row(b, 4), mat_row(b, 4), mat_row(b, 4));
    lemma_mul_by_zero(a.m44, det_rows(mat_row(b, 2), mat_row(b, 4), mat_row(b, 4), mat_row(b, 4)));
}

proof fn lemma_det_mul_311(a: Mat4, b: Mat4)
    ensures
        det_rows(mat_row(b, 3), mat_row(b, 1), mat_row(b, 1), comb(a.m41, a.m42, a.m43, a.m44, mat_row(b, 1), mat_row(b, 2), mat_row(b, 3), mat_row(b, 4))) == 0,
{
    lemma_det_rows_linear_4(a.m41, a.m42, a.m43, a.m44, mat_row(b, 1), mat_row(b, 2), mat_row(b, 3), mat_row(b, 4), mat_row(b, 3), mat_row(b, 1), mat_row(b, 1));
    lemma_det_rows_repeated_23(mat_row(b, 3), mat_row(b, 1), mat_row(b, 1), mat_row(b, 1));
    lemma_mul_by_zero(a.m41, det_rows(mat_row(b, 3), mat_row(b, 1), mat_row(b, 1), mat_row(b, 1)));
    lemma_det_rows_repeated_23(mat_row(b, 3), mat_row(b, 1), mat_row(b, 1), mat_row(b, 2));
    lemma_mul_by_zero(a.m42, det_rows(mat_row(b, 3), mat_row(b, 1), mat_row(b, 1), mat_row(b, 2)));
    lemma_det_rows_repeated_14(mat_row(b, 3), mat_row(b, 1), mat_row(b, 1), mat_row(b, 3));
    lemma_mul_by_zero(a.m43, det_rows(mat_row(b, 3), mat_row(b, 1), mat_row(b, 1), mat_row(b, 3)));
    lemma_det_rows_repeated_23(mat_row(b, 3), mat_row(b, 1), mat_row(b, 1), mat_row(b, 4));
    lemma_mul_by_zero(a.m44, det_rows(mat_row(b, 3), mat_row(b, 1), mat_row(b, 1), mat_row(b, 4)));
}

proof fn lemma_det_mul_312(a: Mat4, b: Mat4)
    ensures
        det_rows(mat_row(b, 3), mat_row(b, 1), mat_row(b, 2), comb(a.m41, a.m42, a.m43, a.m44, mat_row(b, 1), mat_row(b, 2), mat_row(b, 3), mat_row(b, 4))) == a.m44 * det_rows(mat_row(b, 1), mat_row(b, 2), mat_row(b, 3), mat_row(b, 4)),
{
    lemma_det_rows_linear_4(a.m41, a.m42, a.m43, a.m44, mat_row(b, 1), mat_row(b, 2), mat_row(b, 3), mat_row(b, 4), mat_row(b, 3), mat_row(b, 1), mat_row(b, 2));
    lemma_det_rows_repeated_24(mat_row(b, 3), mat_row(b, 1), mat_row(b, 2), mat_row(b, 1));
    lemma_mul_by_zero(a.m41, det_rows(mat_row(b, 3), mat_row(b, 1), mat_row(b, 2), mat_row(b, 1)));
    lemma_det_rows_repeated_34(mat_row(b, 3), mat_row(b, 1), mat_row(b, 2), mat_row(b, 2));
    lemma_mul_by_zero(a.m42, det_rows(mat_row(b, 3), mat_row(b, 1), mat_row(b, 2), mat_row(b, 2)));
    lemma_det_rows_repeated_14(mat_row(b, 3), mat_row(b, 1), mat_row(b, 2), mat_row(b, 3));
    lemma_mul_by_zero(a.m43, det_rows(mat_row(b, 3), mat_row(b, 1), mat_row(b, 2), mat_row(b, 3)));
    lemma_det_rows_swap_12(mat_row(b, 1), mat_row(b, 3), mat_row(b, 2), mat_row(b, 4));
    lemma_det_rows_swap_23(mat_row(b, 1), mat_row(b, 2), mat_row(b, 3), mat_row(b, 4));
    lemma_mul_by_equal(a.m44, det_rows(mat_row(b, 3), mat_row(b, 1), mat_row(b, 2), mat_row(b, 4)), det_rows(mat_row(b, 1), mat_row(b, 2), mat_row(b, 3), mat_row(b, 4)));
}

proof fn lemma_det_mul_313(a: Mat4, b: Mat4)
    ensures
        det_rows(mat_row(b, 3), mat_row(b, 1), mat_row(b, 3), comb(a.m41, a.m42, a.m43, a.m44, mat_row(b, 1), mat_row(b, 2), mat_row(b, 3), mat_row(b, 4))) == 0,
{
    lemma_det_rows_linear_4(a.m41, a.m42, a.m43, a.m44, mat_row(b, 1), mat_row(b, 2), mat_row(b, 3), mat_row(b, 4), mat_row(b, 3), mat_row(b, 1), mat_row(b, 3));
    lemma_det_rows_repeated_13(mat_row(b, 3), mat_row(b, 1), mat_row(b, 3), mat_row(b, 1));
    lemma_mul_by_zero(a.m41, det_rows(mat_row(b, 3), mat_row(b, 1), mat_row(b, 3), mat_row(b, 1)));
    lemma_det_rows_repeated_13(mat_row(b, 3), mat_row(b, 1), mat_row(b, 3), mat_row(b, 2));
    lemma_mul_by_zero(a.m42, det_rows(mat_row(b, 3), mat_row(b, 1), mat_row(b, 3), mat_row(b, 2)));
    lemma_det_rows_repeated_13(mat_row(b, 3), mat_row(b, 1), mat_row(b, 3), mat_row(b, 3));
    lemma_mul_by_zero(a.m43, det_rows(mat_row(b, 3), mat_row(b, 1), mat_row(b, 3), mat_row(b, 3)));
    lemma_det_rows_repeated_13(mat_row(b, 3), mat_row(b, 1), mat_row(b, 3), mat_row(b, 4));
    lemma_mul_by_zero(a.m44, det_rows(mat_row(b, 3), mat_row(b, 1), mat_row(b, 3), mat_row(b, 4)));
}

proof fn lemma_det_mul_314(a: Mat4, b: Mat4)
    ensures
        det_rows(mat_row(b, 3), mat_row(b, 1), mat_row(b, 4), comb(a.m41, a.m42, a.m43, a.m44, mat_row(b, 1), mat_row(b, 2), mat_row(b, 3), mat_row(b, 4))) == a.m42 * (-det_rows(mat_row(b, 1), mat_row(b, 2), mat_row(b, 3), mat_row(b, 4))),
{
    lemma_det_rows_linear_4(a.m41, a.m42, a.m43, a.m44, mat_row(b, 1), mat_row(b, 2), mat_row(b, 3), mat_row(b, 4), mat_row(b, 3), mat_row(b, 1), mat_row(b, 4));
    lemma_det_rows_repeated_24(mat_row(b, 3), mat_row(b, 1), mat_row(b, 4), mat_row(b, 1));
    lemma_mul_by_zero(a.m41, det_rows(mat_row(b, 3), mat_row(b, 1), mat_row(b, 4), mat_row(b, 1)));
    lemma_det_rows_swap_12(mat_row(b, 1), mat_row(b, 3), mat_row(b, 4), mat_row(b, 2));
    lemma_det_rows_swap_34(mat_row(b, 1), mat_row(b, 3), mat_row(b, 2), mat_row(b, 4));
    lemma_det_rows_swap_23(mat_row(b, 1), mat_row(b, 2), mat_row(b, 3), mat_row(b, 4));
    lemma_mul_by_equal(a.m42, det_rows(mat_row(b, 3), mat_row(b, 1), mat_row(b, 4), mat_row(b, 2)), (-det_rows(mat_row(b, 1), mat_row(b, 2), mat_row(b, 3), mat_row(b, 4))));
    lemma_det_rows_repeated_14(mat_row(b, 3), mat_row(b, 1), mat_row(b, 4), mat_row(b, 3));
    lemma_mul_by_zero(a.m43, det_rows(mat_row(b, 3), mat_row(b, 1), mat_row(b, 4), mat_row(b, 3)));
    lemma_det_rows_repeated_34(mat_row(b, 3), mat_row(b, 1), mat_row(b, 4), mat_row(b, 4));
    lemma_mul_by_zero(a.m44, det_rows(mat_row(b, 3), mat_row(b, 1), mat_row(b, 4), mat_row(b, 4)));
}

proof fn lemma_det_mul_321(a: Mat4, b: Mat4)
    ensures
        det_rows(mat_row(b, 3), mat_row(b, 2), mat_row(b, 1), comb(a.m41, a.m42, a.m43, a.m44, mat_row(b, 1), mat_row(b, 2), mat_row(b, 3), mat_row(b, 4))) == a.m44 * (-det_rows(mat_row(b, 1), mat_row(b, 2), mat_row(b, 3), mat_row(b, 4))),
{
    lemma_det_rows_linear_4(a.m41, a.m42, a.m43, a.m44, mat_row(b, 1), mat_row(b, 2), mat_row(b, 3), mat_row(b, 4), mat_row(b, 3), mat_row(b, 2), mat_row(b, 1));
    lemma_det_rows_repeated_34(mat_row(b, 3), mat_row(b, 2), mat_row(b, 1), mat_row(b, 1));
    lemma_mul_by_zero(a.m41, det_rows(mat_row(b, 3), mat_row(b, 2), mat_row(b, 1), mat_row(b, 1)));
    lemma_det_rows_repeated_24(mat_row(b, 3), mat_row(b, 2), mat_row(b, 1), mat_row(b, 2));
    lemma_mul_by_zero(a.m42, det_rows(mat_row(b, 3), mat_row(b, 2), mat_row(b, 1), mat_row(b, 2)));
    lemma_det_rows_repeated_14(mat_row(b, 3), mat_row(b, 2), mat_row(b, 1), mat_row(b, 3));
    lemma_mul_by_zero(a.m43, det_rows(mat_row(b, 3), mat_row(b, 2), mat_row(b, 1), mat_row(b, 3)));
    lemma_det_rows_swap_12(mat_row(b, 2), mat_row(b, 3), mat_row(b, 1), mat_row(b, 4));
    lemma_det_rows_swap_23(mat_row(b, 2), mat_row(b, 1), mat_row(b, 3), mat_row(b, 4));
    lemma_det_rows_swap_12(mat_row(b, 1), mat_row(b, 2), mat_row(b, 3), mat_row(b, 4));
    lemma_mul_by_equal(a.m44, det_rows(mat_row(b, 3), mat_row(b, 2), mat_row(b, 1), mat_row(b, 4)), (-det_rows(mat_row(b, 1), mat_row(b, 2), mat_row(b, 3), mat_row(b, 4))));
}

proof fn lemma_det_mul_322(a: Mat4, b: Mat4)
    ensures
        det_rows(mat_row(b, 3), mat_row(b, 2), mat_row(b, 2), comb(a.m41, a.m42, a.m43, a.m44, mat_row(b, 1), mat_row(b, 2), mat_row(b, 3), mat_row(b, 4))) == 0,
{
    lemma_det_rows_linear_4(a.m41, a.m42, a.m43, a.m44, mat_row(b, 1), mat_row(b, 2), mat_row(b, 3), mat_row(b, 4), mat_row(b, 3), mat_row(b, 2), mat_row(b, 2));
    lemma_det_rows_repeated_23(mat_row(b, 3), mat_row(b, 2), mat_row(b, 2), mat_row(b, 1));
    lemma_mul_by_zero(a.m41, det_rows(mat_row(b, 3), mat_row(b, 2), mat_row(b, 2), mat_row(b, 1)));
    lemma_det_rows_repeated_23(mat_row(b, 3), mat_row(b, 2), mat_row(b, 2), mat_row(b, 2));
    lemma_mul_by_zero(a.m42, det_rows(mat_row(b, 3), mat_row(b, 2), mat_row(b, 2), mat_row(b, 2)));
    lemma_det_rows_repeated_14(mat_row(b, 3), mat_row(b, 2), mat_row(b, 2), mat_row(b, 3));
    lemma_mul_by_zero(a.m43, det_rows(mat_row(b, 3), mat_row(b, 2), mat_row(b, 2), mat_row(b, 3)));
    lemma_det_rows_repeated_23(mat_row(b, 3), mat_row(b, 2), mat_row(b, 2), mat_row(b, 4));
    lemma_mul_by_zero(a.m44, det_rows(mat_row(b, 3), mat_row(b, 2), mat_row(b, 2), mat_row(b, 4)));
}

proof fn lemma_det_mul_323(a: Mat4, b: Mat4)
    ensures
        det_rows(mat_row(b, 3), mat_row(b, 2), mat_row(b, 3), comb(a.m41, a.m42, a.m43, a.m44, mat_row(b, 1), mat_row(b, 2), mat_row(b, 3), mat_row(b, 4))) == 0,
{
    lemma_det_rows_linear_4(a.m41, a.m42, a.m43, a.m44, mat_row(b, 1), mat_row(b, 2), mat_row(b, 3), mat_row(b, 4), mat_row(b, 3), mat_row(b, 2), mat_row(b, 3));
    lemma_det_rows_repeated_13(mat_row(b, 3), mat_row(b, 2), mat_row(b, 3), mat_row(b, 1));
    lemma_mul_by_zero(a.m41, det_rows(mat_row(b, 3), mat_row(b, 2), mat_row(b, 3), mat_row(b, 1)));
    lemma_det_rows_repeated_13(mat_row(b, 3), mat_row(b, 2), mat_row(b, 3), mat_row(b, 2));
    lemma_mul_by_zero(a.m42, det_rows(mat_row(b, 3), mat_row(b, 2), mat_row(b, 3), mat_row(b, 2)));
    lemma_det_rows_repeated_13(mat_row(b, 3), mat_row(b, 2), mat_row(b, 3), mat_row(b, 3));
    lemma_mul_by_zero(a.m43, det_rows(mat_row(b, 3), mat_row(b, 2), mat_row(b, 3), mat_row(b, 3)));
    lemma_det_rows_repeated_13(mat_row(b, 3), mat_row(b, 2), mat_row(b, 3), mat_row(b, 4));
    lemma_mul_by_zero(a.m44, det_rows(mat_row(b, 3), mat_row(b, 2), mat_row(b, 3), mat_row(b, 4)));
}

proof fn lemma_det_mul_324(a: Mat4, b: Mat4)
    ensures
        det_rows(mat_row(b, 3), mat_row(b, 2), mat_row(b, 4), comb(a.m41, a.m42, a.m43, a.m44, mat_row(b, 1), mat_row(b, 2), mat_row(b, 3), mat_row(b, 4))) == a.m41 * det_rows(mat_row(b, 1), mat_row(b, 2), mat_row(b, 3), mat_row(b, 4)),
{
    lemma_det_rows_linear_4(a.m41, a.m42, a.m43, a.m44, mat_row(b, 1), mat_row(b, 2), mat_row(b, 3), mat_row(b, 4), mat_row(b, 3), mat_row(b, 2), mat_row(b, 4));
    lemma_det_rows_swap_12(mat_row(b, 2), mat_row(b, 3), mat_row(b, 4), mat_row(b, 1));
    lemma_det_rows_swap_34(mat_row(b, 2), mat_row(b, 3), mat_row(b, 1), mat_row(b, 4));
    lemma_det_rows_swap_23(mat_row(b, 2), mat_row(b, 1), mat_row(b, 3), mat_row(b, 4));
    lemma_det_rows_swap_12(mat_row(b, 1), mat_row(b, 2), mat_row(b, 3), mat_row(b, 4));
    lemma_mul_by_equal(a.m41, det_rows(mat_row(b, 3), mat_row(b, 2), mat_row(b, 4), mat_row(b, 1)), det_rows(mat_row(b, 1), mat_row(b, 2), mat_row(b, 3), mat_row(b, 4)));
    lemma_det_rows_repeated_24(mat_row(b, 3), mat_row(b, 2), mat_row(b, 4), mat_row(b, 2));
    lemma_mul_by_zero(a.m42, det_rows(mat_row(b, 3), mat_row(b, 2), mat_row(b, 4), mat_row(b, 2)));
    lemma_det_rows_repeated_14(mat_row(b, 3), mat_row(b, 2), mat_row(b, 4), mat_row(b, 3));
    lemma_mul_by_zero(a.m43, det_rows(mat_row(b, 3), mat_row(b, 2), mat_row(b, 4), mat_row(b, 3)));
    lemma_det_rows_repeated_34(mat_row(b, 3), mat_row(b, 2), mat_row(b, 4), mat_row(b, 4));
    lemma_mul_by_zero(a.m44, det_rows(mat_row(b, 3), mat_row(b, 2), mat_row(b, 4), mat_row(b, 4)));
}

proof fn lemma_det_mul_331(a: Mat4, b: Mat4)
    ensures
        det_rows(mat_row(b, 3), mat_row(b, 3), mat_row(b, 1), comb(a.m41, a.m42, a.m43, a.m44, mat_row(b, 1), mat_row(b, 2), mat_row(b, 3), mat_row(b, 4))) == 0,
{
    lemma_det_rows_linear_4(a.m41, a.m42, a.m43, a.m44, mat_row(b, 1), mat_row(b, 2), mat_row(b, 3), mat_row(b, 4), mat_row(b, 3), mat_row(b, 3), mat_row(b, 1));
    lemma_det_rows_repeated_12(mat_row(b, 3), mat_row(b, 3), mat_row(b, 1), mat_row(b, 1));
    lemma_mul_by_zero(a.m41, det_rows(mat_row(b, 3), mat_row(b, 3), mat_row(b, 1), mat_row(b, 1)));
    lemma_det_rows_repeated_12(mat_row(b, 3), mat_row(b, 3), mat_row(b, 1), mat_row(b, 2));
    lemma_mul_by_zero(a.m42, det_rows(mat_row(b, 3), mat_row(b, 3), mat_row(b, 1), mat_row(b, 2)));
    lemma_det_rows_repeated_12(mat_row(b, 3), mat_row(b, 3), mat_row(b, 1), mat_row(b, 3));
    lemma_mul_by_zero(a.m43, det_rows(mat_row(b, 3), mat_row(b, 3), mat_row(b, 1), mat_row(b, 3)));
    lemma_det_rows_repeated_12(mat_row(b, 3), mat_row(b, 3), mat_row(b, 1), mat_row(b, 4));
    lemma_mul_by_zero(a.m44, det_rows(mat_row(b, 3), mat_row(b, 3), mat_row(b, 1), mat_row(b, 4)));
}

proof fn lemma_det_mul_332(a: Mat4, b: Mat4)
    ensures
        det_rows(mat_row(b, 3), mat_row(b, 3), mat_row(b, 2), comb(a.m41, a.m42, a.m43, a.m44, mat_row(b, 1), mat_row(b, 2), mat_row(b, 3), mat_row(b, 4))) == 0,
{
    lemma_det_rows_linear_4(a.m41, a.m42, a.m43, a.m44, mat_row(b, 1), mat_row(b, 2), mat_row(b, 3), mat_row(b, 4), mat_row(b, 3), mat_row(b, 3), mat_row(b, 2));
    lemma_det_rows_repeated_12(mat_row(b, 3), mat_row(b, 3), mat_row(b, 2), mat_row(b, 1));
    lemma_mul_by_zero(a.m41, det_rows(mat_row(b, 3), mat_row(b, 3), mat_row(b, 2), mat_row(b, 1)));
    lemma_det_rows_repeated_12(mat_row(b, 3), mat_row(b, 3), mat_row(b, 2), mat_row(b, 2));
    lemma_mul_by_zero(a.m42, det_rows(mat_row(b, 3), mat_row(b, 3), mat_row(b, 2), mat_row(b, 2)));
    lemma_det_rows_repeated_12(mat_row(b, 3), mat_row(b, 3), mat_row(b, 2), mat_row(b, 3));
    lemma_mul_by_zero(a.m43, det_rows(mat_row(b, 3), mat_row(b, 3), mat_row(b, 2), mat_row(b, 3)));
    lemma_det_rows_repeated_12(mat_row(b, 3), mat_row(b, 3), mat_row(b, 2), mat_row(b, 4));
    lemma_mul_by_zero(a.m44, det_rows(mat_row(b, 3), mat_row(b, 3), mat_row(b, 2), mat_row(b, 4)));
}

proof fn lemma_det_mul_333(a: Mat4, b: Mat4)
    ensures
        det_rows(mat_row(b, 3), mat_row(b, 3), mat_row(b, 3), comb(a.m41, a.m42, a.m43, a.m44, mat_row(b, 1), mat_row(b, 2), mat_row(b, 3), mat_row(b, 4))) == 0,
{
    lemma_det_rows_linear_4(a.m41, a.m42, a.m43, a.m44, mat_row(b, 1), mat_row(b, 2), mat_row(b, 3), mat_row(b, 4), mat_row(b, 3), mat_row(b, 3), mat_row(b, 3));
    lemma_det_rows_repeated_12(mat_row(b, 3), mat_row(b, 3), mat_row(b, 3), mat_row(b, 1));
    lemma_mul_by_zero(a.m41, det_rows(mat_row(b, 3), mat_row(b, 3), mat_row(b, 3), mat_row(b, 1)));
    lemma_det_rows_repeated_12(mat_row(b, 3), mat_row(b, 3), mat_row(b, 3), mat_row(b, 2));
    lemma_mul_by_zero(a.m42, det_rows(mat_row(b, 3), mat_row(b, 3), mat_row(b, 3), mat_row(b, 2)));
    lemma_det_rows_repeated_12(mat_row(b, 3), mat_row(b, 3), mat_row(b, 3), mat_row(b, 3));
    lemma_mul_by_zero(a.m43, det_rows(mat_row(b, 3), mat_row(b, 3), mat_row(b, 3), mat_row(b, 3)));
    lemma_det_rows_repeated_12(mat_row(b, 3), mat_row(b, 3), mat_row(b, 3), mat_row(b, 4));
    lemma_mul_by_zero(a.m44, det_rows(mat_row(b, 3), mat_row(b, 3), mat_row(b, 3), mat_row(b, 4)));
}

proof fn lemma_det_mul_334(a: Mat4, b: Mat4)
    ensures
        det_rows(mat_row(b, 3), mat_row(b, 3), mat_row(b, 4), comb(a.m41, a.m42, a.m43, a.m44, mat_row(b, 1), mat_row(b, 2), mat_row(b, 3), mat_row(b, 4))) == 0,
{
    lemma_det_rows_linear_4(a.m41, a.m42, a.m43, a.m44, mat_row(b, 1), mat_row(b, 2), mat_row(b, 3), mat_row(b, 4), mat_row(b, 3), mat_row(b, 3), mat_row(b, 4));
    lemma_det_rows_repeated_12(mat_row(b, 3), mat_row(b, 3), mat_row(b, 4), mat_row(b, 1));
    lemma_mul_by_zero(a.m41, det_rows(mat_row(b, 3), mat_row(b, 3), mat_row(b, 4), mat_row(b, 1)));
    lemma_det_rows_repeated_12(mat_row(b, 3), mat_row(b, 3), mat_row(b, 4), mat_row(b, 2));
    lemma_mul_by_zero(a.m42, det_rows(mat_row(b, 3), mat_row(b, 3), mat_row(b, 4), mat_row(b, 2)));
    lemma_det_rows_repeated_12(mat_row(b, 3), mat_row(b, 3), mat_row(b, 4), mat_row(b, 3));
    lemma_mul_by_zero(a.m43, det_rows(mat_row(b, 3), mat_row(b, 3), mat_row(b, 4), mat_row(b, 3)));
    lemma_det_rows_repeated_12(mat_row(b, 3), mat_row(b, 3), mat_row(b, 4), mat_row(b, 4));
    lemma_mul_by_zero(a.m44, det_rows(mat_row(b, 3), mat_row(b, 3), mat_row(b, 4), mat_row(b, 4)));
}

proof fn lemma_det_mul_341(a: Mat4, b: Mat4)
    ensures
        det_rows(mat_row(b, 3), mat_row(b, 4), mat_row(b, 1), comb(a.m41, a.m42, a.m43, a.m44, mat_row(b, 1), mat_row(b, 2), mat_row(b, 3), mat_row(b, 4))) == a.m42 * det_rows(mat_row(b, 1), mat_row(b, 2), mat_row(b, 3), mat_row(b, 4)),
{
    lemma_det_rows_linear_4(a.m41, a.m42, a.m43, a.m44, mat_row(b, 1), mat_row(b, 2), mat_row(b, 3), mat_row(b, 4), mat_row(b, 3), mat_row(b, 4), mat_row(b, 1));
    lemma_det_rows_repeated_34(mat_row(b, 3), mat_row(b, 4), mat_row(b, 1), mat_row(b, 1));
    lemma_mul_by_zero(a.m41, det_rows(mat_row(b, 3), mat_row(b, 4), mat_row(b, 1), mat_row(b, 1)));
    lemma_det_rows_swap_23(mat_row(b, 3), mat_row(b, 1), mat_row(b, 4), mat_row(b, 2));
    lemma_det_rows_swap_34(mat_row(b, 3), mat_row(b, 1), mat_row(b, 2), mat_row(b, 4));
    lemma_det_rows_swap_12(mat_row(b, 1), mat_row(b, 3), mat_row(b, 2), mat_row(b, 4));
    lemma_det_rows_swap_23(mat_row(b, 1), mat_row(b, 2), mat_row(b, 3), mat_row(b, 4));
    lemma_mul_by_equal(a.m42, det_rows(mat_row(b, 3), mat_row(b, 4), mat_row(b, 1), mat_row(b, 2)), det_rows(mat_row(b, 1), mat_row(b, 2), mat_row(b, 3), mat_row(b, 4)));
    lemma_det_rows_repeated_14(mat_row(b, 3), mat_row(b, 4), mat_row(b, 1), mat_row(b, 3));
    lemma_mul_by_zero(a.m43, det_rows(mat_row(b, 3), mat_row(b, 4), mat_row(b, 1), mat_row(b, 3)));
    lemma_det_rows_repeated_24(mat_row(b, 3), mat_row(b, 4), mat_row(b, 1), mat_row(b, 4));
    lemma_mul_by_zero(a.m44, det_rows(mat_row(b, 3), mat_row(b, 4), mat_row(b, 1), mat_row(b, 4)));
}

proof fn lemma_det_mul_342(a: Mat4, b: Mat4)
    ensures
        det_rows(mat_row(b, 3), mat_row(b, 4), mat_row(b, 2), comb(a.m41, a.m42, a.m43, a.m44, mat_row(b, 1), mat_row(b, 2), mat_row(b, 3), mat_row(b, 4))) == a.m41 * (-det_rows(mat_row(b, 1), mat_row(b, 2), mat_row(b, 3), mat_row(b, 4))),
{
    lemma_det_rows_linear_4(a.m41, a.m42, a.m43, a.m44, mat_row(b, 1), mat_row(b, 2), mat_row(b, 3), mat_row(b, 4), mat_row(b, 3), mat_row(b, 4), mat_row(b, 2));
    lemma_det_rows_swap_23(mat_row(b, 3), mat_row(b, 2), mat_row(b, 4), mat_row(b, 1));
    lemma_det_rows_swap_34(mat_row(b, 3), mat_row(b, 2), mat_row(b, 1), mat_row(b, 4));
    lemma_det_rows_swap_12(mat_row(b, 2), mat_row(b, 3), mat_row(b, 1), mat_row(b, 4));
    lemma_det_rows_swap_23(mat_row(b, 2), mat_row(b, 1), mat_row(b, 3), mat_row(b, 4));
    lemma_det_rows_swap_12(mat_row(b, 1), mat_row(b, 2), mat_row(b, 3), mat_row(b, 4));
    lemma_mul_by_equal(a.m41, det_rows(mat_row(b, 3), mat_row(b, 4), mat_row(b, 2), mat_row(b, 1)), (-det_rows(mat_row(b, 1), mat_row(b, 2), mat_row(b, 3), mat_row(b, 4))));
    lemma_det_rows_repeated_34(mat_row(b, 3), mat_row(b, 4), mat_row(b, 2), mat_row(b, 2));
    lemma_mul_by_zero(a.m42, det_rows(mat_row(b, 3), mat_row(b, 4), mat_row(b, 2), mat_row(b, 2)));
    lemma_det_rows_repeated_14(mat_row(b, 3), mat_row(b, 4), mat_row(b, 2), mat_row(b, 3));
    lemma_mul_by_zero(a.m43, det_rows(mat_row(b, 3), mat_row(b, 4), mat_row(b, 2), mat_row(b, 3)));
    lemma_det_rows_repeated_24(mat_row(b, 3), mat_row(b, 4), mat_row(b, 2), mat_row(b, 4));
    lemma_mul_by_zero(a.m44, det_rows(mat_row(b, 3), mat_row(b, 4), mat_row(b, 2), mat_row(b, 4)));
}

proof fn lemma_det_mul_343(a: Mat4, b: Mat4)
    ensures
        det_rows(mat_row(b, 3), mat_row(b, 4), mat_row(b, 3), comb(a.m41, a.m42, a.m43, a.m44, mat_row(b, 1), mat_row(b, 2), mat_row(b, 3), mat_row(b, 4))) == 0,
{
    lemma_det_rows_linear_4(a.m41, a.m42, a.m43, a.m44, mat_row(b, 1), mat_row(b, 2), mat_row(b, 3), mat_row(b, 4), mat_row(b, 3), mat_row(b, 4), mat_row(b, 3));
    lemma_det_rows_repeated_13(mat_row(b, 3), mat_row(b, 4), mat_row(b, 3), mat_row(b, 1));
    lemma_mul_by_zero(a.m41, det_rows(mat_row(b, 3), mat_row(b, 4), mat_row(b, 3), mat_row(b, 1)));
    lemma_det_rows_repeated_13(mat_row(b, 3), mat_row(b, 4), mat_row(b, 3), mat_row(b, 2));
    lemma_mul_by_zero(a.m42, det_rows(mat_row(b, 3), mat_row(b, 4), mat_row(b, 3), mat_row(b, 2)));
    lemma_det_rows_repeated_13(mat_row(b, 3), mat_row(b, 4), mat_row(b, 3), mat_row(b, 3));
    lemma_mul_by_zero(a.m43, det_rows(mat_row(b, 3), mat_row(b, 4), mat_row(b, 3), mat_row(b, 3)));
    lemma_det_rows_repeated_13(mat_row(b, 3), mat_row(b, 4), mat_row(b, 3), mat_row(b, 4));
    lemma_mul_by_zero(a.m44, det_rows(mat_row(b, 3), mat_row(b, 4), mat_row(b, 3), mat_row(b, 4)));
}

proof fn lemma_det_mul_344(a: Mat4, b: Mat4)
    ensures
        det_rows(mat_row(b, 3), mat_row(b, 4), mat_row(b, 4), comb(a.m41, a.m42, a.m43, a.m44, mat_row(b, 1), mat_row(b, 2), mat_row(b, 3), mat_row(b, 4))) == 0,
{
    lemma_det_rows_linear_4(a.m41, a.m42, a.m43, a.m44, mat_row(b, 1), mat_row(b, 2), mat_row(b, 3), mat_row(b, 4), mat_row(b, 3), mat_row(b, 4), mat_row(b, 4));
    lemma_det_rows_repeated_23(mat_row(b, 3), mat_row(b, 4), mat_row(b, 4), mat_row(b, 1));
    lemma_mul_by_zero(a.m41, det_rows(mat_row(b, 3), mat_row(b, 4), mat_row(b, 4), mat_row(b, 1)));
    lemma_det_rows_repeated_23(mat_row(b, 3), mat_row(b, 4), mat_row(b, 4), mat_row(b, 2));
    lemma_mul_by_zero(a.m42, det_rows(mat_row(b, 3), mat_row(b, 4), mat_row(b, 4), mat_row(b, 2)));
    lemma_det_rows_repeated_14(mat_row(b, 3), mat_row(b, 4), mat_row(b, 4), mat_row(b, 3));
    lemma_mul_by_zero(a.m43, det_rows(mat_row(b, 3), mat_row(b, 4), mat_row(b, 4), mat_row(b, 3)));
    lemma_det_rows_repeated_23(mat_row(b, 3), mat_row(b, 4), mat_row(b, 4), mat_row(b, 4));
    lemma_mul_by_zero(a.m44, det_rows(mat_row(b, 3), mat_row(b, 4), mat_row(b, 4), mat_row(b, 4)));
}

proof fn lemma_det_mul_411(a: Mat4, b: Mat4)
    ensures
        det_rows(mat_row(b, 4), mat_row(b, 1), mat_row(b, 1), comb(a.m41, a.m42, a.m43, a.m44, mat_row(b, 1), mat_row(b, 2), mat_row(b, 3), mat_row(b, 4))) == 0,
{
    lemma_det_rows_linear_4(a.m41, a.m42, a.m43, a.m44, mat_row(b, 1), mat_row(b, 2), mat_row(b, 3), mat_row(b, 4), mat_row(b, 4), mat_row(b, 1), mat_row(b, 1));
    lemma_det_rows_repeated_23(mat_row(b, 4), mat_row(b, 1), mat_row(b, 1), mat_row(b, 1));
    lemma_mul_by_zero(a.m41, det_rows(mat_row(b, 4), mat_row(b, 1), mat_row(b, 1), mat_row(b, 1)));
    lemma_det_rows_repeated_23(mat_row(b, 4), mat_row(b, 1), mat_row(b, 1), mat_row(b, 2));
    lemma_mul_by_zero(a.m42, det_rows(mat_row(b, 4), mat_row(b, 1), mat_row(b, 1), mat_row(b, 2)));
    lemma_det_rows_repeated_23(mat_row(b, 4), mat_row(b, 1), mat_row(b, 1), mat_row(b, 3));
    lemma_mul_by_zero(a.m43, det_rows(mat_row(b, 4), mat_row(b, 1), mat_row(b, 1), mat_row(b, 3)));
    lemma_det_rows_repeated_14(mat_row(b, 4), mat_row(b, 1), mat_row(b, 1), mat_row(b, 4));
    lemma_mul_by_zero(a.m44, det_rows(mat_row(b, 4), mat_row(b, 1), mat_row(b, 1), mat_row(b, 4)));
}

proof fn lemma_det_mul_412(a: Mat4, b: Mat4)
    ensures
        det_rows(mat_row(b, 4), mat_row(b, 1), mat_row(b, 2), comb(a.m41, a.m42, a.m43, a.m44, mat_row(b, 1), mat_row(b, 2), mat_row(b, 3), mat_row(b, 4))) == a.m43 * (-det_rows(mat_row(b, 1), mat_row(b, 2), mat_row(b, 3), mat_row(b, 4))),
{
    lemma_det_rows_linear_4(a.m41, a.m42, a.m43, a.m44, mat_row(b, 1), mat_row(b, 2), mat_row(b, 3), mat_row(b, 4), mat_row(b, 4), mat_row(b, 1), mat_row(b, 2));
    lemma_det_rows_repeated_24(mat_row(b, 4), mat_row(b, 1), mat_row(b, 2), mat_row(b, 1));
    lemma_mul_by_zero(a.m41, det_rows(mat_row(b, 4), mat_row(b, 1), mat_row(b, 2), mat_row(b, 1)));
    lemma_det_rows_repeated_34(mat_row(b, 4), mat_row(b, 1), mat_row(b, 2), mat_row(b, 2));
    lemma_mul_by_zero(a.m42, det_rows(mat_row(b, 4), mat_row(b, 1), mat_row(b, 2), mat_row(b, 2)));
    lemma_det_rows_swap_12(mat_row(b, 1), mat_row(b, 4), mat_row(b, 2), mat_row(b, 3));
    lemma_det_rows_swap_23(mat_row(b, 1), mat_row(b, 2), mat_row(b, 4), mat_row(b, 3));
    lemma_det_rows_swap_34(mat_row(b, 1), mat_row(b, 2), mat_row(b, 3), mat_row(b, 4));
    lemma_mul_by_equal(a.m43, det_rows(mat_row(b, 4), mat_row(b, 1), mat_row(b, 2), mat_row(b, 3)), (-det_rows(mat_row(b, 1), mat_row(b, 2), mat_row(b, 3), mat_row(b, 4))));
    lemma_det_rows_repeated_14(mat_row(b, 4), mat_row(b, 1), mat_row(b, 2), mat_row(b, 4));
    lemma_mul_by_zero(a.m44, det_rows(mat_row(b, 4), mat_row(b, 1), mat_row(b, 2), mat_row(b, 4)));
}

proof fn lemma_det_mul_413(a: Mat4, b: Mat4)
    ensures
        det_rows(mat_row(b, 4), mat_row(b, 1), mat_row(b, 3), comb(a.m41, a.m42, a.m43, a.m44, mat_row(b, 1), mat_row(b, 2), mat_row(b, 3), mat_row(b, 4))) == a.m42 * det_rows(mat_row(b, 1), mat_row(b, 2), mat_row(b, 3), mat_row(b, 4)),
{
    lemma_det_rows_linear_4(a.m41, a.m42, a.m43, a.m44, mat_row(b, 1), mat_row(b, 2), mat_row(b, 3), mat_row(b, 4), mat_row(b, 4), mat_row(b, 1), mat_row(b, 3));
    lemma_det_rows_repeated_24(mat_row(b, 4), mat_row(b, 1), mat_row(b, 3), mat_row(b, 1));
    lemma_mul_by_zero(a.m41, det_rows(mat_row(b, 4), mat_row(b, 1), mat_row(b, 3), mat_row(b, 1)));
    lemma_det_rows_swap_12(mat_row(b, 1), mat_row(b, 4), mat_row(b, 3), mat_row(b, 2));
    lemma_det_rows_swap_23(mat_row(b, 1), mat_row(b, 3), mat_row(b, 4), mat_row(b, 2));
    lemma_det_rows_swap_34(mat_row(b, 1), mat_row(b, 3), mat_row(b, 2), mat_row(b, 4));
    lemma_det_rows_swap_23(mat_row(b, 1), mat_row(b, 2), mat_row(b, 3), mat_row(b, 4));
    lemma_mul_by_equal(a.m42, det_rows(mat_row(b, 4), mat_row(b, 1), mat_row(b, 3), mat_row(b, 2)), det_rows(mat_row(b, 1), mat_row(b, 2), mat_row(b, 3), mat_row(b, 4)));
    lemma_det_rows_repeated_34(mat_row(b, 4), mat_row(b, 1), mat_row(b, 3), mat_row(b, 3));
    lemma_mul_by_zero(a.m43, det_rows(mat_row(b, 4), mat_row(b, 1), mat_row(b, 3), mat_row(b, 3)));
    lemma_det_rows_repeated_14(mat_row(b, 4), mat_row(b, 1), mat_row(b, 3), mat_row(b, 4));
    lemma_mul_by_zero(a.m44, det_rows(mat_row(b, 4), mat_row(b, 1), mat_row(b, 3), mat_row(b, 4)));
}

proof fn lemma_det_mul_414(a: Mat4, b: Mat4)
    ensures
        det_rows(mat_row(b, 4), mat_row(b, 1), mat_row(b, 4), comb(a.m41, a.m42, a.m43, a.m44, mat_row(b, 1), mat_row(b, 2), mat_row(b, 3), mat_row(b, 4))) == 0,
{
    lemma_det_rows_linear_4(a.m41, a.m42, a.m43, a.m44, mat_row(b, 1), mat_row(b, 2), mat_row(b, 3), mat_row(b, 4), mat_row(b, 4), mat_row(b, 1), mat_row(b, 4));
    lemma_det_rows_repeated_13(mat_row(b, 4), mat_row(b, 1), mat_row(b, 4), mat_row(b, 1));
    lemma_mul_by_zero(a.m41, det_rows(mat_row(b, 4), mat_row(b, 1), mat_row(b, 4), mat_row(b, 1)));
    lemma_det_rows_repeated_13(mat_row(b, 4), mat_row(b, 1), mat_row(b, 4), mat_row(b, 2));
    lemma_mul_by_zero(a.m42, det_rows(mat_row(b, 4), mat_row(b, 1), mat_row(b, 4), mat_row(b, 2)));
    lemma_det_rows_repeated_13(mat_row(b, 4), mat_row(b, 1), mat_row(b, 4), mat_row(b, 3));
    lemma_mul_by_zero(a.m43, det_rows(mat_row(b, 4), mat_row(b, 1), mat_row(b, 4), mat_row(b, 3)));
    lemma_det_rows_repeated_13(mat_row(b, 4), mat_row(b, 1), mat_row(b, 4), mat_row(b, 4));
    lemma_mul_by_zero(a.m44, det_rows(mat_row(b, 4), mat_row(b, 1), mat_row(b, 4), mat_row(b, 4)));
}

proof fn lemma_det_mul_421(a: Mat4, b: Mat4)
    ensures
        det_rows(mat_row(b, 4), mat_row(b, 2), mat_row(b, 1), comb(a.m41, a.m42, a.m43, a.m44, mat_row(b, 1), mat_row(b, 2), mat_row(b, 3), mat_row(b, 4))) == a.m43 * det_rows(mat_row(b, 1), mat_row(b, 2), mat_row(b, 3), mat_row(b, 4)),
{
    lemma_det_rows_linear_4(a.m41, a.m42, a.m43, a.m44, mat_row(b, 1), mat_row(b, 2), mat_row(b, 3), mat_row(b, 4), mat_row(b, 4), mat_row(b, 2), mat_row(b, 1));
    lemma_det_rows_repeated_34(mat_row(b, 4), mat_row(b, 2), mat_row(b, 1), mat_row(b, 1));
    lemma_mul_by_zero(a.m41, det_rows(mat_row(b, 4), mat_row(b, 2), mat_row(b, 1), mat_row(b, 1)));
    lemma_det_rows_repeated_24(mat_row(b, 4), mat_row(b, 2), mat_row(b, 1), mat_row(b, 2));
    lemma_mul_by_zero(a.m42, det_rows(mat_row(b, 4), mat_row(b, 2), mat_row(b, 1), mat_row(b, 2)));
    lemma_det_rows_swap_12(mat_row(b, 2), mat_row(b, 4), mat_row(b, 1), mat_row(b, 3));
    lemma_det_rows_swap_23(mat_row(b, 2), mat_row(b, 1), mat_row(b, 4), mat_row(b, 3));
    lemma_det_rows_swap_34(mat_row(b, 2), mat_row(b, 1), mat_row(b, 3), mat_row(b, 4));
    lemma_det_rows_swap_12(mat_row(b, 1), mat_row(b, 2), mat_row(b, 3), mat_row(b, 4));
    lemma_mul_by_equal(a.m43, det_rows(mat_row(b, 4), mat_row(b, 2), mat_row(b, 1), mat_row(b, 3)), det_rows(mat_row(b, 1), mat_row(b, 2), mat_row(b, 3), mat_row(b, 4)));
    lemma_det_rows_repeated_14(mat_row(b, 4), mat_row(b, 2), mat_row(b, 1), mat_row(b, 4));
    lemma_mul_by_zero(a.m44, det_rows(mat_row(b, 4), mat_row(b, 2), mat_row(b, 1), mat_row(b, 4)));
}

proof fn lemma_det_mul_422(a: Mat4, b: Mat4)
    ensures
        det_rows(mat_row(b, 4), mat_row(b, 2), mat_row(b, 2), comb(a.m41, a.m42, a.m43, a.m44, mat_row(b, 1), mat_row(b, 2), mat_row(b, 3), mat_row(b, 4))) == 0,
{
    lemma_det_rows_linear_4(a.m41, a.m42, a.m43, a.m44, mat_row(b, 1), mat_row(b, 2), mat_row(b, 3), mat_row(b, 4), mat_row(b, 4), mat_row(b, 2), mat_row(b, 2));
    lemma_det_rows_repeated_23(mat_row(b, 4), mat_row(b, 2), mat_row(b, 2), mat_row(b, 1));
    lemma_mul_by_zero(a.m41, det_rows(mat_row(b, 4), mat_row(b, 2), mat_row(b, 2), mat_row(b, 1)));
    lemma_det_rows_repeated_23(mat_row(b, 4), mat_row(b, 2), mat_row(b, 2), mat_row(b, 2));
    lemma_mul_by_zero(a.m42, det_rows(mat_row(b, 4), mat_row(b, 2), mat_row(b, 2), mat_row(b, 2)));
    lemma_det_rows_repeated_23(mat_row(b, 4), mat_row(b, 2), mat_row(b, 2), mat_row(b, 3));
    lemma_mul_by_zero(a.m43, det_rows(mat_row(b, 4), mat_row(b, 2), mat_row(b, 2), mat_row(b, 3)));
    lemma_det_rows_repeated_14(mat_row(b, 4), mat_row(b, 2), mat_row(b, 2), mat_row(b, 4));
    lemma_mul_by_zero(a.m44, det_rows(mat_row(b, 4), mat_row(b, 2), mat_row(b, 2), mat_row(b, 4)));
}

proof fn lemma_det_mul_423(a: Mat4, b: Mat4)
    ensures
        det_rows(mat_row(b, 4), mat_row(b, 2), mat_row(b, 3), comb(a.m41, a.m42, a.m43, a.m44, mat_row(b, 1), mat_row(b, 2), mat_row(b, 3), mat_row(b, 4))) == a.m41 * (-det_rows(mat_row(b, 1), mat_row(b, 2), mat_row(b, 3), mat_row(b, 4))),
{
    lemma_det_rows_linear_4(a.m41, a.m42, a.m43, a.m44, mat_row(b, 1), mat_row(b, 2), mat_row(b, 3), mat_row(b, 4), mat_row(b, 4), mat_row(b, 2), mat_row(b, 3));
    lemma_det_rows_swap_12(mat_row(b, 2), mat_row(b, 4), mat_row(b, 3), mat_row(b, 1));
    lemma_det_rows_swap_23(mat_row(b, 2), mat_row(b, 3), mat_row(b, 4), mat_row(b, 1));
    lemma_det_rows_swap_34(mat_row(b, 2), mat_row(b, 3), mat_row(b, 1), mat_row(b, 4));
    lemma_det_rows_swap_23(mat_row(b, 2), mat_row(b, 1), mat_row(b, 3), mat_row(b, 4));
    lemma_det_rows_swap_12(mat_row(b, 1), mat_row(b, 2), mat_row(b, 3), mat_row(b, 4));
    lemma_mul_by_equal(a.m41, det_rows(mat_row(b, 4), mat_row(b, 2), mat_row(b, 3), mat_row(b, 1)), (-det_rows(mat_row(b, 1), mat_row(b, 2), mat_row(b, 3), mat_row(b, 4))));
    lemma_det_rows_repeated_24(mat_row(b, 4), mat_row(b, 2), mat_row(b, 3), mat_row(b, 2));
    lemma_mul_by_zero(a.m42, det_rows(mat_row(b, 4), mat_row(b, 2), mat_row(b, 3), mat_row(b, 2)));
    lemma_det_rows_repeated_34(mat_row(b, 4), mat_row(b, 2), mat_row(b, 3), mat_row(b, 3));
    lemma_mul_by_zero(a.m43, det_rows(mat_row(b, 4), mat_row(b, 2), mat_row(b, 3), mat_row(b, 3)));
    lemma_det_rows_repeated_14(mat_row(b, 4), mat_row(b, 2), mat_row(b, 3), mat_row(b, 4));
    lemma_mul_by_zero(a.m44, det_rows(mat_row(b, 4), mat_row(b, 2), mat_row(b, 3), mat_row(b, 4)));
}

proof fn lemma_det_mul_424(a: Mat4, b: Mat4)
    ensures
        det_rows(mat_row(b, 4), mat_row(b, 2), mat_row(b, 4), comb(a.m41, a.m42, a.m43, a.m44, mat_row(b, 1), mat_row(b, 2), mat_row(b, 3), mat_row(b, 4))) == 0,
{
    lemma_det_rows_linear_4(a.m41, a.m42, a.m43, a.m44, mat_row(b, 1), mat_row(b, 2), mat_row(b, 3), mat_row(b, 4), mat_row(b, 4), mat_row(b, 2), mat_row(b, 4));
    lemma_det_rows_repeated_13(mat_row(b, 4), mat_row(b, 2), mat_row(b, 4), mat_row(b, 1));
    lemma_mul_by_zero(a.m41, det_rows(mat_row(b, 4), mat_row(b, 2), mat_row(b, 4), mat_row(b, 1)));
    lemma_det_rows_repeated_13(mat_row(b, 4), mat_row(b, 2), mat_row(b, 4), mat_row(b, 2));
    lemma_mul_by_zero(a.m42, det_rows(mat_row(b, 4), mat_row(b, 2), mat_row(b, 4), mat_row(b, 2)));
    lemma_det_rows_repeated_13(mat_row(b, 4), mat_row(b, 2), mat_row(b, 4), mat_row(b, 3));
    lemma_mul_by_zero(a.m43, det_rows(mat_row(b, 4), mat_row(b, 2), mat_row(b, 4), mat_row(b, 3)));
    lemma_det_rows_repeated_13(mat_row(b, 4), mat_row(b, 2), mat_row(b, 4), mat_row(b, 4));
    lemma_mul_by_zero(a.m44, det_rows(mat_row(b, 4), mat_row(b, 2), mat_row(b, 4), mat_row(b, 4)));
}

proof fn lemma_det_mul_431(a: Mat4, b: Mat4)
    ensures
        det_rows(mat_row(b, 4), mat_row(b, 3), mat_row(b, 1), comb(a.m41, a.m42, a.m43, a.m44, mat_row(b, 1), mat_row(b, 2), mat_row(b, 3), mat_row(b, 4))) == a.m42 * (-det_rows(mat_row(b, 1), mat_row(b, 2), mat_row(b, 3), mat_row(b, 4))),
{
    lemma_det_rows_linear_4(a.m41, a.m42, a.m43, a.m44, mat_row(b, 1), mat_row(b, 2), mat_row(b, 3), mat_row(b, 4), mat_row(b, 4), mat_row(b, 3), mat_row(b, 1));
    lemma_det_rows_repeated_34(mat_row(b, 4), mat_row(b, 3), mat_row(b, 1), mat_row(b, 1));
    lemma_mul_by_zero(a.m41, det_rows(mat_row(b, 4), mat_row(b, 3), mat_row(b, 1), mat_row(b, 1)));
    lemma_det_rows_swap_12(mat_row(b, 3), mat_row(b, 4), mat_row(b, 1), mat_row(b, 2));
    lemma_det_rows_swap_23(mat_row(b, 3), mat_row(b, 1), mat_row(b, 4), mat_row(b, 2));
    lemma_det_rows_swap_34(mat_row(b, 3), mat_row(b, 1), mat_row(b, 2), mat_row(b, 4));
    lemma_det_rows_swap_12(mat_row(b, 1), mat_row(b, 3), mat_row(b, 2), mat_row(b, 4));
    lemma_det_rows_swap_23(mat_row(b, 1), mat_row(b, 2), mat_row(b, 3), mat_row(b, 4));
    lemma_mul_by_equal(a.m42, det_rows(mat_row(b, 4), mat_row(b, 3), mat_row(b, 1), mat_row(b, 2)), (-det_rows(mat_row(b, 1), mat_row(b, 2), mat_row(b, 3), mat_row(b, 4))));
    lemma_det_rows_repeated_24(mat_row(b, 4), mat_row(b, 3), mat_row(b, 1), mat_row(b, 3));
    lemma_mul_by_zero(a.m43, det_rows(mat_row(b, 4), mat_row(b, 3), mat_row(b, 1), mat_row(b, 3)));
    lemma_det_rows_repeated_14(mat_row(b, 4), mat_row(b, 3), mat_row(b, 1), mat_row(b, 4));
    lemma_mul_by_zero(a.m44, det_rows(mat_row(b, 4), mat_row(b, 3), mat_row(b, 1), mat_row(b, 4)));
}

proof fn lemma_det_mul_432(a: Mat4, b: Mat4)
    ensures
        det_rows(mat_row(b, 4), mat_row(b, 3), mat_row(b, 2), comb(a.m41, a.m42, a.m43, a.m44, mat_row(b, 1), mat_row(b, 2), mat_row(b, 3), mat_row(b, 4))) == a.m41 * det_rows(mat_row(b, 1), mat_row(b, 2), mat_row(b, 3), mat_row(b, 4)),
{
    lemma_det_rows_linear_4(a.m41, a.m42, a.m43, a.m44, mat_row(b, 1), mat_row(b, 2), mat_row(b, 3), mat_row(b, 4), mat_row(b, 4), mat_row(b, 3), mat_row(b, 2));
    lemma_det_rows_swap_12(mat_row(b, 3), mat_row(b, 4), mat_row(b, 2), mat_row(b, 1));
    lemma_det_rows_swap_23(mat_row(b, 3), mat_row(b, 2), mat_row(b, 4), mat_row(b, 1));
    lemma_det_rows_swap_34(mat_row(b, 3), mat_row(b, 2), mat_row(b, 1), mat_row(b, 4));
    lemma_det_rows_swap_12(mat_row(b, 2), mat_row(b, 3), mat_row(b, 1), mat_row(b, 4));
    lemma_det_rows_swap_23(mat_row(b, 2), mat_row(b, 1), mat_row(b, 3), mat_row(b, 4));
    lemma_det_rows_swap_12(mat_row(b, 1), mat_row(b, 2), mat_row(b, 3), mat_row(b, 4));
    lemma_mul_by_equal(a.m41, det_rows(mat_row(b, 4), mat_row(b, 3), mat_row(b, 2), mat_row(b, 1)), det_rows(mat_row(b, 1), mat_row(b, 2), mat_row(b, 3), mat_row(b, 4)));
    lemma_det_rows_repeated_34(mat_row(b, 4), mat_row(b, 3), mat_row(b, 2), mat_row(b, 2));
    lemma_mul_by_zero(a.m42, det_rows(mat_row(b, 4), mat_row(b, 3), mat_row(b, 2), mat_row(b, 2)));
    lemma_det_rows_repeated_24(mat_row(b, 4), mat_row(b, 3), mat_row(b, 2), mat_row(b, 3));
    lemma_mul_by_zero(a.m43, det_rows(mat_row(b, 4), mat_row(b, 3), mat_row(b, 2), mat_row(b, 3)));
    lemma_det_rows_repeated_14(mat_row(b, 4), mat_row(b, 3), mat_row(b, 2), mat_row(b, 4));
    lemma_mul_by_zero(a.m44, det_rows(mat_row(b, 4), mat_row(b, 3), mat_row(b, 2), mat_row(b, 4)));
}

proof fn lemma_det_mul_433(a: Mat4, b: Mat4)
    ensures
        det_rows(mat_row(b, 4), mat_row(b, 3), mat_row(b, 3), comb(a.m41, a.m42, a.m43, a.m44, mat_row(b, 1), mat_row(b, 2), mat_row(b, 3), mat_row(b, 4))) == 0,
{
    lemma_det_rows_linear_4(a.m41, a.m42, a.m43, a.m44, mat_row(b, 1), mat_row(b, 2), mat_row(b, 3), mat_row(b, 4), mat_row(b, 4), mat_row(b, 3), mat_row(b, 3));
    lemma_det_rows_repeated_23(mat_row(b, 4), mat_row(b, 3), mat_row(b, 3), mat_row(b, 1));
    lemma_mul_by_zero(a.m41, det_rows(mat_row(b, 4), mat_row(b, 3), mat_row(b, 3), mat_row(b, 1)));
    lemma_det_rows_repeated_23(mat_row(b, 4), mat_row(b, 3), mat_row(b, 3), mat_row(b, 2));
    lemma_mul_by_zero(a.m42, det_rows(mat_row(b, 4), mat_row(b, 3), mat_row(b, 3), mat_row(b, 2)));
    lemma_det_rows_repeated_23(mat_row(b, 4), mat_row(b, 3), mat_row(b, 3), mat_row(b, 3));
    lemma_mul_by_zero(a.m43, det_rows(mat_row(b, 4), mat_row(b, 3), mat_row(b, 3), mat_row(b, 3)));
    lemma_det_rows_repeated_14(mat_row(b, 4), mat_row(b, 3), mat_row(b, 3), mat_row(b, 4));
    lemma_mul_by_zero(a.m44, det_rows(mat_row(b, 4), mat_row(b, 3), mat_row(b, 3), mat_row(b, 4)));
}

proof fn lemma_det_mul_434(a: Mat4, b: Mat4)
    ensures
        det_rows(mat_row(b, 4), mat_row(b, 3), mat_row(b, 4), comb(a.m41, a.m42, a.m43, a.m44, mat_row(b, 1), mat_row(b, 2), mat_row(b, 3), mat_row(b, 4))) == 0,
{
    lemma_det_rows_linear_4(a.m41, a.m42, a.m43, a.m44, mat_row(b, 1), mat_row(b, 2), mat_row(b, 3), mat_row(b, 4), mat_row(b, 4), mat_row(b, 3), mat_row(b, 4));
    lemma_det_rows_repeated_13(mat_row(b, 4), mat_row(b, 3), mat_row(b, 4), mat_row(b, 1));
    lemma_mul_by_zero(a.m41, det_rows(mat_row(b, 4), mat_row(b, 3), mat_row(b, 4), mat_row(b, 1)));
    lemma_det_rows_repeated_13(mat_row(b, 4), mat_row(b, 3), mat_row(b, 4), mat_row(b, 2));
    lemma_mul_by_zero(a.m42, det_rows(mat_row(b, 4), mat_row(b, 3), mat_row(b, 4), mat_row(b, 2)));
    lemma_det_rows_repeated_13(mat_row(b, 4), mat_row(b, 3), mat_row(b, 4), mat_row(b, 3));
    lemma_mul_by_zero(a.m43, det_rows(mat_row(b, 4), mat_row(b, 3), mat_row(b, 4), mat_row(b, 3)));
    lemma_det_rows_repeated_13(mat_row(b, 4), mat_row(b, 3), mat_row(b, 4), mat_row(b, 4));
    lemma_mul_by_zero(a.m44, det_rows(mat_row(b, 4), mat_row(b, 3), mat_row(b, 4), mat_row(b, 4)));
}

proof fn lemma_det_mul_441(a: Mat4, b: Mat4)
    ensures
        det_rows(mat_row(b, 4), mat_row(b, 4), mat_row(b, 1), comb(a.m41, a.m42, a.m43, a.m44, mat_row(b, 1), mat_row(b, 2), mat_row(b, 3), mat_row(b, 4))) == 0,
{
    lemma_det_rows_linear_4(a.m41, a.m42, a.m43, a.m44, mat_row(b, 1), mat_row(b, 2), mat_row(b, 3), mat_row(b, 4), mat_row(b, 4), mat_row(b, 4), mat_row(b, 1));
    lemma_det_rows_repeated_12(mat_row(b, 4), mat_row(b, 4), mat_row(b, 1), mat_row(b, 1));
    lemma_mul_by_zero(a.m41, det_rows(mat_row(b, 4), mat_row(b, 4), mat_row(b, 1), mat_row(b, 1)));
    lemma_det_rows_repeated_12(mat_row(b, 4), mat_row(b, 4), mat_row(b, 1), mat_row(b, 2));
    lemma_mul_by_zero(a.m42, det_rows(mat_row(b, 4), mat_row(b, 4), mat_row(b, 1), mat_row(b, 2)));
    lemma_det_rows_repeated_12(mat_row(b, 4), mat_row(b, 4), mat_row(b, 1), mat_row(b, 3));
    lemma_mul_by_zero(a.m43, det_rows(mat_row(b, 4), mat_row(b, 4), mat_row(b, 1), mat_row(b, 3)));
    lemma_det_rows_repeated_12(mat_row(b, 4), mat_row(b, 4), mat_row(b, 1), mat_row(b, 4));
    lemma_mul_by_zero(a.m44, det_rows(mat_row(b, 4), mat_row(b, 4), mat_row(b, 1), mat_row(b, 4)));
}

proof fn lemma_det_mul_442(a: Mat4, b: Mat4)
    ensures
        det_rows(mat_row(b, 4), mat_row(b, 4), mat_row(b, 2), comb(a.m41, a.m42, a.m43, a.m44, mat_row(b, 1), mat_row(b, 2), mat_row(b, 3), mat_row(b, 4))) == 0,
{
    lemma_det_rows_linear_4(a.m41, a.m42, a.m43, a.m44, mat_row(b, 1), mat_row(b, 2), mat_row(b, 3), mat_row(b, 4), mat_row(b, 4), mat_row(b, 4), mat_row(b, 2));
    lemma_det_rows_repeated_12(mat_row(b, 4), mat_row(b, 4), mat_row(b, 2), mat_row(b, 1));
    lemma_mul_by_zero(a.m41, det_rows(mat_row(b, 4), mat_row(b, 4), mat_row(b, 2), mat_row(b, 1)));
    lemma_det_rows_repeated_12(mat_row(b, 4), mat_row(b, 4), mat_row(b, 2), mat_row(b, 2));
    lemma_mul_by_zero(a.m42, det_rows(mat_row(b, 4), mat_row(b, 4), mat_row(b, 2), mat_row(b, 2)));
    lemma_det_rows_repeated_12(mat_row(b, 4), mat_row(b, 4), mat_row(b, 2), mat_row(b, 3));
    lemma_mul_by_zero(a.m43, det_rows(mat_row(b, 4), mat_row(b, 4), mat_row(b, 2), mat_row(b, 3)));
    lemma_det_rows_repeated_12(mat_row(b, 4), mat_row(b, 4), mat_row(b, 2), mat_row(b, 4));
    lemma_mul_by_zero(a.m44, det_rows(mat_row(b, 4), mat_row(b, 4), mat_row(b, 2), mat_row(b, 4)));
}

proof fn lemma_det_mul_443(a: Mat4, b: Mat4)
    ensures
        det_rows(mat_row(b, 4), mat_row(b, 4), mat_row(b, 3), comb(a.m41, a.m42, a.m43, a.m44, mat_row(b, 1), mat_row(b, 2), mat_row(b, 3), mat_row(b, 4))) == 0,
{
    lemma_det_rows_linear_4(a.m41, a.m42, a.m43, a.m44, mat_row(b, 1), mat_row(b, 2), mat_row(b, 3), mat_row(b, 4), mat_row(b, 4), mat_row(b, 4), mat_row(b, 3));
    lemma_det_rows_repeated_12(mat_row(b, 4), mat_row(b, 4), mat_row(b, 3), mat_row(b, 1));
    lemma_mul_by_zero(a.m41, det_rows(mat_row(b, 4), mat_row(b, 4), mat_row(b, 3), mat_row(b, 1)));
    lemma_det_rows_repeated_12(mat_row(b, 4), mat_row(b, 4), mat_row(b, 3), mat_row(b, 2));
    lemma_mul_by_zero(a.m42, det_rows(mat_row(b, 4), mat_row(b, 4), mat_row(b, 3), mat_row(b, 2)));
    lemma_det_rows_repeated_12(mat_row(b, 4), mat_row(b, 4), mat_row(b, 3), mat_row(b, 3));
    lemma_mul_by_zero(a.m43, det_rows(mat_row(b, 4), mat_row(b, 4), mat_row(b, 3), mat_row(b, 3)));
    lemma_det_rows_repeated_12(mat_row(b, 4), mat_row(b, 4), mat_row(b, 3), mat_row(b, 4));
    lemma_mul_by_zero(a.m44, det_rows(mat_row(b, 4), mat_row(b, 4), mat_row(b, 3), mat_row(b, 4)));
}

proof fn lemma_det_mul_444(a: Mat4, b: Mat4)
    ensures
        det_rows(mat_row(b, 4), mat_row(b, 4), mat_row(b, 4), comb(a.m41, a.m42, a.m43, a.m44, mat_row(b, 1), mat_row(b, 2), mat_row(b, 3), mat_row(b, 4))) == 0,
{
    lemma_det_rows_linear_4(a.m41, a.m42, a.m43, a.m44, mat_row(b, 1), mat_row(b, 2), mat_row(b, 3), mat_row(b, 4), mat_row(b, 4), mat_row(b, 4), mat_row(b, 4));
    lemma_det_rows_repeated_12(mat_row(b, 4), mat_row(b, 4), mat_row(b, 4), mat_row(b, 1));
    lemma_mul_by_zero(a.m41, det_rows(mat_row(b, 4), mat_row(b, 4), mat_row(b, 4), mat_row(b, 1)));
    lemma_det_rows_repeated_12(mat_row(b, 4), mat_row(b, 4), mat_row(b, 4), mat_row(b, 2));
    lemma_mul_by_zero(a.m42, det_rows(mat_row(b, 4), mat_row(b, 4), mat_row(b, 4), mat_row(b, 2)));
    lemma_det_rows_repeated_12(mat_row(b, 4), mat_row(b, 4), mat_row(b, 4), mat_row(b, 3));
    lemma_mul_by_zero(a.m43, det_rows(mat_row(b, 4), mat_row(b, 4), mat_row(b, 4), mat_row(b, 3)));
    lemma_det_rows_repeated_12(mat_row(b, 4), mat_row(b, 4), mat_row(b, 4), mat_row(b, 4));
    lemma_mul_by_zero(a.m44, det_rows(mat_row(b, 4), mat_row(b, 4), mat_row(b, 4), mat_row(b, 4)));
}

proof fn lemma_det_mul_11(a: Mat4, b: Mat4)
    ensures
        det_rows(mat_row(b, 1), mat_row(b, 1), comb(a.m31, a.m32, a.m33, a.m34, mat_row(b, 1), mat_row(b, 2), mat_row(b, 3), mat_row(b, 4)), comb(a.m41, a.m42, a.m43, a.m44, mat_row(b, 1), mat_row(b, 2), mat_row(b, 3), mat_row(b, 4))) == 0,
{
    lemma_det_rows_linear_3(a.m31, a.m32, a.m33, a.m34, mat_row(b, 1), mat_row(b, 2), mat_row(b, 3), mat_row(b, 4), mat_row(b, 1), mat_row(b, 1), comb(a.m41, a.m42, a.m43, a.m44, mat_row(b, 1), mat_row(b, 2), mat_row(b, 3), mat_row(b, 4)));
    lemma_det_mul_111(a, b);
    lemma_mul_by_zero(a.m31, det_rows(mat_row(b, 1), mat_row(b, 1), mat_row(b, 1), comb(a.m41, a.m42, a.m43, a.m44, mat_row(b, 1), mat_row(b, 2), mat_row(b, 3), mat_row(b, 4))));
    lemma_det_mul_112(a, b);
    lemma_mul_by_zero(a.m32, det_rows(mat_row(b, 1), mat_row(b, 1), mat_row(b, 2), comb(a.m41, a.m42, a.m43, a.m44, mat_row(b, 1), mat_row(b, 2), mat_row(b, 3), mat_row(b, 4))));
    lemma_det_mul_113(a, b);
    lemma_mul_by_zero(a.m33, det_rows(mat_row(b, 1), mat_row(b, 1), mat_row(b, 3), comb(a.m41, a.m42, a.m43, a.m44, mat_row(b, 1), mat_row(b, 2), mat_row(b, 3), mat_row(b, 4))));
    lemma_det_mul_114(a, b);
    lemma_mul_by_zero(a.m34, det_rows(mat_row(b, 1), mat_row(b, 1), mat_row(b, 4), comb(a.m41, a.m42, a.m43, a.m44, mat_row(b, 1), mat_row(b, 2), mat_row(b, 3), mat_row(b, 4))));
}

proof fn lemma_det_mul_12(a: Mat4, b: Mat4)
    ensures
        det_rows(mat_row(b, 1), mat_row(b, 2), comb(a.m31, a.m32, a.m33, a.m34, mat_row(b, 1), mat_row(b, 2), mat_row(b, 3), mat_row(b, 4)), comb(a.m41, a.m42, a.m43, a.m44, mat_row(b, 1), mat_row(b, 2), mat_row(b, 3), mat_row(b, 4))) == a.m33 * (a.m44 * det_rows(mat_row(b, 1), mat_row(b, 2), mat_row(b, 3), mat_row(b, 4))) + a.m34 * (a.m43 * (-det_rows(mat_row(b, 1), mat_row(b, 2), mat_row(b, 3), mat_row(b, 4)))),
{
    lemma_det_rows_linear_3(a.m31, a.m32, a.m33, a.m34, mat_row(b, 1), mat_row(b, 2), mat_row(b, 3), mat_row(b, 4), mat_row(b, 1), mat_row(b, 2), comb(a.m41, a.m42, a.m43, a.m44, mat_row(b, 1), mat_row(b, 2), mat_row(b, 3), mat_row(b, 4)));
    lemma_det_mul_121(a, b);
    lemma_mul_by_zero(a.m31, det_rows(mat_row(b, 1), mat_row(b, 2), mat_row(b, 1), comb(a.m41, a.m42, a.m43, a.m44, mat_row(b, 1), mat_row(b, 2), mat_row(b, 3), mat_row(b, 4))));
    lemma_det_mul_122(a, b);
    lemma_mul_by_zero(a.m32, det_rows(mat_row(b, 1), mat_row(b, 2), mat_row(b, 2), comb(a.m41, a.m42, a.m43, a.m44, mat_row(b, 1), mat_row(b, 2), mat_row(b, 3), mat_row(b, 4))));
    lemma_det_mul_123(a, b);
    lemma_mul_by_equal(a.m33, det_rows(mat_row(b, 1), mat_row(b, 2), mat_row(b, 3), comb(a.m41, a.m42, a.m43, a.m44, mat_row(b, 1), mat_row(b, 2), mat_row(b, 3), mat_row(b, 4))), a.m44 * det_rows(mat_row(b, 1), mat_row(b, 2), mat_row(b, 3), mat_row(b, 4)));
    lemma_det_mul_124(a, b);
    lemma_mul_by_equal(a.m34, det_rows(mat_row(b, 1), mat_row(b, 2), mat_row(b, 4), comb(a.m41, a.m42, a.m43, a.m44, mat_row(b, 1), mat_row(b, 2), mat_row(b, 3), mat_row(b, 4))), a.m43 * (-det_rows(mat_row(b, 1), mat_row(b, 2), mat_row(b, 3), mat_row(b, 4))));
}

proof fn lemma_det_mul_13(a: Mat4, b: Mat4)
    ensures
        det_rows(mat_row(b, 1), mat_row(b, 3), comb(a.m31, a.m32, a.m33, a.m34, mat_row(b, 1), mat_row(b, 2), mat_row(b, 3), mat_row(b, 4)), comb(a.m41, a.m42, a.m43, a.m44, mat_row(b, 1), mat_row(b, 2), mat_row(b, 3), mat_row(b, 4))) == a.m32 * (a.m44 * (-det_rows(mat_row(b, 1), mat_row(b, 2), mat_row(b, 3), mat_row(b, 4)))) + a.m34 * (a.m42 * det_rows(mat_row(b, 1), mat_row(b, 2), mat_row(b, 3), mat_row(b, 4))),
{
    lemma_det_rows_linear_3(a.m31, a.m32, a.m33, a.m34, mat_row(b, 1), mat_row(b, 2), mat_row(b, 3), mat_row(b, 4), mat_row(b, 1), mat_row(b, 3), comb(a.m41, a.m42, a.m43, a.m44, mat_row(b, 1), mat_row(b, 2), mat_row(b, 3), mat_row(b, 4)));
    lemma_det_mul_131(a, b);
    lemma_mul_by_zero(a.m31, det_rows(mat_row(b, 1), mat_row(b, 3), mat_row(b, 1), comb(a.m41, a.m42, a.m43, a.m44, mat_row(b, 1), mat_row(b, 2), mat_row(b, 3), mat_row(b, 4))));
    lemma_det_mul_132(a, b);
    lemma_mul_by_equal(a.m32, det_rows(mat_row(b, 1), mat_row(b, 3), mat_row(b, 2), comb(a.m41, a.m42, a.m43, a.m44, mat_row(b, 1), mat_row(b, 2), mat_row(b, 3), mat_row(b, 4))), a.m44 * (-det_rows(mat_row(b, 1), mat_row(b, 2), mat_row(b, 3), mat_row(b, 4))));
    lemma_det_mul_133(a, b);
    lemma_mul_by_zero(a.m33, det_rows(mat_row(b, 1), mat_row(b, 3), mat_row(b, 3), comb(a.m41, a.m42, a.m43, a.m44, mat_row(b, 1), mat_row(b, 2), mat_row(b, 3), mat_row(b, 4))));
    lemma_det_mul_134(a, b);
    lemma_mul_by_equal(a.m34, det_rows(mat_row(b, 1), mat_row(b, 3), mat_row(b, 4), comb(a.m41, a.m42, a.m43, a.m44, mat_row(b, 1), mat_row(b, 2), mat_row(b, 3), mat_row(b, 4))), a.m42 * det_rows(mat_row(b, 1), mat_row(b, 2), mat_row(b, 3), mat_row(b, 4)));
}

proof fn lemma_det_mul_14(a: Mat4, b: Mat4)
    ensures
        det_rows(mat_row(b, 1), mat_row(b, 4), comb(a.m31, a.m32, a.m33, a.m34, mat_row(b, 1), mat_row(b, 2), mat_row(b, 3), mat_row(b, 4)), comb(a.m41, a.m42, a.m43, a.m44, mat_row(b, 1), mat_row(b, 2), mat_row(b, 3), mat_row(b, 4))) == a.m32 * (a.m43 * det_rows(mat_row(b, 1), mat_row(b, 2), mat_row(b, 3), mat_row(b, 4))) + a.m33 * (a.m42 * (-det_rows(mat_row(b, 1), mat_row(b, 2), mat_row(b, 3), mat_row(b, 4)))),
{
    lemma_det_rows_linear_3(a.m31, a.m32, a.m33, a.m34, mat_row(b, 1), mat_row(b, 2), mat_row(b, 3), mat_row(b, 4), mat_row(b, 1), mat_row(b, 4), comb(a.m41, a.m42, a.m43, a.m44, mat_row(b, 1), mat_row(b, 2), mat_row(b, 3), mat_row(b, 4)));
    lemma_det_mul_141(a, b);
    lemma_mul_by_zero(a.m31, det_rows(mat_row(b, 1), mat_row(b, 4), mat_row(b, 1), comb(a.m41, a.m42, a.m43, a.m44, mat_row(b, 1), mat_row(b, 2), mat_row(b, 3), mat_row(b, 4))));
    lemma_det_mul_142(a, b);
    lemma_mul_by_equal(a.m32, det_rows(mat_row(b, 1), mat_row(b, 4), mat_row(b, 2), comb(a.m41, a.m42, a.m43, a.m44, mat_row(b, 1), mat_row(b, 2), mat_row(b, 3), mat_row(b, 4))), a.m43 * det_rows(mat_row(b, 1), mat_row(b, 2), mat_row(b, 3), mat_row(b, 4)));
    lemma_det_mul_143(a, b);
    lemma_mul_by_equal(a.m33, det_rows(mat_row(b, 1), mat_row(b, 4), mat_row(b, 3), comb(a.m41, a.m42, a.m43, a.m44, mat_row(b, 1), mat_row(b, 2), mat_row(b, 3), mat_row(b, 4))), a.m42 * (-det_rows(mat_row(b, 1), mat_row(b, 2), mat_row(b, 3), mat_row(b, 4))));
    lemma_det_mul_144(a, b);
    lemma_mul_by_zero(a.m34, det_rows(mat_row(b, 1), mat_row(b, 4), mat_row(b, 4), comb(a.m41, a.m42, a.m43, a.m44, mat_row(b, 1), mat_row(b, 2), mat_row(b, 3), mat_row(b, 4))));
}

proof fn lemma_det_mul_21(a: Mat4, b: Mat4)
    ensures
        det_rows(mat_row(b, 2), mat_row(b, 1), comb(a.m31, a.m32, a.m33, a.m34, mat_row(b, 1), mat_row(b, 2), mat_row(b, 3), mat_row(b, 4)), comb(a.m41, a.m42, a.m43, a.m44, mat_row(b, 1), mat_row(b, 2), mat_row(b, 3), mat_row(b, 4))) == a.m33 * (a.m44 * (-det_rows(mat_row(b, 1), mat_row(b, 2), mat_row(b, 3), mat_row(b, 4)))) + a.m34 * (a.m43 * det_rows(mat_row(b, 1), mat_row(b, 2), mat_row(b, 3), mat_row(b, 4))),
{
    lemma_det_rows_linear_3(a.m31, a.m32, a.m33, a.m34, mat_row(b, 1), mat_row(b, 2), mat_row(b, 3), mat_row(b, 4), mat_row(b, 2), mat_row(b, 1), comb(a.m41, a.m42, a.m43, a.m44, mat_row(b, 1), mat_row(b, 2), mat_row(b, 3), mat_row(b, 4)));
    lemma_det_mul_211(a, b);
    lemma_mul_by_zero(a.m31, det_rows(mat_row(b, 2), mat_row(b, 1), mat_row(b, 1), comb(a.m41, a.m42, a.m43, a.m44, mat_row(b, 1), mat_row(b, 2), mat_row(b, 3), mat_row(b, 4))));
    lemma_det_mul_212(a, b);
    lemma_mul_by_zero(a.m32, det_rows(mat_row(b, 2), mat_row(b, 1), mat_row(b, 2), comb(a.m41, a.m42, a.m43, a.m44, mat_row(b, 1), mat_row(b, 2), mat_row(b, 3), mat_row(b, 4))));
    lemma_det_mul_213(a, b);
    lemma_mul_by_equal(a.m33, det_rows(mat_row(b, 2), mat_row(b, 1), mat_row(b, 3), comb(a.m41, a.m42, a.m43, a.m44, mat_row(b, 1), mat_row(b, 2), mat_row(b, 3), mat_row(b, 4))), a.m44 * (-det_rows(mat_row(b, 1), mat_row(b, 2), mat_row(b, 3), mat_row(b, 4))));
    lemma_det_mul_214(a, b);
    lemma_mul_by_equal(a.m34, det_rows(mat_row(b, 2), mat_row(b, 1), mat_row(b, 4), comb(a.m41, a.m42, a.m43, a.m44, mat_row(b, 1), mat_row(b, 2), mat_row(b, 3), mat_row(b, 4))), a.m43 * det_rows(mat_row(b, 1), mat_row(b, 2), mat_row(b, 3), mat_row(b, 4)));
}

proof fn lemma_det_mul_22(a: Mat4, b: Mat4)
    ensures
        det_rows(mat_row(b, 2), mat_row(b, 2), comb(a.m31, a.m32, a.m33, a.m34, mat_row(b, 1), mat_row(b, 2), mat_row(b, 3), mat_row(b, 4)), comb(a.m41, a.m42, a.m43, a.m44, mat_row(b, 1), mat_row(b, 2), mat_row(b, 3), mat_row(b, 4))) == 0,
{
    lemma_det_rows_linear_3(a.m31, a.m32, a.m33, a.m34, mat_row(b, 1), mat_row(b, 2), mat_row(b, 3), mat_row(b, 4), mat_row(b, 2), mat_row(b, 2), comb(a.m41, a.m42, a.m43, a.m44, mat_row(b, 1), mat_row(b, 2), mat_row(b, 3), mat_row(b, 4)));
    lemma_det_mul_221(a, b);
    lemma_mul_by_zero(a.m31, det_rows(mat_row(b, 2), mat_row(b, 2), mat_row(b, 1), comb(a.m41, a.m42, a.m43, a.m44, mat_row(b, 1), mat_row(b, 2), mat_row(b, 3), mat_row(b, 4))));
    lemma_det_mul_222(a, b);
    lemma_mul_by_zero(a.m32, det_rows(mat_row(b, 2), mat_row(b, 2), mat_row(b, 2), comb(a.m41, a.m42, a.m43, a.m44, mat_row(b, 1), mat_row(b, 2), mat_row(b, 3), mat_row(b, 4))));
    lemma_det_mul_223(a, b);
    lemma_mul_by_zero(a.m33, det_rows(mat_row(b, 2), mat_row(b, 2), mat_row(b, 3), comb(a.m41, a.m42, a.m43, a.m44, mat_row(b, 1), mat_row(b, 2), mat_row(b, 3), mat_row(b, 4))));
    lemma_det_mul_224(a, b);
    lemma_mul_by_zero(a.m34, det_rows(mat_row(b, 2), mat_row(b, 2), mat_row(b, 4), comb(a.m41, a.m42, a.m43, a.m44, mat_row(b, 1), mat_row(b, 2), mat_row(b, 3), mat_row(b, 4))));
}

proof fn lemma_det_mul_23(a: Mat4, b: Mat4)
    ensures
        det_rows(mat_row(b, 2), mat_row(b, 3), comb(a.m31, a.m32, a.m33, a.m34, mat_row(b, 1), mat_row(b, 2), mat_row(b, 3), mat_row(b, 4)), comb(a.m41, a.m42, a.m43, a.m44, mat_row(b, 1), mat_row(b, 2), mat_row(b, 3), mat_row(b, 4))) == a.m31 * (a.m44 * det_rows(mat_row(b, 1), mat_row(b, 2), mat_row(b, 3), mat_row(b, 4))) + a.m34 * (a.m41 * (-det_rows(mat_row(b, 1), mat_row(b, 2), mat_row(b, 3), mat_row(b, 4)))),
{
    lemma_det_rows_linear_3(a.m31, a.m32, a.m33, a.m34, mat_row(b, 1), mat_row(b, 2), mat_row(b, 3), mat_row(b, 4), mat_row(b, 2), mat_row(b, 3), comb(a.m41, a.m42, a.m43, a.m44, mat_row(b, 1), mat_row(b, 2), mat_row(b, 3), mat_row(b, 4)));
    lemma_det_mul_231(a, b);
    lemma_mul_by_equal(a.m31, det_rows(mat_row(b, 2), mat_row(b, 3), mat_row(b, 1), comb(a.m41, a.m42, a.m43, a.m44, mat_row(b, 1), mat_row(b, 2), mat_row(b, 3), mat_row(b, 4))), a.m44 * det_rows(mat_row(b, 1), mat_row(b, 2), mat_row(b, 3), mat_row(b, 4)));
    lemma_det_mul_232(a, b);
    lemma_mul_by_zero(a.m32, det_rows(mat_row(b, 2), mat_row(b, 3), mat_row(b, 2), comb(a.m41, a.m42, a.m43, a.m44, mat_row(b, 1), mat_row(b, 2), mat_row(b, 3), mat_row(b, 4))));
    lemma_det_mul_233(a, b);
    lemma_mul_by_zero(a.m33, det_rows(mat_row(b, 2), mat_row(b, 3), mat_row(b, 3), comb(a.m41, a.m42, a.m43, a.m44, mat_row(b, 1), mat_row(b, 2), mat_row(b, 3), mat_row(b, 4))));
    lemma_det_mul_234(a, b);
    lemma_mul_by_equal(a.m34, det_rows(mat_row(b, 2), mat_row(b, 3), mat_row(b, 4), comb(a.m41, a.m42, a.m43, a.m44, mat_row(b, 1), mat_row(b, 2), mat_row(b, 3), mat_row(b, 4))), a.m41 * (-det_rows(mat_row(b, 1), mat_row(b, 2), mat_row(b, 3), mat_row(b, 4))));
}

proof fn lemma_det_mul_24(a: Mat4, b: Mat4)
    ensures
        det_rows(mat_row(b, 2), mat_row(b, 4), comb(a.m31, a.m32, a.m33, a.m34, mat_row(b, 1), mat_row(b, 2), mat_row(b, 3), mat_row(b, 4)), comb(a.m41, a.m42, a.m43, a.m44, mat_row(b, 1), mat_row(b, 2), mat_row(b, 3), mat_row(b, 4))) == a.m31 * (a.m43 * (-det_rows(mat_row(b, 1), mat_row(b, 2), mat_row(b, 3), mat_row(b, 4)))) + a.m33 * (a.m41 * det_rows(mat_row(b, 1), mat_row(b, 2), mat_row(b, 3), mat_row(b, 4))),
{
    lemma_det_rows_linear_3(a.m31, a.m32, a.m33, a.m34, mat_row(b, 1), mat_row(b, 2), mat_row(b, 3), mat_row(b, 4), mat_row(b, 2), mat_row(b, 4), comb(a.m41, a.m42, a.m43, a.m44, mat_row(b, 1), mat_row(b, 2), mat_row(b, 3), mat_row(b, 4)));
    lemma_det_mul_241(a, b);
    lemma_mul_by_equal(a.m31, det_rows(mat_row(b, 2), mat_row(b, 4), mat_row(b, 1), comb(a.m41, a.m42, a.m43, a.m44, mat_row(b, 1), mat_row(b, 2), mat_row(b, 3), mat_row(b, 4))), a.m43 * (-det_rows(mat_row(b, 1), mat_row(b, 2), mat_row(b, 3), mat_row(b, 4))));
    lemma_det_mul_242(a, b);
    lemma_mul_by_zero(a.m32, det_rows(mat_row(b, 2), mat_row(b, 4), mat_row(b, 2), comb(a.m41, a.m42, a.m43, a.m44, mat_row(b, 1), mat_row(b, 2), mat_row(b, 3), mat_row(b, 4))));
    lemma_det_mul_243(a, b);
    lemma_mul_by_equal(a.m33, det_rows(mat_row(b, 2), mat_row(b, 4), mat_row(b, 3), comb(a.m41, a.m42, a.m43, a.m44, mat_row(b, 1), mat_row(b, 2), mat_row(b, 3), mat_row(b, 4))), a.m41 * det_rows(mat_row(b, 1), mat_row(b, 2), mat_row(b, 3), mat_row(b, 4)));
    lemma_det_mul_244(a, b);
    lemma_mul_by_zero(a.m34, det_rows(mat_row(b, 2), mat_row(b, 4), mat_row(b, 4), comb(a.m41, a.m42, a.m43, a.m44, mat_row(b, 1), mat_row(b, 2), mat_row(b, 3), mat_row(b, 4))));
}

proof fn lemma_det_mul_31(a: Mat4, b: Mat4)
    ensures
        det_rows(mat_row(b, 3), mat_row(b, 1), comb(a.m31, a.m32, a.m33, a.m34, mat_row(b, 1), mat_row(b, 2), mat_row(b, 3), mat_row(b, 4)), comb(a.m41, a.m42, a.m43, a.m44, mat_row(b, 1), mat_row(b, 2), mat_row(b, 3), mat_row(b, 4))) == a.m32 * (a.m44 * det_rows(mat_row(b, 1), mat_row(b, 2), mat_row(b, 3), mat_row(b, 4))) + a.m34 * (a.m42 * (-det_rows(mat_row(b, 1), mat_row(b, 2), mat_row(b, 3), mat_row(b, 4)))),
{
    lemma_det_rows_linear_3(a.m31, a.m32, a.m33, a.m34, mat_row(b, 1), mat_row(b, 2), mat_row(b, 3), mat_row(b, 4), mat_row(b, 3), mat_row(b, 1), comb(a.m41, a.m42, a.m43, a.m44, mat_row(b, 1), mat_row(b, 2), mat_row(b, 3), mat_row(b, 4)));
    lemma_det_mul_311(a, b);
    lemma_mul_by_zero(a.m31, det_rows(mat_row(b, 3), mat_row(b, 1), mat_row(b, 1), comb(a.m41, a.m42, a.m43, a.m44, mat_row(b, 1), mat_row(b, 2), mat_row(b, 3), mat_row(b, 4))));
    lemma_det_mul_312(a, b);
    lemma_mul_by_equal(a.m32, det_rows(mat_row(b, 3), mat_row(b, 1), mat_row(b, 2), comb(a.m41, a.m42, a.m43, a.m44, mat_row(b, 1), mat_row(b, 2), mat_row(b, 3), mat_row(b, 4))), a.m44 * det_rows(mat_row(b, 1), mat_row(b, 2), mat_row(b, 3), mat_row(b, 4)));
    lemma_det_mul_313(a, b);
    lemma_mul_by_zero(a.m33, det_rows(mat_row(b, 3), mat_row(b, 1), mat_row(b, 3), comb(a.m41, a.m42, a.m43, a.m44, mat_row(b, 1), mat_row(b, 2), mat_row(b, 3), mat_row(b, 4))));
    lemma_det_mul_314(a, b);
    lemma_mul_by_equal(a.m34, det_rows(mat_row(b, 3), mat_row(b, 1), mat_row(b, 4), comb(a.m41, a.m42, a.m43, a.m44, mat_row(b, 1), mat_row(b, 2), mat_row(b, 3), mat_row(b, 4))), a.m42 * (-det_rows(mat_row(b, 1), mat_row(b, 2), mat_row(b, 3), mat_row(b, 4))));
}

proof fn lemma_det_mul_32(a: Mat4, b: Mat4)
    ensures
        det_rows(mat_row(b, 3), mat_row(b, 2), comb(a.m31, a.m32, a.m33, a.m34, mat_row(b, 1), mat_row(b, 2), mat_row(b, 3), mat_row(b, 4)), comb(a.m41, a.m42, a.m43, a.m44, mat_row(b, 1), mat_row(b, 2), mat_row(b, 3), mat_row(b, 4))) == a.m31 * (a.m44 * (-det_rows(mat_row(b, 1), mat_row(b, 2), mat_row(b, 3), mat_row(b, 4)))) + a.m34 * (a.m41 * det_rows(mat_row(b, 1), mat_row(b, 2), mat_row(b, 3), mat_row(b, 4))),
{
    lemma_det_rows_linear_3(a.m31, a.m32, a.m33, a.m34, mat_row(b, 1), mat_row(b, 2), mat_row(b, 3), mat_row(b, 4), mat_row(b, 3), mat_row(b, 2), comb(a.m41, a.m42, a.m43, a.m44, mat_row(b, 1), mat_row(b, 2), mat_row(b, 3), mat_row(b, 4)));
    lemma_det_mul_321(a, b);
    lemma_mul_by_equal(a.m31, det_rows(mat_row(b, 3), mat_row(b, 2), mat_row(b, 1), comb(a.m41, a.m42, a.m43, a.m44, mat_row(b, 1), mat_row(b, 2), mat_row(b, 3), mat_row(b, 4))), a.m44 * (-det_rows(mat_row(b, 1), mat_row(b, 2), mat_row(b, 3), mat_row(b, 4))));
    lemma_det_mul_322(a, b);
    lemma_mul_by_zero(a.m32, det_rows(mat_row(b, 3), mat_row(b, 2), mat_row(b, 2), comb(a.m41, a.m42, a.m43, a.m44, mat_row(b, 1), mat_row(b, 2), mat_row(b, 3), mat_row(b, 4))));
    lemma_det_mul_323(a, b);
    lemma_mul_by_zero(a.m33, det_rows(mat_row(b, 3), mat_row(b, 2), mat_row(b, 3), comb(a.m41, a.m42, a.m43, a.m44, mat_row(b, 1), mat_row(b, 2), mat_row(b, 3), mat_row(b, 4))));
    lemma_det_mul_324(a, b);
    lemma_mul_by_equal(a.m34, det_rows(mat_row(b, 3), mat_row(b, 2), mat_row(b, 4), comb(a.m41, a.m42, a.m43, a.m44, mat_row(b, 1), mat_row(b, 2), mat_row(b, 3), mat_row(b, 4))), a.m41 * det_rows(mat_row(b, 1), mat_row(b, 2), mat_row(b, 3), mat_row(b, 4)));
}

proof fn lemma_det_mul_33(a: Mat4, b: Mat4)
    ensures
        det_rows(mat_row(b, 3), mat_row(b, 3), comb(a.m31, a.m32, a.m33, a.m34, mat_row(b, 1), mat_row(b, 2), mat_row(b, 3), mat_row(b, 4)), comb(a.m41, a.m42, a.m43, a.m44, mat_row(b, 1), mat_row(b, 2), mat_row(b, 3), mat_row(b, 4))) == 0,
{
    lemma_det_rows_linear_3(a.m31, a.m32, a.m33, a.m34, mat_row(b, 1), mat_row(b, 2), mat_row(b, 3), mat_row(b, 4), mat_row(b, 3), mat_row(b, 3), comb(a.m41, a.m42, a.m43, a.m44, mat_row(b, 1), mat_row(b, 2), mat_row(b, 3), mat_row(b, 4)));
    lemma_det_mul_331(a, b);
    lemma_mul_by_zero(a.m31, det_rows(mat_row(b, 3), mat_row(b, 3), mat_row(b, 1), comb(a.m41, a.m42, a.m43, a.m44, mat_row(b, 1), mat_row(b, 2), mat_row(b, 3), mat_row(b, 4))));
    lemma_det_mul_332(a, b);
    lemma_mul_by_zero(a.m32, det_rows(mat_row(b, 3), mat_row(b, 3), mat_row(b, 2), comb(a.m41, a.m42, a.m43, a.m44, mat_row(b, 1), mat_row(b, 2), mat_row(b, 3), mat_row(b, 4))));
    lemma_det_mul_333(a, b);
    lemma_mul_by_zero(a.m33, det_rows(mat_row(b, 3), mat_row(b, 3), mat_row(b, 3), comb(a.m41, a.m42, a.m43, a.m44, mat_row(b, 1), mat_row(b, 2), mat_row(b, 3), mat_row(b, 4))));
    lemma_det_mul_334(a, b);
    lemma_mul_by_zero(a.m34, det_rows(mat_row(b, 3), mat_row(b, 3), mat_row(b, 4), comb(a.m41, a.m42, a.m43, a.m44, mat_row(b, 1), mat_row(b, 2), mat_row(b, 3), mat_row(b, 4))));
}

proof fn lemma_det_mul_34(a: Mat4, b: Mat4)
    ensures
        det_rows(mat_row(b, 3), mat_row(b, 4), comb(a.m31, a.m32, a.m33, a.m34, mat_row(b, 1), mat_row(b, 2), mat_row(b, 3), mat_row(b, 4)), comb(a.m41, a.m42, a.m43, a.m44, mat_row(b, 1), mat_row(b, 2), mat_row(b, 3), mat_row(b, 4))) == a.m31 * (a.m42 * det_rows(mat_row(b, 1), mat_row(b, 2), mat_row(b, 3), mat_row(b, 4))) + a.m32 * (a.m41 * (-det_rows(mat_row(b, 1), mat_row(b, 2), mat_row(b, 3), mat_row(b, 4)))),
{
    lemma_det_rows_linear_3(a.m31, a.m32, a.m33, a.m34, mat_row(b, 1), mat_row(b, 2), mat_row(b, 3), mat_row(b, 4), mat_row(b, 3), mat_row(b, 4), comb(a.m41, a.m42, a.m43, a.m44, mat_row(b, 1), mat_row(b, 2), mat_row(b, 3), mat_row(b, 4)));
    lemma_det_mul_341(a, b);
    lemma_mul_by_equal(a.m31, det_rows(mat_row(b, 3), mat_row(b, 4), mat_row(b, 1), comb(a.m41, a.m42, a.m43, a.m44, mat_row(b, 1), mat_row(b, 2), mat_row(b, 3), mat_row(b, 4))), a.m42 * det_rows(mat_row(b, 1), mat_row(b, 2), mat_row(b, 3), mat_row(b, 4)));
    lemma_det_mul_342(a, b);
    lemma_mul_by_equal(a.m32, det_rows(mat_row(b, 3), mat_row(b, 4), mat_row(b, 2), comb(a.m41, a.m42, a.m43, a.m44, mat_row(b, 1), mat_row(b, 2), mat_row(b, 3), mat_row(b, 4))), a.m41 * (-det_rows(mat_row(b, 1), mat_row(b, 2), mat_row(b, 3), mat_row(b, 4))));
    lemma_det_mul_343(a, b);
    lemma_mul_by_zero(a.m33, det_rows(mat_row(b, 3), mat_row(b, 4), mat_row(b, 3), comb(a.m41, a.m42, a.m43, a.m44, mat_row(b, 1), mat_row(b, 2), mat_row(b, 3), mat_row(b, 4))));
    lemma_det_mul_344(a, b);
    lemma_mul_by_zero(a.m34, det_rows(mat_row(b, 3), mat_row(b, 4), mat_row(b, 4), comb(a.m41, a.m42, a.m43, a.m44, mat_row(b, 1), mat_row(b, 2), mat_row(b, 3), mat_row(b, 4))));
}

proof fn lemma_det_mul_41(a: Mat4, b: Mat4)
    ensures
        det_rows(mat_row(b, 4), mat_row(b, 1), comb(a.m31, a.m32, a.m33, a.m34, mat_row(b, 1), mat_row(b, 2), mat_row(b, 3), mat_row(b, 4)), comb(a.m41, a.m42, a.m43, a.m44, mat_row(b, 1), mat_row(b, 2), mat_row(b, 3), mat_row(b, 4))) == a.m32 * (a.m43 * (-det_rows(mat_row(b, 1), mat_row(b, 2), mat_row(b, 3), mat_row(b, 4)))) + a.m33 * (a.m42 * det_rows(mat_row(b, 1), mat_row(b, 2), mat_row(b, 3), mat_row(b, 4))),
{
    lemma_det_rows_linear_3(a.m31, a.m32, a.m33, a.m34, mat_row(b, 1), mat_row(b, 2), mat_row(b, 3), mat_row(b, 4), mat_row(b, 4), mat_row(b, 1), comb(a.m41, a.m42, a.m43, a.m44, mat_row(b, 1), mat_row(b, 2), mat_row(b, 3), mat_row(b, 4)));
    lemma_det_mul_411(a, b);
    lemma_mul_by_zero(a.m31, det_rows(mat_row(b, 4), mat_row(b, 1), mat_row(b, 1), comb(a.m41, a.m42, a.m43, a.m44, mat_row(b, 1), mat_row(b, 2), mat_row(b, 3), mat_row(b, 4))));
    lemma_det_mul_412(a, b);
    lemma_mul_by_equal(a.m32, det_rows(mat_row(b, 4), mat_row(b, 1), mat_row(b, 2), comb(a.m41, a.m42, a.m43, a.m44, mat_row(b, 1), mat_row(b, 2), mat_row(b, 3), mat_row(b, 4))), a.m43 * (-det_rows(mat_row(b, 1), mat_row(b, 2), mat_row(b, 3), mat_row(b, 4))));
    lemma_det_mul_413(a, b);
    lemma_mul_by_equal(a.m33, det_rows(mat_row(b, 4), mat_row(b, 1), mat_row(b, 3), comb(a.m41, a.m42, a.m43, a.m44, mat_row(b, 1), mat_row(b, 2), mat_row(b, 3), mat_row(b, 4))), a.m42 * det_rows(mat_row(b, 1), mat_row(b, 2), mat_row(b, 3), mat_row(b, 4)));
    lemma_det_mul_414(a, b);
    lemma_mul_by_zero(a.m34, det_rows(mat_row(b, 4), mat_row(b, 1), mat_row(b, 4), comb(a.m41, a.m42, a.m43, a.m44, mat_row(b, 1), mat_row(b, 2), mat_row(b, 3), mat_row(b, 4))));
}

proof fn lemma_det_mul_42(a: Mat4, b: Mat4)
    ensures
        det_rows(mat_row(b, 4), mat_row(b, 2), comb(a.m31, a.m32, a.m33, a.m34, mat_row(b, 1), mat_row(b, 2), mat_row(b, 3), mat_row(b, 4)), comb(a.m41, a.m42, a.m43, a.m44, mat_row(b, 1), mat_row(b, 2), mat_row(b, 3), mat_row(b, 4))) == a.m31 * (a.m43 * det_rows(mat_row(b, 1), mat_row(b, 2), mat_row(b, 3), mat_row(b, 4))) + a.m33 * (a.m41 * (-det_rows(mat_row(b, 1), mat_row(b, 2), mat_row(b, 3), mat_row(b, 4)))),
{
    lemma_det_rows_linear_3(a.m31, a.m32, a.m33, a.m34, mat_row(b, 1), mat_row(b, 2), mat_row(b, 3), mat_row(b, 4), mat_row(b, 4), mat_row(b, 2), comb(a.m41, a.m42, a.m43, a.m44, mat_row(b, 1), mat_row(b, 2), mat_row(b, 3), mat_row(b, 4)));
    lemma_det_mul_421(a, b);
    lemma_mul_by_equal(a.m31, det_rows(mat_row(b, 4), mat_row(b, 2), mat_row(b, 1), comb(a.m41, a.m42, a.m43, a.m44, mat_row(b, 1), mat_row(b, 2), mat_row(b, 3), mat_row(b, 4))), a.m43 * det_rows(mat_row(b, 1), mat_row(b, 2), mat_row(b, 3), mat_row(b, 4)));
    lemma_det_mul_422(a, b);
    lemma_mul_by_zero(a.m32, det_rows(mat_row(b, 4), mat_row(b, 2), mat_row(b, 2), comb(a.m41, a.m42, a.m43, a.m44, mat_row(b, 1), mat_row(b, 2), mat_row(b, 3), mat_row(b, 4))));
    lemma_det_mul_423(a, b);
    lemma_mul_by_equal(a.m33, det_rows(mat_row(b, 4), mat_row(b, 2), mat_row(b, 3), comb(a.m41, a.m42, a.m43, a.m44, mat_row(b, 1), mat_row(b, 2), mat_row(b, 3), mat_row(b, 4))), a.m41 * (-det_rows(mat_row(b, 1), mat_row(b, 2), mat_row(b, 3), mat_row(b, 4))));
    lemma_det_mul_424(a, b);
    lemma_mul_by_zero(a.m34, det_rows(mat_row(b, 4), mat_row(b, 2), mat_row(b, 4), comb(a.m41, a.m42, a.m43, a.m44, mat_row(b, 1), mat_row(b, 2), mat_row(b, 3), mat_row(b, 4))));
}

proof fn lemma_det_mul_43(a: Mat4, b: Mat4)
    ensures
        det_rows(mat_row(b, 4), mat_row(b, 3), comb(a.m31, a.m32, a.m33, a.m34, mat_row(b, 1), mat_row(b, 2), mat_row(b, 3), mat_row(b, 4)), comb(a.m41, a.m42, a.m43, a.m44, mat_row(b, 1), mat_row(b, 2), mat_row(b, 3), mat_row(b, 4))) == a.m31 * (a.m42 * (-det_rows(mat_row(b, 1), mat_row(b, 2), mat_row(b, 3), mat_row(b, 4)))) + a.m32 * (a.m41 * det_rows(mat_row(b, 1), mat_row(b, 2), mat_row(b, 3), mat_row(b, 4))),
{
    lemma_det_rows_linear_3(a.m31, a.m32, a.m33, a.m34, mat_row(b, 1), mat_row(b, 2), mat_row(b, 3), mat_row(b, 4), mat_row(b, 4), mat_row(b, 3), comb(a.m41, a.m42, a.m43, a.m44, mat_row(b, 1), mat_row(b, 2), mat_row(b, 3), mat_row(b, 4)));
    lemma_det_mul_431(a, b);
    lemma_mul_by_equal(a.m31, det_rows(mat_row(b, 4), mat_row(b, 3), mat_row(b, 1), comb(a.m41, a.m42, a.m43, a.m44, mat_row(b, 1), mat_row(b, 2), mat_row(b, 3), mat_row(b, 4))), a.m42 * (-det_rows(mat_row(b, 1), mat_row(b, 2), mat_row(b, 3), mat_row(b, 4))));
    lemma_det_mul_432(a, b);
    lemma_mul_by_equal(a.m32, det_rows(mat_row(b, 4), mat_row(b, 3), mat_row(b, 2), comb(a.m41, a.m42, a.m43, a.m44, mat_row(b, 1), mat_row(b, 2), mat_row(b, 3), mat_row(b, 4))), a.m41 * det_rows(mat_row(b, 1), mat_row(b, 2), mat_row(b, 3), mat_row(b, 4)));
    lemma_det_mul_433(a, b);
    lemma_mul_by_zero(a.m33, det_rows(mat_row(b, 4), mat_row(b, 3), mat_row(b, 3), comb(a.m41, a.m42, a.m43, a.m44, mat_row(b, 1), mat_row(b, 2), mat_row(b, 3), mat_row(b, 4))));
    lemma_det_mul_434(a, b);
    lemma_mul_by_zero(a.m34, det_rows(mat_row(b, 4), mat_row(b, 3), mat_row(b, 4), comb(a.m41, a.m42, a.m43, a.m44, mat_row(b, 1), mat_row(b, 2), mat_row(b, 3), mat_row(b, 4))));
}

proof fn lemma_det_mul_44(a: Mat4, b: Mat4)
    ensures
        det_rows(mat_row(b, 4), mat_row(b, 4), comb(a.m31, a.m32, a.m33, a.m34, mat_row(b, 1), mat_row(b, 2), mat_row(b, 3), mat_row(b, 4)), comb(a.m41, a.m42, a.m43, a.m44, mat_row(b, 1), mat_row(b, 2), mat_row(b, 3), mat_row(b, 4))) == 0,
{
    lemma_det_rows_linear_3(a.m31, a.m32, a.m33, a.m34, mat_row(b, 1), mat_row(b, 2), mat_row(b, 3), mat_row(b, 4), mat_row(b, 4), mat_row(b, 4), comb(a.m41, a.m42, a.m43, a.m44, mat_row(b, 1), mat_row(b, 2), mat_row(b, 3), mat_row(b, 4)));
    lemma_det_mul_441(a, b);
    lemma_mul_by_zero(a.m31, det_rows(mat_row(b, 4), mat_row(b, 4), mat_row(b, 1), comb(a.m41, a.m42, a.m43, a.m44, mat_row(b, 1), mat_row(b, 2), mat_row(b, 3), mat_row(b, 4))));
    lemma_det_mul_442(a, b);
    lemma_mul_by_zero(a.m32, det_rows(mat_row(b, 4), mat_row(b, 4), mat_row(b, 2), comb(a.m41, a.m42, a.m43, a.m44, mat_row(b, 1), mat_row(b, 2), mat_row(b, 3), mat_row(b, 4))));
    lemma_det_mul_443(a, b);
    lemma_mul_by_zero(a.m33, det_rows(mat_row(b, 4), mat_row(b, 4), mat_row(b, 3), comb(a.m41, a.m42, a.m43, a.m44, mat_row(b, 1), mat_row(b, 2), mat_row(b, 3), mat_row(b, 4))));
    lemma_det_mul_444(a, b);
    lemma_mul_by_zero(a.m34, det_rows(mat_row(b, 4), mat_row(b, 4), mat_row(b, 4), comb(a.m41, a.m42, a.m43, a.m44, mat_row(b, 1), mat_row(b, 2), mat_row(b, 3), mat_row(b, 4))));
}

proof fn lemma_det_mul_1(a: Mat4, b: Mat4)
    ensures
        det_rows(mat_row(b, 1), comb(a.m21, a.m22, a.m23, a.m24, mat_row(b, 1), mat_row(b, 2), mat_row(b, 3), mat_row(b, 4)), comb(a.m31, a.m32, a.m33, a.m34, mat_row(b, 1), mat_row(b, 2), mat_row(b, 3), mat_row(b, 4)), comb(a.m41, a.m42, a.m43, a.m44, mat_row(b, 1), mat_row(b, 2), mat_row(b, 3), mat_row(b, 4))) == a.m22 * (a.m33 * (a.m44 * det_rows(mat_row(b, 1), mat_row(b, 2), mat_row(b, 3), mat_row(b, 4)))) + a.m22 * (a.m34 * (a.m43 * (-det_rows(mat_row(b, 1), mat_row(b, 2), mat_row(b, 3), mat_row(b, 4))))) + a.m23 * (a.m32 * (a.m44 * (-det_rows(mat_row(b, 1), mat_row(b, 2), mat_row(b, 3), mat_row(b, 4))))) + a.m23 * (a.m34 * (a.m42 * det_rows(mat_row(b, 1), mat_row(b, 2), mat_row(b, 3), mat_row(b, 4)))) + a.m24 * (a.m32 * (a.m43 * det_rows(mat_row(b, 1), mat_row(b, 2), mat_row(b, 3), mat_row(b, 4)))) + a.m24 * (a.m33 * (a.m42 * (-det_rows(mat_row(b, 1), mat_row(b, 2), mat_row(b, 3), mat_row(b, 4))))),
{
    lemma_det_rows_linear_2(a.m21, a.m22, a.m23, a.m24, mat_row(b, 1), mat_row(b, 2), mat_row(b, 3), mat_row(b, 4), mat_row(b, 1), comb(a.m31, a.m32, a.m33, a.m34, mat_row(b, 1), mat_row(b, 2), mat_row(b, 3), mat_row(b, 4)), comb(a.m41, a.m42, a.m43, a.m44, mat_row(b, 1), mat_row(b, 2), mat_row(b, 3), mat_row(b, 4)));
    lemma_det_mul_11(a, b);
    lemma_mul_by_zero(a.m21, det_rows(mat_row(b, 1), mat_row(b, 1), comb(a.m31, a.m32, a.m33, a.m34, mat_row(b, 1), mat_row(b, 2), mat_row(b, 3), mat_row(b, 4)), comb(a.m41, a.m42, a.m43, a.m44, mat_row(b, 1), mat_row(b, 2), mat_row(b, 3), mat_row(b, 4))));
    lemma_det_mul_12(a, b);
    lemma_mul_by_equal(a.m22, det_rows(mat_row(b, 1), mat_row(b, 2), comb(a.m31, a.m32, a.m33, a.m34, mat_row(b, 1), mat_row(b, 2), mat_row(b, 3), mat_row(b, 4)), comb(a.m41, a.m42, a.m43, a.m44, mat_row(b, 1), mat_row(b, 2), mat_row(b, 3), mat_row(b, 4))), a.m33 * (a.m44 * det_rows(mat_row(b, 1), mat_row(b, 2), mat_row(b, 3), mat_row(b, 4))) + a.m34 * (a.m43 * (-det_rows(mat_row(b, 1), mat_row(b, 2), mat_row(b, 3), mat_row(b, 4)))));
    lemma_distribute2_left(a.m22, a.m33 * (a.m44 * det_rows(mat_row(b, 1), mat_row(b, 2), mat_row(b, 3), mat_row(b, 4))), a.m34 * (a.m43 * (-det_rows(mat_row(b, 1), mat_row(b, 2), mat_row(b, 3), mat_row(b, 4)))));
    lemma_det_mul_13(a, b);
    lemma_mul_by_equal(a.m23, det_rows(mat_row(b, 1), mat_row(b, 3), comb(a.m31, a.m32, a.m33, a.m34, mat_row(b, 1), mat_row(b, 2), mat_row(b, 3), mat_row(b, 4)), comb(a.m41, a.m42, a.m43, a.m44, mat_row(b, 1), mat_row(b, 2), mat_row(b, 3), mat_row(b, 4))), a.m32 * (a.m44 * (-det_rows(mat_row(b, 1), mat_row(b, 2), mat_row(b, 3), mat_row(b, 4)))) + a.m34 * (a.m42 * det_rows(mat_row(b, 1), mat_row(b, 2), mat_row(b, 3), mat_row(b, 4))));
    lemma_distribute2_left(a.m23, a.m32 * (a.m44 * (-det_rows(mat_row(b, 1), mat_row(b, 2), mat_row(b, 3), mat_row(b, 4)))), a.m34 * (a.m42 * det_rows(mat_row(b, 1), mat_row(b, 2), mat_row(b, 3), mat_row(b, 4))));
    lemma_det_mul_14(a, b);
    lemma_mul_by_equal(a.m24, det_rows(mat_row(b, 1), mat_row(b, 4), comb(a.m31, a.m32, a.m33, a.m34, mat_row(b, 1), mat_row(b, 2), mat_row(b, 3), mat_row(b, 4)), comb(a.m41, a.m42, a.m43, a.m44, mat_row(b, 1), mat_row(b, 2), mat_row(b, 3), mat_row(b, 4))), a.m32 * (a.m43 * det_rows(mat_row(b, 1), mat_row(b, 2), mat_row(b, 3), mat_row(b, 4))) + a.m33 * (a.m42 * (-det_rows(mat_row(b, 1), mat_row(b, 2), mat_row(b, 3), mat_row(b, 4)))));
    lemma_distribute2_left(a.m24, a.m32 * (a.m43 * det_rows(mat_row(b, 1), mat_row(b, 2), mat_row(b, 3), mat_row(b, 4))), a.m33 * (a.m42 * (-det_rows(mat_row(b, 1), mat_row(b, 2), mat_row(b, 3), mat_row(b, 4)))));
}

proof fn lemma_det_mul_2(a: Mat4, b: Mat4)
    ensures
        det_rows(mat_row(b, 2), comb(a.m21, a.m22, a.m23, a.m24, mat_row(b, 1), mat_row(b, 2), mat_row(b, 3), mat_row(b, 4)), comb(a.m31, a.m32, a.m33, a.m34, mat_row(b, 1), mat_row(b, 2), mat_row(b, 3), mat_row(b, 4)), comb(a.m41, a.m42, a.m43, a.m44, mat_row(b, 1), mat_row(b, 2), mat_row(b, 3), mat_row(b, 4))) == a.m21 * (a.m33 * (a.m44 * (-det_rows(mat_row(b, 1), mat_row(b, 2), mat_row(b, 3), mat_row(b, 4))))) + a.m21 * (a.m34 * (a.m43 * det_rows(mat_row(b, 1), mat_row(b, 2), mat_row(b, 3), mat_row(b, 4)))) + a.m23 * (a.m31 * (a.m44 * det_rows(mat_row(b, 1), mat_row(b, 2), mat_row(b, 3), mat_row(b, 4)))) + a.m23 * (a.m34 * (a.m41 * (-det_rows(mat_row(b, 1), mat_row(b, 2), mat_row(b, 3), mat_row(b, 4))))) + a.m24 * (a.m31 * (a.m43 * (-det_rows(mat_row(b, 1), mat_row(b, 2), mat_row(b, 3), mat_row(b, 4))))) + a.m24 * (a.m33 * (a.m41 * det_rows(mat_row(b, 1), mat_row(b, 2), mat_row(b, 3), mat_row(b, 4)))),
{
    lemma_det_rows_linear_2(a.m21, a.m22, a.m23, a.m24, mat_row(b, 1), mat_row(b, 2), mat_row(b, 3), mat_row(b, 4), mat_row(b, 2), comb(a.m31, a.m32, a.m33, a.m34, mat_row(b, 1), mat_row(b, 2), mat_row(b, 3), mat_row(b, 4)), comb(a.m41, a.m42, a.m43, a.m44, mat_row(b, 1), mat_row(b, 2), mat_row(b, 3), mat_row(b, 4)));
    lemma_det_mul_21(a, b);
    lemma_mul_by_equal(a.m21, det_rows(mat_row(b, 2), mat_row(b, 1), comb(a.m31, a.m32, a.m33, a.m34, mat_row(b, 1), mat_row(b, 2), mat_row(b, 3), mat_row(b, 4)), comb(a.m41, a.m42, a.m43, a.m44, mat_row(b, 1), mat_row(b, 2), mat_row(b, 3), mat_row(b, 4))), a.m33 * (a.m44 * (-det_rows(mat_row(b, 1), mat_row(b, 2), mat_row(b, 3), mat_row(b, 4)))) + a.m34 * (a.m43 * det_rows(mat_row(b, 1), mat_row(b, 2), mat_row(b, 3), mat_row(b, 4))));
    lemma_distribute2_left(a.m21, a.m33 * (a.m44 * (-det_rows(mat_row(b, 1), mat_row(b, 2), mat_row(b, 3), mat_row(b, 4)))), a.m34 * (a.m43 * det_rows(mat_row(b, 1), mat_row(b, 2), mat_row(b, 3), mat_row(b, 4))));
    lemma_det_mul_22(a, b);
    lemma_mul_by_zero(a.m22, det_rows(mat_row(b, 2), mat_row(b, 2), comb(a.m31, a.m32, a.m33, a.m34, mat_row(b, 1), mat_row(b, 2), mat_row(b, 3), mat_row(b, 4)), comb(a.m41, a.m42, a.m43, a.m44, mat_row(b, 1), mat_row(b, 2), mat_row(b, 3), mat_row(b, 4))));
    lemma_det_mul_23(a, b);
    lemma_mul_by_equal(a.m23, det_rows(mat_row(b, 2), mat_row(b, 3), comb(a.m31, a.m32, a.m33, a.m34, mat_row(b, 1), mat_row(b, 2), mat_row(b, 3), mat_row(b, 4)), comb(a.m41, a.m42, a.m43, a.m44, mat_row(b, 1), mat_row(b, 2), mat_row(b, 3), mat_row(b, 4))), a.m31 * (a.m44 * det_rows(mat_row(b, 1), mat_row(b, 2), mat_row(b, 3), mat_row(b, 4))) + a.m34 * (a.m41 * (-det_rows(mat_row(b, 1), mat_row(b, 2), mat_row(b, 3), mat_row(b, 4)))));
    lemma_distribute2_left(a.m23, a.m31 * (a.m44 * det_rows(mat_row(b, 1), mat_row(b, 2), mat_row(b, 3), mat_row(b, 4))), a.m34 * (a.m41 * (-det_rows(mat_row(b, 1), mat_row(b, 2), mat_row(b, 3), mat_row(b, 4)))));
    lemma_det_mul_24(a, b);
    lemma_mul_by_equal(a.m24, det_rows(mat_row(b, 2), mat_row(b, 4), comb(a.m31, a.m32, a.m33, a.m34, mat_row(b, 1), mat_row(b, 2), mat_row(b, 3), mat_row(b, 4)), comb(a.m41, a.m42, a.m43, a.m44, mat_row(b, 1), mat_row(b, 2), mat_row(b, 3), mat_row(b, 4))), a.m31 * (a.m43 * (-det_rows(mat_row(b, 1), mat_row(b, 2), mat_row(b, 3), mat_row(b, 4)))) + a.m33 * (a.m41 * det_rows(mat_row(b, 1), mat_row(b, 2), mat_row(b, 3), mat_row(b, 4))));
    lemma_distribute2_left(a.m24, a.m31 * (a.m43 * (-det_rows(mat_row(b, 1), mat_row(b, 2), mat_row(b, 3), mat_row(b, 4)))), a.m33 * (a.m41 * det_rows(mat_row(b, 1), mat_row(b, 2), mat_row(b, 3), mat_row(b, 4))));
}

proof fn lemma_det_mul_3(a: Mat4, b: Mat4)
    ensures
        det_rows(mat_row(b, 3), comb(a.m21, a.m22, a.m23, a.m24, mat_row(b, 1), mat_row(b, 2), mat_row(b, 3), mat_row(b, 4)), comb(a.m31, a.m32, a.m33, a.m34, mat_row(b, 1), mat_row(b, 2), mat_row(b, 3), mat_row(b, 4)), comb(a.m41, a.m42, a.m43, a.m44, mat_row(b, 1), mat_row(b, 2), mat_row(b, 3), mat_row(b, 4))) == a.m21 * (a.m32 * (a.m44 * det_rows(mat_row(b, 1), mat_row(b, 2), mat_row(b, 3), mat_row(b, 4)))) + a.m21 * (a.m34 * (a.m42 * (-det_rows(mat_row(b, 1), mat_row(b, 2), mat_row(b, 3), mat_row(b, 4))))) + a.m22 * (a.m31 * (a.m44 * (-det_rows(mat_row(b, 1), mat_row(b, 2), mat_row(b, 3), mat_row(b, 4))))) + a.m22 * (a.m34 * (a.m41 * det_rows(mat_row(b, 1), mat_row(b, 2), mat_row(b, 3), mat_row(b, 4)))) + a.m24 * (a.m31 * (a.m42 * det_rows(mat_row(b, 1), mat_row(b, 2), mat_row(b, 3), mat_row(b, 4)))) + a.m24 * (a.m32 * (a.m41 * (-det_rows(mat_row(b, 1), mat_row(b, 2), mat_row(b, 3), mat_row(b, 4))))),
{
    lemma_det_rows_linear_2(a.m21, a.m22, a.m23, a.m24, mat_row(b, 1), mat_row(b, 2), mat_row(b, 3), mat_row(b, 4), mat_row(b, 3), comb(a.m31, a.m32, a.m33, a.m34, mat_row(b, 1), mat_row(b, 2), mat_row(b, 3), mat_row(b, 4)), comb(a.m41, a.m42, a.m43, a.m44, mat_row(b, 1), mat_row(b, 2), mat_row(b, 3), mat_row(b, 4)));
    lemma_det_mul_31(a, b);
    lemma_mul_by_equal(a.m21, det_rows(mat_row(b, 3), mat_row(b, 1), comb(a.m31, a.m32, a.m33, a.m34, mat_row(b, 1), mat_row(b, 2), mat_row(b, 3), mat_row(b, 4)), comb(a.m41, a.m42, a.m43, a.m44, mat_row(b, 1), mat_row(b, 2), mat_row(b, 3), mat_row(b, 4))), a.m32 * (a.m44 * det_rows(mat_row(b, 1), mat_row(b, 2), mat_row(b, 3), mat_row(b, 4))) + a.m34 * (a.m42 * (-det_rows(mat_row(b, 1), mat_row(b, 2), mat_row(b, 3), mat_row(b, 4)))));
    lemma_distribute2_left(a.m21, a.m32 * (a.m44 * det_rows(mat_row(b, 1), mat_row(b, 2), mat_row(b, 3), mat_row(b, 4))), a.m34 * (a.m42 * (-det_rows(mat_row(b, 1), mat_row(b, 2), mat_row(b, 3), mat_row(b, 4)))));
    lemma_det_mul_32(a, b);
    lemma_mul_by_equal(a.m22, det_rows(mat_row(b, 3), mat_row(b, 2), comb(a.m31, a.m32, a.m33, a.m34, mat_row(b, 1), mat_row(b, 2), mat_row(b, 3), mat_row(b, 4)), comb(a.m41, a.m42, a.m43, a.m44, mat_row(b, 1), mat_row(b, 2), mat_row(b, 3), mat_row(b, 4))), a.m31 * (a.m44 * (-det_rows(mat_row(b, 1), mat_row(b, 2), mat_row(b, 3), mat_row(b, 4)))) + a.m34 * (a.m41 * det_rows(mat_row(b, 1), mat_row(b, 2), mat_row(b, 3), mat_row(b, 4))));
    lemma_distribute2_left(a.m22, a.m31 * (a.m44 * (-det_rows(mat_row(b, 1), mat_row(b, 2), mat_row(b, 3), mat_row(b, 4)))), a.m34 * (a.m41 * det_rows(mat_row(b, 1), mat_row(b, 2), mat_row(b, 3), mat_row(b, 4))));
    lemma_det_mul_33(a, b);
    lemma_mul_by_zero(a.m23, det_rows(mat_row(b, 3), mat_row(b, 3), comb(a.m31, a.m32, a.m33, a.m34, mat_row(b, 1), mat_row(b, 2), mat_row(b, 3), mat_row(b, 4)), comb(a.m41, a.m42, a.m43, a.m44, mat_row(b, 1), mat_row(b, 2), mat_row(b, 3), mat_row(b, 4))));
    lemma_det_mul_34(a, b);
    lemma_mul_by_equal(a.m24, det_rows(mat_row(b, 3), mat_row(b, 4), comb(a.m31, a.m32, a.m33, a.m34, mat_row(b, 1), mat_row(b, 2), mat_row(b, 3), mat_row(b, 4)), comb(a.m41, a.m42, a.m43, a.m44, mat_row(b, 1), mat_row(b, 2), mat_row(b, 3), mat_row(b, 4))), a.m31 * (a.m42 * det_rows(mat_row(b, 1), mat_row(b, 2), mat_row(b, 3), mat_row(b, 4))) + a.m32 * (a.m41 * (-det_rows(mat_row(b, 1), mat_row(b, 2), mat_row(b, 3), mat_row(b, 4)))));
    lemma_distribute2_left(a.m24, a.m31 * (a.m42 * det_rows(mat_row(b, 1), mat_row(b, 2), mat_row(b, 3), mat_row(b, 4))), a.m32 * (a.m41 * (-det_rows(mat_row(b, 1), mat_row(b, 2), mat_row(b, 3), mat_row(b, 4)))));
}

proof fn lemma_det_mul_4(a: Mat4, b: Mat4)
    ensures
        det_rows(mat_row(b, 4), comb(a.m21, a.m22, a.m23, a.m24, mat_row(b, 1), mat_row(b, 2), mat_row(b, 3), mat_row(b, 4)), comb(a.m31, a.m32, a.m33, a.m34, mat_row(b, 1), mat_row(b, 2), mat_row(b, 3), mat_row(b, 4)), comb(a.m41, a.m42, a.m43, a.m44, mat_row(b, 1), mat_row(b, 2), mat_row(b, 3), mat_row(b, 4))) == a.m21 * (a.m32 * (a.m43 * (-det_rows(mat_row(b, 1), mat_row(b, 2), mat_row(b, 3), mat_row(b, 4))))) + a.m21 * (a.m33 * (a.m42 * det_rows(mat_row(b, 1), mat_row(b, 2), mat_row(b, 3), mat_row(b, 4)))) + a.m22 * (a.m31 * (a.m43 * det_rows(mat_row(b, 1), mat_row(b, 2), mat_row(b, 3), mat_row(b, 4)))) + a.m22 * (a.m33 * (a.m41 * (-det_rows(mat_row(b, 1), mat_row(b, 2), mat_row(b, 3), mat_row(b, 4))))) + a.m23 * (a.m31 * (a.m42 * (-det_rows(mat_row(b, 1), mat_row(b, 2), mat_row(b, 3), mat_row(b, 4))))) + a.m23 * (a.m32 * (a.m41 * det_rows(mat_row(b, 1), mat_row(b, 2), mat_row(b, 3), mat_row(b, 4)))),
{
    lemma_det_rows_linear_2(a.m21, a.m22, a.m23, a.m24, mat_row(b, 1), mat_row(b, 2), mat_row(b, 3), mat_row(b, 4), mat_row(b, 4), comb(a.m31, a.m32, a.m33, a.m34, mat_row(b, 1), mat_row(b, 2), mat_row(b, 3), mat_row(b, 4)), comb(a.m41, a.m42, a.m43, a.m44, mat_row(b, 1), mat_row(b, 2), mat_row(b, 3), mat_row(b, 4)));
    lemma_det_mul_41(a, b);
    lemma_mul_by_equal(a.m21, det_rows(mat_row(b, 4), mat_row(b, 1), comb(a.m31, a.m32, a.m33, a.m34, mat_row(b, 1), mat_row(b, 2), mat_row(b, 3), mat_row(b, 4)), comb(a.m41, a.m42, a.m43, a.m44, mat_row(b, 1), mat_row(b, 2), mat_row(b, 3), mat_row(b, 4))), a.m32 * (a.m43 * (-det_rows(mat_row(b, 1), mat_row(b, 2), mat_row(b, 3), mat_row(b, 4)))) + a.m33 * (a.m42 * det_rows(mat_row(b, 1), mat_row(b, 2), mat_row(b, 3), mat_row(b, 4))));
    lemma_distribute2_left(a.m21, a.m32 * (a.m43 * (-det_rows(mat_row(b, 1), mat_row(b, 2), mat_row(b, 3), mat_row(b, 4)))), a.m33 * (a.m42 * det_rows(mat_row(b, 1), mat_row(b, 2), mat_row(b, 3), mat_row(b, 4))));
    lemma_det_mul_42(a, b);
    lemma_mul_by_equal(a.m22, det_rows(mat_row(b, 4), mat_row(b, 2), comb(a.m31, a.m32, a.m33, a.m34, mat_row(b, 1), mat_row(b, 2), mat_row(b, 3), mat_row(b, 4)), comb(a.m41, a.m42, a.m43, a.m44, mat_row(b, 1), mat_row(b, 2), mat_row(b, 3), mat_row(b, 4))), a.m31 * (a.m43 * det_rows(mat_row(b, 1), mat_row(b, 2), mat_row(b, 3), mat_row(b, 4))) + a.m33 * (a.m41 * (-det_rows(mat_row(b, 1), mat_row(b, 2), mat_row(b, 3), mat_row(b, 4)))));
    lemma_distribute2_left(a.m22, a.m31 * (a.m43 * det_rows(mat_row(b, 1), mat_row(b, 2), mat_row(b, 3), mat_row(b, 4))), a.m33 * (a.m41 * (-det_rows(mat_row(b, 1), mat_row(b, 2), mat_row(b, 3), mat_row(b, 4)))));
    lemma_det_mul_43(a, b);
    lemma_mul_by_equal(a.m23, det_rows(mat_row(b, 4), mat_row(b, 3), comb(a.m31, a.m32, a.m33, a.m34, mat_row(b, 1), mat_row(b, 2), mat_row(b, 3), mat_row(b, 4)), comb(a.m41, a.m42, a.m43, a.m44, mat_row(b, 1), mat_row(b, 2), mat_row(b, 3), mat_row(b, 4))), a.m31 * (a.m42 * (-det_rows(mat_row(b, 1), mat_row(b, 2), mat_row(b, 3), mat_row(b, 4)))) + a.m32 * (a.m41 * det_rows(mat_row(b, 1), mat_row(b, 2), mat_row(b, 3), mat_row(b, 4))));
    lemma_distribute2_left(a.m23, a.m31 * (a.m42 * (-det_rows(mat_row(b, 1), mat_row(b, 2), mat_row(b, 3), mat_row(b, 4)))), a.m32 * (a.m41 * det_rows(mat_row(b, 1), mat_row(b, 2), mat_row(b, 3), mat_row(b, 4))));
    lemma_det_mul_44(a, b);
    lemma_mul_by_zero(a.m24, det_rows(mat_row(b, 4), mat_row(b, 4), comb(a.m31, a.m32, a.m33, a.m34, mat_row(b, 1), mat_row(b, 2), mat_row(b, 3), mat_row(b, 4)), comb(a.m41, a.m42, a.m43, a.m44, mat_row(b, 1), mat_row(b, 2), mat_row(b, 3), mat_row(b, 4))));
}

/// The determinant of a product is the product of the determinants.
pub proof fn lemma_det_mul(a: Mat4, b: Mat4)
    ensures
        mat_det(mat_mul(a, b)) == mat_det(a) * mat_det(b),
{
    lemma_det_rows_linear_1(a.m11, a.m12, a.m13, a.m14, mat_row(b, 1), mat_row(b, 2), mat_row(b, 3), mat_row(b, 4), comb(a.m21, a.m22, a.m23, a.m24, mat_row(b, 1), mat_row(b, 2), mat_row(b, 3), mat_row(b, 4)), comb(a.m31, a.m32, a.m33, a.m34, mat_row(b, 1), mat_row(b, 2), mat_row(b, 3), mat_row(b, 4)), comb(a.m41, a.m42, a.m43, a.m44, mat_row(b, 1), mat_row(b, 2), mat_row(b, 3), mat_row(b, 4)));
    lemma_det_mul_1(a, b);
    lemma_mul_by_equal(a.m11, det_rows(mat_row(b, 1), comb(a.m21, a.m22, a.m23, a.m24, mat_row(b, 1), mat_row(b, 2), mat_row(b, 3), mat_row(b, 4)), comb(a.m31, a.m32, a.m33, a.m34, mat_row(b, 1), mat_row(b, 2), mat_row(b, 3), mat_row(b, 4)), comb(a.m41, a.m42, a.m43, a.m44, mat_row(b, 1), mat_row(b, 2), mat_row(b, 3), mat_row(b, 4))), a.m22 * (a.m33 * (a.m44 * det_rows(mat_row(b, 1), mat_row(b, 2), mat_row(b, 3), mat_row(b, 4)))) + a.m22 * (a.m34 * (a.m43 * (-det_rows(mat_row(b, 1), mat_row(b, 2), mat_row(b, 3), mat_row(b, 4))))) + a.m23 * (a.m32 * (a.m44 * (-det_rows(mat_row(b, 1), mat_row(b, 2), mat_row(b, 3), mat_row(b, 4))))) + a.m23 * (a.m34 * (a.m42 * det_rows(mat_row(b, 1), mat_row(b, 2), mat_row(b, 3), mat_row(b, 4)))) + a.m24 * (a.m32 * (a.m43 * det_rows(mat_row(b, 1), mat_row(b, 2), mat_row(b, 3), mat_row(b, 4)))) + a.m24 * (a.m33 * (a.m42 * (-det_rows(mat_row(b, 1), mat_row(b, 2), mat_row(b, 3), mat_row(b, 4))))));
    lemma_distribute6_left(a.m11, a.m22 * (a.m33 * (a.m44 * det_rows(mat_row(b, 1), mat_row(b, 2), mat_row(b, 3), mat_row(b, 4)))), a.m22 * (a.m34 * (a.m43 * (-det_rows(mat_row(b, 1), mat_row(b, 2), mat_row(b, 3), mat_row(b, 4))))), a.m23 * (a.m32 * (a.m44 * (-det_rows(mat_row(b, 1), mat_row(b, 2), mat_row(b, 3), mat_row(b, 4))))), a.m23 * (a.m34 * (a.m42 * det_rows(mat_row(b, 1), mat_row(b, 2), mat_row(b, 3), mat_row(b, 4)))), a.m24 * (a.m32 * (a.m43 * det_rows(mat_row(b, 1), mat_row(b, 2), mat_row(b, 3), mat_row(b, 4)))), a.m24 * (a.m33 * (a.m42 * (-det_rows(mat_row(b, 1), mat_row(b, 2), mat_row(b, 3), mat_row(b, 4))))));
    lemma_det_mul_2(a, b);
    lemma_mul_by_equal(a.m12, det_rows(mat_row(b, 2), comb(a.m21, a.m22, a.m23, a.m24, mat_row(b, 1), mat_row(b, 2), mat_row(b, 3), mat_row(b, 4)), comb(a.m31, a.m32, a.m33, a.m34, mat_row(b, 1), mat_row(b, 2), mat_row(b, 3), mat_row(b, 4)), comb(a.m41, a.m42, a.m43, a.m44, mat_row(b, 1), mat_row(b, 2), mat_row(b, 3), mat_row(b, 4))), a.m21 * (a.m33 * (a.m44 * (-det_rows(mat_row(b, 1), mat_row(b, 2), mat_row(b, 3), mat_row(b, 4))))) + a.m21 * (a.m34 * (a.m43 * det_rows(mat_row(b, 1), mat_row(b, 2), mat_row(b, 3), mat_row(b, 4)))) + a.m23 * (a.m31 * (a.m44 * det_rows(mat_row(b, 1), mat_row(b, 2), mat_row(b, 3), mat_row(b, 4)))) + a.m23 * (a.m34 * (a.m41 * (-det_rows(mat_row(b, 1), mat_row(b, 2), mat_row(b, 3), mat_row(b, 4))))) + a.m24 * (a.m31 * (a.m43 * (-det_rows(mat_row(b, 1), mat_row(b, 2), mat_row(b, 3), mat_row(b, 4))))) + a.m24 * (a.m33 * (a.m41 * det_rows(mat_row(b, 1), mat_row(b, 2), mat_row(b, 3), mat_row(b, 4)))));
    lemma_distribute6_left(a.m12, a.m21 * (a.m33 * (a.m44 * (-det_rows(mat_row(b, 1), mat_row(b, 2), mat_row(b, 3), mat_row(b, 4))))), a.m21 * (a.m34 * (a.m43 * det_rows(mat_row(b, 1), mat_row(b, 2), mat_row(b, 3), mat_row(b, 4)))), a.m23 * (a.m31 * (a.m44 * det_rows(mat_row(b, 1), mat_row(b, 2), mat_row(b, 3), mat_row(b, 4)))), a.m23 * (a.m34 * (a.m41 * (-det_rows(mat_row(b, 1), mat_row(b, 2), mat_row(b, 3), mat_row(b, 4))))), a.m24 * (a.m31 * (a.m43 * (-det_rows(mat_row(b, 1), mat_row(b, 2), mat_row(b, 3), mat_row(b, 4))))), a.m24 * (a.m33 * (a.m41 * det_rows(mat_row(b, 1), mat_row(b, 2), mat_row(b, 3), mat_row(b, 4)))));
    lemma_det_mul_3(a, b);
    lemma_mul_by_equal(a.m13, det_rows(mat_row(b, 3), comb(a.m21, a.m22, a.m23, a.m24, mat_row(b, 1), mat_row(b, 2), mat_row(b, 3), mat_row(b, 4)), comb(a.m31, a.m32, a.m33, a.m34, mat_row(b, 1), mat_row(b, 2), mat_row(b, 3), mat_row(b, 4)), comb(a.m41, a.m42, a.m43, a.m44, mat_row(b, 1), mat_row(b, 2), mat_row(b, 3), mat_row(b, 4))), a.m21 * (a.m32 * (a.m44 * det_rows(mat_row(b, 1), mat_row(b, 2), mat_row(b, 3), mat_row(b, 4)))) + a.m21 * (a.m34 * (a.m42 * (-det_rows(mat_row(b, 1), mat_row(b, 2), mat_row(b, 3), mat_row(b, 4))))) + a.m22 * (a.m31 * (a.m44 * (-det_rows(mat_row(b, 1), mat_row(b, 2), mat_row(b, 3), mat_row(b, 4))))) + a.m22 * (a.m34 * (a.m41 * det_rows(mat_row(b, 1), mat_row(b, 2), mat_row(b, 3), mat_row(b, 4)))) + a.m24 * (a.m31 * (a.m42 * det_rows(mat_row(b, 1), mat_row(b, 2), mat_row(b, 3), mat_row(b, 4)))) + a.m24 * (a.m32 * (a.m41 * (-det_rows(mat_row(b, 1), mat_row(b, 2), mat_row(b, 3), mat_row(b, 4))))));
    lemma_distribute6_left(a.m13, a.m21 * (a.m32 * (a.m44 * det_rows(mat_row(b, 1), mat_row(b, 2), mat_row(b, 3), mat_row(b, 4)))), a.m21 * (a.m34 * (a.m42 * (-det_rows(mat_row(b, 1), mat_row(b, 2), mat_row(b, 3), mat_row(b, 4))))), a.m22 * (a.m31 * (a.m44 * (-det_rows(mat_row(b, 1), mat_row(b, 2), mat_row(b, 3), mat_row(b, 4))))), a.m22 * (a.m34 * (a.m41 * det_rows(mat_row(b, 1), mat_row(b, 2), mat_row(b, 3), mat_row(b, 4)))), a.m24 * (a.m31 * (a.m42 * det_rows(mat_row(b, 1), mat_row(b, 2), mat_row(b, 3), mat_row(b, 4)))), a.m24 * (a.m32 * (a.m41 * (-det_rows(mat_row(b, 1), mat_row(b, 2), mat_row(b, 3), mat_row(b, 4))))));
    lemma_det_mul_4(a, b);
    lemma_mul_by_equal(a.m14, det_rows(mat_row(b, 4), comb(a.m21, a.m22, a.m23, a.m24, mat_row(b, 1), mat_row(b, 2), mat_row(b, 3), mat_row(b, 4)), comb(a.m31, a.m32, a.m33, a.m34, mat_row(b, 1), mat_row(b, 2), mat_row(b, 3), mat_row(b, 4)), comb(a.m41, a.m42, a.m43, a.m44, mat_row(b, 1), mat_row(b, 2), mat_row(b, 3), mat_row(b, 4))), a.m21 * (a.m32 * (a.m43 * (-det_rows(mat_row(b, 1), mat_row(b, 2), mat_row(b, 3), mat_row(b, 4))))) + a.m21 * (a.m33 * (a.m42 * det_rows(mat_row(b, 1), mat_row(b, 2), mat_row(b, 3), mat_row(b, 4)))) + a.m22 * (a.m31 * (a.m43 * det_rows(mat_row(b, 1), mat_row(b, 2), mat_row(b, 3), mat_row(b, 4)))) + a.m22 * (a.m33 * (a.m41 * (-det_rows(mat_row(b, 1), mat_row(b, 2), mat_row(b, 3), mat_row(b, 4))))) + a.m23 * (a.m31 * (a.m42 * (-det_rows(mat_row(b, 1), mat_row(b, 2), mat_row(b, 3), mat_row(b, 4))))) + a.m23 * (a.m32 * (a.m41 * det_rows(mat_row(b, 1), mat_row(b, 2), mat_row(b, 3), mat_row(b, 4)))));
    lemma_distribute6_left(a.m14, a.m21 * (a.m32 * (a.m43 * (-det_rows(mat_row(b, 1), mat_row(b, 2), mat_row(b, 3), mat_row(b, 4))))), a.m21 * (a.m33 * (a.m42 * det_rows(mat_row(b, 1), mat_row(b, 2), mat_row(b, 3), mat_row(b, 4)))), a.m22 * (a.m31 * (a.m43 * det_rows(mat_row(b, 1), mat_row(b, 2), mat_row(b, 3), mat_row(b, 4)))), a.m22 * (a.m33 * (a.m41 * (-det_rows(mat_row(b, 1), mat_row(b, 2), mat_row(b, 3), mat_row(b, 4))))), a.m23 * (a.m31 * (a.m42 * (-det_rows(mat_row(b, 1), mat_row(b, 2), mat_row(b, 3), mat_row(b, 4))))), a.m23 * (a.m32 * (a.m41 * det_rows(mat_row(b, 1), mat_row(b, 2), mat_row(b, 3), mat_row(b, 4)))));
    assert(mat_det(a) == (a.m14 * a.m23 * a.m32 * a.m41 - a.m13 * a.m24 * a.m32 * a.m41 - a.m14 * a.m22 * a.m33 * a.m41 + a.m12 * a.m24 * a.m33 * a.m41 + a.m13 * a.m22 * a.m34 * a.m41 - a.m12 * a.m23 * a.m34 * a.m41) + (-(a.m14 * a.m23 * a.m31 * a.m42) + a.m13 * a.m24 * a.m31 * a.m42 + a.m14 * a.m21 * a.m33 * a.m42 - a.m11 * a.m24 * a.m33 * a.m42 - a.m13 * a.m21 * a.m34 * a.m42 + a.m11 * a.m23 * a.m34 * a.m42) + (a.m14 * a.m22 * a.m31 * a.m43 - a.m12 * a.m24 * a.m31 * a.m43 - a.m14 * a.m21 * a.m32 * a.m43 + a.m11 * a.m24 * a.m32 * a.m43 + a.m12 * a.m21 * a.m34 * a.m43 - a.m11 * a.m22 * a.m34 * a.m43) + (-(a.m13 * a.m22 * a.m31 * a.m44) + a.m12 * a.m23 * a.m31 * a.m44 + a.m13 * a.m21 * a.m32 * a.m44 - a.m11 * a.m23 * a.m32 * a.m44 - a.m12 * a.m21 * a.m33 * a.m44 + a.m11 * a.m22 * a.m33 * a.m44));
    lemma_distribute4_right(a.m14 * a.m23 * a.m32 * a.m41 - a.m13 * a.m24 * a.m32 * a.m41 - a.m14 * a.m22 * a.m33 * a.m41 + a.m12 * a.m24 * a.m33 * a.m41 + a.m13 * a.m22 * a.m34 * a.m41 - a.m12 * a.m23 * a.m34 * a.m41, -(a.m14 * a.m23 * a.m31 * a.m42) + a.m13 * a.m24 * a.m31 * a.m42 + a.m14 * a.m21 * a.m33 * a.m42 - a.m11 * a.m24 * a.m33 * a.m42 - a.m13 * a.m21 * a.m34 * a.m42 + a.m11 * a.m23 * a.m34 * a.m42, a.m14 * a.m22 * a.m31 * a.m43 - a.m12 * a.m24 * a.m31 * a.m43 - a.m14 * a.m21 * a.m32 * a.m43 + a.m11 * a.m24 * a.m32 * a.m43 + a.m12 * a.m21 * a.m34 * a.m43 - a.m11 * a.m22 * a.m34 * a.m43, -(a.m13 * a.m22 * a.m31 * a.m44) + a.m12 * a.m23 * a.m31 * a.m44 + a.m13 * a.m21 * a.m32 * a.m44 - a.m11 * a.m23 * a.m32 * a.m44 - a.m12 * a.m21 * a.m33 * a.m44 + a.m11 * a.m22 * a.m33 * a.m44, det_rows(mat_row(b, 1), mat_row(b, 2), mat_row(b, 3), mat_row(b, 4)));
    lemma_scale_pmmppm_right(a.m14 * a.m23 * a.m32 * a.m41, a.m13 * a.m24 * a.m32 * a.m41, a.m14 * a.m22 * a.m33 * a.m41, a.m12 * a.m24 * a.m33 * a.m41, a.m13 * a.m22 * a.m34 * a.m41, a.m12 * a.m23 * a.m34 * a.m41, det_rows(mat_row(b, 1), mat_row(b, 2), mat_row(b, 3), mat_row(b, 4)));
    lemma_scale_mppmmp_right(a.m14 * a.m23 * a.m31 * a.m42, a.m13 * a.m24 * a.m31 * a.m42, a.m14 * a.m21 * a.m33 * a.m42, a.m11 * a.m24 * a.m33 * a.m42, a.m13 * a.m21 * a.m34 * a.m42, a.m11 * a.m23 * a.m34 * a.m42, det_rows(mat_row(b, 1), mat_row(b, 2), mat_row(b, 3), mat_row(b, 4)));
    lemma_scale_pmmppm_right(a.m14 * a.m22 * a.m31 * a.m43, a.m12 * a.m24 * a.m31 * a.m43, a.m14 * a.m21 * a.m32 * a.m43, a.m11 * a.m24 * a.m32 * a.m43, a.m12 * a.m21 * a.m34 * a.m43, a.m11 * a.m22 * a.m34 * a.m43, det_rows(mat_row(b, 1), mat_row(b, 2), mat_row(b, 3), mat_row(b, 4)));
    lemma_scale_mppmmp_right(a.m13 * a.m22 * a.m31 * a.m44, a.m12 * a.m23 * a.m31 * a.m44, a.m13 * a.m21 * a.m32 * a.m44, a.m11 * a.m23 * a.m32 * a.m44, a.m12 * a.m21 * a.m33 * a.m44, a.m11 * a.m22 * a.m33 * a.m44, det_rows(mat_row(b, 1), mat_row(b, 2), mat_row(b, 3), mat_row(b, 4)));
    lemma_reassociate4(a.m14, a.m23, a.m32, a.m41, det_rows(mat_row(b, 1), mat_row(b, 2), mat_row(b, 3), mat_row(b, 4)));
    lemma_reassociate4(a.m13, a.m24, a.m32, a.m41, det_rows(mat_row(b, 1), mat_row(b, 2), mat_row(b, 3), mat_row(b, 4)));
    lemma_reassociate4(a.m14, a.m22, a.m33, a.m41, det_rows(mat_row(b, 1), mat_row(b, 2), mat_row(b, 3), mat_row(b, 4)));
    lemma_reassociate4(a.m12, a.m24, a.m33, a.m41, det_rows(mat_row(b, 1), mat_row(b, 2), mat_row(b, 3), mat_row(b, 4)));
    lemma_reassociate4(a.m13, a.m22, a.m34, a.m41, det_rows(mat_row(b, 1), mat_row(b, 2), mat_row(b, 3), mat_row(b, 4)));
    lemma_reassociate4(a.m12, a.m23, a.m34, a.m41, det_rows(mat_row(b, 1), mat_row(b, 2), mat_row(b, 3), mat_row(b, 4)));
    lemma_reassociate4(a.m14, a.m23, a.m31, a.m42, det_rows(mat_row(b, 1), mat_row(b, 2), mat_row(b, 3), mat_row(b, 4)));
    lemma_reassociate4(a.m13, a.m24, a.m31, a.m42, det_rows(mat_row(b, 1), mat_row(b, 2), mat_row(b, 3), mat_row(b, 4)));
    lemma_reassociate4(a.m14, a.m21, a.m33, a.m42, det_rows(mat_row(b, 1), mat_row(b, 2), mat_row(b, 3), mat_row(b, 4)));
    lemma_reassociate4(a.m11, a.m24, a.m33, a.m42, det_rows(mat_row(b, 1), mat_row(b, 2), mat_row(b, 3), mat_row(b, 4)));
    lemma_reassociate4(a.m13, a.m21, a.m34, a.m42, det_rows(mat_row(b, 1), mat_row(b, 2), mat_row(b, 3), mat_row(b, 4)));
    lemma_reassociate4(a.m11, a.m23, a.m34, a.m42, det_rows(mat_row(b, 1), mat_row(b, 2), mat_row(b, 3), mat_row(b, 4)));
    lemma_reassociate4(a.m14, a.m22, a.m31, a.m43, det_rows(mat_row(b, 1), mat_row(b, 2), mat_row(b, 3), mat_row(b, 4)));
    lemma_reassociate4(a.m12, a.m24, a.m31, a.m43, det_rows(mat_row(b, 1), mat_row(b, 2), mat_row(b, 3), mat_row(b, 4)));
    lemma_reassociate4(a.m14, a.m21, a.m32, a.m43, det_rows(mat_row(b, 1), mat_row(b, 2), mat_row(b, 3), mat_row(b, 4)));
    lemma_reassociate4(a.m11, a.m24, a.m32, a.m43, det_rows(mat_row(b, 1), mat_row(b, 2), mat_row(b, 3), mat_row(b, 4)));
    lemma_reassociate4(a.m12, a.m21, a.m34, a.m43, det_rows(mat_row(b, 1), mat_row(b, 2), mat_row(b, 3), mat_row(b, 4)));
    lemma_reassociate4(a.m11, a.m22, a.m34, a.m43, det_rows(mat_row(b, 1), mat_row(b, 2), mat_row(b, 3), mat_row(b, 4)));
    lemma_reassociate4(a.m13, a.m22, a.m31, a.m44, det_rows(mat_row(b, 1), mat_row(b, 2), mat_row(b, 3), mat_row(b, 4)));
    lemma_reassociate4(a.m12, a.m23, a.m31, a.m44, det_rows(mat_row(b, 1), mat_row(b, 2), mat_row(b, 3), mat_row(b, 4)));
    lemma_reassociate4(a.m13, a.m21, a.m32, a.m44, det_rows(mat_row(b, 1), mat_row(b, 2), mat_row(b, 3), mat_row(b, 4)));
    lemma_reassociate4(a.m11, a.m23, a.m32, a.m44, det_rows(mat_row(b, 1), mat_row(b, 2), mat_row(b, 3), mat_row(b, 4)));
    lemma_reassociate4(a.m12, a.m21, a.m33, a.m44, det_rows(mat_row(b, 1), mat_row(b, 2), mat_row(b, 3), mat_row(b, 4)));
    lemma_reassociate4(a.m11, a.m22, a.m33, a.m44, det_rows(mat_row(b, 1), mat_row(b, 2), mat_row(b, 3), mat_row(b, 4)));
    lemma_det_rows_of(b);
    lemma_det_rows_of(mat_mul(a, b));
    assert(mat_row(mat_mul(a, b), 1) == comb(a.m11, a.m12, a.m13, a.m14, mat_row(b, 1), mat_row(b, 2), mat_row(b, 3), mat_row(b, 4)) && mat_row(mat_mul(a, b), 2) == comb(a.m21, a.m22, a.m23, a.m24, mat_row(b, 1), mat_row(b, 2), mat_row(b, 3), mat_row(b, 4)) && mat_row(mat_mul(a, b), 3) == comb(a.m31, a.m32, a.m33, a.m34, mat_row(b, 1), mat_row(b, 2), mat_row(b, 3), mat_row(b, 4)) && mat_row(mat_mul(a, b), 4) == comb(a.m41, a.m42, a.m43, a.m44, mat_row(b, 1), mat_row(b, 2), mat_row(b, 3), mat_row(b, 4)));
}


/// A matrix has an inverse with integer terms only when its determinant is 1
/// or -1, and that inverse is the one `mat_inverse` gives.
pub proof fn lemma_integer_inverse_is_unique(m: Mat4, n: Mat4)
    requires
        mat_mul(n, m) == mat_identity(),
    ensures
        mat_det(m) == 1 || mat_det(m) == -1,
        mat_inverse(m) == Some(n),
{
    lemma_det_mul(n, m);
    lemma_identity_inverse();
    let dn = mat_det(n);
    let dm = mat_det(m);
    assert(dm == 1 || dm == -1) by (nonlinear_arith)
        requires
            dn * dm == 1,
    ;
    lemma_inverse_is_inverse(m);
    let inv = mat_inverse(m)->0;
    lemma_mul_associative(n, m, inv);
    lemma_mul_identity(inv);
    lemma_mul_identity(n);
}


// The terms of the basic constructions, stated term by term.

/// A 2d matrix is one whose terms outside the 2d terms are those of the
/// identity: zero, except `m33` and `m44`, which are 1.
pub proof fn lemma_is_2d_terms(m: Mat4)
    ensures
        mat_is_2d(m) <==> (m.m13 == 0 && m.m14 == 0 && m.m23 == 0 && m.m24 == 0 && m.m31 == 0
            && m.m32 == 0 && m.m34 == 0 && m.m43 == 0 && m.m33 == 1 && m.m44 == 1),
{
}

/// The matrix built from 2d terms holds them in rows 1, 2 and 4, and the
/// identity's terms everywhere else.
pub proof fn lemma_from_2d_terms(m11: int, m12: int, m21: int, m22: int, m41: int, m42: int)
    ensures
        mat_from_2d(m11, m12, m21, m22, m41, m42) == (Mat4 {
            m11: m11, m12: m12, m13: 0, m14: 0,
            m21: m21, m22: m22, m23: 0, m24: 0,
            m31: 0, m32: 0, m33: 1, m34: 0,
            m41: m41, m42: m42, m43: 0, m44: 1,
        }),
{
}

/// A row vector times a matrix: each coordinate is the vector against a
/// column of the matrix.
pub proof fn lemma_vec_mul_terms(v: Vec4, m: Mat4)
    ensures
        vec_mul(v, m).x == v.x * m.m11 + v.y * m.m21 + v.z * m.m31 + v.w * m.m41,
        vec_mul(v, m).y == v.x * m.m12 + v.y * m.m22 + v.z * m.m32 + v.w * m.m42,
        vec_mul(v, m).z == v.x * m.m13 + v.y * m.m23 + v.z * m.m33 + v.w * m.m43,
        vec_mul(v, m).w == v.x * m.m14 + v.y * m.m24 + v.z * m.m34 + v.w * m.m44,
{
}

/// The image of the point `(x, y, z)` is the image of the homogeneous point
/// `(x, y, z, 1)`, for every matrix: its coordinates are the point against
/// the columns, plus the last row.
pub proof fn lemma_point_image_terms(m: Mat4, x: int, y: int, z: int)
    ensures
        point_image(m, x, y, z) == vec_mul(Vec4 { x, y, z, w: 1 }, m),
        point_image(m, x, y, z).x == x * m.m11 + y * m.m21 + z * m.m31 + m.m41,
        point_image(m, x, y, z).y == x * m.m12 + y * m.m22 + z * m.m32 + m.m42,
        point_image(m, x, y, z).z == x * m.m13 + y * m.m23 + z * m.m33 + m.m43,
        point_image(m, x, y, z).w == x * m.m14 + y * m.m24 + z * m.m34 + m.m44,
{
}

/// Scaling a matrix multiplies each of its terms.
pub proof fn lemma_scale_terms(a: Mat4, k: int)
    ensures
        mat_scale(a, k).m11 == a.m11 * k,
        mat_scale(a, k).m12 == a.m12 * k,
        mat_scale(a, k).m13 == a.m13 * k,
        mat_scale(a, k).m14 == a.m14 * k,
        mat_scale(a, k).m21 == a.m21 * k,
        mat_scale(a, k).m22 == a.m22 * k,
        mat_scale(a, k).m23 == a.m23 * k,
        mat_scale(a, k).m24 == a.m24 * k,
        mat_scale(a, k).m31 == a.m31 * k,
        mat_scale(a, k).m32 == a.m32 * k,
        mat_scale(a, k).m33 == a.m33 * k,
        mat_scale(a, k).m34 == a.m34 * k,
        mat_scale(a, k).m41 == a.m41 * k,
        mat_scale(a, k).m42 == a.m42 * k,
        mat_scale(a, k).m43 == a.m43 * k,
        mat_scale(a, k).m44 == a.m44 * k,
{
}

/// The model of an `i64` matrix holds its terms.
pub proof fn lemma_matrix_view_terms<Src, Dst>(m: TypedMatrix4D<i64, Src, Dst>)
    ensures
        m@.m11 == m.m11 as int,
        m@.m12 == m.m12 as int,
        m@.m13 == m.m13 as int,
        m@.m14 == m.m14 as int,
        m@.m21 == m.m21 as int,
        m@.m22 == m.m22 as int,
        m@.m23 == m.m23 as int,
        m@.m24 == m.m24 as int,
        m@.m31 == m.m31 as int,
        m@.m32 == m.m32 as int,
        m@.m33 == m.m33 as int,
        m@.m34 == m.m34 as int,
        m@.m41 == m.m41 as int,
        m@.m42 == m.m42 as int,
        m@.m43 == m.m43 as int,
        m@.m44 == m.m44 as int,
{
}

/// The model of an `i64` homogeneous point holds its coordinates.
pub proof fn lemma_point_view_terms<U>(p: TypedPoint4D<i64, U>)
    ensures
        p@.x == p.x as int,
        p@.y == p.y as int,
        p@.z == p.z as int,
        p@.w == p.w as int,
{
}

/// The terms in row-major order, row after row.
pub proof fn lemma_row_major_entries_terms<T, Src, Dst>(m: TypedMatrix4D<T, Src, Dst>)
    ensures
        m.row_major_entries().len() == 16,
        m.row_major_entries()[0] == m.m11,
        m.row_major_entries()[1] == m.m12,
        m.row_major_entries()[2] == m.m13,
        m.row_major_entries()[3] == m.m14,
        m.row_major_entries()[4] == m.m21,
        m.row_major_entries()[5] == m.m22,
        m.row_major_entries()[6] == m.m23,
        m.row_major_entries()[7] == m.m24,
        m.row_major_entries()[8] == m.m31,
        m.row_major_entries()[9] == m.m32,
        m.row_major_entries()[10] == m.m33,
        m.row_major_entries()[11] == m.m34,
        m.row_major_entries()[12] == m.m41,
        m.row_major_entries()[13] == m.m42,
        m.row_major_entries()[14] == m.m43,
        m.row_major_entries()[15] == m.m44,
{
}

/// The terms in column-major order, column after column.
pub proof fn lemma_column_major_entries_terms<T, Src, Dst>(m: TypedMatrix4D<T, Src, Dst>)
    ensures
        m.column_major_entries().len() == 16,
        m.column_major_entries()[0] == m.m11,
        m.column_major_entries()[1] == m.m21,
        m.column_major_entries()[2] == m.m31,
        m.column_major_entries()[3] == m.m41,
        m.column_major_entries()[4] == m.m12,
        m.column_major_entries()[5] == m.m22,
        m.column_major_entries()[6] == m.m32,
        m.column_major_entries()[7] == m.m42,
        m.column_major_entries()[8] == m.m13,
        m.column_major_entries()[9] == m.m23,
        m.column_major_entries()[10] == m.m33,
        m.column_major_entries()[11] == m.m43,
        m.column_major_entries()[12] == m.m14,
        m.column_major_entries()[13] == m.m24,
        m.column_major_entries()[14] == m.m34,
        m.column_major_entries()[15] == m.m44,
{
}

} // verus!
