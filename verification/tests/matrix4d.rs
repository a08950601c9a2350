use euclid::{Matrix4D, Point2D, Point3D, Point4D, ScaleFactor, TypedMatrix4D, UnknownUnit};

type Mi = Matrix4D<i64>;

#[test]
pub fn test_row_major_2d() {
    let m1 = Mi::row_major_2d(1, 2, 3, 4, 5, 6);
    let m2 = Mi::row_major(
        1, 2, 0, 0,
        3, 4, 0, 0,
        0, 0, 1, 0,
        5, 6, 0, 1,
    );
    assert_eq!(m1, m2);
}

#[test]
pub fn test_inverse_simple() {
    let m1 = Mi::identity();
    let m2 = m1.inverse().unwrap();
    assert!(m1.approx_eq(&m2));
}

#[test]
pub fn test_inverse_transform_point_2d() {
    let m1 = Mi::create_translation(100, 200, 0);
    let m2 = m1.inverse().unwrap();
    assert!(m1.pre_mul(&m2).approx_eq(&Mi::identity()));

    let p1 = Point2D::new(1000, 2000);
    let p2 = m1.transform_point(&p1);
    assert!(p2.eq(&Point2D::new(1100, 2200)));

    let p3 = m2.transform_point(&p2);
    assert!(p3.eq(&p1));
}

#[test]
pub fn test_pre_post() {
    let m1 = Mi::identity().post_scaled(1, 2, 3).post_translated(1, 2, 3);
    let m2 = Mi::identity().pre_translated(1, 2, 3).pre_scaled(1, 2, 3);
    assert!(m1.approx_eq(&m2));
}

fn sample() -> Mi {
    Mi::row_major(
        1, 2, 3, 4,
        5, 6, 7, 8,
        9, 10, 11, 12,
        13, 14, 15, 16,
    )
}

#[test]
fn column_major_is_the_transpose_of_row_major() {
    let c = Mi::column_major(
        1, 2, 3, 4,
        5, 6, 7, 8,
        9, 10, 11, 12,
        13, 14, 15, 16,
    );
    let r = Mi::row_major(
        1, 5, 9, 13,
        2, 6, 10, 14,
        3, 7, 11, 15,
        4, 8, 12, 16,
    );
    assert_eq!(c, r);
    // The translation terms are the 4th, 8th and 12th column-major parameters.
    let t = Mi::column_major(
        1, 0, 0, 7,
        0, 1, 0, 8,
        0, 0, 1, 9,
        0, 0, 0, 1,
    );
    assert_eq!(t, Mi::create_translation(7, 8, 9));
}

#[test]
fn arrays_list_the_terms() {
    let m = sample();
    assert_eq!(m.to_row_major_array(), [1, 2, 3, 4, 5, 6, 7, 8, 9, 10, 11, 12, 13, 14, 15, 16]);
    assert_eq!(m.to_column_major_array(), [1, 5, 9, 13, 2, 6, 10, 14, 3, 7, 11, 15, 4, 8, 12, 16]);
    assert_eq!(m.to_row_arrays(), [[1, 2, 3, 4], [5, 6, 7, 8], [9, 10, 11, 12], [13, 14, 15, 16]]);
    assert_eq!(m.to_column_arrays(), [[1, 5, 9, 13], [2, 6, 10, 14], [3, 7, 11, 15], [4, 8, 12, 16]]);
    let a = m.to_row_major_array();
    let back = Mi::row_major(
        a[0], a[1], a[2], a[3], a[4], a[5], a[6], a[7],
        a[8], a[9], a[10], a[11], a[12], a[13], a[14], a[15],
    );
    assert_eq!(back, m);
}

#[test]
fn units_change_and_terms_stay() {
    struct Screen;
    let m = sample();
    let d: TypedMatrix4D<i64, UnknownUnit, Screen> = m.with_destination::<Screen>();
    let s: TypedMatrix4D<i64, Screen, UnknownUnit> = m.with_source::<Screen>();
    assert_eq!(d.to_row_major_array(), m.to_row_major_array());
    assert_eq!(s.to_row_major_array(), m.to_row_major_array());
}

#[test]
fn post_mul_multiplies_rows_by_columns() {
    let a = sample();
    let b = Mi::row_major(
        2, 0, 0, 0,
        0, 3, 0, 0,
        0, 0, 4, 0,
        1, 1, 1, 1,
    );
    let p = a.post_mul(&b);
    let expected = Mi::row_major(
        6, 10, 16, 4,
        18, 26, 36, 8,
        30, 42, 56, 12,
        42, 58, 76, 16,
    );
    assert_eq!(p, expected);
    assert_eq!(b.pre_mul(&a), expected);
    assert!(!a.approx_eq(&b));
}

#[test]
fn product_is_associative_and_identity_is_neutral() {
    let a = sample();
    let b = Mi::create_translation(1, -2, 3);
    let c = Mi::row_major(0, 1, 0, 0, -1, 0, 0, 0, 0, 0, 1, 0, 0, 0, 0, 1);
    assert_eq!(a.post_mul(&b).post_mul(&c), a.post_mul(&b.post_mul(&c)));
    assert_eq!(Mi::identity().post_mul(&a), a);
    assert_eq!(a.post_mul(&Mi::identity()), a);
}

#[test]
fn determinant_values() {
    assert_eq!(sample().determinant(), 0);
    assert_eq!(Mi::identity().determinant(), 1);
    assert_eq!(Mi::create_scale(2, 3, 4).determinant(), 24);
    assert_eq!(Mi::create_translation(5, 6, 7).determinant(), 1);
    let m = Mi::row_major(2, 0, 0, 0, 0, 1, 3, 0, 0, 0, 1, 0, 0, 0, 0, -1);
    assert_eq!(m.determinant(), -2);
}

#[test]
fn determinant_of_product_and_transpose() {
    let a = Mi::row_major(2, 1, 0, 0, 1, 3, 0, 1, 0, 0, 1, 0, 4, 0, 2, 1);
    let b = Mi::row_major(1, 0, 2, 0, 0, 1, 0, 0, 3, 0, 1, 1, 0, 2, 0, 1);
    assert_eq!(a.post_mul(&b).determinant(), a.determinant() * b.determinant());
    let c = Mi::column_major(2, 1, 0, 0, 1, 3, 0, 1, 0, 0, 1, 0, 4, 0, 2, 1);
    assert_eq!(c.determinant(), a.determinant());
    assert_eq!(a.determinant(), 9);
    assert_eq!(b.determinant(), -5);
}

#[test]
fn inverse_of_singular_is_none() {
    assert!(sample().inverse().is_none());
    assert!(Mi::create_scale(0, 1, 1).inverse().is_none());
}

#[test]
fn inverse_of_unimodular_is_exact() {
    let m = Mi::row_major(
        1, 2, 0, 0,
        0, 1, 0, 0,
        0, 0, -1, 0,
        3, 4, 5, 1,
    );
    assert_eq!(m.determinant(), -1);
    let inv = m.inverse().unwrap();
    assert!(inv.post_mul(&m).approx_eq(&Mi::identity()));
    assert!(m.post_mul(&inv).approx_eq(&Mi::identity()));
    let t = Mi::create_translation(-50, 7, 12);
    assert_eq!(t.inverse().unwrap(), Mi::create_translation(50, -7, -12));
}

#[test]
fn inverse_without_integer_terms_is_none() {
    // Scale by (2, 4, 1), then translate by (6, 8, 0): the determinant is 8,
    // and the inverse has the terms 1/2 and 1/4.
    let m = Mi::row_major(
        2, 0, 0, 0,
        0, 4, 0, 0,
        0, 0, 1, 0,
        6, 8, 0, 1,
    );
    assert_eq!(m.determinant(), 8);
    assert!(m.inverse().is_none());
    assert!(Mi::create_scale(2, 1, 1).inverse().is_none());
    assert!(Mi::create_scale(-1, 1, 1).inverse().is_some());
}

#[test]
fn mul_s_scales_every_term() {
    let m = sample().mul_s(-2);
    assert_eq!(m.to_row_major_array(), [-2, -4, -6, -8, -10, -12, -14, -16, -18, -20, -22, -24, -26, -28, -30, -32]);
}

#[test]
fn transform_points() {
    let m = sample();
    let p = m.transform_point4d(&Point4D::new(1, 1, 1, 7));
    assert_eq!(p, Point4D::new(106, 116, 126, 136));
    let h = m.transform_point4d(&Point4D::new(1, 1, 1, 1));
    assert_eq!(h, Point4D::new(28, 32, 36, 40));
    let q = m.transform_point3d(&Point3D::new(1, 0, -1));
    assert_eq!(q, Point3D::new(5, 6, 7));
    let r = m.transform_point(&Point2D::new(2, 3));
    assert_eq!(r, Point2D::new(30, 36));
}

#[test]
fn composed_transform_applies_first_then_second() {
    let a = Mi::create_translation(1, 2, 3);
    let b = Mi::create_scale(2, 3, 4);
    let p = Point3D::new(5, 6, 7);
    let direct = a.post_mul(&b).transform_point3d(&p);
    let stepwise = b.transform_point3d(&a.transform_point3d(&p));
    assert_eq!(direct, stepwise);
    assert_eq!(direct, Point3D::new(12, 24, 40));
}

#[test]
fn translations_and_scales() {
    let m = Mi::create_scale(2, 3, 4).pre_translated(1, 1, 1);
    assert_eq!(m, Mi::create_translation(1, 1, 1).post_mul(&Mi::create_scale(2, 3, 4)));
    let n = Mi::create_scale(2, 3, 4).post_translated(1, 1, 1);
    assert_eq!(n, Mi::create_scale(2, 3, 4).post_mul(&Mi::create_translation(1, 1, 1)));
    let s = Mi::from_scale_factor(ScaleFactor::new(5));
    assert_eq!(s, Mi::create_scale(5, 5, 5));
}

#[test]
fn pre_scaled_applies_the_scale_first() {
    let m = sample().pre_scaled(2, 3, 4);
    assert_eq!(m.to_row_major_array(), [2, 4, 6, 8, 15, 18, 21, 24, 36, 40, 44, 48, 13, 14, 15, 16]);
    assert_eq!(m, sample().pre_mul(&Mi::create_scale(2, 3, 4)));
    let t = Mi::create_translation(1, 2, 3);
    assert_eq!(t.pre_scaled(2, 3, 4), Mi::create_scale(2, 3, 4).post_mul(&t));
}

#[test]
fn two_dimensional_matrices() {
    let m = Mi::row_major_2d(1, 2, 3, 4, 5, 6);
    assert!(m.is_2d());
    let m2 = m.to_2d();
    assert_eq!((m2.m11, m2.m12, m2.m21, m2.m22, m2.m31, m2.m32), (1, 2, 3, 4, 5, 6));
    assert_eq!(Mi::row_major_2d(m2.m11, m2.m12, m2.m21, m2.m22, m2.m31, m2.m32), m);
    assert!(Mi::identity().is_2d());
    assert!(!Mi::create_translation(0, 0, 1).is_2d());
    assert!(!Mi::create_scale(1, 1, 2).is_2d());
    assert!(!sample().is_2d());
}

