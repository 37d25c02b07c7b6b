//! Matrix algebra: identity laws, construction, exact products, and
//! rotation applied to points.

use affine3d::fixed::ONE;
use affine3d::matrix::{
    identity, matrix_mult, rotate_around_x, rotate_around_y, rotate_around_z, scale, translate,
    Matrix,
};
use affine3d::point::{transform, Point};

fn assert_matrix_eq(a: &Matrix, b: &Matrix) {
    assert_eq!(a.m, b.m);
}

#[test]
fn multiply_identity_on_the_left_returns_the_matrix() {
    let m = Matrix {
        m: [
            2 * ONE, 3, -7, ONE,
            0, ONE / 2, 9, -4 * ONE,
            11, 0, ONE, 123_456,
            0, 0, 0, ONE,
        ],
    };
    let r = matrix_mult(&identity(), &m);
    assert_matrix_eq(&r, &m);
}

#[test]
fn multiply_identity_on_the_right_returns_the_matrix() {
    let m = Matrix {
        m: [
            -ONE, 250_000, 0, 42,
            ONE, -ONE, 17, 0,
            0, 5, 3 * ONE, -9,
            0, 0, 0, ONE,
        ],
    };
    let r = matrix_mult(&m, &identity());
    assert_matrix_eq(&r, &m);
}

#[test]
fn zero_rotations_unit_scale_and_zero_translation_are_identity() {
    // The sine and cosine of the zero angle are 0 and ONE.
    let rx = rotate_around_x(&identity(), 0, ONE);
    let ry = rotate_around_y(&identity(), 0, ONE);
    let rz = rotate_around_z(&identity(), 0, ONE);
    let sc = scale(&identity(), ONE, ONE, ONE);
    let tr = translate(&identity(), 0, 0, 0);
    assert_matrix_eq(&rx, &identity());
    assert_matrix_eq(&ry, &identity());
    assert_matrix_eq(&rz, &identity());
    assert_matrix_eq(&sc, &identity());
    assert_matrix_eq(&tr, &identity());
}

#[test]
fn translate_times_scale_has_the_expected_coefficients() {
    let a = translate(&identity(), ONE, 2 * ONE, 3 * ONE);
    let b = scale(&identity(), 2 * ONE, 3 * ONE, 4 * ONE);
    let p = matrix_mult(&a, &b);
    assert_eq!(
        p.m,
        [
            2_000_000, 0, 0, 1_000_000,
            0, 3_000_000, 0, 2_000_000,
            0, 0, 4_000_000, 3_000_000,
            0, 0, 0, 1_000_000,
        ]
    );
}

#[test]
fn rotate_z_quarter_turn_sends_x_axis_to_y_axis() {
    // sin 90 = 1.0, cos 90 = 0.0: the quarter turn is exact in fixed point.
    let m = rotate_around_z(&identity(), ONE, 0);
    let p = Point { num: 7, x: ONE, y: 0, z: 0 };
    let r = transform(&m, p);
    assert_eq!(r.num, 7);
    assert_eq!((r.x, r.y, r.z), (0, ONE, 0));
}

#[test]
fn rotate_z_full_turn_returns_points_unchanged() {
    // sin 360 = 0.0, cos 360 = 1.0.
    let m = rotate_around_z(&identity(), 0, ONE);
    let p = Point { num: 1, x: 123_456, y: -9_876_543, z: 42 };
    let r = transform(&m, p);
    assert_eq!((r.x, r.y, r.z), (p.x, p.y, p.z));
}

#[test]
fn rotation_matrices_compose_in_the_documented_convention() {
    // Rotate a quarter turn about X, then a quarter turn about Z:
    // matrix_mult(rz, rx) applies the X rotation first.
    let rx = rotate_around_x(&identity(), ONE, 0);
    let m = rotate_around_z(&rx, ONE, 0);
    // (0, 1, 0) -> about X -> (0, 0, 1) -> about Z -> (0, 0, 1)
    let p = Point { num: 0, x: 0, y: ONE, z: 0 };
    let r = transform(&m, p);
    assert_eq!((r.x, r.y, r.z), (0, 0, ONE));
    // (1, 0, 0) -> about X -> (1, 0, 0) -> about Z -> (0, 1, 0)
    let q = Point { num: 0, x: ONE, y: 0, z: 0 };
    let r2 = transform(&m, q);
    assert_eq!((r2.x, r2.y, r2.z), (0, ONE, 0));
}

#[test]
fn coefficient_limit_check_accepts_small_and_rejects_large() {
    assert!(identity().fits_coef_limit());
    let big = Matrix {
        m: [
            i64::MAX, 0, 0, 0,
            0, ONE, 0, 0,
            0, 0, ONE, 0,
            0, 0, 0, ONE,
        ],
    };
    assert!(!big.fits_coef_limit());
}
