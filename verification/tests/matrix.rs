use approx::ApproxEq;
use raytracer::matrix::{perspective_accepts, select_pivot, HALF_TURN_DEGREES_BITS};
use raytracer::scalar::Scalar;

fn s(x: f32) -> Scalar {
    Scalar::from_bits(x.to_bits())
}

fn column(entries: [f32; 4]) -> [Scalar; 4] {
    [s(entries[0]), s(entries[1]), s(entries[2]), s(entries[3])]
}

/// Gauss-Jordan elimination on a 4x8 augmented matrix, as a caller runs it:
/// the arithmetic here, the choice of pivot and the verdict that the matrix
/// is singular by the library.
fn inverse(m: [[f32; 4]; 4]) -> Option<[[f32; 4]; 4]> {
    let mut aug = [[0.0f32; 8]; 4];
    for i in 0..4 {
        for j in 0..4 {
            aug[i][j] = m[i][j];
        }
        aug[i][i + 4] = 1.0;
    }
    for k in 0..4 {
        let col = column([aug[0][k], aug[1][k], aug[2][k], aug[3][k]]);
        let i_max = select_pivot(&col, k)?;
        if i_max != k {
            aug.swap(i_max, k);
        }
        let normalizer = aug[k][k];
        for idx in 0..8 {
            aug[k][idx] = aug[k][idx] / normalizer;
        }
        for i in (k + 1)..4 {
            let f = aug[i][k];
            for j in (k + 1)..8 {
                aug[i][j] = aug[i][j] - aug[k][j] * f;
            }
            aug[i][k] = 0.0;
        }
    }
    for i in 1..4 {
        for j in 0..i {
            if aug[j][i] != 0.0 {
                let f = aug[j][i] / aug[i][i];
                for k in i..8 {
                    aug[j][k] = aug[j][k] - aug[i][k] * f;
                }
            }
        }
    }
    let mut inv = [[0.0f32; 4]; 4];
    for i in 0..4 {
        for j in 0..4 {
            inv[i][j] = aug[i][j + 4];
        }
    }
    Some(inv)
}

fn product(a: [[f32; 4]; 4], b: [[f32; 4]; 4]) -> [[f32; 4]; 4] {
    let mut c = [[0.0f32; 4]; 4];
    for i in 0..4 {
        for j in 0..4 {
            c[i][j] = a[i][0] * b[0][j] + a[i][1] * b[1][j] + a[i][2] * b[2][j] + a[i][3] * b[3][j];
        }
    }
    c
}

fn identity() -> [[f32; 4]; 4] {
    [[1.0, 0.0, 0.0, 0.0], [0.0, 1.0, 0.0, 0.0], [0.0, 0.0, 1.0, 0.0], [0.0, 0.0, 0.0, 1.0]]
}

fn scale(x: f32, y: f32, z: f32) -> [[f32; 4]; 4] {
    [[x, 0.0, 0.0, 0.0], [0.0, y, 0.0, 0.0], [0.0, 0.0, z, 0.0], [0.0, 0.0, 0.0, 1.0]]
}

fn translate(x: f32, y: f32, z: f32) -> [[f32; 4]; 4] {
    [[1.0, 0.0, 0.0, x], [0.0, 1.0, 0.0, y], [0.0, 0.0, 1.0, z], [0.0, 0.0, 0.0, 1.0]]
}

/// A perspective matrix, built as a caller does: the entries by
/// arithmetic, the verdict on the parameters by the library.
fn perspective(near: f32, far: f32, fov_degrees: f32) -> [[f32; 4]; 4] {
    assert!(perspective_accepts(s(near), s(far), s(fov_degrees)));
    let inv_tan_half_fov = 1.0 / ((fov_degrees.to_radians() / 2.0).tan());
    [
        [inv_tan_half_fov, 0.0, 0.0, 0.0],
        [0.0, inv_tan_half_fov, 0.0, 0.0],
        [0.0, 0.0, far / (far - near), -(far * near) / (far - near)],
        [0.0, 0.0, 1.0, 0.0],
    ]
}

fn transform(m: [[f32; 4]; 4], p: [f32; 3]) -> [f32; 3] {
    let r = [
        m[0][0] * p[0] + m[0][1] * p[1] + m[0][2] * p[2] + m[0][3] * 1.0,
        m[1][0] * p[0] + m[1][1] * p[1] + m[1][2] * p[2] + m[1][3] * 1.0,
        m[2][0] * p[0] + m[2][1] * p[1] + m[2][2] * p[2] + m[2][3] * 1.0,
    ];
    let w = m[3][0] * p[0] + m[3][1] * p[1] + m[3][2] * p[2] + m[3][3];
    [1.0 / w * r[0], 1.0 / w * r[1], 1.0 / w * r[2]]
}

fn relative_eq(a: f32, b: f32) -> bool {
    a.relative_eq(&b, f32::default_epsilon(), f32::default_max_relative())
}

fn assert_relative_eq(a: f32, b: f32) {
    assert!(relative_eq(a, b), "{} is not relatively equal to {}", a, b);
}

fn assert_matrix_relative_eq(a: [[f32; 4]; 4], b: [[f32; 4]; 4]) {
    for i in 0..4 {
        for j in 0..4 {
            assert!(relative_eq(a[i][j], b[i][j]), "{:?} is not relatively equal to {:?}", a, b);
        }
    }
}

fn assert_close(a: [[f32; 4]; 4], b: [[f32; 4]; 4]) {
    for i in 0..4 {
        for j in 0..4 {
            assert!((a[i][j] - b[i][j]).abs() < 1e-6, "{:?} is not {:?}", a, b);
        }
    }
}

#[test]
fn test_identity() {
    let p = [1.0, 2.0, 3.0];
    let m = identity();
    let m_inv = inverse(m).unwrap();
    let same_point = transform(m, p);
    assert_relative_eq(same_point[0], p[0]);
    assert_relative_eq(same_point[1], p[1]);
    assert_relative_eq(same_point[2], p[2]);
    assert_matrix_relative_eq(m_inv, m);
    assert_matrix_relative_eq(product(m_inv, m), product(m, m_inv));
}

#[test]
fn test_inverse_translate() {
    let p = [1.0, 2.0, 3.0];
    let m = translate(7.0, 8.0, 9.0);
    let m_inv = inverse(m).unwrap();
    let translated = transform(product(m_inv, m), p);
    assert_relative_eq(translated[0], p[0]);
    assert_relative_eq(translated[1], p[1]);
    assert_relative_eq(translated[2], p[2]);
}

#[test]
#[should_panic]
fn test_perspective_near_closer_than_far() {
    perspective(100.0, 10.0, 45.0_f32);
}

#[test]
#[should_panic]
fn test_perspective_near_greater_than_0() {
    perspective(-100.0, 10.0, 45.0_f32);
}

#[test]
#[should_panic]
fn test_perspective_fov_less_than_180() {
    perspective(0.0, 100.0, 190.0_f32);
}

#[test]
fn test_perspective_frustrum_points() {
    let near = 10.0;
    let far = 100.0;
    let p = perspective(near, far, 60.0_f32);

    let center_near = [0.0, 0.0, near];
    let center_far = [0.0, 0.0, far];

    assert_relative_eq(transform(p, center_near)[2], 0.0);
    assert_relative_eq(transform(p, center_far)[2], 1.0);
}

#[test]
fn test_inverse() {
    let m = product(scale(2.5, 4.0, 8.0), translate(1.0, 3.0, 5.0));
    let m_inv = inverse(m).unwrap();
    assert_matrix_relative_eq(product(m, m_inv), identity());
    assert_matrix_relative_eq(product(m_inv, m), identity());

    let zero_matrix = [[0.0; 4]; 4];
    assert!(inverse(zero_matrix).is_none());
}

#[test]
fn translating_there_and_back_returns_the_point() {
    for (x, y, z) in [(7.0f32, 8.0f32, 9.0f32), (-0.5, 12.25, 1000.0), (0.0, 0.0, 0.0)] {
        let p = [1.0, 2.0, 3.0];
        let back = transform(translate(-x, -y, -z), transform(translate(x, y, z), p));
        for i in 0..3 {
            assert!((back[i] - p[i]).abs() < 1e-6);
        }
        let inv = inverse(translate(x, y, z)).unwrap();
        assert_close(inv, translate(-x, -y, -z));
    }
}

#[test]
fn inverse_needs_a_row_swap() {
    let m = [[0.0, 1.0, 0.0, 0.0], [1.0, 0.0, 0.0, 0.0], [0.0, 0.0, 0.0, 2.0], [0.0, 0.0, 4.0, 0.0]];
    let m_inv = inverse(m).unwrap();
    assert_close(product(m, m_inv), identity());
    assert_close(product(m_inv, m), identity());
}

#[test]
fn matrix_with_dependent_rows_has_no_inverse() {
    let m = [[1.0, 2.0, 3.0, 4.0], [2.0, 4.0, 6.0, 8.0], [0.0, 0.0, 1.0, 0.0], [0.0, 0.0, 0.0, 1.0]];
    assert!(inverse(m).is_none());
}

#[test]
fn zero_column_has_no_pivot() {
    assert_eq!(select_pivot(&column([0.0, 0.0, 0.0, 0.0]), 0), None);
    assert_eq!(select_pivot(&column([0.0, -0.0, 0.0, -0.0]), 1), None);
    assert_eq!(select_pivot(&column([5.0, 0.0, 0.0, 0.0]), 1), None);
    assert_eq!(select_pivot(&column([5.0, 7.0, 9.0, 0.0]), 3), None);
}

#[test]
fn pivot_is_the_entry_farthest_from_zero() {
    assert_eq!(select_pivot(&column([1.0, 3.0, 2.0, 0.5]), 0), Some(1));
    assert_eq!(select_pivot(&column([1.0, 3.0, -7.0, 0.5]), 0), Some(2));
    assert_eq!(select_pivot(&column([1.0, 3.0, -7.0, 8.0]), 0), Some(3));
    assert_eq!(select_pivot(&column([9.0, 3.0, -7.0, 8.0]), 0), Some(0));
    assert_eq!(select_pivot(&column([0.0, 0.0, 1e-45, 0.0]), 0), Some(2));
}

#[test]
fn pivot_is_sought_from_the_start_row_on() {
    assert_eq!(select_pivot(&column([9.0, 3.0, -7.0, 8.0]), 1), Some(3));
    assert_eq!(select_pivot(&column([9.0, 3.0, -7.0, 1.0]), 2), Some(2));
    assert_eq!(select_pivot(&column([9.0, 3.0, -7.0, 1.0]), 3), Some(3));
}

#[test]
fn first_of_equally_far_entries_is_the_pivot() {
    assert_eq!(select_pivot(&column([2.0, -2.0, 2.0, 1.0]), 0), Some(0));
    assert_eq!(select_pivot(&column([1.0, -2.0, 2.0, -2.0]), 0), Some(1));
}

#[test]
fn entry_that_is_no_number_is_passed_over_unless_it_comes_first() {
    assert_eq!(select_pivot(&column([1.0, f32::NAN, 2.0, 0.0]), 0), Some(2));
    assert_eq!(select_pivot(&column([f32::NAN, 5.0, 2.0, 0.0]), 0), Some(0));
    assert_eq!(select_pivot(&column([0.0, f32::NAN, 0.0, 0.0]), 0), None);
}

#[test]
fn pivot_works_on_columns_of_any_height() {
    assert_eq!(select_pivot(&[s(0.0)], 0), None);
    assert_eq!(select_pivot(&[s(-4.0)], 0), Some(0));
    assert_eq!(select_pivot(&[s(1.0), s(2.0), s(3.0), s(4.0), s(-5.0), s(4.5)], 2), Some(4));
}

#[test]
fn perspective_accepts_an_ordinary_view_volume() {
    assert_eq!(HALF_TURN_DEGREES_BITS, 180.0f32.to_bits());
    assert!(perspective_accepts(s(10.0), s(100.0), s(60.0)));
    assert!(perspective_accepts(s(0.0), s(100.0), s(45.0)));
    assert!(perspective_accepts(s(1.0), s(1000.0), s(90.0)));
    assert!(perspective_accepts(s(1.0), s(1000.0), s(179.9)));
}

#[test]
fn perspective_refuses_a_far_plane_before_the_near_plane() {
    assert!(!perspective_accepts(s(100.0), s(10.0), s(45.0)));
    assert!(!perspective_accepts(s(10.0), s(10.0), s(45.0)));
}

#[test]
fn perspective_refuses_a_negative_near_plane() {
    assert!(!perspective_accepts(s(-100.0), s(10.0), s(45.0)));
}

#[test]
fn perspective_refuses_a_field_of_view_outside_a_half_turn() {
    assert!(!perspective_accepts(s(0.0), s(100.0), s(190.0)));
    assert!(!perspective_accepts(s(0.0), s(100.0), s(180.0)));
    assert!(!perspective_accepts(s(0.0), s(100.0), s(0.0)));
    assert!(!perspective_accepts(s(0.0), s(100.0), s(-45.0)));
    assert!(!perspective_accepts(s(0.0), s(100.0), s(f32::NAN)));
}
