use ray_tracer::matrix::{Inverse, Matrix2, Matrix3, Matrix4, Transpose};
use ray_tracer::scalar::Scalar;
use ray_tracer::tuple::Point;

fn s(v: f64) -> Scalar {
    Scalar::from_raw((v * 4294967296.0).round() as i64)
}

fn f(x: Scalar) -> f64 {
    (x.raw as f64) / 4294967296.0
}

fn m4(rows: [[f64; 4]; 4]) -> Matrix4 {
    Matrix4::new((
        (s(rows[0][0]), s(rows[0][1]), s(rows[0][2]), s(rows[0][3])),
        (s(rows[1][0]), s(rows[1][1]), s(rows[1][2]), s(rows[1][3])),
        (s(rows[2][0]), s(rows[2][1]), s(rows[2][2]), s(rows[2][3])),
        (s(rows[3][0]), s(rows[3][1]), s(rows[3][2]), s(rows[3][3])),
    ))
}

fn m3(rows: [[f64; 3]; 3]) -> Matrix3 {
    Matrix3::new((
        (s(rows[0][0]), s(rows[0][1]), s(rows[0][2])),
        (s(rows[1][0]), s(rows[1][1]), s(rows[1][2])),
        (s(rows[2][0]), s(rows[2][1]), s(rows[2][2])),
    ))
}

fn m2(rows: [[f64; 2]; 2]) -> Matrix2 {
    Matrix2::new(((s(rows[0][0]), s(rows[0][1])), (s(rows[1][0]), s(rows[1][1]))))
}

fn assert_matrix_close(a: Matrix4, b: Matrix4) {
    for i in 0..4 {
        for j in 0..4 {
            let av = f(a.at(i, j));
            let bv = f(b.at(i, j));
            assert!((av - bv).abs() < 1e-5, "entry ({}, {}): {} differs from {}", i, j, av, bv);
        }
    }
}

#[test]
fn test_constructor_4_by_4() {
    let matrix1 = m4([
        [1.0, 2.0, 3.0, 4.0],
        [5.5, 6.5, 7.5, 8.5],
        [9.0, 10.0, 11.0, 12.0],
        [13.5, 14.5, 15.5, 16.5],
    ]);
    assert_eq!(matrix1.at(0, 0), s(1.0));
    assert_eq!(matrix1.at(0, 1), s(2.0));
    assert_eq!(matrix1.at(0, 2), s(3.0));
    assert_eq!(matrix1.at(0, 3), s(4.0));

    assert_eq!(matrix1.at(1, 0), s(5.5));
    assert_eq!(matrix1.at(1, 1), s(6.5));
    assert_eq!(matrix1.at(1, 2), s(7.5));
    assert_eq!(matrix1.at(1, 3), s(8.5));

    assert_eq!(matrix1.at(2, 0), s(9.0));
    assert_eq!(matrix1.at(2, 1), s(10.0));
    assert_eq!(matrix1.at(2, 2), s(11.0));
    assert_eq!(matrix1.at(2, 3), s(12.0));

    assert_eq!(matrix1.at(3, 0), s(13.5));
    assert_eq!(matrix1.at(3, 1), s(14.5));
    assert_eq!(matrix1.at(3, 2), s(15.5));
    assert_eq!(matrix1.at(3, 3), s(16.5));
}

#[test]
fn test_constructor_3_by_3() {
    let matrix1 = m3([[1.0, 2.0, 3.0], [5.5, 6.5, 7.5], [9.0, 10.0, 11.0]]);
    assert_eq!(matrix1.at(0, 0), s(1.0));
    assert_eq!(matrix1.at(0, 1), s(2.0));
    assert_eq!(matrix1.at(0, 2), s(3.0));

    assert_eq!(matrix1.at(1, 0), s(5.5));
    assert_eq!(matrix1.at(1, 1), s(6.5));
    assert_eq!(matrix1.at(1, 2), s(7.5));

    assert_eq!(matrix1.at(2, 0), s(9.0));
    assert_eq!(matrix1.at(2, 1), s(10.0));
    assert_eq!(matrix1.at(2, 2), s(11.0));
}

#[test]
fn test_constructor_2_by_2() {
    let matrix1 = m2([[1.0, 2.0], [5.5, 6.5]]);
    assert_eq!(matrix1.m00, s(1.0));
    assert_eq!(matrix1.m01, s(2.0));

    assert_eq!(matrix1.m10, s(5.5));
    assert_eq!(matrix1.m11, s(6.5));
}

#[test]
fn test_4_by_4_eq() {
    let matrix1 = m4([
        [1.0, 2.0, 3.0, 4.0],
        [5.0, 6.0, 7.0, 8.0],
        [9.0, 8.0, 7.0, 6.0],
        [5.0, 4.0, 3.0, 2.0],
    ]);
    let matrix2 = m4([
        [1.0, 2.0, 3.0, 4.0],
        [5.0, 6.0, 7.0, 8.0],
        [9.0, 8.0, 7.0, 6.0],
        [5.0, 4.0, 3.0, 2.0],
    ]);

    assert_eq!(matrix1, matrix2);
}

#[test]
fn test_4_by_4_ne() {
    let matrix1 = m4([
        [1.0, 2.0, 3.0, 4.0],
        [5.0, 6.0, 7.0, 8.0],
        [9.0, 8.0, 7.0, 6.0],
        [5.0, 4.0, 3.0, 2.0],
    ]);
    let matrix2 = m4([
        [2.0, 3.0, 4.0, 5.0],
        [6.0, 7.0, 8.0, 9.0],
        [8.0, 7.0, 6.0, 5.0],
        [4.0, 3.0, 2.0, 1.0],
    ]);

    assert_ne!(matrix1, matrix2);
}

#[test]
fn test_3_by_3_eq() {
    let matrix1 = m3([[1.0, 2.0, 3.0], [5.0, 6.0, 7.0], [9.0, 8.0, 7.0]]);
    let matrix2 = m3([[1.0, 2.0, 3.0], [5.0, 6.0, 7.0], [9.0, 8.0, 7.0]]);

    assert_eq!(matrix1, matrix2);
}

#[test]
fn test_3_by_3_ne() {
    let matrix1 = m3([[1.0, 2.0, 3.0], [5.0, 6.0, 7.0], [9.0, 8.0, 7.0]]);
    let matrix2 = m3([[2.0, 3.0, 4.0], [6.0, 7.0, 8.0], [8.0, 7.0, 6.0]]);

    assert_ne!(matrix1, matrix2);
}

#[test]
fn test_2_by_2_eq() {
    let matrix1 = m2([[1.0, 2.0], [5.0, 6.0]]);
    let matrix2 = m2([[1.0, 2.0], [5.0, 6.0]]);

    assert_eq!(matrix1, matrix2);
}

#[test]
fn test_2_by_2_ne() {
    let matrix1 = m2([[1.0, 2.0], [5.0, 6.0]]);
    let matrix2 = m2([[2.0, 3.0], [6.0, 7.0]]);

    assert_ne!(matrix1, matrix2);
}

#[test]
fn test_matrix_multiplication() {
    let matrix1 = m4([
        [1.0, 2.0, 3.0, 4.0],
        [5.0, 6.0, 7.0, 8.0],
        [9.0, 8.0, 7.0, 6.0],
        [5.0, 4.0, 3.0, 2.0],
    ]);
    let matrix2 = m4([
        [-2.0, 1.0, 2.0, 3.0],
        [3.0, 2.0, 1.0, -1.0],
        [4.0, 3.0, 6.0, 5.0],
        [1.0, 2.0, 7.0, 8.0],
    ]);

    let matrix3 = matrix1.multiply(&matrix2);

    assert_eq!(
        matrix3,
        m4([
            [20.0, 22.0, 50.0, 48.0],
            [44.0, 54.0, 114.0, 108.0],
            [40.0, 58.0, 110.0, 102.0],
            [16.0, 26.0, 46.0, 42.0],
        ])
    );
}

#[test]
fn test_tuple_multiplication() {
    let matrix1 = m4([
        [1.0, 2.0, 3.0, 4.0],
        [2.0, 4.0, 4.0, 2.0],
        [8.0, 6.0, 4.0, 1.0],
        [0.0, 0.0, 0.0, 1.0],
    ]);
    let tuple1 = Point { x: s(1.0), y: s(2.0), z: s(3.0), w: s(1.0) };

    let result: Point = matrix1.mul_point(tuple1);

    assert_eq!(result, Point { x: s(18.0), y: s(24.0), z: s(33.0), w: s(1.0) });
}

#[test]
fn test_identity_matrix() {
    let matrix1 = m4([
        [0.0, 1.0, 2.0, 3.0],
        [1.0, 2.0, 4.0, 8.0],
        [2.0, 4.0, 8.0, 16.0],
        [4.0, 8.0, 16.0, 32.0],
    ]);

    let result = matrix1.multiply(&Matrix4::identity());

    assert_eq!(
        result,
        m4([
            [0.0, 1.0, 2.0, 3.0],
            [1.0, 2.0, 4.0, 8.0],
            [2.0, 4.0, 8.0, 16.0],
            [4.0, 8.0, 16.0, 32.0],
        ])
    );
}

#[test]
fn identity_times_matrix_returns_it_exactly() {
    let matrix1 = m4([
        [0.125, -1.75, 2.5, 3.0],
        [1.0, 0.0625, 4.0, -8.25],
        [2.5, 4.125, -8.0, 16.5],
        [4.75, 8.0, 16.25, -32.0],
    ]);

    assert_eq!(Matrix4::identity().multiply(&matrix1), matrix1);
    assert_eq!(matrix1.multiply(&Matrix4::identity()), matrix1);
}

#[test]
fn the_empty_matrix_is_all_zeros() {
    let empty = Matrix4::empty();
    for i in 0..4 {
        for j in 0..4 {
            assert_eq!(empty.at(i, j), s(0.0));
        }
    }
}

#[test]
fn test_transpose_4_by_4() {
    let matrix1 = m4([
        [0.0, 9.0, 3.0, 0.0],
        [9.0, 8.0, 0.0, 8.0],
        [1.0, 8.0, 5.0, 3.0],
        [0.0, 0.0, 5.0, 8.0],
    ]);

    let result = matrix1.transpose();

    assert_eq!(
        result,
        m4([
            [0.0, 9.0, 1.0, 0.0],
            [9.0, 8.0, 8.0, 0.0],
            [3.0, 0.0, 5.0, 5.0],
            [0.0, 8.0, 3.0, 8.0],
        ])
    );
}

#[test]
fn test_transpose_identity_matrix() {
    assert_eq!(Matrix4::identity().transpose(), Matrix4::identity());
}

#[test]
fn test_determinant_of_2_by_2() {
    let matrix1 = m2([[1.0, 5.0], [-3.0, 2.0]]);

    assert_eq!(s(17.0), matrix1.determinant());
}

#[test]
fn test_submatrix_of_3_by_3() {
    let matrix1 = m3([[1.0, 5.0, 0.0], [-3.0, 2.0, 7.0], [0.0, 6.0, -3.0]]);
    let expected = m2([[-3.0, 2.0], [0.0, 6.0]]);

    assert_eq!(expected, matrix1.submatrix(0, 2));
}

#[test]
fn test_submatrix_of_4_by_4() {
    let matrix1 = m4([
        [-6.0, 1.0, 1.0, 6.0],
        [-8.0, 5.0, 8.0, 6.0],
        [-1.0, 0.0, 8.0, 2.0],
        [-7.0, 1.0, -1.0, 1.0],
    ]);
    let expected = m3([[-6.0, 1.0, 6.0], [-8.0, 8.0, 6.0], [-7.0, -1.0, 1.0]]);

    assert_eq!(expected, matrix1.submatrix(2, 1));
}

#[test]
fn test_minor_of_3_by_3() {
    let matrix1 = m3([[3.0, 5.0, 0.0], [2.0, -1.0, -7.0], [6.0, -1.0, 5.0]]);
    let matrix2 = matrix1.submatrix(1, 0);

    assert_eq!(s(25.0), matrix2.determinant());
    assert_eq!(s(25.0), matrix1.minor(1, 0));
}

#[test]
fn test_confactor_of_a_3_by_3() {
    let matrix1 = m3([[3.0, 5.0, 0.0], [2.0, -1.0, -7.0], [6.0, -1.0, 5.0]]);

    assert_eq!(s(-12.0), matrix1.minor(0, 0));
    assert_eq!(s(-12.0), matrix1.cofactor(0, 0));
    assert_eq!(s(25.0), matrix1.minor(1, 0));
    assert_eq!(s(-25.0), matrix1.cofactor(1, 0));
}

#[test]
fn test_cofactor_of_a_4_by_4() {
    let matrix1 = m4([
        [-2.0, -8.0, 3.0, 5.0],
        [-3.0, 1.0, 7.0, 3.0],
        [1.0, 2.0, -9.0, 6.0],
        [-6.0, 7.0, 7.0, -9.0],
    ]);

    assert_eq!(s(690.0), matrix1.cofactor(0, 0));
    assert_eq!(s(447.0), matrix1.cofactor(0, 1));
    assert_eq!(s(210.0), matrix1.cofactor(0, 2));
    assert_eq!(s(51.0), matrix1.cofactor(0, 3));
}

#[test]
fn test_determinant_of_a_3_by_3() {
    let matrix1 = m3([[1.0, 2.0, 6.0], [-5.0, 8.0, -4.0], [2.0, 6.0, 4.0]]);

    assert_eq!(s(56.0), matrix1.cofactor(0, 0));
    assert_eq!(s(12.0), matrix1.cofactor(0, 1));
    assert_eq!(s(-46.0), matrix1.cofactor(0, 2));
    assert_eq!(s(-196.0), matrix1.determinant());
}

#[test]
fn test_determinant_of_a_4_by_4() {
    let matrix1 = m4([
        [-2.0, -8.0, 3.0, 5.0],
        [-3.0, 1.0, 7.0, 3.0],
        [1.0, 2.0, -9.0, 6.0],
        [-6.0, 7.0, 7.0, -9.0],
    ]);

    assert_eq!(s(-4071.0), matrix1.determinant());
}

#[test]
fn test_is_invertible_of_invertible_4_by_4() {
    let matrix1 = m4([
        [6.0, 4.0, 4.0, 4.0],
        [5.0, 5.0, 7.0, 6.0],
        [4.0, -9.0, 3.0, -7.0],
        [9.0, 1.0, 7.0, -6.0],
    ]);

    assert_eq!(s(-2120.0), matrix1.determinant());
    assert_eq!(true, matrix1.is_invertible());
}

#[test]
fn test_is_invertible_of_non_invertible_4_by_4() {
    let matrix1 = m4([
        [-4.0, 2.0, -2.0, -3.0],
        [9.0, 6.0, 2.0, 6.0],
        [0.0, -5.0, 1.0, -5.0],
        [0.0, 0.0, 0.0, 0.0],
    ]);

    assert_eq!(s(0.0), matrix1.determinant());
    assert_eq!(false, matrix1.is_invertible());
}

#[test]
fn test_inverse_of_4_by_4() {
    let matrix1 = m4([
        [-5.0, 2.0, 6.0, -8.0],
        [1.0, -5.0, 1.0, 8.0],
        [7.0, 7.0, -6.0, -7.0],
        [1.0, -3.0, 7.0, 4.0],
    ]);

    let inverse = matrix1.inverse().unwrap();

    assert_eq!(s(532.0), matrix1.determinant());
    assert_eq!(s(-160.0), matrix1.cofactor(2, 3));
    assert!((f(inverse.m32) - (-160.0 / 532.0)).abs() < 1e-5);

    assert_eq!(s(105.0), matrix1.cofactor(3, 2));
    assert!((f(inverse.m23) - (105.0 / 532.0)).abs() < 1e-5);
    let expected = m4([
        [0.21805, 0.45113, 0.24060, -0.04511],
        [-0.80827, -1.45677, -0.44361, 0.52068],
        [-0.0789475, -0.22368, -0.05263, 0.19737],
        [-0.52256, -0.81391, -0.30075, 0.30639],
    ]);
    assert_matrix_close(expected, inverse);
}

#[test]
fn test_inverse_of_another_4_by_4() {
    let matrix1 = m4([
        [8.0, -5.0, 9.0, 2.0],
        [7.0, 5.0, 6.0, 1.0],
        [-6.0, 0.0, 9.0, 6.0],
        [-3.0, 0.0, -9.0, -4.0],
    ]);

    let inverse = matrix1.inverse().unwrap();

    let expected = m4([
        [-0.15385, -0.15385, -0.28205, -0.53846],
        [-0.07692, 0.12308, 0.02564, 0.03077],
        [0.35897, 0.35897, 0.43590, 0.92308],
        [-0.6923, -0.6923, -0.76923, -1.92308],
    ]);
    assert_matrix_close(expected, inverse);
}

#[test]
fn test_inverse_of_a_third_4_by_4() {
    let matrix1 = m4([
        [9.0, 3.0, 0.0, 9.0],
        [-5.0, -2.0, -6.0, -3.0],
        [-4.0, 9.0, 6.0, 4.0],
        [-7.0, 6.0, 6.0, 2.0],
    ]);

    let inverse = matrix1.inverse().unwrap();

    let expected = m4([
        [-0.04074, -0.07778, 0.14444, -0.22222],
        [-0.07778, 0.03333, 0.36667, -0.33333],
        [-0.02901, -0.14630, -0.10926, 0.12963],
        [0.17778, 0.06667, -0.26667, 0.33333],
    ]);
    assert_matrix_close(expected, inverse);
}

#[test]
fn test_non_invertable_returns_error() {
    let matrix1 = m4([
        [-4.0, 2.0, -2.0, -3.0],
        [9.0, 6.0, 2.0, 6.0],
        [0.0, -5.0, 1.0, -5.0],
        [0.0, 0.0, 0.0, 0.0],
    ]);
    let uninvertable_error = matrix1.inverse();

    assert_eq!(uninvertable_error, None);
}

#[test]
fn test_multiply_a_product_by_its_inverse() {
    let matrix1 = m4([
        [3.0, -9.0, 7.0, 3.0],
        [3.0, -8.0, 2.0, -9.0],
        [-4.0, 4.0, 4.0, 1.0],
        [-6.0, 5.0, -1.0, 1.0],
    ]);
    let matrix2 = m4([
        [8.0, 2.0, 2.0, 2.0],
        [3.0, -1.0, 7.0, 0.0],
        [7.0, 0.0, 5.0, 4.0],
        [6.0, -2.0, 0.0, 5.0],
    ]);

    let product = matrix1.multiply(&matrix2);
    let product_times_inverse = product.multiply(&matrix2.inverse().unwrap());
    assert_matrix_close(product_times_inverse, matrix1);
}

#[test]
fn inverse_times_matrix_approximates_the_identity() {
    let samples = [
        m4([
            [-5.0, 2.0, 6.0, -8.0],
            [1.0, -5.0, 1.0, 8.0],
            [7.0, 7.0, -6.0, -7.0],
            [1.0, -3.0, 7.0, 4.0],
        ]),
        m4([
            [8.0, -5.0, 9.0, 2.0],
            [7.0, 5.0, 6.0, 1.0],
            [-6.0, 0.0, 9.0, 6.0],
            [-3.0, 0.0, -9.0, -4.0],
        ]),
        m4([
            [9.0, 3.0, 0.0, 9.0],
            [-5.0, -2.0, -6.0, -3.0],
            [-4.0, 9.0, 6.0, 4.0],
            [-7.0, 6.0, 6.0, 2.0],
        ]),
    ];
    for matrix in samples {
        let inverse = matrix.inverse().unwrap();
        assert_matrix_close(inverse.multiply(&matrix), Matrix4::identity());
    }
}
