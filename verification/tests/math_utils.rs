//! Matrix predicates, helpers, and exactness of the scalar operations as
//! they reach the public surface.

use chronophoton::math::{frobenius_norm, identity, is_hermitian, is_unitary, trace};
use chronophoton::matrix::CMatrix;
use num_complex::Complex64;

fn c(re: f64, im: f64) -> Complex64 {
    Complex64::new(re, im)
}

#[test]
fn test_is_hermitian() {
    // Pauli X matrix.
    let pauli_x = CMatrix::from_rows(vec![
        vec![c(0.0, 0.0), c(1.0, 0.0)],
        vec![c(1.0, 0.0), c(0.0, 0.0)],
    ])
    .unwrap();

    assert!(is_hermitian(&pauli_x, c(1e-10, 0.0)));
}

#[test]
fn asymmetric_matrix_is_not_hermitian() {
    let m = CMatrix::from_rows(vec![
        vec![c(0.0, 0.0), c(1.0, 0.0)],
        vec![c(0.5, 0.0), c(0.0, 0.0)],
    ])
    .unwrap();
    assert!(!is_hermitian(&m, c(1e-10, 0.0)));

    let complex_diag = CMatrix::from_rows(vec![vec![c(0.0, 1.0)]]).unwrap();
    assert!(!is_hermitian(&complex_diag, c(1e-10, 0.0)));
}

#[test]
fn test_trace() {
    let matrix = CMatrix::from_rows(vec![
        vec![c(1.0, 0.0), c(0.0, 0.0), c(0.0, 0.0)],
        vec![c(0.0, 0.0), c(2.0, 0.0), c(0.0, 0.0)],
        vec![c(0.0, 0.0), c(0.0, 0.0), c(3.0, 0.0)],
    ])
    .unwrap();

    let tr = trace(&matrix);
    assert_eq!(tr.re, 6.0);
    assert_eq!(tr.im, 0.0);
}

#[test]
fn test_identity() {
    let id = identity(3);
    assert!(is_unitary(&id, c(1e-10, 0.0)));
    let tr = trace(&id);
    assert_eq!(tr.re, 3.0);
}

#[test]
fn scaled_rotation_is_not_unitary() {
    let m = CMatrix::from_rows(vec![
        vec![c(2.0, 0.0), c(0.0, 0.0)],
        vec![c(0.0, 0.0), c(2.0, 0.0)],
    ])
    .unwrap();
    assert!(!is_unitary(&m, c(1e-10, 0.0)));
}

#[test]
fn frobenius_norm_matches_float_formula() {
    let m = CMatrix::from_rows(vec![
        vec![c(1.0, 2.0), c(0.5, 0.0)],
        vec![c(0.0, -0.25), c(3.0, 0.0)],
    ])
    .unwrap();
    let expected = (1.0f64 * 1.0 + 2.0 * 2.0 + 0.5 * 0.5 + 0.25 * 0.25 + 3.0 * 3.0).sqrt();
    assert_eq!(frobenius_norm(&m).re, expected);
}

#[test]
fn matrix_arithmetic_is_exact() {
    let a = CMatrix::from_rows(vec![vec![c(2.0, 1.0)]]).unwrap();
    let b = CMatrix::from_rows(vec![vec![c(3.0, -0.5)]]).unwrap();

    let sum = a.plus(&b);
    assert_eq!(sum.at(0, 0), c(2.0, 1.0) + c(3.0, -0.5));

    let difference = a.minus(&b);
    assert_eq!(difference.at(0, 0), c(2.0, 1.0) - c(3.0, -0.5));

    let product = a.times(&b);
    assert_eq!(product.at(0, 0), c(2.0, 1.0) * c(3.0, -0.5));

    let scaled = a.scaled(c(4.0, 0.0));
    assert_eq!(scaled.at(0, 0), c(8.0, 4.0));

    // a * b^dagger multiplies by the conjugate of b.
    let a_bdag = a.times_dagger(&b);
    assert_eq!(a_bdag.at(0, 0), c(2.0, 1.0) * c(3.0, -0.5).conj());

    // a^dagger * b conjugates a.
    let adag_b = a.dagger_times(&b);
    assert_eq!(adag_b.at(0, 0), c(2.0, 1.0).conj() * c(3.0, -0.5));
}

#[test]
fn matrix_product_accumulates_rows_and_columns() {
    let a = CMatrix::from_rows(vec![
        vec![c(1.0, 0.0), c(2.0, 0.0)],
        vec![c(3.0, 0.0), c(4.0, 0.0)],
    ])
    .unwrap();
    let b = CMatrix::from_rows(vec![
        vec![c(5.0, 0.0), c(6.0, 0.0)],
        vec![c(7.0, 0.0), c(8.0, 0.0)],
    ])
    .unwrap();
    let p = a.times(&b);
    assert_eq!(p.at(0, 0).re, 19.0);
    assert_eq!(p.at(0, 1).re, 22.0);
    assert_eq!(p.at(1, 0).re, 43.0);
    assert_eq!(p.at(1, 1).re, 50.0);
}
