//! Pure states, density matrices and their validated invariants.

use chronophoton::matrix::CMatrix;
use chronophoton::state::{DensityMatrix, QuantumState};
use chronophoton::Error;
use num_complex::Complex64;

fn c(re: f64, im: f64) -> Complex64 {
    Complex64::new(re, im)
}

#[test]
fn test_ground_state() {
    let psi = QuantumState::ground_state(3);
    assert_eq!(psi.dim(), 3);
    assert_eq!(psi.data()[0].norm_sqr(), 1.0);
    assert_eq!(psi.data()[1].norm_sqr(), 0.0);
}

#[test]
fn test_density_matrix_from_pure_state() {
    let psi = QuantumState::ground_state(2);
    let rho = psi.to_density_matrix();

    assert_eq!(rho.data().at(0, 0).re, 1.0);
    assert_eq!(rho.data().at(1, 1).re, 0.0);
    assert!((rho.purity().re - 1.0).abs() < 1e-12);
}

#[test]
fn test_maximally_mixed() {
    let rho = DensityMatrix::maximally_mixed(2);
    assert!((rho.purity().re - 0.5).abs() < 1e-12);
}

#[test]
fn maximally_mixed_purity_is_inverse_dimension() {
    for d in 1..6usize {
        let rho = DensityMatrix::maximally_mixed(d);
        assert_eq!(rho.dim(), d);
        assert!((rho.purity().re - 1.0 / d as f64).abs() < 1e-12);
    }
}

#[test]
fn validated_state_accepts_normalized_and_rejects_other() {
    let ok = QuantumState::new(vec![c(0.6, 0.0), c(0.0, 0.8)]);
    assert!(ok.is_ok());
    assert_eq!(ok.unwrap().dim(), 2);

    let bad = QuantumState::new(vec![c(0.6, 0.0), c(0.0, 0.9)]);
    assert!(matches!(bad, Err(Error::InvalidParameter(_))));
}

#[test]
fn random_state_is_normalized() {
    let psi = QuantumState::random(5);
    assert_eq!(psi.dim(), 5);
    let norm_sqr: f64 = psi.data().iter().map(|x| x.norm_sqr()).sum();
    assert!((norm_sqr - 1.0).abs() < 1e-10);
}

#[test]
fn non_hermitian_matrix_fails_validated_construction() {
    let data = CMatrix::from_rows(vec![
        vec![c(0.5, 0.0), c(0.3, 0.0)],
        vec![c(0.1, 0.0), c(0.5, 0.0)],
    ])
    .unwrap();
    let result = DensityMatrix::new(data);
    assert!(matches!(result, Err(Error::InvalidParameter(_))));
}

#[test]
fn non_unit_trace_matrix_fails_validated_construction() {
    let data = CMatrix::from_rows(vec![
        vec![c(0.9, 0.0), c(0.0, 0.0)],
        vec![c(0.0, 0.0), c(0.3, 0.0)],
    ])
    .unwrap();
    let result = DensityMatrix::new(data);
    assert!(matches!(result, Err(Error::InvalidParameter(_))));
}

#[test]
fn valid_density_matrix_is_accepted() {
    let data = CMatrix::from_rows(vec![
        vec![c(0.5, 0.0), c(0.1, 0.2)],
        vec![c(0.1, -0.2), c(0.5, 0.0)],
    ])
    .unwrap();
    let rho = DensityMatrix::new(data).unwrap();
    assert_eq!(rho.dim(), 2);
    assert_eq!(rho.data().at(0, 1).im, 0.2);
}

#[test]
fn ragged_rows_fail_matrix_construction() {
    let result = CMatrix::from_rows(vec![vec![c(1.0, 0.0)], vec![c(0.0, 0.0)], vec![]]);
    assert!(matches!(result, Err(Error::DimensionMismatch { .. })));
}

#[test]
fn data_mut_exposes_stored_matrix() {
    let mut rho = DensityMatrix::maximally_mixed(2);
    {
        let m = rho.data_mut();
        m.rows[0][1] = c(0.25, 0.0);
    }
    assert_eq!(rho.data().at(0, 1).re, 0.25);
    assert_eq!(rho.data().at(0, 0).re, 0.5);
}

#[test]
fn von_neumann_entropy_is_unsupported() {
    let rho = DensityMatrix::maximally_mixed(2);
    assert!(matches!(
        rho.von_neumann_entropy(),
        Err(Error::NotImplemented(_))
    ));
}
