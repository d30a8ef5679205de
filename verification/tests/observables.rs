//! Observables and expectation values.

use chronophoton::matrix::CMatrix;
use chronophoton::observables::{
    CoherenceOperator, MatrixObservable, NumberOperator, Observable, PopulationOperator,
};
use chronophoton::state::QuantumState;
use chronophoton::Error;
use num_complex::Complex64;

fn c(re: f64, im: f64) -> Complex64 {
    Complex64::new(re, im)
}

#[test]
fn test_population_operator() {
    let pop = PopulationOperator::new(2, 0).unwrap();
    let ground = QuantumState::ground_state(2);

    let exp_val = pop.expectation_pure(&ground);
    assert_eq!(exp_val.re, 1.0);
    assert_eq!(exp_val.im, 0.0);
}

#[test]
fn test_number_operator() {
    let num_op = NumberOperator::new(3);
    let ground = QuantumState::ground_state(3);

    let exp_val = num_op.expectation_pure(&ground);
    assert_eq!(exp_val.re, 0.0);
}

#[test]
fn number_operator_counts_excited_level() {
    let num_op = NumberOperator::new(3);
    let excited = QuantumState::new(vec![c(0.0, 0.0), c(0.0, 0.0), c(1.0, 0.0)]).unwrap();
    let exp_val = num_op.expectation_pure(&excited);
    assert_eq!(exp_val.re, 2.0);
}

#[test]
fn population_projector_rejects_out_of_bounds_level() {
    assert!(matches!(
        PopulationOperator::new(3, 3),
        Err(Error::InvalidParameter(_))
    ));
    assert!(matches!(
        PopulationOperator::new(3, 7),
        Err(Error::InvalidParameter(_))
    ));
    assert!(PopulationOperator::new(3, 2).is_ok());
}

#[test]
fn coherence_projector_rejects_out_of_bounds_indices() {
    assert!(matches!(
        CoherenceOperator::new(3, 3, 0),
        Err(Error::InvalidParameter(_))
    ));
    assert!(matches!(
        CoherenceOperator::new(3, 0, 3),
        Err(Error::InvalidParameter(_))
    ));
    assert!(CoherenceOperator::new(3, 2, 1).is_ok());
}

#[test]
fn coherence_projector_reads_one_entry() {
    let coherence = CoherenceOperator::new(2, 0, 1).unwrap();
    let psi = QuantumState::new(vec![
        c(0.5f64.sqrt(), 0.0),
        c(0.5f64.sqrt(), 0.0),
    ])
    .unwrap();
    // <psi| |0><1| |psi> = conj(psi_0) * psi_1 = 0.5.
    let exp_val = coherence.expectation_pure(&psi);
    assert!((exp_val.re - 0.5).abs() < 1e-12);
}

#[test]
fn mixed_expectation_matches_trace_formula() {
    let num_op = NumberOperator::new(2);
    let rho = chronophoton::state::DensityMatrix::maximally_mixed(2);
    let exp_val = num_op.expectation_mixed(&rho);
    assert!((exp_val.re - 0.5).abs() < 1e-12);
    assert_eq!(exp_val.im, 0.0);
}

#[test]
fn matrix_observable_wraps_caller_matrix() {
    let m = CMatrix::from_rows(vec![
        vec![c(2.0, 0.0), c(0.0, 0.0)],
        vec![c(0.0, 0.0), c(7.0, 0.0)],
    ])
    .unwrap();
    let obs = MatrixObservable::new(m);
    assert_eq!(obs.dim(), 2);
    assert_eq!(obs.matrix().at(1, 1).re, 7.0);
    let ground = QuantumState::ground_state(2);
    assert_eq!(obs.expectation_pure(&ground).re, 2.0);
}
