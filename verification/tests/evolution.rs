//! The unitary integrator and the Lindblad solver.

use chronophoton::hamiltonian::TimeIndependentHamiltonian;
use chronophoton::integrator::{create_integrator, Integrator, IntegratorType, RK4Integrator};
use chronophoton::lindblad::{LindbladOperator, LindbladSolver};
use chronophoton::math;
use chronophoton::matrix::CMatrix;
use chronophoton::state::{DensityMatrix, QuantumState};
use chronophoton::systems::DrivenTLS;
use chronophoton::Error;
use num_complex::Complex64;

fn c(re: f64, im: f64) -> Complex64 {
    Complex64::new(re, im)
}

fn pauli_x() -> CMatrix {
    CMatrix::from_rows(vec![
        vec![c(0.0, 0.0), c(1.0, 0.0)],
        vec![c(1.0, 0.0), c(0.0, 0.0)],
    ])
    .unwrap()
}

fn norm_sqr(state: &QuantumState) -> f64 {
    state.data().iter().map(|x| x.norm_sqr()).sum()
}

#[test]
fn test_rk4_conserves_norm() {
    let hamiltonian = TimeIndependentHamiltonian::new(pauli_x());
    let mut state = QuantumState::ground_state(2);

    let integrator = RK4Integrator::new();
    integrator
        .step(&hamiltonian, &mut state, c(0.0, 0.0), c(0.01, 0.0))
        .unwrap();

    assert!((norm_sqr(&state) - 1.0).abs() < 1e-10);
}

#[test]
fn norm_stays_within_tolerance_over_many_steps() {
    // A time-independent Hermitian Hamiltonian, ten thousand fourth-order
    // steps of size 0.01: the squared norm stays within 1e-8 of one.
    let hamiltonian = TimeIndependentHamiltonian::new(pauli_x());
    let mut state = QuantumState::ground_state(2);
    let integrator = RK4Integrator::new();
    let dt = c(0.01, 0.0);
    for k in 0..10_000u32 {
        let t = c(k as f64 * 0.01, 0.0);
        integrator.step(&hamiltonian, &mut state, t, dt).unwrap();
        assert!((norm_sqr(&state) - 1.0).abs() < 1e-8);
    }
}

#[test]
fn periodic_hamiltonian_norm_stays_within_tolerance() {
    let hamiltonian = DrivenTLS::new(c(5.0, 0.0), c(5.0, 0.0), c(0.5, 0.0));
    let mut state = QuantumState::ground_state(2);
    let integrator = RK4Integrator::new();
    let dt = c(0.01, 0.0);
    for k in 0..10_000u32 {
        let t = c(k as f64 * 0.01, 0.0);
        integrator.step(&hamiltonian, &mut state, t, dt).unwrap();
        assert!((norm_sqr(&state) - 1.0).abs() < 1e-8);
    }
}

#[test]
fn rk4_step_matches_hand_computation_exactly() {
    // One step recomputed by hand with the same complex operations in the
    // same order: the integrator's state must match it bit for bit.
    let h = pauli_x();
    let hamiltonian = TimeIndependentHamiltonian::new(h.duplicate());
    let mut state = QuantumState::ground_state(2);
    let integrator = RK4Integrator::new();
    let dt = 0.01f64;
    integrator
        .step(&hamiltonian, &mut state, c(0.0, 0.0), c(dt, 0.0))
        .unwrap();

    let minus_i = -Complex64::new(0.0, 1.0);
    let apply = |psi: &[Complex64; 2]| -> [Complex64; 2] {
        let mut out = [c(0.0, 0.0); 2];
        for row in 0..2 {
            let mut sum = c(0.0, 0.0);
            for col in 0..2 {
                sum = sum + h.at(row, col) * psi[col];
            }
            out[row] = minus_i * sum;
        }
        out
    };
    let axpy = |a: &[Complex64; 2], b: &[Complex64; 2], t: Complex64| -> [Complex64; 2] {
        [a[0] + b[0] * t, a[1] + b[1] * t]
    };
    let psi = [c(1.0, 0.0), c(0.0, 0.0)];
    let half_dt = Complex64::new(dt, 0.0).unscale(2.0);
    let k1 = apply(&psi);
    let k2 = apply(&axpy(&psi, &k1, half_dt));
    let k3 = apply(&axpy(&psi, &k2, half_dt));
    let k4 = apply(&axpy(&psi, &k3, c(dt, 0.0)));
    let factor = Complex64::new(dt, 0.0).unscale(6.0);
    let mut new_data = [c(0.0, 0.0); 2];
    for i in 0..2 {
        let weighted = k1[i] + k2[i].scale(2.0) + k3[i].scale(2.0) + k4[i];
        new_data[i] = psi[i] + weighted * factor;
    }
    let norm = (new_data[0].norm_sqr() + new_data[1].norm_sqr()).sqrt();
    let expected = [new_data[0].unscale(norm), new_data[1].unscale(norm)];

    assert_eq!(state.data()[0], expected[0]);
    assert_eq!(state.data()[1], expected[1]);
}

#[test]
fn integrator_kinds_all_resolve_to_fourth_order() {
    assert!(matches!(
        create_integrator(IntegratorType::RK4).integrator_type(),
        IntegratorType::RK4
    ));
    assert!(matches!(
        create_integrator(IntegratorType::Magnus2).integrator_type(),
        IntegratorType::RK4
    ));
    assert!(matches!(
        create_integrator(IntegratorType::Magnus4).integrator_type(),
        IntegratorType::RK4
    ));
}

#[test]
fn test_annihilation_operator() {
    let op = LindbladOperator::annihilation(3, c(0.1, 0.0)).unwrap();
    assert_eq!(op.operator.dim(), 3);
    assert_eq!(op.rate.re, 0.1);
    assert_eq!(op.operator.at(0, 1).re, 1.0f64.sqrt());
    assert_eq!(op.operator.at(1, 2).re, 2.0f64.sqrt());
    assert_eq!(op.operator.at(1, 0).re, 0.0);
}

#[test]
fn dephasing_operator_is_diagonal_level_index() {
    let op = LindbladOperator::dephasing(4, c(0.2, 0.0)).unwrap();
    for n in 0..4usize {
        assert_eq!(op.operator.at(n, n).re, n as f64);
    }
    assert_eq!(op.operator.at(0, 1).re, 0.0);
}

#[test]
fn negative_rate_is_rejected() {
    assert!(matches!(
        LindbladOperator::annihilation(3, c(-0.1, 0.0)),
        Err(Error::InvalidParameter(_))
    ));
    assert!(matches!(
        LindbladOperator::dephasing(3, c(-2.0, 0.0)),
        Err(Error::InvalidParameter(_))
    ));
    assert!(matches!(
        LindbladOperator::new(CMatrix::zeros(2), c(-1.0, 0.0)),
        Err(Error::InvalidParameter(_))
    ));
}

#[test]
fn test_lindblad_solver_creation() {
    let h = CMatrix::zeros(2);
    let ham = TimeIndependentHamiltonian::new(h);
    let lindblad_ops = vec![LindbladOperator::annihilation(2, c(0.01, 0.0)).unwrap()];

    let solver = LindbladSolver::new(ham, lindblad_ops);
    assert!(solver.is_ok());
}

#[test]
fn lindblad_solver_rejects_mismatched_operator() {
    let ham = TimeIndependentHamiltonian::new(CMatrix::zeros(2));
    let lindblad_ops = vec![LindbladOperator::annihilation(3, c(0.01, 0.0)).unwrap()];
    match LindbladSolver::new(ham, lindblad_ops) {
        Err(Error::DimensionMismatch { expected, actual }) => {
            assert_eq!(expected, 2);
            assert_eq!(actual, 3);
        }
        _ => panic!("expected a dimension mismatch"),
    }
}

#[test]
fn lindblad_preserves_hermiticity_and_trace() {
    // One dissipative channel, a thousand steps of size 0.01: the density
    // matrix stays Hermitian within tolerance at every step and the trace
    // drift stays below 1e-6.
    let ham = TimeIndependentHamiltonian::new(pauli_x());
    let ops = vec![LindbladOperator::annihilation(2, c(0.05, 0.0)).unwrap()];
    let solver = LindbladSolver::new(ham, ops).unwrap();

    let mut rho = DensityMatrix::maximally_mixed(2);
    let tol = c(1e-10, 0.0);
    let dt = c(0.01, 0.0);
    for k in 0..1000u32 {
        let t = c(k as f64 * 0.01, 0.0);
        solver.step(&mut rho, t, dt).unwrap();
        assert!(math::is_hermitian(rho.data(), tol));
        let tr = math::trace(rho.data());
        assert!((tr.re - 1.0).abs() < 1e-6);
        assert!(tr.im.abs() < 1e-6);
    }
}

#[test]
fn lindblad_derivative_matches_hand_computation_exactly() {
    // The generator recomputed by hand with the same complex operations in
    // the same order: every entry must match bit for bit.
    let h = pauli_x();
    let ham = TimeIndependentHamiltonian::new(h.duplicate());
    let gamma = 0.05f64;
    let ops = vec![LindbladOperator::annihilation(2, c(gamma, 0.0)).unwrap()];
    let l = [[c(0.0, 0.0), c(1.0, 0.0)], [c(0.0, 0.0), c(0.0, 0.0)]];
    let solver = LindbladSolver::new(ham, ops).unwrap();

    let rho_m = CMatrix::from_rows(vec![
        vec![c(0.5, 0.0), c(0.1, 0.2)],
        vec![c(0.1, -0.2), c(0.5, 0.0)],
    ])
    .unwrap();
    let rho = DensityMatrix::new(rho_m.duplicate()).unwrap();
    let drho = solver.compute_derivative(&rho, c(0.3, 0.0)).unwrap();

    let rv = |i: usize, j: usize| rho_m.at(i, j);
    let hv = |i: usize, j: usize| h.at(i, j);
    let mul2 = |a: &dyn Fn(usize, usize) -> Complex64,
                b: &dyn Fn(usize, usize) -> Complex64|
     -> [[Complex64; 2]; 2] {
        let mut out = [[c(0.0, 0.0); 2]; 2];
        for i in 0..2 {
            for j in 0..2 {
                let mut sum = c(0.0, 0.0);
                for k in 0..2 {
                    sum = sum + a(i, k) * b(k, j);
                }
                out[i][j] = sum;
            }
        }
        out
    };
    let h_rho = mul2(&hv, &rv);
    let rho_h = mul2(&rv, &hv);
    let minus_i = -Complex64::new(0.0, 1.0);
    let mut expected = [[c(0.0, 0.0); 2]; 2];
    for i in 0..2 {
        for j in 0..2 {
            expected[i][j] = minus_i * (h_rho[i][j] - rho_h[i][j]);
        }
    }
    let lv = |i: usize, j: usize| l[i][j];
    let l_rho = mul2(&lv, &rv);
    let mut l_rho_ldag = [[c(0.0, 0.0); 2]; 2];
    let mut ldag_l = [[c(0.0, 0.0); 2]; 2];
    for i in 0..2 {
        for j in 0..2 {
            let mut sum1 = c(0.0, 0.0);
            let mut sum2 = c(0.0, 0.0);
            for k in 0..2 {
                sum1 = sum1 + l_rho[i][k] * l[j][k].conj();
                sum2 = sum2 + l[k][i].conj() * l[k][j];
            }
            l_rho_ldag[i][j] = sum1;
            ldag_l[i][j] = sum2;
        }
    }
    let dlv = |i: usize, j: usize| ldag_l[i][j];
    let ldag_l_rho = mul2(&dlv, &rv);
    let rho_ldag_l = mul2(&rv, &dlv);
    for i in 0..2 {
        for j in 0..2 {
            let anticommutator = ldag_l_rho[i][j] + rho_ldag_l[i][j];
            let term = l_rho_ldag[i][j] - anticommutator.scale(0.5);
            expected[i][j] = expected[i][j] + term.scale(gamma);
        }
    }

    for i in 0..2 {
        for j in 0..2 {
            assert_eq!(drho.at(i, j), expected[i][j]);
        }
    }
}

#[test]
fn lindblad_derivative_of_steady_state_is_small() {
    // The maximally mixed state commutes with the zero Hamiltonian; with no
    // channels the generator is exactly zero.
    let ham = TimeIndependentHamiltonian::new(CMatrix::zeros(2));
    let solver = LindbladSolver::new(ham, Vec::new()).unwrap();
    let rho = DensityMatrix::maximally_mixed(2);
    let drho = solver.compute_derivative(&rho, c(0.0, 0.0)).unwrap();
    for i in 0..2usize {
        for j in 0..2usize {
            assert_eq!(drho.at(i, j).norm(), 0.0);
        }
    }
}
