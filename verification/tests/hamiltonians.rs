//! Hamiltonian construction, sampling and composition.

use chronophoton::hamiltonian::{CompositeHamiltonian, Hamiltonian, TimeIndependentHamiltonian};
use chronophoton::matrix::CMatrix;
use chronophoton::systems::{CoupledCavities, DrivenCavity, DrivenTLS};
use chronophoton::Error;
use num_complex::Complex64;

fn c(re: f64, im: f64) -> Complex64 {
    Complex64::new(re, im)
}

fn two_by_two(d00: f64, d01: f64, d10: f64, d11: f64) -> CMatrix {
    CMatrix::from_rows(vec![
        vec![c(d00, 0.0), c(d01, 0.0)],
        vec![c(d10, 0.0), c(d11, 0.0)],
    ])
    .unwrap()
}

#[test]
fn test_time_independent_hamiltonian() {
    let h = two_by_two(1.0, 0.0, 0.0, -1.0);
    let hamiltonian = TimeIndependentHamiltonian::new(h);
    assert_eq!(hamiltonian.dim(), 2);
    assert!(hamiltonian.is_time_independent());

    let mut out = CMatrix::zeros(2);
    hamiltonian.compute(c(5.0, 0.0), &mut out);
    assert_eq!(out.at(0, 0).re, 1.0);
    assert_eq!(out.at(1, 1).re, -1.0);
    assert_eq!(out.at(0, 1).re, 0.0);
}

#[test]
fn test_driven_cavity() {
    let cavity = DrivenCavity::new(c(10.0, 0.0), c(20.0, 0.0), c(0.3, 0.0), 10);
    let mut h = CMatrix::zeros(10);
    cavity.compute(c(0.0, 0.0), &mut h);
    assert!(chronophoton::math::is_hermitian(&h, c(1e-10, 0.0)));
}

#[test]
fn driven_cavity_exact_entries() {
    let cavity = DrivenCavity::new(c(10.0, 0.0), c(20.0, 0.0), c(0.3, 0.0), 6);
    let t = 0.7f64;
    let mut h = CMatrix::zeros(6);
    cavity.compute(c(t, 0.0), &mut h);
    let drive = 0.3 * (20.0 * t).cos();
    for n in 0..6usize {
        assert_eq!(h.at(n, n).re, 10.0 * n as f64);
        assert_eq!(h.at(n, n).im, 0.0);
    }
    for n in 0..4usize {
        let amp = (((n + 1) * (n + 2)) as f64).sqrt();
        assert_eq!(h.at(n + 2, n).re, drive * amp);
        assert_eq!(h.at(n, n + 2).re, drive * amp);
    }
    assert_eq!(h.at(0, 1).re, 0.0);
}

#[test]
fn test_ssh_cavities() {
    let ssh = CoupledCavities::ssh(c(5.0, 0.0), c(1.0, 0.0), c(0.5, 0.0), 4);
    assert_eq!(ssh.dim(), 5);
    assert_eq!(ssh.couplings.len(), 3);
    assert_eq!(ssh.couplings[0].re, 1.0);
    assert_eq!(ssh.couplings[1].re, 0.5);
    assert_eq!(ssh.couplings[2].re, 1.0);
}

#[test]
fn coupled_cavities_uniform_sample() {
    let chain = CoupledCavities::uniform(c(4.0, 0.0), c(0.25, 0.0), 3);
    assert_eq!(chain.dim(), 4);
    assert!(chain.is_time_independent());
    let mut h = CMatrix::zeros(4);
    chain.compute(c(0.0, 0.0), &mut h);
    assert_eq!(h.at(0, 0).re, 0.0);
    assert_eq!(h.at(1, 1).re, 4.0);
    assert_eq!(h.at(2, 2).re, 4.0);
    assert_eq!(h.at(3, 3).re, 4.0);
    assert_eq!(h.at(1, 2).re, 0.25);
    assert_eq!(h.at(2, 1).re, 0.25);
    assert_eq!(h.at(2, 3).re, 0.25);
    assert_eq!(h.at(0, 1).re, 0.0);
}

#[test]
fn test_driven_tls() {
    let tls = DrivenTLS::new(c(5.0, 0.0), c(5.0, 0.0), c(0.5, 0.0));
    assert_eq!(tls.dim(), 2);
    assert_eq!(tls.detuning().re, 0.0);
    assert_eq!(tls.detuning().im, 0.0);

    let mut h = CMatrix::zeros(2);
    tls.compute(c(0.0, 0.0), &mut h);
    assert!(chronophoton::math::is_hermitian(&h, c(1e-10, 0.0)));
}

#[test]
fn driven_tls_exact_sample() {
    let tls = DrivenTLS::with_phase(c(5.0, 0.0), c(3.0, 0.0), c(0.5, 0.0), c(0.2, 0.0));
    let t = 1.3f64;
    let mut h = CMatrix::zeros(2);
    tls.compute(c(t, 0.0), &mut h);
    let eff = 0.5 * (3.0 * t + 0.2).cos();
    assert_eq!(h.at(0, 0).re, 5.0 / 2.0);
    assert_eq!(h.at(1, 1).re, -5.0 / 2.0);
    assert_eq!(h.at(0, 1).re, eff);
    assert_eq!(h.at(1, 0).re, eff);
}

#[test]
fn driven_tls_period() {
    let tls = DrivenTLS::new(c(5.0, 0.0), c(4.0, 0.0), c(0.5, 0.0));
    let period = tls.period().unwrap();
    assert_eq!(period.re, 2.0 * std::f64::consts::PI / 4.0);
    assert!(!tls.is_time_independent());
}

#[test]
fn composite_matches_elementwise_sum() {
    let h1 = two_by_two(1.0, 0.5, 0.5, -1.0);
    let h2 = two_by_two(0.25, 0.0, 0.0, 2.0);
    let mut s1 = CMatrix::zeros(2);
    let mut s2 = CMatrix::zeros(2);
    TimeIndependentHamiltonian::new(h1.duplicate()).compute(c(0.3, 0.0), &mut s1);
    TimeIndependentHamiltonian::new(h2.duplicate()).compute(c(0.3, 0.0), &mut s2);

    let terms: Vec<Box<dyn Hamiltonian>> = vec![
        Box::new(TimeIndependentHamiltonian::new(h1)),
        Box::new(TimeIndependentHamiltonian::new(h2)),
    ];
    let composite = CompositeHamiltonian::new(terms).unwrap();
    assert_eq!(composite.dim(), 2);
    let mut out = CMatrix::zeros(2);
    composite.compute(c(0.3, 0.0), &mut out);
    for i in 0..2usize {
        for j in 0..2usize {
            let expected = s1.at(i, j) + s2.at(i, j);
            assert_eq!(out.at(i, j), expected);
        }
    }
}

#[test]
fn composite_rejects_zero_terms() {
    let terms: Vec<Box<dyn Hamiltonian>> = Vec::new();
    let result = CompositeHamiltonian::new(terms);
    assert!(matches!(result, Err(Error::Hamiltonian(_))));
}

#[test]
fn composite_rejects_mismatched_dimensions() {
    let a = TimeIndependentHamiltonian::new(CMatrix::zeros(2));
    let b = TimeIndependentHamiltonian::new(CMatrix::zeros(3));
    let terms: Vec<Box<dyn Hamiltonian>> = vec![Box::new(a), Box::new(b)];
    let result = CompositeHamiltonian::new(terms);
    match result {
        Err(Error::DimensionMismatch { expected, actual }) => {
            assert_eq!(expected, 2);
            assert_eq!(actual, 3);
        }
        _ => panic!("expected a dimension mismatch"),
    }
}

#[test]
fn validate_accepts_hermitian_and_rejects_other() {
    let good = TimeIndependentHamiltonian::new(two_by_two(1.0, 0.5, 0.5, -1.0));
    assert!(good.validate().is_ok());

    let bad = TimeIndependentHamiltonian::new(two_by_two(1.0, 0.5, 0.75, -1.0));
    match bad.validate() {
        Err(Error::Hamiltonian(_)) => {}
        _ => panic!("expected a hamiltonian error"),
    }
}

#[test]
fn test_floquet_hamiltonian_creation() {
    let h = CMatrix::zeros(2);
    let ham = TimeIndependentHamiltonian::new(h);
    let floquet = chronophoton::floquet::FloquetHamiltonian::new(ham, c(1.0, 0.0), 5);
    assert_eq!(floquet.extended_dim(), 2 * 11);
}

#[test]
fn floquet_spectrum_paths() {
    let time_dep_aperiodic = TimeIndependentHamiltonian::new(CMatrix::zeros(2));
    // A time-independent Hamiltonian is accepted, then fails as unsupported.
    let r = chronophoton::floquet::FloquetSpectrum::compute(&time_dep_aperiodic, c(1.0, 0.0), 10);
    assert!(matches!(r, Err(Error::NotImplemented(_))));

    let periodic = DrivenTLS::new(c(5.0, 0.0), c(5.0, 0.0), c(0.5, 0.0));
    let r2 = chronophoton::floquet::FloquetSpectrum::compute(&periodic, c(1.0, 0.0), 10);
    assert!(matches!(r2, Err(Error::NotImplemented(_))));

    // A composite reports neither time independence nor a period, so it is
    // rejected as not periodic.
    let inner: Vec<Box<dyn Hamiltonian>> = vec![Box::new(DrivenTLS::new(
        c(5.0, 0.0),
        c(5.0, 0.0),
        c(0.5, 0.0),
    ))];
    let aperiodic = CompositeHamiltonian::new(inner).unwrap();
    let r3 = chronophoton::floquet::FloquetSpectrum::compute(&aperiodic, c(1.0, 0.0), 10);
    assert!(matches!(r3, Err(Error::InvalidParameter(_))));
}

#[test]
fn floquet_level_spacing() {
    let spectrum = chronophoton::floquet::FloquetSpectrum {
        quasi_energies: vec![c(1.0, 0.0), c(1.5, 0.0), c(3.0, 0.0)],
        modes: CMatrix::zeros(3),
        period: c(1.0, 0.0),
    };
    assert_eq!(spectrum.num_levels(), 3);
    assert_eq!(spectrum.level_spacing(0).unwrap().re, 0.5);
    assert_eq!(spectrum.level_spacing(1).unwrap().re, 1.5);
    assert!(spectrum.level_spacing(2).is_none());
}
