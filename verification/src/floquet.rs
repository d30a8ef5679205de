//! The Floquet interface: quasi-energy spectra for periodic Hamiltonians.
//! The spectral computation itself is an explicitly unsupported path; only
//! its interface and its argument checks are provided, for forward
//! compatibility.

use vstd::prelude::*;
use num_complex::Complex64;

verus! {

use crate::error::Error;
use crate::hamiltonian::Hamiltonian;
use crate::matrix::CMatrix;
use crate::scalar::sub_of;

/// A computed quasi-energy spectrum: the energies, the modes, the period
/// they belong to.
pub struct FloquetSpectrum {
    pub quasi_energies: Vec<Complex64>,
    pub modes: CMatrix,
    pub period: Complex64,
}

impl FloquetSpectrum {
    /// Rejects a Hamiltonian that is neither time-independent nor
    /// periodic; on any acceptable input it fails loudly as unsupported.
    pub fn compute<H: Hamiltonian>(hamiltonian: &H, period: Complex64, num_steps: usize) -> (r:
        Result<FloquetSpectrum, Error>)
        ensures
            match r {
                Ok(_) => false,
                Err(e) => {
                    &&& (!hamiltonian.spec_time_independent() && hamiltonian.spec_period() is None
                        ==> (e matches Error::InvalidParameter(m) && m@
                        == "Hamiltonian must be time-periodic for Floquet analysis"@))
                    &&& ((hamiltonian.spec_time_independent()
                        || hamiltonian.spec_period() is Some) ==> (e matches Error::NotImplemented(
                        m,
                    ) && m@ == "FloquetSpectrum::compute"@))
                },
            },
    {
        if !hamiltonian.is_time_independent() && hamiltonian.period().is_none() {
            return Err(
                Error::InvalidParameter(
                    "Hamiltonian must be time-periodic for Floquet analysis".to_string(),
                ),
            );
        }
        Err(Error::NotImplemented("FloquetSpectrum::compute".to_string()))
    }

    pub fn num_levels(&self) -> (r: usize)
        ensures
            r == self.quasi_energies@.len(),
    {
        self.quasi_energies.len()
    }

    /// The spacing between quasi-energy `n` and the one above it, where
    /// both exist.
    pub fn level_spacing(&self, n: usize) -> (r: Option<Complex64>)
        requires
            n < usize::MAX,
        ensures
            match r {
                Some(v) => n + 1 < self.quasi_energies@.len() && v == sub_of(
                    self.quasi_energies@[n as int + 1],
                    self.quasi_energies@[n as int],
                ),
                None => n + 1 >= self.quasi_energies@.len(),
            },
    {
        if n + 1 < self.quasi_energies.len() {
            Some(crate::scalar::c_sub(self.quasi_energies[n + 1], self.quasi_energies[n]))
        } else {
            None
        }
    }
}

/// The extended (Fourier-block) Hamiltonian of a periodically driven
/// system; only its shape arithmetic is provided.
pub struct FloquetHamiltonian<H: Hamiltonian> {
    pub n_fourier: usize,
    pub hamiltonian: H,
    pub omega: Complex64,
}

impl<H: Hamiltonian> FloquetHamiltonian<H> {
    pub open spec fn spec_h_dim(&self) -> nat {
        self.hamiltonian.spec_dim()
    }

    pub open spec fn wf(&self) -> bool {
        self.hamiltonian.wf()
    }

    pub fn new(hamiltonian: H, omega: Complex64, n_fourier: usize) -> (r: FloquetHamiltonian<H>)
        requires
            hamiltonian.wf(),
        ensures
            r.wf(),
            r.n_fourier == n_fourier,
            r.omega == omega,
            r.spec_h_dim() == hamiltonian.spec_dim(),
    {
        FloquetHamiltonian { n_fourier, hamiltonian, omega }
    }

    /// The dimension of the extended problem: the base dimension times the
    /// count of Fourier blocks, `2 * n_fourier + 1`.
    pub fn extended_dim(&self) -> (r: usize)
        requires
            self.wf(),
            2 * self.n_fourier + 1 <= usize::MAX,
            self.spec_h_dim() * (2 * self.n_fourier + 1) <= usize::MAX,
        ensures
            r == self.spec_h_dim() * (2 * self.n_fourier + 1),
    {
        let blocks = 2 * self.n_fourier + 1;
        self.hamiltonian.dim() * blocks
    }

    /// Fails loudly: building the extended matrix is an explicitly
    /// unsupported path.
    pub fn compute_extended(&self) -> (r: Result<CMatrix, Error>)
        ensures
            r matches Err(e) && e matches Error::NotImplemented(m) && m@
                == "FloquetHamiltonian::compute_extended"@,
    {
        Err(Error::NotImplemented("FloquetHamiltonian::compute_extended".to_string()))
    }
}

} // verus!
