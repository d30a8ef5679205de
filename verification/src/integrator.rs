//! Fixed-step integrators for the Schrodinger equation.

use vstd::prelude::*;
use num_complex::Complex64;

verus! {

use crate::error::Error;
use crate::hamiltonian::Hamiltonian;
use crate::matrix::{
    axpy_spec, dot, dot_prefix, unscale_vec_spec, vec_axpy, vec_norm, vec_norm_spec, vec_unscale,
    CMatrix,
};
use crate::scalar::{
    add_of, c64_of, c_add, c_mul, c_neg, c_scale, c_u32, c_unscale, mul_of, neg_of, scale_of,
    unscale_of,
};
use crate::state::{normalized_within_tol, QuantumState};

/// The selectable integrator kinds. Choosing a geometric (Magnus) kind
/// silently substitutes the fourth-order scheme: the substitution is kept as
/// it stands, and the contracts of `create_integrator` state it openly.
#[derive(Debug, Clone, Copy, PartialEq, Eq, Structural)]
pub enum IntegratorType {
    RK4,
    Magnus2,
    Magnus4,
}

/// `-i * H * psi`: row `r` is `-i` times the accumulated dot of row `r` of
/// `h` with `psi`.
pub open spec fn apply_h_vec(h: Seq<Seq<Complex64>>, psi: Seq<Complex64>) -> Seq<Complex64> {
    Seq::new(h.len(), |r: int| mul_of(neg_of(c64_of(0, 1)), dot(h[r], psi)))
}

/// The weighted stage sum `k1 + 2*k2 + 2*k3 + k4`, accumulated left to
/// right.
pub open spec fn rk4_weighted(
    k1: Seq<Complex64>,
    k2: Seq<Complex64>,
    k3: Seq<Complex64>,
    k4: Seq<Complex64>,
) -> Seq<Complex64> {
    Seq::new(
        k1.len(),
        |i: int|
            add_of(
                add_of(
                    add_of(k1[i], scale_of(k2[i], c64_of(2, 0))),
                    scale_of(k3[i], c64_of(2, 0)),
                ),
                k4[i],
            ),
    )
}

/// One raw fourth-order step from `psi`, before renormalization, given the
/// three Hamiltonian samples `h1` at `t`, `h2` at `t + dt/2` and `h3` at
/// `t + dt`.
pub open spec fn rk4_candidate(
    h1: Seq<Seq<Complex64>>,
    h2: Seq<Seq<Complex64>>,
    h3: Seq<Seq<Complex64>>,
    psi: Seq<Complex64>,
    dt: Complex64,
) -> Seq<Complex64> {
    let half_dt = unscale_of(dt, c64_of(2, 0));
    let k1 = apply_h_vec(h1, psi);
    let k2 = apply_h_vec(h2, axpy_spec(psi, k1, half_dt));
    let k3 = apply_h_vec(h2, axpy_spec(psi, k2, half_dt));
    let k4 = apply_h_vec(h3, axpy_spec(psi, k3, dt));
    let factor = unscale_of(dt, c64_of(6, 0));
    Seq::new(
        psi.len(),
        |i: int| add_of(psi[i], mul_of(rk4_weighted(k1, k2, k3, k4)[i], factor)),
    )
}

/// The accepted next state: the raw step divided by its own norm.
pub open spec fn rk4_next(
    h1: Seq<Seq<Complex64>>,
    h2: Seq<Seq<Complex64>>,
    h3: Seq<Seq<Complex64>>,
    psi: Seq<Complex64>,
    dt: Complex64,
) -> Seq<Complex64> {
    let candidate = rk4_candidate(h1, h2, h3, psi, dt);
    unscale_vec_spec(candidate, vec_norm_spec(candidate))
}

/// The step succeeds exactly when the renormalized state passes the
/// normalization invariant check.
pub open spec fn rk4_accepts(
    h1: Seq<Seq<Complex64>>,
    h2: Seq<Seq<Complex64>>,
    h3: Seq<Seq<Complex64>>,
    psi: Seq<Complex64>,
    dt: Complex64,
) -> bool {
    normalized_within_tol(rk4_next(h1, h2, h3, psi, dt))
}

/// A stepping scheme that advances a pure state by one step in place.
pub trait Integrator {
    spec fn spec_type(&self) -> IntegratorType;

    /// Advances the state by exactly one step of size `dt` starting at time
    /// `t`; on failure the state is left as it was.
    fn step<H: Hamiltonian>(
        &self,
        hamiltonian: &H,
        state: &mut QuantumState,
        t: Complex64,
        dt: Complex64,
    ) -> (r: Result<(), Error>)
        requires
            hamiltonian.wf(),
            old(state).spec_dim() == hamiltonian.spec_dim(),
        ensures
            match r {
                Ok(()) => final(state).spec_dim() == old(state).spec_dim(),
                Err(_) => final(state)@ == old(state)@,
            },
    ;

    fn integrator_type(&self) -> (r: IntegratorType)
        ensures
            r == self.spec_type(),
    ;
}

/// The fourth-order Runge-Kutta scheme applied to
/// `d psi / dt = -i * H(t) * psi`, with an explicit renormalization of the
/// accepted state; the per-step non-unitarity of the scheme is corrected by
/// that renormalization, a deliberate trade-off.
pub struct RK4Integrator;

impl RK4Integrator {
    pub fn new() -> (r: RK4Integrator)
        ensures
            r.spec_type() == IntegratorType::RK4,
    {
        RK4Integrator
    }
}

impl Default for RK4Integrator {
    fn default() -> (r: Self)
        ensures
            r.spec_type() == IntegratorType::RK4,
    {
        RK4Integrator::new()
    }
}

/// `-i * H * psi` as executable code: the derivative stage of the scheme.
fn apply_hamiltonian(h: &CMatrix, psi: &Vec<Complex64>) -> (r: Vec<Complex64>)
    requires
        h.wf(),
        psi@.len() == h.spec_dim(),
    ensures
        r@ == apply_h_vec(h@, psi@),
{
    let dim = h.dim();
    let minus_i = c_neg(c_u32(0, 1));
    let mut out: Vec<Complex64> = Vec::new();
    let mut row: usize = 0;
    while row < dim
        invariant
            row <= dim,
            out@.len() == row,
            minus_i == neg_of(c64_of(0, 1)),
            forall|a: int|
                0 <= a < row ==> out@[a] == mul_of(neg_of(c64_of(0, 1)), dot(h@[a], psi@)),
        decreases dim - row,
    {
        let mut sum = c_u32(0, 0);
        let mut k: usize = 0;
        while k < dim
            invariant
                row < dim,
                k <= dim,
                sum == dot_prefix(h@[row as int], psi@, k as int),
            decreases dim - k,
        {
            let term = c_mul(h.at(row, k), psi[k]);
            sum = c_add(sum, term);
            k = k + 1;
        }
        out.push(c_mul(minus_i, sum));
        row = row + 1;
    }
    proof {
        assert(out@ =~= apply_h_vec(h@, psi@));
    }
    out
}

impl Integrator for RK4Integrator {
    open spec fn spec_type(&self) -> IntegratorType {
        IntegratorType::RK4
    }

    fn step<H: Hamiltonian>(
        &self,
        hamiltonian: &H,
        state: &mut QuantumState,
        t: Complex64,
        dt: Complex64,
    ) -> (r: Result<(), Error>)
        ensures
            ({
                let h1 = hamiltonian.spec_sample(t);
                let h2 = hamiltonian.spec_sample(add_of(t, unscale_of(dt, c64_of(2, 0))));
                let h3 = hamiltonian.spec_sample(add_of(t, dt));
                match r {
                    Ok(()) => {
                        &&& rk4_accepts(h1, h2, h3, old(state)@, dt)
                        &&& final(state)@ == rk4_next(h1, h2, h3, old(state)@, dt)
                    },
                    Err(e) => {
                        &&& !rk4_accepts(h1, h2, h3, old(state)@, dt)
                        &&& final(state)@ == old(state)@
                        &&& e matches Error::InvalidParameter(m) && m@
                            == "State must be normalized"@
                    },
                }
            }),
    {
        let dim = hamiltonian.dim();
        let mut h = CMatrix::zeros(dim);

        hamiltonian.compute(t, &mut h);
        let k1 = apply_hamiltonian(&h, state.data());

        let half_dt = c_unscale(dt, c_u32(2, 0));
        let t_half = c_add(t, half_dt);
        let psi2 = vec_axpy(state.data(), &k1, half_dt);
        hamiltonian.compute(t_half, &mut h);
        let k2 = apply_hamiltonian(&h, &psi2);

        let psi3 = vec_axpy(state.data(), &k2, half_dt);
        hamiltonian.compute(t_half, &mut h);
        let k3 = apply_hamiltonian(&h, &psi3);

        let psi4 = vec_axpy(state.data(), &k3, dt);
        hamiltonian.compute(c_add(t, dt), &mut h);
        let k4 = apply_hamiltonian(&h, &psi4);

        let two = c_u32(2, 0);
        let factor = c_unscale(dt, c_u32(6, 0));
        let ghost h1 = hamiltonian.spec_sample(t);
        let ghost h2s = hamiltonian.spec_sample(add_of(t, unscale_of(dt, c64_of(2, 0))));
        let ghost h3s = hamiltonian.spec_sample(add_of(t, dt));
        let ghost kg1 = apply_h_vec(h1, old(state)@);
        let ghost kg2 = apply_h_vec(h2s, axpy_spec(old(state)@, kg1, unscale_of(dt, c64_of(2, 0))));
        let ghost kg3 = apply_h_vec(h2s, axpy_spec(old(state)@, kg2, unscale_of(dt, c64_of(2, 0))));
        let ghost kg4 = apply_h_vec(h3s, axpy_spec(old(state)@, kg3, dt));

        let n = state.data().len();
        let mut new_data: Vec<Complex64> = Vec::new();
        let mut i: usize = 0;
        while i < n
            invariant
                i <= n,
                n == old(state)@.len(),
                new_data@.len() == i,
                k1@ == kg1 && k2@ == kg2 && k3@ == kg3 && k4@ == kg4,
                k1@.len() == n && k2@.len() == n && k3@.len() == n && k4@.len() == n,
                two == c64_of(2, 0),
                factor == unscale_of(dt, c64_of(6, 0)),
                forall|a: int|
                    0 <= a < i ==> new_data@[a] == add_of(
                        old(state)@[a],
                        mul_of(rk4_weighted(kg1, kg2, kg3, kg4)[a], unscale_of(dt, c64_of(6, 0))),
                    ),
            decreases n - i,
        {
            let weighted = c_add(
                c_add(c_add(k1[i], c_scale(k2[i], two)), c_scale(k3[i], two)),
                k4[i],
            );
            let v = c_add(state.data()[i], c_mul(weighted, factor));
            new_data.push(v);
            i = i + 1;
        }
        proof {
            assert(new_data@ =~= rk4_candidate(h1, h2s, h3s, old(state)@, dt));
        }

        let norm = vec_norm(&new_data);
        let normalized = vec_unscale(&new_data, norm);
        proof {
            assert(normalized@ == rk4_next(h1, h2s, h3s, old(state)@, dt));
        }
        match QuantumState::new(normalized) {
            Ok(s) => {
                *state = s;
                Ok(())
            },
            Err(e) => Err(e),
        }
    }

    fn integrator_type(&self) -> (r: IntegratorType) {
        IntegratorType::RK4
    }
}

/// Builds the integrator for a selected kind. Every kind yields the
/// fourth-order scheme: the geometric kinds are declared but silently
/// substituted, and this contract states that substitution openly.
pub fn create_integrator(integrator_type: IntegratorType) -> (r: RK4Integrator)
    ensures
        r.spec_type() == IntegratorType::RK4,
{
    match integrator_type {
        IntegratorType::RK4 => RK4Integrator::new(),
        IntegratorType::Magnus2 | IntegratorType::Magnus4 => RK4Integrator::new(),
    }
}

} // verus!
