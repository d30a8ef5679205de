//! The Lindblad master-equation solver: generator evaluation and fixed-step
//! advance of a density matrix under a Hamiltonian and dissipative channels.

use vstd::prelude::*;
use num_complex::Complex64;

verus! {

use crate::error::Error;
use crate::hamiltonian::Hamiltonian;
use crate::matrix::{
    mat_add_spec, mat_cmul_spec, mat_dagger_mul_spec, mat_mul_dagger_spec, mat_mul_spec,
    mat_scale_spec, mat_sub_spec, CMatrix,
};
use crate::observables::number_entry;
use crate::scalar::{
    c64_of, c_lt, c_neg, c_sqrt_re, c_u32, c_unscale, lt_re_of, neg_of, sqrt_re_of, unscale_of,
};
use crate::state::DensityMatrix;

/// A dissipative channel: a jump operator and its non-negative decay rate.
pub struct LindbladOperator {
    pub operator: CMatrix,
    pub rate: Complex64,
}

impl LindbladOperator {
    pub open spec fn wf(&self) -> bool {
        self.operator.wf()
    }

    pub open spec fn spec_dim(&self) -> nat {
        self.operator.spec_dim()
    }

    /// Construction fails with an invalid-parameter error exactly when the
    /// rate is negative.
    pub fn new(operator: CMatrix, rate: Complex64) -> (r: Result<LindbladOperator, Error>)
        requires
            operator.wf(),
        ensures
            match r {
                Ok(l) => {
                    &&& !lt_re_of(rate, c64_of(0, 0))
                    &&& l.operator == operator
                    &&& l.rate == rate
                    &&& l.wf()
                },
                Err(e) => {
                    &&& lt_re_of(rate, c64_of(0, 0))
                    &&& e matches Error::InvalidParameter(m) && m@
                        == "Lindblad rate must be non-negative"@
                },
            },
    {
        let zero = c_u32(0, 0);
        if c_lt(rate, zero) {
            return Err(Error::InvalidParameter("Lindblad rate must be non-negative".to_string()));
        }
        Ok(LindbladOperator { operator, rate })
    }

    /// The lowering operator: couples level `n` to `n - 1` with amplitude
    /// `sqrt(n)`, scaled by the rate at stepping time.
    pub fn annihilation(dim: usize, rate: Complex64) -> (r: Result<LindbladOperator, Error>)
        requires
            dim <= u32::MAX,
        ensures
            match r {
                Ok(l) => {
                    &&& !lt_re_of(rate, c64_of(0, 0))
                    &&& l.rate == rate
                    &&& l.wf()
                    &&& l.spec_dim() == dim
                    &&& forall|i: int, j: int|
                        0 <= i < dim && 0 <= j < dim ==> l.operator@[i][j] == (if j == i + 1 {
                            sqrt_re_of(c64_of(j as u32, 0))
                        } else {
                            c64_of(0, 0)
                        })
                },
                Err(e) => {
                    &&& lt_re_of(rate, c64_of(0, 0))
                    &&& e matches Error::InvalidParameter(m) && m@
                        == "Lindblad rate must be non-negative"@
                },
            },
    {
        let ghost target = Seq::new(
            dim as nat,
            |i: int|
                Seq::new(
                    dim as nat,
                    |j: int|
                        if j == i + 1 {
                            sqrt_re_of(c64_of(j as u32, 0))
                        } else {
                            c64_of(0, 0)
                        },
                ),
        );
        let zero = c_u32(0, 0);
        let mut rows: Vec<Vec<Complex64>> = Vec::new();
        let mut i: usize = 0;
        while i < dim
            invariant
                i <= dim,
                rows@.len() == i,
                forall|a: int| 0 <= a < i ==> (#[trigger] rows@[a])@ == target[a],
            decreases dim - i,
        {
            let mut row: Vec<Complex64> = Vec::new();
            let mut j: usize = 0;
            while j < dim
                invariant
                    i < dim,
                    j <= dim,
                    row@.len() == j,
                    forall|b: int|
                        0 <= b < j ==> (#[trigger] row@[b]) == target[i as int][b],
                decreases dim - j,
            {
                if j == i + 1 {
                    row.push(c_sqrt_re(c_u32(j as u32, 0)));
                } else {
                    row.push(zero);
                }
                j = j + 1;
            }
            proof {
                assert(row@ =~= target[i as int]);
            }
            rows.push(row);
            i = i + 1;
        }
        let m = CMatrix { dim, rows };
        proof {
            assert(m@ =~~= target);
        }
        LindbladOperator::new(m, rate)
    }

    /// The pure-dephasing operator: diagonal, weighted by the level index,
    /// scaled by the rate at stepping time.
    pub fn dephasing(dim: usize, rate: Complex64) -> (r: Result<LindbladOperator, Error>)
        requires
            dim <= u32::MAX,
        ensures
            match r {
                Ok(l) => {
                    &&& !lt_re_of(rate, c64_of(0, 0))
                    &&& l.rate == rate
                    &&& l.wf()
                    &&& l.spec_dim() == dim
                    &&& forall|i: int, j: int|
                        0 <= i < dim && 0 <= j < dim ==> l.operator@[i][j] == number_entry(i, j)
                },
                Err(e) => {
                    &&& lt_re_of(rate, c64_of(0, 0))
                    &&& e matches Error::InvalidParameter(m) && m@
                        == "Lindblad rate must be non-negative"@
                },
            },
    {
        let ghost target = Seq::new(
            dim as nat,
            |i: int| Seq::new(dim as nat, |j: int| number_entry(i, j)),
        );
        let zero = c_u32(0, 0);
        let mut rows: Vec<Vec<Complex64>> = Vec::new();
        let mut i: usize = 0;
        while i < dim
            invariant
                i <= dim,
                rows@.len() == i,
                forall|a: int| 0 <= a < i ==> (#[trigger] rows@[a])@ == target[a],
            decreases dim - i,
        {
            let mut row: Vec<Complex64> = Vec::new();
            let mut j: usize = 0;
            while j < dim
                invariant
                    i < dim,
                    j <= dim,
                    row@.len() == j,
                    forall|b: int|
                        0 <= b < j ==> (#[trigger] row@[b]) == number_entry(i as int, b),
                decreases dim - j,
            {
                if i == j {
                    row.push(c_u32(i as u32, 0));
                } else {
                    row.push(zero);
                }
                j = j + 1;
            }
            proof {
                assert(row@ =~= target[i as int]);
            }
            rows.push(row);
            i = i + 1;
        }
        let m = CMatrix { dim, rows };
        proof {
            assert(m@ =~~= target);
        }
        LindbladOperator::new(m, rate)
    }
}

/// The dissipative contribution of one channel `(l, gamma)` against `rho`:
/// `gamma * (l rho l^dagger - (l^dagger l rho + rho l^dagger l) / 2)`,
/// every product and sum accumulated exactly as the solver computes it.
pub open spec fn lindblad_dissipator(
    l: Seq<Seq<Complex64>>,
    gamma: Complex64,
    rho: Seq<Seq<Complex64>>,
) -> Seq<Seq<Complex64>> {
    let l_rho = mat_mul_spec(l, rho);
    let l_rho_ldag = mat_mul_dagger_spec(l_rho, l);
    let ldag_l = mat_dagger_mul_spec(l, l);
    let anticommutator = mat_add_spec(mat_mul_spec(ldag_l, rho), mat_mul_spec(rho, ldag_l));
    let half = unscale_of(c64_of(1, 0), c64_of(2, 0));
    let term = mat_sub_spec(l_rho_ldag, mat_scale_spec(anticommutator, half));
    mat_scale_spec(term, gamma)
}

/// The commutator part of the generator plus the first `k` channels'
/// dissipators, accumulated in channel order.
pub open spec fn lindblad_acc(
    base: Seq<Seq<Complex64>>,
    rho: Seq<Seq<Complex64>>,
    ops: Seq<LindbladOperator>,
    k: int,
) -> Seq<Seq<Complex64>>
    decreases k,
{
    if k <= 0 {
        base
    } else {
        mat_add_spec(
            lindblad_acc(base, rho, ops, k - 1),
            lindblad_dissipator(ops[k - 1].operator@, ops[k - 1].rate, rho),
        )
    }
}

/// The full generator `d rho / dt` for the Hamiltonian sample `h`:
/// `-i [h, rho]` plus every channel's dissipator.
pub open spec fn lindblad_rhs(
    h: Seq<Seq<Complex64>>,
    rho: Seq<Seq<Complex64>>,
    ops: Seq<LindbladOperator>,
) -> Seq<Seq<Complex64>> {
    let commutator = mat_sub_spec(mat_mul_spec(h, rho), mat_mul_spec(rho, h));
    let base = crate::matrix::mat_lcmul_spec(neg_of(c64_of(0, 1)), commutator);
    lindblad_acc(base, rho, ops, ops.len() as int)
}

/// One raw fourth-order step of the density matrix, given the three
/// Hamiltonian samples `h1` at `t`, `h2` at `t + dt/2` and `h3` at `t + dt`.
/// No renormalization or trace correction is applied: trace preservation
/// holds of the exact generator only, and numerical drift is surfaced to the
/// caller rather than silently corrected.
pub open spec fn lindblad_next(
    h1: Seq<Seq<Complex64>>,
    h2: Seq<Seq<Complex64>>,
    h3: Seq<Seq<Complex64>>,
    rho: Seq<Seq<Complex64>>,
    ops: Seq<LindbladOperator>,
    dt: Complex64,
) -> Seq<Seq<Complex64>> {
    let half_dt = unscale_of(dt, c64_of(2, 0));
    let two = c64_of(2, 0);
    let k1 = lindblad_rhs(h1, rho, ops);
    let k2 = lindblad_rhs(h2, mat_add_spec(rho, mat_cmul_spec(k1, half_dt)), ops);
    let k3 = lindblad_rhs(h2, mat_add_spec(rho, mat_cmul_spec(k2, half_dt)), ops);
    let k4 = lindblad_rhs(h3, mat_add_spec(rho, mat_cmul_spec(k3, dt)), ops);
    let increment = mat_add_spec(
        mat_add_spec(mat_add_spec(k1, mat_scale_spec(k2, two)), mat_scale_spec(k3, two)),
        k4,
    );
    mat_add_spec(rho, mat_cmul_spec(increment, unscale_of(dt, c64_of(6, 0))))
}

/// The Lindblad solver: a Hamiltonian and a list of dissipative channels of
/// its dimension.
pub struct LindbladSolver<H: Hamiltonian> {
    hamiltonian: H,
    lindblad_ops: Vec<LindbladOperator>,
    dim: usize,
}

impl<H: Hamiltonian> LindbladSolver<H> {
    /// The Hamiltonian sample this solver sees at time `t`.
    pub closed spec fn spec_h_sample(&self, t: Complex64) -> Seq<Seq<Complex64>> {
        self.hamiltonian.spec_sample(t)
    }

    pub closed spec fn spec_ops(&self) -> Seq<LindbladOperator> {
        self.lindblad_ops@
    }

    pub closed spec fn spec_dim(&self) -> nat {
        self.dim as nat
    }

    pub closed spec fn wf(&self) -> bool {
        &&& self.hamiltonian.wf()
        &&& self.spec_dim() == self.hamiltonian.spec_dim()
        &&& forall|i: int| 0 <= i < self.spec_ops().len() ==> (#[trigger] self.spec_ops()[i]).wf()
        &&& forall|i: int|
            0 <= i < self.spec_ops().len() ==> (#[trigger] self.spec_ops()[i]).spec_dim()
                == self.spec_dim()
    }

    /// Construction fails with a dimension mismatch naming the Hamiltonian's
    /// dimension and the first differing jump operator's.
    pub fn new(hamiltonian: H, lindblad_ops: Vec<LindbladOperator>) -> (r: Result<
        LindbladSolver<H>,
        Error,
    >)
        requires
            hamiltonian.wf(),
            forall|i: int| 0 <= i < lindblad_ops@.len() ==> (#[trigger] lindblad_ops@[i]).wf(),
        ensures
            match r {
                Ok(s) => {
                    &&& s.wf()
                    &&& forall|t: Complex64| s.spec_h_sample(t) == hamiltonian.spec_sample(t)
                    &&& s.spec_ops() == lindblad_ops@
                    &&& s.spec_dim() == hamiltonian.spec_dim()
                    &&& forall|i: int|
                        0 <= i < lindblad_ops@.len() ==> (#[trigger] lindblad_ops@[i]).spec_dim()
                            == hamiltonian.spec_dim()
                },
                Err(e) => {
                    &&& e matches Error::DimensionMismatch { expected, actual }
                    &&& expected == hamiltonian.spec_dim()
                    &&& exists|i: int|
                        0 <= i < lindblad_ops@.len() && (#[trigger] lindblad_ops@[i]).spec_dim()
                            == actual && actual != expected && (forall|k: int|
                            0 <= k < i ==> (#[trigger] lindblad_ops@[k]).spec_dim() == expected)
                },
            },
    {
        let dim = hamiltonian.dim();
        let n = lindblad_ops.len();
        let mut i: usize = 0;
        while i < n
            invariant
                i <= n,
                n == lindblad_ops@.len(),
                dim as nat == hamiltonian.spec_dim(),
                forall|k: int|
                    0 <= k < i ==> (#[trigger] lindblad_ops@[k]).spec_dim() == dim as nat,
            decreases n - i,
        {
            let d = lindblad_ops[i].operator.dim();
            if d != dim {
                proof {
                    assert(lindblad_ops@[i as int].spec_dim() == d as nat);
                    assert(forall|k: int|
                        0 <= k < i as int ==> (#[trigger] lindblad_ops@[k]).spec_dim()
                            == dim as nat);
                }
                return Err(Error::DimensionMismatch { expected: dim, actual: d });
            }
            i = i + 1;
        }
        Ok(LindbladSolver { hamiltonian, lindblad_ops, dim })
    }

    /// Evaluates the generator `d rho / dt` at time `t` by direct matrix
    /// products; the result is pinned to the exact accumulated products of
    /// `lindblad_rhs`.
    pub fn compute_derivative(&self, rho: &DensityMatrix, t: Complex64) -> (r: Result<
        CMatrix,
        Error,
    >)
        requires
            self.wf(),
            rho.wf(),
            rho.spec_dim() == self.spec_dim(),
        ensures
            match r {
                Ok(m) => {
                    &&& m.wf()
                    &&& m.spec_dim() == self.spec_dim()
                    &&& m@ == lindblad_rhs(self.spec_h_sample(t), rho@, self.spec_ops())
                },
                Err(_) => false,
            },
    {
        let dim = self.dim;
        let mut h = CMatrix::zeros(dim);
        self.hamiltonian.compute(t, &mut h);
        let minus_i = c_neg(c_u32(0, 1));
        let h_rho = h.times(rho.data());
        let rho_h = rho.data().times(&h);
        let mut drho = h_rho.minus(&rho_h).scalar_times(minus_i);
        let half = c_unscale(c_u32(1, 0), c_u32(2, 0));
        let n = self.lindblad_ops.len();
        let mut k: usize = 0;
        while k < n
            invariant
                k <= n,
                drho.wf(),
                drho.spec_dim() == self.spec_dim(),
                half == unscale_of(c64_of(1, 0), c64_of(2, 0)),
                drho@ == lindblad_acc(
                    crate::matrix::mat_lcmul_spec(
                        neg_of(c64_of(0, 1)),
                        mat_sub_spec(
                            mat_mul_spec(self.spec_h_sample(t), rho@),
                            mat_mul_spec(rho@, self.spec_h_sample(t)),
                        ),
                    ),
                    rho@,
                    self.spec_ops(),
                    k as int,
                ),
            decreases n - k,
        {
            let l = &self.lindblad_ops[k].operator;
            let gamma = self.lindblad_ops[k].rate;
            let l_rho = l.times(rho.data());
            let l_rho_ldag = l_rho.times_dagger(l);
            let ldag_l = l.dagger_times(l);
            let anticommutator = ldag_l.times(rho.data()).plus(&rho.data().times(&ldag_l));
            let term = l_rho_ldag.minus(&anticommutator.scaled(half));
            drho = drho.plus(&term.scaled(gamma));
            k = k + 1;
        }
        Ok(drho)
    }

    /// Advances the density matrix by one fourth-order step in place; every
    /// intermediate stage is built through the unchecked path, and no trace
    /// correction is applied to the accepted result.
    pub fn step(&self, rho: &mut DensityMatrix, t: Complex64, dt: Complex64) -> (r: Result<
        (),
        Error,
    >)
        requires
            self.wf(),
            old(rho).wf(),
            old(rho).spec_dim() == self.spec_dim(),
        ensures
            r matches Ok(()),
            final(rho).wf(),
            final(rho).spec_dim() == old(rho).spec_dim(),
            final(rho)@ == lindblad_next(
                self.spec_h_sample(t),
                self.spec_h_sample(crate::scalar::add_of(t, unscale_of(dt, c64_of(2, 0)))),
                self.spec_h_sample(crate::scalar::add_of(t, dt)),
                old(rho)@,
                self.spec_ops(),
                dt,
            ),
    {
        let half_dt = c_unscale(dt, c_u32(2, 0));
        let t_half = crate::scalar::c_add(t, half_dt);
        let t_full = crate::scalar::c_add(t, dt);
        let two = c_u32(2, 0);
        let factor = c_unscale(dt, c_u32(6, 0));

        let k1 = match self.compute_derivative(rho, t) {
            Ok(m) => m,
            Err(e) => {
                return Err(e);
            },
        };
        let rho2 = DensityMatrix::new_unchecked(rho.data().plus(&k1.times_scalar(half_dt)));
        let k2 = match self.compute_derivative(&rho2, t_half) {
            Ok(m) => m,
            Err(e) => {
                return Err(e);
            },
        };
        let rho3 = DensityMatrix::new_unchecked(rho.data().plus(&k2.times_scalar(half_dt)));
        let k3 = match self.compute_derivative(&rho3, t_half) {
            Ok(m) => m,
            Err(e) => {
                return Err(e);
            },
        };
        let rho4 = DensityMatrix::new_unchecked(rho.data().plus(&k3.times_scalar(dt)));
        let k4 = match self.compute_derivative(&rho4, t_full) {
            Ok(m) => m,
            Err(e) => {
                return Err(e);
            },
        };
        let increment = k1.plus(&k2.scaled(two)).plus(&k3.scaled(two)).plus(&k4);
        let new_data = rho.data().plus(&increment.times_scalar(factor));
        *rho = DensityMatrix::new_unchecked(new_data);
        Ok(())
    }
}

} // verus!
