//! Pure states and density matrices, with their validated invariants.

use vstd::prelude::*;
use num_complex::Complex64;

verus! {

use crate::error::Error;
use crate::math::{hermitian_within, invariant_tol, is_hermitian, make_invariant_tol, trace,
    trace_spec};
use crate::matrix::{
    mat_mul_spec, norm_sqr_sum, unscale_vec_spec, vec_norm, vec_norm_spec, vec_unscale, CMatrix,
};
use crate::scalar::{
    abs_re_of, c64_of, c_abs_re, c_im, c_lt, c_parts, c_re, c_sub, c_u32, conj_of, im_of,
    lt_re_of, mul_of, random_real, re_of, sub_of,
};

/// The squared norm of the vector is within the invariant tolerance of one.
pub open spec fn normalized_within_tol(v: Seq<Complex64>) -> bool {
    !lt_re_of(invariant_tol(), abs_re_of(sub_of(norm_sqr_sum(v), c64_of(1, 0))))
}

/// A pure quantum state: a complex vector whose squared norm is one, within
/// the invariant tolerance, on every construction path that claims validity.
#[derive(Clone)]
pub struct QuantumState {
    data: Vec<Complex64>,
}

impl View for QuantumState {
    type V = Seq<Complex64>;

    closed spec fn view(&self) -> Seq<Complex64> {
        self.data@
    }
}

impl QuantumState {
    pub open spec fn spec_dim(&self) -> nat {
        self@.len()
    }

    /// The validating constructor: accepts exactly the vectors whose squared
    /// norm is within the tolerance of one.
    pub fn new(data: Vec<Complex64>) -> (r: Result<QuantumState, Error>)
        ensures
            match r {
                Ok(s) => s@ == data@ && normalized_within_tol(data@),
                Err(e) => {
                    &&& !normalized_within_tol(data@)
                    &&& e matches Error::InvalidParameter(m) && m@
                        == "State must be normalized"@
                },
            },
    {
        let norm_sq = crate::matrix::vec_norm_sqr(&data);
        let one = c_u32(1, 0);
        let tol = make_invariant_tol();
        let deviation = c_abs_re(c_sub(norm_sq, one));
        if c_lt(tol, deviation) {
            return Err(Error::InvalidParameter("State must be normalized".to_string()));
        }
        Ok(QuantumState { data })
    }

    /// The internal unchecked path for integrator intermediates; never
    /// reachable from caller-supplied data.
    pub(crate) fn from_components_unchecked(data: Vec<Complex64>) -> (r: QuantumState)
        ensures
            r@ == data@,
    {
        QuantumState { data }
    }

    /// The canonical basis vector with a one in the lowest level.
    pub fn ground_state(dim: usize) -> (r: QuantumState)
        requires
            dim >= 1,
        ensures
            r.spec_dim() == dim,
            r@[0] == c64_of(1, 0),
            forall|i: int| 1 <= i < dim ==> r@[i] == c64_of(0, 0),
    {
        let one = c_u32(1, 0);
        let zero = c_u32(0, 0);
        let mut data: Vec<Complex64> = Vec::new();
        data.push(one);
        let mut i: usize = 1;
        while i < dim
            invariant
                1 <= i <= dim,
                data@.len() == i,
                data@[0] == c64_of(1, 0),
                forall|k: int| 1 <= k < i ==> data@[k] == c64_of(0, 0),
            decreases dim - i,
        {
            data.push(zero);
            i = i + 1;
        }
        QuantumState { data }
    }

    /// A state with independently drawn random components, renormalized; the
    /// draw is not uniform over the physical state manifold, a documented
    /// limitation kept as it stands. Whatever the draw, the result is some
    /// vector of the right length divided entrywise by its own norm.
    pub fn random(dim: usize) -> (r: QuantumState)
        ensures
            r.spec_dim() == dim,
            exists|c: Seq<Complex64>|
                c.len() == dim && r@ == unscale_vec_spec(c, vec_norm_spec(c)),
    {
        let mut data: Vec<Complex64> = Vec::new();
        let mut i: usize = 0;
        while i < dim
            invariant
                i <= dim,
                data@.len() == i,
            decreases dim - i,
        {
            let re = random_real();
            let im = random_real();
            data.push(c_parts(re, im));
            i = i + 1;
        }
        let norm = vec_norm(&data);
        let normalized = vec_unscale(&data, norm);
        proof {
            assert(data@.len() == dim && normalized@ == unscale_vec_spec(
                data@,
                vec_norm_spec(data@),
            ));
        }
        QuantumState { data: normalized }
    }

    pub fn dim(&self) -> (r: usize)
        ensures
            r == self.spec_dim(),
    {
        self.data.len()
    }

    pub fn data(&self) -> (r: &Vec<Complex64>)
        ensures
            r@ == self@,
    {
        &self.data
    }

    /// The projector onto this state: entry `(i, j)` is
    /// `psi[i] * conj(psi[j])`.
    pub fn to_density_matrix(&self) -> (r: DensityMatrix)
        ensures
            r.wf(),
            r.spec_dim() == self.spec_dim(),
            r@ == outer_spec(self@),
    {
        let dim = self.data.len();
        let ghost target = outer_spec(self@);
        let mut rows: Vec<Vec<Complex64>> = Vec::new();
        let mut i: usize = 0;
        while i < dim
            invariant
                i <= dim,
                rows@.len() == i,
                forall|a: int| 0 <= a < i ==> (#[trigger] rows@[a])@ == target[a],
            decreases dim - i,
        {
            let mut row: Vec<Complex64> = Vec::new();
            let mut j: usize = 0;
            while j < dim
                invariant
                    i < dim,
                    j <= dim,
                    row@.len() == j,
                    forall|b: int| 0 <= b < j ==> (#[trigger] row@[b]) == target[i as int][b],
                decreases dim - j,
            {
                let v = crate::scalar::c_mul(self.data[i], crate::scalar::c_conj(self.data[j]));
                row.push(v);
                j = j + 1;
            }
            proof {
                assert(row@ =~= target[i as int]);
            }
            rows.push(row);
            i = i + 1;
        }
        let m = CMatrix { dim, rows };
        proof {
            assert(m@ =~~= target);
        }
        DensityMatrix { data: m }
    }
}

/// The outer product `psi * psi^dagger`.
pub open spec fn outer_spec(v: Seq<Complex64>) -> Seq<Seq<Complex64>> {
    Seq::new(v.len(), |i: int| Seq::new(v.len(), |j: int| mul_of(v[i], conj_of(v[j]))))
}

/// The trace is within the invariant tolerance of one: its real part within
/// the tolerance of one and its imaginary part within the tolerance of zero.
pub open spec fn unit_trace_within_tol(m: Seq<Seq<Complex64>>) -> bool {
    &&& !lt_re_of(invariant_tol(), abs_re_of(sub_of(trace_spec(m), c64_of(1, 0))))
    &&& !lt_re_of(invariant_tol(), abs_re_of(im_of(trace_spec(m))))
}

/// A density matrix: a square complex matrix, Hermitian and of unit trace
/// within the invariant tolerance on the validated construction path.
#[derive(Clone)]
pub struct DensityMatrix {
    data: CMatrix,
}

impl View for DensityMatrix {
    type V = Seq<Seq<Complex64>>;

    closed spec fn view(&self) -> Seq<Seq<Complex64>> {
        self.data@
    }
}

impl DensityMatrix {
    /// The rows are square: the shape invariant every path establishes.
    pub closed spec fn wf(&self) -> bool {
        self.data.wf()
    }

    pub open spec fn spec_dim(&self) -> nat {
        self@.len()
    }

    /// The validating constructor: accepts exactly the Hermitian,
    /// unit-trace matrices, within the invariant tolerance.
    pub fn new(data: CMatrix) -> (r: Result<DensityMatrix, Error>)
        requires
            data.wf(),
        ensures
            match r {
                Ok(s) => {
                    &&& s@ == data@
                    &&& s.wf()
                    &&& s.spec_dim() == data.spec_dim()
                    &&& hermitian_within(data@, invariant_tol())
                    &&& unit_trace_within_tol(data@)
                },
                Err(e) => {
                    &&& !(hermitian_within(data@, invariant_tol()) && unit_trace_within_tol(
                        data@,
                    ))
                    &&& e matches Error::InvalidParameter(m)
                    &&& !hermitian_within(data@, invariant_tol()) ==> (
                    e matches Error::InvalidParameter(m) && m@
                        == "Density matrix must be Hermitian"@)
                    &&& hermitian_within(data@, invariant_tol()) ==> (
                    e matches Error::InvalidParameter(m) && m@
                        == "Density matrix must have trace 1"@)
                },
            },
    {
        let tol = make_invariant_tol();
        if !is_hermitian(&data, tol) {
            return Err(Error::InvalidParameter("Density matrix must be Hermitian".to_string()));
        }
        let tr = trace(&data);
        let one = c_u32(1, 0);
        let re_deviation = c_abs_re(c_sub(tr, one));
        let im_deviation = c_abs_re(c_im(tr));
        if c_lt(tol, re_deviation) || c_lt(tol, im_deviation) {
            return Err(Error::InvalidParameter("Density matrix must have trace 1".to_string()));
        }
        Ok(DensityMatrix { data })
    }

    /// The internal unchecked path for solver intermediates that are not
    /// themselves physical states.
    pub(crate) fn new_unchecked(data: CMatrix) -> (r: DensityMatrix)
        requires
            data.wf(),
        ensures
            r@ == data@,
            r.wf(),
            r.spec_dim() == data.spec_dim(),
    {
        DensityMatrix { data }
    }

    /// The maximally mixed state: `1/dim` on the diagonal.
    pub fn maximally_mixed(dim: usize) -> (r: DensityMatrix)
        requires
            dim <= u32::MAX,
        ensures
            r.wf(),
            r.spec_dim() == dim,
            forall|i: int, j: int|
                0 <= i < dim && 0 <= j < dim ==> r@[i][j] == (if i == j {
                    maximally_mixed_weight(dim as nat)
                } else {
                    c64_of(0, 0)
                }),
    {
        let one = c_u32(1, 0);
        let zero = c_u32(0, 0);
        let weight = crate::scalar::c_unscale(one, c_u32(dim as u32, 0));
        let ghost target = Seq::new(
            dim as nat,
            |i: int|
                Seq::new(
                    dim as nat,
                    |j: int|
                        if i == j {
                            maximally_mixed_weight(dim as nat)
                        } else {
                            c64_of(0, 0)
                        },
                ),
        );
        let mut rows: Vec<Vec<Complex64>> = Vec::new();
        let mut i: usize = 0;
        while i < dim
            invariant
                i <= dim,
                rows@.len() == i,
                weight == maximally_mixed_weight(dim as nat),
                forall|a: int| 0 <= a < i ==> (#[trigger] rows@[a])@ == target[a],
            decreases dim - i,
        {
            let mut row: Vec<Complex64> = Vec::new();
            let mut j: usize = 0;
            while j < dim
                invariant
                    i < dim,
                    j <= dim,
                    row@.len() == j,
                    weight == maximally_mixed_weight(dim as nat),
                    forall|b: int| 0 <= b < j ==> (#[trigger] row@[b]) == target[i as int][b],
                decreases dim - j,
            {
                if i == j {
                    row.push(weight);
                } else {
                    row.push(zero);
                }
                j = j + 1;
            }
            proof {
                assert(row@ =~= target[i as int]);
            }
            rows.push(row);
            i = i + 1;
        }
        let m = CMatrix { dim, rows };
        proof {
            assert(m@ =~~= target);
        }
        DensityMatrix { data: m }
    }

    pub fn dim(&self) -> (r: usize)
        requires
            self.wf(),
        ensures
            r == self.spec_dim(),
    {
        self.data.dim()
    }

    pub fn data(&self) -> (r: &CMatrix)
        ensures
            r@ == self@,
            self.wf() ==> r.wf(),
    {
        &self.data
    }

    /// Mutable access to the stored matrix; what the caller writes through
    /// the borrow is what the state holds afterwards.
    pub fn data_mut(&mut self) -> (r: &mut CMatrix)
        ensures
            (*r)@ == old(self)@,
            final(self)@ == final(r)@,
            final(r).wf() ==> final(self).wf(),
            old(self).wf() ==> (*r).wf(),
    {
        &mut self.data
    }

    /// The trace of the matrix squared, as a real number.
    pub fn purity(&self) -> (r: Complex64)
        requires
            self.wf(),
        ensures
            r == re_of(trace_spec(mat_mul_spec(self@, self@))),
    {
        let squared = self.data.times(&self.data);
        let tr = trace(&squared);
        c_re(tr)
    }

    /// Fails loudly: the entropy computation is an explicitly unsupported
    /// path.
    pub fn von_neumann_entropy(&self) -> (r: Result<Complex64, Error>)
        ensures
            r matches Err(e) && e matches Error::NotImplemented(m) && m@
                == "von_neumann_entropy"@,
    {
        Err(Error::NotImplemented("von_neumann_entropy".to_string()))
    }
}

/// The diagonal weight `1/dim` of the maximally mixed state.
pub open spec fn maximally_mixed_weight(dim: nat) -> Complex64 {
    crate::scalar::unscale_of(c64_of(1, 0), c64_of(dim as u32, 0))
}

} // verus!
