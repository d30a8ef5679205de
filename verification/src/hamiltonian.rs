//! The Hamiltonian abstraction: a time-dependent operator sampled on demand.

use vstd::prelude::*;
use num_complex::Complex64;

verus! {

use crate::error::Error;
use crate::math::{hermitian_within, invariant_tol, is_hermitian, make_invariant_tol};
use crate::matrix::{mat_add_spec, CMatrix};
use crate::scalar::c64_of;

/// A (possibly time-dependent) operator: a fixed dimension, a sample at any
/// time, and two static capabilities: whether it is time-independent, and an
/// exact period if it has one.
pub trait Hamiltonian {
    spec fn wf(&self) -> bool;

    spec fn spec_dim(&self) -> nat;

    /// The matrix this Hamiltonian produces at time `t`.
    spec fn spec_sample(&self, t: Complex64) -> Seq<Seq<Complex64>>;

    spec fn spec_time_independent(&self) -> bool;

    spec fn spec_period(&self) -> Option<Complex64>;

    fn dim(&self) -> (r: usize)
        requires
            self.wf(),
        ensures
            r as nat == self.spec_dim(),
    ;

    /// Overwrites the whole caller-owned buffer with the sample at time `t`.
    fn compute(&self, t: Complex64, out: &mut CMatrix)
        requires
            self.wf(),
            old(out).wf(),
            old(out).spec_dim() == self.spec_dim(),
        ensures
            final(out).wf(),
            final(out).spec_dim() == self.spec_dim(),
            final(out)@ == self.spec_sample(t),
    ;

    fn is_time_independent(&self) -> (r: bool)
        ensures
            r == self.spec_time_independent(),
    ;

    /// An exact period, where one is known; required input for any future
    /// periodic spectral analysis.
    fn period(&self) -> (r: Option<Complex64>)
        ensures
            r == self.spec_period(),
    ;

    /// Samples at time zero and fails with a Hamiltonian-kind error exactly
    /// when the sample is not Hermitian within the invariant tolerance.
    fn validate(&self) -> (r: Result<(), Error>)
        requires
            self.wf(),
        ensures
            match r {
                Ok(()) => hermitian_within(self.spec_sample(c64_of(0, 0)), invariant_tol()),
                Err(e) => {
                    &&& !hermitian_within(self.spec_sample(c64_of(0, 0)), invariant_tol())
                    &&& e matches Error::Hamiltonian(m) && m@ == "Hamiltonian is not Hermitian"@
                },
            },
    {
        let dim = self.dim();
        let mut h = CMatrix::zeros(dim);
        let t0 = crate::scalar::c_u32(0, 0);
        self.compute(t0, &mut h);
        let tol = make_invariant_tol();
        if !is_hermitian(&h, tol) {
            return Err(Error::Hamiltonian("Hamiltonian is not Hermitian".to_string()));
        }
        Ok(())
    }
}

/// A fixed matrix, sampled identically at every time.
pub struct TimeIndependentHamiltonian {
    pub matrix: CMatrix,
}

impl TimeIndependentHamiltonian {
    pub fn new(matrix: CMatrix) -> (r: TimeIndependentHamiltonian)
        requires
            matrix.wf(),
        ensures
            r.wf(),
            r.spec_dim() == matrix.spec_dim(),
            forall|t: Complex64| r.spec_sample(t) == matrix@,
    {
        TimeIndependentHamiltonian { matrix }
    }
}

impl Hamiltonian for TimeIndependentHamiltonian {
    open spec fn wf(&self) -> bool {
        self.matrix.wf()
    }

    open spec fn spec_dim(&self) -> nat {
        self.matrix.spec_dim()
    }

    open spec fn spec_sample(&self, t: Complex64) -> Seq<Seq<Complex64>> {
        self.matrix@
    }

    open spec fn spec_time_independent(&self) -> bool {
        true
    }

    open spec fn spec_period(&self) -> Option<Complex64> {
        None
    }

    fn dim(&self) -> (r: usize)
        ensures
            r as nat == self.spec_dim(),
    {
        self.matrix.dim()
    }

    fn compute(&self, t: Complex64, out: &mut CMatrix) {
        let copy = self.matrix.duplicate();
        *out = copy;
    }

    fn is_time_independent(&self) -> (r: bool) {
        true
    }

    fn period(&self) -> (r: Option<Complex64>) {
        None
    }
}

/// The sample of the first `k` terms of a composite: the first term's
/// sample, with each later term's sample added entrywise.
pub open spec fn composite_sample_prefix(
    terms: Seq<Box<dyn Hamiltonian>>,
    t: Complex64,
    k: int,
) -> Seq<Seq<Complex64>>
    decreases k,
{
    if k <= 1 {
        terms[0].spec_sample(t)
    } else {
        mat_add_spec(composite_sample_prefix(terms, t, k - 1), terms[k - 1].spec_sample(t))
    }
}

/// An owned sum of sub-Hamiltonians, all of one dimension.
pub struct CompositeHamiltonian {
    terms: Vec<Box<dyn Hamiltonian>>,
    dim: usize,
}

impl CompositeHamiltonian {
    pub closed spec fn spec_terms(&self) -> Seq<Box<dyn Hamiltonian>> {
        self.terms@
    }

    /// Construction fails on zero terms with a Hamiltonian-kind error, and
    /// on the first term whose dimension differs from the first term's with
    /// a dimension mismatch naming both.
    pub fn new(terms: Vec<Box<dyn Hamiltonian>>) -> (r: Result<CompositeHamiltonian, Error>)
        requires
            forall|i: int| 0 <= i < terms@.len() ==> (#[trigger] terms@[i]).wf(),
        ensures
            match r {
                Ok(c) => {
                    &&& terms@.len() > 0
                    &&& c.wf()
                    &&& c.spec_terms() == terms@
                    &&& c.spec_dim() == terms@[0].spec_dim()
                    &&& forall|i: int|
                        0 <= i < terms@.len() ==> (#[trigger] terms@[i]).spec_dim()
                            == terms@[0].spec_dim()
                },
                Err(e) => {
                    &&& (terms@.len() == 0 ==> (e matches Error::Hamiltonian(m) && m@
                        == "Composite Hamiltonian must have at least one term"@))
                    &&& (terms@.len() > 0 ==> {
                        &&& e matches Error::DimensionMismatch { expected, actual }
                        &&& exists|i: int|
                            0 <= i < terms@.len() && (#[trigger] terms@[i]).spec_dim() == actual
                                && actual != expected && (forall|k: int|
                                0 <= k < i ==> (#[trigger] terms@[k]).spec_dim() == expected)
                        &&& expected == terms@[0].spec_dim()
                    })
                },
            },
    {
        if terms.len() == 0 {
            return Err(
                Error::Hamiltonian("Composite Hamiltonian must have at least one term".to_string()),
            );
        }
        let dim = terms[0].dim();
        let n = terms.len();
        let mut i: usize = 0;
        while i < n
            invariant
                i <= n,
                n == terms@.len(),
                dim as nat == terms@[0].spec_dim(),
                forall|k: int| 0 <= k < i ==> (#[trigger] terms@[k]).spec_dim() == dim as nat,
            decreases n - i,
        {
            let d = terms[i].dim();
            if d != dim {
                proof {
                    assert(terms@[i as int].spec_dim() == d as nat);
                    assert(forall|k: int|
                        0 <= k < i as int ==> (#[trigger] terms@[k]).spec_dim() == dim as nat);
                }
                return Err(Error::DimensionMismatch { expected: dim, actual: d });
            }
            i = i + 1;
        }
        Ok(CompositeHamiltonian { terms, dim })
    }
}

impl Hamiltonian for CompositeHamiltonian {
    closed spec fn wf(&self) -> bool {
        &&& self.terms@.len() > 0
    &&& self.dim as nat == self.terms@[0].spec_dim()
    &&& forall|i: int| 0 <= i < self.terms@.len() ==> (#[trigger] self.terms@[i]).wf()
    &&& forall|i: int|
        0 <= i < self.terms@.len() ==> (#[trigger] self.terms@[i]).spec_dim() == self.dim as nat
    }

    closed spec fn spec_dim(&self) -> nat {
        self.dim as nat
    }

    /// The sample: the first term's sample, with each later term's sample
    /// accumulated entrywise in order.
    closed spec fn spec_sample(&self, t: Complex64) -> Seq<Seq<Complex64>> {
        composite_sample_prefix(self.terms@, t, self.terms@.len() as int)
    }

    closed spec fn spec_time_independent(&self) -> bool {
        false
    }

    closed spec fn spec_period(&self) -> Option<Complex64> {
        None
    }

    fn dim(&self) -> (r: usize)
        ensures
            r as nat == self.spec_dim(),
    {
        self.dim
    }

    fn compute(&self, t: Complex64, out: &mut CMatrix) {
        let n = self.terms.len();
        let mut acc = CMatrix::zeros(self.dim);
        self.terms[0].compute(t, &mut acc);
        let mut k: usize = 1;
        while k < n
            invariant
                1 <= k <= n,
                acc.wf(),
                acc.spec_dim() == self.spec_dim(),
                acc@ == composite_sample_prefix(self.terms@, t, k as int),
            decreases n - k,
        {
            let mut temp = CMatrix::zeros(self.dim);
            self.terms[k].compute(t, &mut temp);
            acc = acc.plus(&temp);
            k = k + 1;
        }
        *out = acc;
    }

    fn is_time_independent(&self) -> (r: bool) {
        false
    }

    fn period(&self) -> (r: Option<Complex64>) {
        None
    }
}

/// For a composite of exactly two terms, the sample is the entrywise sum of
/// the two terms' samples at the same time, for every sampled time.
pub proof fn composite_pair_sample_law(c: &CompositeHamiltonian, t: Complex64)
    requires
        c.wf(),
        c.spec_terms().len() == 2,
    ensures
        c.spec_sample(t) == mat_add_spec(
            c.spec_terms()[0].spec_sample(t),
            c.spec_terms()[1].spec_sample(t),
        ),
{
    assert(composite_sample_prefix(c.spec_terms(), t, 1) == c.spec_terms()[0].spec_sample(t));
    assert(c.spec_sample(t) == mat_add_spec(
        composite_sample_prefix(c.spec_terms(), t, 1),
        c.spec_terms()[1].spec_sample(t),
    ));
}

} // verus!
