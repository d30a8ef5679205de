//! Observables and expectation values against either state representation.

use vstd::prelude::*;
use num_complex::Complex64;

verus! {

use crate::error::Error;
use crate::matrix::{is_square, CMatrix};
use crate::scalar::{add_of, c64_of, c_add, c_conj, c_mul, c_u32, conj_of, mul_of};
use crate::state::{DensityMatrix, QuantumState};

/// The first `j` terms of row `i` of the pure-state expectation sum,
/// `conj(psi[i]) * m[i][j'] * psi[j']`, accumulated onto `init`.
pub open spec fn exp_pure_row_acc(
    init: Complex64,
    m: Seq<Seq<Complex64>>,
    v: Seq<Complex64>,
    i: int,
    j: int,
) -> Complex64
    decreases j,
{
    if j <= 0 {
        init
    } else {
        add_of(
            exp_pure_row_acc(init, m, v, i, j - 1),
            mul_of(mul_of(conj_of(v[i]), m[i][j - 1]), v[j - 1]),
        )
    }
}

/// The pure-state expectation sum over the first `i` rows.
pub open spec fn exp_pure_rows(m: Seq<Seq<Complex64>>, v: Seq<Complex64>, i: int) -> Complex64
    decreases i,
{
    if i <= 0 {
        c64_of(0, 0)
    } else {
        exp_pure_row_acc(exp_pure_rows(m, v, i - 1), m, v, i - 1, m[i - 1].len() as int)
    }
}

/// The expectation of the operator `m` against the pure state `v`:
/// the row-major accumulated sum of `conj(psi[i]) * m[i][j] * psi[j]`.
pub open spec fn expectation_pure_spec(m: Seq<Seq<Complex64>>, v: Seq<Complex64>) -> Complex64 {
    exp_pure_rows(m, v, m.len() as int)
}

/// The first `j` terms of row `i` of the mixed-state expectation sum,
/// `rho[i][j'] * m[j'][i]`, accumulated onto `init`.
pub open spec fn exp_mixed_row_acc(
    init: Complex64,
    m: Seq<Seq<Complex64>>,
    rho: Seq<Seq<Complex64>>,
    i: int,
    j: int,
) -> Complex64
    decreases j,
{
    if j <= 0 {
        init
    } else {
        add_of(exp_mixed_row_acc(init, m, rho, i, j - 1), mul_of(rho[i][j - 1], m[j - 1][i]))
    }
}

/// The expectation of the operator `m` against the density matrix `rho`:
/// the trace of `m * rho`, accumulated as `rho[i][j] * m[j][i]` in row-major
/// order.
pub open spec fn expectation_mixed_spec(
    m: Seq<Seq<Complex64>>,
    rho: Seq<Seq<Complex64>>,
) -> Complex64 {
    exp_mixed_full(m, rho, rho.len() as int)
}

/// The mixed-state expectation sum over the first `i` full rows.
pub open spec fn exp_mixed_full(
    m: Seq<Seq<Complex64>>,
    rho: Seq<Seq<Complex64>>,
    i: int,
) -> Complex64
    decreases i,
{
    if i <= 0 {
        c64_of(0, 0)
    } else {
        exp_mixed_row_acc(exp_mixed_full(m, rho, i - 1), m, rho, i - 1, rho[i - 1].len() as int)
    }
}

/// An operator sampled against states: a dimension and a fixed matrix,
/// Hermitian by physical convention but not enforced at run time.
pub trait Observable {
    spec fn wf(&self) -> bool;

    spec fn spec_dim(&self) -> nat;

    spec fn spec_matrix(&self) -> Seq<Seq<Complex64>>;

    fn dim(&self) -> (r: usize)
        requires
            self.wf(),
        ensures
            r as nat == self.spec_dim(),
    ;

    fn matrix(&self) -> (r: &CMatrix)
        requires
            self.wf(),
        ensures
            r.wf(),
            r@ == self.spec_matrix(),
            r.spec_dim() == self.spec_dim(),
    ;

    /// The expectation against a pure state: the accumulated double sum of
    /// `conj(psi[i]) * m[i][j] * psi[j]`.
    fn expectation_pure(&self, state: &QuantumState) -> (r: Complex64)
        requires
            self.wf(),
            state.spec_dim() == self.spec_dim(),
        ensures
            r == expectation_pure_spec(self.spec_matrix(), state@),
    {
        let m = self.matrix();
        let psi = state.data();
        let dim = self.dim();
        let mut sum = c_u32(0, 0);
        let mut i: usize = 0;
        while i < dim
            invariant
                i <= dim,
                sum == exp_pure_rows(m@, psi@, i as int),
            decreases dim - i,
        {
            let ghost row_start = sum;
            let ci = c_conj(psi[i]);
            let mut j: usize = 0;
            while j < dim
                invariant
                    i < dim,
                    j <= dim,
                    ci == conj_of(psi@[i as int]),
                    sum == exp_pure_row_acc(row_start, m@, psi@, i as int, j as int),
                decreases dim - j,
            {
                let term = c_mul(c_mul(ci, m.at(i, j)), psi[j]);
                sum = c_add(sum, term);
                j = j + 1;
            }
            i = i + 1;
        }
        sum
    }

    /// The expectation against a density matrix: the accumulated double sum
    /// of `rho[i][j] * m[j][i]`, the trace of `m * rho`.
    fn expectation_mixed(&self, state: &DensityMatrix) -> (r: Complex64)
        requires
            self.wf(),
            state.wf(),
            state.spec_dim() == self.spec_dim(),
        ensures
            r == expectation_mixed_spec(self.spec_matrix(), state@),
    {
        let m = self.matrix();
        let rho = state.data();
        let dim = self.dim();
        let mut sum = c_u32(0, 0);
        let mut i: usize = 0;
        while i < dim
            invariant
                i <= dim,
                sum == exp_mixed_full(m@, state@, i as int),
            decreases dim - i,
        {
            let ghost row_start = sum;
            let mut j: usize = 0;
            while j < dim
                invariant
                    i < dim,
                    j <= dim,
                    sum == exp_mixed_row_acc(row_start, m@, state@, i as int, j as int),
                decreases dim - j,
            {
                let term = c_mul(rho.at(i, j), m.at(j, i));
                sum = c_add(sum, term);
                j = j + 1;
            }
            i = i + 1;
        }
        sum
    }
}

/// A sampled expectation value: the time it was taken at and its value.
#[derive(Clone, Copy)]
pub struct ExpectationValue {
    pub time: Complex64,
    pub value: Complex64,
}

/// An observable wrapping an arbitrary caller matrix.
pub struct MatrixObservable {
    matrix: CMatrix,
}

impl MatrixObservable {
    pub fn new(matrix: CMatrix) -> (r: MatrixObservable)
        requires
            matrix.wf(),
        ensures
            r.wf(),
            r.spec_matrix() == matrix@,
            r.spec_dim() == matrix.spec_dim(),
    {
        MatrixObservable { matrix }
    }
}

impl Observable for MatrixObservable {
    closed spec fn wf(&self) -> bool {
        self.matrix.wf()
    }

    closed spec fn spec_dim(&self) -> nat {
        self.matrix.spec_dim()
    }

    closed spec fn spec_matrix(&self) -> Seq<Seq<Complex64>> {
        self.matrix@
    }

    fn dim(&self) -> (r: usize) {
        self.matrix.dim()
    }

    fn matrix(&self) -> (r: &CMatrix) {
        &self.matrix
    }
}

/// The number operator: the level index on the diagonal.
pub struct NumberOperator {
    matrix: CMatrix,
}

/// Entry `(i, j)` of the number operator: the level index `i` where `i == j`,
/// zero elsewhere.
pub open spec fn number_entry(i: int, j: int) -> Complex64 {
    if i == j {
        c64_of(i as u32, 0)
    } else {
        c64_of(0, 0)
    }
}

impl NumberOperator {
    pub fn new(dim: usize) -> (r: NumberOperator)
        requires
            dim <= u32::MAX,
        ensures
            r.wf(),
            r.spec_dim() == dim,
            forall|i: int, j: int|
                0 <= i < dim && 0 <= j < dim ==> r.spec_matrix()[i][j] == number_entry(i, j),
    {
        let ghost target = Seq::new(
            dim as nat,
            |i: int| Seq::new(dim as nat, |j: int| number_entry(i, j)),
        );
        let zero = c_u32(0, 0);
        let mut rows: Vec<Vec<Complex64>> = Vec::new();
        let mut i: usize = 0;
        while i < dim
            invariant
                i <= dim,
                rows@.len() == i,
                forall|a: int| 0 <= a < i ==> (#[trigger] rows@[a])@ == target[a],
            decreases dim - i,
        {
            let mut row: Vec<Complex64> = Vec::new();
            let mut j: usize = 0;
            while j < dim
                invariant
                    i < dim,
                    j <= dim,
                    row@.len() == j,
                    forall|b: int| 0 <= b < j ==> (#[trigger] row@[b]) == number_entry(i as int, b),
                decreases dim - j,
            {
                if i == j {
                    row.push(c_u32(i as u32, 0));
                } else {
                    row.push(zero);
                }
                j = j + 1;
            }
            proof {
                assert(row@ =~= target[i as int]);
            }
            rows.push(row);
            i = i + 1;
        }
        let m = CMatrix { dim, rows };
        proof {
            assert(m@ =~~= target);
        }
        NumberOperator { matrix: m }
    }
}

impl Observable for NumberOperator {
    closed spec fn wf(&self) -> bool {
        self.matrix.wf()
    }

    closed spec fn spec_dim(&self) -> nat {
        self.matrix.spec_dim()
    }

    closed spec fn spec_matrix(&self) -> Seq<Seq<Complex64>> {
        self.matrix@
    }

    fn dim(&self) -> (r: usize) {
        self.matrix.dim()
    }

    fn matrix(&self) -> (r: &CMatrix) {
        &self.matrix
    }
}

/// The projector onto one level: a single one on the diagonal.
pub struct PopulationOperator {
    matrix: CMatrix,
    level: usize,
}

/// A matrix with a single one at `(a, b)` and zeros elsewhere.
pub open spec fn unit_entry(a: int, b: int, i: int, j: int) -> Complex64 {
    if i == a && j == b {
        c64_of(1, 0)
    } else {
        c64_of(0, 0)
    }
}

/// Builds the `dim` by `dim` matrix with a single one at `(a, b)`.
fn unit_matrix(dim: usize, a: usize, b: usize) -> (r: CMatrix)
    requires
        a < dim,
        b < dim,
    ensures
        r.wf(),
        r.spec_dim() == dim,
        forall|i: int, j: int|
            0 <= i < dim && 0 <= j < dim ==> r@[i][j] == unit_entry(a as int, b as int, i, j),
{
    let ghost target = Seq::new(
        dim as nat,
        |i: int| Seq::new(dim as nat, |j: int| unit_entry(a as int, b as int, i, j)),
    );
    let one = c_u32(1, 0);
    let zero = c_u32(0, 0);
    let mut rows: Vec<Vec<Complex64>> = Vec::new();
    let mut i: usize = 0;
    while i < dim
        invariant
            i <= dim,
            rows@.len() == i,
            forall|r2: int| 0 <= r2 < i ==> (#[trigger] rows@[r2])@ == target[r2],
        decreases dim - i,
    {
        let mut row: Vec<Complex64> = Vec::new();
        let mut j: usize = 0;
        while j < dim
            invariant
                i < dim,
                j <= dim,
                row@.len() == j,
                forall|b2: int|
                    0 <= b2 < j ==> (#[trigger] row@[b2]) == unit_entry(
                        a as int,
                        b as int,
                        i as int,
                        b2,
                    ),
            decreases dim - j,
        {
            if i == a && j == b {
                row.push(one);
            } else {
                row.push(zero);
            }
            j = j + 1;
        }
        proof {
            assert(row@ =~= target[i as int]);
        }
        rows.push(row);
        i = i + 1;
    }
    let m = CMatrix { dim, rows };
    proof {
        assert(m@ =~~= target);
    }
    m
}

impl PopulationOperator {
    /// Fails with an invalid-parameter error exactly when the level is out
    /// of bounds for the dimension.
    pub fn new(dim: usize, level: usize) -> (r: Result<PopulationOperator, Error>)
        ensures
            match r {
                Ok(p) => {
                    &&& level < dim
                    &&& p.wf()
                    &&& p.spec_dim() == dim
                    &&& forall|i: int, j: int|
                        0 <= i < dim && 0 <= j < dim ==> p.spec_matrix()[i][j] == unit_entry(
                            level as int,
                            level as int,
                            i,
                            j,
                        )
                },
                Err(e) => {
                    &&& level >= dim
                    &&& e matches Error::InvalidParameter(m) && m@
                        == "Level out of bounds for dimension"@
                },
            },
    {
        if level >= dim {
            return Err(
                Error::InvalidParameter("Level out of bounds for dimension".to_string()),
            );
        }
        let m = unit_matrix(dim, level, level);
        Ok(PopulationOperator { matrix: m, level })
    }
}

impl Observable for PopulationOperator {
    closed spec fn wf(&self) -> bool {
        self.matrix.wf()
    }

    closed spec fn spec_dim(&self) -> nat {
        self.matrix.spec_dim()
    }

    closed spec fn spec_matrix(&self) -> Seq<Seq<Complex64>> {
        self.matrix@
    }

    fn dim(&self) -> (r: usize) {
        self.matrix.dim()
    }

    fn matrix(&self) -> (r: &CMatrix) {
        &self.matrix
    }
}

/// The coherence projector `|i><j|`: a single one at `(i, j)`.
pub struct CoherenceOperator {
    matrix: CMatrix,
}

impl CoherenceOperator {
    /// Fails with an invalid-parameter error exactly when either index is
    /// out of bounds for the dimension.
    pub fn new(dim: usize, i: usize, j: usize) -> (r: Result<CoherenceOperator, Error>)
        ensures
            match r {
                Ok(p) => {
                    &&& i < dim && j < dim
                    &&& p.wf()
                    &&& p.spec_dim() == dim
                    &&& forall|a: int, b: int|
                        0 <= a < dim && 0 <= b < dim ==> p.spec_matrix()[a][b] == unit_entry(
                            i as int,
                            j as int,
                            a,
                            b,
                        )
                },
                Err(e) => {
                    &&& (i >= dim || j >= dim)
                    &&& e matches Error::InvalidParameter(m) && m@ == "Indices out of bounds"@
                },
            },
    {
        if i >= dim || j >= dim {
            return Err(Error::InvalidParameter("Indices out of bounds".to_string()));
        }
        let m = unit_matrix(dim, i, j);
        Ok(CoherenceOperator { matrix: m })
    }
}

impl Observable for CoherenceOperator {
    closed spec fn wf(&self) -> bool {
        self.matrix.wf()
    }

    closed spec fn spec_dim(&self) -> nat {
        self.matrix.spec_dim()
    }

    closed spec fn spec_matrix(&self) -> Seq<Seq<Complex64>> {
        self.matrix@
    }

    fn dim(&self) -> (r: usize) {
        self.matrix.dim()
    }

    fn matrix(&self) -> (r: &CMatrix) {
        &self.matrix
    }
}

} // verus!
