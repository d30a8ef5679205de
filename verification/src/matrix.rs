//! Square complex matrices and state vectors, with a symbolic model.
//!
//! A matrix is a vector of rows; a state vector is a plain `Vec<Complex64>`.
//! Every arithmetic result is pinned in the specs to the exact tree of scalar
//! operations that produced it, written with the names of `crate::scalar`.

use vstd::prelude::*;
use num_complex::Complex64;

verus! {

use crate::scalar::{
    add_of, c64_of, c_add, c_conj, c_mul, c_norm_sqr, c_scale, c_sqrt_re, c_sub, c_u32, c_unscale,
    conj_of, mul_of, norm_sqr_of, scale_of, sqrt_re_of, sub_of, unscale_of,
};

/// A square matrix of complex numbers, stored as rows.
#[derive(Clone)]
pub struct CMatrix {
    pub dim: usize,
    pub rows: Vec<Vec<Complex64>>,
}

impl View for CMatrix {
    type V = Seq<Seq<Complex64>>;

    open spec fn view(&self) -> Seq<Seq<Complex64>> {
        Seq::new(self.rows@.len(), |i: int| self.rows@[i]@)
    }
}

/// A well-formed `n` by `n` matrix value: `n` rows of `n` entries each.
pub open spec fn is_square(m: Seq<Seq<Complex64>>, n: nat) -> bool {
    m.len() == n && forall|i: int| 0 <= i < n ==> (#[trigger] m[i]).len() == n
}

/// Column `j` of `m`.
pub open spec fn col(m: Seq<Seq<Complex64>>, j: int) -> Seq<Complex64> {
    Seq::new(m.len(), |k: int| m[k][j])
}

/// The sum of `a[k] * b[k]` over the first `k` indices, accumulated left to
/// right from the scalar zero.
pub open spec fn dot_prefix(a: Seq<Complex64>, b: Seq<Complex64>, k: int) -> Complex64
    decreases k,
{
    if k <= 0 {
        c64_of(0, 0)
    } else {
        add_of(dot_prefix(a, b, k - 1), mul_of(a[k - 1], b[k - 1]))
    }
}

/// The accumulated sum of `a[k] * b[k]` over all of `a`.
pub open spec fn dot(a: Seq<Complex64>, b: Seq<Complex64>) -> Complex64 {
    dot_prefix(a, b, a.len() as int)
}

/// The sum of `conj(a[k]) * b[k]` over the first `k` indices.
pub open spec fn dotc_prefix(a: Seq<Complex64>, b: Seq<Complex64>, k: int) -> Complex64
    decreases k,
{
    if k <= 0 {
        c64_of(0, 0)
    } else {
        add_of(dotc_prefix(a, b, k - 1), mul_of(conj_of(a[k - 1]), b[k - 1]))
    }
}

/// The accumulated sum of `conj(a[k]) * b[k]` over all of `a`.
pub open spec fn dotc(a: Seq<Complex64>, b: Seq<Complex64>) -> Complex64 {
    dotc_prefix(a, b, a.len() as int)
}

/// The sum of `a[k] * conj(b[k])` over the first `k` indices.
pub open spec fn dotcr_prefix(a: Seq<Complex64>, b: Seq<Complex64>, k: int) -> Complex64
    decreases k,
{
    if k <= 0 {
        c64_of(0, 0)
    } else {
        add_of(dotcr_prefix(a, b, k - 1), mul_of(a[k - 1], conj_of(b[k - 1])))
    }
}

/// The accumulated sum of `a[k] * conj(b[k])` over all of `a`.
pub open spec fn dotcr(a: Seq<Complex64>, b: Seq<Complex64>) -> Complex64 {
    dotcr_prefix(a, b, a.len() as int)
}

/// Entrywise sum.
pub open spec fn mat_add_spec(a: Seq<Seq<Complex64>>, b: Seq<Seq<Complex64>>) -> Seq<
    Seq<Complex64>,
> {
    Seq::new(a.len(), |i: int| Seq::new(a[i].len(), |j: int| add_of(a[i][j], b[i][j])))
}

/// Entrywise difference.
pub open spec fn mat_sub_spec(a: Seq<Seq<Complex64>>, b: Seq<Seq<Complex64>>) -> Seq<
    Seq<Complex64>,
> {
    Seq::new(a.len(), |i: int| Seq::new(a[i].len(), |j: int| sub_of(a[i][j], b[i][j])))
}

/// Every entry scaled by the real scalar `t`.
pub open spec fn mat_scale_spec(m: Seq<Seq<Complex64>>, t: Complex64) -> Seq<Seq<Complex64>> {
    Seq::new(m.len(), |i: int| Seq::new(m[i].len(), |j: int| scale_of(m[i][j], t)))
}

/// Every entry multiplied on the right by the complex factor `c`.
pub open spec fn mat_cmul_spec(m: Seq<Seq<Complex64>>, c: Complex64) -> Seq<Seq<Complex64>> {
    Seq::new(m.len(), |i: int| Seq::new(m[i].len(), |j: int| mul_of(m[i][j], c)))
}

/// Every entry multiplied on the left by the complex factor `c`.
pub open spec fn mat_lcmul_spec(c: Complex64, m: Seq<Seq<Complex64>>) -> Seq<Seq<Complex64>> {
    Seq::new(m.len(), |i: int| Seq::new(m[i].len(), |j: int| mul_of(c, m[i][j])))
}

/// The matrix product: cell `(i, j)` is the accumulated dot of row `i` of `a`
/// with column `j` of `b`.
pub open spec fn mat_mul_spec(a: Seq<Seq<Complex64>>, b: Seq<Seq<Complex64>>) -> Seq<
    Seq<Complex64>,
> {
    Seq::new(a.len(), |i: int| Seq::new(a[i].len(), |j: int| dot(a[i], col(b, j))))
}

/// The product `a * b^dagger`.
pub open spec fn mat_mul_dagger_spec(a: Seq<Seq<Complex64>>, b: Seq<Seq<Complex64>>) -> Seq<
    Seq<Complex64>,
> {
    Seq::new(a.len(), |i: int| Seq::new(a[i].len(), |j: int| dotcr(a[i], b[j])))
}

/// The product `a^dagger * b`.
pub open spec fn mat_dagger_mul_spec(a: Seq<Seq<Complex64>>, b: Seq<Seq<Complex64>>) -> Seq<
    Seq<Complex64>,
> {
    Seq::new(a.len(), |i: int| Seq::new(a[i].len(), |j: int| dotc(col(a, i), col(b, j))))
}

/// The sum of `norm_sqr` of the first `k` entries of `v`, accumulated onto
/// `init` left to right.
pub open spec fn nsq_acc(init: Complex64, v: Seq<Complex64>, k: int) -> Complex64
    decreases k,
{
    if k <= 0 {
        init
    } else {
        add_of(nsq_acc(init, v, k - 1), norm_sqr_of(v[k - 1]))
    }
}

/// The accumulated squared norm of a vector, from the scalar zero.
pub open spec fn norm_sqr_sum(v: Seq<Complex64>) -> Complex64 {
    nsq_acc(c64_of(0, 0), v, v.len() as int)
}

/// The norm of a vector: the float square root of its accumulated squared
/// norm.
pub open spec fn vec_norm_spec(v: Seq<Complex64>) -> Complex64 {
    sqrt_re_of(norm_sqr_sum(v))
}

/// `a + b * t` entrywise, with a full complex multiplication by `t`.
pub open spec fn axpy_spec(a: Seq<Complex64>, b: Seq<Complex64>, t: Complex64) -> Seq<Complex64> {
    Seq::new(a.len(), |i: int| add_of(a[i], mul_of(b[i], t)))
}

/// Every entry divided by the real scalar `t`.
pub open spec fn unscale_vec_spec(v: Seq<Complex64>, t: Complex64) -> Seq<Complex64> {
    Seq::new(v.len(), |i: int| unscale_of(v[i], t))
}

/// An elementwise copy of a vector of scalars.
pub fn vec_copy(v: &Vec<Complex64>) -> (r: Vec<Complex64>)
    ensures
        r@ == v@,
{
    let n = v.len();
    let mut out: Vec<Complex64> = Vec::new();
    let mut i: usize = 0;
    while i < n
        invariant
            i <= n,
            n == v@.len(),
            out@.len() == i,
            forall|k: int| 0 <= k < i ==> out@[k] == v@[k],
        decreases n - i,
    {
        out.push(v[i]);
        i = i + 1;
    }
    proof {
        assert(out@ =~= v@);
    }
    out
}

/// The accumulated squared norm of a vector, as executable code.
pub fn vec_norm_sqr(v: &Vec<Complex64>) -> (r: Complex64)
    ensures
        r == norm_sqr_sum(v@),
{
    let mut sum = c_u32(0, 0);
    let mut k: usize = 0;
    let n = v.len();
    while k < n
        invariant
            k <= n,
            n == v@.len(),
            sum == nsq_acc(c64_of(0, 0), v@, k as int),
        decreases n - k,
    {
        let term = c_norm_sqr(v[k]);
        sum = c_add(sum, term);
        k = k + 1;
    }
    sum
}

/// The norm of a vector: square root of the accumulated squared norm.
pub fn vec_norm(v: &Vec<Complex64>) -> (r: Complex64)
    ensures
        r == vec_norm_spec(v@),
{
    let s = vec_norm_sqr(v);
    c_sqrt_re(s)
}

/// `a + b * t` entrywise.
pub fn vec_axpy(a: &Vec<Complex64>, b: &Vec<Complex64>, t: Complex64) -> (r: Vec<Complex64>)
    requires
        a@.len() == b@.len(),
    ensures
        r@ == axpy_spec(a@, b@, t),
{
    let n = a.len();
    let mut out: Vec<Complex64> = Vec::new();
    let mut i: usize = 0;
    while i < n
        invariant
            i <= n,
            n == a@.len(),
            out@.len() == i,
            forall|k: int| 0 <= k < i ==> out@[k] == add_of(a@[k], mul_of(b@[k], t)),
        decreases n - i,
    {
        let term = c_mul(b[i], t);
        out.push(c_add(a[i], term));
        i = i + 1;
    }
    proof {
        assert(out@ =~= axpy_spec(a@, b@, t));
    }
    out
}

/// Every entry divided by the real scalar `t`.
pub fn vec_unscale(v: &Vec<Complex64>, t: Complex64) -> (r: Vec<Complex64>)
    ensures
        r@ == unscale_vec_spec(v@, t),
{
    let n = v.len();
    let mut out: Vec<Complex64> = Vec::new();
    let mut i: usize = 0;
    while i < n
        invariant
            i <= n,
            n == v@.len(),
            out@.len() == i,
            forall|k: int| 0 <= k < i ==> out@[k] == unscale_of(v@[k], t),
        decreases n - i,
    {
        out.push(c_unscale(v[i], t));
        i = i + 1;
    }
    proof {
        assert(out@ =~= unscale_vec_spec(v@, t));
    }
    out
}

impl CMatrix {
    /// The rows are as the view says, and the matrix is square.
    pub open spec fn wf(&self) -> bool {
        self.dim == self@.len() && is_square(self@, self.dim as nat)
    }

    pub open spec fn spec_dim(&self) -> nat {
        self.dim as nat
    }

    /// The entry at row `i`, column `j`.
    pub open spec fn at_spec(&self, i: int, j: int) -> Complex64 {
        self@[i][j]
    }

    pub fn dim(&self) -> (r: usize)
        ensures
            r == self.dim,
    {
        self.dim
    }

    pub fn at(&self, i: usize, j: usize) -> (r: Complex64)
        requires
            self.wf(),
            i < self.spec_dim(),
            j < self.spec_dim(),
        ensures
            r == self.at_spec(i as int, j as int),
    {
        proof {
            assert(self@[i as int] == self.rows@[i as int]@);
        }
        self.rows[i][j]
    }


    /// The all-zero `dim` by `dim` matrix, every entry the scalar zero.
    pub fn zeros(dim: usize) -> (r: CMatrix)
        ensures
            r.wf(),
            r.spec_dim() == dim,
            forall|i: int, j: int|
                0 <= i < dim && 0 <= j < dim ==> r.at_spec(i, j) == c64_of(0, 0),
    {
        let zero = c_u32(0, 0);
        let mut rows: Vec<Vec<Complex64>> = Vec::new();
        let mut i: usize = 0;
        while i < dim
            invariant
                i <= dim,
                rows@.len() == i,
                forall|r: int| 0 <= r < i ==> (#[trigger] rows@[r])@.len() == dim,
                forall|r: int, c: int|
                    0 <= r < i && 0 <= c < dim ==> (#[trigger] rows@[r]@[c]) == c64_of(0, 0),
            decreases dim - i,
        {
            let mut row: Vec<Complex64> = Vec::new();
            let mut j: usize = 0;
            while j < dim
                invariant
                    j <= dim,
                    row@.len() == j,
                    forall|c: int| 0 <= c < j ==> (#[trigger] row@[c]) == c64_of(0, 0),
                decreases dim - j,
            {
                row.push(zero);
                j = j + 1;
            }
            rows.push(row);
            i = i + 1;
        }
        CMatrix { dim, rows }
    }

    /// Builds a matrix from caller rows; fails with a dimension mismatch
    /// naming the number of rows and the length of the first offending row.
    pub fn from_rows(rows: Vec<Vec<Complex64>>) -> (r: Result<CMatrix, crate::error::Error>)
        ensures
            match r {
                Ok(m) => {
                    &&& m.wf()
                    &&& m.spec_dim() == rows@.len()
                    &&& forall|i: int| 0 <= i < rows@.len() ==> m@[i] == (#[trigger] rows@[i])@
                },
                Err(e) => {
                    &&& e matches crate::error::Error::DimensionMismatch { expected, actual }
                    &&& expected == rows@.len()
                    &&& exists|i: int|
                        0 <= i < rows@.len() && (#[trigger] rows@[i])@.len() == actual && actual
                            != rows@.len() && (forall|k: int|
                            0 <= k < i ==> (#[trigger] rows@[k])@.len() == rows@.len())
                },
            },
    {
        let dim = rows.len();
        let mut i: usize = 0;
        while i < dim
            invariant
                i <= dim,
                dim == rows@.len(),
                forall|r: int| 0 <= r < i ==> (#[trigger] rows@[r])@.len() == dim,
            decreases dim - i,
        {
            if rows[i].len() != dim {
                proof {
                    assert(rows@[i as int]@.len() != rows@.len());
                    assert(forall|k: int|
                        0 <= k < i as int ==> (#[trigger] rows@[k])@.len() == rows@.len());
                }
                return Err(crate::error::Error::DimensionMismatch {
                    expected: dim,
                    actual: rows[i].len(),
                });
            }
            i = i + 1;
        }
        let m = CMatrix { dim, rows };
        proof {
            assert forall|i2: int| 0 <= i2 < m@.len() implies (#[trigger] m@[i2]).len()
                == m.dim as nat by {}
        }
        Ok(m)
    }

    /// Entrywise sum, in this operand order.
    pub fn plus(&self, other: &CMatrix) -> (r: CMatrix)
        requires
            self.wf(),
            other.wf(),
            other.spec_dim() == self.spec_dim(),
        ensures
            r.wf(),
            r.spec_dim() == self.spec_dim(),
            r@ == mat_add_spec(self@, other@),
    {
        let dim = self.dim;
        let ghost target = mat_add_spec(self@, other@);
        let mut rows: Vec<Vec<Complex64>> = Vec::new();
        let mut i: usize = 0;
        while i < dim
            invariant
                i <= dim,
                rows@.len() == i,
                forall|a: int| 0 <= a < i ==> (#[trigger] rows@[a])@ == target[a],
            decreases dim - i,
        {
            let mut row: Vec<Complex64> = Vec::new();
            let mut j: usize = 0;
            while j < dim
                invariant
                    i < dim,
                    j <= dim,
                    row@.len() == j,
                    forall|b: int| 0 <= b < j ==> (#[trigger] row@[b]) == target[i as int][b],
                decreases dim - j,
            {
                let v = c_add(self.at(i, j), other.at(i, j));
                row.push(v);
                j = j + 1;
            }
            proof {
                assert(row@ =~= target[i as int]);
            }
            rows.push(row);
            i = i + 1;
        }
        let m = CMatrix { dim, rows };
        proof {
            assert(m@ =~~= target);
        }
        m
    }

    /// Entrywise difference `self - other`.
    pub fn minus(&self, other: &CMatrix) -> (r: CMatrix)
        requires
            self.wf(),
            other.wf(),
            other.spec_dim() == self.spec_dim(),
        ensures
            r.wf(),
            r.spec_dim() == self.spec_dim(),
            r@ == mat_sub_spec(self@, other@),
    {
        let dim = self.dim;
        let ghost target = mat_sub_spec(self@, other@);
        let mut rows: Vec<Vec<Complex64>> = Vec::new();
        let mut i: usize = 0;
        while i < dim
            invariant
                i <= dim,
                rows@.len() == i,
                forall|a: int| 0 <= a < i ==> (#[trigger] rows@[a])@ == target[a],
            decreases dim - i,
        {
            let mut row: Vec<Complex64> = Vec::new();
            let mut j: usize = 0;
            while j < dim
                invariant
                    i < dim,
                    j <= dim,
                    row@.len() == j,
                    forall|b: int| 0 <= b < j ==> (#[trigger] row@[b]) == target[i as int][b],
                decreases dim - j,
            {
                let v = c_sub(self.at(i, j), other.at(i, j));
                row.push(v);
                j = j + 1;
            }
            proof {
                assert(row@ =~= target[i as int]);
            }
            rows.push(row);
            i = i + 1;
        }
        let m = CMatrix { dim, rows };
        proof {
            assert(m@ =~~= target);
        }
        m
    }

    /// Every entry multiplied by the real scalar `t`.
    pub fn scaled(&self, t: Complex64) -> (r: CMatrix)
        requires
            self.wf(),
        ensures
            r.wf(),
            r.spec_dim() == self.spec_dim(),
            r@ == mat_scale_spec(self@, t),
    {
        let dim = self.dim;
        let ghost target = mat_scale_spec(self@, t);
        let mut rows: Vec<Vec<Complex64>> = Vec::new();
        let mut i: usize = 0;
        while i < dim
            invariant
                i <= dim,
                rows@.len() == i,
                forall|a: int| 0 <= a < i ==> (#[trigger] rows@[a])@ == target[a],
            decreases dim - i,
        {
            let mut row: Vec<Complex64> = Vec::new();
            let mut j: usize = 0;
            while j < dim
                invariant
                    i < dim,
                    j <= dim,
                    row@.len() == j,
                    forall|b: int| 0 <= b < j ==> (#[trigger] row@[b]) == target[i as int][b],
                decreases dim - j,
            {
                let v = c_scale(self.at(i, j), t);
                row.push(v);
                j = j + 1;
            }
            proof {
                assert(row@ =~= target[i as int]);
            }
            rows.push(row);
            i = i + 1;
        }
        let m = CMatrix { dim, rows };
        proof {
            assert(m@ =~~= target);
        }
        m
    }

    /// Every entry multiplied on the right by the complex factor `c`.
    pub fn times_scalar(&self, c: Complex64) -> (r: CMatrix)
        requires
            self.wf(),
        ensures
            r.wf(),
            r.spec_dim() == self.spec_dim(),
            r@ == mat_cmul_spec(self@, c),
    {
        let dim = self.dim;
        let ghost target = mat_cmul_spec(self@, c);
        let mut rows: Vec<Vec<Complex64>> = Vec::new();
        let mut i: usize = 0;
        while i < dim
            invariant
                i <= dim,
                rows@.len() == i,
                forall|a: int| 0 <= a < i ==> (#[trigger] rows@[a])@ == target[a],
            decreases dim - i,
        {
            let mut row: Vec<Complex64> = Vec::new();
            let mut j: usize = 0;
            while j < dim
                invariant
                    i < dim,
                    j <= dim,
                    row@.len() == j,
                    forall|b: int| 0 <= b < j ==> (#[trigger] row@[b]) == target[i as int][b],
                decreases dim - j,
            {
                let v = c_mul(self.at(i, j), c);
                row.push(v);
                j = j + 1;
            }
            proof {
                assert(row@ =~= target[i as int]);
            }
            rows.push(row);
            i = i + 1;
        }
        let m = CMatrix { dim, rows };
        proof {
            assert(m@ =~~= target);
        }
        m
    }

    /// Every entry multiplied on the left by the complex factor `c`.
    pub fn scalar_times(&self, c: Complex64) -> (r: CMatrix)
        requires
            self.wf(),
        ensures
            r.wf(),
            r.spec_dim() == self.spec_dim(),
            r@ == mat_lcmul_spec(c, self@),
    {
        let dim = self.dim;
        let ghost target = mat_lcmul_spec(c, self@);
        let mut rows: Vec<Vec<Complex64>> = Vec::new();
        let mut i: usize = 0;
        while i < dim
            invariant
                i <= dim,
                rows@.len() == i,
                forall|a: int| 0 <= a < i ==> (#[trigger] rows@[a])@ == target[a],
            decreases dim - i,
        {
            let mut row: Vec<Complex64> = Vec::new();
            let mut j: usize = 0;
            while j < dim
                invariant
                    i < dim,
                    j <= dim,
                    row@.len() == j,
                    forall|b: int| 0 <= b < j ==> (#[trigger] row@[b]) == target[i as int][b],
                decreases dim - j,
            {
                let v = c_mul(c, self.at(i, j));
                row.push(v);
                j = j + 1;
            }
            proof {
                assert(row@ =~= target[i as int]);
            }
            rows.push(row);
            i = i + 1;
        }
        let m = CMatrix { dim, rows };
        proof {
            assert(m@ =~~= target);
        }
        m
    }

    /// The matrix product `self * other`, each cell the left-to-right
    /// accumulated sum of products.
    pub fn times(&self, other: &CMatrix) -> (r: CMatrix)
        requires
            self.wf(),
            other.wf(),
            other.spec_dim() == self.spec_dim(),
        ensures
            r.wf(),
            r.spec_dim() == self.spec_dim(),
            r@ == mat_mul_spec(self@, other@),
    {
        let dim = self.dim;
        let ghost target = mat_mul_spec(self@, other@);
        let mut rows: Vec<Vec<Complex64>> = Vec::new();
        let mut i: usize = 0;
        while i < dim
            invariant
                i <= dim,
                rows@.len() == i,
                forall|a: int| 0 <= a < i ==> (#[trigger] rows@[a])@ == target[a],
            decreases dim - i,
        {
            let mut row: Vec<Complex64> = Vec::new();
            let mut j: usize = 0;
            while j < dim
                invariant
                    i < dim,
                    j <= dim,
                    row@.len() == j,
                    forall|b: int| 0 <= b < j ==> (#[trigger] row@[b]) == target[i as int][b],
                decreases dim - j,
            {
                let mut sum = c_u32(0, 0);
                let mut k: usize = 0;
                while k < dim
                    invariant
                        i < dim,
                        j < dim,
                        k <= dim,
                        sum == dot_prefix(self@[i as int], col(other@, j as int), k as int),
                    decreases dim - k,
                {
                    let term = c_mul(self.at(i, k), other.at(k, j));
                    sum = c_add(sum, term);
                    k = k + 1;
                }
                row.push(sum);
                j = j + 1;
            }
            proof {
                assert(row@ =~= target[i as int]);
            }
            rows.push(row);
            i = i + 1;
        }
        let m = CMatrix { dim, rows };
        proof {
            assert(m@ =~~= target);
        }
        m
    }

    /// The product `self * other^dagger`: cell `(i, j)` accumulates
    /// `self[i][k] * conj(other[j][k])` over `k`.
    pub fn times_dagger(&self, other: &CMatrix) -> (r: CMatrix)
        requires
            self.wf(),
            other.wf(),
            other.spec_dim() == self.spec_dim(),
        ensures
            r.wf(),
            r.spec_dim() == self.spec_dim(),
            r@ == mat_mul_dagger_spec(self@, other@),
    {
        let dim = self.dim;
        let ghost target = mat_mul_dagger_spec(self@, other@);
        let mut rows: Vec<Vec<Complex64>> = Vec::new();
        let mut i: usize = 0;
        while i < dim
            invariant
                i <= dim,
                rows@.len() == i,
                forall|a: int| 0 <= a < i ==> (#[trigger] rows@[a])@ == target[a],
            decreases dim - i,
        {
            let mut row: Vec<Complex64> = Vec::new();
            let mut j: usize = 0;
            while j < dim
                invariant
                    i < dim,
                    j <= dim,
                    row@.len() == j,
                    forall|b: int| 0 <= b < j ==> (#[trigger] row@[b]) == target[i as int][b],
                decreases dim - j,
            {
                let mut sum = c_u32(0, 0);
                let mut k: usize = 0;
                while k < dim
                    invariant
                        i < dim,
                        j < dim,
                        k <= dim,
                        sum == dotcr_prefix(self@[i as int], other@[j as int], k as int),
                    decreases dim - k,
                {
                    let term = c_mul(self.at(i, k), c_conj(other.at(j, k)));
                    sum = c_add(sum, term);
                    k = k + 1;
                }
                row.push(sum);
                j = j + 1;
            }
            proof {
                assert(row@ =~= target[i as int]);
            }
            rows.push(row);
            i = i + 1;
        }
        let m = CMatrix { dim, rows };
        proof {
            assert(m@ =~~= target);
        }
        m
    }

    /// The product `self^dagger * other`: cell `(i, j)` accumulates
    /// `conj(self[k][i]) * other[k][j]` over `k`.
    pub fn dagger_times(&self, other: &CMatrix) -> (r: CMatrix)
        requires
            self.wf(),
            other.wf(),
            other.spec_dim() == self.spec_dim(),
        ensures
            r.wf(),
            r.spec_dim() == self.spec_dim(),
            r@ == mat_dagger_mul_spec(self@, other@),
    {
        let dim = self.dim;
        let ghost target = mat_dagger_mul_spec(self@, other@);
        let mut rows: Vec<Vec<Complex64>> = Vec::new();
        let mut i: usize = 0;
        while i < dim
            invariant
                i <= dim,
                rows@.len() == i,
                forall|a: int| 0 <= a < i ==> (#[trigger] rows@[a])@ == target[a],
            decreases dim - i,
        {
            let mut row: Vec<Complex64> = Vec::new();
            let mut j: usize = 0;
            while j < dim
                invariant
                    i < dim,
                    j <= dim,
                    row@.len() == j,
                    forall|b: int| 0 <= b < j ==> (#[trigger] row@[b]) == target[i as int][b],
                decreases dim - j,
            {
                let mut sum = c_u32(0, 0);
                let mut k: usize = 0;
                while k < dim
                    invariant
                        i < dim,
                        j < dim,
                        k <= dim,
                        sum == dotc_prefix(col(self@, i as int), col(other@, j as int), k as int),
                    decreases dim - k,
                {
                    let term = c_mul(c_conj(self.at(k, i)), other.at(k, j));
                    sum = c_add(sum, term);
                    k = k + 1;
                }
                row.push(sum);
                j = j + 1;
            }
            proof {
                assert(row@ =~= target[i as int]);
            }
            rows.push(row);
            i = i + 1;
        }
        let m = CMatrix { dim, rows };
        proof {
            assert(m@ =~~= target);
        }
        m
    }

    /// An entrywise copy.
    pub fn duplicate(&self) -> (r: CMatrix)
        requires
            self.wf(),
        ensures
            r.wf(),
            r.spec_dim() == self.spec_dim(),
            r@ =~~= self@,
    {
        let dim = self.dim;
        let mut rows: Vec<Vec<Complex64>> = Vec::new();
        let mut i: usize = 0;
        while i < dim
            invariant
                i <= dim,
                rows@.len() == i,
                forall|r: int| 0 <= r < i ==> (#[trigger] rows@[r])@ == self@[r],
            decreases dim - i,
        {
            let mut row: Vec<Complex64> = Vec::new();
            let mut j: usize = 0;
            while j < dim
                invariant
                    i < dim,
                    j <= dim,
                    row@.len() == j,
                    forall|c: int| 0 <= c < j ==> (#[trigger] row@[c]) == self@[i as int][c],
                decreases dim - j,
            {
                proof {
                    assert(self@[i as int] == self.rows@[i as int]@);
                }
                row.push(self.rows[i][j]);
                j = j + 1;
            }
            proof {
                assert(row@ =~= self@[i as int]);
            }
            rows.push(row);
            i = i + 1;
        }
        let m = CMatrix { dim, rows };
        proof {
            assert(m@ =~~= self@);
        }
        m
    }
}

} // verus!
