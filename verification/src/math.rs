//! Matrix predicates and helpers: Hermiticity and unitarity checks, trace,
//! Frobenius norm, identity.

use vstd::prelude::*;
use num_complex::Complex64;

verus! {

use crate::matrix::{mat_dagger_mul_spec, nsq_acc, CMatrix};
use crate::scalar::{
    add_of, c64_of, c_add, c_conj, c_lt, c_norm, c_scale, c_sqrt_re, c_sub, c_u32, c_unscale,
    conj_of, lt_re_of, norm_of, scale_of, sqrt_re_of, sub_of, unscale_of,
};

/// The absolute tolerance `1e-10` that every invariant check of the library
/// uses: one divided by ten to the tenth, both factors exact in a float.
pub open spec fn invariant_tol() -> Complex64 {
    unscale_of(c64_of(1, 0), scale_of(c64_of(100000, 0), c64_of(100000, 0)))
}

/// Builds the tolerance value `1e-10`.
pub fn make_invariant_tol() -> (r: Complex64)
    ensures
        r == invariant_tol(),
{
    let hundred_thousand = c_u32(100000, 0);
    let ten_to_ten = c_scale(hundred_thousand, hundred_thousand);
    c_unscale(c_u32(1, 0), ten_to_ten)
}

/// Entry `(i, j)` of `m` is within `tol` of the conjugate of entry `(j, i)`:
/// the norm of their difference does not exceed `tol`.
pub open spec fn entry_pair_hermitian(
    m: Seq<Seq<Complex64>>,
    tol: Complex64,
    i: int,
    j: int,
) -> bool {
    !lt_re_of(tol, norm_of(sub_of(m[i][j], conj_of(m[j][i]))))
}

/// Every entry is conjugate-symmetric to its mirror within `tol`.
pub open spec fn hermitian_within(m: Seq<Seq<Complex64>>, tol: Complex64) -> bool {
    forall|i: int, j: int|
        0 <= i < m.len() && 0 <= j < m.len() ==> entry_pair_hermitian(m, tol, i, j)
}

/// Whether the matrix is Hermitian within the tolerance: each entry is
/// compared against the conjugate of its transpose mirror.
pub fn is_hermitian(m: &CMatrix, tol: Complex64) -> (r: bool)
    requires
        m.wf(),
    ensures
        r == hermitian_within(m@, tol),
{
    let dim = m.dim();
    let mut i: usize = 0;
    while i < dim
        invariant
            i <= dim,
            forall|a: int, b: int|
                0 <= a < i && 0 <= b < dim ==> #[trigger] entry_pair_hermitian(m@, tol, a, b),
        decreases dim - i,
    {
        let mut j: usize = 0;
        while j < dim
            invariant
                i < dim,
                j <= dim,
                forall|a: int, b: int|
                    0 <= a < i && 0 <= b < dim ==> #[trigger] entry_pair_hermitian(m@, tol, a, b),
                forall|b: int|
                    0 <= b < j ==> #[trigger] entry_pair_hermitian(m@, tol, i as int, b),
            decreases dim - j,
        {
            let diff = c_sub(m.at(i, j), c_conj(m.at(j, i)));
            if c_lt(tol, c_norm(diff)) {
                proof {
                    assert(!entry_pair_hermitian(m@, tol, i as int, j as int));
                }
                return false;
            }
            j = j + 1;
        }
        i = i + 1;
    }
    true
}

/// Entry `(i, j)` of the identity matrix.
pub open spec fn id_entry(i: int, j: int) -> Complex64 {
    if i == j {
        c64_of(1, 0)
    } else {
        c64_of(0, 0)
    }
}

/// The identity matrix value.
pub open spec fn identity_spec(dim: nat) -> Seq<Seq<Complex64>> {
    Seq::new(dim, |i: int| Seq::new(dim, |j: int| id_entry(i, j)))
}

/// The identity matrix of the given dimension.
pub fn identity(dim: usize) -> (r: CMatrix)
    ensures
        r.wf(),
        r.spec_dim() == dim,
        r@ == identity_spec(dim as nat),
{
    let one = c_u32(1, 0);
    let zero = c_u32(0, 0);
    let mut rows: Vec<Vec<Complex64>> = Vec::new();
    let mut i: usize = 0;
    while i < dim
        invariant
            i <= dim,
            rows@.len() == i,
            forall|a: int| 0 <= a < i ==> (#[trigger] rows@[a])@ == identity_spec(dim as nat)[a],
        decreases dim - i,
    {
        let mut row: Vec<Complex64> = Vec::new();
        let mut j: usize = 0;
        while j < dim
            invariant
                i < dim,
                j <= dim,
                row@.len() == j,
                forall|b: int| 0 <= b < j ==> (#[trigger] row@[b]) == id_entry(i as int, b),
            decreases dim - j,
        {
            if i == j {
                row.push(one);
            } else {
                row.push(zero);
            }
            j = j + 1;
        }
        proof {
            assert(row@ =~= identity_spec(dim as nat)[i as int]);
        }
        rows.push(row);
        i = i + 1;
    }
    let m = CMatrix { dim, rows };
    proof {
        assert(m@ =~~= identity_spec(dim as nat));
    }
    m
}

/// Entry `(i, j)` of `m^dagger * m` is within `tol` of the identity's entry.
pub open spec fn entry_pair_unitary(
    m: Seq<Seq<Complex64>>,
    tol: Complex64,
    i: int,
    j: int,
) -> bool {
    !lt_re_of(tol, norm_of(sub_of(mat_dagger_mul_spec(m, m)[i][j], id_entry(i, j))))
}

/// `m^dagger * m` is entrywise within `tol` of the identity.
pub open spec fn unitary_within(m: Seq<Seq<Complex64>>, tol: Complex64) -> bool {
    forall|i: int, j: int|
        0 <= i < m.len() && 0 <= j < m.len() ==> entry_pair_unitary(m, tol, i, j)
}

/// Whether the matrix is unitary within the tolerance: `m^dagger * m` is
/// computed in full and compared to the identity entry by entry.
pub fn is_unitary(m: &CMatrix, tol: Complex64) -> (r: bool)
    requires
        m.wf(),
    ensures
        r == unitary_within(m@, tol),
{
    let dim = m.dim();
    let product = m.dagger_times(m);
    let one = c_u32(1, 0);
    let zero = c_u32(0, 0);
    let mut i: usize = 0;
    while i < dim
        invariant
            product.wf(),
            product.spec_dim() == dim,
            product@ == mat_dagger_mul_spec(m@, m@),
            i <= dim,
            forall|a: int, b: int|
                0 <= a < i && 0 <= b < dim ==> #[trigger] entry_pair_unitary(m@, tol, a, b),
        decreases dim - i,
    {
        let mut j: usize = 0;
        while j < dim
            invariant
                i < dim,
                j <= dim,
                forall|a: int, b: int|
                    0 <= a < i && 0 <= b < dim ==> #[trigger] entry_pair_unitary(m@, tol, a, b),
                forall|b: int| 0 <= b < j ==> #[trigger] entry_pair_unitary(m@, tol, i as int, b),
            decreases dim - j,
        {
            let expected = if i == j {
                one
            } else {
                zero
            };
            let diff = c_sub(product.at(i, j), expected);
            if c_lt(tol, c_norm(diff)) {
                proof {
                    assert(!entry_pair_unitary(m@, tol, i as int, j as int));
                }
                return false;
            }
            j = j + 1;
        }
        i = i + 1;
    }
    true
}

/// The accumulated sum of the first `k` diagonal entries.
pub open spec fn trace_prefix(m: Seq<Seq<Complex64>>, k: int) -> Complex64
    decreases k,
{
    if k <= 0 {
        c64_of(0, 0)
    } else {
        add_of(trace_prefix(m, k - 1), m[k - 1][k - 1])
    }
}

/// The accumulated sum of all diagonal entries.
pub open spec fn trace_spec(m: Seq<Seq<Complex64>>) -> Complex64 {
    trace_prefix(m, m.len() as int)
}

/// The trace: diagonal entries accumulated left to right.
pub fn trace(m: &CMatrix) -> (r: Complex64)
    requires
        m.wf(),
    ensures
        r == trace_spec(m@),
{
    let dim = m.dim();
    let mut sum = c_u32(0, 0);
    let mut k: usize = 0;
    while k < dim
        invariant
            k <= dim,
            sum == trace_prefix(m@, k as int),
        decreases dim - k,
    {
        sum = c_add(sum, m.at(k, k));
        k = k + 1;
    }
    sum
}

/// The squared norms of all entries of the first `i` rows, accumulated in
/// row-major order.
pub open spec fn frob_rows_acc(m: Seq<Seq<Complex64>>, i: int) -> Complex64
    decreases i,
{
    if i <= 0 {
        c64_of(0, 0)
    } else {
        nsq_acc(frob_rows_acc(m, i - 1), m[i - 1], m[i - 1].len() as int)
    }
}

/// The Frobenius norm: square root of the row-major accumulated sum of the
/// squared norms of all entries.
pub open spec fn frobenius_norm_spec(m: Seq<Seq<Complex64>>) -> Complex64 {
    sqrt_re_of(frob_rows_acc(m, m.len() as int))
}

/// The Frobenius norm of a matrix.
pub fn frobenius_norm(m: &CMatrix) -> (r: Complex64)
    requires
        m.wf(),
    ensures
        r == frobenius_norm_spec(m@),
{
    let dim = m.dim();
    let mut sum = c_u32(0, 0);
    let mut i: usize = 0;
    while i < dim
        invariant
            i <= dim,
            sum == frob_rows_acc(m@, i as int),
        decreases dim - i,
    {
        let ghost row_start = sum;
        let mut k: usize = 0;
        while k < dim
            invariant
                i < dim,
                k <= dim,
                sum == nsq_acc(row_start, m@[i as int], k as int),
            decreases dim - k,
        {
            let term = crate::scalar::c_norm_sqr(m.at(i, k));
            sum = c_add(sum, term);
            k = k + 1;
        }
        i = i + 1;
    }
    c_sqrt_re(sum)
}

} // verus!
