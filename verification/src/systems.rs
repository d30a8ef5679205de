//! Domain Hamiltonians: the driven two-level system, the driven cavity, and
//! the coupled-cavity chain.

use vstd::prelude::*;
use num_complex::Complex64;

verus! {

use crate::hamiltonian::Hamiltonian;
use crate::matrix::CMatrix;
use crate::scalar::{
    add_of, c64_of, c_add, c_cos_re, c_mul, c_neg, c_pi, c_scale, c_sqrt_re, c_sub, c_u32,
    c_unscale, cos_re_of, mul_of, neg_of, pi_times, scale_of, sqrt_re_of, sub_of, unscale_of,
};

/// A driven two-level system: static detuning `omega_0` on the diagonal and
/// an off-diagonal drive `rabi_freq * cos(omega_d * t + phase)`.
pub struct DrivenTLS {
    pub omega_0: Complex64,
    pub omega_d: Complex64,
    pub rabi_freq: Complex64,
    pub phase: Complex64,
}

/// The off-diagonal drive term at time `t`.
pub open spec fn tls_drive(h: DrivenTLS, t: Complex64) -> Complex64 {
    scale_of(cos_re_of(add_of(mul_of(h.omega_d, t), h.phase)), h.rabi_freq)
}

/// The two-by-two sample: `omega_0 / 2` and its negation on the diagonal,
/// the drive term off the diagonal.
pub open spec fn tls_sample(h: DrivenTLS, t: Complex64) -> Seq<Seq<Complex64>> {
    seq![
        seq![unscale_of(h.omega_0, c64_of(2, 0)), tls_drive(h, t)],
        seq![tls_drive(h, t), unscale_of(neg_of(h.omega_0), c64_of(2, 0))],
    ]
}

impl DrivenTLS {
    /// A driven two-level system with zero drive phase.
    pub fn new(omega_0: Complex64, omega_d: Complex64, rabi_freq: Complex64) -> (r: DrivenTLS)
        ensures
            r.omega_0 == omega_0,
            r.omega_d == omega_d,
            r.rabi_freq == rabi_freq,
            r.phase == c64_of(0, 0),
            r.wf(),
    {
        DrivenTLS { omega_0, omega_d, rabi_freq, phase: c_u32(0, 0) }
    }

    pub fn with_phase(
        omega_0: Complex64,
        omega_d: Complex64,
        rabi_freq: Complex64,
        phase: Complex64,
    ) -> (r: DrivenTLS)
        ensures
            r.omega_0 == omega_0,
            r.omega_d == omega_d,
            r.rabi_freq == rabi_freq,
            r.phase == phase,
            r.wf(),
    {
        DrivenTLS { omega_0, omega_d, rabi_freq, phase }
    }

    /// The difference between the natural and the drive frequency.
    pub fn detuning(&self) -> (r: Complex64)
        ensures
            r == sub_of(self.omega_0, self.omega_d),
    {
        c_sub(self.omega_0, self.omega_d)
    }
}

impl Hamiltonian for DrivenTLS {
    open spec fn wf(&self) -> bool {
        true
    }

    open spec fn spec_dim(&self) -> nat {
        2
    }

    open spec fn spec_sample(&self, t: Complex64) -> Seq<Seq<Complex64>> {
        tls_sample(*self, t)
    }

    open spec fn spec_time_independent(&self) -> bool {
        false
    }

    /// One drive cycle: two pi over the drive frequency.
    open spec fn spec_period(&self) -> Option<Complex64> {
        Some(unscale_of(scale_of(pi_times(1), c64_of(2, 0)), self.omega_d))
    }

    fn dim(&self) -> (r: usize)
        ensures
            r as nat == self.spec_dim(),
    {
        2
    }

    fn compute(&self, t: Complex64, out: &mut CMatrix) {
        let half = c_unscale(self.omega_0, c_u32(2, 0));
        let neg_half = c_unscale(c_neg(self.omega_0), c_u32(2, 0));
        let drive = c_scale(c_cos_re(c_add(c_mul(self.omega_d, t), self.phase)), self.rabi_freq);
        let mut row0: Vec<Complex64> = Vec::new();
        row0.push(half);
        row0.push(drive);
        let mut row1: Vec<Complex64> = Vec::new();
        row1.push(drive);
        row1.push(neg_half);
        let mut rows: Vec<Vec<Complex64>> = Vec::new();
        rows.push(row0);
        rows.push(row1);
        let m = CMatrix { dim: 2, rows };
        proof {
            assert(m@ =~~= tls_sample(*self, t));
        }
        *out = m;
    }

    fn is_time_independent(&self) -> (r: bool) {
        false
    }

    fn period(&self) -> (r: Option<Complex64>) {
        let two_pi = c_scale(c_pi(), c_u32(2, 0));
        Some(c_unscale(two_pi, self.omega_d))
    }
}

/// The two-level sample is symmetric: the two off-diagonal entries are one
/// and the same drive scalar, at every time.
pub proof fn tls_sample_symmetric(h: DrivenTLS, t: Complex64)
    ensures
        tls_sample(h, t)[0][1] == tls_sample(h, t)[1][0],
{
}

/// A driven cavity: a diagonal ladder `omega_c * n` and a parametric
/// two-step coupling `g * cos(omega_p * t) * sqrt((n+1)(n+2))` linking the
/// levels `n` and `n+2`.
pub struct DrivenCavity {
    pub omega_c: Complex64,
    pub omega_p: Complex64,
    pub g: Complex64,
    pub dim: usize,
}

/// The time-dependent drive factor `g * cos(omega_p * t)`.
pub open spec fn cavity_drive(h: DrivenCavity, t: Complex64) -> Complex64 {
    scale_of(cos_re_of(mul_of(h.omega_p, t)), h.g)
}

/// The coupling between levels `n` and `n+2`:
/// `sqrt((n+1)(n+2))` scaled by the drive factor.
pub open spec fn cavity_coupling(h: DrivenCavity, t: Complex64, n: int) -> Complex64 {
    scale_of(sqrt_re_of(c64_of((((n + 1) * (n + 2))) as u32, 0)), cavity_drive(h, t))
}

/// Entry `(i, j)` of the driven-cavity sample.
pub open spec fn cavity_entry(h: DrivenCavity, t: Complex64, i: int, j: int) -> Complex64 {
    if i == j {
        scale_of(h.omega_c, c64_of(i as u32, 0))
    } else if i == j + 2 {
        cavity_coupling(h, t, j)
    } else if j == i + 2 {
        cavity_coupling(h, t, i)
    } else {
        c64_of(0, 0)
    }
}

/// The full driven-cavity sample at time `t`.
pub open spec fn cavity_sample(h: DrivenCavity, t: Complex64) -> Seq<Seq<Complex64>> {
    Seq::new(h.spec_dim(), |i: int| Seq::new(h.spec_dim(), |j: int| cavity_entry(h, t, i, j)))
}

impl DrivenCavity {
    /// A driven cavity truncated to `dim` levels; at least the two levels
    /// the coupling needs, and few enough that every level index converts
    /// exactly to a float.
    pub fn new(omega_c: Complex64, omega_p: Complex64, g: Complex64, dim: usize) -> (r:
        DrivenCavity)
        requires
            2 <= dim <= 0xffff,
        ensures
            r.omega_c == omega_c,
            r.omega_p == omega_p,
            r.g == g,
            r.spec_dim() == dim,
            r.wf(),
    {
        DrivenCavity { omega_c, omega_p, g, dim }
    }
}

impl Hamiltonian for DrivenCavity {
    open spec fn wf(&self) -> bool {
        2 <= self.spec_dim() <= 0xffff
    }

    open spec fn spec_dim(&self) -> nat {
        self.dim as nat
    }

    open spec fn spec_sample(&self, t: Complex64) -> Seq<Seq<Complex64>> {
        cavity_sample(*self, t)
    }

    open spec fn spec_time_independent(&self) -> bool {
        false
    }

    /// One pump cycle: two pi over the pump frequency.
    open spec fn spec_period(&self) -> Option<Complex64> {
        Some(unscale_of(scale_of(pi_times(1), c64_of(2, 0)), self.omega_p))
    }

    fn dim(&self) -> (r: usize)
        ensures
            r as nat == self.spec_dim(),
    {
        self.dim
    }

    fn compute(&self, t: Complex64, out: &mut CMatrix) {
        let dim = self.dim;
        let drive = c_scale(c_cos_re(c_mul(self.omega_p, t)), self.g);
        let zero = c_u32(0, 0);
        let ghost target = cavity_sample(*self, t);
        let mut rows: Vec<Vec<Complex64>> = Vec::new();
        let mut i: usize = 0;
        while i < dim
            invariant
                i <= dim,
                rows@.len() == i,
                drive == cavity_drive(*self, t),
                forall|a: int| 0 <= a < i ==> (#[trigger] rows@[a])@ == target[a],
            decreases dim - i,
        {
            let mut row: Vec<Complex64> = Vec::new();
            let mut j: usize = 0;
            while j < dim
                invariant
                    i < dim,
                    j <= dim,
                    row@.len() == j,
                    drive == cavity_drive(*self, t),
                    forall|b: int|
                        0 <= b < j ==> (#[trigger] row@[b]) == cavity_entry(*self, t, i as int, b),
                decreases dim - j,
            {
                let v: Complex64 = if i == j {
                    c_scale(self.omega_c, c_u32(i as u32, 0))
                } else if j + 2 == i {
                    proof {
                        assert((j + 1) * (j + 2) <= 0xffff * 0x10000) by (nonlinear_arith)
                            requires
                                j + 1 <= 0xffff,
                                j + 2 <= 0x10000,
                        ;
                    }
                    let amp = c_sqrt_re(c_u32(((j + 1) * (j + 2)) as u32, 0));
                    c_scale(amp, drive)
                } else if j == i + 2 {
                    proof {
                        assert((i + 1) * (i + 2) <= 0xffff * 0x10000) by (nonlinear_arith)
                            requires
                                i + 1 <= 0xffff,
                                i + 2 <= 0x10000,
                        ;
                    }
                    let amp = c_sqrt_re(c_u32(((i + 1) * (i + 2)) as u32, 0));
                    c_scale(amp, drive)
                } else {
                    zero
                };
                row.push(v);
                j = j + 1;
            }
            proof {
                assert(row@ =~= target[i as int]);
            }
            rows.push(row);
            i = i + 1;
        }
        let m = CMatrix { dim, rows };
        proof {
            assert(m@ =~~= target);
        }
        *out = m;
    }

    fn is_time_independent(&self) -> (r: bool) {
        false
    }

    fn period(&self) -> (r: Option<Complex64>) {
        let two_pi = c_scale(c_pi(), c_u32(2, 0));
        Some(c_unscale(two_pi, self.omega_p))
    }
}

/// The driven-cavity sample is symmetric: entry `(i, j)` equals entry
/// `(j, i)`, at every time.
pub proof fn cavity_sample_symmetric(h: DrivenCavity, t: Complex64, i: int, j: int)
    requires
        0 <= i < h.spec_dim(),
        0 <= j < h.spec_dim(),
    ensures
        cavity_sample(h, t)[i][j] == cavity_sample(h, t)[j][i],
{
}

/// A chain of coupled cavities in the single-excitation subspace: a ground
/// level plus one level per cavity, with nearest-neighbor couplings, either
/// uniform or alternating.
pub struct CoupledCavities {
    pub omega_c: Complex64,
    pub couplings: Vec<Complex64>,
    pub num_cavities: usize,
}

/// Entry `(i, j)` of the chain sample: zero at the ground level, `omega_c`
/// on the rest of the diagonal, the coupling between neighboring cavities.
pub open spec fn chain_entry(
    omega_c: Complex64,
    couplings: Seq<Complex64>,
    n: int,
    i: int,
    j: int,
) -> Complex64 {
    if i == j && 1 <= i <= n {
        omega_c
    } else if j == i + 1 && 1 <= i && j <= n {
        couplings[i - 1]
    } else if i == j + 1 && 1 <= j && i <= n {
        couplings[j - 1]
    } else {
        c64_of(0, 0)
    }
}

/// The full chain sample.
pub open spec fn chain_sample(h: CoupledCavities) -> Seq<Seq<Complex64>> {
    Seq::new(
        h.spec_dim(),
        |i: int|
            Seq::new(
                h.spec_dim(),
                |j: int| chain_entry(h.omega_c, h.couplings@, h.spec_num_cavities() as int, i, j),
            ),
    )
}

/// The chain sample is symmetric: entry `(i, j)` equals entry `(j, i)`.
pub proof fn chain_sample_symmetric(h: CoupledCavities, i: int, j: int)
    requires
        0 <= i < h.spec_dim(),
        0 <= j < h.spec_dim(),
    ensures
        chain_sample(h)[i][j] == chain_sample(h)[j][i],
{
}

impl CoupledCavities {
    pub open spec fn spec_num_cavities(&self) -> nat {
        self.num_cavities as nat
    }

    /// A dimerized chain: the couplings alternate between `j1` (even index)
    /// and `j2` (odd index).
    pub fn ssh(omega_c: Complex64, j1: Complex64, j2: Complex64, num_cavities: usize) -> (r:
        CoupledCavities)
        requires
            1 <= num_cavities < usize::MAX,
        ensures
            r.omega_c == omega_c,
            r.spec_num_cavities() == num_cavities,
            r.couplings@.len() == num_cavities - 1,
            forall|i: int|
                0 <= i < num_cavities - 1 ==> r.couplings@[i] == (if i % 2 == 0 {
                    j1
                } else {
                    j2
                }),
            r.wf(),
    {
        let mut couplings: Vec<Complex64> = Vec::new();
        let n = num_cavities - 1;
        let mut i: usize = 0;
        while i < n
            invariant
                i <= n,
                couplings@.len() == i,
                forall|k: int|
                    0 <= k < i ==> couplings@[k] == (if k % 2 == 0 {
                        j1
                    } else {
                        j2
                    }),
            decreases n - i,
        {
            if i % 2 == 0 {
                couplings.push(j1);
            } else {
                couplings.push(j2);
            }
            i = i + 1;
        }
        CoupledCavities { omega_c, couplings, num_cavities }
    }

    /// A uniform chain: one coupling strength everywhere.
    pub fn uniform(omega_c: Complex64, j: Complex64, num_cavities: usize) -> (r: CoupledCavities)
        requires
            1 <= num_cavities < usize::MAX,
        ensures
            r.omega_c == omega_c,
            r.spec_num_cavities() == num_cavities,
            r.couplings@.len() == num_cavities - 1,
            forall|i: int| 0 <= i < num_cavities - 1 ==> r.couplings@[i] == j,
            r.wf(),
    {
        let mut couplings: Vec<Complex64> = Vec::new();
        let n = num_cavities - 1;
        let mut i: usize = 0;
        while i < n
            invariant
                i <= n,
                couplings@.len() == i,
                forall|k: int| 0 <= k < i ==> couplings@[k] == j,
            decreases n - i,
        {
            couplings.push(j);
            i = i + 1;
        }
        CoupledCavities { omega_c, couplings, num_cavities }
    }
}

impl Hamiltonian for CoupledCavities {
    open spec fn wf(&self) -> bool {
        &&& 1 <= self.spec_num_cavities() < usize::MAX
        &&& self.couplings@.len() == self.spec_num_cavities() - 1
    }

    open spec fn spec_dim(&self) -> nat {
        self.spec_num_cavities() + 1
    }

    open spec fn spec_sample(&self, t: Complex64) -> Seq<Seq<Complex64>> {
        chain_sample(*self)
    }

    open spec fn spec_time_independent(&self) -> bool {
        true
    }

    open spec fn spec_period(&self) -> Option<Complex64> {
        None
    }

    fn dim(&self) -> (r: usize)
        ensures
            r as nat == self.spec_dim(),
    {
        self.num_cavities + 1
    }

    fn compute(&self, t: Complex64, out: &mut CMatrix) {
        let n = self.num_cavities;
        let dim = n + 1;
        let zero = c_u32(0, 0);
        let ghost target = chain_sample(*self);
        let mut rows: Vec<Vec<Complex64>> = Vec::new();
        let mut i: usize = 0;
        while i < dim
            invariant
                i <= dim,
                dim == n + 1,
                rows@.len() == i,
                forall|a: int| 0 <= a < i ==> (#[trigger] rows@[a])@ == target[a],
            decreases dim - i,
        {
            let mut row: Vec<Complex64> = Vec::new();
            let mut j: usize = 0;
            while j < dim
                invariant
                    i < dim,
                    j <= dim,
                    dim == n + 1,
                    row@.len() == j,
                    forall|b: int|
                        0 <= b < j ==> (#[trigger] row@[b]) == chain_entry(
                            self.omega_c,
                            self.couplings@,
                            n as int,
                            i as int,
                            b,
                        ),
                decreases dim - j,
            {
                let v: Complex64 = if i == j && 1 <= i {
                    self.omega_c
                } else if j == i + 1 && 1 <= i {
                    self.couplings[i - 1]
                } else if i == j + 1 && 1 <= j {
                    self.couplings[j - 1]
                } else {
                    zero
                };
                row.push(v);
                j = j + 1;
            }
            proof {
                assert(row@ =~= target[i as int]);
            }
            rows.push(row);
            i = i + 1;
        }
        let m = CMatrix { dim, rows };
        proof {
            assert(m@ =~~= target);
        }
        *out = m;
    }

    fn is_time_independent(&self) -> (r: bool) {
        true
    }

    fn period(&self) -> (r: Option<Complex64>) {
        None
    }
}

} // verus!
