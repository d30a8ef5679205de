//! The simulation runner: the step loop that samples observables against
//! the pre-step state and then advances it by one integrator step.

use vstd::prelude::*;
use num_complex::Complex64;

verus! {

use crate::error::Error;
use crate::hamiltonian::Hamiltonian;
use crate::integrator::{rk4_accepts, rk4_next, Integrator, IntegratorType, RK4Integrator};
use crate::matrix::vec_copy;
use crate::observables::{expectation_pure_spec, ExpectationValue, MatrixObservable, Observable};
use crate::results::{add_sample_spec, SimulationResults};
use crate::scalar::{
    add_of, c64_of, c_ceil_usize, c_scale, c_u32, c_unscale, ceil_usize_of, scale_of, unscale_of,
};
use crate::state::QuantumState;

/// Owns a Hamiltonian, an initial pure state, a step plan and a list of
/// named observables; each run collects one time series per observable name.
pub struct SimulationRunner<H: Hamiltonian> {
    hamiltonian: H,
    initial_state: QuantumState,
    duration: Complex64,
    timestep: Complex64,
    integrator: RK4Integrator,
    observables: Vec<(String, MatrixObservable)>,
    gpu_enabled: bool,
}

impl<H: Hamiltonian> SimulationRunner<H> {
    pub closed spec fn spec_h_sample(&self, t: Complex64) -> Seq<Seq<Complex64>> {
        self.hamiltonian.spec_sample(t)
    }

    pub closed spec fn spec_h_dim(&self) -> nat {
        self.hamiltonian.spec_dim()
    }

    pub closed spec fn spec_initial(&self) -> Seq<Complex64> {
        self.initial_state@
    }

    pub closed spec fn spec_duration(&self) -> Complex64 {
        self.duration
    }

    pub closed spec fn spec_timestep(&self) -> Complex64 {
        self.timestep
    }

    pub closed spec fn spec_obs(&self) -> Seq<(String, MatrixObservable)> {
        self.observables@
    }

    pub closed spec fn wf(&self) -> bool {
        &&& self.hamiltonian.wf()
        &&& self.spec_initial().len() == self.spec_h_dim()
        &&& forall|i: int| 0 <= i < self.spec_obs().len() ==> (#[trigger] self.spec_obs()[i]).1.wf()
        &&& forall|i: int|
            0 <= i < self.spec_obs().len() ==> (#[trigger] self.spec_obs()[i]).1.spec_dim()
                == self.spec_h_dim()
    }

    /// The step count: the ceiling of duration over timestep.
    pub open spec fn spec_num_steps(&self) -> usize {
        ceil_usize_of(unscale_of(self.spec_duration(), self.spec_timestep()))
    }

    /// The sampling time of step `k`: `k * timestep`.
    pub open spec fn step_time(&self, k: int) -> Complex64 {
        scale_of(c64_of(k as u32, 0), self.spec_timestep())
    }

    /// The state before step `k`: the initial state advanced by `k`
    /// fourth-order steps.
    pub open spec fn state_after(&self, k: int) -> Seq<Complex64>
        decreases k,
    {
        if k <= 0 {
            self.spec_initial()
        } else {
            let t = self.step_time(k - 1);
            let dt = self.spec_timestep();
            rk4_next(
                self.spec_h_sample(t),
                self.spec_h_sample(add_of(t, unscale_of(dt, c64_of(2, 0)))),
                self.spec_h_sample(add_of(t, dt)),
                self.state_after(k - 1),
                dt,
            )
        }
    }

    /// Whether step `k` passes the normalization check.
    pub open spec fn step_ok(&self, k: int) -> bool {
        let t = self.step_time(k);
        let dt = self.spec_timestep();
        rk4_accepts(
            self.spec_h_sample(t),
            self.spec_h_sample(add_of(t, unscale_of(dt, c64_of(2, 0)))),
            self.spec_h_sample(add_of(t, dt)),
            self.state_after(k),
            dt,
        )
    }

    /// Whether every step before `n` passes.
    pub open spec fn steps_ok_upto(&self, n: int) -> bool
        decreases n,
    {
        if n <= 0 {
            true
        } else {
            self.steps_ok_upto(n - 1) && self.step_ok(n - 1)
        }
    }

    /// The results after the first `j` observables of step `k` were sampled
    /// onto `acc` against the pre-step state of step `k`.
    pub open spec fn recorded_at(
        &self,
        acc: Seq<(Seq<char>, Seq<ExpectationValue>)>,
        k: int,
        j: int,
    ) -> Seq<(Seq<char>, Seq<ExpectationValue>)>
        decreases j,
    {
        if j <= 0 {
            acc
        } else {
            add_sample_spec(
                self.recorded_at(acc, k, j - 1),
                self.spec_obs()[j - 1].0@,
                ExpectationValue {
                    time: self.step_time(k),
                    value: expectation_pure_spec(
                        self.spec_obs()[j - 1].1.spec_matrix(),
                        self.state_after(k),
                    ),
                },
            )
        }
    }

    /// The results after the first `n` whole steps were sampled.
    pub open spec fn recorded_upto(&self, n: int) -> Seq<(Seq<char>, Seq<ExpectationValue>)>
        decreases n,
    {
        if n <= 0 {
            Seq::empty()
        } else {
            self.recorded_at(self.recorded_upto(n - 1), n - 1, self.spec_obs().len() as int)
        }
    }

    /// The observable names are pairwise distinct.
    pub open spec fn distinct_names(&self) -> bool {
        forall|a: int, b: int|
            0 <= a < b < self.spec_obs().len() ==> (#[trigger] self.spec_obs()[a]).0@ != (
            #[trigger] self.spec_obs()[b]).0@
    }

    /// The series observable `j` should hold after `n` whole steps: one
    /// sample per step, the sample of step `k` taken at time `k * timestep`
    /// against the pre-step state.
    pub open spec fn expected_series(&self, j: int, n: int) -> Seq<ExpectationValue> {
        Seq::new(
            n as nat,
            |k: int|
                ExpectationValue {
                    time: self.step_time(k),
                    value: expectation_pure_spec(
                        self.spec_obs()[j].1.spec_matrix(),
                        self.state_after(k),
                    ),
                },
        )
    }

    /// Sampling the first `j` observables of step `k` onto a full record
    /// appends one sample to each of the first `j` series and leaves the
    /// rest untouched.
    proof fn lemma_record_step(
        &self,
        acc: Seq<(Seq<char>, Seq<ExpectationValue>)>,
        k: int,
        j: int,
    )
        requires
            self.distinct_names(),
            acc.len() == self.spec_obs().len(),
            forall|m: int|
                0 <= m < acc.len() ==> (#[trigger] acc[m]).0 == self.spec_obs()[m].0@,
            0 <= j <= self.spec_obs().len(),
        ensures
            self.recorded_at(acc, k, j).len() == acc.len(),
            forall|m: int|
                0 <= m < acc.len() ==> (#[trigger] self.recorded_at(acc, k, j)[m]).0 == acc[m].0,
            forall|m: int|
                0 <= m < j ==> (#[trigger] self.recorded_at(acc, k, j)[m]).1 == acc[m].1.push(
                    ExpectationValue {
                        time: self.step_time(k),
                        value: expectation_pure_spec(
                            self.spec_obs()[m].1.spec_matrix(),
                            self.state_after(k),
                        ),
                    },
                ),
            forall|m: int|
                j <= m < acc.len() ==> (#[trigger] self.recorded_at(acc, k, j)[m]) == acc[m],
        decreases j,
    {
        if j > 0 {
            self.lemma_record_step(acc, k, j - 1);
            let prev = self.recorded_at(acc, k, j - 1);
            let name = self.spec_obs()[j - 1].0@;
            assert forall|m: int| 0 <= m < j - 1 implies (#[trigger] prev[m]).0 != name by {
                assert(prev[m].0 == self.spec_obs()[m].0@);
            }
            crate::results::lemma_series_index_found(prev, name, j - 1);
        }
    }

    /// With pairwise-distinct observable names, the record after `n` whole
    /// steps (one at least) holds exactly one series per observable, in
    /// registration order, and series `j` is its expected sample sequence.
    pub proof fn recorded_series_law(&self, n: int)
        requires
            self.distinct_names(),
            n >= 1,
        ensures
            self.recorded_upto(n).len() == self.spec_obs().len(),
            forall|j: int|
                0 <= j < self.spec_obs().len() ==> (#[trigger] self.recorded_upto(n)[j]).0
                    == self.spec_obs()[j].0@,
            forall|j: int|
                0 <= j < self.spec_obs().len() ==> (#[trigger] self.recorded_upto(n)[j]).1
                    == self.expected_series(j, n),
        decreases n,
    {
        if n == 1 {
            self.lemma_record_first(0, self.spec_obs().len() as int);
            assert forall|j: int| 0 <= j < self.spec_obs().len() implies (
            #[trigger] self.recorded_upto(1)[j]).1 == self.expected_series(j, 1) by {
                assert(self.recorded_upto(1)[j].1 =~= self.expected_series(j, 1));
            }
        } else {
            self.recorded_series_law(n - 1);
            let acc = self.recorded_upto(n - 1);
            self.lemma_record_step(acc, n - 1, self.spec_obs().len() as int);
            assert forall|j: int| 0 <= j < self.spec_obs().len() implies (
            #[trigger] self.recorded_upto(n)[j]).1 == self.expected_series(j, n) by {
                assert(self.recorded_upto(n)[j].1 == self.expected_series(j, n - 1).push(
                    ExpectationValue {
                        time: self.step_time(n - 1),
                        value: expectation_pure_spec(
                            self.spec_obs()[j].1.spec_matrix(),
                            self.state_after(n - 1),
                        ),
                    },
                ));
                assert(self.expected_series(j, n - 1).push(
                    ExpectationValue {
                        time: self.step_time(n - 1),
                        value: expectation_pure_spec(
                            self.spec_obs()[j].1.spec_matrix(),
                            self.state_after(n - 1),
                        ),
                    },
                ) =~= self.expected_series(j, n));
            }
        }
    }

    /// Sampling the first `j` observables of the first step onto the empty
    /// record creates one fresh series per observable, in order.
    proof fn lemma_record_first(&self, k: int, j: int)
        requires
            self.distinct_names(),
            k == 0,
            0 <= j <= self.spec_obs().len(),
        ensures
            self.recorded_at(Seq::empty(), k, j).len() == j,
            forall|m: int|
                0 <= m < j ==> (#[trigger] self.recorded_at(Seq::empty(), k, j)[m]).0
                    == self.spec_obs()[m].0@,
            forall|m: int|
                0 <= m < j ==> (#[trigger] self.recorded_at(Seq::empty(), k, j)[m]).1 == seq![
                    ExpectationValue {
                        time: self.step_time(k),
                        value: expectation_pure_spec(
                            self.spec_obs()[m].1.spec_matrix(),
                            self.state_after(k),
                        ),
                    },
                ],
        decreases j,
    {
        if j > 0 {
            self.lemma_record_first(k, j - 1);
            let prev = self.recorded_at(Seq::empty(), k, j - 1);
            let name = self.spec_obs()[j - 1].0@;
            assert forall|m: int| 0 <= m < prev.len() implies (#[trigger] prev[m]).0 != name by {
                assert(prev[m].0 == self.spec_obs()[m].0@);
            }
            crate::results::lemma_series_index_missing(prev, name);
        }
    }

    proof fn lemma_steps_ok_prefix(&self, k: int, n: int)
        requires
            self.steps_ok_upto(n),
            0 <= k < n,
        ensures
            self.step_ok(k),
        decreases n,
    {
        if k < n - 1 {
            self.lemma_steps_ok_prefix(k, n - 1);
        }
    }

    /// Assembles a runner; the integrator kind resolves through
    /// `create_integrator`, so every kind steps with the fourth-order
    /// scheme.
    pub fn new(
        hamiltonian: H,
        initial_state: QuantumState,
        duration: Complex64,
        timestep: Complex64,
        integrator_type: IntegratorType,
        observables: Vec<(String, MatrixObservable)>,
        gpu_enabled: bool,
    ) -> (r: Result<SimulationRunner<H>, Error>)
        requires
            hamiltonian.wf(),
            initial_state.spec_dim() == hamiltonian.spec_dim(),
            forall|i: int| 0 <= i < observables@.len() ==> (#[trigger] observables@[i]).1.wf(),
            forall|i: int|
                0 <= i < observables@.len() ==> (#[trigger] observables@[i]).1.spec_dim()
                    == hamiltonian.spec_dim(),
        ensures
            match r {
                Ok(s) => {
                    &&& s.wf()
                    &&& forall|t: Complex64| s.spec_h_sample(t) == hamiltonian.spec_sample(t)
                    &&& s.spec_h_dim() == hamiltonian.spec_dim()
                    &&& s.spec_initial() == initial_state@
                    &&& s.spec_duration() == duration
                    &&& s.spec_timestep() == timestep
                    &&& s.spec_obs() == observables@
                },
                Err(_) => false,
            },
    {
        let integrator = crate::integrator::create_integrator(integrator_type);
        Ok(
            SimulationRunner {
                hamiltonian,
                initial_state,
                duration,
                timestep,
                integrator,
                observables,
                gpu_enabled,
            },
        )
    }

    /// Runs the loop: at step `k` every observable is sampled against the
    /// pre-step state and appended under its name at time `k * timestep`,
    /// then the state advances one step. The first failed normalization
    /// check aborts the run; no partial series are returned.
    pub fn run(&self) -> (r: Result<SimulationResults, Error>)
        requires
            self.wf(),
            self.spec_num_steps() <= u32::MAX,
        ensures
            match r {
                Ok(res) => {
                    &&& self.steps_ok_upto(self.spec_num_steps() as int)
                    &&& res@ == self.recorded_upto(self.spec_num_steps() as int)
                },
                Err(e) => {
                    &&& !self.steps_ok_upto(self.spec_num_steps() as int)
                    &&& e matches Error::InvalidParameter(m) && m@
                        == "State must be normalized"@
                },
            },
    {
        let num_steps = c_ceil_usize(c_unscale(self.duration, self.timestep));
        let mut state = QuantumState::from_components_unchecked(
            vec_copy(self.initial_state.data()),
        );
        let mut results = SimulationResults::new();
        let mut step: usize = 0;
        while step < num_steps
            invariant
                step <= num_steps,
                num_steps == self.spec_num_steps(),
                num_steps <= u32::MAX,
                self.wf(),
                state@ == self.state_after(step as int),
                state.spec_dim() == self.spec_h_dim(),
                self.steps_ok_upto(step as int),
                results@ == self.recorded_upto(step as int),
            decreases num_steps - step,
        {
            let t = c_scale(c_u32(step as u32, 0), self.timestep);
            let n_obs = self.observables.len();
            let mut j: usize = 0;
            while j < n_obs
                invariant
                    j <= n_obs,
                    n_obs == self.spec_obs().len(),
                    step < num_steps,
                    num_steps <= u32::MAX,
                    self.wf(),
                    t == self.step_time(step as int),
                    state@ == self.state_after(step as int),
                    state.spec_dim() == self.spec_h_dim(),
                    results@ == self.recorded_at(
                        self.recorded_upto(step as int),
                        step as int,
                        j as int,
                    ),
                decreases n_obs - j,
            {
                let value = self.observables[j].1.expectation_pure(&state);
                results.add_observable(self.observables[j].0.as_str(), t, value);
                j = j + 1;
            }
            match self.integrator.step(&self.hamiltonian, &mut state, t, self.timestep) {
                Ok(()) => {},
                Err(e) => {
                    proof {
                        if self.steps_ok_upto(num_steps as int) {
                            self.lemma_steps_ok_prefix(step as int, num_steps as int);
                        }
                    }
                    return Err(e);
                },
            }
            step = step + 1;
        }
        Ok(results)
    }
}

} // verus!
