//! Build-then-run assembly of a simulation.

use vstd::prelude::*;
use num_complex::Complex64;

verus! {

use crate::config::Config;
use crate::error::Error;
use crate::hamiltonian::Hamiltonian;
use crate::integrator::IntegratorType;
use crate::observables::{MatrixObservable, Observable};
use crate::runner::SimulationRunner;
use crate::state::QuantumState;

/// Collects the parts of a simulation; `build` fails with a configuration
/// error naming the first missing mandatory field.
pub struct SimulationBuilder<H: Hamiltonian> {
    pub hamiltonian: Option<H>,
    pub initial_state: Option<QuantumState>,
    pub duration: Option<Complex64>,
    pub timestep: Option<Complex64>,
    pub integrator_type: IntegratorType,
    pub observables: Vec<(String, MatrixObservable)>,
    pub gpu_enabled: bool,
}

impl<H: Hamiltonian> SimulationBuilder<H> {
    /// All four mandatory fields are present.
    pub open spec fn complete(&self) -> bool {
        &&& self.hamiltonian is Some
        &&& self.initial_state is Some
        &&& self.duration is Some
        &&& self.timestep is Some
    }

    /// What is present fits together: the Hamiltonian is well-formed and
    /// every state and observable matches its dimension.
    pub open spec fn consistent(&self) -> bool {
        match self.hamiltonian {
            Some(h) => {
                &&& h.wf()
                &&& (self.initial_state matches Some(st) ==> st@.len() == h.spec_dim())
                &&& forall|i: int|
                    0 <= i < self.observables@.len() ==> (#[trigger] self.observables@[i]).1.wf()
                &&& forall|i: int|
                    0 <= i < self.observables@.len()
                        ==> (#[trigger] self.observables@[i]).1.spec_dim() == h.spec_dim()
            },
            None => true,
        }
    }

    pub fn new() -> (r: SimulationBuilder<H>)
        ensures
            r.hamiltonian is None,
            r.initial_state is None,
            r.duration is None,
            r.timestep is None,
            r.integrator_type == IntegratorType::RK4,
            r.observables@.len() == 0,
            !r.gpu_enabled,
    {
        SimulationBuilder {
            hamiltonian: None,
            initial_state: None,
            duration: None,
            timestep: None,
            integrator_type: IntegratorType::RK4,
            observables: Vec::new(),
            gpu_enabled: false,
        }
    }

    pub fn hamiltonian(self, hamiltonian: H) -> (r: Self)
        ensures
            r == (SimulationBuilder { hamiltonian: Some(hamiltonian), ..self }),
    {
        SimulationBuilder { hamiltonian: Some(hamiltonian), ..self }
    }

    pub fn initial_state(self, state: QuantumState) -> (r: Self)
        ensures
            r == (SimulationBuilder { initial_state: Some(state), ..self }),
    {
        SimulationBuilder { initial_state: Some(state), ..self }
    }

    pub fn duration(self, duration: Complex64) -> (r: Self)
        ensures
            r == (SimulationBuilder { duration: Some(duration), ..self }),
    {
        SimulationBuilder { duration: Some(duration), ..self }
    }

    pub fn timestep(self, timestep: Complex64) -> (r: Self)
        ensures
            r == (SimulationBuilder { timestep: Some(timestep), ..self }),
    {
        SimulationBuilder { timestep: Some(timestep), ..self }
    }

    pub fn integrator(self, integrator_type: IntegratorType) -> (r: Self)
        ensures
            r == (SimulationBuilder { integrator_type, ..self }),
    {
        SimulationBuilder { integrator_type, ..self }
    }

    /// Registers a named observable: its operator matrix is captured, and
    /// its samples are collected under this name, in registration order.
    pub fn observable<O: Observable>(self, name: &str, observable: O) -> (r: Self)
        requires
            observable.wf(),
        ensures
            r.observables@.len() == self.observables@.len() + 1,
            forall|i: int|
                0 <= i < self.observables@.len() ==> r.observables@[i] == (
                #[trigger] self.observables@[i]),
            r.observables@[self.observables@.len() as int].0@ == name@,
            r.observables@[self.observables@.len() as int].1.wf(),
            r.observables@[self.observables@.len() as int].1.spec_matrix()
                == observable.spec_matrix(),
            r.observables@[self.observables@.len() as int].1.spec_dim() == observable.spec_dim(),
            r.hamiltonian == self.hamiltonian,
            r.initial_state == self.initial_state,
            r.duration == self.duration,
            r.timestep == self.timestep,
            r.integrator_type == self.integrator_type,
            r.gpu_enabled == self.gpu_enabled,
    {
        let SimulationBuilder {
            hamiltonian,
            initial_state,
            duration,
            timestep,
            integrator_type,
            mut observables,
            gpu_enabled,
        } = self;
        let captured = MatrixObservable::new(observable.matrix().duplicate());
        observables.push((name.to_owned(), captured));
        SimulationBuilder {
            hamiltonian,
            initial_state,
            duration,
            timestep,
            integrator_type,
            observables,
            gpu_enabled,
        }
    }

    pub fn gpu(self, enabled: bool) -> (r: Self)
        ensures
            r == (SimulationBuilder { gpu_enabled: enabled, ..self }),
    {
        SimulationBuilder { gpu_enabled: enabled, ..self }
    }

    /// Assembles the runner, failing with a configuration error that names
    /// the first missing mandatory field: the Hamiltonian, the initial
    /// state, the duration, then the timestep.
    pub fn build(self) -> (r: Result<SimulationRunner<H>, Error>)
        requires
            self.complete() ==> self.consistent(),
        ensures
            match r {
                Ok(runner) => {
                    &&& self.complete()
                    &&& runner.wf()
                    &&& (self.hamiltonian matches Some(h) ==> {
                        &&& (forall|t: Complex64| runner.spec_h_sample(t) == h.spec_sample(t))
                        &&& runner.spec_h_dim() == h.spec_dim()
                    })
                    &&& (self.initial_state matches Some(st) ==> runner.spec_initial() == st@)
                    &&& (self.duration matches Some(d) ==> runner.spec_duration() == d)
                    &&& (self.timestep matches Some(ts) ==> runner.spec_timestep() == ts)
                    &&& runner.spec_obs() == self.observables@
                },
                Err(e) => {
                    &&& !self.complete()
                    &&& e matches Error::Config(m)
                    &&& (self.hamiltonian is None ==> m@ == "Hamiltonian not specified"@)
                    &&& (self.hamiltonian is Some && self.initial_state is None ==> m@
                        == "Initial state not specified"@)
                    &&& (self.hamiltonian is Some && self.initial_state is Some
                        && self.duration is None ==> m@ == "Duration not specified"@)
                    &&& (self.hamiltonian is Some && self.initial_state is Some
                        && self.duration is Some && self.timestep is None ==> m@
                        == "Timestep not specified"@)
                },
            },
    {
        let hamiltonian = match self.hamiltonian {
            Some(h) => h,
            None => {
                return Err(Error::Config("Hamiltonian not specified".to_string()));
            },
        };
        let initial_state = match self.initial_state {
            Some(st) => st,
            None => {
                return Err(Error::Config("Initial state not specified".to_string()));
            },
        };
        let duration = match self.duration {
            Some(d) => d,
            None => {
                return Err(Error::Config("Duration not specified".to_string()));
            },
        };
        let timestep = match self.timestep {
            Some(ts) => ts,
            None => {
                return Err(Error::Config("Timestep not specified".to_string()));
            },
        };
        SimulationRunner::new(
            hamiltonian,
            initial_state,
            duration,
            timestep,
            self.integrator_type,
            self.observables,
            self.gpu_enabled,
        )
    }

    /// Fails loudly: assembling a runner straight from a parsed
    /// configuration is an explicitly unsupported path.
    pub fn from_config(config: &Config) -> (r: Result<SimulationRunner<H>, Error>)
        ensures
            r matches Err(e) && e matches Error::NotImplemented(m) && m@ == "from_config"@,
    {
        Err(Error::NotImplemented("from_config".to_string()))
    }
}

impl<H: Hamiltonian> Default for SimulationBuilder<H> {
    fn default() -> (r: Self)
        ensures
            r.hamiltonian is None,
            r.initial_state is None,
            r.duration is None,
            r.timestep is None,
            r.integrator_type == IntegratorType::RK4,
            r.observables@.len() == 0,
            !r.gpu_enabled,
    {
        SimulationBuilder::new()
    }
}

} // verus!
