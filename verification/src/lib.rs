//! A verified simulator core for finite-dimensional quantum systems:
//! Hamiltonians sampled in time, pure states and density matrices with their
//! physical invariants, a fourth-order integrator for the Schrodinger
//! equation, a Lindblad master-equation solver, observable expectation
//! values, and a runner that collects named time series.

#![verifier::loop_isolation(false)]

pub mod builder;
pub mod config;
pub mod error;
pub mod export;
pub mod floquet;
pub mod gpu;
pub mod hamiltonian;
pub mod integrator;
pub mod lindblad;
pub mod math;
pub mod matrix;
pub mod observables;
pub mod results;
pub mod runner;
pub mod scheduler;
pub mod scalar;
pub mod state;
pub mod sweep;
pub mod systems;
pub mod ui;

pub use crate::builder::SimulationBuilder;
pub use crate::config::Config;
pub use crate::error::Error;
pub use crate::hamiltonian::{CompositeHamiltonian, Hamiltonian, TimeIndependentHamiltonian};
pub use crate::integrator::{Integrator, IntegratorType, RK4Integrator};
pub use crate::observables::{ExpectationValue, Observable};
pub use crate::results::SimulationResults;
pub use crate::runner::SimulationRunner;
pub use crate::state::{DensityMatrix, QuantumState};
