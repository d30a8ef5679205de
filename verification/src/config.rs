//! The in-memory configuration model and its validation. Reading and
//! writing configuration files is owned by the surrounding program; the
//! core receives only already-resolved values.

use vstd::prelude::*;
use num_complex::Complex64;

verus! {

use crate::error::Error;
use crate::scalar::{c64_of, c_le, c_u32, c_unscale, le_re_of, unscale_of};

pub struct SimulationConfig {
    pub name: String,
    pub duration: Complex64,
    pub timestep: Complex64,
    pub integrator: String,
}

pub struct SystemConfig {
    pub hilbert_dim: usize,
    pub hamiltonian: String,
    pub parameters: Vec<(String, Complex64)>,
}

pub struct LindbladOperatorConfig {
    pub kind: String,
    pub rate: Complex64,
    pub temperature: Complex64,
}

pub struct LindbladConfig {
    pub enabled: bool,
    pub operators: Vec<LindbladOperatorConfig>,
}

pub struct ObservablesConfig {
    pub list: Vec<String>,
    pub save_interval: Complex64,
}

pub struct GpuConfig {
    pub enabled: bool,
    pub device: String,
    pub batch_size: usize,
}

impl Default for GpuConfig {
    fn default() -> (r: Self)
        ensures
            !r.enabled,
            r.device@ == "auto"@,
            r.batch_size == 256,
    {
        GpuConfig { enabled: false, device: "auto".to_string(), batch_size: 256 }
    }
}

pub struct ParameterSweepConfig {
    pub enabled: bool,
    pub parameter: String,
    pub range: Vec<Complex64>,
    pub num_points: usize,
}

/// The whole resolved configuration.
pub struct Config {
    pub simulation: SimulationConfig,
    pub system: SystemConfig,
    pub lindblad: LindbladConfig,
    pub observables: ObservablesConfig,
    pub gpu: GpuConfig,
    pub parameter_sweep: ParameterSweepConfig,
}

impl Config {
    /// A configuration passes validation exactly when the duration and the
    /// timestep are positive and the Hilbert dimension is not zero.
    pub fn validate(&self) -> (r: Result<(), Error>)
        ensures
            match r {
                Ok(()) => {
                    &&& !le_re_of(self.simulation.duration, c64_of(0, 0))
                    &&& !le_re_of(self.simulation.timestep, c64_of(0, 0))
                    &&& self.system.hilbert_dim != 0
                },
                Err(e) => {
                    &&& e matches Error::InvalidParameter(m)
                    &&& (le_re_of(self.simulation.duration, c64_of(0, 0)) ==> m@
                        == "Duration must be positive"@)
                    &&& (!le_re_of(self.simulation.duration, c64_of(0, 0)) && le_re_of(
                        self.simulation.timestep,
                        c64_of(0, 0),
                    ) ==> m@ == "Timestep must be positive"@)
                    &&& (!le_re_of(self.simulation.duration, c64_of(0, 0)) && !le_re_of(
                        self.simulation.timestep,
                        c64_of(0, 0),
                    ) ==> m@ == "Hilbert dimension must be positive"@ && self.system.hilbert_dim
                        == 0)
                },
            },
    {
        let zero = c_u32(0, 0);
        if c_le(self.simulation.duration, zero) {
            return Err(Error::InvalidParameter("Duration must be positive".to_string()));
        }
        if c_le(self.simulation.timestep, zero) {
            return Err(Error::InvalidParameter("Timestep must be positive".to_string()));
        }
        if self.system.hilbert_dim == 0 {
            return Err(Error::InvalidParameter("Hilbert dimension must be positive".to_string()));
        }
        Ok(())
    }

    /// The built-in template for the driven two-level demonstration; any
    /// other template name is rejected as an invalid parameter.
    pub fn generate_template(template_type: &str) -> (r: Result<Config, Error>)
        ensures
            match r {
                Ok(c) => {
                    &&& template_type@ == "driven_tls"@
                    &&& c.simulation.name@ == "driven_tls"@
                    &&& c.simulation.duration == c64_of(50, 0)
                    &&& c.simulation.timestep == unscale_of(c64_of(1, 0), c64_of(10, 0))
                    &&& c.simulation.integrator@ == "rk4"@
                    &&& c.system.hilbert_dim == 2
                    &&& c.system.hamiltonian@ == "driven_tls"@
                    &&& c.system.parameters@.len() == 3
                    &&& c.system.parameters@[0].0@ == "omega_0"@
                    &&& c.system.parameters@[0].1 == c64_of(5, 0)
                    &&& c.system.parameters@[1].0@ == "omega_d"@
                    &&& c.system.parameters@[1].1 == c64_of(5, 0)
                    &&& c.system.parameters@[2].0@ == "rabi_freq"@
                    &&& c.system.parameters@[2].1 == unscale_of(c64_of(1, 0), c64_of(2, 0))
                    &&& !c.lindblad.enabled
                    &&& c.lindblad.operators@.len() == 0
                    &&& c.observables.list@.len() == 1
                    &&& c.observables.list@[0]@ == "population"@
                    &&& c.observables.save_interval == c64_of(1, 0)
                    &&& !c.gpu.enabled
                    &&& !c.parameter_sweep.enabled
                },
                Err(e) => {
                    &&& template_type@ != "driven_tls"@
                    &&& e matches Error::InvalidParameter(m) && m@ == "Unknown template type"@
                },
            },
    {
        let owned = template_type.to_owned();
        let known = "driven_tls".to_string();
        if !(owned == known) {
            return Err(Error::InvalidParameter("Unknown template type".to_string()));
        }
        let five = c_u32(5, 0);
        let half = c_unscale(c_u32(1, 0), c_u32(2, 0));
        let tenth = c_unscale(c_u32(1, 0), c_u32(10, 0));
        let mut parameters: Vec<(String, Complex64)> = Vec::new();
        parameters.push(("omega_0".to_string(), five));
        parameters.push(("omega_d".to_string(), five));
        parameters.push(("rabi_freq".to_string(), half));
        let mut list: Vec<String> = Vec::new();
        list.push("population".to_string());
        Ok(
            Config {
                simulation: SimulationConfig {
                    name: "driven_tls".to_string(),
                    duration: c_u32(50, 0),
                    timestep: tenth,
                    integrator: "rk4".to_string(),
                },
                system: SystemConfig {
                    hilbert_dim: 2,
                    hamiltonian: "driven_tls".to_string(),
                    parameters,
                },
                lindblad: LindbladConfig { enabled: false, operators: Vec::new() },
                observables: ObservablesConfig { list, save_interval: c_u32(1, 0) },
                gpu: GpuConfig::default(),
                parameter_sweep: ParameterSweepConfig {
                    enabled: false,
                    parameter: String::new(),
                    range: Vec::new(),
                    num_points: 0,
                },
            },
        )
    }
}

/// A restart point: the simulated time reached and the step it belongs to.
/// Persisting and restoring it is owned by the surrounding program.
pub struct Checkpoint {
    pub time: Complex64,
    pub step: usize,
}

} // verus!
