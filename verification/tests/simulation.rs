//! End-to-end simulation runs, the builder, results, and the surrounding
//! bookkeeping types.

use chronophoton::builder::SimulationBuilder;
use chronophoton::config::Config;
use chronophoton::integrator::{Integrator, IntegratorType, RK4Integrator};
use chronophoton::observables::{Observable, PopulationOperator};
use chronophoton::results::SimulationResults;
use chronophoton::state::QuantumState;
use chronophoton::systems::DrivenTLS;
use chronophoton::Error;
use num_complex::Complex64;

fn c(re: f64, im: f64) -> Complex64 {
    Complex64::new(re, im)
}

fn tls() -> DrivenTLS {
    DrivenTLS::new(c(5.0, 0.0), c(5.0, 0.0), c(0.5, 0.0))
}

#[test]
fn test_driven_tls_simulation() {
    let hamiltonian = tls();
    let initial_state = QuantumState::ground_state(2);

    let sim = SimulationBuilder::new()
        .hamiltonian(hamiltonian)
        .initial_state(initial_state)
        .duration(c(10.0, 0.0))
        .timestep(c(0.1, 0.0))
        .integrator(IntegratorType::RK4)
        .build()
        .unwrap();

    let results = sim.run();
    assert!(results.is_ok());
}

#[test]
fn end_to_end_final_norm_close_to_one() {
    // The same run, stepped by hand: after the hundred steps of the
    // ten-unit run the norm is within 1e-6 of one, and the run succeeds.
    let hamiltonian = tls();
    let mut state = QuantumState::ground_state(2);
    let integrator = RK4Integrator::new();
    for k in 0..100u32 {
        let t = c(k as f64 * 0.1, 0.0);
        integrator
            .step(&hamiltonian, &mut state, t, c(0.1, 0.0))
            .unwrap();
    }
    let norm: f64 = state
        .data()
        .iter()
        .map(|x| x.norm_sqr())
        .sum::<f64>()
        .sqrt();
    assert!((norm - 1.0).abs() < 1e-6);

    let sim = SimulationBuilder::new()
        .hamiltonian(tls())
        .initial_state(QuantumState::ground_state(2))
        .duration(c(10.0, 0.0))
        .timestep(c(0.1, 0.0))
        .integrator(IntegratorType::RK4)
        .build()
        .unwrap();
    assert!(sim.run().is_ok());
}

#[test]
fn run_collects_named_series_with_exact_times() {
    let sim = SimulationBuilder::new()
        .hamiltonian(tls())
        .initial_state(QuantumState::ground_state(2))
        .duration(c(1.0, 0.0))
        .timestep(c(0.1, 0.0))
        .observable("population", PopulationOperator::new(2, 0).unwrap())
        .build()
        .unwrap();
    let results = sim.run().unwrap();
    let names = results.observable_names();
    assert_eq!(names.len(), 1);
    assert_eq!(names[0], "population");

    let series = results.get_observable("population").unwrap();
    assert_eq!(series.len(), 10);
    for (k, sample) in series.iter().enumerate() {
        assert_eq!(sample.time.re, k as f64 * 0.1);
    }
    // The pre-step ground state is fully on level zero.
    assert_eq!(series[0].value.re, 1.0);
    assert!(results.get_observable("missing").is_none());
}

#[test]
fn builder_reports_first_missing_field() {
    let empty: SimulationBuilder<DrivenTLS> = SimulationBuilder::new();
    match empty.build() {
        Err(Error::Config(m)) => assert_eq!(m, "Hamiltonian not specified"),
        _ => panic!("expected a config error"),
    }

    let only_h = SimulationBuilder::new().hamiltonian(tls());
    match only_h.build() {
        Err(Error::Config(m)) => assert_eq!(m, "Initial state not specified"),
        _ => panic!("expected a config error"),
    }

    let no_duration = SimulationBuilder::new()
        .hamiltonian(tls())
        .initial_state(QuantumState::ground_state(2));
    match no_duration.build() {
        Err(Error::Config(m)) => assert_eq!(m, "Duration not specified"),
        _ => panic!("expected a config error"),
    }

    let no_timestep = SimulationBuilder::new()
        .hamiltonian(tls())
        .initial_state(QuantumState::ground_state(2))
        .duration(c(10.0, 0.0));
    match no_timestep.build() {
        Err(Error::Config(m)) => assert_eq!(m, "Timestep not specified"),
        _ => panic!("expected a config error"),
    }
}

#[test]
fn from_config_is_unsupported() {
    let config = Config::generate_template("driven_tls").unwrap();
    let r: Result<_, Error> = SimulationBuilder::<DrivenTLS>::from_config(&config);
    assert!(matches!(r, Err(Error::NotImplemented(_))));
}

#[test]
fn results_merge_samples_under_one_name() {
    let mut results = SimulationResults::new();
    results.add_observable("n", c(0.0, 0.0), c(1.0, 0.0));
    results.add_observable("n", c(0.1, 0.0), c(0.9, 0.0));
    results.add_observable("m", c(0.0, 0.0), c(0.5, 0.0));
    let names = results.observable_names();
    assert_eq!(names, vec!["n".to_string(), "m".to_string()]);
    let series = results.get_observable("n").unwrap();
    assert_eq!(series.len(), 2);
    assert_eq!(series[0].time.re, 0.0);
    assert_eq!(series[1].value.re, 0.9);
    assert!(matches!(
        results.save("anywhere"),
        Err(Error::NotImplemented(_))
    ));
}

#[test]
fn config_validation_rules() {
    let mut config = Config::generate_template("driven_tls").unwrap();
    assert!(config.validate().is_ok());

    config.simulation.duration = c(0.0, 0.0);
    match config.validate() {
        Err(Error::InvalidParameter(m)) => assert_eq!(m, "Duration must be positive"),
        _ => panic!("expected an invalid-parameter error"),
    }

    config.simulation.duration = c(50.0, 0.0);
    config.simulation.timestep = c(-0.5, 0.0);
    match config.validate() {
        Err(Error::InvalidParameter(m)) => assert_eq!(m, "Timestep must be positive"),
        _ => panic!("expected an invalid-parameter error"),
    }

    config.simulation.timestep = c(0.1, 0.0);
    config.system.hilbert_dim = 0;
    match config.validate() {
        Err(Error::InvalidParameter(m)) => assert_eq!(m, "Hilbert dimension must be positive"),
        _ => panic!("expected an invalid-parameter error"),
    }
}

#[test]
fn template_values_are_exact() {
    let config = Config::generate_template("driven_tls").unwrap();
    assert_eq!(config.simulation.name, "driven_tls");
    assert_eq!(config.simulation.duration.re, 50.0);
    assert_eq!(config.simulation.timestep.re, 0.1);
    assert_eq!(config.simulation.integrator, "rk4");
    assert_eq!(config.system.hilbert_dim, 2);
    assert_eq!(config.system.parameters.len(), 3);
    assert_eq!(config.system.parameters[0].0, "omega_0");
    assert_eq!(config.system.parameters[0].1.re, 5.0);
    assert_eq!(config.system.parameters[2].0, "rabi_freq");
    assert_eq!(config.system.parameters[2].1.re, 0.5);
    assert_eq!(config.observables.list, vec!["population".to_string()]);
    assert!(!config.gpu.enabled);
    assert_eq!(config.gpu.batch_size, 256);

    assert!(matches!(
        Config::generate_template("unknown"),
        Err(Error::InvalidParameter(_))
    ));
}
