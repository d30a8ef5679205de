//! The surrounding bookkeeping: errors, sweeps, export stubs, device layer.

use chronophoton::export::Exporter;
use chronophoton::gpu::{EvolveKernel, MatMulKernel};
use chronophoton::matrix::CMatrix;
use chronophoton::gpu::{BackendType, BatchExecutor, GpuBackend, GpuBuffer, GpuMemoryPool};
use chronophoton::scheduler::Scheduler;
use chronophoton::sweep::{Parameter, ParameterSweep, SweepStrategy};
use chronophoton::ui::{BlochSphereWidget, Cli, HintonWidget};
use chronophoton::Error;
use num_complex::Complex64;

fn c(re: f64, im: f64) -> Complex64 {
    Complex64::new(re, im)
}

#[test]
fn error_constructors_and_kind_names() {
    assert_eq!(
        Error::config("x".to_string()).kind_name(),
        "configuration error"
    );
    assert_eq!(Error::gpu("x".to_string()).kind_name(), "gpu error");
    assert_eq!(
        Error::numerical("x".to_string()).kind_name(),
        "numerical error"
    );
    let mismatch = Error::dimension_mismatch(4, 7);
    assert_eq!(mismatch.kind_name(), "dimension mismatch");
    match mismatch {
        Error::DimensionMismatch { expected, actual } => {
            assert_eq!(expected, 4);
            assert_eq!(actual, 7);
        }
        _ => panic!("expected a dimension mismatch"),
    }
    assert_eq!(
        Error::Integration("x".to_string()).kind_name(),
        "integration error"
    );
    assert_eq!(
        Error::Serialization("x".to_string()).kind_name(),
        "serialization error"
    );
    assert_eq!(
        Error::Hamiltonian("x".to_string()).kind_name(),
        "hamiltonian error"
    );
    assert_eq!(
        Error::InvalidParameter("x".to_string()).kind_name(),
        "invalid parameter"
    );
    assert_eq!(
        Error::NotImplemented("x".to_string()).kind_name(),
        "not implemented"
    );
}

#[test]
fn linspace_matches_float_formula() {
    let p = Parameter::new("g", c(0.5, 0.0), c(2.5, 0.0));
    assert_eq!(p.name, "g");
    let grid = p.linspace(5);
    assert_eq!(grid.len(), 5);
    for (i, v) in grid.iter().enumerate() {
        let expected = 0.5 + (2.5 - 0.5) * i as f64 / 4.0;
        assert_eq!(v.re, expected);
    }
    assert_eq!(grid[0].re, 0.5);
}

#[test]
fn sweep_and_scheduler_defaults() {
    let sweep = ParameterSweep::new();
    assert_eq!(sweep.batch_size, 256);
    let scheduler = Scheduler::new(8);
    assert_eq!(scheduler.max_concurrent(), 8);
    assert!(matches!(SweepStrategy::Grid, SweepStrategy::Grid));
}

#[test]
fn gpu_backend_is_always_disabled() {
    let requested = GpuBackend::new(true).unwrap();
    assert!(!requested.is_enabled());
    let unrequested = GpuBackend::new(false).unwrap();
    assert!(!unrequested.is_enabled());

    let devices = GpuBackend::available_devices().unwrap();
    assert_eq!(devices.len(), 1);
    assert_eq!(devices[0].name, "CPU Fallback");
    assert!(matches!(devices[0].backend_type, BackendType::Cpu));
    assert_eq!(devices[0].memory_bytes, 0);
}

#[test]
fn gpu_memory_pool_accounts_allocations() {
    let mut pool = GpuMemoryPool::new();
    assert_eq!(pool.total_allocated(), 0);
    let buffer = pool.allocate(128).unwrap();
    assert_eq!(buffer.size(), 128);
    let second = pool.allocate(64).unwrap();
    assert_eq!(second.size(), 64);
    assert_eq!(pool.total_allocated(), 192);
    assert_eq!(GpuBuffer::new(32).unwrap().size(), 32);
}

#[test]
fn batch_executor_records_settings() {
    let executor = BatchExecutor::new(16, false);
    assert_eq!(executor.batch_size(), 16);
    assert!(!executor.is_gpu_enabled());
}

#[test]
fn gpu_kernels_are_unsupported() {
    let a = CMatrix::zeros(2);
    let b = CMatrix::zeros(2);
    assert!(matches!(
        MatMulKernel::execute(&a, &b),
        Err(Error::NotImplemented(_))
    ));
    assert!(matches!(
        EvolveKernel::execute_batch(&Vec::new(), &Vec::new(), c(0.1, 0.0)),
        Err(Error::NotImplemented(_))
    ));
}

#[test]
fn export_paths_are_unsupported() {
    let data = vec![c(1.0, 0.0)];
    assert!(matches!(
        Exporter::to_hdf5(&data, "out.h5"),
        Err(Error::NotImplemented(_))
    ));
    assert!(matches!(
        Exporter::to_csv(&data, "out.csv"),
        Err(Error::NotImplemented(_))
    ));
}

#[test]
fn shell_markers_construct() {
    let _cli = Cli::new();
    let _bloch = BlochSphereWidget::new();
    let _hinton = HintonWidget::new();
}
