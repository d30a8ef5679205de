//! The accelerated-backend stubs: an unimplemented device layer whose
//! capabilities are declared but which always falls back to the processor.
//! The parallel batch dispatch over worker threads is owned by the
//! surrounding program; the sizing and bookkeeping logic lives here.

use vstd::prelude::*;
use num_complex::Complex64;

verus! {

use crate::error::Error;
use crate::matrix::CMatrix;

/// A device the backend could report.
pub struct GpuDevice {
    pub name: String,
    pub backend_type: BackendType,
    pub memory_bytes: u64,
}

#[derive(Debug, Clone, Copy, PartialEq, Eq, Structural)]
pub enum BackendType {
    Cuda,
    Vulkan,
    Metal,
    WebGpu,
    Cpu,
}

/// The backend handle. No device layer is implemented: every construction
/// path leaves it disabled, and the contracts say so.
pub struct GpuBackend {
    enabled: bool,
}

impl GpuBackend {
    pub closed spec fn spec_enabled(&self) -> bool {
        self.enabled
    }

    /// Requesting acceleration is accepted but never satisfied: the result
    /// is disabled whatever was asked.
    pub fn new(enabled: bool) -> (r: Result<GpuBackend, Error>)
        ensures
            r matches Ok(b) && !b.spec_enabled(),
    {
        if !enabled {
            return Ok(GpuBackend { enabled: false });
        }
        Ok(GpuBackend { enabled: false })
    }

    pub fn is_enabled(&self) -> (r: bool)
        ensures
            r == self.spec_enabled(),
    {
        self.enabled
    }

    /// The devices available: only the processor fallback.
    pub fn available_devices() -> (r: Result<Vec<GpuDevice>, Error>)
        ensures
            match r {
                Ok(v) => {
                    &&& v@.len() == 1
                    &&& v@[0].name@ == "CPU Fallback"@
                    &&& v@[0].backend_type == BackendType::Cpu
                    &&& v@[0].memory_bytes == 0
                },
                Err(_) => false,
            },
    {
        let mut v: Vec<GpuDevice> = Vec::new();
        v.push(
            GpuDevice {
                name: "CPU Fallback".to_string(),
                backend_type: BackendType::Cpu,
                memory_bytes: 0,
            },
        );
        Ok(v)
    }
}

impl Default for GpuBackend {
    fn default() -> (r: Self)
        ensures
            !r.spec_enabled(),
    {
        GpuBackend { enabled: false }
    }
}

/// Sizing and flags for batched execution; the parallel dispatch itself is
/// owned by the surrounding program.
pub struct BatchExecutor {
    batch_size: usize,
    gpu_enabled: bool,
}

impl BatchExecutor {
    pub closed spec fn spec_batch_size(&self) -> usize {
        self.batch_size
    }

    pub closed spec fn spec_gpu_enabled(&self) -> bool {
        self.gpu_enabled
    }

    pub fn new(batch_size: usize, gpu_enabled: bool) -> (r: BatchExecutor)
        ensures
            r.spec_batch_size() == batch_size,
            r.spec_gpu_enabled() == gpu_enabled,
    {
        BatchExecutor { batch_size, gpu_enabled }
    }

    pub fn batch_size(&self) -> (r: usize)
        ensures
            r == self.spec_batch_size(),
    {
        self.batch_size
    }

    pub fn is_gpu_enabled(&self) -> (r: bool)
        ensures
            r == self.spec_gpu_enabled(),
    {
        self.gpu_enabled
    }
}

/// The accelerated matrix-product kernel; fails loudly as unsupported.
pub struct MatMulKernel;

impl MatMulKernel {
    pub fn execute(a: &CMatrix, b: &CMatrix) -> (r: Result<CMatrix, Error>)
        ensures
            r matches Err(e) && e matches Error::NotImplemented(m) && m@
                == "GPU matrix multiplication"@,
    {
        Err(Error::NotImplemented("GPU matrix multiplication".to_string()))
    }
}

/// The accelerated batched-evolution kernel; fails loudly as unsupported.
pub struct EvolveKernel;

impl EvolveKernel {
    pub fn execute_batch(
        states: &Vec<CMatrix>,
        hamiltonians: &Vec<CMatrix>,
        dt: Complex64,
    ) -> (r: Result<Vec<CMatrix>, Error>)
        ensures
            r matches Err(e) && e matches Error::NotImplemented(m) && m@
                == "GPU batched evolution"@,
    {
        Err(Error::NotImplemented("GPU batched evolution".to_string()))
    }
}

/// A buffer-size record.
pub struct GpuBuffer {
    size_bytes: usize,
}

impl GpuBuffer {
    pub closed spec fn spec_size(&self) -> usize {
        self.size_bytes
    }

    pub fn new(size_bytes: usize) -> (r: Result<GpuBuffer, Error>)
        ensures
            r matches Ok(b) && b.spec_size() == size_bytes,
    {
        Ok(GpuBuffer { size_bytes })
    }

    pub fn size(&self) -> (r: usize)
        ensures
            r == self.spec_size(),
    {
        self.size_bytes
    }
}

/// An allocation tally.
pub struct GpuMemoryPool {
    total_allocated: usize,
}

impl GpuMemoryPool {
    pub closed spec fn spec_total(&self) -> usize {
        self.total_allocated
    }

    pub fn new() -> (r: GpuMemoryPool)
        ensures
            r.spec_total() == 0,
    {
        GpuMemoryPool { total_allocated: 0 }
    }

    /// Accounts for a buffer of the given size and hands it back.
    pub fn allocate(&mut self, size_bytes: usize) -> (r: Result<GpuBuffer, Error>)
        requires
            old(self).spec_total() + size_bytes <= usize::MAX,
        ensures
            final(self).spec_total() == old(self).spec_total() + size_bytes,
            r matches Ok(b) && b.spec_size() == size_bytes,
    {
        self.total_allocated = self.total_allocated + size_bytes;
        GpuBuffer::new(size_bytes)
    }

    pub fn total_allocated(&self) -> (r: usize)
        ensures
            r == self.spec_total(),
    {
        self.total_allocated
    }
}

impl Default for GpuMemoryPool {
    fn default() -> (r: Self)
        ensures
            r.spec_total() == 0,
    {
        GpuMemoryPool::new()
    }
}

} // verus!
