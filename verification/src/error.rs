//! The library's error taxonomy.

use vstd::prelude::*;

verus! {

/// Every failure the library reports: invalid assembly input, a size
/// inconsistency, an out-of-range scalar or invalid state, a semantic
/// Hamiltonian failure, or an explicitly unsupported path.
#[derive(Debug, Clone)]
pub enum Error {
    /// Missing or invalid assembly input.
    Config(String),
    /// Semantic Hamiltonian validation failure.
    Hamiltonian(String),
    /// Operator or state size inconsistency.
    DimensionMismatch { expected: usize, actual: usize },
    /// Accelerated-backend failure.
    Gpu(String),
    /// Integration failure.
    Integration(String),
    /// Numerical failure.
    Numerical(String),
    /// Encoding or decoding failure.
    Serialization(String),
    /// Out-of-range scalar or invalid state.
    InvalidParameter(String),
    /// An explicitly unsupported path; it fails loudly, never approximates.
    NotImplemented(String),
}

impl Error {
    pub fn config(msg: String) -> (r: Error)
        ensures
            r == Error::Config(msg),
    {
        Error::Config(msg)
    }

    pub fn gpu(msg: String) -> (r: Error)
        ensures
            r == Error::Gpu(msg),
    {
        Error::Gpu(msg)
    }

    pub fn numerical(msg: String) -> (r: Error)
        ensures
            r == Error::Numerical(msg),
    {
        Error::Numerical(msg)
    }

    pub fn dimension_mismatch(expected: usize, actual: usize) -> (r: Error)
        ensures
            r == (Error::DimensionMismatch { expected, actual }),
    {
        Error::DimensionMismatch { expected, actual }
    }

    /// A short fixed description of the error's kind, in place of `Display`.
    pub fn kind_name(&self) -> (r: &'static str)
        ensures
            r@ == self.spec_kind_name(),
    {
        match self {
            Error::Config(_) => "configuration error",
            Error::Hamiltonian(_) => "hamiltonian error",
            Error::DimensionMismatch { .. } => "dimension mismatch",
            Error::Gpu(_) => "gpu error",
            Error::Integration(_) => "integration error",
            Error::Numerical(_) => "numerical error",
            Error::Serialization(_) => "serialization error",
            Error::InvalidParameter(_) => "invalid parameter",
            Error::NotImplemented(_) => "not implemented",
        }
    }

    pub open spec fn spec_kind_name(&self) -> Seq<char> {
        match self {
            Error::Config(_) => "configuration error"@,
            Error::Hamiltonian(_) => "hamiltonian error"@,
            Error::DimensionMismatch { .. } => "dimension mismatch"@,
            Error::Gpu(_) => "gpu error"@,
            Error::Integration(_) => "integration error"@,
            Error::Numerical(_) => "numerical error"@,
            Error::Serialization(_) => "serialization error"@,
            Error::InvalidParameter(_) => "invalid parameter"@,
            Error::NotImplemented(_) => "not implemented"@,
        }
    }
}

/// The library's result type.
pub type Result<T> = core::result::Result<T, Error>;

} // verus!
