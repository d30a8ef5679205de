//! Data export targets; every format is an explicitly unsupported path
//! that fails loudly.

use vstd::prelude::*;
use num_complex::Complex64;

verus! {

use crate::error::Error;

pub struct Exporter;

impl Exporter {
    pub fn to_hdf5(data: &Vec<Complex64>, path: &str) -> (r: Result<(), Error>)
        ensures
            r matches Err(e) && e matches Error::NotImplemented(m) && m@ == "HDF5 export"@,
    {
        Err(Error::NotImplemented("HDF5 export".to_string()))
    }

    pub fn to_csv(data: &Vec<Complex64>, path: &str) -> (r: Result<(), Error>)
        ensures
            r matches Err(e) && e matches Error::NotImplemented(m) && m@ == "CSV export"@,
    {
        Err(Error::NotImplemented("CSV export".to_string()))
    }
}

} // verus!
