//! Parameter sweeps across independent runs: the swept parameter and the
//! batch bookkeeping. Dispatching the runs is owned by the surrounding
//! program; each run owns its state exclusively.

use vstd::prelude::*;
use num_complex::Complex64;

verus! {

use crate::scalar::{
    add_of, c64_of, c_add, c_scale, c_sub, c_u32, c_unscale, scale_of, sub_of, unscale_of,
};

/// The batch bookkeeping of a sweep.
pub struct ParameterSweep {
    pub batch_size: usize,
}

impl ParameterSweep {
    pub fn new() -> (r: ParameterSweep)
        ensures
            r.batch_size == 256,
    {
        ParameterSweep { batch_size: 256 }
    }
}

impl Default for ParameterSweep {
    fn default() -> (r: Self)
        ensures
            r.batch_size == 256,
    {
        ParameterSweep::new()
    }
}

/// A named swept parameter and its closed range.
pub struct Parameter {
    pub name: String,
    pub min: Complex64,
    pub max: Complex64,
}

/// Grid point `i` of `n`: `min + (max - min) * i / (n - 1)`.
pub open spec fn linspace_point(
    min: Complex64,
    max: Complex64,
    n: int,
    i: int,
) -> Complex64 {
    add_of(
        min,
        unscale_of(scale_of(sub_of(max, min), c64_of(i as u32, 0)), c64_of((n - 1) as u32, 0)),
    )
}

impl Parameter {
    pub fn new(name: &str, min: Complex64, max: Complex64) -> (r: Parameter)
        ensures
            r.name@ == name@,
            r.min == min,
            r.max == max,
    {
        Parameter { name: name.to_owned(), min, max }
    }

    /// `n` evenly spaced grid points from `min` to `max`.
    pub fn linspace(&self, n: usize) -> (r: Vec<Complex64>)
        requires
            1 <= n <= u32::MAX,
        ensures
            r@.len() == n,
            forall|i: int| 0 <= i < n ==> r@[i] == linspace_point(self.min, self.max, n as int, i),
    {
        let span = c_sub(self.max, self.min);
        let denom = c_u32((n - 1) as u32, 0);
        let mut out: Vec<Complex64> = Vec::new();
        let mut i: usize = 0;
        while i < n
            invariant
                i <= n,
                out@.len() == i,
                span == sub_of(self.max, self.min),
                denom == c64_of((n - 1) as u32, 0),
                forall|k: int|
                    0 <= k < i ==> out@[k] == linspace_point(self.min, self.max, n as int, k),
            decreases n - i,
        {
            let v = c_add(self.min, c_unscale(c_scale(span, c_u32(i as u32, 0)), denom));
            out.push(v);
            i = i + 1;
        }
        out
    }
}

/// A strategy for exploring the parameter space.
#[derive(Debug, Clone, Copy, PartialEq, Eq, Structural)]
pub enum SweepStrategy {
    Grid,
    Random,
    LatinHypercube,
}

} // verus!
