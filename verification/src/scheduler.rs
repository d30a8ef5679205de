//! The concurrency bound for dispatching independent runs; the worker pool
//! itself is owned by the surrounding program.

use vstd::prelude::*;

verus! {

/// A maximum-concurrency bound for multi-run execution.
pub struct Scheduler {
    max_concurrent: usize,
}

impl Scheduler {
    pub closed spec fn spec_max_concurrent(&self) -> usize {
        self.max_concurrent
    }

    pub fn new(max_concurrent: usize) -> (r: Scheduler)
        ensures
            r.spec_max_concurrent() == max_concurrent,
    {
        Scheduler { max_concurrent }
    }

    pub fn max_concurrent(&self) -> (r: usize)
        ensures
            r == self.spec_max_concurrent(),
    {
        self.max_concurrent
    }
}

} // verus!
