//! Named time series of expectation samples, in insertion order.

use vstd::prelude::*;
use num_complex::Complex64;

verus! {

use crate::error::Error;
use crate::observables::ExpectationValue;

/// The index of the first series with the given name, or `-1`.
pub open spec fn series_index(
    s: Seq<(Seq<char>, Seq<ExpectationValue>)>,
    name: Seq<char>,
) -> int
    decreases s.len(),
{
    if s.len() == 0 {
        -1
    } else if s[0].0 == name {
        0
    } else {
        let rest = series_index(s.drop_first(), name);
        if rest < 0 {
            -1
        } else {
            rest + 1
        }
    }
}

pub open spec fn has_series(s: Seq<(Seq<char>, Seq<ExpectationValue>)>, name: Seq<char>) -> bool {
    series_index(s, name) >= 0
}

/// Appending one sample: onto the named series where it exists, else as a
/// new series at the end.
pub open spec fn add_sample_spec(
    s: Seq<(Seq<char>, Seq<ExpectationValue>)>,
    name: Seq<char>,
    v: ExpectationValue,
) -> Seq<(Seq<char>, Seq<ExpectationValue>)> {
    let i = series_index(s, name);
    if i >= 0 {
        s.update(i, (s[i].0, s[i].1.push(v)))
    } else {
        s.push((name, seq![v]))
    }
}

/// Where the first `i` keys differ from `name` and key `i` matches, the
/// series index is `i`.
pub proof fn lemma_series_index_found(
    s: Seq<(Seq<char>, Seq<ExpectationValue>)>,
    name: Seq<char>,
    i: int,
)
    requires
        0 <= i < s.len(),
        s[i].0 == name,
        forall|k: int| 0 <= k < i ==> (#[trigger] s[k]).0 != name,
    ensures
        series_index(s, name) == i,
    decreases i,
{
    if i == 0 {
    } else {
        assert(s[0].0 != name);
        lemma_series_index_found(s.drop_first(), name, i - 1);
    }
}

/// Where no key matches `name`, there is no series index.
pub proof fn lemma_series_index_missing(s: Seq<(Seq<char>, Seq<ExpectationValue>)>, name: Seq<char>)
    requires
        forall|k: int| 0 <= k < s.len() ==> (#[trigger] s[k]).0 != name,
    ensures
        series_index(s, name) == -1,
    decreases s.len(),
{
    if s.len() == 0 {
    } else {
        assert(s[0].0 != name);
        lemma_series_index_missing(s.drop_first(), name);
    }
}

/// Accumulated simulation output: each observable name mapped to its
/// chronologically ordered samples, the names kept in insertion order.
pub struct SimulationResults {
    observables: Vec<(String, Vec<ExpectationValue>)>,
}

impl View for SimulationResults {
    type V = Seq<(Seq<char>, Seq<ExpectationValue>)>;

    closed spec fn view(&self) -> Seq<(Seq<char>, Seq<ExpectationValue>)> {
        Seq::new(self.observables@.len(), |i: int| (self.observables@[i].0@, self.observables@[i].1@))
    }
}

impl SimulationResults {
    pub fn new() -> (r: SimulationResults)
        ensures
            r@ == Seq::<(Seq<char>, Seq<ExpectationValue>)>::empty(),
    {
        let r = SimulationResults { observables: Vec::new() };
        proof {
            assert(r@ =~= Seq::<(Seq<char>, Seq<ExpectationValue>)>::empty());
        }
        r
    }

    /// Appends `(time, value)` to the series of `name`, creating the series
    /// at the end if the name is new.
    pub fn add_observable(&mut self, name: &str, time: Complex64, value: Complex64)
        ensures
            final(self)@ == add_sample_spec(
                old(self)@,
                name@,
                ExpectationValue { time, value },
            ),
    {
        let sample = ExpectationValue { time, value };
        let owned = name.to_owned();
        let n = self.observables.len();
        let mut i: usize = 0;
        while i < n
            invariant
                i <= n,
                n == self.observables@.len(),
                owned@ == name@,
                *self == *old(self),
                forall|k: int| 0 <= k < i ==> (#[trigger] self@[k]).0 != name@,
            decreases n - i,
        {
            if self.observables[i].0 == owned {
                proof {
                    lemma_series_index_found(self@, name@, i as int);
                }
                let mut entry = self.observables.remove(i);
                entry.1.push(sample);
                self.observables.insert(i, entry);
                proof {
                    assert(self@ =~~= add_sample_spec(
                        old(self)@,
                        name@,
                        ExpectationValue { time, value },
                    ));
                }
                return ;
            }
            proof {
                assert(self@[i as int].0 == self.observables@[i as int].0@);
            }
            i = i + 1;
        }
        proof {
            lemma_series_index_missing(self@, name@);
        }
        let mut series: Vec<ExpectationValue> = Vec::new();
        series.push(sample);
        self.observables.push((owned, series));
        proof {
            assert(self@ =~~= add_sample_spec(
                old(self)@,
                name@,
                ExpectationValue { time, value },
            ));
        }
    }

    /// The samples recorded under `name`, where any are.
    pub fn get_observable(&self, name: &str) -> (r: Option<&Vec<ExpectationValue>>)
        ensures
            match r {
                Some(v) => has_series(self@, name@) && v@ == self@[series_index(self@, name@)].1,
                None => !has_series(self@, name@),
            },
    {
        let owned = name.to_owned();
        let n = self.observables.len();
        let mut i: usize = 0;
        while i < n
            invariant
                i <= n,
                n == self.observables@.len(),
                owned@ == name@,
                forall|k: int| 0 <= k < i ==> (#[trigger] self@[k]).0 != name@,
            decreases n - i,
        {
            if self.observables[i].0 == owned {
                proof {
                    lemma_series_index_found(self@, name@, i as int);
                }
                return Some(&self.observables[i].1);
            }
            proof {
                assert(self@[i as int].0 == self.observables@[i as int].0@);
            }
            i = i + 1;
        }
        proof {
            lemma_series_index_missing(self@, name@);
        }
        None
    }

    /// The recorded names, in insertion order.
    pub fn observable_names(&self) -> (r: Vec<String>)
        ensures
            r@.len() == self@.len(),
            forall|i: int| 0 <= i < r@.len() ==> (#[trigger] r@[i])@ == self@[i].0,
    {
        let n = self.observables.len();
        let mut out: Vec<String> = Vec::new();
        let mut i: usize = 0;
        while i < n
            invariant
                i <= n,
                n == self.observables@.len(),
                out@.len() == i,
                forall|k: int| 0 <= k < i ==> (#[trigger] out@[k])@ == self@[k].0,
            decreases n - i,
        {
            out.push(self.observables[i].0.clone());
            i = i + 1;
        }
        out
    }

    /// Fails loudly: persisting results is an explicitly unsupported path.
    pub fn save(&self, path: &str) -> (r: Result<(), Error>)
        ensures
            r matches Err(e) && e matches Error::NotImplemented(m) && m@
                == "SimulationResults::save"@,
    {
        Err(Error::NotImplemented("SimulationResults::save".to_string()))
    }
}

impl Default for SimulationResults {
    fn default() -> (r: Self)
        ensures
            r@ == Seq::<(Seq<char>, Seq<ExpectationValue>)>::empty(),
    {
        SimulationResults::new()
    }
}

} // verus!
