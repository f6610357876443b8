//! Benchmark suite configuration: the circuits a suite runs over, and the
//! defaults around them.  Loading the configuration file happens outside
//! the library; the selection logic lives here.

use vstd::prelude::*;

verus! {

use vstd::string::*;
use crate::strutil::str_eq;

/// One circuit of a benchmark suite.
#[derive(Debug, Clone)]
pub struct CircuitSpec {
    /// Circuit name.
    pub name: String,
    /// Path of the circuit artifact.
    pub path: String,
    /// Optional parameter value this entry was expanded with.
    pub params: Option<u64>,
}

/// Whether a spec matches a requested name and exact parameter value.
pub open spec fn spec_matches(c: &CircuitSpec, name: Seq<char>, params: Option<u64>) -> bool {
    c.name@ == name && c.params == params
}

/// Finds the circuit to run: the first entry matching the name and the
/// exact parameter value; without a requested parameter, any entry with
/// the name serves as a fallback.  A requested parameter that no entry
/// carries finds nothing.
pub fn find_circuit(specs: &Vec<CircuitSpec>, name: &str, params: Option<u64>) -> (r: Option<
    CircuitSpec,
>)
    ensures
        r matches Some(c) ==> c.name@ == name@,
        (r is Some && params is Some) ==> r->Some_0.params == params,
        (r is None && params is None) ==> forall|i: int|
            0 <= i < specs@.len() ==> (#[trigger] specs@[i]).name@ != name@,
        (r is None && params is Some) ==> forall|i: int|
            0 <= i < specs@.len() ==> !spec_matches(&specs@[i], name@, params),
{
    let mut i: usize = 0;
    while i < specs.len()
        invariant
            i <= specs@.len(),
            forall|k: int| 0 <= k < i ==> !spec_matches(&specs@[k], name@, params),
        decreases specs@.len() - i,
    {
        let c = &specs[i];
        let params_match: bool = match (&c.params, &params) {
            (Some(a), Some(b)) => *a == *b,
            (None, None) => true,
            _ => false,
        };
        if str_eq(c.name.as_str(), name) && params_match {
            return Some(c.clone_spec());
        }
        i = i + 1;
    }
    match params {
        None => {
            let mut k: usize = 0;
            while k < specs.len()
                invariant
                    params is None,
                    k <= specs@.len(),
                    forall|j: int| 0 <= j < k ==> (#[trigger] specs@[j]).name@ != name@,
                decreases specs@.len() - k,
            {
                if str_eq(specs[k].name.as_str(), name) {
                    return Some(specs[k].clone_spec());
                }
                k = k + 1;
            }
        },
        Some(_) => {},
    }
    None
}

impl CircuitSpec {
    /// A copy with the same name, path and parameter.
    pub fn clone_spec(&self) -> (r: CircuitSpec)
        ensures
            r.name@ == self.name@,
            r.path@ == self.path@,
            r.params == self.params,
    {
        CircuitSpec { name: self.name.clone(), path: self.path.clone(), params: self.params }
    }
}

/// The path benchmark rows are logged to: the given one, or the default.
pub fn csv_logger_path(csv_out: Option<String>) -> (r: String)
    ensures
        csv_out matches Some(p) ==> r == p,
        csv_out is None ==> r@ == "out/bench.csv"@,
{
    match csv_out {
        Some(p) => p,
        None => "out/bench.csv".to_owned(),
    }
}

} // verus!
