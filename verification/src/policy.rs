//! Ignore Policy: the pure skip rule that runs before any external process.

use vstd::prelude::*;
use crate::manifest::DependencyEntry;
use crate::manifest::names_view;

verus! {

/// The process-wide constant ignore set, passed in at construction.
pub struct IgnorePolicy {
    pub global: Vec<String>,
}

/// A candidate is excluded outright when its name is globally ignored, or it
/// is declared `optional`, or its name is in the module-local ignore list for
/// its group.
pub open spec fn spec_should_skip(
    global: Seq<Seq<char>>,
    local: Seq<Seq<char>>,
    name: Seq<char>,
    optional: bool,
) -> bool {
    global.contains(name) || optional || local.contains(name)
}

fn contains_name(names: &Vec<String>, name: &String) -> (r: bool)
    ensures
        r == names_view(names@).contains(name@),
{
    let mut i: usize = 0;
    while i < names.len()
        invariant
            i <= names.len(),
            forall|j: int| 0 <= j < i ==> #[trigger] names@[j]@ != name@,
        decreases names.len() - i,
    {
        if names[i] == *name {
            proof {
                assert(names_view(names@)[i as int] == name@);
            }
            return true;
        }
        i += 1;
    }
    proof {
        assert(forall|j: int|
            0 <= j < names_view(names@).len() ==> #[trigger] names_view(names@)[j] != name@);
    }
    false
}

impl IgnorePolicy {
    pub fn new(global: Vec<String>) -> (r: IgnorePolicy)
        ensures
            r.global@ == global@,
    {
        IgnorePolicy { global }
    }

    /// The skip decision for one candidate: pure, run before any mutation.
    pub fn should_skip(&self, local: &Vec<String>, entry: &DependencyEntry) -> (r: bool)
        ensures
            r == spec_should_skip(
                names_view(self.global@),
                names_view(local@),
                entry.name@,
                entry.optional,
            ),
    {
        if contains_name(&self.global, &entry.name) {
            return true;
        }
        if entry.optional {
            return true;
        }
        contains_name(local, &entry.name)
    }
}

} // verus!
