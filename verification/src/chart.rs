use vstd::prelude::*;

verus! {

/// A representation of a chart definition in a repo.
#[derive(Debug, Clone, PartialEq, Eq)]
pub struct Chart {
    /// The chart name
    pub name: String,
    /// The chart version
    pub version: String,
}

impl Chart {
    /// The chart version.
    pub fn version(&self) -> (r: &str)
        ensures
            r@ == self.version@,
    {
        self.version.as_str()
    }

    /// The chart name.
    pub fn name(&self) -> (r: &str)
        ensures
            r@ == self.name@,
    {
        self.name.as_str()
    }
}

} // verus!
