//! The kind of calculation to run.

use vstd::prelude::*;

verus! {

/// The kind of quantum-chemistry calculation to perform.
#[derive(Debug, Clone, Copy, PartialEq, Eq, Structural)]
pub enum RunType {
    SinglePoint,
    GeometryOptimisation,
}

impl RunType {
    /// The text shown for this run type.
    pub open spec fn spec_label(self) -> Seq<char> {
        match self {
            RunType::SinglePoint => "Single Point"@,
            RunType::GeometryOptimisation => "Geometry Optimisation"@,
        }
    }

    pub fn label(&self) -> (s: &'static str)
        ensures
            s@ == self.spec_label(),
    {
        match self {
            RunType::SinglePoint => "Single Point",
            RunType::GeometryOptimisation => "Geometry Optimisation",
        }
    }

    /// Every run type, in the order the selection list offers them.
    pub fn all() -> (v: Vec<RunType>)
        ensures
            v@ == seq![RunType::SinglePoint, RunType::GeometryOptimisation],
    {
        let mut v: Vec<RunType> = Vec::new();
        v.push(RunType::SinglePoint);
        v.push(RunType::GeometryOptimisation);
        proof {
            assert(v@ =~= seq![RunType::SinglePoint, RunType::GeometryOptimisation]);
        }
        v
    }
}

impl Default for RunType {
    fn default() -> (r: Self)
        ensures
            r == RunType::SinglePoint,
    {
        RunType::SinglePoint
    }
}

} // verus!
