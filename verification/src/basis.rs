//! Basis sets offered for a calculation.

use vstd::prelude::*;

verus! {

/// The set of basis functions used to represent molecular orbitals.
#[derive(Debug, Clone, Copy, PartialEq, Eq, Structural)]
pub enum BasisSet {
    SVP,
    DZP,
    TZVP,
}

impl BasisSet {
    /// The text shown for this basis set.
    pub open spec fn spec_label(self) -> Seq<char> {
        match self {
            BasisSet::SVP => "SVP"@,
            BasisSet::DZP => "DZP"@,
            BasisSet::TZVP => "TZVP"@,
        }
    }

    pub fn label(&self) -> (s: &'static str)
        ensures
            s@ == self.spec_label(),
    {
        match self {
            BasisSet::SVP => "SVP",
            BasisSet::DZP => "DZP",
            BasisSet::TZVP => "TZVP",
        }
    }

    /// Every basis set, in the order the selection list offers them.
    pub fn all() -> (v: Vec<BasisSet>)
        ensures
            v@ == seq![BasisSet::SVP, BasisSet::DZP, BasisSet::TZVP],
    {
        let mut v: Vec<BasisSet> = Vec::new();
        v.push(BasisSet::SVP);
        v.push(BasisSet::DZP);
        v.push(BasisSet::TZVP);
        proof {
            assert(v@ =~= seq![BasisSet::SVP, BasisSet::DZP, BasisSet::TZVP]);
        }
        v
    }
}

impl Default for BasisSet {
    fn default() -> (r: Self)
        ensures
            r == BasisSet::SVP,
    {
        BasisSet::SVP
    }
}

} // verus!
