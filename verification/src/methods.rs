//! Reference and correlation methods offered for a calculation.

use vstd::prelude::*;

verus! {

/// The Hartree-Fock variant used as the starting wavefunction.
#[derive(Debug, Clone, Copy, PartialEq, Eq, Structural)]
pub enum HFType {
    RHF,
    UHF,
    ROHF,
    CASSCF,
}

impl HFType {
    /// The text shown for this reference method.
    pub open spec fn spec_label(self) -> Seq<char> {
        match self {
            HFType::RHF => "RHF"@,
            HFType::UHF => "UHF"@,
            HFType::ROHF => "ROHF"@,
            HFType::CASSCF => "CASSCF"@,
        }
    }

    pub fn label(&self) -> (s: &'static str)
        ensures
            s@ == self.spec_label(),
    {
        match self {
            HFType::RHF => "RHF",
            HFType::UHF => "UHF",
            HFType::ROHF => "ROHF",
            HFType::CASSCF => "CASSCF",
        }
    }

    /// Every reference method, in the order the selection list offers them.
    pub fn all() -> (v: Vec<HFType>)
        ensures
            v@ == seq![HFType::RHF, HFType::UHF, HFType::ROHF, HFType::CASSCF],
    {
        let mut v: Vec<HFType> = Vec::new();
        v.push(HFType::RHF);
        v.push(HFType::UHF);
        v.push(HFType::ROHF);
        v.push(HFType::CASSCF);
        proof {
            assert(v@ =~= seq![HFType::RHF, HFType::UHF, HFType::ROHF, HFType::CASSCF]);
        }
        v
    }
}

impl Default for HFType {
    fn default() -> (r: Self)
        ensures
            r == HFType::RHF,
    {
        HFType::RHF
    }
}

/// The post-Hartree-Fock electron-correlation treatment, as the selection
/// list offers it. The `NoCorrelation` variant (shown as "None") stands
/// for "no correlation method"; the model never stores it, representing
/// the absence of a selection as an absent `Option` instead (see
/// `Model::select_correlation_method`).
#[derive(Debug, Clone, Copy, PartialEq, Eq, Structural)]
pub enum CorrelationMethod {
    NoCorrelation,
    CID,
    CISD,
    CISDT,
    CCD,
    CCSD,
    CCSDT,
}

impl CorrelationMethod {
    /// The text shown for this correlation method.
    pub open spec fn spec_label(self) -> Seq<char> {
        match self {
            CorrelationMethod::NoCorrelation => "None"@,
            CorrelationMethod::CID => "CID"@,
            CorrelationMethod::CISD => "CISD"@,
            CorrelationMethod::CISDT => "CISDT"@,
            CorrelationMethod::CCD => "CCD"@,
            CorrelationMethod::CCSD => "CCSD"@,
            CorrelationMethod::CCSDT => "CCSDT"@,
        }
    }

    pub fn label(&self) -> (s: &'static str)
        ensures
            s@ == self.spec_label(),
    {
        match self {
            CorrelationMethod::NoCorrelation => "None",
            CorrelationMethod::CID => "CID",
            CorrelationMethod::CISD => "CISD",
            CorrelationMethod::CISDT => "CISDT",
            CorrelationMethod::CCD => "CCD",
            CorrelationMethod::CCSD => "CCSD",
            CorrelationMethod::CCSDT => "CCSDT",
        }
    }

    /// Every correlation method, in the order the selection list offers them.
    pub fn all() -> (v: Vec<CorrelationMethod>)
        ensures
            v@ == seq![
                CorrelationMethod::NoCorrelation,
                CorrelationMethod::CID,
                CorrelationMethod::CISD,
                CorrelationMethod::CISDT,
                CorrelationMethod::CCD,
                CorrelationMethod::CCSD,
                CorrelationMethod::CCSDT,
            ],
    {
        let mut v: Vec<CorrelationMethod> = Vec::new();
        v.push(CorrelationMethod::NoCorrelation);
        v.push(CorrelationMethod::CID);
        v.push(CorrelationMethod::CISD);
        v.push(CorrelationMethod::CISDT);
        v.push(CorrelationMethod::CCD);
        v.push(CorrelationMethod::CCSD);
        v.push(CorrelationMethod::CCSDT);
        proof {
            assert(v@ =~= seq![
                CorrelationMethod::NoCorrelation,
                CorrelationMethod::CID,
                CorrelationMethod::CISD,
                CorrelationMethod::CISDT,
                CorrelationMethod::CCD,
                CorrelationMethod::CCSD,
                CorrelationMethod::CCSDT,
            ]);
        }
        v
    }
}

impl Default for CorrelationMethod {
    fn default() -> (r: Self)
        ensures
            r == CorrelationMethod::NoCorrelation,
    {
        CorrelationMethod::NoCorrelation
    }
}

} // verus!
