//! The calculation configuration model and its edit events.
//!
//! The model owns every user-editable setting and changes only through the
//! event methods below, one event at a time. Charge and multiplicity are
//! each a pair of a committed number and a raw text buffer: editing touches
//! only the buffer, and an explicit commit either parses the buffer into
//! the committed value or resets both to the field's default.

use vstd::prelude::*;

use crate::basis::BasisSet;
use crate::methods::CorrelationMethod;
use crate::methods::HFType;
use crate::parse;
use crate::settings::RunType;

verus! {

/// The correlation selection the model stores for a picked variant: the
/// sentinel `NoCorrelation` becomes an absent value, anything else is kept.
pub open spec fn correlation_selection(value: CorrelationMethod) -> Option<CorrelationMethod> {
    if value == CorrelationMethod::NoCorrelation {
        None
    } else {
        Some(value)
    }
}

/// What committing a charge buffer yields: the parsed value with the buffer
/// kept as it was, or the default pair after a failed parse.
pub open spec fn charge_commit_outcome(text: Seq<char>) -> (i8, Seq<char>) {
    match parse::spec_parse_i8(text) {
        Some(v) => (v, text),
        None => (0i8, "0"@),
    }
}

/// What committing a multiplicity buffer yields: the parsed value with the
/// buffer kept as it was, or the default pair after a failed parse.
pub open spec fn multiplicity_commit_outcome(text: Seq<char>) -> (u8, Seq<char>) {
    match parse::spec_parse_u8(text) {
        Some(v) => (v, text),
        None => (1u8, "1"@),
    }
}

/// The calculation configuration: every user-editable setting, mutated
/// only by the event methods.
pub struct Model {
    /// The kind of calculation to run.
    pub run_type: RunType,
    /// The Hartree-Fock variant used as the starting wavefunction.
    pub reference_method: HFType,
    /// The selected correlation treatment; absent when none is wanted.
    pub correlation_method: Option<CorrelationMethod>,
    /// The basis set used to represent molecular orbitals.
    pub basis_set: BasisSet,
    /// The committed net molecular charge.
    pub charge: i8,
    /// The raw charge text being edited; may diverge from `charge` until
    /// the next commit.
    pub charge_text: String,
    /// The committed spin multiplicity.
    pub multiplicity: u8,
    /// The raw multiplicity text being edited; may diverge from
    /// `multiplicity` until the next commit.
    pub multiplicity_text: String,
    /// Free-form atomic coordinate text; never validated by the model.
    pub coordinate_text: String,
}

impl Model {
    /// The model never stores the sentinel variant as a selected
    /// correlation method: "no correlation" is an absent value.
    pub open spec fn wf(self) -> bool {
        self.correlation_method != Some(CorrelationMethod::NoCorrelation)
    }

    /// A fresh model with every field at its default.
    pub fn new() -> (m: Model)
        ensures
            m.wf(),
            m.run_type == RunType::SinglePoint,
            m.reference_method == HFType::RHF,
            m.correlation_method is None,
            m.basis_set == BasisSet::SVP,
            m.charge == 0i8,
            m.charge_text@ == "0"@,
            m.multiplicity == 1u8,
            m.multiplicity_text@ == "1"@,
            m.coordinate_text@ == Seq::<char>::empty(),
    {
        Model {
            run_type: RunType::SinglePoint,
            reference_method: HFType::RHF,
            correlation_method: None,
            basis_set: BasisSet::SVP,
            charge: 0,
            charge_text: String::from_str("0"),
            multiplicity: 1,
            multiplicity_text: String::from_str("1"),
            coordinate_text: String::new(),
        }
    }

    /// Sets the run type unconditionally; nothing else changes.
    pub fn select_run_type(&mut self, value: RunType)
        ensures
            *final (self) == (Model { run_type: value, ..*old(self) }),
            old(self).wf() ==> final (self).wf(),
    {
        self.run_type = value;
    }

    /// Sets the reference method unconditionally; nothing else changes.
    pub fn select_reference_method(&mut self, value: HFType)
        ensures
            *final (self) == (Model { reference_method: value, ..*old(self) }),
            old(self).wf() ==> final (self).wf(),
    {
        self.reference_method = value;
    }

    /// Translates the picked correlation variant into the stored optional
    /// selection: the sentinel variant clears the selection, anything else
    /// is kept. This is the one place that translation happens.
    pub fn select_correlation_method(&mut self, value: CorrelationMethod)
        ensures
            *final (self) == (Model {
                correlation_method: correlation_selection(value),
                ..*old(self)
            }),
            final (self).wf(),
    {
        self.correlation_method = if value == CorrelationMethod::NoCorrelation {
            None
        } else {
            Some(value)
        };
    }

    /// Sets the basis set unconditionally; nothing else changes.
    pub fn select_basis_set(&mut self, value: BasisSet)
        ensures
            *final (self) == (Model { basis_set: value, ..*old(self) }),
            old(self).wf() ==> final (self).wf(),
    {
        self.basis_set = value;
    }

    /// Stores the text verbatim into the charge buffer; the committed
    /// charge is untouched and no validation happens yet.
    pub fn edit_charge_text(&mut self, text: String)
        ensures
            *final (self) == (Model { charge_text: text, ..*old(self) }),
            old(self).wf() ==> final (self).wf(),
    {
        self.charge_text = text;
    }

    /// Parses the charge buffer as a signed 8-bit integer. On success the
    /// committed charge takes the parsed value and the buffer stays; on
    /// failure both snap back to the default pair `(0, "0")`.
    pub fn commit_charge(&mut self)
        ensures
            final (self).charge == charge_commit_outcome(old(self).charge_text@).0,
            final (self).charge_text@ == charge_commit_outcome(old(self).charge_text@).1,
            final (self).run_type == old(self).run_type,
            final (self).reference_method == old(self).reference_method,
            final (self).correlation_method == old(self).correlation_method,
            final (self).basis_set == old(self).basis_set,
            final (self).multiplicity == old(self).multiplicity,
            final (self).multiplicity_text == old(self).multiplicity_text,
            final (self).coordinate_text == old(self).coordinate_text,
            old(self).wf() ==> final (self).wf(),
    {
        match parse::parse_i8(self.charge_text.as_str()) {
            Some(v) => {
                self.charge = v;
            },
            None => {
                self.charge = 0;
                self.charge_text = String::from_str("0");
            },
        }
    }

    /// Stores the text verbatim into the multiplicity buffer; the
    /// committed multiplicity is untouched and no validation happens yet.
    pub fn edit_multiplicity_text(&mut self, text: String)
        ensures
            *final (self) == (Model { multiplicity_text: text, ..*old(self) }),
            old(self).wf() ==> final (self).wf(),
    {
        self.multiplicity_text = text;
    }

    /// Parses the multiplicity buffer as an unsigned 8-bit integer. On
    /// success the committed multiplicity takes the parsed value and the
    /// buffer stays; on failure both snap back to the default pair
    /// `(1, "1")`.
    pub fn commit_multiplicity(&mut self)
        ensures
            final (self).multiplicity == multiplicity_commit_outcome(
                old(self).multiplicity_text@,
            ).0,
            final (self).multiplicity_text@ == multiplicity_commit_outcome(
                old(self).multiplicity_text@,
            ).1,
            final (self).run_type == old(self).run_type,
            final (self).reference_method == old(self).reference_method,
            final (self).correlation_method == old(self).correlation_method,
            final (self).basis_set == old(self).basis_set,
            final (self).charge == old(self).charge,
            final (self).charge_text == old(self).charge_text,
            final (self).coordinate_text == old(self).coordinate_text,
            old(self).wf() ==> final (self).wf(),
    {
        match parse::parse_u8(self.multiplicity_text.as_str()) {
            Some(v) => {
                self.multiplicity = v;
            },
            None => {
                self.multiplicity = 1;
                self.multiplicity_text = String::from_str("1");
            },
        }
    }

    /// Replaces the coordinate text with the edited text, verbatim; the
    /// presentation layer applies cursor-level editing and hands over the
    /// result. No validation happens.
    pub fn edit_coordinate_text(&mut self, text: String)
        ensures
            *final (self) == (Model { coordinate_text: text, ..*old(self) }),
            old(self).wf() ==> final (self).wf(),
    {
        self.coordinate_text = text;
    }

    /// The reserved hand-off point for launching the external chemistry
    /// engine; a no-op until that collaborator exists.
    pub fn request_run(&mut self)
        ensures
            *final (self) == *old(self),
    {
    }
}

impl Default for Model {
    /// The same model as `Model::new`.
    fn default() -> (m: Self)
        ensures
            m.wf(),
            m.run_type == RunType::SinglePoint,
            m.reference_method == HFType::RHF,
            m.correlation_method is None,
            m.basis_set == BasisSet::SVP,
            m.charge == 0i8,
            m.charge_text@ == "0"@,
            m.multiplicity == 1u8,
            m.multiplicity_text@ == "1"@,
            m.coordinate_text@ == Seq::<char>::empty(),
    {
        Model::new()
    }
}

/// Committing the charge buffer is idempotent: a second commit with no
/// intervening edit yields the same committed value and the same buffer.
pub proof fn lemma_commit_charge_idempotent(text: Seq<char>)
    ensures
        charge_commit_outcome(charge_commit_outcome(text).1) == charge_commit_outcome(text),
{
    match parse::spec_parse_i8(text) {
        Some(v) => {
        },
        None => {
            lemma_parse_default_charge_text();
        },
    }
}

/// Committing the multiplicity buffer is idempotent: a second commit with
/// no intervening edit yields the same committed value and the same buffer.
pub proof fn lemma_commit_multiplicity_idempotent(text: Seq<char>)
    ensures
        multiplicity_commit_outcome(multiplicity_commit_outcome(text).1)
            == multiplicity_commit_outcome(text),
{
    match parse::spec_parse_u8(text) {
        Some(v) => {
        },
        None => {
            lemma_parse_default_multiplicity_text();
        },
    }
}

/// The default charge buffer parses back to the default charge.
proof fn lemma_parse_default_charge_text()
    ensures
        parse::spec_parse_i8("0"@) == Some(0i8),
{
    reveal_strlit("0");
    let d = "0"@;
    assert(d.len() == 1);
    assert(d[0] == '0');
    assert(parse::is_decimal_digit(d[0]));
    assert(d.drop_last() =~= Seq::<char>::empty());
    assert(parse::digits_value(d.drop_last()) == 0);
    assert(parse::digits_value(d) == 0);
}

/// The default multiplicity buffer parses back to the default
/// multiplicity.
proof fn lemma_parse_default_multiplicity_text()
    ensures
        parse::spec_parse_u8("1"@) == Some(1u8),
{
    reveal_strlit("1");
    let d = "1"@;
    assert(d.len() == 1);
    assert(d[0] == '1');
    assert(parse::is_decimal_digit(d[0]));
    assert(d.drop_last() =~= Seq::<char>::empty());
    assert(parse::digits_value(d.drop_last()) == 0);
    assert(parse::digits_value(d) == 1);
}

} // verus!
