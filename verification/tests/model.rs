use turtle::basis::BasisSet;
use turtle::methods::CorrelationMethod;
use turtle::methods::HFType;
use turtle::model::Model;
use turtle::settings::RunType;

#[test]
fn default_snapshot() {
    let m = Model::new();
    assert_eq!(m.run_type, RunType::SinglePoint);
    assert_eq!(m.reference_method, HFType::RHF);
    assert_eq!(m.correlation_method, None);
    assert_eq!(m.basis_set, BasisSet::SVP);
    assert_eq!(m.charge, 0);
    assert_eq!(m.charge_text, "0");
    assert_eq!(m.multiplicity, 1);
    assert_eq!(m.multiplicity_text, "1");
    assert_eq!(m.coordinate_text, "");
}

#[test]
fn default_trait_matches_new() {
    let d = Model::default();
    let n = Model::new();
    assert_eq!(d.run_type, n.run_type);
    assert_eq!(d.reference_method, n.reference_method);
    assert_eq!(d.correlation_method, n.correlation_method);
    assert_eq!(d.basis_set, n.basis_set);
    assert_eq!(d.charge, n.charge);
    assert_eq!(d.charge_text, n.charge_text);
    assert_eq!(d.multiplicity, n.multiplicity);
    assert_eq!(d.multiplicity_text, n.multiplicity_text);
    assert_eq!(d.coordinate_text, n.coordinate_text);
}

#[test]
fn select_returns_selected_value() {
    let mut m = Model::new();
    for value in RunType::all() {
        m.select_run_type(value);
        assert_eq!(m.run_type, value);
    }
    for value in HFType::all() {
        m.select_reference_method(value);
        assert_eq!(m.reference_method, value);
    }
    for value in BasisSet::all() {
        m.select_basis_set(value);
        assert_eq!(m.basis_set, value);
    }
}

#[test]
fn select_correlation_maps_sentinel_to_absent() {
    let mut m = Model::new();
    m.select_correlation_method(CorrelationMethod::CCSD);
    assert_eq!(m.correlation_method, Some(CorrelationMethod::CCSD));
    m.select_correlation_method(CorrelationMethod::NoCorrelation);
    assert_eq!(m.correlation_method, None);
}

#[test]
fn select_correlation_keeps_every_real_method() {
    let mut m = Model::new();
    for value in CorrelationMethod::all() {
        m.select_correlation_method(value);
        if value == CorrelationMethod::NoCorrelation {
            assert_eq!(m.correlation_method, None);
        } else {
            assert_eq!(m.correlation_method, Some(value));
        }
    }
}

#[test]
fn commit_charge_accepts_valid_text() {
    let mut m = Model::new();
    m.edit_charge_text(String::from("42"));
    m.commit_charge();
    assert_eq!(m.charge, 42);
    assert_eq!(m.charge_text, "42");
}

#[test]
fn commit_charge_rejects_non_numeric_text() {
    let mut m = Model::new();
    m.edit_charge_text(String::from("not a number"));
    m.commit_charge();
    assert_eq!(m.charge, 0);
    assert_eq!(m.charge_text, "0");
}

#[test]
fn commit_charge_rejects_out_of_range_value() {
    let mut m = Model::new();
    m.edit_charge_text(String::from("200"));
    m.commit_charge();
    assert_eq!(m.charge, 0);
    assert_eq!(m.charge_text, "0");
}

#[test]
fn commit_charge_accepts_range_ends() {
    let mut m = Model::new();
    m.edit_charge_text(String::from("-128"));
    m.commit_charge();
    assert_eq!(m.charge, -128);
    assert_eq!(m.charge_text, "-128");
    m.edit_charge_text(String::from("127"));
    m.commit_charge();
    assert_eq!(m.charge, 127);
    assert_eq!(m.charge_text, "127");
}

#[test]
fn commit_charge_rejects_just_past_range_ends() {
    let mut m = Model::new();
    m.edit_charge_text(String::from("-129"));
    m.commit_charge();
    assert_eq!(m.charge, 0);
    assert_eq!(m.charge_text, "0");
    m.edit_charge_text(String::from("128"));
    m.commit_charge();
    assert_eq!(m.charge, 0);
    assert_eq!(m.charge_text, "0");
}

#[test]
fn commit_charge_rejects_empty_and_bare_signs() {
    for text in ["", "+", "-", " 42", "42 ", "+-1", "4 2"] {
        let mut m = Model::new();
        m.edit_charge_text(String::from("5"));
        m.commit_charge();
        assert_eq!(m.charge, 5);
        m.edit_charge_text(String::from(text));
        m.commit_charge();
        assert_eq!(m.charge, 0);
        assert_eq!(m.charge_text, "0");
    }
}

#[test]
fn commit_charge_accepts_signed_and_padded_digits() {
    let mut m = Model::new();
    m.edit_charge_text(String::from("+17"));
    m.commit_charge();
    assert_eq!(m.charge, 17);
    assert_eq!(m.charge_text, "+17");
    m.edit_charge_text(String::from("007"));
    m.commit_charge();
    assert_eq!(m.charge, 7);
    assert_eq!(m.charge_text, "007");
}

#[test]
fn commit_charge_twice_is_idempotent() {
    let mut m = Model::new();
    m.edit_charge_text(String::from("-31"));
    m.commit_charge();
    let first_value = m.charge;
    let first_text = m.charge_text.clone();
    m.commit_charge();
    assert_eq!(m.charge, first_value);
    assert_eq!(m.charge_text, first_text);

    m.edit_charge_text(String::from("bogus"));
    m.commit_charge();
    let first_value = m.charge;
    let first_text = m.charge_text.clone();
    m.commit_charge();
    assert_eq!(m.charge, first_value);
    assert_eq!(m.charge_text, first_text);
}

#[test]
fn commit_multiplicity_accepts_valid_text() {
    let mut m = Model::new();
    m.edit_multiplicity_text(String::from("3"));
    m.commit_multiplicity();
    assert_eq!(m.multiplicity, 3);
    assert_eq!(m.multiplicity_text, "3");
}

#[test]
fn commit_multiplicity_rejects_negative_text() {
    let mut m = Model::new();
    m.edit_multiplicity_text(String::from("-1"));
    m.commit_multiplicity();
    assert_eq!(m.multiplicity, 1);
    assert_eq!(m.multiplicity_text, "1");
}

#[test]
fn commit_multiplicity_range_ends() {
    let mut m = Model::new();
    m.edit_multiplicity_text(String::from("0"));
    m.commit_multiplicity();
    assert_eq!(m.multiplicity, 0);
    m.edit_multiplicity_text(String::from("255"));
    m.commit_multiplicity();
    assert_eq!(m.multiplicity, 255);
    m.edit_multiplicity_text(String::from("256"));
    m.commit_multiplicity();
    assert_eq!(m.multiplicity, 1);
    assert_eq!(m.multiplicity_text, "1");
}

#[test]
fn commit_multiplicity_twice_is_idempotent() {
    let mut m = Model::new();
    m.edit_multiplicity_text(String::from("9"));
    m.commit_multiplicity();
    let first_value = m.multiplicity;
    let first_text = m.multiplicity_text.clone();
    m.commit_multiplicity();
    assert_eq!(m.multiplicity, first_value);
    assert_eq!(m.multiplicity_text, first_text);

    m.edit_multiplicity_text(String::from("ten"));
    m.commit_multiplicity();
    let first_value = m.multiplicity;
    let first_text = m.multiplicity_text.clone();
    m.commit_multiplicity();
    assert_eq!(m.multiplicity, first_value);
    assert_eq!(m.multiplicity_text, first_text);
}

#[test]
fn edit_does_not_touch_committed_values() {
    let mut m = Model::new();
    m.edit_charge_text(String::from("99"));
    assert_eq!(m.charge, 0);
    assert_eq!(m.charge_text, "99");
    m.edit_multiplicity_text(String::from("77"));
    assert_eq!(m.multiplicity, 1);
    assert_eq!(m.multiplicity_text, "77");
}

#[test]
fn coordinate_text_is_stored_verbatim() {
    let mut m = Model::new();
    let block = "O 0.000 0.000 0.000\nH 0.757 0.586 0.000\nH -0.757 0.586 0.000";
    m.edit_coordinate_text(String::from(block));
    assert_eq!(m.coordinate_text, block);
}

#[test]
fn request_run_changes_nothing() {
    let mut m = Model::new();
    m.select_run_type(RunType::GeometryOptimisation);
    m.edit_charge_text(String::from("-2"));
    m.commit_charge();
    m.request_run();
    assert_eq!(m.run_type, RunType::GeometryOptimisation);
    assert_eq!(m.charge, -2);
    assert_eq!(m.charge_text, "-2");
    assert_eq!(m.multiplicity, 1);
}

#[test]
fn events_leave_other_fields_alone() {
    let mut m = Model::new();
    m.select_run_type(RunType::GeometryOptimisation);
    m.select_reference_method(HFType::CASSCF);
    m.select_correlation_method(CorrelationMethod::CID);
    m.select_basis_set(BasisSet::TZVP);
    m.edit_charge_text(String::from("-3"));
    m.commit_charge();
    m.edit_multiplicity_text(String::from("4"));
    m.commit_multiplicity();
    m.edit_coordinate_text(String::from("He 0 0 0"));
    assert_eq!(m.run_type, RunType::GeometryOptimisation);
    assert_eq!(m.reference_method, HFType::CASSCF);
    assert_eq!(m.correlation_method, Some(CorrelationMethod::CID));
    assert_eq!(m.basis_set, BasisSet::TZVP);
    assert_eq!(m.charge, -3);
    assert_eq!(m.charge_text, "-3");
    assert_eq!(m.multiplicity, 4);
    assert_eq!(m.multiplicity_text, "4");
    assert_eq!(m.coordinate_text, "He 0 0 0");
}
