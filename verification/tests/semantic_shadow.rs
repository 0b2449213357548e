use simthing_driver::action_band_semantic_shadow::{
    carry_bound_observables, BoundObservableIdentity, FieldNeutralityGate, FIELD_NEUTRALITY_OUTCOME,
};

#[test]
fn field_neutrality_outcome_is_field_neutral() {
    assert_eq!(FIELD_NEUTRALITY_OUTCOME, FieldNeutralityGate::FieldNeutral);
}

#[test]
fn bound_observable_is_not_a_field_class_enum() {
    let obs = BoundObservableIdentity::new("synthetic-non-palma-grant-axis", Some("semantic-readback-only"));
    assert_eq!(obs.key(), "synthetic-non-palma-grant-axis");
    assert_eq!(carry_bound_observables(&[obs.clone()]), vec![obs]);
}

#[test]
fn bound_observable_provenance_is_optional() {
    let obs = BoundObservableIdentity::new("axis", None);
    assert_eq!(obs.provenance(), None);
    let obs = BoundObservableIdentity::new("axis", Some("note"));
    assert_eq!(obs.provenance(), Some("note"));
    assert!(carry_bound_observables(&[]).is_empty());
}
