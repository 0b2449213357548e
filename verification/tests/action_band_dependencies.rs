use simthing_driver::action_band_execution_compile::{
    lower_conserved_progress_bindings, lower_dependency_rows, AdmittedConservedProgressRow,
    CompiledConservedProgressBinding, ConservedBandRow, ConservedBoundSource, ConservedProgressError,
    CrossingSourceRow, DependencyInstanceRow, DependencyLoweringError, DependencyTemplateRows,
    EmissionBindingRow, EmissionDestinationKind, LoweredDependency,
};

fn template(reserved: u32, start: u32, len: u32, max_active: u32) -> DependencyTemplateRows {
    DependencyTemplateRows {
        reserved_instance_rows: reserved,
        dependency_start: start,
        dependency_len: len,
        max_active_subordinates: max_active,
    }
}

fn row(template: u32, slot: u32, initially_active: bool) -> DependencyInstanceRow {
    DependencyInstanceRow { template, slot, initially_active }
}

#[test]
fn dependencies_lower_sorted_by_parent_then_child() {
    let templates = vec![template(1, 0, 2, 2), template(1, 2, 0, 0), template(1, 2, 0, 0)];
    let deps = vec![2, 1];
    let instances = vec![row(0, 7, true), row(1, 7, false), row(2, 7, false)];
    let (lowered, claimed) = lower_dependency_rows(&templates, &deps, 8, &instances).unwrap();
    assert_eq!(
        lowered,
        vec![
            LoweredDependency { parent_row: 0, child_row: 1 },
            LoweredDependency { parent_row: 0, child_row: 2 },
        ]
    );
    assert_eq!(claimed, vec![1, 2]);
}

#[test]
fn duplicate_instance_is_refused() {
    let templates = vec![template(2, 0, 0, 0)];
    let instances = vec![row(0, 1, true), row(0, 1, true)];
    assert_eq!(
        lower_dependency_rows(&templates, &vec![], 8, &instances),
        Err(DependencyLoweringError::DuplicateActiveInstance)
    );
}

#[test]
fn smallest_template_over_its_reservation_is_refused() {
    let templates = vec![template(1, 0, 0, 0), template(1, 0, 0, 0), template(1, 0, 0, 0)];
    let instances = vec![row(2, 0, true), row(2, 1, true), row(1, 0, true), row(1, 1, true)];
    assert_eq!(
        lower_dependency_rows(&templates, &vec![], 8, &instances),
        Err(DependencyLoweringError::TemplateRowBudgetExceeded { template: 1, actual: 2, reserved: 1 })
    );
    // Beyond the storage budget the per-template reservation is not checked.
    assert!(lower_dependency_rows(&templates, &vec![], 3, &instances).is_ok());
}

#[test]
fn missing_template_is_an_invalid_span() {
    let templates = vec![template(1, 0, 0, 0)];
    let instances = vec![row(3, 0, true)];
    assert_eq!(
        lower_dependency_rows(&templates, &vec![], 8, &instances),
        Err(DependencyLoweringError::InvalidFrozenSpan)
    );
}

#[test]
fn span_over_concurrent_cap_is_deferred() {
    let templates = vec![template(1, 0, 2, 1)];
    let instances = vec![row(0, 0, true)];
    assert_eq!(
        lower_dependency_rows(&templates, &vec![0, 0], 8, &instances),
        Err(DependencyLoweringError::DependencyCapacityDeferred { parent_template: 0, dependency_count: 2, max_active: 1 })
    );
}

#[test]
fn missing_child_row_is_refused() {
    let templates = vec![template(1, 0, 1, 1), template(1, 1, 0, 0)];
    let instances = vec![row(0, 4, true), row(1, 5, false)];
    assert_eq!(
        lower_dependency_rows(&templates, &vec![1], 8, &instances),
        Err(DependencyLoweringError::MissingPreAdmittedChild { parent_template: 0, child_template: 1, slot: 4 })
    );
}

#[test]
fn shared_child_is_refused() {
    let templates = vec![template(1, 0, 1, 1), template(1, 0, 1, 1), template(1, 1, 0, 0)];
    let deps = vec![2];
    let instances = vec![row(0, 0, true), row(1, 0, true), row(2, 0, false)];
    assert_eq!(
        lower_dependency_rows(&templates, &deps, 8, &instances),
        Err(DependencyLoweringError::SharedChildLifecycle { child_template: 2, slot: 0 })
    );
}

#[test]
fn self_dependency_and_two_row_cycle_are_refused() {
    let templates = vec![template(1, 0, 1, 1)];
    assert_eq!(
        lower_dependency_rows(&templates, &vec![0], 8, &vec![row(0, 0, false)]),
        Err(DependencyLoweringError::DependencyCycle)
    );
    let templates = vec![template(1, 0, 1, 1), template(1, 1, 1, 1)];
    let instances = vec![row(0, 0, false), row(1, 0, false)];
    assert_eq!(
        lower_dependency_rows(&templates, &vec![1, 0], 8, &instances),
        Err(DependencyLoweringError::DependencyCycle)
    );
}

#[test]
fn activity_of_claimed_and_unclaimed_rows_is_checked() {
    let templates = vec![template(1, 0, 1, 1), template(1, 1, 0, 0)];
    let deps = vec![1];
    assert_eq!(
        lower_dependency_rows(&templates, &deps, 8, &vec![row(0, 0, true), row(1, 0, true)]),
        Err(DependencyLoweringError::ChildMustBeginInactive { child_template: 1, slot: 0 })
    );
    assert_eq!(
        lower_dependency_rows(&templates, &deps, 8, &vec![row(0, 0, false), row(1, 0, false)]),
        Err(DependencyLoweringError::UnclaimedInactiveRow { template: 0, slot: 0 })
    );
}

fn band(registration: u32, start: u32, len: u32) -> ConservedBandRow {
    ConservedBandRow { threshold_registration: registration, emission_binding_start: start, emission_binding_len: len }
}

fn unbound(destination: EmissionDestinationKind) -> EmissionBindingRow {
    EmissionBindingRow { destination, bound_source: None }
}

fn admitted(band: u32, binding: u32, source: ConservedBoundSource, registration: u32) -> AdmittedConservedProgressRow {
    AdmittedConservedProgressRow {
        template: 9,
        band_table_index: band,
        emission_binding: binding,
        bound_source: source,
        bound_threshold_registration: registration,
    }
}

#[test]
fn conserved_progress_binds_its_emission_and_reads_the_crossing_column() {
    let bands = vec![band(5, 0, 2)];
    let table = vec![3, 1];
    let crossings = vec![Some(CrossingSourceRow { threshold_registration: 5, threshold_column: 42 })];
    let bindings = vec![unbound(EmissionDestinationKind::CostBand), unbound(EmissionDestinationKind::RfClaim)];
    let rows = vec![admitted(0, 1, ConservedBoundSource::GuYangRealized, 5)];
    let (compiled, out) =
        lower_conserved_progress_bindings(&bands, &table, &crossings, &bindings, &rows, true).unwrap();
    assert_eq!(
        compiled,
        vec![CompiledConservedProgressBinding {
            template: 9,
            band_table_index: 0,
            emission_binding_index: 1,
            bound_source: ConservedBoundSource::GuYangRealized,
            threshold_column: 42,
            destination: EmissionDestinationKind::RfClaim,
        }]
    );
    assert_eq!(out[0], bindings[0]);
    assert_eq!(out[1].bound_source, Some(ConservedBoundSource::GuYangRealized));
}

#[test]
fn conserved_progress_refusals_follow_the_check_order() {
    let bands = vec![band(5, 0, 1)];
    let table = vec![0];
    let crossings = vec![Some(CrossingSourceRow { threshold_registration: 5, threshold_column: 1 })];
    let bindings = vec![unbound(EmissionDestinationKind::PropertyNext)];
    let invalid = |b: u32, e: u32| ConservedProgressError::InvalidConservedProgressBinding {
        band_table_index: b,
        emission_binding_index: e,
    };
    let run = |rows: Vec<AdmittedConservedProgressRow>, native: bool, bindings: &Vec<EmissionBindingRow>, crossings: &Vec<Option<CrossingSourceRow>>| {
        lower_conserved_progress_bindings(&bands, &table, crossings, bindings, &rows, native)
    };
    // Band out of range, registration mismatch, binding outside the span.
    assert_eq!(run(vec![admitted(3, 0, ConservedBoundSource::RfGrant, 5)], true, &bindings, &crossings), Err(invalid(3, 0)));
    assert_eq!(run(vec![admitted(0, 0, ConservedBoundSource::RfGrant, 6)], true, &bindings, &crossings), Err(invalid(0, 0)));
    assert_eq!(run(vec![admitted(0, 2, ConservedBoundSource::RfGrant, 5)], true, &bindings, &crossings), Err(invalid(0, 2)));
    // No native lanes.
    assert_eq!(
        run(vec![admitted(0, 0, ConservedBoundSource::RfGrant, 5)], false, &bindings, &crossings),
        Err(ConservedProgressError::ConservedProgressRequiresNativeLane { emission_binding_index: 0 })
    );
    // Bound twice.
    assert_eq!(
        run(
            vec![admitted(0, 0, ConservedBoundSource::RfGrant, 5), admitted(0, 0, ConservedBoundSource::GuYangAvailable, 5)],
            true,
            &bindings,
            &crossings
        ),
        Err(invalid(0, 0))
    );
    // Deferred destination.
    let other = vec![unbound(EmissionDestinationKind::Other(7))];
    assert_eq!(
        run(vec![admitted(0, 0, ConservedBoundSource::RfGrant, 5)], true, &other, &crossings),
        Err(ConservedProgressError::ConservedProgressDestinationDeferred { destination: EmissionDestinationKind::Other(7) })
    );
    // Missing or mismatched crossing source.
    assert_eq!(run(vec![admitted(0, 0, ConservedBoundSource::RfGrant, 5)], true, &bindings, &vec![None]), Err(invalid(0, 0)));
    let wrong = vec![Some(CrossingSourceRow { threshold_registration: 4, threshold_column: 1 })];
    assert_eq!(run(vec![admitted(0, 0, ConservedBoundSource::RfGrant, 5)], true, &bindings, &wrong), Err(invalid(0, 0)));
}
