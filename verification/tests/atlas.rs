use simthing_driver::atlas_0080_0::{
    replay_atlas_0080_0, run_atlas_0080_0, Atlas0080Cell, Atlas0080Input, Atlas0080ResidencyRequest,
    Atlas0080Scenario, Atlas0080TheaterId, ATLAS_0080_0_LOGICAL_LOCATION_COUNT,
    ATLAS_DEFAULT_VRAM_BUDGET_BYTES,
};

#[test]
fn atlas_canonical_scenario_places_ten_distinct_starsystems() {
    let scenario = Atlas0080Scenario::canonical();
    let expected = [(5, 1), (2, 4), (9, 4), (2, 5), (3, 8), (0, 1), (1, 2), (8, 8), (7, 0), (0, 3)];
    assert_eq!(scenario.starsystem_cells.len(), 10);
    for (cell, (x, y)) in scenario.starsystem_cells.iter().zip(expected.iter()) {
        assert_eq!(*cell, Atlas0080Cell::new(*x, *y));
    }
    assert_eq!(scenario.planet_cells[0], Atlas0080Cell::new(6, 3));
    assert_eq!(scenario.planet_cells[9], Atlas0080Cell::new(6, 3));
    assert_eq!(scenario.logical_location_count(), ATLAS_0080_0_LOGICAL_LOCATION_COUNT);
}

#[test]
fn atlas_theater_codes_and_cells() {
    assert_eq!(Atlas0080TheaterId::Starmap.stable_code(), 1);
    assert_eq!(Atlas0080TheaterId::Starsystem { index: 3 }.stable_code(), 13);
    assert_eq!(Atlas0080TheaterId::Planet { starsystem_index: 7 }.stable_code(), 107);
    assert_eq!(Atlas0080TheaterId::Planet { starsystem_index: 7 }.cell_count(), 100);
    assert_eq!(Atlas0080Cell::new(3, 4).linear_index(10), 43);
    assert_eq!(Atlas0080Cell::new(3, u32::MAX).linear_index(10), u32::MAX);
}

#[test]
fn atlas_canonical_run_is_sparse_and_value_noop() {
    let report = run_atlas_0080_0(&Atlas0080Input::explicit_opt_in());
    assert!(report.admitted);
    assert!(!report.disabled_no_op);
    assert!(report.sparse_residency);
    assert!(report.value_noop_parity_bit_exact);
    assert!(report.within_vram_budget);
    assert_eq!(report.vram_budget_bytes, ATLAS_DEFAULT_VRAM_BUDGET_BYTES);
    let counts: Vec<u32> = report.residency_reports.iter().map(|r| r.resident_cell_count).collect();
    assert_eq!(counts, vec![200, 300, 200, 100]);
    assert_eq!(report.residency_reports[1].inert_cell_count, 1_800);
    assert_eq!(report.max_resident_cell_count, 300);
    assert_eq!(report.max_estimated_resident_bytes, 300);
    assert_eq!(report.residency_reports[0].active_theaters_before, vec![Atlas0080TheaterId::Starmap]);
    assert_eq!(
        report.residency_reports[1].active_theaters_after,
        vec![
            Atlas0080TheaterId::Starmap,
            Atlas0080TheaterId::Starsystem { index: 0 },
            Atlas0080TheaterId::Planet { starsystem_index: 0 }
        ]
    );
    assert_eq!(&report.residency_reports[3].materialized_i8_values_after[..5], &[23, 12, 84, 94, 124]);
    assert_eq!(report.descent_ascent_reports.len(), 4);
}

#[test]
fn atlas_checksum_exact() {
    let report = run_atlas_0080_0(&Atlas0080Input::explicit_opt_in());
    assert_eq!(report.deterministic_replay_checksum, 5_760_503_370_086_361_971);
}

#[test]
fn atlas_default_session_is_disabled_no_op() {
    let report = run_atlas_0080_0(&Atlas0080Input::default_simsession());
    assert!(report.admitted);
    assert!(report.disabled_no_op);
    assert!(report.residency_reports.is_empty());
    assert!(!report.sparse_residency);
}

#[test]
fn atlas_rejects_out_of_bounds_index_and_bad_shape() {
    let mut input = Atlas0080Input::explicit_opt_in();
    input.access_pattern.push(Atlas0080ResidencyRequest::DescendToPlanet { starsystem_index: 10 });
    input.scenario.planet_side = 9;
    input.forbidden.cpu_planner = true;
    let report = run_atlas_0080_0(&input);
    assert!(!report.admitted);
    assert_eq!(
        report.diagnostics,
        vec!["nested_starmap_shape_bounds", "starsystem_index_out_of_bounds", "cpu_planner"]
    );
    assert!(report.residency_reports.is_empty());
}

#[test]
fn atlas_replay_is_deterministic() {
    let (a, b) = replay_atlas_0080_0();
    assert_eq!(a, b);
}
