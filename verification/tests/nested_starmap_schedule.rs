use simthing_driver::default_schedule_0080_1::{
    replay_default_schedule_0080_1, run_default_schedule_0080_1, DefaultSchedule0081Input,
    DefaultSchedule0081ShipFaction, ProductionPath0081Clearing, ProductionPath0081Summary,
};

fn clearing(starsystem_index: u8, terran_owned: bool, pirate_present: bool, security_after: i64) -> ProductionPath0081Clearing {
    ProductionPath0081Clearing { starsystem_index, terran_owned, pirate_present, security_after }
}

fn production(composite_gap_sum: i64) -> ProductionPath0081Summary {
    ProductionPath0081Summary {
        admitted: true,
        explicit_opt_in: true,
        disabled_no_op: false,
        diagnostics_empty: true,
        atlas_report_admitted_pass: true,
        econ_scale_report_admitted_pass: true,
        nested_starmap_instantiated: true,
        pirate_full_economy_faction_visible: true,
        factions_include_pirate: true,
        composite_gap_sum,
        clearings: Some(vec![
            clearing(3, true, true, 5),
            clearing(4, true, true, 2),
            clearing(7, false, true, 1),
            clearing(8, true, false, 0),
            clearing(5, true, true, 2),
        ]),
        deterministic_replay_checksum: 1234,
    }
}

#[test]
fn ship_faction_owners_and_codes() {
    assert_eq!(DefaultSchedule0081ShipFaction::Terran.owner_id(), 80_100);
    assert_eq!(DefaultSchedule0081ShipFaction::Pirate.owner_id(), 80_200);
    assert_eq!(DefaultSchedule0081ShipFaction::Terran.stable_code(), 1);
    assert_eq!(DefaultSchedule0081ShipFaction::Pirate.stable_code(), 2);
}

#[test]
fn nested_schedule_moves_terran_then_pirate_to_least_secure_clearings() {
    let report = run_default_schedule_0080_1(&DefaultSchedule0081Input::explicit_opt_in(), &production(2));
    assert!(report.admitted);
    assert!(report.production_path_admitted_pass);
    assert!(report.consumed_production_path);
    assert_eq!(report.executed_step_count, 3);
    assert_eq!(report.threshold_true_count, 3);
    assert_eq!(report.threshold_false_count, 0);
    assert_eq!(report.boundary_request_count, 3);
    assert_eq!(report.mobility_substrate_routed_count, 2);
    assert_eq!(report.terran_move_count, 1);
    assert_eq!(report.pirate_move_count, 1);
    assert!(report.identity_preserved && report.owner_overlay_preserved);
    assert!(report.membership_updated_without_reparenting);
    assert!(report.consumed_atlas_residency_report && report.consumed_faction_index_econ_report);
    assert!(report.pirate_full_economy_faction_preserved);
    let terran = report.step_reports[0].movement.unwrap();
    assert_eq!((terran.mover_id, terran.start_starsystem, terran.end_starsystem), (80_301, 0, 4));
    assert_eq!(terran.owner_id_after, 80_100);
    let pirate = report.step_reports[1].movement.unwrap();
    assert_eq!((pirate.mover_id, pirate.start_starsystem, pirate.end_starsystem), (80_401, 6, 7));
    assert_eq!(report.step_reports[1].step.mover_faction, Some(DefaultSchedule0081ShipFaction::Pirate));
    assert!(report.step_reports[2].movement.is_none());
    assert_eq!(report.deterministic_replay_checksum, 4104265697596305368);
}

#[test]
fn nested_schedule_threshold_false_moves_nothing() {
    let report = run_default_schedule_0080_1(
        &DefaultSchedule0081Input::explicit_opt_in_threshold_false(),
        &production(0),
    );
    assert!(report.admitted);
    assert_eq!(report.threshold_true_count, 0);
    assert_eq!(report.threshold_false_count, 3);
    assert_eq!(report.terran_move_count + report.pirate_move_count, 0);
    assert!(report.step_reports.iter().all(|s| s.movement.is_none()));
    assert_eq!(report.deterministic_replay_checksum, 16618588308455758088);
}

#[test]
fn nested_schedule_without_economy_report_uses_fallback_starsystems() {
    let mut p = production(2);
    p.clearings = None;
    let report = run_default_schedule_0080_1(&DefaultSchedule0081Input::explicit_opt_in(), &p);
    assert_eq!(report.step_reports[0].movement.unwrap().end_starsystem, 1);
    assert_eq!(report.step_reports[1].movement.unwrap().end_starsystem, 2);
}

#[test]
fn nested_schedule_refuses_failed_production_path() {
    let mut p = production(2);
    p.nested_starmap_instantiated = false;
    let report = run_default_schedule_0080_1(&DefaultSchedule0081Input::explicit_opt_in(), &p);
    assert!(!report.admitted);
    assert_eq!(report.diagnostics, vec!["production_path_0080_1_disabled_rejected_or_not_admitted"]);
    assert!(!report.production_path_admitted_pass);
    assert_eq!(report.production_path_checksum, Some(1234));
    assert!(report.step_reports.is_empty());
    assert_eq!(report.deterministic_replay_checksum, 5327455454720129352);
}

#[test]
fn nested_schedule_default_session_and_unbounded_steps() {
    let disabled = run_default_schedule_0080_1(&DefaultSchedule0081Input::default_simsession(), &production(2));
    assert!(disabled.admitted && disabled.disabled_no_op);
    assert_eq!(disabled.production_path_checksum, None);
    assert_eq!(disabled.deterministic_replay_checksum, 4672095441862941765);

    let mut input = DefaultSchedule0081Input::explicit_opt_in();
    input.step_count = 4;
    let refused = run_default_schedule_0080_1(&input, &production(2));
    assert!(!refused.admitted);
    assert!(!refused.bounded_step_loop);
    assert_eq!(refused.diagnostics, vec!["default_schedule_0080_1_unbounded_step_count"]);
    assert_eq!(refused.deterministic_replay_checksum, 14296249183142408641);
}

#[test]
fn nested_schedule_replay_is_deterministic() {
    let (a, b) = replay_default_schedule_0080_1(&production(2));
    assert_eq!(a, b);
}
