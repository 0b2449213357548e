use simthing_driver::compound_field_0080_2::{
    replay_compound_field_0080_2, run_compound_field_0080_2, CompoundField0082Input,
    BASE_DESIRABILITY,
};

#[test]
fn compound_field_canonical_trial_is_admitted() {
    let report = run_compound_field_0080_2(&CompoundField0082Input::explicit_opt_in());
    assert!(report.admitted);
    assert!(report.diagnostics.is_empty());
    assert!(!report.disabled_no_op);
    assert_eq!(report.node_count, 4);
    assert_eq!(report.tick_count, 20);
    assert_eq!(report.snapshots.len(), 80);
    assert_eq!(report.node_positions.len(), 4);
}

#[test]
fn compound_field_exact_snapshot_values() {
    let report = run_compound_field_0080_2(&CompoundField0082Input::explicit_opt_in());
    let s = report.snapshots[0];
    assert_eq!((s.tick, s.node, s.disruption, s.patrol_field, s.desirability), (0, 0, 20_000, 0, 44_000));
    let s = report.snapshots[2];
    assert_eq!((s.disruption, s.patrol_field, s.desirability), (0, 1, 35_000));
    let s = report.snapshots[4];
    assert_eq!((s.tick, s.node, s.disruption, s.desirability), (1, 0, 37_100, 38_900));
    let s = report.snapshots[79];
    assert_eq!((s.tick, s.node, s.disruption, s.desirability), (19, 3, 100_000, 20_000));
}

#[test]
fn compound_field_final_values_and_behaviour() {
    let report = run_compound_field_0080_2(&CompoundField0082Input::explicit_opt_in());
    assert_eq!(report.final_desirability, vec![35_000, 50_000, 35_000, 20_000]);
    assert_eq!(report.final_disruption, vec![0, 0, 0, 100_000]);
    assert!(report.patrol_repels);
    assert!(report.disrupted_still_passable);
    assert!(report.clean_node_reaches_base);
    assert!(report.final_field_ordering_correct);
    assert_eq!(report.final_desirability[1], BASE_DESIRABILITY);
}

#[test]
fn compound_field_export_lines() {
    let report = run_compound_field_0080_2(&CompoundField0082Input::explicit_opt_in());
    let lines: Vec<&str> = report.text_export.lines().collect();
    assert_eq!(
        lines[0],
        "COMPOUND-FIELD-0080-2|scenario=Pirate Gradient Pathfinding|nodes=4|ticks=20|patrol_repulsion=15000|disruption_penalty=300|base=50000"
    );
    assert_eq!(lines[1], "NODE_POS|x=0|y=0");
    assert_eq!(lines[4], "NODE_POS|x=3|y=0");
    assert_eq!(lines[5], "FIELD|t=0|node=0|disruption=20000|patrol=0|desirability=44000");
    assert_eq!(lines.len(), 1 + 4 + 80 + 4);
    assert_eq!(lines[88], "FINAL|node=3|desirability=20000");
}

#[test]
fn compound_field_checksum_exact() {
    let report = run_compound_field_0080_2(&CompoundField0082Input::explicit_opt_in());
    assert_eq!(report.deterministic_replay_checksum, 5_847_417_800_669_961_696);
}

#[test]
fn compound_field_default_session_is_disabled_no_op() {
    let report = run_compound_field_0080_2(&CompoundField0082Input::default_simsession());
    assert!(report.admitted);
    assert!(report.disabled_no_op);
    assert_eq!(report.node_count, 0);
    assert!(report.snapshots.is_empty());
    assert!(report.text_export.is_empty());
    assert!(!report.patrol_repels);
}

#[test]
fn compound_field_rejects_negative_weights_and_forbidden_requests() {
    let mut input = CompoundField0082Input::explicit_opt_in();
    input.weights.patrol_repulsion = -1;
    input.forbidden.write_to_disruption_column = true;
    let report = run_compound_field_0080_2(&input);
    assert!(!report.admitted);
    assert_eq!(
        report.diagnostics,
        vec!["write_to_disruption_column_rejected", "negative_patrol_repulsion"]
    );
    assert!(report.snapshots.is_empty());
}

#[test]
fn compound_field_position_count_mismatch_is_rejected() {
    let mut input = CompoundField0082Input::explicit_opt_in();
    input.node_positions.pop();
    let report = run_compound_field_0080_2(&input);
    assert!(!report.admitted);
    assert_eq!(report.diagnostics, vec!["node_positions_count_mismatch"]);
}

#[test]
fn compound_field_disruption_rung_not_admitted() {
    let mut input = CompoundField0082Input::explicit_opt_in();
    input.disruption_input.gain_per_presence_unit = -5;
    let report = run_compound_field_0080_2(&input);
    assert!(!report.admitted);
    assert_eq!(report.diagnostics, vec!["disruption_rung_not_admitted"]);
    assert!(report.snapshots.is_empty());
}

#[test]
fn compound_field_replay_is_deterministic() {
    let (a, b) = replay_compound_field_0080_2();
    assert_eq!(a, b);
}

#[test]
fn three_patrols_floor_a_system_to_zero() {
    let mut input = CompoundField0082Input::explicit_opt_in();
    // Node 1 is clean; node 3 is saturated with disruption.
    input.disruption_input.presence_schedule[0][1].patrol_presence = 3;
    input.disruption_input.presence_schedule[19][3].patrol_presence = 3;
    input.disruption_input.presence_schedule[5][1].patrol_presence = 2;
    let report = run_compound_field_0080_2(&input);
    assert!(report.admitted);
    let s = report.snapshots[1];
    assert_eq!((s.tick, s.node, s.disruption, s.patrol_field, s.desirability), (0, 1, 0, 3, 0));
    let s = report.snapshots[79];
    assert_eq!((s.tick, s.node, s.patrol_field, s.desirability), (19, 3, 3, 0));
    let s = report.snapshots[21];
    assert_eq!((s.tick, s.node, s.disruption, s.patrol_field, s.desirability), (5, 1, 0, 2, 20_000));
}
