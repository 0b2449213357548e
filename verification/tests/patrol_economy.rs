use simthing_driver::control_0080_0::{
    admit_control_0080_0, complete_control_0080_0, replay_admit_control_0080_0,
    Control0080AdmissionInput, Control0080Command, Control0080CommandBatch,
};
use simthing_driver::default_schedule_0080_0::{
    complete_default_schedule_0080_0, replay_default_schedule_0080_0,
    run_default_schedule_0080_0, DefaultSchedule0080Input, LocalPatrolEconomyNode,
    LocalPatrolEconomyScenario,
};

fn scenario() -> LocalPatrolEconomyScenario {
    LocalPatrolEconomyScenario {
        source: LocalPatrolEconomyNode { disruption: 5, supply: 10, local_security: 4, maintenance: 3 },
        destination: LocalPatrolEconomyNode { disruption: 1, supply: 8, local_security: 6, maintenance: 2 },
        disruption_threshold: 5,
        local_security_floor: 2,
    }
}

#[test]
fn patrol_schedule_default_session_is_disabled_no_op() {
    let report = run_default_schedule_0080_0(&DefaultSchedule0080Input::default_simsession(scenario()));
    assert!(report.admitted);
    assert!(report.disabled_no_op);
    assert!(!report.scenario_schedule_registered);
    assert!(report.step_reports.is_empty());
    assert_eq!(report.deterministic_replay_checksum, 0);
}

#[test]
fn patrol_schedule_steps_decay_and_reset_the_source() {
    let report = run_default_schedule_0080_0(&DefaultSchedule0080Input::explicit_opt_in(scenario()));
    assert!(report.admitted);
    assert!(report.scenario_schedule_registered);
    assert_eq!(report.requested_step_count, 3);
    assert_eq!(report.executed_step_count, 3);
    assert_eq!(report.production_path_invocation_count, 1);
    assert_eq!(report.boundary_request_count, 1);
    let before: Vec<i64> = report.step_reports.iter().map(|s| s.step.source_disruption_before).collect();
    let after: Vec<i64> = report.step_reports.iter().map(|s| s.step.source_disruption_after).collect();
    assert_eq!(before, vec![5, 4, 3]);
    assert_eq!(after, vec![4, 3, 2]);
    assert!(report.step_reports[0].step.threshold_crossed);
    assert!(!report.step_reports[1].step.threshold_crossed);
    assert_eq!(report.step_reports[1].step.source_local_security, 3);
    assert_eq!(report.step_reports[0].production_path_input, Some(scenario()));
    assert_eq!(report.step_reports[1].production_path_input, None);
    assert!(report.production_checksums_pending);
    assert_eq!(report.deterministic_replay_checksum, 16514469596665388768);

    let done = complete_default_schedule_0080_0(report, &vec![77, 0, 0]);
    assert!(!done.production_checksums_pending);
    assert_eq!(done.step_reports[0].production_path_checksum, Some(77));
    assert_eq!(done.step_reports[1].production_path_checksum, None);
    assert_eq!(done.deterministic_replay_checksum, 7546656906506911085);
}

#[test]
fn patrol_schedule_threshold_false_input_never_crosses() {
    let input = DefaultSchedule0080Input::explicit_opt_in_threshold_false(scenario());
    assert_eq!(input.scenario.source.disruption, 3);
    assert_eq!(input.scenario.source.local_security, 4);
    let report = run_default_schedule_0080_0(&input);
    assert_eq!(report.production_path_invocation_count, 0);
    assert!(!report.production_checksums_pending);
    let after: Vec<i64> = report.step_reports.iter().map(|s| s.step.source_disruption_after).collect();
    assert_eq!(after, vec![2, 1, 0]);
}

#[test]
fn patrol_schedule_disruption_never_goes_negative() {
    let mut input = DefaultSchedule0080Input::explicit_opt_in(scenario());
    input.scenario.source.disruption = 1;
    input.patrol_disruption_reduction_per_step = 5;
    input.step_count = 2;
    let report = run_default_schedule_0080_0(&input);
    let after: Vec<i64> = report.step_reports.iter().map(|s| s.step.source_disruption_after).collect();
    assert_eq!(after, vec![0, 0]);
}

#[test]
fn patrol_schedule_forbidden_requests_are_refused() {
    let mut input = DefaultSchedule0080Input::explicit_opt_in(scenario());
    input.forbidden.pirate_behavior = true;
    input.surface.global_default_schedule_registered = true;
    let report = run_default_schedule_0080_0(&input);
    assert!(!report.admitted);
    assert_eq!(
        report.diagnostics,
        vec!["global_default_schedule", "pirate_behavior_not_implemented_in_1a"]
    );
    assert!(report.step_reports.is_empty());
}

#[test]
fn patrol_schedule_replay_is_deterministic() {
    let (a, b) = replay_default_schedule_0080_0(scenario());
    assert_eq!(a, b);
}

#[test]
fn patrol_control_canonical_batch_asks_for_observation() {
    let report = admit_control_0080_0(&Control0080AdmissionInput::explicit_opt_in(scenario()));
    assert!(report.admitted);
    assert_eq!(report.applied_command_count, 3);
    assert!(report.observation_pending);
    assert_eq!(report.schedule_input.step_count, 3);
    assert_eq!(report.deterministic_replay_checksum, 8211842969528800129);
    let done = complete_control_0080_0(report, 9, String::from("xy"));
    assert_eq!(done.text_export, "xy");
    assert_eq!(done.deterministic_replay_checksum, 1733415132680250249);
}

#[test]
fn patrol_control_writes_scenario_values() {
    let mut input = Control0080AdmissionInput::explicit_opt_in(scenario());
    input.commands = Control0080CommandBatch {
        commands: vec![Control0080Command::SetSourceDisruption(7)],
    };
    let report = admit_control_0080_0(&input);
    assert!(report.admitted);
    assert!(!report.observation_pending);
    assert_eq!(report.schedule_input.scenario.source.disruption, 7);
    assert_eq!(report.deterministic_replay_checksum, 12111999745107676993);
}

#[test]
fn patrol_control_negative_and_direct_commands_are_refused() {
    let mut input = Control0080AdmissionInput::explicit_opt_in(scenario());
    input.commands = Control0080CommandBatch {
        commands: vec![
            Control0080Command::SetDestinationSupply(-1),
            Control0080Command::SetSourceSupply(2),
            Control0080Command::SetStepCount(33),
            Control0080Command::SetPatrolDisruptionReduction(-2),
            Control0080Command::DirectPatrolMove,
        ],
    };
    let report = admit_control_0080_0(&input);
    assert!(!report.admitted);
    assert_eq!(report.diagnostics, vec!["control_0080_0_command_rejected"]);
    assert_eq!(report.deterministic_replay_checksum, 0);
    let refused: Vec<(usize, &str)> =
        report.rejected_commands.iter().map(|r| (r.command_index, r.diagnostic)).collect();
    assert_eq!(
        refused,
        vec![
            (0, "negative_supply_rejected"),
            (2, "invalid_step_count_rejected"),
            (3, "negative_patrol_disruption_reduction_rejected"),
            (4, "direct_patrol_move_rejected"),
        ]
    );
    assert_eq!(report.schedule_input.scenario.source.supply, 2);
}

#[test]
fn patrol_control_default_session_is_disabled_no_op() {
    let report = admit_control_0080_0(&Control0080AdmissionInput::default_simsession(scenario()));
    assert!(report.admitted);
    assert!(report.disabled_no_op);
    assert_eq!(report.deterministic_replay_checksum, 0);
}

#[test]
fn patrol_control_replay_is_deterministic() {
    let (a, b) = replay_admit_control_0080_0(scenario());
    assert_eq!(a, b);
}
