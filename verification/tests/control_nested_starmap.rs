use simthing_driver::control_0080_1::{
    admit_control_0080_1, complete_control_0080_1, replay_admit_control_0080_1,
    Control0081AdmissionInput, Control0081BoundedConfig, Control0081Command,
    Control0081CommandBatch,
};

fn opted_in_with(commands: Vec<Control0081Command>) -> Control0081AdmissionInput {
    let mut input = Control0081AdmissionInput::explicit_opt_in();
    input.commands = Control0081CommandBatch { commands };
    input
}

#[test]
fn control_0081_default_session_is_disabled_no_op() {
    let report = admit_control_0080_1(&Control0081AdmissionInput::default_simsession());
    assert!(report.admitted);
    assert!(report.disabled_no_op);
    assert!(!report.bounded_command_admission_only);
    assert!(report.diagnostics.is_empty());
    assert_eq!(report.applied_command_count, 0);
    assert_eq!(report.deterministic_replay_checksum, 0);
    assert_eq!(report.bounded_config, Control0081BoundedConfig::default());
}

#[test]
fn control_0081_canonical_batch_is_admitted_and_asks_for_observation() {
    let report = admit_control_0080_1(&Control0081AdmissionInput::explicit_opt_in());
    assert!(report.admitted);
    assert!(!report.disabled_no_op);
    assert!(report.bounded_command_admission_only);
    assert!(report.command_writes_existing_bounded_values_only);
    assert!(!report.command_moved_ship);
    assert_eq!(report.applied_command_count, 5);
    assert!(report.rejected_commands.is_empty());
    assert_eq!(report.schedule_input.step_count, 3);
    assert_eq!(report.schedule_input.movement_threshold, 0);
    assert!(report.observation_pending);
    assert!(report.export_requested);
    let labels: Vec<&str> = report.command_transcript.iter().map(|row| row.command).collect();
    assert_eq!(
        labels,
        vec![
            "set_step_count",
            "set_terran_threshold",
            "set_pirate_threshold",
            "run_observed_scenario",
            "export_transcript",
        ]
    );
    assert_eq!(report.command_transcript[0].target_bounded_field, "DefaultSchedule0081Input.step_count");
    assert_eq!(report.command_transcript[0].old_value, 3);
    assert_eq!(report.command_transcript[0].new_value, 3);
    assert!(report.command_transcript[3].run_observed);
    assert!(report.command_transcript[4].export_produced);
    assert_eq!(report.deterministic_replay_checksum, 11474065631226270301);
    assert!(report
        .command_transcript
        .iter()
        .all(|row| row.replay_checksum == report.deterministic_replay_checksum));
}

#[test]
fn control_0081_completion_attaches_observation_and_export() {
    let report = admit_control_0080_1(&Control0081AdmissionInput::explicit_opt_in());
    let done = complete_control_0080_1(report, 7, String::from("ab"));
    assert!(!done.observation_pending);
    assert_eq!(done.observation_replay_checksum, Some(7));
    assert_eq!(done.text_export, "ab");
    assert_eq!(done.deterministic_replay_checksum, 9980662227831931321);
    assert!(done
        .command_transcript
        .iter()
        .all(|row| row.replay_checksum == done.deterministic_replay_checksum));
}

#[test]
fn control_0081_run_without_export_drops_text() {
    let report = admit_control_0080_1(&opted_in_with(vec![Control0081Command::RunObservedScenario]));
    assert!(report.observation_pending);
    assert!(!report.export_requested);
    let done = complete_control_0080_1(report, 9, String::from("ignored"));
    assert_eq!(done.text_export, "");
    assert_eq!(done.observation_replay_checksum, Some(9));
}

#[test]
fn control_0081_thresholds_set_movement_threshold_to_the_larger() {
    let report = admit_control_0080_1(&opted_in_with(vec![
        Control0081Command::SetTerranThreshold(5),
        Control0081Command::SetPirateThreshold(7),
        Control0081Command::SetTerranThreshold(-3),
    ]));
    assert!(report.admitted);
    assert_eq!(report.bounded_config.terran_threshold, -3);
    assert_eq!(report.bounded_config.pirate_threshold, 7);
    assert_eq!(report.schedule_input.movement_threshold, 7);
    assert_eq!(report.command_transcript[2].old_value, 5);
    assert_eq!(report.command_transcript[2].new_value, -3);
    assert!(!report.observation_pending);
}

#[test]
fn control_0081_out_of_bounds_commands_are_refused() {
    let report = admit_control_0080_1(&opted_in_with(vec![
        Control0081Command::SetSupplySecurityGap(12),
        Control0081Command::SetStepCount(4),
        Control0081Command::SetTerranSourceStarsystem(10),
        Control0081Command::SetCompositeGapSum(33),
        Control0081Command::SetPirateThreshold(-33),
        Control0081Command::DirectPirateMove,
        Control0081Command::GeneralCommandSystem,
    ]));
    assert!(!report.admitted);
    assert_eq!(report.diagnostics, vec!["control_0080_1_command_rejected"]);
    assert_eq!(report.applied_command_count, 0);
    let refused: Vec<(usize, &str)> = report
        .rejected_commands
        .iter()
        .map(|r| (r.command_index, r.diagnostic))
        .collect();
    assert_eq!(
        refused,
        vec![
            (1, "invalid_step_count_rejected"),
            (2, "starsystem_index_out_of_bounds_rejected"),
            (3, "bounded_config_value_rejected"),
            (4, "bounded_threshold_rejected"),
            (5, "direct_pirate_move_rejected"),
            (6, "general_command_system_rejected"),
        ]
    );
    assert_eq!(report.bounded_config.supply_security_gap, 12);
    assert_eq!(report.bounded_config.terran_source_starsystem, 0);
    assert_eq!(report.schedule_input.step_count, 3);
    assert_eq!(report.command_transcript.len(), 7);
    assert!(!report.command_transcript[1].accepted);
    assert_eq!(report.command_transcript[1].target_bounded_field, "invalid_step_count_rejected");
}

#[test]
fn control_0081_forbidden_request_refuses_whole_input() {
    let mut input = Control0081AdmissionInput::explicit_opt_in();
    input.forbidden.sead_bypass = true;
    input.surface.demo_packaging_present = true;
    let report = admit_control_0080_1(&input);
    assert!(!report.admitted);
    assert_eq!(report.diagnostics, vec!["demo_packaging", "sead_bypass_rejected"]);
    assert!(report.command_transcript.is_empty());
    assert!(report.demo_packaging_present);

    let mut only_forbidden = Control0081AdmissionInput::explicit_opt_in();
    only_forbidden.forbidden.sead_bypass = true;
    let refused = admit_control_0080_1(&only_forbidden);
    assert_eq!(refused.deterministic_replay_checksum, 9154088726124207225);
}

#[test]
fn control_0081_replay_is_deterministic() {
    let (a, b) = replay_admit_control_0080_1();
    assert_eq!(a, b);
}
