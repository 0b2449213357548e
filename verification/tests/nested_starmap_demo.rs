use simthing_driver::control_0080_1::{Control0081Command, Control0081CommandBatch};
use simthing_driver::default_schedule_0080_1::DefaultSchedule0081ShipFaction;
use simthing_driver::demo_0080_1::{
    canonical_control_input_0080_1, replay_demo_0080_1, run_demo_0080_1, Demo0081Input,
    Demo0081Observation, Demo0081ObservedRow,
};

fn row(
    step_index: u32,
    mover_faction: Option<DefaultSchedule0081ShipFaction>,
    start: Option<u8>,
    end: Option<u8>,
    boundary: bool,
) -> Demo0081ObservedRow {
    Demo0081ObservedRow {
        step_index,
        mover_faction,
        start_starsystem: start,
        end_starsystem: end,
        threshold_accepted: true,
        event_emitted: true,
        boundary_request_materialized: boundary,
        identity_preserved: true,
        owner_overlay_preserved: true,
        membership_updated_without_reparenting: true,
    }
}

fn observation() -> Demo0081Observation {
    Demo0081Observation {
        replay_checksum: 21,
        text_export: String::from("T"),
        executed_step_count: 3,
        terran_movement_rows: 1,
        pirate_movement_rows: 1,
        rows: vec![
            row(0, Some(DefaultSchedule0081ShipFaction::Terran), Some(0), Some(4), true),
            row(1, Some(DefaultSchedule0081ShipFaction::Pirate), Some(6), Some(7), true),
            row(2, None, None, None, false),
        ],
        atlas_summary_present: true,
        faction_econ_summary_present: true,
        owner_overlay_summary_present: true,
        ownership_up_aggregation_summary_present: false,
        sead_movement_trace_included: true,
    }
}

#[test]
fn nested_demo_renders_commands_and_moves() {
    let report = run_demo_0080_1(&Demo0081Input::explicit_opt_in(), &observation());
    assert!(report.admitted);
    assert!(report.control_admitted);
    assert!(report.control_ran_schedule);
    assert_eq!(report.applied_command_count, 5);
    assert_eq!(report.executed_step_count, 3);
    assert_eq!(report.boundary_request_count, 2);
    assert!(report.identity_preserved && report.owner_overlay_preserved);
    assert!(report.atlas_residency_summary_present);
    assert!(!report.ownership_up_aggregation_summary_present);
    assert_eq!(report.movement_rows[0].mover_faction, "Terran");
    assert_eq!(report.movement_rows[2].mover_faction, "none");
    let expected = [
        "DEMO-0080-1|scenario=Nested Starmap|control_id=CONTROL-0080-1|commands_applied=5|steps=3|terran_moves=1|pirate_moves=1|identity_preserved=true|owner_overlay_preserved=true|checksum=10462992247937832316",
        "CMD|index=0|command=set_step_count|accepted=true|field=DefaultSchedule0081Input.step_count|old=3|new=3",
        "CMD|index=1|command=set_terran_threshold|accepted=true|field=DefaultSchedule0081Input.movement_threshold|old=0|new=0",
        "CMD|index=2|command=set_pirate_threshold|accepted=true|field=DefaultSchedule0081Input.movement_threshold|old=0|new=0",
        "CMD|index=3|command=run_observed_scenario|accepted=true|field=GAMEPLAY-0080-1|old=0|new=1",
        "CMD|index=4|command=export_transcript|accepted=true|field=text_export|old=0|new=1",
        "MOVE|step=0|faction=Terran|start=Some(0)|end=Some(4)|threshold=true|event=true|boundary=true|identity=true|owner_overlay=true|no_reparenting=true",
        "MOVE|step=1|faction=Pirate|start=Some(6)|end=Some(7)|threshold=true|event=true|boundary=true|identity=true|owner_overlay=true|no_reparenting=true",
        "MOVE|step=2|faction=none|start=None|end=None|threshold=true|event=true|boundary=false|identity=true|owner_overlay=true|no_reparenting=true",
    ]
    .join("\n");
    assert_eq!(report.demo_text_export, expected);
    assert_eq!(report.deterministic_replay_checksum, 1869602667527405187);
}

#[test]
fn nested_demo_refused_batch_has_no_observation() {
    let mut input = Demo0081Input::explicit_opt_in();
    input.control_input.commands = Control0081CommandBatch {
        commands: vec![Control0081Command::SeadBypass, Control0081Command::RunObservedScenario],
    };
    let report = run_demo_0080_1(&input, &observation());
    assert!(report.admitted);
    assert!(!report.control_admitted);
    assert!(!report.control_ran_schedule);
    assert_eq!(report.command_transcript.len(), 2);
    assert!(!report.command_transcript[0].accepted);
    assert_eq!(report.command_transcript[0].target_bounded_field, "sead_bypass_rejected");
    assert!(report.movement_rows.is_empty());
}

#[test]
fn nested_demo_default_session_and_refused_demo() {
    let disabled = run_demo_0080_1(&Demo0081Input::default_simsession(), &observation());
    assert!(disabled.admitted && disabled.disabled_no_op);
    assert!(disabled.demo_text_export.is_empty());
    assert_eq!(disabled.deterministic_replay_checksum, 8613051912935475505);

    let mut input = Demo0081Input::explicit_opt_in();
    input.forbidden.general_gameplay_framework = true;
    let refused = run_demo_0080_1(&input, &observation());
    assert!(!refused.admitted);
    assert_eq!(refused.diagnostics, vec!["general_gameplay_framework"]);
    assert!(refused.demo_text_export.starts_with("DEMO-0080-1|scenario=Nested Starmap|control_id=CONTROL-0080-1|commands_applied=0|steps=0"));
}

#[test]
fn nested_demo_canonical_control_input_and_replay() {
    let input = canonical_control_input_0080_1();
    assert_eq!(input.commands.commands.len(), 5);
    let (a, b) = replay_demo_0080_1(&observation());
    assert_eq!(a, b);
}
