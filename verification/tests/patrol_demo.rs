use simthing_driver::control_0080_0::{Control0080Command, Control0080CommandBatch};
use simthing_driver::default_schedule_0080_0::{LocalPatrolEconomyNode, LocalPatrolEconomyScenario};
use simthing_driver::demo_0080_0::{
    canonical_control_input, replay_demo_0080_0, run_demo_0080_0, Demo0080Input,
    Demo0080NodeObservation, Demo0080Observation, Demo0080StepObservation,
};

fn scenario() -> LocalPatrolEconomyScenario {
    LocalPatrolEconomyScenario {
        source: LocalPatrolEconomyNode { disruption: 5, supply: 10, local_security: 4, maintenance: 3 },
        destination: LocalPatrolEconomyNode { disruption: 1, supply: 8, local_security: 6, maintenance: 2 },
        disruption_threshold: 5,
        local_security_floor: 2,
    }
}

fn observation() -> Demo0080Observation {
    Demo0080Observation {
        replay_checksum: 9,
        text_export: String::from("OBS"),
        steps: vec![
            Demo0080StepObservation {
                step_index: 0,
                patrol_at_source_before_step: true,
                patrol_at_destination_before_step: false,
                patrol_relocated: true,
                pirate_location_before: Some("destination"),
                pirate_location_after: Some("source"),
                pirate_relocated: true,
                source: Demo0080NodeObservation { supply: 10, disruption: 5, local_security: 4 },
                destination: Demo0080NodeObservation { supply: 8, disruption: 1, local_security: 6 },
                threshold_accepted: true,
                event_emitted: true,
                boundary_request_materialized: true,
                production_path_invoked: true,
            },
            Demo0080StepObservation {
                step_index: 1,
                patrol_at_source_before_step: false,
                patrol_at_destination_before_step: true,
                patrol_relocated: false,
                pirate_location_before: None,
                pirate_location_after: None,
                pirate_relocated: false,
                source: Demo0080NodeObservation { supply: 10, disruption: -3, local_security: 4 },
                destination: Demo0080NodeObservation { supply: 8, disruption: 1, local_security: 6 },
                threshold_accepted: false,
                event_emitted: false,
                boundary_request_materialized: false,
                production_path_invoked: false,
            },
        ],
    }
}

const LINE_0: &str = "MOVEMENT|step=0|patrol_start=source|patrol_end=destination|patrol_relocated=true|patrol_from=source|patrol_to=destination|pirate_start=destination|pirate_end=source|pirate_relocated=true|pirate_from=destination|pirate_to=source|source_supply=10|source_disruption=5|source_local_security=4|destination_supply=8|destination_disruption=1|destination_local_security=6|threshold=true|event=true|boundary=true|production_path=true";
const LINE_1: &str = "MOVEMENT|step=1|patrol_start=destination|patrol_end=destination|patrol_relocated=false|patrol_from=none|patrol_to=none|pirate_start=none|pirate_end=none|pirate_relocated=false|pirate_from=none|pirate_to=none|source_supply=10|source_disruption=-3|source_local_security=4|destination_supply=8|destination_disruption=1|destination_local_security=6|threshold=false|event=false|boundary=false|production_path=false";

#[test]
fn patrol_demo_renders_movement_days_from_observation() {
    let report = run_demo_0080_0(&Demo0080Input::explicit_opt_in(scenario()), &observation());
    assert!(report.admitted);
    assert!(report.uses_canonical_control_batch);
    assert!(report.headless_library_helper_only);
    assert_eq!(report.observation_replay_checksum, Some(9));
    assert_eq!(report.observation_export, "OBS");
    assert_eq!(report.movement_days.len(), 2);
    let day = report.movement_days[0].record;
    assert_eq!(day.patrol_start, "source");
    assert_eq!(day.patrol_end, "destination");
    assert_eq!(day.pirate_relocation_source, Some("destination"));
    assert_eq!(report.movement_days[1].record.patrol_relocation_source, None);
    let expected = format!(
        "DEMO-0080-0|scenario=Local Patrol Economy|headless=true\nOBS\nMOVEMENT|begin\n{}\n{}\nMOVEMENT|end",
        LINE_0, LINE_1
    );
    assert_eq!(report.demo_export, expected);
    let control = report.control_report.clone().unwrap();
    assert_eq!(control.deterministic_replay_checksum, 9183349227657777782);
    assert_eq!(report.deterministic_replay_checksum, 3236207817006849913);
}

#[test]
fn patrol_demo_without_observation_request_has_no_days() {
    let mut input = Demo0080Input::explicit_opt_in(scenario());
    input.control_input.commands = Control0080CommandBatch {
        commands: vec![Control0080Command::SetSourceDisruption(7)],
    };
    let report = run_demo_0080_0(&input, &observation());
    assert!(report.admitted);
    assert!(!report.uses_canonical_control_batch);
    assert_eq!(report.observation_replay_checksum, None);
    assert!(report.movement_days.is_empty());
    assert_eq!(
        report.demo_export,
        "DEMO-0080-0|scenario=Local Patrol Economy|headless=true\n\nMOVEMENT|begin\nMOVEMENT|end"
    );
    assert_eq!(report.deterministic_replay_checksum, 1865832233776647826);
}

#[test]
fn patrol_demo_refused_control_batch_refuses_demo() {
    let mut input = Demo0080Input::explicit_opt_in(scenario());
    input.control_input.commands = Control0080CommandBatch {
        commands: vec![Control0080Command::DirectPirateMove],
    };
    let report = run_demo_0080_0(&input, &observation());
    assert!(!report.admitted);
    assert_eq!(report.diagnostics, vec!["control_0080_0_command_rejected"]);
    assert!(report.control_report.is_none());
    assert_eq!(report.deterministic_replay_checksum, 0);
}

#[test]
fn patrol_demo_default_session_and_forbidden_requests() {
    let disabled = run_demo_0080_0(&Demo0080Input::default_simsession(scenario()), &observation());
    assert!(disabled.admitted && disabled.disabled_no_op);
    assert!(disabled.demo_export.is_empty());

    let mut input = Demo0080Input::explicit_opt_in(scenario());
    input.forbidden.cli_binary = true;
    let refused = run_demo_0080_0(&input, &observation());
    assert!(!refused.admitted);
    assert_eq!(refused.diagnostics, vec!["cli_binary"]);
}

#[test]
fn patrol_demo_canonical_control_input_and_replay() {
    let input = canonical_control_input(scenario());
    assert!(input.surface.gate.explicit_opt_in);
    assert_eq!(input.commands.commands.len(), 3);
    let (a, b) = replay_demo_0080_0(scenario(), &observation());
    assert_eq!(a, b);
}
