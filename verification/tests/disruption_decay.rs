use simthing_driver::disruption_decay_0080_2::{
    replay_disruption_decay_0080_2, run_disruption_decay_0080_2, DisruptionDecay0082Input,
    DisruptionDecay0082RetentionFactor, DISRUPTION_MAX,
};

#[test]
fn disruption_decay_canonical_trial_is_admitted_and_composes_171_over_200() {
    let report = run_disruption_decay_0080_2(&DisruptionDecay0082Input::explicit_opt_in());
    assert!(report.admitted);
    assert!(report.diagnostics.is_empty());
    assert!(!report.disabled_no_op);
    assert_eq!((report.effective_retain_num, report.effective_retain_den), (171, 200));
    assert!(report.decay_coefficient_bounded);
    assert_eq!(report.rows.len(), 80);
    assert_eq!(report.final_disruption.len(), 4);
    assert_eq!(report.peak_disruption.len(), 4);
}

#[test]
fn disruption_decay_recurrence_exact_values() {
    let report = run_disruption_decay_0080_2(&DisruptionDecay0082Input::explicit_opt_in());
    // tick 0, node 3: 10 movers * 2000.
    let r = report.rows[3];
    assert_eq!((r.tick, r.node, r.disruption_before, r.gained, r.disruption_after), (0, 3, 0, 20_000, 20_000));
    // tick 1, node 3: floor(20000 * 171 / 200) + 20000.
    let r = report.rows[4 + 3];
    assert_eq!(r.retained, 17_100);
    assert_eq!(r.disruption_after, 37_100);
    // node 1 never sees anyone; node 2 is patrolled and never disrupted.
    assert_eq!(report.final_disruption[1], 0);
    assert_eq!(report.final_disruption[2], 0);
    assert_eq!(report.peak_disruption[3], DISRUPTION_MAX);
    for row in &report.rows {
        assert!(row.disruption_after >= 0 && row.disruption_after <= DISRUPTION_MAX);
    }
}

#[test]
fn disruption_decay_behavioural_diagnostics_hold_on_canonical_trial() {
    let report = run_disruption_decay_0080_2(&DisruptionDecay0082Input::explicit_opt_in());
    assert!(report.accumulates_with_presence);
    assert!(report.decays_to_zero_without_input);
    assert!(report.patrol_accelerates_decay);
    assert!(report.saturates_at_ceiling);
}

#[test]
fn disruption_decay_export_header_and_lines() {
    let report = run_disruption_decay_0080_2(&DisruptionDecay0082Input::explicit_opt_in());
    let lines: Vec<&str> = report.text_export.split('\n').collect();
    assert_eq!(lines.len(), 1 + 80 + 4);
    assert_eq!(
        lines[0],
        "DISRUPTION-DECAY-0080-2|scenario=Pirate Gradient Pathfinding|nodes=4|ticks=20|retain=171/200|gain_per_unit=2000|suppression_per_patrol=5000"
    );
    assert_eq!(
        lines[4],
        "TICK|t=0|node=3|mover=10|patrol=0|before=0|retained=0|gained=20000|suppressed=0|after=20000"
    );
    assert_eq!(lines[81], "FINAL|node=0|disruption=0");
}

#[test]
fn disruption_decay_default_session_is_disabled_no_op() {
    let report = run_disruption_decay_0080_2(&DisruptionDecay0082Input::default_simsession());
    assert!(report.admitted);
    assert!(report.disabled_no_op);
    assert!(report.rows.is_empty());
    assert_eq!(report.node_count, 0);
    assert!(report.text_export.is_empty());
}

#[test]
fn disruption_decay_rejects_modifier_above_one_and_unbounded_coefficient() {
    let mut input = DisruptionDecay0082Input::explicit_opt_in();
    input.decay_weights.modifiers.push(DisruptionDecay0082RetentionFactor { label: "boost", num: 3, den: 2 });
    let report = run_disruption_decay_0080_2(&input);
    assert!(!report.admitted);
    assert!(report.diagnostics.contains(&"decay_modifier_increases_retention"));
    assert!(report.rows.is_empty());

    let mut input = DisruptionDecay0082Input::explicit_opt_in();
    input.decay_weights.base_retain_num = 10;
    input.decay_weights.modifiers.clear();
    let report = run_disruption_decay_0080_2(&input);
    assert_eq!(report.diagnostics, vec!["unbounded_decay_coefficient"]);

    let mut input = DisruptionDecay0082Input::explicit_opt_in();
    input.decay_weights.base_retain_den = 0;
    let report = run_disruption_decay_0080_2(&input);
    assert_eq!(report.diagnostics, vec!["decay_coefficient_invalid"]);
}

#[test]
fn disruption_decay_rejects_bad_shapes_and_forbidden_requests() {
    let mut input = DisruptionDecay0082Input::explicit_opt_in();
    input.presence_schedule.pop();
    input.presence_schedule[0].pop();
    input.presence_schedule[1][1].patrol_presence = -1;
    input.forbidden.new_shader_or_gpu_kernel = true;
    input.surface.gate.enabled_by_default = true;
    let report = run_disruption_decay_0080_2(&input);
    assert_eq!(
        report.diagnostics,
        vec![
            "disruption_decay_default_on_rejected",
            "new_shader_or_gpu_kernel",
            "presence_schedule_tick_shape_mismatch",
            "presence_schedule_node_shape_mismatch",
            "negative_presence",
        ]
    );
    assert!(!report.admitted);
    assert!(!report.disabled_no_op);
    assert!(!report.no_new_gpu_kernel);
}

#[test]
fn disruption_decay_replay_is_deterministic() {
    let (a, b) = replay_disruption_decay_0080_2();
    assert_eq!(a, b);
    assert_ne!(a.deterministic_replay_checksum, 0);
}
