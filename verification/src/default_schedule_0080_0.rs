//! Scenario-scoped default schedule of the Local Patrol Economy: gate, session surface and refused
//! requests.
//!
//! Each step of the schedule decays the source disruption by the patrol reduction and, when the
//! patrol threshold is crossed, hands the scenario to the production path (not part of this
//! library) and resets the source node just inside the threshold. A report whose steps invoked
//! the production path is completed with the production reports' checksums.
use crate::diagnostics::{flag_diag, push_if};
use crate::replay_hash::{fnv_append_u64, fnv_words, FNV_OFFSET_BASIS};
use vstd::prelude::*;

verus! {

pub const DEFAULT_SCHEDULE_0080_0_ID: &'static str = "DEFAULT-SCHEDULE-0080-0";
pub const DEFAULT_SCHEDULE_0080_0_STATUS_1A_PASS: &'static str = "IMPLEMENTED / PASS - 1A scenario-scoped schedule + patrol loop";
pub const DEFAULT_SCHEDULE_0080_0_SCENARIO: &'static str = "Local Patrol Economy";

/// Opt-in gate.
#[derive(Clone, Copy, Debug, PartialEq, Eq)]
pub struct DefaultSchedule0080Gate {
    pub explicit_opt_in: bool,
    pub enabled_by_default: bool,
}

impl Default for DefaultSchedule0080Gate {
    /// Closed gate.
    fn default() -> (r: Self)
        ensures
            !r.explicit_opt_in && !r.enabled_by_default,
    {
        DefaultSchedule0080Gate { explicit_opt_in: false, enabled_by_default: false }
    }
}

impl DefaultSchedule0080Gate {
    /// Opted in, still not enabled by default.
    pub fn explicit_opt_in() -> (r: Self)
        ensures
            r.explicit_opt_in && !r.enabled_by_default,
    {
        DefaultSchedule0080Gate { explicit_opt_in: true, enabled_by_default: false }
    }
}

/// Session surface.
#[derive(Clone, Copy, Debug, PartialEq, Eq)]
pub struct DefaultSchedule0080Surface {
    pub gate: DefaultSchedule0080Gate,
    pub scenario_schedule_registered: bool,
    pub global_default_schedule_registered: bool,
}

/// `acc` followed by the diagnostics for the surface flags, in check order.
pub open spec fn surface_diagnostics(acc: Seq<&'static str>, s: DefaultSchedule0080Surface) -> Seq<&'static str> {
    acc
        + flag_diag(s.gate.enabled_by_default, "default_schedule_0080_0_default_on_behavior_rejected")
        + flag_diag(s.global_default_schedule_registered, "global_default_schedule")
}

/// The closed session surface.
pub open spec fn closed_surface() -> DefaultSchedule0080Surface {
    DefaultSchedule0080Surface {
        gate: DefaultSchedule0080Gate { explicit_opt_in: false, enabled_by_default: false },
        scenario_schedule_registered: false,
        global_default_schedule_registered: false,
    }
}

/// The opted-in surface with the scenario schedule registered.
pub open spec fn opted_in_surface() -> DefaultSchedule0080Surface {
    DefaultSchedule0080Surface {
        gate: DefaultSchedule0080Gate { explicit_opt_in: true, enabled_by_default: false },
        scenario_schedule_registered: true,
        global_default_schedule_registered: false,
    }
}

impl Default for DefaultSchedule0080Surface {
    /// Nothing registered or wired, gate closed.
    fn default() -> (r: Self)
        ensures
            !r.gate.explicit_opt_in,
            !r.scenario_schedule_registered,
            surface_diagnostics(Seq::empty(), r).len() == 0,
            r == closed_surface(),
    {
        broadcast use crate::diagnostics::lemma_flag_diag;
        DefaultSchedule0080Surface {
            gate: DefaultSchedule0080Gate::default(),
            scenario_schedule_registered: false,
            global_default_schedule_registered: false,
        }
    }
}

impl DefaultSchedule0080Surface {
    /// The default session: nothing registered or wired, gate closed.
    pub fn default_simsession() -> (r: Self)
        ensures
            !r.gate.explicit_opt_in,
            !r.scenario_schedule_registered,
            surface_diagnostics(Seq::empty(), r).len() == 0,
            r == closed_surface(),
    {
        Self::default()
    }

    /// Opted in, with the scenario registration; nothing else wired.
    pub fn with_explicit_opt_in() -> (r: Self)
        ensures
            r.gate.explicit_opt_in,
            r.scenario_schedule_registered,
            surface_diagnostics(Seq::empty(), r).len() == 0,
            r == opted_in_surface(),
    {
        broadcast use crate::diagnostics::lemma_flag_diag;
        DefaultSchedule0080Surface {
            gate: DefaultSchedule0080Gate::explicit_opt_in(),
            scenario_schedule_registered: true,
            global_default_schedule_registered: false,
        }
    }
}

/// Requests that must be refused.
#[derive(Clone, Copy, Debug, PartialEq, Eq)]
pub struct DefaultSchedule0080ForbiddenRequests {
    pub global_default_schedule: bool,
    pub gameplay_surface: bool,
    pub semantic_or_raw_wgsl: bool,
    pub cpu_planner_or_external_move_script: bool,
    pub hard_currency_markets_trade_aibudget: bool,
    pub nested_resource_flow: bool,
    pub capture_as_reparenting: bool,
    pub owner_entity_as_spatial_parent: bool,
    pub clausething_dependency: bool,
    pub closed_ladder_reopen: bool,
    pub pirate_behavior: bool,
}

/// `acc` followed by the diagnostics for the forbidden requests, in check order.
pub open spec fn forbidden_diagnostics(acc: Seq<&'static str>, f: DefaultSchedule0080ForbiddenRequests) -> Seq<&'static str> {
    acc
        + flag_diag(f.global_default_schedule, "global_default_schedule")
        + flag_diag(f.gameplay_surface, "gameplay_surface")
        + flag_diag(f.semantic_or_raw_wgsl, "semantic_or_raw_wgsl")
        + flag_diag(f.cpu_planner_or_external_move_script, "cpu_planner_or_external_move_script")
        + flag_diag(f.hard_currency_markets_trade_aibudget, "hard_currency_markets_trade_aibudget")
        + flag_diag(f.nested_resource_flow, "nested_resource_flow")
        + flag_diag(f.capture_as_reparenting, "capture_as_reparenting")
        + flag_diag(f.owner_entity_as_spatial_parent, "owner_entity_as_spatial_parent")
        + flag_diag(f.clausething_dependency, "clausething_dependency")
        + flag_diag(f.closed_ladder_reopen, "closed_ladder_reopen")
        + flag_diag(f.pirate_behavior, "pirate_behavior_not_implemented_in_1a")
}

/// No refused request raised.
pub open spec fn no_forbidden_requests() -> DefaultSchedule0080ForbiddenRequests {
    DefaultSchedule0080ForbiddenRequests {
        global_default_schedule: false,
        gameplay_surface: false,
        semantic_or_raw_wgsl: false,
        cpu_planner_or_external_move_script: false,
        hard_currency_markets_trade_aibudget: false,
        nested_resource_flow: false,
        capture_as_reparenting: false,
        owner_entity_as_spatial_parent: false,
        clausething_dependency: false,
        closed_ladder_reopen: false,
        pirate_behavior: false,
    }
}

impl Default for DefaultSchedule0080ForbiddenRequests {
    /// Nothing requested.
    fn default() -> (r: Self)
        ensures
            forbidden_diagnostics(Seq::empty(), r).len() == 0,
            r == no_forbidden_requests(),
    {
        broadcast use crate::diagnostics::lemma_flag_diag;
        DefaultSchedule0080ForbiddenRequests {
            global_default_schedule: false,
            gameplay_surface: false,
            semantic_or_raw_wgsl: false,
            cpu_planner_or_external_move_script: false,
            hard_currency_markets_trade_aibudget: false,
            nested_resource_flow: false,
            capture_as_reparenting: false,
            owner_entity_as_spatial_parent: false,
            clausething_dependency: false,
            closed_ladder_reopen: false,
            pirate_behavior: false,
        }
    }
}

/// Appends the surface diagnostics, in check order.
pub fn validate_surface(surface: &DefaultSchedule0080Surface, diagnostics: &mut Vec<&'static str>)
    ensures
        final(diagnostics)@ == surface_diagnostics(old(diagnostics)@, *surface),
{
    push_if(diagnostics, surface.gate.enabled_by_default, "default_schedule_0080_0_default_on_behavior_rejected");
    push_if(diagnostics, surface.global_default_schedule_registered, "global_default_schedule");
}

#[verifier::rlimit(60)]
/// Appends the forbidden-request diagnostics, in check order.
pub fn validate_forbidden(forbidden: &DefaultSchedule0080ForbiddenRequests, diagnostics: &mut Vec<&'static str>)
    ensures
        final(diagnostics)@ == forbidden_diagnostics(old(diagnostics)@, *forbidden),
{
    push_if(diagnostics, forbidden.global_default_schedule, "global_default_schedule");
    push_if(diagnostics, forbidden.gameplay_surface, "gameplay_surface");
    push_if(diagnostics, forbidden.semantic_or_raw_wgsl, "semantic_or_raw_wgsl");
    push_if(diagnostics, forbidden.cpu_planner_or_external_move_script, "cpu_planner_or_external_move_script");
    push_if(diagnostics, forbidden.hard_currency_markets_trade_aibudget, "hard_currency_markets_trade_aibudget");
    push_if(diagnostics, forbidden.nested_resource_flow, "nested_resource_flow");
    push_if(diagnostics, forbidden.capture_as_reparenting, "capture_as_reparenting");
    push_if(diagnostics, forbidden.owner_entity_as_spatial_parent, "owner_entity_as_spatial_parent");
    push_if(diagnostics, forbidden.clausething_dependency, "clausething_dependency");
    push_if(diagnostics, forbidden.closed_ladder_reopen, "closed_ladder_reopen");
    push_if(diagnostics, forbidden.pirate_behavior, "pirate_behavior_not_implemented_in_1a");
}


/// One node of the Local Patrol Economy, as the schedule and its commands read it.
#[derive(Clone, Copy, Debug, PartialEq, Eq)]
pub struct LocalPatrolEconomyNode {
    pub disruption: i64,
    pub supply: i64,
    pub local_security: i64,
    pub maintenance: i64,
}

/// The Local Patrol Economy scenario as the schedule reads it: the source and destination nodes
/// and the patrol thresholds. The patrol participation counts the production path keeps are not
/// carried here.
#[derive(Clone, Copy, Debug, PartialEq, Eq)]
pub struct LocalPatrolEconomyScenario {
    pub source: LocalPatrolEconomyNode,
    pub destination: LocalPatrolEconomyNode,
    pub disruption_threshold: i64,
    pub local_security_floor: i64,
}

/// Schedule input.
#[derive(Clone, Copy, Debug, PartialEq, Eq)]
pub struct DefaultSchedule0080Input {
    pub surface: DefaultSchedule0080Surface,
    pub scenario: LocalPatrolEconomyScenario,
    pub step_count: u32,
    pub patrol_disruption_reduction_per_step: i64,
    pub forbidden: DefaultSchedule0080ForbiddenRequests,
}

/// `a - b` saturated to the `i64` range.
pub open spec fn sat_sub_i64(a: i64, b: i64) -> i64 {
    if a - b > i64::MAX {
        i64::MAX
    } else if a - b < i64::MIN {
        i64::MIN
    } else {
        (a - b) as i64
    }
}

/// `a + b` saturated to the `i64` range.
pub open spec fn sat_add_i64(a: i64, b: i64) -> i64 {
    if a + b > i64::MAX {
        i64::MAX
    } else if a + b < i64::MIN {
        i64::MIN
    } else {
        (a + b) as i64
    }
}

/// `a - b` saturated to the `i64` range.
pub fn saturating_sub_i64(a: i64, b: i64) -> (r: i64)
    ensures
        r == sat_sub_i64(a, b),
{
    let d: i128 = a as i128 - b as i128;
    if d > i64::MAX as i128 {
        i64::MAX
    } else if d < i64::MIN as i128 {
        i64::MIN
    } else {
        d as i64
    }
}

/// `a + b` saturated to the `i64` range.
pub fn saturating_add_i64(a: i64, b: i64) -> (r: i64)
    ensures
        r == sat_add_i64(a, b),
{
    let d: i128 = a as i128 + b as i128;
    if d > i64::MAX as i128 {
        i64::MAX
    } else if d < i64::MIN as i128 {
        i64::MIN
    } else {
        d as i64
    }
}

impl DefaultSchedule0080Input {
    /// The default session over `scenario`: gate closed, no steps, reduction 1.
    pub fn default_simsession(scenario: LocalPatrolEconomyScenario) -> (r: Self)
        ensures
            r == (DefaultSchedule0080Input {
                surface: closed_surface(),
                scenario,
                step_count: 0,
                patrol_disruption_reduction_per_step: 1,
                forbidden: no_forbidden_requests(),
            }),
    {
        DefaultSchedule0080Input {
            surface: DefaultSchedule0080Surface::default_simsession(),
            scenario,
            step_count: 0,
            patrol_disruption_reduction_per_step: 1,
            forbidden: DefaultSchedule0080ForbiddenRequests::default(),
        }
    }

    /// Opted in over `scenario`: three steps, reduction 1.
    pub fn explicit_opt_in(scenario: LocalPatrolEconomyScenario) -> (r: Self)
        ensures
            r == (DefaultSchedule0080Input {
                surface: opted_in_surface(),
                scenario,
                step_count: 3,
                patrol_disruption_reduction_per_step: 1,
                forbidden: no_forbidden_requests(),
            }),
    {
        DefaultSchedule0080Input {
            surface: DefaultSchedule0080Surface::with_explicit_opt_in(),
            scenario,
            step_count: 3,
            patrol_disruption_reduction_per_step: 1,
            forbidden: DefaultSchedule0080ForbiddenRequests::default(),
        }
    }

    /// Opted in over `scenario` with the source node moved inside the patrol threshold: source
    /// disruption two below the threshold (saturating) and local security two above the floor.
    pub fn explicit_opt_in_threshold_false(scenario: LocalPatrolEconomyScenario) -> (r: Self)
        requires
            scenario.local_security_floor + 2 <= i64::MAX,
        ensures
            r == (DefaultSchedule0080Input {
                surface: opted_in_surface(),
                scenario: LocalPatrolEconomyScenario {
                    source: LocalPatrolEconomyNode {
                        disruption: sat_sub_i64(scenario.disruption_threshold, 2),
                        local_security: (scenario.local_security_floor + 2) as i64,
                        ..scenario.source
                    },
                    ..scenario
                },
                step_count: 3,
                patrol_disruption_reduction_per_step: 1,
                forbidden: no_forbidden_requests(),
            }),
    {
        let mut input = Self::explicit_opt_in(scenario);
        input.scenario.source.disruption = saturating_sub_i64(input.scenario.disruption_threshold, 2);
        input.scenario.source.local_security = input.scenario.local_security_floor + 2;
        input
    }
}


/// One schedule step as recorded in the report.
#[derive(Clone, Copy, Debug, PartialEq, Eq)]
pub struct DefaultSchedule0080Step {
    pub step_index: u32,
    pub source_disruption_before: i64,
    pub source_disruption_after: i64,
    pub destination_disruption_before: i64,
    pub destination_disruption_after: i64,
    pub source_supply: i64,
    pub destination_supply: i64,
    pub source_local_security: i64,
    pub destination_local_security: i64,
    pub threshold_crossed: bool,
}

/// A step with its boundary decision: when the threshold is crossed, the scenario handed to the
/// production path and, once attached, that run's replay checksum.
#[derive(Clone, Copy, Debug, PartialEq, Eq)]
pub struct DefaultSchedule0080StepReport {
    pub step: DefaultSchedule0080Step,
    pub sead_threshold_accepted: bool,
    pub sead_emit_event_emitted: bool,
    pub boundary_request_materialized: bool,
    pub production_path_invoked: bool,
    pub production_path_input: Option<LocalPatrolEconomyScenario>,
    pub production_path_checksum: Option<u64>,
}

/// Run report. When some step invoked the production path, `production_checksums_pending` is set
/// until the production reports' checksums are attached.
#[derive(Clone, Debug, PartialEq, Eq)]
pub struct DefaultSchedule0080RunReport {
    pub schedule_id: &'static str,
    pub status: &'static str,
    pub scenario: &'static str,
    pub admitted: bool,
    pub diagnostics: Vec<&'static str>,
    pub explicit_opt_in: bool,
    pub default_off: bool,
    pub disabled_no_op: bool,
    pub scenario_scoped_only: bool,
    pub scenario_schedule_registered: bool,
    pub global_default_schedule_registered: bool,
    pub gameplay_surface_present: bool,
    pub semantic_or_raw_wgsl_present: bool,
    pub cpu_planner_used: bool,
    pub external_move_script_used: bool,
    pub hard_currency_markets_trade_aibudget: bool,
    pub nested_resource_flow: bool,
    pub clausething_dependency_present: bool,
    pub closed_ladders_reopened: bool,
    pub pirate_behavior_implemented: bool,
    pub requested_step_count: u32,
    pub executed_step_count: u32,
    pub production_path_invocation_count: u32,
    pub boundary_request_count: u32,
    pub bounded_local_economy_only: bool,
    pub step_reports: Vec<DefaultSchedule0080StepReport>,
    pub production_checksums_pending: bool,
    pub deterministic_replay_checksum: u64,
}

/// Whether the patrol threshold is crossed: the source is disrupted to the threshold, its local
/// security is at or below the floor, its supply is below its maintenance, or the destination is
/// disrupted to the threshold.
pub open spec fn threshold_crossed_spec(sc: LocalPatrolEconomyScenario) -> bool {
    sc.source.disruption >= sc.disruption_threshold
        || sc.source.local_security <= sc.local_security_floor
        || sc.source.supply < sc.source.maintenance
        || sc.destination.disruption >= sc.disruption_threshold
}

/// Source disruption after one patrol pass: reduced by `reduction` (saturating), never below 0.
pub open spec fn decayed_disruption(d: i64, reduction: i64) -> i64 {
    if sat_sub_i64(d, reduction) < 0 {
        0
    } else {
        sat_sub_i64(d, reduction)
    }
}

/// The scenario after one step: a crossed threshold resets the source just inside it (disruption
/// one below the threshold, local security one above the floor); otherwise the source disruption
/// decays.
pub open spec fn scenario_after_step(sc: LocalPatrolEconomyScenario, reduction: i64) -> LocalPatrolEconomyScenario {
    if threshold_crossed_spec(sc) {
        LocalPatrolEconomyScenario {
            source: LocalPatrolEconomyNode {
                disruption: sat_sub_i64(sc.disruption_threshold, 1),
                local_security: sat_add_i64(sc.local_security_floor, 1),
                ..sc.source
            },
            ..sc
        }
    } else {
        LocalPatrolEconomyScenario {
            source: LocalPatrolEconomyNode { disruption: decayed_disruption(sc.source.disruption, reduction), ..sc.source },
            ..sc
        }
    }
}

/// The scenario before step `k`.
pub open spec fn scenario_at(sc0: LocalPatrolEconomyScenario, reduction: i64, k: nat) -> LocalPatrolEconomyScenario
    decreases k,
{
    if k == 0 {
        sc0
    } else {
        scenario_after_step(scenario_at(sc0, reduction, (k - 1) as nat), reduction)
    }
}

/// The report of step `k`, run on `sc`.
pub open spec fn step_report_spec(sc: LocalPatrolEconomyScenario, reduction: i64, k: u32) -> DefaultSchedule0080StepReport {
    let crossed = threshold_crossed_spec(sc);
    DefaultSchedule0080StepReport {
        step: DefaultSchedule0080Step {
            step_index: k,
            source_disruption_before: sc.source.disruption,
            source_disruption_after: decayed_disruption(sc.source.disruption, reduction),
            destination_disruption_before: sc.destination.disruption,
            destination_disruption_after: sc.destination.disruption,
            source_supply: sc.source.supply,
            destination_supply: sc.destination.supply,
            source_local_security: sc.source.local_security,
            destination_local_security: sc.destination.local_security,
            threshold_crossed: crossed,
        },
        sead_threshold_accepted: crossed,
        sead_emit_event_emitted: crossed,
        boundary_request_materialized: crossed,
        production_path_invoked: crossed,
        production_path_input: if crossed { Some(sc) } else { None },
        production_path_checksum: None,
    }
}

/// The step reports of the first `n` steps from `sc0`.
pub open spec fn step_reports_spec(sc0: LocalPatrolEconomyScenario, reduction: i64, n: nat) -> Seq<DefaultSchedule0080StepReport> {
    Seq::new(n, |k: int| step_report_spec(scenario_at(sc0, reduction, k as nat), reduction, k as u32))
}

/// Number of steps among the first `n` that cross the threshold.
pub open spec fn crossed_count(sc0: LocalPatrolEconomyScenario, reduction: i64, n: nat) -> nat
    decreases n,
{
    if n == 0 {
        0
    } else {
        crossed_count(sc0, reduction, (n - 1) as nat)
            + if threshold_crossed_spec(scenario_at(sc0, reduction, (n - 1) as nat)) { 1nat } else { 0nat }
    }
}

/// The words one step contributes to the replay checksum.
pub open spec fn step_words(r: DefaultSchedule0080StepReport) -> Seq<u64> {
    seq![
        r.step.step_index as u64,
        r.step.source_disruption_before as u64,
        r.step.source_disruption_after as u64,
        r.step.destination_disruption_before as u64,
        r.step.destination_disruption_after as u64,
        if r.production_path_invoked { 1u64 } else { 0u64 },
    ] + match r.production_path_checksum {
        Some(c) => seq![c],
        None => Seq::empty(),
    }
}

/// The words all steps contribute, in order.
pub open spec fn steps_words(steps: Seq<DefaultSchedule0080StepReport>) -> Seq<u64>
    decreases steps.len(),
{
    if steps.len() == 0 {
        Seq::empty()
    } else {
        steps_words(steps.drop_last()) + step_words(steps.last())
    }
}

/// The replay checksum of a run: the counts, then each step's words.
pub open spec fn run_checksum(r: &DefaultSchedule0080RunReport) -> u64 {
    fnv_words(
        FNV_OFFSET_BASIS,
        seq![
            r.requested_step_count as u64,
            r.executed_step_count as u64,
            r.production_path_invocation_count as u64,
            r.boundary_request_count as u64,
        ] + steps_words(r.step_reports@),
    )
}

/// Folding one more word into a checksum.
proof fn lemma_fnv_push(ws: Seq<u64>, w: u64)
    ensures
        fnv_words(FNV_OFFSET_BASIS, ws.push(w)) == crate::replay_hash::fnv_append_spec(fnv_words(FNV_OFFSET_BASIS, ws), w),
{
    assert(ws.push(w).drop_last() =~= ws);
}

/// Folds one step's words into a checksum over `ws`.
fn append_step_words(hash: u64, st: &DefaultSchedule0080StepReport, Ghost(ws): Ghost<Seq<u64>>) -> (r: u64)
    requires
        hash == fnv_words(FNV_OFFSET_BASIS, ws),
    ensures
        r == fnv_words(FNV_OFFSET_BASIS, ws + step_words(*st)),
{
    let ghost mut acc = ws;
    let mut h = hash;
    let invoked_word: u64 = if st.production_path_invoked { 1 } else { 0 };
    let words: [u64; 6] = [
        st.step.step_index as u64,
        st.step.source_disruption_before as u64,
        st.step.source_disruption_after as u64,
        st.step.destination_disruption_before as u64,
        st.step.destination_disruption_after as u64,
        invoked_word,
    ];
    let mut k: usize = 0;
    while k < 6
        invariant
            k <= 6,
            words@ == step_words(*st).take(6),
            h == fnv_words(FNV_OFFSET_BASIS, ws + words@.take(k as int)),
        decreases 6 - k,
    {
        proof {
            lemma_fnv_push(ws + words@.take(k as int), words@[k as int]);
            assert((ws + words@.take(k as int)).push(words@[k as int]) =~= ws + words@.take(k as int + 1));
        }
        h = fnv_append_u64(h, words[k]);
        k = k + 1;
    }
    proof {
        assert(words@.take(6) =~= words@);
    }
    match st.production_path_checksum {
        Some(c) => {
            proof {
                lemma_fnv_push(ws + words@, c);
                assert((ws + words@).push(c) =~= ws + step_words(*st));
            }
            h = fnv_append_u64(h, c);
        },
        None => {
            proof { assert(ws + words@ =~= ws + step_words(*st)); }
        },
    }
    h
}

/// Computes the replay checksum of a run.
pub fn checksum_run(report: &DefaultSchedule0080RunReport) -> (r: u64)
    ensures
        r == run_checksum(report),
{
    let ghost head = seq![
        report.requested_step_count as u64,
        report.executed_step_count as u64,
        report.production_path_invocation_count as u64,
        report.boundary_request_count as u64,
    ];
    let mut hash = FNV_OFFSET_BASIS;
    let ghost mut ws: Seq<u64> = Seq::empty();
    proof { lemma_fnv_push(ws, report.requested_step_count as u64); }
    hash = fnv_append_u64(hash, report.requested_step_count as u64);
    proof { ws = ws.push(report.requested_step_count as u64); lemma_fnv_push(ws, report.executed_step_count as u64); }
    hash = fnv_append_u64(hash, report.executed_step_count as u64);
    proof { ws = ws.push(report.executed_step_count as u64); lemma_fnv_push(ws, report.production_path_invocation_count as u64); }
    hash = fnv_append_u64(hash, report.production_path_invocation_count as u64);
    proof { ws = ws.push(report.production_path_invocation_count as u64); lemma_fnv_push(ws, report.boundary_request_count as u64); }
    hash = fnv_append_u64(hash, report.boundary_request_count as u64);
    proof {
        ws = ws.push(report.boundary_request_count as u64);
        assert(ws =~= head);
        assert(report.step_reports@.take(0) =~= Seq::<DefaultSchedule0080StepReport>::empty());
        assert(head + steps_words(report.step_reports@.take(0)) =~= head);
    }
    let steps = &report.step_reports;
    let mut i: usize = 0;
    while i < steps.len()
        invariant
            i <= steps@.len(),
            steps@ == report.step_reports@,
            hash == fnv_words(FNV_OFFSET_BASIS, head + steps_words(steps@.take(i as int))),
        decreases steps@.len() - i,
    {
        let ghost before = head + steps_words(steps@.take(i as int));
        hash = append_step_words(hash, &steps[i], Ghost(before));
        proof {
            let next = steps@.take(i as int + 1);
            assert(next.drop_last() =~= steps@.take(i as int));
            assert(head + steps_words(next) =~= before + step_words(steps@[i as int]));
        }
        i = i + 1;
    }
    proof {
        assert(steps@.take(i as int) =~= steps@);
    }
    hash
}


/// Whether the patrol threshold is crossed in `scenario`.
pub fn patrol_threshold_crossed(scenario: &LocalPatrolEconomyScenario) -> (r: bool)
    ensures
        r == threshold_crossed_spec(*scenario),
{
    scenario.source.disruption >= scenario.disruption_threshold
        || scenario.source.local_security <= scenario.local_security_floor
        || scenario.source.supply < scenario.source.maintenance
        || scenario.destination.disruption >= scenario.disruption_threshold
}

/// Runs the steps of an opted-in input.
fn run_steps(input: &DefaultSchedule0080Input) -> (r: (Vec<DefaultSchedule0080StepReport>, u32))
    ensures
        r.0@ == step_reports_spec(input.scenario, input.patrol_disruption_reduction_per_step, input.step_count as nat),
        r.1 == crossed_count(input.scenario, input.patrol_disruption_reduction_per_step, input.step_count as nat),
{
    let ghost sc0 = input.scenario;
    let reduction = input.patrol_disruption_reduction_per_step;
    let mut scenario = input.scenario;
    let mut reports: Vec<DefaultSchedule0080StepReport> = Vec::new();
    let mut invoked: u32 = 0;
    let mut k: u32 = 0;
    while k < input.step_count
        invariant
            k <= input.step_count,
            reduction == input.patrol_disruption_reduction_per_step,
            sc0 == input.scenario,
            scenario == scenario_at(sc0, reduction, k as nat),
            reports@ =~= step_reports_spec(sc0, reduction, k as nat),
            invoked == crossed_count(sc0, reduction, k as nat),
            crossed_count(sc0, reduction, k as nat) <= k,
        decreases input.step_count - k,
    {
        let before = scenario.source.disruption;
        let crossed = patrol_threshold_crossed(&scenario);
        let lowered = saturating_sub_i64(before, reduction);
        let after = if lowered < 0 { 0 } else { lowered };
        reports.push(DefaultSchedule0080StepReport {
            step: DefaultSchedule0080Step {
                step_index: k,
                source_disruption_before: before,
                source_disruption_after: after,
                destination_disruption_before: scenario.destination.disruption,
                destination_disruption_after: scenario.destination.disruption,
                source_supply: scenario.source.supply,
                destination_supply: scenario.destination.supply,
                source_local_security: scenario.source.local_security,
                destination_local_security: scenario.destination.local_security,
                threshold_crossed: crossed,
            },
            sead_threshold_accepted: crossed,
            sead_emit_event_emitted: crossed,
            boundary_request_materialized: crossed,
            production_path_invoked: crossed,
            production_path_input: if crossed { Some(scenario) } else { None },
            production_path_checksum: None,
        });
        if crossed {
            scenario.source.disruption = saturating_sub_i64(scenario.disruption_threshold, 1);
            scenario.source.local_security = saturating_add_i64(scenario.local_security_floor, 1);
            invoked = invoked + 1;
        } else {
            scenario.source.disruption = after;
        }
        k = k + 1;
    }
    (reports, invoked)
}

/// The report frame: identity and the flags taken from the input.
pub open spec fn run_frame(r: &DefaultSchedule0080RunReport, input: &DefaultSchedule0080Input, disabled: bool) -> bool {
    &&& r.schedule_id == DEFAULT_SCHEDULE_0080_0_ID
    &&& r.status == DEFAULT_SCHEDULE_0080_0_STATUS_1A_PASS
    &&& r.scenario == DEFAULT_SCHEDULE_0080_0_SCENARIO
    &&& r.explicit_opt_in == input.surface.gate.explicit_opt_in
    &&& r.default_off == !input.surface.gate.enabled_by_default
    &&& r.disabled_no_op == disabled
    &&& r.scenario_scoped_only
    &&& r.scenario_schedule_registered == (input.surface.scenario_schedule_registered && !disabled)
    &&& r.global_default_schedule_registered == input.surface.global_default_schedule_registered
    &&& !r.gameplay_surface_present
    &&& !r.semantic_or_raw_wgsl_present
    &&& !r.cpu_planner_used
    &&& !r.external_move_script_used
    &&& !r.hard_currency_markets_trade_aibudget
    &&& !r.nested_resource_flow
    &&& !r.clausething_dependency_present
    &&& !r.closed_ladders_reopened
    &&& !r.pirate_behavior_implemented
    &&& r.requested_step_count == input.step_count
    &&& r.executed_step_count == r.step_reports@.len()
    &&& r.bounded_local_economy_only
}

/// The diagnostics of the surface and the refused requests, in check order.
pub open spec fn run_diagnostics(input: &DefaultSchedule0080Input) -> Seq<&'static str> {
    forbidden_diagnostics(surface_diagnostics(Seq::empty(), input.surface), input.forbidden)
}

/// A report with the frame of `input`, checksum not yet set.
fn base_report(
    input: &DefaultSchedule0080Input,
    admitted: bool,
    diagnostics: Vec<&'static str>,
    disabled_no_op: bool,
    step_reports: Vec<DefaultSchedule0080StepReport>,
    invocations: u32,
) -> (r: DefaultSchedule0080RunReport)
    requires
        step_reports@.len() <= u32::MAX,
    ensures
        run_frame(&r, input, disabled_no_op),
        r.admitted == admitted,
        r.diagnostics@ == diagnostics@,
        r.step_reports@ == step_reports@,
        r.production_path_invocation_count == invocations,
        r.boundary_request_count == invocations,
        r.production_checksums_pending == (invocations > 0),
        r.deterministic_replay_checksum == 0,
{
    let executed = step_reports.len() as u32;
    DefaultSchedule0080RunReport {
        schedule_id: DEFAULT_SCHEDULE_0080_0_ID,
        status: DEFAULT_SCHEDULE_0080_0_STATUS_1A_PASS,
        scenario: DEFAULT_SCHEDULE_0080_0_SCENARIO,
        admitted,
        diagnostics,
        explicit_opt_in: input.surface.gate.explicit_opt_in,
        default_off: !input.surface.gate.enabled_by_default,
        disabled_no_op,
        scenario_scoped_only: true,
        scenario_schedule_registered: input.surface.scenario_schedule_registered && !disabled_no_op,
        global_default_schedule_registered: input.surface.global_default_schedule_registered,
        gameplay_surface_present: false,
        semantic_or_raw_wgsl_present: false,
        cpu_planner_used: false,
        external_move_script_used: false,
        hard_currency_markets_trade_aibudget: false,
        nested_resource_flow: false,
        clausething_dependency_present: false,
        closed_ladders_reopened: false,
        pirate_behavior_implemented: false,
        requested_step_count: input.step_count,
        executed_step_count: executed,
        production_path_invocation_count: invocations,
        boundary_request_count: invocations,
        bounded_local_economy_only: true,
        step_reports,
        production_checksums_pending: invocations > 0,
        deterministic_replay_checksum: 0,
    }
}

/// What `run_default_schedule_0080_0` returns for `input`.
pub open spec fn run_default_schedule_0080_0_post(input: &DefaultSchedule0080Input, r: DefaultSchedule0080RunReport) -> bool {
    &&& run_diagnostics(input).len() > 0 ==> {
        &&& run_frame(&r, input, false)
        &&& !r.admitted
        &&& r.diagnostics@ == run_diagnostics(input)
        &&& r.step_reports@.len() == 0
        &&& r.production_path_invocation_count == 0
        &&& !r.production_checksums_pending
        &&& r.deterministic_replay_checksum == 0
    }
    &&& run_diagnostics(input).len() == 0 && !input.surface.gate.explicit_opt_in ==> {
        &&& run_frame(&r, input, true)
        &&& r.admitted
        &&& r.diagnostics@.len() == 0
        &&& r.step_reports@.len() == 0
        &&& r.production_path_invocation_count == 0
        &&& !r.production_checksums_pending
        &&& r.deterministic_replay_checksum == 0
    }
    &&& run_diagnostics(input).len() == 0 && input.surface.gate.explicit_opt_in ==> {
        let n = input.step_count as nat;
        let crossed = crossed_count(input.scenario, input.patrol_disruption_reduction_per_step, n);
        &&& run_frame(&r, input, false)
        &&& r.admitted
        &&& r.diagnostics@.len() == 0
        &&& r.step_reports@ == step_reports_spec(input.scenario, input.patrol_disruption_reduction_per_step, n)
        &&& r.production_path_invocation_count == crossed
        &&& r.boundary_request_count == crossed
        &&& r.production_checksums_pending == (crossed > 0)
        &&& r.deterministic_replay_checksum == run_checksum(&r)
    }
}

/// Runs the scenario-scoped schedule.
///
/// Surface and request diagnostics refuse the input; a closed gate is a no-op; otherwise each
/// of the `step_count` steps is recorded (see `step_report_spec`), the scenario handed to the
/// production path on each crossed step. The checksum covers the counts and the steps; the
/// production checksums are attached by `complete_default_schedule_0080_0`.
pub fn run_default_schedule_0080_0(input: &DefaultSchedule0080Input) -> (r: DefaultSchedule0080RunReport)
    ensures
        run_default_schedule_0080_0_post(input, r),
{
    let mut diagnostics: Vec<&'static str> = Vec::new();
    validate_surface(&input.surface, &mut diagnostics);
    validate_forbidden(&input.forbidden, &mut diagnostics);
    if diagnostics.len() > 0 {
        return base_report(input, false, diagnostics, false, Vec::new(), 0);
    }
    if !input.surface.gate.explicit_opt_in {
        return base_report(input, true, diagnostics, true, Vec::new(), 0);
    }
    let (steps, invocations) = run_steps(input);
    let mut report = base_report(input, true, diagnostics, false, steps, invocations);
    report.deterministic_replay_checksum = checksum_run(&report);
    report
}

/// Runs the opted-in schedule over `scenario` twice.
pub fn replay_default_schedule_0080_0(scenario: LocalPatrolEconomyScenario) -> (r: (DefaultSchedule0080RunReport, DefaultSchedule0080RunReport))
    ensures
        r.0.step_reports@ == r.1.step_reports@,
        r.0.production_path_invocation_count == r.1.production_path_invocation_count,
        r.0.deterministic_replay_checksum == r.1.deterministic_replay_checksum,
        r.0.admitted && r.1.admitted,
        run_default_schedule_0080_0_post(
            &DefaultSchedule0080Input {
                surface: opted_in_surface(),
                scenario,
                step_count: 3,
                patrol_disruption_reduction_per_step: 1,
                forbidden: no_forbidden_requests(),
            },
            r.0,
        ),
{
    let input = DefaultSchedule0080Input::explicit_opt_in(scenario);
    proof {
        assert(run_diagnostics(&input) =~= Seq::<&'static str>::empty()) by {
            broadcast use crate::diagnostics::lemma_flag_diag;
        }
    }
    let a = run_default_schedule_0080_0(&input);
    let b = run_default_schedule_0080_0(&input);
    (a, b)
}

/// The step reports with the production checksum of each invoked step attached.
pub open spec fn with_production_checksums(
    steps: Seq<DefaultSchedule0080StepReport>,
    checksums: Seq<u64>,
) -> Seq<DefaultSchedule0080StepReport> {
    Seq::new(steps.len(), |k: int| if steps[k].production_path_invoked {
        DefaultSchedule0080StepReport { production_path_checksum: Some(checksums[k]), ..steps[k] }
    } else {
        steps[k]
    })
}

/// Attaches the production path's replay checksum to each step that invoked it (`checksums`
/// holds one entry per step; entries of other steps are ignored) and recomputes the run checksum.
pub fn complete_default_schedule_0080_0(
    report: DefaultSchedule0080RunReport,
    checksums: &Vec<u64>,
) -> (r: DefaultSchedule0080RunReport)
    requires
        report.production_checksums_pending,
        checksums@.len() == report.step_reports@.len(),
    ensures
        r.step_reports@ == with_production_checksums(report.step_reports@, checksums@),
        !r.production_checksums_pending,
        r.deterministic_replay_checksum == run_checksum(&r),
        r.admitted == report.admitted,
        r.diagnostics@ == report.diagnostics@,
        r.requested_step_count == report.requested_step_count,
        r.executed_step_count == report.executed_step_count,
        r.production_path_invocation_count == report.production_path_invocation_count,
        r.boundary_request_count == report.boundary_request_count,
{
    let mut r = report;
    let mut steps: Vec<DefaultSchedule0080StepReport> = Vec::new();
    let mut k: usize = 0;
    while k < r.step_reports.len()
        invariant
            k <= r.step_reports@.len(),
            r.step_reports@ == report.step_reports@,
            checksums@.len() == report.step_reports@.len(),
            steps@ =~= with_production_checksums(report.step_reports@, checksums@).take(k as int),
        decreases r.step_reports@.len() - k,
    {
        let st = r.step_reports[k];
        if st.production_path_invoked {
            steps.push(DefaultSchedule0080StepReport { production_path_checksum: Some(checksums[k]), ..st });
        } else {
            steps.push(st);
        }
        k = k + 1;
    }
    r.step_reports = steps;
    r.production_checksums_pending = false;
    r.deterministic_replay_checksum = checksum_run(&r);
    r
}

/// The schedule writes only the source node: the destination, the thresholds and the source's
/// supply and maintenance never change, and after a step that crossed the threshold the source
/// sits just inside it.
pub proof fn lemma_schedule_touches_only_the_source(sc0: LocalPatrolEconomyScenario, reduction: i64, k: nat)
    ensures
        scenario_at(sc0, reduction, k).destination == sc0.destination,
        scenario_at(sc0, reduction, k).disruption_threshold == sc0.disruption_threshold,
        scenario_at(sc0, reduction, k).local_security_floor == sc0.local_security_floor,
        scenario_at(sc0, reduction, k).source.supply == sc0.source.supply,
        scenario_at(sc0, reduction, k).source.maintenance == sc0.source.maintenance,
        k > 0 && threshold_crossed_spec(scenario_at(sc0, reduction, (k - 1) as nat)) ==> {
            &&& scenario_at(sc0, reduction, k).source.disruption == sat_sub_i64(sc0.disruption_threshold, 1)
            &&& scenario_at(sc0, reduction, k).source.local_security == sat_add_i64(sc0.local_security_floor, 1)
        },
    decreases k,
{
    if k > 0 {
        lemma_schedule_touches_only_the_source(sc0, reduction, (k - 1) as nat);
    }
}

/// A patrol pass never leaves the source disruption negative, and never raises it when the
/// reduction is not negative.
pub proof fn lemma_patrol_pass_is_bounded(d: i64, reduction: i64)
    ensures
        decayed_disruption(d, reduction) >= 0,
        reduction >= 0 && d >= 0 ==> decayed_disruption(d, reduction) <= d,
{
}

/// Number of step reports that crossed the threshold.
pub open spec fn crossed_steps(steps: Seq<DefaultSchedule0080StepReport>) -> nat
    decreases steps.len(),
{
    if steps.len() == 0 {
        0
    } else {
        crossed_steps(steps.drop_last()) + if steps.last().step.threshold_crossed { 1nat } else { 0nat }
    }
}

proof fn lemma_crossed_steps(sc0: LocalPatrolEconomyScenario, reduction: i64, n: nat)
    ensures
        crossed_steps(step_reports_spec(sc0, reduction, n)) == crossed_count(sc0, reduction, n),
    decreases n,
{
    if n > 0 {
        lemma_crossed_steps(sc0, reduction, (n - 1) as nat);
        assert(step_reports_spec(sc0, reduction, n).drop_last() =~= step_reports_spec(sc0, reduction, (n - 1) as nat));
    }
}

/// An opted-in schedule with no diagnostics runs one step per configured step, in order: each
/// step invokes the production path exactly when it crossed the threshold, the source disruption
/// after it is the one before reduced by the patrol pass (saturating, never below 0), and the
/// production-path invocations and boundary requests both count the crossed steps.
pub proof fn lemma_schedule_steps(input: &DefaultSchedule0080Input, r: DefaultSchedule0080RunReport)
    requires
        run_default_schedule_0080_0_post(input, r),
        run_diagnostics(input).len() == 0,
        input.surface.gate.explicit_opt_in,
    ensures
        r.admitted,
        r.step_reports@.len() == input.step_count,
        forall|i: int| 0 <= i < r.step_reports@.len() ==> {
            let s = #[trigger] r.step_reports@[i];
            &&& s.step.step_index == i
            &&& s.production_path_invoked == s.step.threshold_crossed
            &&& s.step.source_disruption_after
                == decayed_disruption(s.step.source_disruption_before, input.patrol_disruption_reduction_per_step)
        },
        r.production_path_invocation_count == crossed_steps(r.step_reports@),
        r.boundary_request_count == crossed_steps(r.step_reports@),
{
    lemma_crossed_steps(input.scenario, input.patrol_disruption_reduction_per_step, input.step_count as nat);
}

/// The patrol threshold is crossed exactly when one of its four triggers holds: the source is
/// disrupted to the threshold, its local security is at or below the floor, its supply is
/// below its maintenance, or the destination is disrupted to the threshold. Each trigger alone
/// crosses it.
pub proof fn lemma_patrol_threshold_triggers(sc: LocalPatrolEconomyScenario)
    ensures
        sc.source.disruption >= sc.disruption_threshold ==> threshold_crossed_spec(sc),
        sc.source.local_security <= sc.local_security_floor ==> threshold_crossed_spec(sc),
        sc.source.supply < sc.source.maintenance ==> threshold_crossed_spec(sc),
        sc.destination.disruption >= sc.disruption_threshold ==> threshold_crossed_spec(sc),
        threshold_crossed_spec(sc) ==> sc.source.disruption >= sc.disruption_threshold
            || sc.source.local_security <= sc.local_security_floor
            || sc.source.supply < sc.source.maintenance
            || sc.destination.disruption >= sc.disruption_threshold,
{
}

} // verus!
