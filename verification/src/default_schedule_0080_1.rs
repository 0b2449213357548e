//! Scenario-scoped Nested Starmap schedule: gate, session surface, refused requests, and the ship
//! factions with their owners.
//!
//! The schedule run consumes the production path's report, which is computed outside this
//! library and handed in as the values the schedule reads of it.
use crate::diagnostics::{flag_diag, push_if};
use crate::replay_hash::{fnv_append_u64, fnv_words, FNV_OFFSET_BASIS};
use vstd::prelude::*;

verus! {

pub const DEFAULT_SCHEDULE_0080_1_ID: &'static str = "DEFAULT-SCHEDULE-0080-1";
pub const DEFAULT_SCHEDULE_0080_1_STATUS_PASS: &'static str = "IMPLEMENTED / PASS - scenario-scoped Nested Starmap SEAD-sourced schedule/movement";
pub const DEFAULT_SCHEDULE_0080_1_SCENARIO: &'static str = "Nested Starmap";

/// Opt-in gate.
#[derive(Clone, Copy, Debug, PartialEq, Eq)]
pub struct DefaultSchedule0081Gate {
    pub explicit_opt_in: bool,
    pub enabled_by_default: bool,
}

impl Default for DefaultSchedule0081Gate {
    /// Closed gate.
    fn default() -> (r: Self)
        ensures
            !r.explicit_opt_in && !r.enabled_by_default,
    {
        DefaultSchedule0081Gate { explicit_opt_in: false, enabled_by_default: false }
    }
}

impl DefaultSchedule0081Gate {
    /// Opted in, still not enabled by default.
    pub fn explicit_opt_in() -> (r: Self)
        ensures
            r.explicit_opt_in && !r.enabled_by_default,
    {
        DefaultSchedule0081Gate { explicit_opt_in: true, enabled_by_default: false }
    }
}

/// Session surface.
#[derive(Clone, Copy, Debug, PartialEq, Eq)]
pub struct DefaultSchedule0081Surface {
    pub gate: DefaultSchedule0081Gate,
    pub scenario_schedule_registered: bool,
    pub default_session_pass_graph_wiring: bool,
    pub global_default_schedule: bool,
    pub observation_control_demo_0080_1: bool,
    pub realtime_loop: bool,
    pub ui_framework: bool,
    pub async_background_loop: bool,
}

/// `acc` followed by the diagnostics for the surface flags, in check order.
pub open spec fn surface_diagnostics(acc: Seq<&'static str>, s: DefaultSchedule0081Surface) -> Seq<&'static str> {
    acc
        + flag_diag(s.gate.enabled_by_default, "default_schedule_0080_1_default_on_behavior_rejected")
        + flag_diag(s.default_session_pass_graph_wiring, "default_session_pass_graph_wiring")
        + flag_diag(s.global_default_schedule, "global_default_schedule")
        + flag_diag(s.observation_control_demo_0080_1, "observation_control_demo_0080_1")
        + flag_diag(s.realtime_loop || s.ui_framework, "realtime_loop_or_ui")
        + flag_diag(s.async_background_loop, "async_background_loop")
}

/// The closed session surface: nothing registered or wired.
pub open spec fn closed_surface() -> DefaultSchedule0081Surface {
    DefaultSchedule0081Surface {
        gate: DefaultSchedule0081Gate { explicit_opt_in: false, enabled_by_default: false },
        scenario_schedule_registered: false,
        default_session_pass_graph_wiring: false,
        global_default_schedule: false,
        observation_control_demo_0080_1: false,
        realtime_loop: false,
        ui_framework: false,
        async_background_loop: false,
    }
}

/// The opted-in surface: gate open and the scenario schedule registered, nothing else wired.
pub open spec fn opted_in_surface() -> DefaultSchedule0081Surface {
    DefaultSchedule0081Surface {
        gate: DefaultSchedule0081Gate { explicit_opt_in: true, enabled_by_default: false },
        scenario_schedule_registered: true,
        ..closed_surface()
    }
}

impl Default for DefaultSchedule0081Surface {
    /// Nothing registered or wired, gate closed.
    fn default() -> (r: Self)
        ensures
            !r.gate.explicit_opt_in,
            !r.scenario_schedule_registered,
            surface_diagnostics(Seq::empty(), r).len() == 0,
            r == closed_surface(),
    {
        broadcast use crate::diagnostics::lemma_flag_diag;
        DefaultSchedule0081Surface {
            gate: DefaultSchedule0081Gate::default(),
            scenario_schedule_registered: false,
            default_session_pass_graph_wiring: false,
            global_default_schedule: false,
            observation_control_demo_0080_1: false,
            realtime_loop: false,
            ui_framework: false,
            async_background_loop: false,
        }
    }
}

impl DefaultSchedule0081Surface {
    /// The default session: nothing registered or wired, gate closed.
    pub fn default_simsession() -> (r: Self)
        ensures
            !r.gate.explicit_opt_in,
            !r.scenario_schedule_registered,
            surface_diagnostics(Seq::empty(), r).len() == 0,
            r == closed_surface(),
    {
        Self::default()
    }

    /// Opted in, with the scenario registration; nothing else wired.
    pub fn with_explicit_opt_in() -> (r: Self)
        ensures
            r.gate.explicit_opt_in,
            r.scenario_schedule_registered,
            surface_diagnostics(Seq::empty(), r).len() == 0,
            r == opted_in_surface(),
    {
        broadcast use crate::diagnostics::lemma_flag_diag;
        DefaultSchedule0081Surface {
            gate: DefaultSchedule0081Gate::explicit_opt_in(),
            scenario_schedule_registered: true,
            default_session_pass_graph_wiring: false,
            global_default_schedule: false,
            observation_control_demo_0080_1: false,
            realtime_loop: false,
            ui_framework: false,
            async_background_loop: false,
        }
    }
}

/// Requests that must be refused.
#[derive(Clone, Copy, Debug, PartialEq, Eq)]
pub struct DefaultSchedule0081ForbiddenRequests {
    pub observation_control_demo_0080_1: bool,
    pub direct_movement_command: bool,
    pub external_boundary_request: bool,
    pub cpu_planner_urgency_commitment: bool,
    pub default_session_pass_graph_wiring: bool,
    pub global_default_schedule: bool,
    pub realtime_loop_or_ui: bool,
    pub semantic_or_raw_wgsl: bool,
    pub new_shader_or_gpu_kernel: bool,
    pub hard_currency_markets_trade_aibudget: bool,
    pub nested_resource_flow: bool,
    pub unbounded_factions: bool,
    pub owner_entity_as_spatial_parent: bool,
    pub capture_as_reparenting: bool,
    pub clausething_dependency: bool,
    pub simthing_spec_alteration: bool,
    pub invariant_edit: bool,
    pub passive_proof_wrapper: bool,
    pub general_scheduler: bool,
}

/// `acc` followed by the diagnostics for the forbidden requests, in check order.
pub open spec fn forbidden_diagnostics(acc: Seq<&'static str>, f: DefaultSchedule0081ForbiddenRequests) -> Seq<&'static str> {
    acc
        + flag_diag(f.observation_control_demo_0080_1, "observation_control_demo_0080_1")
        + flag_diag(f.direct_movement_command, "direct_movement_command")
        + flag_diag(f.external_boundary_request, "external_boundary_request")
        + flag_diag(f.cpu_planner_urgency_commitment, "cpu_planner_urgency_commitment")
        + flag_diag(f.default_session_pass_graph_wiring, "default_session_pass_graph_wiring")
        + flag_diag(f.global_default_schedule, "global_default_schedule")
        + flag_diag(f.realtime_loop_or_ui, "realtime_loop_or_ui")
        + flag_diag(f.semantic_or_raw_wgsl, "semantic_or_raw_wgsl")
        + flag_diag(f.new_shader_or_gpu_kernel, "new_shader_or_gpu_kernel")
        + flag_diag(f.hard_currency_markets_trade_aibudget, "hard_currency_markets_trade_aibudget")
        + flag_diag(f.nested_resource_flow, "nested_resource_flow")
        + flag_diag(f.unbounded_factions, "unbounded_factions")
        + flag_diag(f.owner_entity_as_spatial_parent, "owner_entity_as_spatial_parent")
        + flag_diag(f.capture_as_reparenting, "capture_as_reparenting")
        + flag_diag(f.clausething_dependency, "clausething_dependency")
        + flag_diag(f.simthing_spec_alteration, "simthing_spec_alteration")
        + flag_diag(f.invariant_edit, "invariant_edit")
        + flag_diag(f.passive_proof_wrapper, "passive_proof_wrapper")
        + flag_diag(f.general_scheduler, "general_scheduler")
}

/// No refused request raised.
pub open spec fn no_forbidden_requests() -> DefaultSchedule0081ForbiddenRequests {
    DefaultSchedule0081ForbiddenRequests {
        observation_control_demo_0080_1: false,
        direct_movement_command: false,
        external_boundary_request: false,
        cpu_planner_urgency_commitment: false,
        default_session_pass_graph_wiring: false,
        global_default_schedule: false,
        realtime_loop_or_ui: false,
        semantic_or_raw_wgsl: false,
        new_shader_or_gpu_kernel: false,
        hard_currency_markets_trade_aibudget: false,
        nested_resource_flow: false,
        unbounded_factions: false,
        owner_entity_as_spatial_parent: false,
        capture_as_reparenting: false,
        clausething_dependency: false,
        simthing_spec_alteration: false,
        invariant_edit: false,
        passive_proof_wrapper: false,
        general_scheduler: false,
    }
}

impl Default for DefaultSchedule0081ForbiddenRequests {
    /// Nothing requested.
    fn default() -> (r: Self)
        ensures
            forbidden_diagnostics(Seq::empty(), r).len() == 0,
            r == no_forbidden_requests(),
    {
        broadcast use crate::diagnostics::lemma_flag_diag;
        DefaultSchedule0081ForbiddenRequests {
            observation_control_demo_0080_1: false,
            direct_movement_command: false,
            external_boundary_request: false,
            cpu_planner_urgency_commitment: false,
            default_session_pass_graph_wiring: false,
            global_default_schedule: false,
            realtime_loop_or_ui: false,
            semantic_or_raw_wgsl: false,
            new_shader_or_gpu_kernel: false,
            hard_currency_markets_trade_aibudget: false,
            nested_resource_flow: false,
            unbounded_factions: false,
            owner_entity_as_spatial_parent: false,
            capture_as_reparenting: false,
            clausething_dependency: false,
            simthing_spec_alteration: false,
            invariant_edit: false,
            passive_proof_wrapper: false,
            general_scheduler: false,
        }
    }
}

/// Appends the surface diagnostics, in check order.
pub fn validate_surface(surface: &DefaultSchedule0081Surface, diagnostics: &mut Vec<&'static str>)
    ensures
        final(diagnostics)@ == surface_diagnostics(old(diagnostics)@, *surface),
{
    push_if(diagnostics, surface.gate.enabled_by_default, "default_schedule_0080_1_default_on_behavior_rejected");
    push_if(diagnostics, surface.default_session_pass_graph_wiring, "default_session_pass_graph_wiring");
    push_if(diagnostics, surface.global_default_schedule, "global_default_schedule");
    push_if(diagnostics, surface.observation_control_demo_0080_1, "observation_control_demo_0080_1");
    push_if(diagnostics, surface.realtime_loop || surface.ui_framework, "realtime_loop_or_ui");
    push_if(diagnostics, surface.async_background_loop, "async_background_loop");
}

#[verifier::rlimit(60)]
/// Appends the forbidden-request diagnostics, in check order.
pub fn validate_forbidden(forbidden: &DefaultSchedule0081ForbiddenRequests, diagnostics: &mut Vec<&'static str>)
    ensures
        final(diagnostics)@ == forbidden_diagnostics(old(diagnostics)@, *forbidden),
{
    push_if(diagnostics, forbidden.observation_control_demo_0080_1, "observation_control_demo_0080_1");
    push_if(diagnostics, forbidden.direct_movement_command, "direct_movement_command");
    push_if(diagnostics, forbidden.external_boundary_request, "external_boundary_request");
    push_if(diagnostics, forbidden.cpu_planner_urgency_commitment, "cpu_planner_urgency_commitment");
    push_if(diagnostics, forbidden.default_session_pass_graph_wiring, "default_session_pass_graph_wiring");
    push_if(diagnostics, forbidden.global_default_schedule, "global_default_schedule");
    push_if(diagnostics, forbidden.realtime_loop_or_ui, "realtime_loop_or_ui");
    push_if(diagnostics, forbidden.semantic_or_raw_wgsl, "semantic_or_raw_wgsl");
    push_if(diagnostics, forbidden.new_shader_or_gpu_kernel, "new_shader_or_gpu_kernel");
    push_if(diagnostics, forbidden.hard_currency_markets_trade_aibudget, "hard_currency_markets_trade_aibudget");
    push_if(diagnostics, forbidden.nested_resource_flow, "nested_resource_flow");
    push_if(diagnostics, forbidden.unbounded_factions, "unbounded_factions");
    push_if(diagnostics, forbidden.owner_entity_as_spatial_parent, "owner_entity_as_spatial_parent");
    push_if(diagnostics, forbidden.capture_as_reparenting, "capture_as_reparenting");
    push_if(diagnostics, forbidden.clausething_dependency, "clausething_dependency");
    push_if(diagnostics, forbidden.simthing_spec_alteration, "simthing_spec_alteration");
    push_if(diagnostics, forbidden.invariant_edit, "invariant_edit");
    push_if(diagnostics, forbidden.passive_proof_wrapper, "passive_proof_wrapper");
    push_if(diagnostics, forbidden.general_scheduler, "general_scheduler");
}


/// Steps the schedule runs when opted in.
pub const DEFAULT_SCHEDULE_0081_STEP_COUNT: u32 = 3;
/// Identity of the Terran ship that moves.
pub const DEFAULT_SCHEDULE_0081_TERRAN_SHIP_ID: u64 = 80_301;
/// Identity of the pirate ship that moves.
pub const DEFAULT_SCHEDULE_0081_PIRATE_SHIP_ID: u64 = 80_401;
/// Owner of the Terran faction.
pub const DEFAULT_SCHEDULE_0081_TERRAN_OWNER_ID: u64 = 80_100;
/// Owner of the pirate faction.
pub const DEFAULT_SCHEDULE_0081_PIRATE_OWNER_ID: u64 = 80_200;

/// Schedule input: surface, refused requests, and the bounded step count and movement
/// threshold. The production-path input the schedule hands on is carried by the caller.
#[derive(Clone, Copy, Debug, PartialEq, Eq)]
pub struct DefaultSchedule0081Input {
    pub surface: DefaultSchedule0081Surface,
    pub step_count: u32,
    pub movement_threshold: i64,
    pub forbidden: DefaultSchedule0081ForbiddenRequests,
}

impl DefaultSchedule0081Input {
    /// The default session: gate closed, no steps, threshold 0.
    pub fn default_simsession() -> (r: Self)
        ensures
            r == (DefaultSchedule0081Input {
                surface: closed_surface(),
                step_count: 0,
                movement_threshold: 0,
                forbidden: no_forbidden_requests(),
            }),
    {
        DefaultSchedule0081Input {
            surface: DefaultSchedule0081Surface::default_simsession(),
            step_count: 0,
            movement_threshold: 0,
            forbidden: DefaultSchedule0081ForbiddenRequests::default(),
        }
    }

    /// Opted in with the default step count and threshold 0.
    pub fn explicit_opt_in() -> (r: Self)
        ensures
            r == (DefaultSchedule0081Input {
                surface: opted_in_surface(),
                step_count: DEFAULT_SCHEDULE_0081_STEP_COUNT,
                movement_threshold: 0,
                forbidden: no_forbidden_requests(),
            }),
    {
        DefaultSchedule0081Input {
            surface: DefaultSchedule0081Surface::with_explicit_opt_in(),
            step_count: DEFAULT_SCHEDULE_0081_STEP_COUNT,
            movement_threshold: 0,
            forbidden: DefaultSchedule0081ForbiddenRequests::default(),
        }
    }

    /// Opted in, with the movement threshold raised to 1.
    pub fn explicit_opt_in_threshold_false() -> (r: Self)
        ensures
            r == (DefaultSchedule0081Input {
                surface: opted_in_surface(),
                step_count: DEFAULT_SCHEDULE_0081_STEP_COUNT,
                movement_threshold: 1,
                forbidden: no_forbidden_requests(),
            }),
    {
        let mut input = Self::explicit_opt_in();
        input.movement_threshold = 1;
        input
    }
}

/// Faction of a ship that moves.
#[derive(Clone, Copy, Debug, PartialEq, Eq)]
pub enum DefaultSchedule0081ShipFaction {
    Terran,
    Pirate,
}

/// Owner of each faction.
pub open spec fn faction_owner(f: DefaultSchedule0081ShipFaction) -> u64 {
    match f {
        DefaultSchedule0081ShipFaction::Terran => DEFAULT_SCHEDULE_0081_TERRAN_OWNER_ID,
        DefaultSchedule0081ShipFaction::Pirate => DEFAULT_SCHEDULE_0081_PIRATE_OWNER_ID,
    }
}

/// Stable code of each faction in replay checksums.
pub open spec fn faction_code(f: DefaultSchedule0081ShipFaction) -> u64 {
    match f {
        DefaultSchedule0081ShipFaction::Terran => 1,
        DefaultSchedule0081ShipFaction::Pirate => 2,
    }
}

impl DefaultSchedule0081ShipFaction {
    /// The faction's owner.
    pub fn owner_id(self) -> (r: u64)
        ensures
            r == faction_owner(self),
    {
        match self {
            DefaultSchedule0081ShipFaction::Terran => DEFAULT_SCHEDULE_0081_TERRAN_OWNER_ID,
            DefaultSchedule0081ShipFaction::Pirate => DEFAULT_SCHEDULE_0081_PIRATE_OWNER_ID,
        }
    }

    /// The faction's stable code.
    pub fn stable_code(self) -> (r: u64)
        ensures
            r == faction_code(self),
    {
        match self {
            DefaultSchedule0081ShipFaction::Terran => 1,
            DefaultSchedule0081ShipFaction::Pirate => 2,
        }
    }
}


/// One clearing of the production path's economy report, as the schedule reads it.
#[derive(Clone, Copy, Debug, PartialEq, Eq)]
pub struct ProductionPath0081Clearing {
    pub starsystem_index: u8,
    pub terran_owned: bool,
    pub pirate_present: bool,
    pub security_after: i64,
}

/// What the schedule reads of a production-path report: its admission flags, the composite gap
/// sum of its SEAD terms, the clearings of its economy report (when there is one), and its
/// replay checksum.
#[derive(Clone, Debug, PartialEq, Eq)]
pub struct ProductionPath0081Summary {
    pub admitted: bool,
    pub explicit_opt_in: bool,
    pub disabled_no_op: bool,
    pub diagnostics_empty: bool,
    pub atlas_report_admitted_pass: bool,
    pub econ_scale_report_admitted_pass: bool,
    pub nested_starmap_instantiated: bool,
    pub pirate_full_economy_faction_visible: bool,
    pub factions_include_pirate: bool,
    pub composite_gap_sum: i64,
    pub clearings: Option<Vec<ProductionPath0081Clearing>>,
    pub deterministic_replay_checksum: u64,
}

/// Whether the production path passed: admitted, opted in, not a no-op, without diagnostics, with
/// both sub-reports admitted and the nested starmap instantiated.
pub open spec fn production_passed(p: &ProductionPath0081Summary) -> bool {
    p.admitted && p.explicit_opt_in && !p.disabled_no_op && p.diagnostics_empty
        && p.atlas_report_admitted_pass && p.econ_scale_report_admitted_pass
        && p.nested_starmap_instantiated
}

/// One schedule step as recorded in the report.
#[derive(Clone, Copy, Debug, PartialEq, Eq)]
pub struct DefaultSchedule0081Step {
    pub step_index: u32,
    pub mover_id: Option<u64>,
    pub mover_faction: Option<DefaultSchedule0081ShipFaction>,
    pub start_starsystem: Option<u8>,
    pub end_starsystem: Option<u8>,
}

/// The boundary decision of a step.
#[derive(Clone, Copy, Debug, PartialEq, Eq)]
pub struct DefaultSchedule0081BoundaryDecision {
    pub threshold_input: i64,
    pub threshold: i64,
    pub threshold_accepted: bool,
    pub event_emitted: bool,
    pub boundary_request_materialized: bool,
    pub direct_movement_command: bool,
    pub external_boundary_request: bool,
    pub cpu_planner_urgency_commitment: bool,
}

/// A ship movement routed through the mobility substrate.
#[derive(Clone, Copy, Debug, PartialEq, Eq)]
pub struct DefaultSchedule0081MovementOutcome {
    pub mover_id: u64,
    pub mover_faction: DefaultSchedule0081ShipFaction,
    pub owner_id_before: u64,
    pub owner_id_after: u64,
    pub owner_overlay_preserved: bool,
    pub identity_preserved: bool,
    pub start_starsystem: u8,
    pub end_starsystem: u8,
    pub membership_updated: bool,
    pub membership_updated_without_reparenting: bool,
    pub owner_entity_as_spatial_parent: bool,
    pub capture_as_reparenting: bool,
    pub routed_through_mobility_substrate: bool,
    pub existing_mobility_transfer_posture: bool,
}

/// A step with its decision, its movement, and the production-path checksum it consumed.
#[derive(Clone, Copy, Debug, PartialEq, Eq)]
pub struct DefaultSchedule0081StepReport {
    pub step: DefaultSchedule0081Step,
    pub decision: DefaultSchedule0081BoundaryDecision,
    pub movement: Option<DefaultSchedule0081MovementOutcome>,
    pub production_path_invoked: bool,
    pub production_path_checksum: Option<u64>,
    pub used_sead_composite_gap_terms: bool,
    pub consumed_atlas_residency_report: bool,
    pub consumed_faction_index_econ_report: bool,
}

/// Whether a clearing is a candidate for the given faction: pirates present, and owned by the
/// Terrans exactly when the mover is Terran.
pub open spec fn candidate_for(c: ProductionPath0081Clearing, terran: bool) -> bool {
    c.pirate_present && c.terran_owned == terran
}

/// The first candidate clearing with the least security after clearing.
pub open spec fn least_secure(cs: Seq<ProductionPath0081Clearing>, terran: bool) -> Option<ProductionPath0081Clearing>
    decreases cs.len(),
{
    if cs.len() == 0 {
        None
    } else {
        let prev = least_secure(cs.drop_last(), terran);
        let c = cs.last();
        if candidate_for(c, terran) && (prev is None || c.security_after < prev->0.security_after) {
            Some(c)
        } else {
            prev
        }
    }
}

/// Where a ship of the given faction moves from `start`: the least secure candidate clearing
/// when there is one other than `start`, else the faction's fallback starsystem (1 for Terrans,
/// 2 for pirates).
pub open spec fn destination_spec(p: &ProductionPath0081Summary, terran: bool, start: u8) -> u8 {
    let fallback: u8 = if terran { 1 } else { 2 };
    match p.clearings {
        Some(cs) => match least_secure(cs@, terran) {
            Some(c) => if c.starsystem_index != start { c.starsystem_index } else { fallback },
            None => fallback,
        },
        None => fallback,
    }
}

/// The decision of every step: the composite gap sum against the movement threshold.
pub open spec fn decision_spec(p: &ProductionPath0081Summary, threshold: i64) -> DefaultSchedule0081BoundaryDecision {
    let accepted = p.composite_gap_sum >= threshold;
    DefaultSchedule0081BoundaryDecision {
        threshold_input: p.composite_gap_sum,
        threshold,
        threshold_accepted: accepted,
        event_emitted: accepted,
        boundary_request_materialized: accepted,
        direct_movement_command: false,
        external_boundary_request: false,
        cpu_planner_urgency_commitment: false,
    }
}

/// The movement of a ship of `faction` from `start` to `end`, keeping its identity and owner.
pub open spec fn movement_spec(mover_id: u64, faction: DefaultSchedule0081ShipFaction, start: u8, end: u8) -> DefaultSchedule0081MovementOutcome {
    DefaultSchedule0081MovementOutcome {
        mover_id,
        mover_faction: faction,
        owner_id_before: faction_owner(faction),
        owner_id_after: faction_owner(faction),
        owner_overlay_preserved: true,
        identity_preserved: true,
        start_starsystem: start,
        end_starsystem: end,
        membership_updated: start != end,
        membership_updated_without_reparenting: start != end,
        owner_entity_as_spatial_parent: false,
        capture_as_reparenting: false,
        routed_through_mobility_substrate: true,
        existing_mobility_transfer_posture: true,
    }
}

/// The movement of step `k` when its decision is accepted: the Terran ship leaves starsystem 0 on
/// the first step, the pirate ship leaves starsystem 6 on the second, nothing moves later.
pub open spec fn step_movement(p: &ProductionPath0081Summary, threshold: i64, k: u32) -> Option<DefaultSchedule0081MovementOutcome> {
    if !(p.composite_gap_sum >= threshold) {
        None
    } else if k == 0 {
        Some(movement_spec(DEFAULT_SCHEDULE_0081_TERRAN_SHIP_ID, DefaultSchedule0081ShipFaction::Terran, 0, destination_spec(p, true, 0)))
    } else if k == 1 {
        Some(movement_spec(DEFAULT_SCHEDULE_0081_PIRATE_SHIP_ID, DefaultSchedule0081ShipFaction::Pirate, 6, destination_spec(p, false, 6)))
    } else {
        None
    }
}

/// The report of step `k`.
pub open spec fn step_report_spec(p: &ProductionPath0081Summary, threshold: i64, k: u32) -> DefaultSchedule0081StepReport {
    let movement = step_movement(p, threshold, k);
    DefaultSchedule0081StepReport {
        step: DefaultSchedule0081Step {
            step_index: k,
            mover_id: match movement { Some(m) => Some(m.mover_id), None => None },
            mover_faction: match movement { Some(m) => Some(m.mover_faction), None => None },
            start_starsystem: match movement { Some(m) => Some(m.start_starsystem), None => None },
            end_starsystem: match movement { Some(m) => Some(m.end_starsystem), None => None },
        },
        decision: decision_spec(p, threshold),
        movement,
        production_path_invoked: true,
        production_path_checksum: Some(p.deterministic_replay_checksum),
        used_sead_composite_gap_terms: true,
        consumed_atlas_residency_report: p.atlas_report_admitted_pass,
        consumed_faction_index_econ_report: p.econ_scale_report_admitted_pass,
    }
}

/// The step reports of `n` steps.
pub open spec fn step_reports_spec(p: &ProductionPath0081Summary, threshold: i64, n: nat) -> Seq<DefaultSchedule0081StepReport> {
    Seq::new(n, |k: int| step_report_spec(p, threshold, k as u32))
}

/// The least secure candidate clearing for a faction.
fn least_secure_clearing(cs: &Vec<ProductionPath0081Clearing>, terran: bool) -> (r: Option<ProductionPath0081Clearing>)
    ensures
        r == least_secure(cs@, terran),
{
    let mut best: Option<ProductionPath0081Clearing> = None;
    let mut i: usize = 0;
    proof {
        assert(cs@.take(0) =~= Seq::<ProductionPath0081Clearing>::empty());
    }
    while i < cs.len()
        invariant
            i <= cs@.len(),
            best == least_secure(cs@.take(i as int), terran),
        decreases cs@.len() - i,
    {
        let c = cs[i];
        proof {
            assert(cs@.take(i as int + 1).drop_last() =~= cs@.take(i as int));
        }
        if c.pirate_present && c.terran_owned == terran {
            match best {
                None => { best = Some(c); },
                Some(b) => {
                    if c.security_after < b.security_after {
                        best = Some(c);
                    }
                },
            }
        }
        i = i + 1;
    }
    proof {
        assert(cs@.take(i as int) =~= cs@);
    }
    best
}

/// Where a ship of the given faction moves from `start`.
fn destination(p: &ProductionPath0081Summary, terran: bool, start: u8) -> (r: u8)
    ensures
        r == destination_spec(p, terran, start),
{
    let fallback: u8 = if terran { 1 } else { 2 };
    match &p.clearings {
        Some(cs) => match least_secure_clearing(cs, terran) {
            Some(c) => if c.starsystem_index != start { c.starsystem_index } else { fallback },
            None => fallback,
        },
        None => fallback,
    }
}

/// The movement of a ship of `faction` from `start` to `end`.
fn movement_outcome(mover_id: u64, faction: DefaultSchedule0081ShipFaction, start: u8, end: u8) -> (r: DefaultSchedule0081MovementOutcome)
    ensures
        r == movement_spec(mover_id, faction, start, end),
{
    DefaultSchedule0081MovementOutcome {
        mover_id,
        mover_faction: faction,
        owner_id_before: faction.owner_id(),
        owner_id_after: faction.owner_id(),
        owner_overlay_preserved: true,
        identity_preserved: true,
        start_starsystem: start,
        end_starsystem: end,
        membership_updated: start != end,
        membership_updated_without_reparenting: start != end,
        owner_entity_as_spatial_parent: false,
        capture_as_reparenting: false,
        routed_through_mobility_substrate: true,
        existing_mobility_transfer_posture: true,
    }
}

/// Runs the steps of an opted-in input against a passing production path.
fn run_steps(input: &DefaultSchedule0081Input, p: &ProductionPath0081Summary) -> (r: Vec<DefaultSchedule0081StepReport>)
    ensures
        r@ == step_reports_spec(p, input.movement_threshold, input.step_count as nat),
{
    let threshold = input.movement_threshold;
    let accepted = p.composite_gap_sum >= threshold;
    let decision = DefaultSchedule0081BoundaryDecision {
        threshold_input: p.composite_gap_sum,
        threshold,
        threshold_accepted: accepted,
        event_emitted: accepted,
        boundary_request_materialized: accepted,
        direct_movement_command: false,
        external_boundary_request: false,
        cpu_planner_urgency_commitment: false,
    };
    let mut reports: Vec<DefaultSchedule0081StepReport> = Vec::new();
    let mut k: u32 = 0;
    while k < input.step_count
        invariant
            k <= input.step_count,
            threshold == input.movement_threshold,
            accepted == (p.composite_gap_sum >= threshold),
            decision == decision_spec(p, threshold),
            reports@ =~= step_reports_spec(p, threshold, k as nat),
        decreases input.step_count - k,
    {
        let movement = if !accepted {
            None
        } else if k == 0 {
            let end = destination(p, true, 0);
            Some(movement_outcome(DEFAULT_SCHEDULE_0081_TERRAN_SHIP_ID, DefaultSchedule0081ShipFaction::Terran, 0, end))
        } else if k == 1 {
            let end = destination(p, false, 6);
            Some(movement_outcome(DEFAULT_SCHEDULE_0081_PIRATE_SHIP_ID, DefaultSchedule0081ShipFaction::Pirate, 6, end))
        } else {
            None
        };
        let step = DefaultSchedule0081Step {
            step_index: k,
            mover_id: match movement { Some(m) => Some(m.mover_id), None => None },
            mover_faction: match movement { Some(m) => Some(m.mover_faction), None => None },
            start_starsystem: match movement { Some(m) => Some(m.start_starsystem), None => None },
            end_starsystem: match movement { Some(m) => Some(m.end_starsystem), None => None },
        };
        reports.push(DefaultSchedule0081StepReport {
            step,
            decision,
            movement,
            production_path_invoked: true,
            production_path_checksum: Some(p.deterministic_replay_checksum),
            used_sead_composite_gap_terms: true,
            consumed_atlas_residency_report: p.atlas_report_admitted_pass,
            consumed_faction_index_econ_report: p.econ_scale_report_admitted_pass,
        });
        k = k + 1;
    }
    reports
}

/// Number of steps among `steps` satisfying `f`.
pub open spec fn count_steps(steps: Seq<DefaultSchedule0081StepReport>, f: spec_fn(DefaultSchedule0081StepReport) -> bool) -> nat
    decreases steps.len(),
{
    if steps.len() == 0 {
        0
    } else {
        count_steps(steps.drop_last(), f) + if f(steps.last()) { 1nat } else { 0nat }
    }
}

/// Steps whose decision accepted the threshold.
pub open spec fn is_accepted(s: DefaultSchedule0081StepReport) -> bool { s.decision.threshold_accepted }
/// Steps whose decision did not accept the threshold.
pub open spec fn is_refused(s: DefaultSchedule0081StepReport) -> bool { !s.decision.threshold_accepted }
/// Steps that emitted the event.
pub open spec fn emitted(s: DefaultSchedule0081StepReport) -> bool { s.decision.event_emitted }
/// Steps that materialized a boundary request.
pub open spec fn materialized(s: DefaultSchedule0081StepReport) -> bool { s.decision.boundary_request_materialized }
/// Steps whose movement went through the mobility substrate.
pub open spec fn routed(s: DefaultSchedule0081StepReport) -> bool {
    s.movement is Some && s.movement->0.routed_through_mobility_substrate
}
/// Steps that moved a ship of `faction`.
pub open spec fn moved(s: DefaultSchedule0081StepReport, faction: DefaultSchedule0081ShipFaction) -> bool {
    s.movement is Some && s.movement->0.mover_faction == faction
}
/// Steps that moved the Terran ship.
pub open spec fn moved_terran(s: DefaultSchedule0081StepReport) -> bool { moved(s, DefaultSchedule0081ShipFaction::Terran) }
/// Steps that moved the pirate ship.
pub open spec fn moved_pirate(s: DefaultSchedule0081StepReport) -> bool { moved(s, DefaultSchedule0081ShipFaction::Pirate) }
/// Steps whose movement lost the ship's identity.
pub open spec fn identity_lost(s: DefaultSchedule0081StepReport) -> bool {
    s.movement is Some && !s.movement->0.identity_preserved
}
/// Steps whose movement lost the owner overlay.
pub open spec fn overlay_lost(s: DefaultSchedule0081StepReport) -> bool {
    s.movement is Some && !s.movement->0.owner_overlay_preserved
}
/// Steps whose movement did not update membership without reparenting.
pub open spec fn membership_not_updated(s: DefaultSchedule0081StepReport) -> bool {
    s.movement is Some && !s.movement->0.membership_updated_without_reparenting
}
/// Steps that consumed the atlas residency report.
pub open spec fn consumed_atlas(s: DefaultSchedule0081StepReport) -> bool { s.consumed_atlas_residency_report }
/// Steps that consumed the faction-index economy report.
pub open spec fn consumed_econ(s: DefaultSchedule0081StepReport) -> bool { s.consumed_faction_index_econ_report }

/// The tallies a run report derives from its steps.
struct StepTally {
    accepted: u32,
    refused: u32,
    emitted: u32,
    materialized: u32,
    routed: u32,
    terran: u32,
    pirate: u32,
    identity_lost: u32,
    overlay_lost: u32,
    membership_not_updated: u32,
    consumed_atlas: u32,
    consumed_econ: u32,
}

/// Adds one to a tally when `b` holds.
fn bump(n: u32, b: bool) -> (r: u32)
    requires
        n < u32::MAX,
    ensures
        r == n + if b { 1nat } else { 0nat },
{
    if b { n + 1 } else { n }
}

/// Counts the steps of each kind.
#[verifier::rlimit(40)]
fn tally_steps(steps: &Vec<DefaultSchedule0081StepReport>) -> (t: StepTally)
    requires
        steps@.len() < u32::MAX,
    ensures
        t.accepted == count_steps(steps@, |s| is_accepted(s)),
        t.refused == count_steps(steps@, |s| is_refused(s)),
        t.emitted == count_steps(steps@, |s| emitted(s)),
        t.materialized == count_steps(steps@, |s| materialized(s)),
        t.routed == count_steps(steps@, |s| routed(s)),
        t.terran == count_steps(steps@, |s| moved_terran(s)),
        t.pirate == count_steps(steps@, |s| moved_pirate(s)),
        t.identity_lost == count_steps(steps@, |s| identity_lost(s)),
        t.overlay_lost == count_steps(steps@, |s| overlay_lost(s)),
        t.membership_not_updated == count_steps(steps@, |s| membership_not_updated(s)),
        t.consumed_atlas == count_steps(steps@, |s| consumed_atlas(s)),
        t.consumed_econ == count_steps(steps@, |s| consumed_econ(s)),
{
    let mut t = StepTally {
        accepted: 0, refused: 0, emitted: 0, materialized: 0, routed: 0, terran: 0, pirate: 0,
        identity_lost: 0, overlay_lost: 0, membership_not_updated: 0, consumed_atlas: 0, consumed_econ: 0,
    };
    proof {
        assert(steps@.take(0) =~= Seq::<DefaultSchedule0081StepReport>::empty());
    }
    let mut i: usize = 0;
    while i < steps.len()
        invariant
            i <= steps@.len(),
            steps@.len() < u32::MAX,
            t.accepted == count_steps(steps@.take(i as int), |s| is_accepted(s)),
            t.refused == count_steps(steps@.take(i as int), |s| is_refused(s)),
            t.emitted == count_steps(steps@.take(i as int), |s| emitted(s)),
            t.materialized == count_steps(steps@.take(i as int), |s| materialized(s)),
            t.routed == count_steps(steps@.take(i as int), |s| routed(s)),
            t.terran == count_steps(steps@.take(i as int), |s| moved_terran(s)),
            t.pirate == count_steps(steps@.take(i as int), |s| moved_pirate(s)),
            t.identity_lost == count_steps(steps@.take(i as int), |s| identity_lost(s)),
            t.overlay_lost == count_steps(steps@.take(i as int), |s| overlay_lost(s)),
            t.membership_not_updated == count_steps(steps@.take(i as int), |s| membership_not_updated(s)),
            t.consumed_atlas == count_steps(steps@.take(i as int), |s| consumed_atlas(s)),
            t.consumed_econ == count_steps(steps@.take(i as int), |s| consumed_econ(s)),
            t.accepted <= i && t.refused <= i && t.emitted <= i && t.materialized <= i,
            t.routed <= i && t.terran <= i && t.pirate <= i && t.identity_lost <= i,
            t.overlay_lost <= i && t.membership_not_updated <= i && t.consumed_atlas <= i && t.consumed_econ <= i,
        decreases steps@.len() - i,
    {
        let s = steps[i];
        proof {
            let next = steps@.take(i as int + 1);
            assert(next.drop_last() =~= steps@.take(i as int));
            assert(next.last() == s);
        }
        let (routed_now, terran_now, pirate_now, identity_now, overlay_now, membership_now) = match s.movement {
            Some(m) => (
                m.routed_through_mobility_substrate,
                matches!(m.mover_faction, DefaultSchedule0081ShipFaction::Terran),
                matches!(m.mover_faction, DefaultSchedule0081ShipFaction::Pirate),
                !m.identity_preserved,
                !m.owner_overlay_preserved,
                !m.membership_updated_without_reparenting,
            ),
            None => (false, false, false, false, false, false),
        };
        t.accepted = bump(t.accepted, s.decision.threshold_accepted);
        t.refused = bump(t.refused, !s.decision.threshold_accepted);
        t.emitted = bump(t.emitted, s.decision.event_emitted);
        t.materialized = bump(t.materialized, s.decision.boundary_request_materialized);
        t.routed = bump(t.routed, routed_now);
        t.terran = bump(t.terran, terran_now);
        t.pirate = bump(t.pirate, pirate_now);
        t.identity_lost = bump(t.identity_lost, identity_now);
        t.overlay_lost = bump(t.overlay_lost, overlay_now);
        t.membership_not_updated = bump(t.membership_not_updated, membership_now);
        t.consumed_atlas = bump(t.consumed_atlas, s.consumed_atlas_residency_report);
        t.consumed_econ = bump(t.consumed_econ, s.consumed_faction_index_econ_report);
        i = i + 1;
    }
    proof {
        assert(steps@.take(i as int) =~= steps@);
    }
    t
}

/// Run report.
#[derive(Clone, Debug, PartialEq, Eq)]
pub struct DefaultSchedule0081RunReport {
    pub schedule_id: &'static str,
    pub status: &'static str,
    pub scenario: &'static str,
    pub admitted: bool,
    pub diagnostics: Vec<&'static str>,
    pub explicit_opt_in: bool,
    pub default_off: bool,
    pub disabled_no_op: bool,
    pub scenario_scoped_only: bool,
    pub scenario_schedule_registered: bool,
    pub default_session_pass_graph_wiring: bool,
    pub global_default_schedule: bool,
    pub observation_control_demo_0080_1: bool,
    pub realtime_loop_or_ui: bool,
    pub async_background_loop: bool,
    pub production_path_checksum: Option<u64>,
    pub production_path_admitted_pass: bool,
    pub requested_step_count: u32,
    pub executed_step_count: u32,
    pub bounded_step_loop: bool,
    pub wall_clock_loop: bool,
    pub threshold_true_count: u32,
    pub threshold_false_count: u32,
    pub event_emitted_count: u32,
    pub boundary_request_count: u32,
    pub mobility_substrate_routed_count: u32,
    pub terran_move_count: u32,
    pub pirate_move_count: u32,
    pub identity_preserved: bool,
    pub owner_overlay_preserved: bool,
    pub membership_updated_without_reparenting: bool,
    pub owner_entity_as_spatial_parent: bool,
    pub capture_as_reparenting: bool,
    pub consumed_production_path: bool,
    pub consumed_atlas_residency_report: bool,
    pub consumed_faction_index_econ_report: bool,
    pub pirate_full_economy_faction_preserved: bool,
    pub hard_currency_markets_trade_aibudget: bool,
    pub nested_resource_flow: bool,
    pub unbounded_factions: bool,
    pub direct_movement_command: bool,
    pub external_boundary_request: bool,
    pub cpu_planner_urgency_commitment: bool,
    pub semantic_or_raw_wgsl_present: bool,
    pub new_shader_or_gpu_kernel: bool,
    pub clausething_dependency_present: bool,
    pub simthing_spec_altered: bool,
    pub invariant_edited: bool,
    pub passive_proof_wrapper: bool,
    pub general_scheduler: bool,
    pub step_reports: Vec<DefaultSchedule0081StepReport>,
    pub deterministic_replay_checksum: u64,
}

/// The words one step contributes to the replay checksum.
pub open spec fn step_words(s: DefaultSchedule0081StepReport) -> Seq<u64> {
    seq![
        s.step.step_index as u64,
        s.decision.threshold_input as u64,
        if s.decision.threshold_accepted { 1u64 } else { 0u64 },
    ] + match s.movement {
        Some(m) => seq![
            m.mover_id,
            faction_code(m.mover_faction),
            m.start_starsystem as u64,
            m.end_starsystem as u64,
            m.owner_id_after,
        ],
        None => Seq::empty(),
    }
}

/// The words all steps contribute, in order.
pub open spec fn steps_words(steps: Seq<DefaultSchedule0081StepReport>) -> Seq<u64>
    decreases steps.len(),
{
    if steps.len() == 0 {
        Seq::empty()
    } else {
        steps_words(steps.drop_last()) + step_words(steps.last())
    }
}

/// The replay checksum of a run: counts, the production path's checksum when present, then the
/// steps.
pub open spec fn run_checksum(r: &DefaultSchedule0081RunReport) -> u64 {
    fnv_words(
        FNV_OFFSET_BASIS,
        seq![
            r.requested_step_count as u64,
            r.executed_step_count as u64,
            r.boundary_request_count as u64,
            r.terran_move_count as u64,
            r.pirate_move_count as u64,
        ] + match r.production_path_checksum {
            Some(c) => seq![c],
            None => Seq::empty(),
        } + steps_words(r.step_reports@),
    )
}

/// Folding one more word into a checksum.
proof fn lemma_fnv_push(ws: Seq<u64>, w: u64)
    ensures
        fnv_words(FNV_OFFSET_BASIS, ws.push(w)) == crate::replay_hash::fnv_append_spec(fnv_words(FNV_OFFSET_BASIS, ws), w),
{
    assert(ws.push(w).drop_last() =~= ws);
}

/// Folds `words` into a checksum over `ws`.
fn append_words(hash: u64, words: &Vec<u64>, Ghost(ws): Ghost<Seq<u64>>) -> (r: u64)
    requires
        hash == fnv_words(FNV_OFFSET_BASIS, ws),
    ensures
        r == fnv_words(FNV_OFFSET_BASIS, ws + words@),
{
    let mut h = hash;
    let mut k: usize = 0;
    while k < words.len()
        invariant
            k <= words@.len(),
            h == fnv_words(FNV_OFFSET_BASIS, ws + words@.take(k as int)),
        decreases words@.len() - k,
    {
        proof {
            lemma_fnv_push(ws + words@.take(k as int), words@[k as int]);
            assert((ws + words@.take(k as int)).push(words@[k as int]) =~= ws + words@.take(k as int + 1));
        }
        h = fnv_append_u64(h, words[k]);
        k = k + 1;
    }
    proof {
        assert(words@.take(k as int) =~= words@);
    }
    h
}

/// The words of one step.
fn step_word_list(s: &DefaultSchedule0081StepReport) -> (r: Vec<u64>)
    ensures
        r@ == step_words(*s),
{
    let mut v: Vec<u64> = vec![
        s.step.step_index as u64,
        s.decision.threshold_input as u64,
        if s.decision.threshold_accepted { 1u64 } else { 0u64 },
    ];
    match s.movement {
        Some(m) => {
            v.push(m.mover_id);
            v.push(m.mover_faction.stable_code());
            v.push(m.start_starsystem as u64);
            v.push(m.end_starsystem as u64);
            v.push(m.owner_id_after);
        },
        None => {},
    }
    proof {
        assert(v@ =~= step_words(*s));
    }
    v
}

/// Computes the replay checksum of a run.
pub fn checksum_run(report: &DefaultSchedule0081RunReport) -> (r: u64)
    ensures
        r == run_checksum(report),
{
    let mut head: Vec<u64> = vec![
        report.requested_step_count as u64,
        report.executed_step_count as u64,
        report.boundary_request_count as u64,
        report.terran_move_count as u64,
        report.pirate_move_count as u64,
    ];
    match report.production_path_checksum {
        Some(c) => { head.push(c); },
        None => {},
    }
    let ghost prefix = head@;
    proof {
        assert(Seq::<u64>::empty() + head@ =~= head@);
    }
    let mut hash = append_words(FNV_OFFSET_BASIS, &head, Ghost(Seq::empty()));
    let steps = &report.step_reports;
    proof {
        assert(steps@.take(0) =~= Seq::<DefaultSchedule0081StepReport>::empty());
        assert(prefix + steps_words(steps@.take(0)) =~= prefix);
    }
    let mut i: usize = 0;
    while i < steps.len()
        invariant
            i <= steps@.len(),
            steps@ == report.step_reports@,
            hash == fnv_words(FNV_OFFSET_BASIS, prefix + steps_words(steps@.take(i as int))),
        decreases steps@.len() - i,
    {
        let ghost before = prefix + steps_words(steps@.take(i as int));
        let words = step_word_list(&steps[i]);
        hash = append_words(hash, &words, Ghost(before));
        proof {
            let next = steps@.take(i as int + 1);
            assert(next.drop_last() =~= steps@.take(i as int));
            assert(prefix + steps_words(next) =~= before + step_words(steps@[i as int]));
        }
        i = i + 1;
    }
    proof {
        assert(steps@.take(i as int) =~= steps@);
        assert(prefix == seq![
            report.requested_step_count as u64,
            report.executed_step_count as u64,
            report.boundary_request_count as u64,
            report.terran_move_count as u64,
            report.pirate_move_count as u64,
        ] + match report.production_path_checksum {
            Some(c) => seq![c],
            None => Seq::<u64>::empty(),
        });
    }
    hash
}

/// The flags and counts a run report takes from its input, the production path it consumed (if
/// any) and its steps.
pub open spec fn run_frame(
    r: &DefaultSchedule0081RunReport,
    input: &DefaultSchedule0081Input,
    disabled: bool,
    production: Option<ProductionPath0081Summary>,
) -> bool {
    let s = input.surface;
    let f = input.forbidden;
    let steps = r.step_reports@;
    let passed = match production { Some(p) => production_passed(&p), None => false };
    &&& r.schedule_id == DEFAULT_SCHEDULE_0080_1_ID
    &&& r.status == DEFAULT_SCHEDULE_0080_1_STATUS_PASS
    &&& r.scenario == DEFAULT_SCHEDULE_0080_1_SCENARIO
    &&& r.explicit_opt_in == s.gate.explicit_opt_in
    &&& r.default_off == !s.gate.enabled_by_default
    &&& r.disabled_no_op == disabled
    &&& r.scenario_scoped_only
    &&& r.scenario_schedule_registered == (s.scenario_schedule_registered && !disabled)
    &&& r.default_session_pass_graph_wiring == (s.default_session_pass_graph_wiring || f.default_session_pass_graph_wiring)
    &&& r.global_default_schedule == (s.global_default_schedule || f.global_default_schedule)
    &&& r.observation_control_demo_0080_1 == (s.observation_control_demo_0080_1 || f.observation_control_demo_0080_1)
    &&& r.realtime_loop_or_ui == (s.realtime_loop || s.ui_framework || f.realtime_loop_or_ui)
    &&& r.async_background_loop == s.async_background_loop
    &&& r.production_path_checksum == (match production { Some(p) => Some(p.deterministic_replay_checksum), None => None })
    &&& r.production_path_admitted_pass == passed
    &&& r.requested_step_count == input.step_count
    &&& r.executed_step_count == steps.len()
    &&& r.bounded_step_loop == (input.step_count <= DEFAULT_SCHEDULE_0081_STEP_COUNT)
    &&& !r.wall_clock_loop
    &&& r.threshold_true_count == count_steps(steps, |t| is_accepted(t))
    &&& r.threshold_false_count == count_steps(steps, |t| is_refused(t))
    &&& r.event_emitted_count == count_steps(steps, |t| emitted(t))
    &&& r.boundary_request_count == count_steps(steps, |t| materialized(t))
    &&& r.mobility_substrate_routed_count == count_steps(steps, |t| routed(t))
    &&& r.terran_move_count == count_steps(steps, |t| moved_terran(t))
    &&& r.pirate_move_count == count_steps(steps, |t| moved_pirate(t))
    &&& r.identity_preserved == (count_steps(steps, |t| identity_lost(t)) == 0)
    &&& r.owner_overlay_preserved == (count_steps(steps, |t| overlay_lost(t)) == 0)
    &&& r.membership_updated_without_reparenting == (count_steps(steps, |t| membership_not_updated(t)) == 0)
    &&& !r.owner_entity_as_spatial_parent
    &&& !r.capture_as_reparenting
    &&& r.consumed_production_path == passed
    &&& r.consumed_atlas_residency_report == (count_steps(steps, |t| consumed_atlas(t)) > 0)
    &&& r.consumed_faction_index_econ_report == (count_steps(steps, |t| consumed_econ(t)) > 0)
    &&& r.pirate_full_economy_faction_preserved == (match production {
        Some(p) => p.pirate_full_economy_faction_visible && p.factions_include_pirate,
        None => false,
    })
    &&& r.hard_currency_markets_trade_aibudget == f.hard_currency_markets_trade_aibudget
    &&& r.nested_resource_flow == f.nested_resource_flow
    &&& r.unbounded_factions == f.unbounded_factions
    &&& r.direct_movement_command == f.direct_movement_command
    &&& r.external_boundary_request == f.external_boundary_request
    &&& r.cpu_planner_urgency_commitment == f.cpu_planner_urgency_commitment
    &&& r.semantic_or_raw_wgsl_present == f.semantic_or_raw_wgsl
    &&& r.new_shader_or_gpu_kernel == f.new_shader_or_gpu_kernel
    &&& r.clausething_dependency_present == f.clausething_dependency
    &&& r.simthing_spec_altered == f.simthing_spec_alteration
    &&& r.invariant_edited == f.invariant_edit
    &&& r.passive_proof_wrapper == f.passive_proof_wrapper
    &&& r.general_scheduler == f.general_scheduler
    &&& r.deterministic_replay_checksum == run_checksum(r)
}

/// Whether the production path passed.
fn production_path_passed(p: &ProductionPath0081Summary) -> (r: bool)
    ensures
        r == production_passed(p),
{
    p.admitted && p.explicit_opt_in && !p.disabled_no_op && p.diagnostics_empty
        && p.atlas_report_admitted_pass && p.econ_scale_report_admitted_pass
        && p.nested_starmap_instantiated
}

/// The sealed report of a run with the given outcome.
#[verifier::rlimit(60)]
fn base_report(
    input: &DefaultSchedule0081Input,
    admitted: bool,
    disabled_no_op: bool,
    diagnostics: Vec<&'static str>,
    production: Option<&ProductionPath0081Summary>,
    step_reports: Vec<DefaultSchedule0081StepReport>,
) -> (r: DefaultSchedule0081RunReport)
    requires
        step_reports@.len() < u32::MAX,
    ensures
        run_frame(&r, input, disabled_no_op, match production { Some(p) => Some(*p), None => None }),
        r.admitted == admitted,
        r.diagnostics@ == diagnostics@,
        r.step_reports@ == step_reports@,
{
    let t = tally_steps(&step_reports);
    let (checksum, passed, pirate_preserved) = match production {
        Some(p) => (Some(p.deterministic_replay_checksum), production_path_passed(p),
            p.pirate_full_economy_faction_visible && p.factions_include_pirate),
        None => (None, false, false),
    };
    let s = &input.surface;
    let f = &input.forbidden;
    let executed = step_reports.len() as u32;
    let mut report = DefaultSchedule0081RunReport {
        schedule_id: DEFAULT_SCHEDULE_0080_1_ID,
        status: DEFAULT_SCHEDULE_0080_1_STATUS_PASS,
        scenario: DEFAULT_SCHEDULE_0080_1_SCENARIO,
        admitted,
        diagnostics,
        explicit_opt_in: s.gate.explicit_opt_in,
        default_off: !s.gate.enabled_by_default,
        disabled_no_op,
        scenario_scoped_only: true,
        scenario_schedule_registered: s.scenario_schedule_registered && !disabled_no_op,
        default_session_pass_graph_wiring: s.default_session_pass_graph_wiring || f.default_session_pass_graph_wiring,
        global_default_schedule: s.global_default_schedule || f.global_default_schedule,
        observation_control_demo_0080_1: s.observation_control_demo_0080_1 || f.observation_control_demo_0080_1,
        realtime_loop_or_ui: s.realtime_loop || s.ui_framework || f.realtime_loop_or_ui,
        async_background_loop: s.async_background_loop,
        production_path_checksum: checksum,
        production_path_admitted_pass: passed,
        requested_step_count: input.step_count,
        executed_step_count: executed,
        bounded_step_loop: input.step_count <= DEFAULT_SCHEDULE_0081_STEP_COUNT,
        wall_clock_loop: false,
        threshold_true_count: t.accepted,
        threshold_false_count: t.refused,
        event_emitted_count: t.emitted,
        boundary_request_count: t.materialized,
        mobility_substrate_routed_count: t.routed,
        terran_move_count: t.terran,
        pirate_move_count: t.pirate,
        identity_preserved: t.identity_lost == 0,
        owner_overlay_preserved: t.overlay_lost == 0,
        membership_updated_without_reparenting: t.membership_not_updated == 0,
        owner_entity_as_spatial_parent: false,
        capture_as_reparenting: false,
        consumed_production_path: passed,
        consumed_atlas_residency_report: t.consumed_atlas > 0,
        consumed_faction_index_econ_report: t.consumed_econ > 0,
        pirate_full_economy_faction_preserved: pirate_preserved,
        hard_currency_markets_trade_aibudget: f.hard_currency_markets_trade_aibudget,
        nested_resource_flow: f.nested_resource_flow,
        unbounded_factions: f.unbounded_factions,
        direct_movement_command: f.direct_movement_command,
        external_boundary_request: f.external_boundary_request,
        cpu_planner_urgency_commitment: f.cpu_planner_urgency_commitment,
        semantic_or_raw_wgsl_present: f.semantic_or_raw_wgsl,
        new_shader_or_gpu_kernel: f.new_shader_or_gpu_kernel,
        clausething_dependency_present: f.clausething_dependency,
        simthing_spec_altered: f.simthing_spec_alteration,
        invariant_edited: f.invariant_edit,
        passive_proof_wrapper: f.passive_proof_wrapper,
        general_scheduler: f.general_scheduler,
        step_reports,
        deterministic_replay_checksum: 0,
    };
    report.deterministic_replay_checksum = checksum_run(&report);
    report
}

/// The diagnostics of the surface, the refused requests and an unbounded step count, in check
/// order.
pub open spec fn run_diagnostics(input: &DefaultSchedule0081Input) -> Seq<&'static str> {
    forbidden_diagnostics(surface_diagnostics(Seq::empty(), input.surface), input.forbidden)
        + flag_diag(input.step_count > DEFAULT_SCHEDULE_0081_STEP_COUNT, "default_schedule_0080_1_unbounded_step_count")
}

/// What `run_default_schedule_0080_1` returns for `input` and `production`.
pub open spec fn run_default_schedule_0080_1_post(input: &DefaultSchedule0081Input, production: &ProductionPath0081Summary, r: DefaultSchedule0081RunReport) -> bool {
    &&& run_diagnostics(input).len() > 0 ==> {
        &&& run_frame(&r, input, false, None)
        &&& !r.admitted
        &&& r.diagnostics@ == run_diagnostics(input)
        &&& r.step_reports@.len() == 0
    }
    &&& run_diagnostics(input).len() == 0 && !input.surface.gate.explicit_opt_in ==> {
        &&& run_frame(&r, input, true, None)
        &&& r.admitted
        &&& r.diagnostics@.len() == 0
        &&& r.step_reports@.len() == 0
    }
    &&& run_diagnostics(input).len() == 0 && input.surface.gate.explicit_opt_in && !production_passed(production) ==> {
        &&& run_frame(&r, input, false, Some(*production))
        &&& !r.admitted
        &&& r.diagnostics@ == seq!["production_path_0080_1_disabled_rejected_or_not_admitted"]
        &&& r.step_reports@.len() == 0
    }
    &&& run_diagnostics(input).len() == 0 && input.surface.gate.explicit_opt_in && production_passed(production) ==> {
        &&& run_frame(&r, input, false, Some(*production))
        &&& r.admitted
        &&& r.diagnostics@.len() == 0
        &&& r.step_reports@ == step_reports_spec(production, input.movement_threshold, input.step_count as nat)
    }
}

/// Runs the scenario-scoped Nested Starmap schedule against the production path's report.
///
/// Surface, request and step-count diagnostics refuse the input; a closed gate is a no-op; a
/// production path that did not pass refuses the run; otherwise every step takes the boundary
/// decision and moves the ship its position names (see `step_report_spec`).
pub fn run_default_schedule_0080_1(
    input: &DefaultSchedule0081Input,
    production: &ProductionPath0081Summary,
) -> (r: DefaultSchedule0081RunReport)
    ensures
        run_default_schedule_0080_1_post(input, production, r),
{
    let mut diagnostics: Vec<&'static str> = Vec::new();
    validate_surface(&input.surface, &mut diagnostics);
    validate_forbidden(&input.forbidden, &mut diagnostics);
    push_if(&mut diagnostics, input.step_count > DEFAULT_SCHEDULE_0081_STEP_COUNT, "default_schedule_0080_1_unbounded_step_count");
    if diagnostics.len() > 0 {
        return base_report(input, false, false, diagnostics, None, Vec::new());
    }
    if !input.surface.gate.explicit_opt_in {
        return base_report(input, true, true, diagnostics, None, Vec::new());
    }
    if !production_path_passed(production) {
        let refused = base_report(
            input, false, false, vec!["production_path_0080_1_disabled_rejected_or_not_admitted"],
            Some(production), Vec::new(),
        );
        assert(refused.diagnostics@ =~= seq!["production_path_0080_1_disabled_rejected_or_not_admitted"]);
        return refused;
    }
    let steps = run_steps(input, production);
    proof {
        broadcast use crate::diagnostics::lemma_flag_diag;
        assert(input.step_count <= DEFAULT_SCHEDULE_0081_STEP_COUNT);
    }
    base_report(input, true, false, diagnostics, Some(production), steps)
}

/// Runs the opted-in schedule against `production` twice.
pub fn replay_default_schedule_0080_1(production: &ProductionPath0081Summary) -> (r: (DefaultSchedule0081RunReport, DefaultSchedule0081RunReport))
    ensures
        r.0.admitted == r.1.admitted,
        r.0.diagnostics@ == r.1.diagnostics@,
        r.0.step_reports@ == r.1.step_reports@,
        r.0.deterministic_replay_checksum == r.1.deterministic_replay_checksum,
        run_default_schedule_0080_1_post(
            &DefaultSchedule0081Input {
                surface: opted_in_surface(),
                step_count: DEFAULT_SCHEDULE_0081_STEP_COUNT,
                movement_threshold: 0,
                forbidden: no_forbidden_requests(),
            },
            production,
            r.0,
        ),
{
    let input = DefaultSchedule0081Input::explicit_opt_in();
    proof {
        assert(run_diagnostics(&input) =~= Seq::<&'static str>::empty()) by {
            broadcast use crate::diagnostics::lemma_flag_diag;
        }
    }
    let a = run_default_schedule_0080_1(&input, production);
    let b = run_default_schedule_0080_1(&input, production);
    (a, b)
}

/// Movement keeps ships whole: in every step a ship that moves keeps its identity and its owner
/// (before and after the move are its faction's owner), leaves the starsystem its faction starts
/// from and arrives elsewhere, and only the first two steps move a ship.
pub proof fn lemma_movement_keeps_identity_and_owner(p: &ProductionPath0081Summary, threshold: i64, k: u32)
    ensures
        match step_movement(p, threshold, k) {
            Some(m) => {
                &&& m.identity_preserved && m.owner_overlay_preserved
                &&& m.owner_id_before == faction_owner(m.mover_faction)
                &&& m.owner_id_after == m.owner_id_before
                &&& m.start_starsystem != m.end_starsystem
                &&& m.membership_updated_without_reparenting
                &&& !m.capture_as_reparenting && !m.owner_entity_as_spatial_parent
                &&& k <= 1
            },
            None => k > 1 || p.composite_gap_sum < threshold,
        },
{
}

/// An opted-in schedule with no diagnostics over a passed production report runs one step per
/// configured step, in order: each accepts the boundary exactly when the composite gap reaches
/// the movement threshold; a ship moves exactly on an accepted first or second step — the
/// Terran ship from starsystem 0, then the Pirate ship from starsystem 6 — leaving its
/// starsystem and keeping its owner.
pub proof fn lemma_run_steps(input: &DefaultSchedule0081Input, production: &ProductionPath0081Summary, r: DefaultSchedule0081RunReport)
    requires
        run_default_schedule_0080_1_post(input, production, r),
        run_diagnostics(input).len() == 0,
        input.surface.gate.explicit_opt_in,
        production_passed(production),
    ensures
        r.step_reports@.len() == input.step_count,
        forall|i: int| 0 <= i < r.step_reports@.len() ==> {
            let s = #[trigger] r.step_reports@[i];
            &&& s.step.step_index == i
            &&& s.decision.threshold_accepted == (production.composite_gap_sum >= input.movement_threshold)
            &&& (s.movement is Some <==> (s.decision.threshold_accepted && i < 2))
            &&& (s.movement matches Some(m) ==> {
                &&& m.start_starsystem != m.end_starsystem
                &&& m.owner_id_before == m.owner_id_after
                &&& (i == 0 ==> m.mover_faction == DefaultSchedule0081ShipFaction::Terran && m.start_starsystem == 0)
                &&& (i == 1 ==> m.mover_faction == DefaultSchedule0081ShipFaction::Pirate && m.start_starsystem == 6)
            })
        },
{
    assert forall|i: int| 0 <= i < r.step_reports@.len() implies {
        let s = #[trigger] r.step_reports@[i];
        &&& s.step.step_index == i
        &&& s.decision.threshold_accepted == (production.composite_gap_sum >= input.movement_threshold)
        &&& (s.movement is Some <==> (s.decision.threshold_accepted && i < 2))
        &&& (s.movement matches Some(m) ==> {
            &&& m.start_starsystem != m.end_starsystem
            &&& m.owner_id_before == m.owner_id_after
            &&& (i == 0 ==> m.mover_faction == DefaultSchedule0081ShipFaction::Terran && m.start_starsystem == 0)
            &&& (i == 1 ==> m.mover_faction == DefaultSchedule0081ShipFaction::Pirate && m.start_starsystem == 6)
        })
    } by {
        lemma_movement_keeps_identity_and_owner(production, input.movement_threshold, i as u32);
    }
}

} // verus!
