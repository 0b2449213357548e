//! Compound desirability field (rung 2 of the Pirate Gradient Pathfinding scenario).
//!
//! Composes the rung-1 disruption field with a patrol-presence field, per node per tick:
//!
//! ```text
//! patrol_field[node] = patrol_presence at this node this tick
//! desirability[node] = 0                                   if patrol_field[node] >= PATROL_FLOOR_PRESENCE
//!                    = clamp(BASE_DESIRABILITY
//!                            - patrol_repulsion   * patrol_field[node]
//!                            - disruption_penalty * (disruption[node] / DISRUPTION_SCALE),
//!                            0, DESIRABILITY_MAX)      otherwise
//! ```
//!
//! A system held by three patrols floors to 0 whatever its disruption: under the canonical
//! weights the linear formula alone would leave it at 5 000.
//!
//! Reads the disruption column as input and never writes it. Opt-in, default off.
use crate::decimal_text::{decimal_int, decimal_nat, push_decimal_i64, push_decimal_u64, push_text};
use crate::diagnostics::{flag_diag, push_if};
use crate::disruption_decay_0080_2::{
    clamp_int, decay_rows, lemma_clean_run, lemma_decay_rows_bounded, run_computes, run_disruption_decay_0080_2,
    schedule_has_negative, spec_compose, DisruptionDecay0082Input, DisruptionDecay0082Row,
    DISRUPTION_MAX, DISRUPTION_SCALE,
};
use crate::replay_hash::{fnv_append_spec, fnv_append_u64, FNV_OFFSET_BASIS};
use vstd::prelude::*;

verus! {

pub const COMPOUND_FIELD_0080_2_ID: &'static str = "COMPOUND-FIELD-0080-2";
pub const COMPOUND_FIELD_0080_2_SCENARIO: &'static str = "Pirate Gradient Pathfinding";
pub const COMPOUND_FIELD_0080_2_STATUS_PASS: &'static str =
    "IMPLEMENTED / PASS - scenario-scoped patrol-presence + compound desirability field";

/// Baseline desirability before patrol/disruption modifiers.
pub const BASE_DESIRABILITY: i64 = 50_000;
/// Ceiling on desirability (clamp target).
pub const DESIRABILITY_MAX: i64 = 100_000;
/// Patrol presence at which a system floors to 0 desirability, whatever its disruption.
pub const PATROL_FLOOR_PRESENCE: i64 = 3;

/// Opt-in gate.
#[derive(Clone, Copy, Debug, PartialEq, Eq)]
pub struct CompoundField0082Gate {
    pub explicit_opt_in: bool,
    pub enabled_by_default: bool,
}

impl Default for CompoundField0082Gate {
    /// Closed gate.
    fn default() -> (r: Self)
        ensures
            !r.explicit_opt_in && !r.enabled_by_default,
    {
        CompoundField0082Gate { explicit_opt_in: false, enabled_by_default: false }
    }
}

impl CompoundField0082Gate {
    /// Opted in, still not enabled by default.
    pub fn explicit_opt_in() -> (r: Self)
        ensures
            r.explicit_opt_in && !r.enabled_by_default,
    {
        CompoundField0082Gate { explicit_opt_in: true, enabled_by_default: false }
    }
}

/// Session surface the field is registered on.
#[derive(Clone, Copy, Debug, PartialEq, Eq)]
pub struct CompoundField0082Surface {
    pub gate: CompoundField0082Gate,
    pub scenario_scoped_field_registered: bool,
    pub gradient_follow_movement: bool,
    pub default_session_pass_graph_wiring: bool,
    pub global_default_schedule: bool,
    pub realtime_loop: bool,
    pub ui_framework: bool,
}

/// A surface with every rejected flag cleared and a gate not enabled by default.
pub open spec fn surface_all_clear(s: CompoundField0082Surface) -> bool {
    &&& !s.gate.enabled_by_default
    &&& !s.gradient_follow_movement
    &&& !s.default_session_pass_graph_wiring
    &&& !s.global_default_schedule
    &&& !s.realtime_loop
    &&& !s.ui_framework
}

impl Default for CompoundField0082Surface {
    /// Nothing registered, gate closed.
    fn default() -> (r: Self)
        ensures
            surface_all_clear(r),
            !r.gate.explicit_opt_in,
            !r.scenario_scoped_field_registered,
    {
        CompoundField0082Surface {
            gate: CompoundField0082Gate::default(),
            scenario_scoped_field_registered: false,
            gradient_follow_movement: false,
            default_session_pass_graph_wiring: false,
            global_default_schedule: false,
            realtime_loop: false,
            ui_framework: false,
        }
    }
}

impl CompoundField0082Surface {
    /// The default session: gate closed, nothing registered.
    pub fn default_simsession() -> (r: Self)
        ensures
            surface_all_clear(r),
            !r.gate.explicit_opt_in,
            !r.scenario_scoped_field_registered,
    {
        Self::default()
    }

    /// Opted in, with the scenario-scoped field registered.
    pub fn with_explicit_opt_in() -> (r: Self)
        ensures
            surface_all_clear(r),
            r.gate.explicit_opt_in,
            r.scenario_scoped_field_registered,
    {
        CompoundField0082Surface {
            gate: CompoundField0082Gate::explicit_opt_in(),
            scenario_scoped_field_registered: true,
            ..Self::default()
        }
    }
}

/// Requests this rung must refuse.
#[derive(Clone, Copy, Debug, PartialEq, Eq)]
pub struct CompoundField0082ForbiddenRequests {
    pub gradient_follow_movement: bool,
    pub write_to_disruption_column: bool,
    pub second_writer_on_any_field_column: bool,
    pub direct_movement_command: bool,
    pub external_boundary_request: bool,
    pub cpu_planner_urgency_commitment: bool,
    pub default_session_pass_graph_wiring: bool,
    pub global_default_schedule: bool,
    pub realtime_loop_or_ui: bool,
    pub semantic_or_raw_wgsl: bool,
    pub new_shader_or_gpu_kernel: bool,
    pub hard_currency_markets_trade_aibudget: bool,
    pub nested_resource_flow: bool,
    pub clausething_dependency: bool,
    pub simthing_spec_alteration: bool,
    pub invariant_edit: bool,
    pub reopen_closed_0080_1_ladder: bool,
}

/// `acc` followed by the diagnostics for the surface flags, in check order.
pub open spec fn surface_diagnostics(acc: Seq<&'static str>, s: CompoundField0082Surface) -> Seq<&'static str> {
    acc + flag_diag(s.gate.enabled_by_default, "compound_field_default_on_rejected")
        + flag_diag(s.gradient_follow_movement, "gradient_follow_movement_not_in_this_rung")
        + flag_diag(s.default_session_pass_graph_wiring, "default_session_pass_graph_wiring")
        + flag_diag(s.global_default_schedule, "global_default_schedule")
        + flag_diag(s.realtime_loop, "realtime_loop")
        + flag_diag(s.ui_framework, "ui_framework")
}

/// `acc` followed by the diagnostics for the forbidden requests, in check order.
pub open spec fn forbidden_diagnostics(acc: Seq<&'static str>, f: CompoundField0082ForbiddenRequests) -> Seq<&'static str> {
    acc + flag_diag(f.gradient_follow_movement, "gradient_follow_movement_not_in_this_rung")
        + flag_diag(f.write_to_disruption_column, "write_to_disruption_column_rejected")
        + flag_diag(f.second_writer_on_any_field_column, "second_writer_on_any_field_column")
        + flag_diag(f.direct_movement_command, "direct_movement_command")
        + flag_diag(f.external_boundary_request, "external_boundary_request")
        + flag_diag(f.cpu_planner_urgency_commitment, "cpu_planner_urgency_commitment")
        + flag_diag(f.default_session_pass_graph_wiring, "default_session_pass_graph_wiring")
        + flag_diag(f.global_default_schedule, "global_default_schedule")
        + flag_diag(f.realtime_loop_or_ui, "realtime_loop_or_ui")
        + flag_diag(f.semantic_or_raw_wgsl, "semantic_or_raw_wgsl")
        + flag_diag(f.new_shader_or_gpu_kernel, "new_shader_or_gpu_kernel")
        + flag_diag(f.hard_currency_markets_trade_aibudget, "hard_currency_markets_trade_aibudget")
        + flag_diag(f.nested_resource_flow, "nested_resource_flow")
        + flag_diag(f.clausething_dependency, "clausething_dependency")
        + flag_diag(f.simthing_spec_alteration, "simthing_spec_alteration")
        + flag_diag(f.invariant_edit, "invariant_edit")
        + flag_diag(f.reopen_closed_0080_1_ladder, "reopen_closed_0080_1_ladder")
}

impl Default for CompoundField0082ForbiddenRequests {
    /// Nothing requested.
    fn default() -> (r: Self)
        ensures
            forbidden_diagnostics(Seq::empty(), r).len() == 0,
    {
        broadcast use crate::diagnostics::lemma_flag_diag;
        CompoundField0082ForbiddenRequests {
            gradient_follow_movement: false,
            write_to_disruption_column: false,
            second_writer_on_any_field_column: false,
            direct_movement_command: false,
            external_boundary_request: false,
            cpu_planner_urgency_commitment: false,
            default_session_pass_graph_wiring: false,
            global_default_schedule: false,
            realtime_loop_or_ui: false,
            semantic_or_raw_wgsl: false,
            new_shader_or_gpu_kernel: false,
            hard_currency_markets_trade_aibudget: false,
            nested_resource_flow: false,
            clausething_dependency: false,
            simthing_spec_alteration: false,
            invariant_edit: false,
            reopen_closed_0080_1_ladder: false,
        }
    }
}

/// Integer grid coordinates of a location node.
#[derive(Clone, Copy, Debug, PartialEq, Eq)]
pub struct CompoundField0082NodePos {
    pub x: i32,
    pub y: i32,
}

/// How strongly patrols and disruption each lower desirability.
#[derive(Clone, Copy, Debug, PartialEq, Eq)]
pub struct CompoundField0082Weights {
    /// Desirability reduction per patrol unit present at a node.
    pub patrol_repulsion: i64,
    /// Desirability reduction per disruption unit (`DISRUPTION_SCALE` of raw disruption).
    pub disruption_penalty: i64,
}

impl CompoundField0082Weights {
    /// One patrol removes 15 000 desirability; one disruption unit removes 300. With no patrol,
    /// the maximum disruption (100 units) leaves 50 000 − 30 000 = 20 000: still passable as a
    /// corridor. A 3-patrol system floors to 0 regardless of disruption
    /// (`PATROL_FLOOR_PRESENCE`, `lemma_patrol_floor`).
    pub fn canonical() -> (r: Self)
        ensures
            r.patrol_repulsion == 15_000,
            r.disruption_penalty == 300,
    {
        CompoundField0082Weights { patrol_repulsion: 15_000, disruption_penalty: 300 }
    }
}

/// Input of one run; the disruption input defines nodes, ticks and presence.
#[derive(Clone, Debug, PartialEq, Eq)]
pub struct CompoundField0082Input {
    pub surface: CompoundField0082Surface,
    /// One position per node, same indexing as the disruption input.
    pub node_positions: Vec<CompoundField0082NodePos>,
    pub weights: CompoundField0082Weights,
    pub disruption_input: DisruptionDecay0082Input,
    pub forbidden: CompoundField0082ForbiddenRequests,
}

impl CompoundField0082Input {
    /// The default session: gate closed, no positions, the disruption default session.
    pub fn default_simsession() -> (r: Self)
        ensures
            surface_all_clear(r.surface),
            !r.surface.gate.explicit_opt_in,
            r.node_positions@.len() == 0,
            r.weights.patrol_repulsion == 15_000 && r.weights.disruption_penalty == 300,
            !r.disruption_input.surface.gate.explicit_opt_in,
            r.disruption_input.node_count == 0,
            forbidden_diagnostics(Seq::empty(), r.forbidden).len() == 0,
    {
        CompoundField0082Input {
            surface: CompoundField0082Surface::default_simsession(),
            node_positions: Vec::new(),
            weights: CompoundField0082Weights::canonical(),
            disruption_input: DisruptionDecay0082Input::default_simsession(),
            forbidden: CompoundField0082ForbiddenRequests::default(),
        }
    }

    /// The canonical 4-node, 20-tick trial on a line `(0,0)..(3,0)`: node 0 carries a pirate for
    /// ticks 0..=5 and a patrol for ticks 12..=19, node 1 stays clean, node 2 holds one patrol
    /// throughout (repelled to 35 000: one patrol is short of the three-patrol floor), and node 3
    /// carries a pirate every tick.
    pub fn explicit_opt_in() -> (r: Self)
        ensures
            canonical_trial_input(r),
    {
        let mut node_positions = Vec::new();
        node_positions.push(CompoundField0082NodePos { x: 0, y: 0 });
        node_positions.push(CompoundField0082NodePos { x: 1, y: 0 });
        node_positions.push(CompoundField0082NodePos { x: 2, y: 0 });
        node_positions.push(CompoundField0082NodePos { x: 3, y: 0 });
        CompoundField0082Input {
            surface: CompoundField0082Surface::with_explicit_opt_in(),
            node_positions,
            weights: CompoundField0082Weights::canonical(),
            disruption_input: DisruptionDecay0082Input::explicit_opt_in(),
            forbidden: CompoundField0082ForbiddenRequests::default(),
        }
    }
}

/// The canonical trial that `CompoundField0082Input::explicit_opt_in` returns.
pub open spec fn canonical_trial_input(r: CompoundField0082Input) -> bool {
    &&& surface_all_clear(r.surface)
    &&& r.surface.gate.explicit_opt_in
    &&& r.node_positions@.len() == 4
    &&& forall|i: int| 0 <= i < 4 ==> #[trigger] r.node_positions@[i]
        == (CompoundField0082NodePos { x: i as i32, y: 0 })
    &&& r.weights.patrol_repulsion == 15_000 && r.weights.disruption_penalty == 300
    &&& crate::disruption_decay_0080_2::canonical_decay_input(r.disruption_input)
    &&& forbidden_diagnostics(Seq::empty(), r.forbidden).len() == 0
}

fn validate_surface(surface: &CompoundField0082Surface, diagnostics: &mut Vec<&'static str>)
    ensures
        final(diagnostics)@ == surface_diagnostics(old(diagnostics)@, *surface),
{
    push_if(diagnostics, surface.gate.enabled_by_default, "compound_field_default_on_rejected");
    push_if(diagnostics, surface.gradient_follow_movement, "gradient_follow_movement_not_in_this_rung");
    push_if(diagnostics, surface.default_session_pass_graph_wiring, "default_session_pass_graph_wiring");
    push_if(diagnostics, surface.global_default_schedule, "global_default_schedule");
    push_if(diagnostics, surface.realtime_loop, "realtime_loop");
    push_if(diagnostics, surface.ui_framework, "ui_framework");
}

#[verifier::rlimit(40)]
fn validate_forbidden(forbidden: &CompoundField0082ForbiddenRequests, diagnostics: &mut Vec<&'static str>)
    ensures
        final(diagnostics)@ == forbidden_diagnostics(old(diagnostics)@, *forbidden),
{
    push_if(diagnostics, forbidden.gradient_follow_movement, "gradient_follow_movement_not_in_this_rung");
    push_if(diagnostics, forbidden.write_to_disruption_column, "write_to_disruption_column_rejected");
    push_if(diagnostics, forbidden.second_writer_on_any_field_column, "second_writer_on_any_field_column");
    push_if(diagnostics, forbidden.direct_movement_command, "direct_movement_command");
    push_if(diagnostics, forbidden.external_boundary_request, "external_boundary_request");
    push_if(diagnostics, forbidden.cpu_planner_urgency_commitment, "cpu_planner_urgency_commitment");
    push_if(diagnostics, forbidden.default_session_pass_graph_wiring, "default_session_pass_graph_wiring");
    push_if(diagnostics, forbidden.global_default_schedule, "global_default_schedule");
    push_if(diagnostics, forbidden.realtime_loop_or_ui, "realtime_loop_or_ui");
    push_if(diagnostics, forbidden.semantic_or_raw_wgsl, "semantic_or_raw_wgsl");
    push_if(diagnostics, forbidden.new_shader_or_gpu_kernel, "new_shader_or_gpu_kernel");
    push_if(diagnostics, forbidden.hard_currency_markets_trade_aibudget, "hard_currency_markets_trade_aibudget");
    push_if(diagnostics, forbidden.nested_resource_flow, "nested_resource_flow");
    push_if(diagnostics, forbidden.clausething_dependency, "clausething_dependency");
    push_if(diagnostics, forbidden.simthing_spec_alteration, "simthing_spec_alteration");
    push_if(diagnostics, forbidden.invariant_edit, "invariant_edit");
    push_if(diagnostics, forbidden.reopen_closed_0080_1_ladder, "reopen_closed_0080_1_ladder");
}

/// `acc` followed by the weight diagnostics, and (when opted in) the node-set checks.
pub open spec fn param_diagnostics(acc: Seq<&'static str>, input: CompoundField0082Input) -> Seq<&'static str> {
    let a = acc + flag_diag(input.weights.patrol_repulsion < 0, "negative_patrol_repulsion")
        + flag_diag(input.weights.disruption_penalty < 0, "negative_disruption_penalty");
    if input.surface.gate.explicit_opt_in {
        a + flag_diag(input.disruption_input.node_count == 0, "empty_node_set")
            + flag_diag(input.node_positions@.len() != input.disruption_input.node_count, "node_positions_count_mismatch")
    } else {
        a
    }
}

fn validate_params(input: &CompoundField0082Input, diagnostics: &mut Vec<&'static str>)
    ensures
        final(diagnostics)@ == param_diagnostics(old(diagnostics)@, *input),
{
    push_if(diagnostics, input.weights.patrol_repulsion < 0, "negative_patrol_repulsion");
    push_if(diagnostics, input.weights.disruption_penalty < 0, "negative_disruption_penalty");
    if input.surface.gate.explicit_opt_in {
        let node_count = input.disruption_input.node_count;
        push_if(diagnostics, node_count == 0, "empty_node_set");
        push_if(diagnostics, input.node_positions.len() != node_count, "node_positions_count_mismatch");
    }
}

/// Per-node field values for one tick.
#[derive(Clone, Copy, Debug, PartialEq, Eq)]
pub struct CompoundField0082TickSnapshot {
    pub tick: u32,
    pub node: usize,
    pub disruption: i64,
    pub patrol_field: i64,
    pub desirability: i64,
}

/// Disruption after the first recorded transition of `node` at `tick` (0 when none).
pub open spec fn disruption_lookup(rows: Seq<DisruptionDecay0082Row>, tick: u32, node: usize) -> i64
    decreases rows.len(),
{
    if rows.len() == 0 {
        0
    } else if exists|i: int| 0 <= i < rows.len() - 1 && (#[trigger] rows[i]).tick == tick && rows[i].node == node {
        disruption_lookup(rows.drop_last(), tick, node)
    } else if rows.last().tick == tick && rows.last().node == node {
        rows.last().disruption_after
    } else {
        0
    }
}

/// Patrol presence scheduled at `(tick, node)` (0 outside the schedule).
pub open spec fn patrol_lookup(input: CompoundField0082Input, tick: int, node: int) -> i64 {
    let sched = input.disruption_input.presence_schedule@;
    if 0 <= tick < sched.len() && 0 <= node < sched[tick]@.len() {
        sched[tick]@[node].patrol_presence
    } else {
        0
    }
}

/// 0 once the patrol presence reaches `PATROL_FLOOR_PRESENCE`; otherwise
/// `clamp(BASE − repulsion·patrol − penalty·(disruption / SCALE), 0, MAX)`.
pub open spec fn desirability_of(weights: CompoundField0082Weights, disruption: i64, patrol: i64) -> int {
    if patrol >= PATROL_FLOOR_PRESENCE {
        0
    } else {
        clamp_int(
            BASE_DESIRABILITY - weights.patrol_repulsion * patrol
                - weights.disruption_penalty * (disruption / DISRUPTION_SCALE),
            0,
            DESIRABILITY_MAX as int,
        )
    }
}

/// The snapshot of `node` at `tick`.
pub open spec fn snapshot_at(input: CompoundField0082Input, rows: Seq<DisruptionDecay0082Row>, tick: nat, node: int) -> CompoundField0082TickSnapshot {
    let disruption = disruption_lookup(rows, tick as u32, node as usize);
    let patrol = patrol_lookup(input, tick as int, node);
    CompoundField0082TickSnapshot {
        tick: tick as u32,
        node: node as usize,
        disruption,
        patrol_field: patrol,
        desirability: desirability_of(input.weights, disruption, patrol) as i64,
    }
}

/// Snapshots of the first `t` ticks, tick-major, `node_count` per tick.
pub open spec fn snapshots_upto(
    input: CompoundField0082Input,
    rows: Seq<DisruptionDecay0082Row>,
    node_count: nat,
    t: nat,
) -> Seq<CompoundField0082TickSnapshot>
    decreases t,
{
    if t == 0 {
        Seq::empty()
    } else {
        snapshots_upto(input, rows, node_count, (t - 1) as nat)
            + Seq::new(node_count, |n: int| snapshot_at(input, rows, (t - 1) as nat, n))
    }
}

fn find_disruption(rows: &Vec<DisruptionDecay0082Row>, tick: u32, node: usize) -> (r: i64)
    ensures
        r == disruption_lookup(rows@, tick, node),
{
    let mut k: usize = 0;
    while k < rows.len()
        invariant
            k <= rows@.len(),
            forall|i: int| 0 <= i < k ==> !((#[trigger] rows@[i]).tick == tick && rows@[i].node == node),
        decreases rows@.len() - k,
    {
        if rows[k].tick == tick && rows[k].node == node {
            proof { lemma_lookup_first(rows@, k as int, tick, node); }
            return rows[k].disruption_after;
        }
        k = k + 1;
    }
    proof { lemma_lookup_none(rows@, tick, node); }
    0
}

proof fn lemma_lookup_first(rows: Seq<DisruptionDecay0082Row>, k: int, tick: u32, node: usize)
    requires
        0 <= k < rows.len(),
        rows[k].tick == tick && rows[k].node == node,
        forall|i: int| 0 <= i < k ==> !((#[trigger] rows[i]).tick == tick && rows[i].node == node),
    ensures
        disruption_lookup(rows, tick, node) == rows[k].disruption_after,
    decreases rows.len(),
{
    if k < rows.len() - 1 {
        let init = rows.drop_last();
        assert(init[k] == rows[k]);
        assert forall|i: int| 0 <= i < k implies !((#[trigger] init[i]).tick == tick && init[i].node == node) by {
            assert(init[i] == rows[i]);
        }
        lemma_lookup_first(init, k, tick, node);
    } else {
        assert(!(exists|i: int| 0 <= i < rows.len() - 1 && (#[trigger] rows[i]).tick == tick && rows[i].node == node));
    }
}

proof fn lemma_lookup_none(rows: Seq<DisruptionDecay0082Row>, tick: u32, node: usize)
    requires
        forall|i: int| 0 <= i < rows.len() ==> !((#[trigger] rows[i]).tick == tick && rows[i].node == node),
    ensures
        disruption_lookup(rows, tick, node) == 0,
    decreases rows.len(),
{
    if rows.len() > 0 {
        let init = rows.drop_last();
        assert forall|i: int| 0 <= i < init.len() implies !((#[trigger] init[i]).tick == tick && init[i].node == node) by {
            assert(init[i] == rows[i]);
        }
        lemma_lookup_none(init, tick, node);
    }
}

/// A first match of the lookup is one of the rows, so it carries a recorded value.
proof fn lemma_lookup_in_rows(rows: Seq<DisruptionDecay0082Row>, tick: u32, node: usize)
    ensures
        disruption_lookup(rows, tick, node) == 0 || exists|i: int| 0 <= i < rows.len()
            && disruption_lookup(rows, tick, node) == (#[trigger] rows[i]).disruption_after,
    decreases rows.len(),
{
    if rows.len() > 0 {
        let init = rows.drop_last();
        lemma_lookup_in_rows(init, tick, node);
        if exists|i: int| 0 <= i < init.len() && disruption_lookup(init, tick, node) == (#[trigger] init[i]).disruption_after {
            let i = choose|i: int| 0 <= i < init.len() && disruption_lookup(init, tick, node) == (#[trigger] init[i]).disruption_after;
            assert(init[i] == rows[i]);
        }
    }
}

fn patrol_at(input: &CompoundField0082Input, tick: u32, node: usize) -> (r: i64)
    ensures
        r == patrol_lookup(*input, tick as int, node as int),
{
    let sched = &input.disruption_input.presence_schedule;
    if (tick as usize) < sched.len() {
        let row = &sched[tick as usize];
        if node < row.len() {
            return row[node].patrol_presence;
        }
    }
    0
}

fn compute_snapshots(
    input: &CompoundField0082Input,
    disruption_rows: &Vec<DisruptionDecay0082Row>,
    node_count: usize,
    tick_count: u32,
) -> (r: Vec<CompoundField0082TickSnapshot>)
    requires
        input.weights.patrol_repulsion >= 0,
        input.weights.disruption_penalty >= 0,
        !schedule_has_negative(input.disruption_input),
        forall|i: int| 0 <= i < disruption_rows@.len() ==> 0 <= (#[trigger] disruption_rows@[i]).disruption_after <= DISRUPTION_MAX,
    ensures
        r@ == snapshots_upto(*input, disruption_rows@, node_count as nat, tick_count as nat),
{
    let mut snapshots: Vec<CompoundField0082TickSnapshot> = Vec::new();
    let mut tick: u32 = 0;
    while tick < tick_count
        invariant
            tick <= tick_count,
            input.weights.patrol_repulsion >= 0,
            input.weights.disruption_penalty >= 0,
            !schedule_has_negative(input.disruption_input),
            forall|i: int| 0 <= i < disruption_rows@.len() ==> 0 <= (#[trigger] disruption_rows@[i]).disruption_after <= DISRUPTION_MAX,
            snapshots@ == snapshots_upto(*input, disruption_rows@, node_count as nat, tick as nat),
        decreases tick_count - tick,
    {
        let ghost before_tick = snapshots@;
        let mut node: usize = 0;
        while node < node_count
            invariant
                tick < tick_count,
                node <= node_count,
                input.weights.patrol_repulsion >= 0,
                input.weights.disruption_penalty >= 0,
                !schedule_has_negative(input.disruption_input),
                forall|i: int| 0 <= i < disruption_rows@.len() ==> 0 <= (#[trigger] disruption_rows@[i]).disruption_after <= DISRUPTION_MAX,
                before_tick == snapshots_upto(*input, disruption_rows@, node_count as nat, tick as nat),
                snapshots@ == before_tick + Seq::new(node as nat, |n: int| snapshot_at(*input, disruption_rows@, tick as nat, n)),
            decreases node_count - node,
        {
            let disruption = find_disruption(disruption_rows, tick, node);
            let patrol_field = patrol_at(input, tick, node);
            proof {
                lemma_lookup_in_rows(disruption_rows@, tick, node);
                let sched = input.disruption_input.presence_schedule@;
                if 0 <= tick < sched.len() && 0 <= node < sched[tick as int]@.len() {
                    assert(!crate::disruption_decay_0080_2::row_has_negative(sched[tick as int]@));
                }
                assert(0 <= patrol_field);
                assert(input.weights.patrol_repulsion * patrol_field <= 0x4000_0000_0000_0000_0000_0000_0000_0000) by (nonlinear_arith)
                    requires 0 <= input.weights.patrol_repulsion < 0x8000_0000_0000_0000, 0 <= patrol_field < 0x8000_0000_0000_0000;
                assert(input.weights.patrol_repulsion * patrol_field >= 0) by (nonlinear_arith)
                    requires 0 <= input.weights.patrol_repulsion, 0 <= patrol_field;
                assert(input.weights.disruption_penalty * (disruption / DISRUPTION_SCALE) <= 0x4000_0000_0000_0000_0000_0000_0000_0000) by (nonlinear_arith)
                    requires 0 <= input.weights.disruption_penalty < 0x8000_0000_0000_0000, 0 <= disruption <= 100_000;
                assert(input.weights.disruption_penalty * (disruption / DISRUPTION_SCALE) >= 0) by (nonlinear_arith)
                    requires 0 <= input.weights.disruption_penalty, 0 <= disruption;
            }
            let units: i64 = (disruption as u64 / 1000) as i64;
            let raw: i128 = BASE_DESIRABILITY as i128 - (input.weights.patrol_repulsion as i128) * (patrol_field as i128)
                - (input.weights.disruption_penalty as i128) * (units as i128);
            let desirability: i64 = if patrol_field >= PATROL_FLOOR_PRESENCE {
                0
            } else if raw < 0 {
                0
            } else if raw > DESIRABILITY_MAX as i128 {
                DESIRABILITY_MAX
            } else {
                raw as i64
            };
            snapshots.push(CompoundField0082TickSnapshot { tick, node, disruption, patrol_field, desirability });
            proof {
                assert(snapshots@ == before_tick + Seq::new((node + 1) as nat, |n: int| snapshot_at(*input, disruption_rows@, tick as nat, n)));
            }
            node = node + 1;
        }
        proof {
            assert(snapshots@ == snapshots_upto(*input, disruption_rows@, node_count as nat, (tick + 1) as nat));
        }
        tick = tick + 1;
    }
    snapshots
}

/// The first snapshot of `node` at `tick`, if any.
pub open spec fn snapshot_lookup(snaps: Seq<CompoundField0082TickSnapshot>, tick: u32, node: usize) -> Option<CompoundField0082TickSnapshot>
    decreases snaps.len(),
{
    if snaps.len() == 0 {
        None
    } else if exists|i: int| 0 <= i < snaps.len() - 1 && (#[trigger] snaps[i]).tick == tick && snaps[i].node == node {
        snapshot_lookup(snaps.drop_last(), tick, node)
    } else if snaps.last().tick == tick && snaps.last().node == node {
        Some(snaps.last())
    } else {
        None
    }
}

proof fn lemma_snapshot_first(snaps: Seq<CompoundField0082TickSnapshot>, k: int, tick: u32, node: usize)
    requires
        0 <= k < snaps.len(),
        snaps[k].tick == tick && snaps[k].node == node,
        forall|i: int| 0 <= i < k ==> !((#[trigger] snaps[i]).tick == tick && snaps[i].node == node),
    ensures
        snapshot_lookup(snaps, tick, node) == Some(snaps[k]),
    decreases snaps.len(),
{
    if k < snaps.len() - 1 {
        let init = snaps.drop_last();
        assert(init[k] == snaps[k]);
        assert forall|i: int| 0 <= i < k implies !((#[trigger] init[i]).tick == tick && init[i].node == node) by {
            assert(init[i] == snaps[i]);
        }
        lemma_snapshot_first(init, k, tick, node);
    } else {
        assert(!(exists|i: int| 0 <= i < snaps.len() - 1 && (#[trigger] snaps[i]).tick == tick && snaps[i].node == node));
    }
}

proof fn lemma_snapshot_none(snaps: Seq<CompoundField0082TickSnapshot>, tick: u32, node: usize)
    requires
        forall|i: int| 0 <= i < snaps.len() ==> !((#[trigger] snaps[i]).tick == tick && snaps[i].node == node),
    ensures
        snapshot_lookup(snaps, tick, node) is None,
    decreases snaps.len(),
{
    if snaps.len() > 0 {
        let init = snaps.drop_last();
        assert forall|i: int| 0 <= i < init.len() implies !((#[trigger] init[i]).tick == tick && init[i].node == node) by {
            assert(init[i] == snaps[i]);
        }
        lemma_snapshot_none(init, tick, node);
    }
}

fn find_snapshot(snaps: &Vec<CompoundField0082TickSnapshot>, tick: u32, node: usize) -> (r: Option<CompoundField0082TickSnapshot>)
    ensures
        r == snapshot_lookup(snaps@, tick, node),
{
    let mut k: usize = 0;
    while k < snaps.len()
        invariant
            k <= snaps@.len(),
            forall|i: int| 0 <= i < k ==> !((#[trigger] snaps@[i]).tick == tick && snaps@[i].node == node),
        decreases snaps@.len() - k,
    {
        if snaps[k].tick == tick && snaps[k].node == node {
            proof { lemma_snapshot_first(snaps@, k as int, tick, node); }
            return Some(snaps[k]);
        }
        k = k + 1;
    }
    proof { lemma_snapshot_none(snaps@, tick, node); }
    None
}

/// Desirability of `node` at `tick` in the snapshots (0 when absent).
pub open spec fn desirability_lookup(snaps: Seq<CompoundField0082TickSnapshot>, tick: u32, node: usize) -> i64 {
    match snapshot_lookup(snaps, tick, node) {
        Some(s) => s.desirability,
        None => 0,
    }
}

/// Disruption of `node` at `tick` in the snapshots (0 when absent).
pub open spec fn snapshot_disruption_lookup(snaps: Seq<CompoundField0082TickSnapshot>, tick: u32, node: usize) -> i64 {
    match snapshot_lookup(snaps, tick, node) {
        Some(s) => s.disruption,
        None => 0,
    }
}

/// Last-tick values per node (desirability or disruption); empty without snapshots or ticks.
pub open spec fn final_values(snaps: Seq<CompoundField0082TickSnapshot>, node_count: usize, tick_count: u32, desirability: bool) -> Seq<i64> {
    if snaps.len() > 0 && tick_count > 0 {
        Seq::new(node_count as nat, |n: int| if desirability {
            desirability_lookup(snaps, (tick_count - 1) as u32, n as usize)
        } else {
            snapshot_disruption_lookup(snaps, (tick_count - 1) as u32, n as usize)
        })
    } else {
        Seq::empty()
    }
}

fn compute_finals(snaps: &Vec<CompoundField0082TickSnapshot>, node_count: usize, tick_count: u32, desirability: bool) -> (r: Vec<i64>)
    ensures
        r@ == final_values(snaps@, node_count, tick_count, desirability),
{
    let mut out: Vec<i64> = Vec::new();
    if snaps.len() > 0 && tick_count > 0 {
        let last_tick = tick_count - 1;
        let mut n: usize = 0;
        while n < node_count
            invariant
                n <= node_count,
                tick_count > 0,
                last_tick == tick_count - 1,
                out@ == Seq::new(n as nat, |m: int| if desirability {
                    desirability_lookup(snaps@, last_tick, m as usize)
                } else {
                    snapshot_disruption_lookup(snaps@, last_tick, m as usize)
                }),
            decreases node_count - n,
        {
            let value = match find_snapshot(snaps, last_tick, n) {
                Some(s) => if desirability { s.desirability } else { s.disruption },
                None => 0,
            };
            out.push(value);
            n = n + 1;
        }
    }
    proof {
        if snaps@.len() > 0 && tick_count > 0 {
            assert(out@ == final_values(snaps@, node_count, tick_count, desirability));
        } else {
            assert(out@ == Seq::<i64>::empty());
        }
    }
    out
}

/// A patrolled node somewhere sits below base desirability.
pub open spec fn patrol_repels(snaps: Seq<CompoundField0082TickSnapshot>) -> bool {
    exists|i: int| 0 <= i < snaps.len() && (#[trigger] snaps[i]).patrol_field > 0 && snaps[i].desirability < BASE_DESIRABILITY
}

/// A disrupted node without patrol still has positive desirability somewhere.
pub open spec fn disrupted_still_passable(snaps: Seq<CompoundField0082TickSnapshot>) -> bool {
    exists|i: int| 0 <= i < snaps.len() && (#[trigger] snaps[i]).disruption > 0 && snaps[i].patrol_field == 0
        && snaps[i].desirability > 0
}

/// A clean node (no patrol, no disruption) reaches exactly base desirability somewhere.
pub open spec fn clean_node_reaches_base(snaps: Seq<CompoundField0082TickSnapshot>) -> bool {
    exists|i: int| 0 <= i < snaps.len() && (#[trigger] snaps[i]).disruption == 0 && snaps[i].patrol_field == 0
        && snaps[i].desirability == BASE_DESIRABILITY
}

/// On the canonical four-node line, at the last tick: node 1 ≥ node 0 > node 3 and node 2 < node 1.
/// Other layouts are not checked.
pub open spec fn final_field_ordering_correct(snaps: Seq<CompoundField0082TickSnapshot>, node_count: usize, tick_count: u32) -> bool {
    let last = if tick_count == 0 { 0u32 } else { (tick_count - 1) as u32 };
    if node_count == 4 {
        let d0 = desirability_lookup(snaps, last, 0);
        let d1 = desirability_lookup(snaps, last, 1);
        let d2 = desirability_lookup(snaps, last, 2);
        let d3 = desirability_lookup(snaps, last, 3);
        d1 >= d0 && d0 > d3 && d2 < d1
    } else {
        true
    }
}

fn behavioural_diagnostics(snaps: &Vec<CompoundField0082TickSnapshot>, node_count: usize, tick_count: u32) -> (r: (bool, bool, bool, bool))
    ensures
        r.0 == patrol_repels(snaps@),
        r.1 == disrupted_still_passable(snaps@),
        r.2 == clean_node_reaches_base(snaps@),
        r.3 == final_field_ordering_correct(snaps@, node_count, tick_count),
{
    let last_tick = tick_count.saturating_sub(1);
    let mut repels = false;
    let mut passable = false;
    let mut clean = false;
    let mut k: usize = 0;
    while k < snaps.len()
        invariant
            k <= snaps@.len(),
            repels == exists|i: int| 0 <= i < k && (#[trigger] snaps@[i]).patrol_field > 0
                && snaps@[i].desirability < BASE_DESIRABILITY,
            passable == exists|i: int| 0 <= i < k && (#[trigger] snaps@[i]).disruption > 0
                && snaps@[i].patrol_field == 0 && snaps@[i].desirability > 0,
            clean == exists|i: int| 0 <= i < k && (#[trigger] snaps@[i]).disruption == 0
                && snaps@[i].patrol_field == 0 && snaps@[i].desirability == BASE_DESIRABILITY,
        decreases snaps@.len() - k,
    {
        let s = snaps[k];
        if s.patrol_field > 0 && s.desirability < BASE_DESIRABILITY {
            repels = true;
        }
        if s.disruption > 0 && s.patrol_field == 0 && s.desirability > 0 {
            passable = true;
        }
        if s.disruption == 0 && s.patrol_field == 0 && s.desirability == BASE_DESIRABILITY {
            clean = true;
        }
        k = k + 1;
    }
    let ordering = if node_count == 4 {
        let d0 = match find_snapshot(snaps, last_tick, 0) { Some(s) => s.desirability, None => 0 };
        let d1 = match find_snapshot(snaps, last_tick, 1) { Some(s) => s.desirability, None => 0 };
        let d2 = match find_snapshot(snaps, last_tick, 2) { Some(s) => s.desirability, None => 0 };
        let d3 = match find_snapshot(snaps, last_tick, 3) { Some(s) => s.desirability, None => 0 };
        d1 >= d0 && d0 > d3 && d2 < d1
    } else {
        true
    };
    (repels, passable, clean, ordering)
}


/// `acc` followed by the export header line.
pub open spec fn header_text(acc: Seq<char>, input: CompoundField0082Input, node_count: usize, tick_count: u32) -> Seq<char> {
    acc + "COMPOUND-FIELD-0080-2|scenario="@ + COMPOUND_FIELD_0080_2_SCENARIO@ + "|nodes="@
        + decimal_nat(node_count as nat) + "|ticks="@ + decimal_nat(tick_count as nat)
        + "|patrol_repulsion="@ + decimal_int(input.weights.patrol_repulsion as int)
        + "|disruption_penalty="@ + decimal_int(input.weights.disruption_penalty as int)
        + "|base="@ + decimal_int(BASE_DESIRABILITY as int)
}

/// `acc` followed by one position line per node, in order.
pub open spec fn positions_text(acc: Seq<char>, positions: Seq<CompoundField0082NodePos>) -> Seq<char>
    decreases positions.len(),
{
    if positions.len() == 0 {
        acc
    } else {
        positions_text(acc, positions.drop_last()) + "\n"@ + "NODE_POS|x="@
            + decimal_int(positions.last().x as int) + "|y="@ + decimal_int(positions.last().y as int)
    }
}

/// `acc` followed by a newline and the export line of one snapshot.
pub open spec fn snapshot_text(acc: Seq<char>, s: CompoundField0082TickSnapshot) -> Seq<char> {
    acc + "\n"@ + "FIELD|t="@ + decimal_nat(s.tick as nat) + "|node="@ + decimal_nat(s.node as nat)
        + "|disruption="@ + decimal_int(s.disruption as int) + "|patrol="@
        + decimal_int(s.patrol_field as int) + "|desirability="@ + decimal_int(s.desirability as int)
}

/// `acc` followed by the lines of every snapshot.
pub open spec fn snapshots_text(acc: Seq<char>, snaps: Seq<CompoundField0082TickSnapshot>) -> Seq<char>
    decreases snaps.len(),
{
    if snaps.len() == 0 {
        acc
    } else {
        snapshot_text(snapshots_text(acc, snaps.drop_last()), snaps.last())
    }
}

/// `acc` followed by the final-desirability lines, one per node in order.
pub open spec fn finals_text(acc: Seq<char>, finals: Seq<i64>) -> Seq<char>
    decreases finals.len(),
{
    if finals.len() == 0 {
        acc
    } else {
        finals_text(acc, finals.drop_last()) + "\n"@ + "FINAL|node="@ + decimal_nat((finals.len() - 1) as nat)
            + "|desirability="@ + decimal_int(finals.last() as int)
    }
}

/// The text export: header, positions, snapshots and finals, one per line.
pub open spec fn export_text(
    input: CompoundField0082Input,
    snaps: Seq<CompoundField0082TickSnapshot>,
    finals: Seq<i64>,
    node_count: usize,
    tick_count: u32,
) -> Seq<char> {
    finals_text(
        snapshots_text(positions_text(header_text(Seq::empty(), input, node_count, tick_count), input.node_positions@), snaps),
        finals,
    )
}

fn push_snapshot_line(out: &mut String, s: &CompoundField0082TickSnapshot)
    ensures
        final(out)@ == snapshot_text(old(out)@, *s),
{
    push_text(out, "\n");
    push_text(out, "FIELD|t=");
    push_decimal_u64(out, s.tick as u64);
    push_text(out, "|node=");
    push_decimal_u64(out, s.node as u64);
    push_text(out, "|disruption=");
    push_decimal_i64(out, s.disruption);
    push_text(out, "|patrol=");
    push_decimal_i64(out, s.patrol_field);
    push_text(out, "|desirability=");
    push_decimal_i64(out, s.desirability);
}

fn render_export(
    input: &CompoundField0082Input,
    snaps: &Vec<CompoundField0082TickSnapshot>,
    final_desirability: &Vec<i64>,
    node_count: usize,
    tick_count: u32,
) -> (text: String)
    ensures
        text@ == export_text(*input, snaps@, final_desirability@, node_count, tick_count),
{
    let mut out = String::new();
    push_text(&mut out, "COMPOUND-FIELD-0080-2|scenario=");
    push_text(&mut out, COMPOUND_FIELD_0080_2_SCENARIO);
    push_text(&mut out, "|nodes=");
    push_decimal_u64(&mut out, node_count as u64);
    push_text(&mut out, "|ticks=");
    push_decimal_u64(&mut out, tick_count as u64);
    push_text(&mut out, "|patrol_repulsion=");
    push_decimal_i64(&mut out, input.weights.patrol_repulsion);
    push_text(&mut out, "|disruption_penalty=");
    push_decimal_i64(&mut out, input.weights.disruption_penalty);
    push_text(&mut out, "|base=");
    push_decimal_i64(&mut out, BASE_DESIRABILITY);
    let ghost header = out@;
    let positions = &input.node_positions;
    let mut p: usize = 0;
    while p < positions.len()
        invariant
            p <= positions@.len(),
            out@ == positions_text(header, positions@.take(p as int)),
        decreases positions@.len() - p,
    {
        push_text(&mut out, "\n");
        push_text(&mut out, "NODE_POS|x=");
        push_decimal_i64(&mut out, positions[p].x as i64);
        push_text(&mut out, "|y=");
        push_decimal_i64(&mut out, positions[p].y as i64);
        proof {
            assert(positions@.take(p + 1).drop_last() == positions@.take(p as int));
        }
        p = p + 1;
    }
    proof {
        assert(positions@.take(positions@.len() as int) == positions@);
    }
    let ghost with_positions = out@;
    let mut k: usize = 0;
    while k < snaps.len()
        invariant
            k <= snaps@.len(),
            out@ == snapshots_text(with_positions, snaps@.take(k as int)),
        decreases snaps@.len() - k,
    {
        push_snapshot_line(&mut out, &snaps[k]);
        proof {
            assert(snaps@.take(k + 1).drop_last() == snaps@.take(k as int));
        }
        k = k + 1;
    }
    proof {
        assert(snaps@.take(snaps@.len() as int) == snaps@);
    }
    let ghost body = out@;
    let mut n: usize = 0;
    while n < final_desirability.len()
        invariant
            n <= final_desirability@.len(),
            out@ == finals_text(body, final_desirability@.take(n as int)),
        decreases final_desirability@.len() - n,
    {
        push_text(&mut out, "\n");
        push_text(&mut out, "FINAL|node=");
        push_decimal_u64(&mut out, n as u64);
        push_text(&mut out, "|desirability=");
        push_decimal_i64(&mut out, final_desirability[n]);
        proof {
            assert(final_desirability@.take(n + 1).drop_last() == final_desirability@.take(n as int));
        }
        n = n + 1;
    }
    proof {
        assert(final_desirability@.take(final_desirability@.len() as int) == final_desirability@);
    }
    out
}

/// Hash of one snapshot: tick, node, disruption, patrol, desirability.
pub open spec fn snapshot_hash(h: u64, s: CompoundField0082TickSnapshot) -> u64 {
    fnv_append_spec(fnv_append_spec(fnv_append_spec(fnv_append_spec(fnv_append_spec(
        h, s.tick as u64), s.node as u64), s.disruption as u64), s.patrol_field as u64), s.desirability as u64)
}

/// Hash of every snapshot in order.
pub open spec fn snapshots_hash(h: u64, snaps: Seq<CompoundField0082TickSnapshot>) -> u64
    decreases snaps.len(),
{
    if snaps.len() == 0 {
        h
    } else {
        snapshot_hash(snapshots_hash(h, snaps.drop_last()), snaps.last())
    }
}

/// Hash of a list of values, each as its 64-bit two's-complement word.
pub open spec fn values_hash(h: u64, values: Seq<i64>) -> u64
    decreases values.len(),
{
    if values.len() == 0 {
        h
    } else {
        fnv_append_spec(values_hash(h, values.drop_last()), values.last() as u64)
    }
}

/// Replay checksum over the counts, the snapshots and the final desirability.
pub open spec fn report_checksum(
    node_count: usize,
    tick_count: u32,
    snaps: Seq<CompoundField0082TickSnapshot>,
    finals: Seq<i64>,
) -> u64 {
    let h = fnv_append_spec(fnv_append_spec(FNV_OFFSET_BASIS, node_count as u64), tick_count as u64);
    values_hash(snapshots_hash(h, snaps), finals)
}

fn checksum_parts(
    node_count: usize,
    tick_count: u32,
    snaps: &Vec<CompoundField0082TickSnapshot>,
    finals: &Vec<i64>,
) -> (r: u64)
    ensures
        r == report_checksum(node_count, tick_count, snaps@, finals@),
{
    let mut hash = FNV_OFFSET_BASIS;
    hash = fnv_append_u64(hash, node_count as u64);
    hash = fnv_append_u64(hash, tick_count as u64);
    let ghost h0 = hash;
    let mut k: usize = 0;
    while k < snaps.len()
        invariant
            k <= snaps@.len(),
            hash == snapshots_hash(h0, snaps@.take(k as int)),
        decreases snaps@.len() - k,
    {
        let s = snaps[k];
        hash = fnv_append_u64(hash, s.tick as u64);
        hash = fnv_append_u64(hash, s.node as u64);
        hash = fnv_append_u64(hash, s.disruption as u64);
        hash = fnv_append_u64(hash, s.patrol_field as u64);
        hash = fnv_append_u64(hash, s.desirability as u64);
        proof {
            assert(snaps@.take(k + 1).drop_last() == snaps@.take(k as int));
        }
        k = k + 1;
    }
    proof {
        assert(snaps@.take(snaps@.len() as int) == snaps@);
    }
    let ghost h1 = hash;
    let mut n: usize = 0;
    while n < finals.len()
        invariant
            n <= finals@.len(),
            hash == values_hash(h1, finals@.take(n as int)),
        decreases finals@.len() - n,
    {
        hash = fnv_append_u64(hash, finals[n] as u64);
        proof {
            assert(finals@.take(n + 1).drop_last() == finals@.take(n as int));
        }
        n = n + 1;
    }
    proof {
        assert(finals@.take(finals@.len() as int) == finals@);
    }
    hash
}

/// Outcome of one run of the compound field.
#[derive(Clone, Debug, PartialEq, Eq)]
pub struct CompoundField0082Report {
    pub id: &'static str,
    pub status: &'static str,
    pub scenario_name: &'static str,
    pub admitted: bool,
    pub diagnostics: Vec<&'static str>,
    pub explicit_opt_in: bool,
    pub default_off: bool,
    pub disabled_no_op: bool,
    pub no_gradient_follow_movement: bool,
    pub no_write_to_disruption_column: bool,
    pub single_writer_per_field_column: bool,
    pub no_new_gpu_kernel: bool,
    pub no_cpu_planner: bool,
    pub no_default_session_pass_graph_wiring: bool,
    pub no_global_default_schedule: bool,
    pub does_not_reopen_closed_0080_1_ladder: bool,
    pub node_count: usize,
    pub tick_count: u32,
    pub node_positions: Vec<CompoundField0082NodePos>,
    /// `snapshots[tick * node_count + node]`.
    pub snapshots: Vec<CompoundField0082TickSnapshot>,
    /// Last-tick desirability per node.
    pub final_desirability: Vec<i64>,
    /// Last-tick disruption per node.
    pub final_disruption: Vec<i64>,
    pub patrol_repels: bool,
    pub disrupted_still_passable: bool,
    pub clean_node_reaches_base: bool,
    pub final_field_ordering_correct: bool,
    pub text_export: String,
    pub deterministic_replay_checksum: u64,
}

/// Every diagnostic of the input itself, in check order: surface, forbidden requests, parameters.
pub open spec fn run_diagnostics(input: CompoundField0082Input) -> Seq<&'static str> {
    param_diagnostics(forbidden_diagnostics(surface_diagnostics(Seq::empty(), input.surface), input.forbidden), input)
}

/// Guardrail and identity fields every report carries.
pub open spec fn report_frame(r: CompoundField0082Report, input: CompoundField0082Input) -> bool {
    &&& r.id == COMPOUND_FIELD_0080_2_ID
    &&& r.status == COMPOUND_FIELD_0080_2_STATUS_PASS
    &&& r.scenario_name == COMPOUND_FIELD_0080_2_SCENARIO
    &&& r.explicit_opt_in == input.surface.gate.explicit_opt_in
    &&& r.default_off == !input.surface.gate.enabled_by_default
    &&& r.no_gradient_follow_movement == (!input.surface.gradient_follow_movement
        && !input.forbidden.gradient_follow_movement)
    &&& r.no_write_to_disruption_column == !input.forbidden.write_to_disruption_column
    &&& r.single_writer_per_field_column == !input.forbidden.second_writer_on_any_field_column
    &&& r.no_new_gpu_kernel == !input.forbidden.new_shader_or_gpu_kernel
    &&& r.no_cpu_planner == !input.forbidden.cpu_planner_urgency_commitment
    &&& r.no_default_session_pass_graph_wiring == (!input.surface.default_session_pass_graph_wiring
        && !input.forbidden.default_session_pass_graph_wiring)
    &&& r.no_global_default_schedule == (!input.surface.global_default_schedule
        && !input.forbidden.global_default_schedule)
    &&& r.does_not_reopen_closed_0080_1_ladder == !input.forbidden.reopen_closed_0080_1_ladder
}

/// Fields derived from the snapshots, with counts and positions blanked for a disabled no-op.
pub open spec fn report_results(
    r: CompoundField0082Report,
    input: CompoundField0082Input,
    disabled_no_op: bool,
    snaps: Seq<CompoundField0082TickSnapshot>,
) -> bool {
    &&& r.disabled_no_op == disabled_no_op
    &&& r.node_count == (if disabled_no_op { 0 } else { input.disruption_input.node_count })
    &&& r.tick_count == (if disabled_no_op { 0 } else { input.disruption_input.tick_count })
    &&& r.node_positions@ == (if disabled_no_op { Seq::empty() } else { input.node_positions@ })
    &&& r.snapshots@ == snaps
    &&& r.final_desirability@ == final_values(snaps, r.node_count, r.tick_count, true)
    &&& r.final_disruption@ == final_values(snaps, r.node_count, r.tick_count, false)
    &&& r.patrol_repels == (snaps.len() > 0 && patrol_repels(snaps))
    &&& r.disrupted_still_passable == (snaps.len() > 0 && disrupted_still_passable(snaps))
    &&& r.clean_node_reaches_base == (snaps.len() > 0 && clean_node_reaches_base(snaps))
    &&& r.final_field_ordering_correct == (snaps.len() > 0
        && final_field_ordering_correct(snaps, r.node_count, r.tick_count))
    &&& r.text_export@ == (if !disabled_no_op && input.surface.gate.explicit_opt_in {
        export_text(input, snaps, r.final_desirability@, r.node_count, r.tick_count)
    } else {
        Seq::empty()
    })
    &&& r.deterministic_replay_checksum == report_checksum(r.node_count, r.tick_count, snaps, r.final_desirability@)
}

fn copy_positions(positions: &Vec<CompoundField0082NodePos>) -> (r: Vec<CompoundField0082NodePos>)
    ensures
        r@ == positions@,
{
    let mut out: Vec<CompoundField0082NodePos> = Vec::new();
    let mut k: usize = 0;
    while k < positions.len()
        invariant
            k <= positions@.len(),
            out@ == positions@.take(k as int),
        decreases positions@.len() - k,
    {
        out.push(positions[k]);
        k = k + 1;
    }
    proof {
        assert(positions@.take(positions@.len() as int) == positions@);
    }
    out
}

fn base_report(
    input: &CompoundField0082Input,
    disabled_no_op: bool,
    diagnostics: Vec<&'static str>,
    snapshots: Vec<CompoundField0082TickSnapshot>,
) -> (r: CompoundField0082Report)
    ensures
        report_frame(r, *input),
        report_results(r, *input, disabled_no_op, snapshots@),
        r.admitted,
        r.diagnostics@ == diagnostics@,
{
    let opt_in = input.surface.gate.explicit_opt_in;
    let node_count = if disabled_no_op { 0 } else { input.disruption_input.node_count };
    let tick_count = if disabled_no_op { 0 } else { input.disruption_input.tick_count };
    let final_desirability = compute_finals(&snapshots, node_count, tick_count, true);
    let final_disruption = compute_finals(&snapshots, node_count, tick_count, false);
    let (patrol_repels, disrupted_still_passable, clean_node_reaches_base, final_field_ordering_correct) =
        if snapshots.len() > 0 {
            behavioural_diagnostics(&snapshots, node_count, tick_count)
        } else {
            (false, false, false, false)
        };
    let text_export = if !disabled_no_op && opt_in {
        render_export(input, &snapshots, &final_desirability, node_count, tick_count)
    } else {
        String::new()
    };
    let node_positions = if disabled_no_op { Vec::new() } else { copy_positions(&input.node_positions) };
    let checksum = checksum_parts(node_count, tick_count, &snapshots, &final_desirability);
    CompoundField0082Report {
        id: COMPOUND_FIELD_0080_2_ID,
        status: COMPOUND_FIELD_0080_2_STATUS_PASS,
        scenario_name: COMPOUND_FIELD_0080_2_SCENARIO,
        admitted: true,
        diagnostics,
        explicit_opt_in: opt_in,
        default_off: !input.surface.gate.enabled_by_default,
        disabled_no_op,
        no_gradient_follow_movement: !input.surface.gradient_follow_movement
            && !input.forbidden.gradient_follow_movement,
        no_write_to_disruption_column: !input.forbidden.write_to_disruption_column,
        single_writer_per_field_column: !input.forbidden.second_writer_on_any_field_column,
        no_new_gpu_kernel: !input.forbidden.new_shader_or_gpu_kernel,
        no_cpu_planner: !input.forbidden.cpu_planner_urgency_commitment,
        no_default_session_pass_graph_wiring: !input.surface.default_session_pass_graph_wiring
            && !input.forbidden.default_session_pass_graph_wiring,
        no_global_default_schedule: !input.surface.global_default_schedule
            && !input.forbidden.global_default_schedule,
        does_not_reopen_closed_0080_1_ladder: !input.forbidden.reopen_closed_0080_1_ladder,
        node_count,
        tick_count,
        node_positions,
        snapshots,
        final_desirability,
        final_disruption,
        patrol_repels,
        disrupted_still_passable,
        clean_node_reaches_base,
        final_field_ordering_correct,
        text_export,
        deterministic_replay_checksum: checksum,
    }
}

/// The snapshots a run computes: the field over the disruption recurrence's transitions.
pub open spec fn run_snapshots(input: CompoundField0082Input) -> Seq<CompoundField0082TickSnapshot> {
    let d = input.disruption_input;
    let c = spec_compose(d.decay_weights).unwrap();
    snapshots_upto(input, decay_rows(d, c.0, c.1, d.tick_count as nat), d.node_count as nat, d.tick_count as nat)
}

/// With no diagnostics of its own, the weights are nonnegative.
#[verifier::spinoff_prover]
#[verifier::rlimit(40)]
proof fn lemma_clean_params(input: CompoundField0082Input)
    requires
        run_diagnostics(input).len() == 0,
    ensures
        input.weights.patrol_repulsion >= 0,
        input.weights.disruption_penalty >= 0,
{
    broadcast use crate::diagnostics::lemma_flag_diag;
}

/// What `run_compound_field_0080_2` returns for `input`.
pub open spec fn run_compound_field_post(input: CompoundField0082Input, r: CompoundField0082Report) -> bool {
    &&& report_frame(r, input)
    &&& run_diagnostics(input).len() > 0 ==> {
        &&& !r.admitted
        &&& r.diagnostics@ == run_diagnostics(input)
        &&& report_results(r, input, false, Seq::empty())
    }
    &&& run_diagnostics(input).len() == 0 && !input.surface.gate.explicit_opt_in ==> {
        &&& r.admitted
        &&& r.diagnostics@.len() == 0
        &&& report_results(r, input, true, Seq::empty())
    }
    &&& run_diagnostics(input).len() == 0 && input.surface.gate.explicit_opt_in
        && !run_computes(input.disruption_input) ==> {
        &&& !r.admitted
        &&& r.diagnostics@ == seq!["disruption_rung_not_admitted"]
        &&& report_results(r, input, false, Seq::empty())
    }
    &&& run_diagnostics(input).len() == 0 && input.surface.gate.explicit_opt_in
        && run_computes(input.disruption_input) ==> {
        &&& r.admitted
        &&& r.diagnostics@.len() == 0
        &&& report_results(r, input, false, run_snapshots(input))
    }
}

/// Runs the compound desirability field for one input. Rejected inputs report their
/// diagnostics (not admitted); a closed gate is a disabled no-op; a disruption input that
/// does not itself run is reported as `disruption_rung_not_admitted`; otherwise every node of
/// every tick gets its snapshot.
#[verifier::rlimit(60)]
pub fn run_compound_field_0080_2(input: &CompoundField0082Input) -> (r: CompoundField0082Report)
    ensures
        run_compound_field_post(*input, r),
{
    let mut diagnostics: Vec<&'static str> = Vec::new();
    validate_surface(&input.surface, &mut diagnostics);
    validate_forbidden(&input.forbidden, &mut diagnostics);
    validate_params(input, &mut diagnostics);
    if diagnostics.len() > 0 {
        let mut report = base_report(input, false, diagnostics, Vec::new());
        report.admitted = false;
        return report;
    }
    if !input.surface.gate.explicit_opt_in {
        return base_report(input, true, diagnostics, Vec::new());
    }
    let disruption_report = run_disruption_decay_0080_2(&input.disruption_input);
    if !disruption_report.admitted || disruption_report.disabled_no_op {
        let mut report = base_report(input, false, Vec::new(), Vec::new());
        report.diagnostics.push("disruption_rung_not_admitted");
        report.admitted = false;
        return report;
    }
    proof {
        lemma_clean_params(*input);
        lemma_clean_run(input.disruption_input);
        let c = spec_compose(input.disruption_input.decay_weights).unwrap();
        lemma_decay_rows_bounded(input.disruption_input, c.0, c.1, input.disruption_input.tick_count as nat);
    }
    let node_count = input.disruption_input.node_count;
    let tick_count = input.disruption_input.tick_count;
    let snapshots = compute_snapshots(input, &disruption_report.rows, node_count, tick_count);
    base_report(input, false, Vec::new(), snapshots)
}

/// Two identical runs of the canonical trial, for deterministic-replay checks.
pub fn replay_compound_field_0080_2() -> (r: (CompoundField0082Report, CompoundField0082Report))
    ensures
        r.0.admitted == r.1.admitted,
        r.0.diagnostics@ == r.1.diagnostics@,
        r.0.snapshots@ == r.1.snapshots@,
        r.0.final_desirability@ == r.1.final_desirability@,
        r.0.final_disruption@ == r.1.final_disruption@,
        r.0.text_export@ == r.1.text_export@,
        r.0.deterministic_replay_checksum == r.1.deterministic_replay_checksum,
        exists|input: CompoundField0082Input| #![trigger canonical_trial_input(input)]
            canonical_trial_input(input) && run_compound_field_post(input, r.0),
{
    let input = CompoundField0082Input::explicit_opt_in();
    let a = run_compound_field_0080_2(&input);
    let b = run_compound_field_0080_2(&input);
    proof {
        assert(a.diagnostics@ =~= b.diagnostics@);
        assert(a.snapshots@ =~= b.snapshots@);
        assert(a.final_desirability@ =~= b.final_desirability@);
        assert(a.final_disruption@ =~= b.final_disruption@);
        assert(a.text_export@ =~= b.text_export@);
        assert(canonical_trial_input(input) && run_compound_field_post(input, a));
    }
    (a, b)
}

/// A system held by three patrols or more floors to 0 desirability, whatever the weights and
/// its disruption.
pub proof fn lemma_patrol_floor(weights: CompoundField0082Weights, disruption: i64, patrol: i64)
    requires
        patrol >= PATROL_FLOOR_PRESENCE,
    ensures
        desirability_of(weights, disruption, patrol) == 0,
{
}

/// Desirability always lies within `[0, DESIRABILITY_MAX]`.
pub proof fn lemma_desirability_in_range(weights: CompoundField0082Weights, disruption: i64, patrol: i64)
    ensures
        0 <= desirability_of(weights, disruption, patrol) <= DESIRABILITY_MAX,
{
}

/// A clean node (no patrol, no disruption) sits exactly at base desirability.
pub proof fn lemma_clean_node_at_base(weights: CompoundField0082Weights)
    ensures
        desirability_of(weights, 0, 0) == BASE_DESIRABILITY,
{
    assert(weights.patrol_repulsion * 0 == 0) by (nonlinear_arith);
    assert(weights.disruption_penalty * (0i64 / DISRUPTION_SCALE) == 0) by (nonlinear_arith);
}

/// With nonnegative weights, more patrol or more disruption never raises desirability.
pub proof fn lemma_desirability_monotone(
    weights: CompoundField0082Weights,
    d1: i64,
    p1: i64,
    d2: i64,
    p2: i64,
)
    requires
        weights.patrol_repulsion >= 0,
        weights.disruption_penalty >= 0,
        0 <= d1 <= d2,
        0 <= p1 <= p2,
    ensures
        desirability_of(weights, d2, p2) <= desirability_of(weights, d1, p1),
{
    assert(weights.patrol_repulsion * p1 <= weights.patrol_repulsion * p2) by (nonlinear_arith)
        requires weights.patrol_repulsion >= 0, p1 <= p2;
    assert(d1 / DISRUPTION_SCALE <= d2 / DISRUPTION_SCALE) by (nonlinear_arith)
        requires 0 <= d1 <= d2;
    assert(weights.disruption_penalty * (d1 / DISRUPTION_SCALE) <= weights.disruption_penalty * (d2 / DISRUPTION_SCALE))
        by (nonlinear_arith)
        requires weights.disruption_penalty >= 0, d1 / DISRUPTION_SCALE <= d2 / DISRUPTION_SCALE;
}

/// Patrols repel: with a positive repulsion, any patrol presence puts a node strictly below
/// base desirability, whatever its (nonnegative) disruption.
pub proof fn lemma_patrol_repels(weights: CompoundField0082Weights, disruption: i64, patrol: i64)
    requires
        weights.patrol_repulsion > 0,
        weights.disruption_penalty >= 0,
        disruption >= 0,
        patrol > 0,
    ensures
        desirability_of(weights, disruption, patrol) < BASE_DESIRABILITY,
{
    assert(weights.patrol_repulsion * patrol > 0) by (nonlinear_arith)
        requires weights.patrol_repulsion > 0, patrol > 0;
    assert(weights.disruption_penalty * (disruption / DISRUPTION_SCALE) >= 0) by (nonlinear_arith)
        requires weights.disruption_penalty >= 0, disruption >= 0;
}

/// Disruption alone never closes a node: without patrol and with disruption at most
/// `DISRUPTION_MAX`, desirability stays at least `BASE - 100 * disruption_penalty`.
pub proof fn lemma_disrupted_still_passable(weights: CompoundField0082Weights, disruption: i64)
    requires
        weights.disruption_penalty >= 0,
        0 <= disruption <= DISRUPTION_MAX,
    ensures
        desirability_of(weights, disruption, 0) >= BASE_DESIRABILITY - 100 * weights.disruption_penalty,
{
    assert(disruption / DISRUPTION_SCALE <= 100) by (nonlinear_arith)
        requires 0 <= disruption <= 100_000;
    assert(weights.disruption_penalty * (disruption / DISRUPTION_SCALE) <= weights.disruption_penalty * 100)
        by (nonlinear_arith)
        requires weights.disruption_penalty >= 0, 0 <= disruption / DISRUPTION_SCALE <= 100;
}

} // verus!
