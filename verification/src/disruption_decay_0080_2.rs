//! Accumulated-disruption field with bounded-feedback decay on a sparse set of location
//! nodes (rung 1 of the Pirate Gradient Pathfinding scenario). Opt-in, default off.
//!
//! Per node, per tick (the sole writer of the `disruption` column):
//!
//! ```text
//! retained   = floor(disruption * retain_num / retain_den)
//! gained     = mover_presence_units * gain_per_presence_unit   (saturating)
//! suppressed = patrol_presence      * suppression_per_patrol   (saturating)
//! disruption = clamp(retained + gained - suppressed, 0, DISRUPTION_MAX)
//! ```
//!
//! The retention coefficient is a base weight composed multiplicatively with modifiers,
//! each at most 1, so modifiers can only accelerate decay; the composed coefficient must
//! lie in `[0, 1)`, which keeps the recurrence bounded.
use crate::decimal_text::{decimal_int, decimal_nat, push_decimal_i64, push_decimal_u64, push_text};
use crate::diagnostics::{flag_diag, push_if};
use crate::replay_hash::{fnv_append_spec, fnv_append_u64, FNV_OFFSET_BASIS};
use vstd::prelude::*;

verus! {

pub const DISRUPTION_DECAY_0080_2_ID: &'static str = "DISRUPTION-DECAY-0080-2";
pub const DISRUPTION_DECAY_0080_2_SCENARIO: &'static str = "Pirate Gradient Pathfinding";
pub const DISRUPTION_DECAY_0080_2_STATUS_PASS: &'static str =
    "IMPLEMENTED / PASS - scenario-scoped accumulated-disruption bounded-feedback decay field";

/// Fixed-point scale: one disruption unit is `DISRUPTION_SCALE` integer milliunits.
pub const DISRUPTION_SCALE: i64 = 1_000;
/// Bounded ceiling on accumulated disruption (clamp target).
pub const DISRUPTION_MAX: i64 = 100 * DISRUPTION_SCALE;

const DEFAULT_TICK_COUNT: u32 = 20;
const DEFAULT_NODE_COUNT: usize = 4;
/// Most retention modifiers one decay weight may compose.
pub const MAX_DECAY_MODIFIERS: usize = 8;

/// Opt-in gate.
#[derive(Clone, Copy, Debug, PartialEq, Eq)]
pub struct DisruptionDecay0082Gate {
    pub explicit_opt_in: bool,
    pub enabled_by_default: bool,
}

impl Default for DisruptionDecay0082Gate {
    /// Closed gate.
    fn default() -> (r: Self)
        ensures
            !r.explicit_opt_in && !r.enabled_by_default,
    {
        DisruptionDecay0082Gate { explicit_opt_in: false, enabled_by_default: false }
    }
}

impl DisruptionDecay0082Gate {
    /// Opted in, still not enabled by default.
    pub fn explicit_opt_in() -> (r: Self)
        ensures
            r.explicit_opt_in && !r.enabled_by_default,
    {
        DisruptionDecay0082Gate { explicit_opt_in: true, enabled_by_default: false }
    }
}

/// Session surface the field is registered on.
#[derive(Clone, Copy, Debug, PartialEq, Eq)]
pub struct DisruptionDecay0082Surface {
    pub gate: DisruptionDecay0082Gate,
    pub scenario_scoped_field_registered: bool,
    pub global_decay_overlay_write: bool,
    pub default_session_pass_graph_wiring: bool,
    pub global_default_schedule: bool,
    pub gradient_follow_movement: bool,
    pub realtime_loop: bool,
    pub ui_framework: bool,
}

/// A surface with every flag cleared and a closed gate.
pub open spec fn surface_all_clear(s: DisruptionDecay0082Surface) -> bool {
    &&& !s.gate.enabled_by_default
    &&& !s.global_decay_overlay_write
    &&& !s.default_session_pass_graph_wiring
    &&& !s.global_default_schedule
    &&& !s.gradient_follow_movement
    &&& !s.realtime_loop
    &&& !s.ui_framework
}

impl Default for DisruptionDecay0082Surface {
    /// Nothing registered, gate closed.
    fn default() -> (r: Self)
        ensures
            surface_all_clear(r),
            !r.gate.explicit_opt_in,
            !r.scenario_scoped_field_registered,
    {
        DisruptionDecay0082Surface {
            gate: DisruptionDecay0082Gate::default(),
            scenario_scoped_field_registered: false,
            global_decay_overlay_write: false,
            default_session_pass_graph_wiring: false,
            global_default_schedule: false,
            gradient_follow_movement: false,
            realtime_loop: false,
            ui_framework: false,
        }
    }
}

impl DisruptionDecay0082Surface {
    /// The default session: gate closed, nothing registered.
    pub fn default_simsession() -> (r: Self)
        ensures
            surface_all_clear(r),
            !r.gate.explicit_opt_in,
            !r.scenario_scoped_field_registered,
    {
        Self::default()
    }

    /// Opted in, with the scenario-scoped field registered.
    pub fn with_explicit_opt_in() -> (r: Self)
        ensures
            surface_all_clear(r),
            r.gate.explicit_opt_in,
            r.scenario_scoped_field_registered,
    {
        DisruptionDecay0082Surface {
            gate: DisruptionDecay0082Gate::explicit_opt_in(),
            scenario_scoped_field_registered: true,
            ..Self::default()
        }
    }
}

/// Requests this rung must refuse.
#[derive(Clone, Copy, Debug, PartialEq, Eq)]
pub struct DisruptionDecay0082ForbiddenRequests {
    pub global_decay_overlay_write: bool,
    pub unbounded_decay_coefficient: bool,
    pub decay_writes_non_subscribed_column: bool,
    pub second_writer_on_disruption_column: bool,
    pub gradient_follow_movement: bool,
    pub direct_movement_command: bool,
    pub external_boundary_request: bool,
    pub cpu_planner_urgency_commitment: bool,
    pub default_session_pass_graph_wiring: bool,
    pub global_default_schedule: bool,
    pub realtime_loop_or_ui: bool,
    pub semantic_or_raw_wgsl: bool,
    pub new_shader_or_gpu_kernel: bool,
    pub hard_currency_markets_trade_aibudget: bool,
    pub nested_resource_flow: bool,
    pub clausething_dependency: bool,
    pub simthing_spec_alteration: bool,
    pub invariant_edit: bool,
    pub reopen_closed_0080_1_ladder: bool,
}

impl Default for DisruptionDecay0082ForbiddenRequests {
    /// Nothing requested.
    fn default() -> (r: Self)
        ensures
            forbidden_diagnostics(Seq::empty(), r).len() == 0,
    {
        broadcast use crate::diagnostics::lemma_flag_diag;
        DisruptionDecay0082ForbiddenRequests {
            global_decay_overlay_write: false,
            unbounded_decay_coefficient: false,
            decay_writes_non_subscribed_column: false,
            second_writer_on_disruption_column: false,
            gradient_follow_movement: false,
            direct_movement_command: false,
            external_boundary_request: false,
            cpu_planner_urgency_commitment: false,
            default_session_pass_graph_wiring: false,
            global_default_schedule: false,
            realtime_loop_or_ui: false,
            semantic_or_raw_wgsl: false,
            new_shader_or_gpu_kernel: false,
            hard_currency_markets_trade_aibudget: false,
            nested_resource_flow: false,
            clausething_dependency: false,
            simthing_spec_alteration: false,
            invariant_edit: false,
            reopen_closed_0080_1_ladder: false,
        }
    }
}

/// A multiplicative retention factor `num / den`; admitted only with `num <= den`.
#[derive(Clone, Copy, Debug, PartialEq, Eq)]
pub struct DisruptionDecay0082RetentionFactor {
    pub label: &'static str,
    pub num: u64,
    pub den: u64,
}

/// Base retention times any number of retention modifiers.
#[derive(Clone, Debug, PartialEq, Eq)]
pub struct DisruptionDecay0082DecayWeights {
    pub base_retain_num: u64,
    pub base_retain_den: u64,
    pub modifiers: Vec<DisruptionDecay0082RetentionFactor>,
}

impl DisruptionDecay0082DecayWeights {
    /// Base 9/10 with one 95/100 faction-tech modifier (composed 171/200).
    pub fn canonical() -> (r: Self)
        ensures
            r.base_retain_num == 9,
            r.base_retain_den == 10,
            r.modifiers@.len() == 1,
            r.modifiers@[0].num == 95,
            r.modifiers@[0].den == 100,
            r.modifiers@[0].label == "faction_tech_decay_bonus",
    {
        let mut modifiers = Vec::new();
        modifiers.push(DisruptionDecay0082RetentionFactor { label: "faction_tech_decay_bonus", num: 95, den: 100 });
        DisruptionDecay0082DecayWeights { base_retain_num: 9, base_retain_den: 10, modifiers }
    }
}

/// Scripted per-node presence for one tick.
#[derive(Clone, Copy, Debug, PartialEq, Eq)]
pub struct DisruptionDecay0082Presence {
    pub mover_presence_units: i64,
    pub patrol_presence: i64,
}

impl Default for DisruptionDecay0082Presence {
    /// Nobody present.
    fn default() -> (r: Self)
        ensures
            r.mover_presence_units == 0 && r.patrol_presence == 0,
    {
        DisruptionDecay0082Presence { mover_presence_units: 0, patrol_presence: 0 }
    }
}

/// Input of one run: `presence_schedule[tick][node]`.
#[derive(Clone, Debug, PartialEq, Eq)]
pub struct DisruptionDecay0082Input {
    pub surface: DisruptionDecay0082Surface,
    pub node_count: usize,
    pub tick_count: u32,
    pub decay_weights: DisruptionDecay0082DecayWeights,
    pub gain_per_presence_unit: i64,
    pub suppression_per_patrol: i64,
    pub presence_schedule: Vec<Vec<DisruptionDecay0082Presence>>,
    pub forbidden: DisruptionDecay0082ForbiddenRequests,
}

/// `acc` followed by the diagnostics for the surface flags, in check order.
pub open spec fn surface_diagnostics(acc: Seq<&'static str>, s: DisruptionDecay0082Surface) -> Seq<&'static str> {
    acc + flag_diag(s.gate.enabled_by_default, "disruption_decay_default_on_rejected")
        + flag_diag(s.global_decay_overlay_write, "global_decay_overlay_write_rejected")
        + flag_diag(s.default_session_pass_graph_wiring, "default_session_pass_graph_wiring")
        + flag_diag(s.global_default_schedule, "global_default_schedule")
        + flag_diag(s.gradient_follow_movement, "gradient_follow_movement_not_in_this_rung")
        + flag_diag(s.realtime_loop, "realtime_loop")
        + flag_diag(s.ui_framework, "ui_framework")
}

/// `acc` followed by the diagnostics for the forbidden requests, in check order.
pub open spec fn forbidden_diagnostics(acc: Seq<&'static str>, f: DisruptionDecay0082ForbiddenRequests) -> Seq<&'static str> {
    acc + flag_diag(f.global_decay_overlay_write, "global_decay_overlay_write_rejected")
        + flag_diag(f.unbounded_decay_coefficient, "unbounded_decay_coefficient")
        + flag_diag(f.decay_writes_non_subscribed_column, "decay_writes_non_subscribed_column")
        + flag_diag(f.second_writer_on_disruption_column, "second_writer_on_disruption_column")
        + flag_diag(f.gradient_follow_movement, "gradient_follow_movement_not_in_this_rung")
        + flag_diag(f.direct_movement_command, "direct_movement_command")
        + flag_diag(f.external_boundary_request, "external_boundary_request")
        + flag_diag(f.cpu_planner_urgency_commitment, "cpu_planner_urgency_commitment")
        + flag_diag(f.default_session_pass_graph_wiring, "default_session_pass_graph_wiring")
        + flag_diag(f.global_default_schedule, "global_default_schedule")
        + flag_diag(f.realtime_loop_or_ui, "realtime_loop_or_ui")
        + flag_diag(f.semantic_or_raw_wgsl, "semantic_or_raw_wgsl")
        + flag_diag(f.new_shader_or_gpu_kernel, "new_shader_or_gpu_kernel")
        + flag_diag(f.hard_currency_markets_trade_aibudget, "hard_currency_markets_trade_aibudget")
        + flag_diag(f.nested_resource_flow, "nested_resource_flow")
        + flag_diag(f.clausething_dependency, "clausething_dependency")
        + flag_diag(f.simthing_spec_alteration, "simthing_spec_alteration")
        + flag_diag(f.invariant_edit, "invariant_edit")
        + flag_diag(f.reopen_closed_0080_1_ladder, "reopen_closed_0080_1_ladder")
}

fn validate_surface(surface: &DisruptionDecay0082Surface, diagnostics: &mut Vec<&'static str>)
    ensures
        final(diagnostics)@ == surface_diagnostics(old(diagnostics)@, *surface),
{
    push_if(diagnostics, surface.gate.enabled_by_default, "disruption_decay_default_on_rejected");
    push_if(diagnostics, surface.global_decay_overlay_write, "global_decay_overlay_write_rejected");
    push_if(diagnostics, surface.default_session_pass_graph_wiring, "default_session_pass_graph_wiring");
    push_if(diagnostics, surface.global_default_schedule, "global_default_schedule");
    push_if(diagnostics, surface.gradient_follow_movement, "gradient_follow_movement_not_in_this_rung");
    push_if(diagnostics, surface.realtime_loop, "realtime_loop");
    push_if(diagnostics, surface.ui_framework, "ui_framework");
}

#[verifier::rlimit(40)]
fn validate_forbidden(forbidden: &DisruptionDecay0082ForbiddenRequests, diagnostics: &mut Vec<&'static str>)
    ensures
        final(diagnostics)@ == forbidden_diagnostics(old(diagnostics)@, *forbidden),
{
    push_if(diagnostics, forbidden.global_decay_overlay_write, "global_decay_overlay_write_rejected");
    push_if(diagnostics, forbidden.unbounded_decay_coefficient, "unbounded_decay_coefficient");
    push_if(diagnostics, forbidden.decay_writes_non_subscribed_column, "decay_writes_non_subscribed_column");
    push_if(diagnostics, forbidden.second_writer_on_disruption_column, "second_writer_on_disruption_column");
    push_if(diagnostics, forbidden.gradient_follow_movement, "gradient_follow_movement_not_in_this_rung");
    push_if(diagnostics, forbidden.direct_movement_command, "direct_movement_command");
    push_if(diagnostics, forbidden.external_boundary_request, "external_boundary_request");
    push_if(diagnostics, forbidden.cpu_planner_urgency_commitment, "cpu_planner_urgency_commitment");
    push_if(diagnostics, forbidden.default_session_pass_graph_wiring, "default_session_pass_graph_wiring");
    push_if(diagnostics, forbidden.global_default_schedule, "global_default_schedule");
    push_if(diagnostics, forbidden.realtime_loop_or_ui, "realtime_loop_or_ui");
    push_if(diagnostics, forbidden.semantic_or_raw_wgsl, "semantic_or_raw_wgsl");
    push_if(diagnostics, forbidden.new_shader_or_gpu_kernel, "new_shader_or_gpu_kernel");
    push_if(diagnostics, forbidden.hard_currency_markets_trade_aibudget, "hard_currency_markets_trade_aibudget");
    push_if(diagnostics, forbidden.nested_resource_flow, "nested_resource_flow");
    push_if(diagnostics, forbidden.clausething_dependency, "clausething_dependency");
    push_if(diagnostics, forbidden.simthing_spec_alteration, "simthing_spec_alteration");
    push_if(diagnostics, forbidden.invariant_edit, "invariant_edit");
    push_if(diagnostics, forbidden.reopen_closed_0080_1_ladder, "reopen_closed_0080_1_ladder");
}

/// `acc` followed by the per-modifier diagnostics of `mods`, in order.
pub open spec fn modifier_diagnostics(
    acc: Seq<&'static str>,
    mods: Seq<DisruptionDecay0082RetentionFactor>,
) -> Seq<&'static str>
    decreases mods.len(),
{
    if mods.len() == 0 {
        acc
    } else {
        let m = mods.last();
        modifier_diagnostics(acc, mods.drop_last())
            + flag_diag(m.den == 0, "decay_modifier_denominator_zero")
            + flag_diag(m.den != 0 && m.num > m.den, "decay_modifier_increases_retention")
    }
}

/// Some tick row of the schedule does not hold one presence per node.
pub open spec fn schedule_node_shape_mismatch(input: DisruptionDecay0082Input) -> bool {
    exists|t: int| 0 <= t < input.presence_schedule@.len()
        && (#[trigger] input.presence_schedule@[t])@.len() != input.node_count
}

/// Some presence of the row is negative.
pub open spec fn row_has_negative(row: Seq<DisruptionDecay0082Presence>) -> bool {
    exists|n: int| 0 <= n < row.len()
        && ((#[trigger] row[n]).mover_presence_units < 0 || row[n].patrol_presence < 0)
}

/// Some scheduled presence is negative.
pub open spec fn schedule_has_negative(input: DisruptionDecay0082Input) -> bool {
    exists|t: int| 0 <= t < input.presence_schedule@.len()
        && row_has_negative((#[trigger] input.presence_schedule@[t])@)
}

/// `acc` followed by the parameter diagnostics; shape checks apply only when opted in.
pub open spec fn param_diagnostics(acc: Seq<&'static str>, input: DisruptionDecay0082Input) -> Seq<&'static str> {
    let w = input.decay_weights;
    let a = acc + flag_diag(w.modifiers@.len() > MAX_DECAY_MODIFIERS, "too_many_decay_modifiers");
    let b = modifier_diagnostics(a, w.modifiers@);
    let c = b + flag_diag(input.gain_per_presence_unit < 0, "negative_gain_rate")
        + flag_diag(input.suppression_per_patrol < 0, "negative_suppression_rate");
    if input.surface.gate.explicit_opt_in {
        c + flag_diag(input.node_count == 0, "empty_node_set")
            + flag_diag(input.tick_count == 0, "empty_tick_set")
            + flag_diag(input.presence_schedule@.len() != input.tick_count, "presence_schedule_tick_shape_mismatch")
            + flag_diag(schedule_node_shape_mismatch(input), "presence_schedule_node_shape_mismatch")
            + flag_diag(schedule_has_negative(input), "negative_presence")
    } else {
        c
    }
}

fn validate_params(input: &DisruptionDecay0082Input, diagnostics: &mut Vec<&'static str>)
    ensures
        final(diagnostics)@ == param_diagnostics(old(diagnostics)@, *input),
{
    let mods = &input.decay_weights.modifiers;
    push_if(diagnostics, mods.len() > MAX_DECAY_MODIFIERS, "too_many_decay_modifiers");
    let ghost a = diagnostics@;
    let mut k: usize = 0;
    while k < mods.len()
        invariant
            k <= mods@.len(),
            diagnostics@ == modifier_diagnostics(a, mods@.take(k as int)),
        decreases mods@.len() - k,
    {
        let m = mods[k];
        push_if(diagnostics, m.den == 0, "decay_modifier_denominator_zero");
        push_if(diagnostics, m.den != 0 && m.num > m.den, "decay_modifier_increases_retention");
        proof {
            assert(mods@.take(k + 1).drop_last() == mods@.take(k as int));
        }
        k = k + 1;
    }
    proof {
        assert(mods@.take(mods@.len() as int) == mods@);
    }
    push_if(diagnostics, input.gain_per_presence_unit < 0, "negative_gain_rate");
    push_if(diagnostics, input.suppression_per_patrol < 0, "negative_suppression_rate");
    if input.surface.gate.explicit_opt_in {
        push_if(diagnostics, input.node_count == 0, "empty_node_set");
        push_if(diagnostics, input.tick_count == 0, "empty_tick_set");
        push_if(
            diagnostics,
            input.presence_schedule.len() != input.tick_count as usize,
            "presence_schedule_tick_shape_mismatch",
        );
        let mut mismatch = false;
        let mut negative = false;
        let mut t: usize = 0;
        while t < input.presence_schedule.len()
            invariant
                t <= input.presence_schedule@.len(),
                mismatch == exists|u: int| 0 <= u < t
                    && (#[trigger] input.presence_schedule@[u])@.len() != input.node_count,
                negative == exists|u: int| 0 <= u < t
                    && row_has_negative((#[trigger] input.presence_schedule@[u])@),
            decreases input.presence_schedule@.len() - t,
        {
            let row = &input.presence_schedule[t];
            if row.len() != input.node_count {
                mismatch = true;
            }
            let mut row_negative = false;
            let mut n: usize = 0;
            while n < row.len()
                invariant
                    n <= row@.len(),
                    row_negative == exists|m: int| 0 <= m < n
                        && ((#[trigger] row@[m]).mover_presence_units < 0 || row@[m].patrol_presence < 0),
                decreases row@.len() - n,
            {
                if row[n].mover_presence_units < 0 || row[n].patrol_presence < 0 {
                    row_negative = true;
                }
                n = n + 1;
            }
            if row_negative {
                negative = true;
            }
            proof {
                assert(input.presence_schedule@[t as int] == *row);
            }
            t = t + 1;
        }
        push_if(diagnostics, mismatch, "presence_schedule_node_shape_mismatch");
        push_if(diagnostics, negative, "negative_presence");
    }
}

/// Base numerator times the first `k` modifier numerators.
pub open spec fn prefix_num(w: DisruptionDecay0082DecayWeights, k: int) -> int
    decreases k,
{
    if k <= 0 {
        w.base_retain_num as int
    } else {
        prefix_num(w, k - 1) * w.modifiers@[k - 1].num
    }
}

/// Base denominator times the first `k` modifier denominators.
pub open spec fn prefix_den(w: DisruptionDecay0082DecayWeights, k: int) -> int
    decreases k,
{
    if k <= 0 {
        w.base_retain_den as int
    } else {
        prefix_den(w, k - 1) * w.modifiers@[k - 1].den
    }
}

/// Greatest common divisor (Euclid); `gcd(a, 0) == a`.
pub open spec fn gcd(a: nat, b: nat) -> nat
    decreases b,
{
    if b == 0 {
        a
    } else {
        gcd(b, a % b)
    }
}

/// The composed retention `num / den`, reduced by the gcd: `None` when any denominator is
/// zero, a running product leaves the 128-bit range, or the reduced fraction does not fit 64 bits.
pub open spec fn spec_compose(w: DisruptionDecay0082DecayWeights) -> Option<(u64, u64)> {
    let len = w.modifiers@.len() as int;
    if w.base_retain_den == 0 || (exists|j: int| 0 <= j < len && (#[trigger] w.modifiers@[j]).den == 0) {
        None
    } else if exists|k: int| 0 <= k <= len && (#[trigger] prefix_num(w, k) > u128::MAX || prefix_den(w, k) > u128::MAX) {
        None
    } else {
        let n = prefix_num(w, len) as nat;
        let d = prefix_den(w, len) as nat;
        let g0 = gcd(n, d);
        let g: nat = if g0 == 0 { 1 } else { g0 };
        if n / g > u64::MAX || d / g > u64::MAX {
            None
        } else {
            Some(((n / g) as u64, (d / g) as u64))
        }
    }
}

fn gcd_u128(a: u128, b: u128) -> (r: u128)
    ensures
        r == (if gcd(a as nat, b as nat) == 0 { 1 } else { gcd(a as nat, b as nat) }),
{
    let mut x = a;
    let mut y = b;
    while y != 0
        invariant
            gcd(x as nat, y as nat) == gcd(a as nat, b as nat),
        decreases y,
    {
        let t = y;
        y = x % y;
        x = t;
    }
    if x > 1 { x } else { 1 }
}

/// Composes the base retention with every modifier and reduces the fraction.
fn compose_retention(weights: &DisruptionDecay0082DecayWeights) -> (r: Option<(u64, u64)>)
    ensures
        r == spec_compose(*weights),
{
    if weights.base_retain_den == 0 {
        return None;
    }
    let ghost w = *weights;
    let mut num: u128 = weights.base_retain_num as u128;
    let mut den: u128 = weights.base_retain_den as u128;
    let mut k: usize = 0;
    while k < weights.modifiers.len()
        invariant
            w == *weights,
            w.base_retain_den != 0,
            k <= w.modifiers@.len(),
            num == prefix_num(w, k as int),
            den == prefix_den(w, k as int),
            forall|j: int| 0 <= j < k ==> (#[trigger] w.modifiers@[j]).den != 0,
            forall|j: int| 0 <= j <= k ==> #[trigger] prefix_num(w, j) <= u128::MAX && prefix_den(w, j) <= u128::MAX,
        decreases w.modifiers@.len() - k,
    {
        let m = weights.modifiers[k];
        if m.den == 0 {
            return None;
        }
        match num.checked_mul(m.num as u128) {
            Some(v) => { num = v; },
            None => {
                assert(prefix_num(w, k + 1) > u128::MAX);
                return None;
            },
        }
        match den.checked_mul(m.den as u128) {
            Some(v) => { den = v; },
            None => {
                assert(prefix_den(w, k + 1) > u128::MAX);
                return None;
            },
        }
        k = k + 1;
    }
    let g = gcd_u128(num, den);
    let reduced_num = num / g;
    let reduced_den = den / g;
    if reduced_num > u64::MAX as u128 || reduced_den > u64::MAX as u128 {
        return None;
    }
    Some((reduced_num as u64, reduced_den as u64))
}

/// One node's state transition for one tick.
#[derive(Clone, Copy, Debug, PartialEq, Eq)]
pub struct DisruptionDecay0082Row {
    pub tick: u32,
    pub node: usize,
    pub mover_presence_units: i64,
    pub patrol_presence: i64,
    pub disruption_before: i64,
    pub retained: i64,
    pub gained: i64,
    pub suppressed: i64,
    pub disruption_after: i64,
}

/// `x` clamped into `[lo, hi]`.
pub open spec fn clamp_int(x: int, lo: int, hi: int) -> int {
    if x < lo { lo } else if x > hi { hi } else { x }
}

/// `a * b`, saturated to the `i64` range.
pub open spec fn sat_mul_i64(a: i64, b: i64) -> int {
    clamp_int(a * b, i64::MIN as int, i64::MAX as int)
}

/// Saturating `i64` multiplication.
pub fn saturating_mul_i64(a: i64, b: i64) -> (r: i64)
    ensures
        r == sat_mul_i64(a, b),
{
    proof {
        assert(-0x8000_0000_0000_0000 <= a < 0x8000_0000_0000_0000);
        assert((a as int) * (b as int) <= 0x4000_0000_0000_0000_0000_0000_0000_0000) by (nonlinear_arith)
            requires -0x8000_0000_0000_0000 <= a < 0x8000_0000_0000_0000, -0x8000_0000_0000_0000 <= b < 0x8000_0000_0000_0000;
        assert((a as int) * (b as int) >= -0x4000_0000_0000_0000_0000_0000_0000_0000) by (nonlinear_arith)
            requires -0x8000_0000_0000_0000 <= a < 0x8000_0000_0000_0000, -0x8000_0000_0000_0000 <= b < 0x8000_0000_0000_0000;
    }
    let p: i128 = (a as i128) * (b as i128);
    if p > i64::MAX as i128 {
        i64::MAX
    } else if p < i64::MIN as i128 {
        i64::MIN
    } else {
        p as i64
    }
}

/// `floor(before * num / den)`.
pub open spec fn retained_of(before: int, num: u64, den: u64) -> int {
    (before * num) / (den as int)
}

/// Disruption after one tick from `before` under presence `p`.
pub open spec fn decay_step(input: DisruptionDecay0082Input, num: u64, den: u64, before: int, p: DisruptionDecay0082Presence) -> int {
    clamp_int(
        retained_of(before, num, den) + sat_mul_i64(p.mover_presence_units, input.gain_per_presence_unit)
            - sat_mul_i64(p.patrol_presence, input.suppression_per_patrol),
        0,
        DISRUPTION_MAX as int,
    )
}

/// Disruption of `node` after `t` ticks (0 before the first).
pub open spec fn disruption_at(input: DisruptionDecay0082Input, num: u64, den: u64, node: int, t: nat) -> int
    decreases t,
{
    if t == 0 {
        0
    } else {
        decay_step(input, num, den, disruption_at(input, num, den, node, (t - 1) as nat),
            input.presence_schedule@[t - 1]@[node])
    }
}

/// Highest disruption `node` has held during the first `t` ticks (0 when none).
pub open spec fn peak_at(input: DisruptionDecay0082Input, num: u64, den: u64, node: int, t: nat) -> int
    decreases t,
{
    if t == 0 {
        0
    } else {
        let prev = peak_at(input, num, den, node, (t - 1) as nat);
        let now = disruption_at(input, num, den, node, t);
        if now > prev { now } else { prev }
    }
}

/// The row recording `node`'s transition at tick `t`.
pub open spec fn decay_row(input: DisruptionDecay0082Input, num: u64, den: u64, t: nat, node: int) -> DisruptionDecay0082Row {
    let p = input.presence_schedule@[t as int]@[node];
    let before = disruption_at(input, num, den, node, t);
    DisruptionDecay0082Row {
        tick: t as u32,
        node: node as usize,
        mover_presence_units: p.mover_presence_units,
        patrol_presence: p.patrol_presence,
        disruption_before: before as i64,
        retained: retained_of(before, num, den) as i64,
        gained: sat_mul_i64(p.mover_presence_units, input.gain_per_presence_unit) as i64,
        suppressed: sat_mul_i64(p.patrol_presence, input.suppression_per_patrol) as i64,
        disruption_after: disruption_at(input, num, den, node, t + 1) as i64,
    }
}

/// Rows of the first `t` ticks, tick-major, node order within a tick.
pub open spec fn decay_rows(input: DisruptionDecay0082Input, num: u64, den: u64, t: nat) -> Seq<DisruptionDecay0082Row>
    decreases t,
{
    if t == 0 {
        Seq::empty()
    } else {
        decay_rows(input, num, den, (t - 1) as nat) + Seq::new(
            input.node_count as nat,
            |n: int| decay_row(input, num, den, (t - 1) as nat, n),
        )
    }
}

/// A schedule holding one presence per node for every tick.
pub open spec fn schedule_well_shaped(input: DisruptionDecay0082Input) -> bool {
    &&& input.presence_schedule@.len() == input.tick_count
    &&& forall|t: int| 0 <= t < input.tick_count ==> (#[trigger] input.presence_schedule@[t])@.len() == input.node_count
}

/// Retention of a fraction below one keeps at most what was there, strictly less when positive.
pub proof fn lemma_retained_bounds(before: int, num: u64, den: u64)
    requires
        0 <= before,
        num < den,
    ensures
        0 <= retained_of(before, num, den) <= before,
        before > 0 ==> retained_of(before, num, den) < before,
{
    let d = den as int;
    let n = num as int;
    assert(0 <= before * n) by (nonlinear_arith) requires 0 <= before, 0 <= n;
    assert(before * n <= before * d) by (nonlinear_arith) requires 0 <= before, 0 <= n, n < d;
    assert(before > 0 ==> before * n < before * d) by (nonlinear_arith) requires 0 <= before, 0 <= n, n < d;
    vstd::arithmetic::div_mod::lemma_div_pos_is_pos(before * n, d);
    vstd::arithmetic::div_mod::lemma_div_is_ordered(before * n, before * d, d);
    vstd::arithmetic::div_mod::lemma_div_multiples_vanish(before, d);
    assert((before * d) / d == before) by {
        vstd::arithmetic::mul::lemma_mul_is_commutative(before, d);
    }
    if before > 0 {
        vstd::arithmetic::div_mod::lemma_div_by_multiple_is_strongly_ordered(before * n, before * d, before, d);
    }
}

/// Every disruption value the recurrence produces lies in `[0, DISRUPTION_MAX]`.
pub proof fn lemma_disruption_bounded(input: DisruptionDecay0082Input, num: u64, den: u64, node: int, t: nat)
    ensures
        0 <= disruption_at(input, num, den, node, t) <= DISRUPTION_MAX,
        0 <= peak_at(input, num, den, node, t) <= DISRUPTION_MAX,
        disruption_at(input, num, den, node, t) <= peak_at(input, num, den, node, t),
    decreases t,
{
    if t > 0 {
        lemma_disruption_bounded(input, num, den, node, (t - 1) as nat);
    }
}

struct RunResult {
    rows: Vec<DisruptionDecay0082Row>,
    final_disruption: Vec<i64>,
    peak_disruption: Vec<i64>,
}

fn run_ticks(input: &DisruptionDecay0082Input, retain_num: u64, retain_den: u64) -> (r: RunResult)
    requires
        retain_num < retain_den,
        schedule_well_shaped(*input),
    ensures
        r.rows@ == decay_rows(*input, retain_num, retain_den, input.tick_count as nat),
        r.final_disruption@.len() == input.node_count,
        r.peak_disruption@.len() == input.node_count,
        forall|n: int| 0 <= n < input.node_count ==> #[trigger] r.final_disruption@[n]
            == disruption_at(*input, retain_num, retain_den, n, input.tick_count as nat),
        forall|n: int| 0 <= n < input.node_count ==> #[trigger] r.peak_disruption@[n]
            == peak_at(*input, retain_num, retain_den, n, input.tick_count as nat),
{
    let ghost inp = *input;
    let node_count = input.node_count;
    let mut disruption: Vec<i64> = Vec::new();
    let mut peak: Vec<i64> = Vec::new();
    let mut k: usize = 0;
    while k < node_count
        invariant
            k <= node_count,
            disruption@.len() == k,
            peak@.len() == k,
            forall|n: int| 0 <= n < k ==> #[trigger] disruption@[n] == 0,
            forall|n: int| 0 <= n < k ==> #[trigger] peak@[n] == 0,
        decreases node_count - k,
    {
        disruption.push(0);
        peak.push(0);
        k = k + 1;
    }
    let mut rows: Vec<DisruptionDecay0082Row> = Vec::new();
    let mut tick: u32 = 0;
    while tick < input.tick_count
        invariant
            inp == *input,
            retain_num < retain_den,
            schedule_well_shaped(inp),
            node_count == inp.node_count,
            tick <= inp.tick_count,
            disruption@.len() == node_count,
            peak@.len() == node_count,
            forall|n: int| 0 <= n < node_count ==> #[trigger] disruption@[n]
                == disruption_at(inp, retain_num, retain_den, n, tick as nat),
            forall|n: int| 0 <= n < node_count ==> #[trigger] peak@[n]
                == peak_at(inp, retain_num, retain_den, n, tick as nat),
            rows@ == decay_rows(inp, retain_num, retain_den, tick as nat),
        decreases inp.tick_count - tick,
    {
        let presence_row = &input.presence_schedule[tick as usize];
        let ghost rows_before = rows@;
        let mut node: usize = 0;
        while node < node_count
            invariant
                inp == *input,
                retain_num < retain_den,
                schedule_well_shaped(inp),
                node_count == inp.node_count,
                tick < inp.tick_count,
                *presence_row == inp.presence_schedule@[tick as int],
                presence_row@.len() == node_count,
                node <= node_count,
                disruption@.len() == node_count,
                peak@.len() == node_count,
                forall|n: int| 0 <= n < node ==> #[trigger] disruption@[n]
                    == disruption_at(inp, retain_num, retain_den, n, (tick + 1) as nat),
                forall|n: int| node <= n < node_count ==> #[trigger] disruption@[n]
                    == disruption_at(inp, retain_num, retain_den, n, tick as nat),
                forall|n: int| 0 <= n < node ==> #[trigger] peak@[n]
                    == peak_at(inp, retain_num, retain_den, n, (tick + 1) as nat),
                forall|n: int| node <= n < node_count ==> #[trigger] peak@[n]
                    == peak_at(inp, retain_num, retain_den, n, tick as nat),
                rows@ == rows_before + Seq::new(node as nat, |n: int| decay_row(inp, retain_num, retain_den, tick as nat, n)),
                rows_before == decay_rows(inp, retain_num, retain_den, tick as nat),
            decreases node_count - node,
        {
            let presence = presence_row[node];
            let before = disruption[node];
            proof {
                lemma_disruption_bounded(inp, retain_num, retain_den, node as int, tick as nat);
                lemma_retained_bounds(before as int, retain_num, retain_den);
                assert((before as int) * (retain_num as int) <= 100_000 * 0xFFFF_FFFF_FFFF_FFFF) by (nonlinear_arith)
                    requires 0 <= before <= 100_000, 0 <= retain_num <= 0xFFFF_FFFF_FFFF_FFFF;
            }
            let retained = ((before as u128 * retain_num as u128) / retain_den as u128) as i64;
            let gained = saturating_mul_i64(presence.mover_presence_units, input.gain_per_presence_unit);
            let suppressed = saturating_mul_i64(presence.patrol_presence, input.suppression_per_patrol);
            let raw: i128 = retained as i128 + gained as i128 - suppressed as i128;
            let after: i64 = if raw < 0 { 0 } else if raw > DISRUPTION_MAX as i128 { DISRUPTION_MAX } else { raw as i64 };
            disruption.set(node, after);
            if after > peak[node] {
                peak.set(node, after);
            }
            rows.push(DisruptionDecay0082Row {
                tick,
                node,
                mover_presence_units: presence.mover_presence_units,
                patrol_presence: presence.patrol_presence,
                disruption_before: before,
                retained,
                gained,
                suppressed,
                disruption_after: after,
            });
            proof {
                assert(rows@ == rows_before + Seq::new((node + 1) as nat, |n: int| decay_row(inp, retain_num, retain_den, tick as nat, n)));
            }
            node = node + 1;
        }
        proof {
            assert(rows@ == decay_rows(inp, retain_num, retain_den, (tick + 1) as nat));
        }
        tick = tick + 1;
    }
    RunResult { rows, final_disruption: disruption, peak_disruption: peak }
}

/// Presence of the canonical trial at `(tick, node)`: node 0 hosts a pirate for ticks 0..=5
/// and a patrol for ticks 12..=19, node 2 a patrol throughout, node 3 a pirate throughout.
pub open spec fn canonical_presence(tick: int, node: int) -> DisruptionDecay0082Presence {
    DisruptionDecay0082Presence {
        mover_presence_units: if (node == 0 && tick <= 5) || node == 3 { 10 } else { 0 },
        patrol_presence: if (node == 0 && 12 <= tick <= 19) || node == 2 { 1 } else { 0 },
    }
}

/// The canonical trial that `DisruptionDecay0082Input::explicit_opt_in` returns.
pub open spec fn canonical_decay_input(r: DisruptionDecay0082Input) -> bool {
    &&& surface_all_clear(r.surface)
    &&& r.surface.gate.explicit_opt_in
    &&& r.surface.scenario_scoped_field_registered
    &&& r.node_count == 4
    &&& r.tick_count == 20
    &&& r.decay_weights.base_retain_num == 9 && r.decay_weights.base_retain_den == 10
    &&& r.decay_weights.modifiers@.len() == 1
    &&& r.decay_weights.modifiers@[0].num == 95 && r.decay_weights.modifiers@[0].den == 100
    &&& r.gain_per_presence_unit == 2_000
    &&& r.suppression_per_patrol == 5_000
    &&& schedule_well_shaped(r)
    &&& forall|t: int, n: int| 0 <= t < 20 && 0 <= n < 4
        ==> #[trigger] r.presence_schedule@[t]@[n] == canonical_presence(t, n)
    &&& forbidden_diagnostics(Seq::empty(), r.forbidden).len() == 0
}

impl DisruptionDecay0082Input {
    /// The default session: gate closed, no nodes, no ticks.
    pub fn default_simsession() -> (r: Self)
        ensures
            surface_all_clear(r.surface),
            !r.surface.gate.explicit_opt_in,
            !r.surface.scenario_scoped_field_registered,
            r.node_count == 0,
            r.tick_count == 0,
            r.decay_weights.base_retain_num == 9 && r.decay_weights.base_retain_den == 10,
            r.decay_weights.modifiers@.len() == 1,
            r.decay_weights.modifiers@[0].num == 95 && r.decay_weights.modifiers@[0].den == 100,
            r.gain_per_presence_unit == 0,
            r.suppression_per_patrol == 0,
            r.presence_schedule@.len() == 0,
            forbidden_diagnostics(Seq::empty(), r.forbidden).len() == 0,
    {
        DisruptionDecay0082Input {
            surface: DisruptionDecay0082Surface::default_simsession(),
            node_count: 0,
            tick_count: 0,
            decay_weights: DisruptionDecay0082DecayWeights::canonical(),
            gain_per_presence_unit: 0,
            suppression_per_patrol: 0,
            presence_schedule: Vec::new(),
            forbidden: DisruptionDecay0082ForbiddenRequests::default(),
        }
    }

    /// The canonical 4-node, 20-tick trial (accumulation, base decay, patrol-accelerated
    /// decay, saturation).
    pub fn explicit_opt_in() -> (r: Self)
        ensures
            canonical_decay_input(r),
    {
        let node_count = DEFAULT_NODE_COUNT;
        let tick_count = DEFAULT_TICK_COUNT;
        let mut presence_schedule: Vec<Vec<DisruptionDecay0082Presence>> = Vec::new();
        let mut tick: u32 = 0;
        while tick < tick_count
            invariant
                tick <= tick_count == 20,
                node_count == 4,
                presence_schedule@.len() == tick,
                forall|t: int| 0 <= t < tick ==> (#[trigger] presence_schedule@[t])@.len() == 4,
                forall|t: int, n: int| 0 <= t < tick && 0 <= n < 4
                    ==> #[trigger] presence_schedule@[t]@[n] == canonical_presence(t, n),
            decreases tick_count - tick,
        {
            let mut row: Vec<DisruptionDecay0082Presence> = Vec::new();
            let mut n: usize = 0;
            while n < node_count
                invariant
                    n <= node_count == 4,
                    tick < 20,
                    row@.len() == n,
                    forall|m: int| 0 <= m < n ==> #[trigger] row@[m] == canonical_presence(tick as int, m),
                decreases node_count - n,
            {
                let mut presence = DisruptionDecay0082Presence::default();
                if n == 0 {
                    if tick <= 5 {
                        presence.mover_presence_units = 10;
                    } else if 12 <= tick && tick <= 19 {
                        presence.patrol_presence = 1;
                    }
                }
                if n == 2 {
                    presence.patrol_presence = 1;
                }
                if n == 3 {
                    presence.mover_presence_units = 10;
                }
                row.push(presence);
                n = n + 1;
            }
            presence_schedule.push(row);
            tick = tick + 1;
        }
        DisruptionDecay0082Input {
            surface: DisruptionDecay0082Surface::with_explicit_opt_in(),
            node_count,
            tick_count,
            decay_weights: DisruptionDecay0082DecayWeights::canonical(),
            gain_per_presence_unit: 2_000,
            suppression_per_patrol: 5_000,
            presence_schedule,
            forbidden: DisruptionDecay0082ForbiddenRequests::default(),
        }
    }
}

/// Some transition gained disruption from a mover and ended higher than it started.
pub open spec fn accumulates_with_presence(rows: Seq<DisruptionDecay0082Row>) -> bool {
    exists|i: int| 0 <= i < rows.len() && (#[trigger] rows[i]).gained > 0
        && rows[i].disruption_after > rows[i].disruption_before
}

/// A transition with disruption held and nobody present.
pub open spec fn is_quiet_decay(r: DisruptionDecay0082Row) -> bool {
    r.mover_presence_units == 0 && r.patrol_presence == 0 && r.disruption_before > 0
}

/// At least one quiet transition, and every quiet transition strictly decreased.
pub open spec fn decays_to_zero_without_input(rows: Seq<DisruptionDecay0082Row>) -> bool {
    &&& exists|i: int| 0 <= i < rows.len() && is_quiet_decay(#[trigger] rows[i])
    &&& forall|i: int| 0 <= i < rows.len() && is_quiet_decay(#[trigger] rows[i])
        ==> rows[i].disruption_after < rows[i].disruption_before
}

/// Some patrol-only transition removed more than base decay would have.
pub open spec fn patrol_accelerates_decay(rows: Seq<DisruptionDecay0082Row>) -> bool {
    exists|i: int| 0 <= i < rows.len() && (#[trigger] rows[i]).patrol_presence > 0
        && rows[i].mover_presence_units == 0 && rows[i].suppressed > 0
        && rows[i].disruption_before > 0 && rows[i].disruption_after < rows[i].retained
}

/// Some node reached the ceiling.
pub open spec fn saturates_at_ceiling(peaks: Seq<i64>) -> bool {
    exists|n: int| 0 <= n < peaks.len() && #[trigger] peaks[n] >= DISRUPTION_MAX
}

fn detect_accumulation(rows: &Vec<DisruptionDecay0082Row>) -> (r: bool)
    ensures
        r == accumulates_with_presence(rows@),
{
    let mut k: usize = 0;
    while k < rows.len()
        invariant
            k <= rows@.len(),
            forall|i: int| 0 <= i < k ==> !((#[trigger] rows@[i]).gained > 0
                && rows@[i].disruption_after > rows@[i].disruption_before),
        decreases rows@.len() - k,
    {
        if rows[k].gained > 0 && rows[k].disruption_after > rows[k].disruption_before {
            return true;
        }
        k = k + 1;
    }
    false
}

/// "Gravity to zero without participation".
fn detect_decay_to_zero(rows: &Vec<DisruptionDecay0082Row>) -> (r: bool)
    ensures
        r == decays_to_zero_without_input(rows@),
{
    let mut found = false;
    let mut k: usize = 0;
    while k < rows.len()
        invariant
            k <= rows@.len(),
            found == exists|i: int| 0 <= i < k && is_quiet_decay(#[trigger] rows@[i]),
            forall|i: int| 0 <= i < k && is_quiet_decay(#[trigger] rows@[i])
                ==> rows@[i].disruption_after < rows@[i].disruption_before,
        decreases rows@.len() - k,
    {
        let r = rows[k];
        if r.mover_presence_units == 0 && r.patrol_presence == 0 && r.disruption_before > 0 {
            if r.disruption_after >= r.disruption_before {
                assert(is_quiet_decay(rows@[k as int]));
                return false;
            }
            found = true;
        }
        k = k + 1;
    }
    found
}

fn detect_patrol_acceleration(rows: &Vec<DisruptionDecay0082Row>) -> (r: bool)
    ensures
        r == patrol_accelerates_decay(rows@),
{
    let mut k: usize = 0;
    while k < rows.len()
        invariant
            k <= rows@.len(),
            forall|i: int| 0 <= i < k ==> !((#[trigger] rows@[i]).patrol_presence > 0
                && rows@[i].mover_presence_units == 0 && rows@[i].suppressed > 0
                && rows@[i].disruption_before > 0 && rows@[i].disruption_after < rows@[i].retained),
        decreases rows@.len() - k,
    {
        let r = rows[k];
        if r.patrol_presence > 0 && r.mover_presence_units == 0 && r.suppressed > 0
            && r.disruption_before > 0 && r.disruption_after < r.retained {
            return true;
        }
        k = k + 1;
    }
    false
}

fn detect_saturation(peaks: &Vec<i64>) -> (r: bool)
    ensures
        r == saturates_at_ceiling(peaks@),
{
    let mut k: usize = 0;
    while k < peaks.len()
        invariant
            k <= peaks@.len(),
            forall|n: int| 0 <= n < k ==> #[trigger] peaks@[n] < DISRUPTION_MAX,
        decreases peaks@.len() - k,
    {
        if peaks[k] >= DISRUPTION_MAX {
            return true;
        }
        k = k + 1;
    }
    false
}

/// `acc` followed by the export header line.
pub open spec fn header_text(acc: Seq<char>, input: DisruptionDecay0082Input, num: u64, den: u64) -> Seq<char> {
    acc + "DISRUPTION-DECAY-0080-2|scenario="@ + DISRUPTION_DECAY_0080_2_SCENARIO@ + "|nodes="@
        + decimal_nat(input.node_count as nat) + "|ticks="@ + decimal_nat(input.tick_count as nat)
        + "|retain="@ + decimal_nat(num as nat) + "/"@ + decimal_nat(den as nat) + "|gain_per_unit="@
        + decimal_int(input.gain_per_presence_unit as int) + "|suppression_per_patrol="@
        + decimal_int(input.suppression_per_patrol as int)
}

/// `acc` followed by a newline and the export line of one transition.
pub open spec fn row_text(acc: Seq<char>, r: DisruptionDecay0082Row) -> Seq<char> {
    acc + "\n"@ + "TICK|t="@ + decimal_nat(r.tick as nat) + "|node="@ + decimal_nat(r.node as nat)
        + "|mover="@ + decimal_int(r.mover_presence_units as int) + "|patrol="@
        + decimal_int(r.patrol_presence as int) + "|before="@ + decimal_int(r.disruption_before as int)
        + "|retained="@ + decimal_int(r.retained as int) + "|gained="@ + decimal_int(r.gained as int)
        + "|suppressed="@ + decimal_int(r.suppressed as int) + "|after="@
        + decimal_int(r.disruption_after as int)
}

/// `acc` followed by the lines of every transition.
pub open spec fn rows_text(acc: Seq<char>, rows: Seq<DisruptionDecay0082Row>) -> Seq<char>
    decreases rows.len(),
{
    if rows.len() == 0 {
        acc
    } else {
        row_text(rows_text(acc, rows.drop_last()), rows.last())
    }
}

/// `acc` followed by the final-value lines, one per node in order.
pub open spec fn finals_text(acc: Seq<char>, finals: Seq<i64>) -> Seq<char>
    decreases finals.len(),
{
    if finals.len() == 0 {
        acc
    } else {
        finals_text(acc, finals.drop_last()) + "\n"@ + "FINAL|node="@ + decimal_nat((finals.len() - 1) as nat)
            + "|disruption="@ + decimal_int(finals.last() as int)
    }
}

/// The text export: header, one line per transition, one line per final value, joined by newlines.
pub open spec fn export_text(
    input: DisruptionDecay0082Input,
    num: u64,
    den: u64,
    rows: Seq<DisruptionDecay0082Row>,
    finals: Seq<i64>,
) -> Seq<char> {
    finals_text(rows_text(header_text(Seq::empty(), input, num, den), rows), finals)
}

fn push_row_line(out: &mut String, r: &DisruptionDecay0082Row)
    ensures
        final(out)@ == row_text(old(out)@, *r),
{
    push_text(out, "\n");
    push_text(out, "TICK|t=");
    push_decimal_u64(out, r.tick as u64);
    push_text(out, "|node=");
    push_decimal_u64(out, r.node as u64);
    push_text(out, "|mover=");
    push_decimal_i64(out, r.mover_presence_units);
    push_text(out, "|patrol=");
    push_decimal_i64(out, r.patrol_presence);
    push_text(out, "|before=");
    push_decimal_i64(out, r.disruption_before);
    push_text(out, "|retained=");
    push_decimal_i64(out, r.retained);
    push_text(out, "|gained=");
    push_decimal_i64(out, r.gained);
    push_text(out, "|suppressed=");
    push_decimal_i64(out, r.suppressed);
    push_text(out, "|after=");
    push_decimal_i64(out, r.disruption_after);
}

fn render_export(
    input: &DisruptionDecay0082Input,
    retain_num: u64,
    retain_den: u64,
    rows: &Vec<DisruptionDecay0082Row>,
    final_disruption: &Vec<i64>,
) -> (text: String)
    ensures
        text@ == export_text(*input, retain_num, retain_den, rows@, final_disruption@),
{
    let mut out = String::new();
    push_text(&mut out, "DISRUPTION-DECAY-0080-2|scenario=");
    push_text(&mut out, DISRUPTION_DECAY_0080_2_SCENARIO);
    push_text(&mut out, "|nodes=");
    push_decimal_u64(&mut out, input.node_count as u64);
    push_text(&mut out, "|ticks=");
    push_decimal_u64(&mut out, input.tick_count as u64);
    push_text(&mut out, "|retain=");
    push_decimal_u64(&mut out, retain_num);
    push_text(&mut out, "/");
    push_decimal_u64(&mut out, retain_den);
    push_text(&mut out, "|gain_per_unit=");
    push_decimal_i64(&mut out, input.gain_per_presence_unit);
    push_text(&mut out, "|suppression_per_patrol=");
    push_decimal_i64(&mut out, input.suppression_per_patrol);
    let ghost header = out@;
    let mut k: usize = 0;
    while k < rows.len()
        invariant
            k <= rows@.len(),
            out@ == rows_text(header, rows@.take(k as int)),
        decreases rows@.len() - k,
    {
        push_row_line(&mut out, &rows[k]);
        proof {
            assert(rows@.take(k + 1).drop_last() == rows@.take(k as int));
        }
        k = k + 1;
    }
    proof {
        assert(rows@.take(rows@.len() as int) == rows@);
    }
    let ghost body = out@;
    let mut n: usize = 0;
    while n < final_disruption.len()
        invariant
            n <= final_disruption@.len(),
            out@ == finals_text(body, final_disruption@.take(n as int)),
        decreases final_disruption@.len() - n,
    {
        push_text(&mut out, "\n");
        push_text(&mut out, "FINAL|node=");
        push_decimal_u64(&mut out, n as u64);
        push_text(&mut out, "|disruption=");
        push_decimal_i64(&mut out, final_disruption[n]);
        proof {
            assert(final_disruption@.take(n + 1).drop_last() == final_disruption@.take(n as int));
        }
        n = n + 1;
    }
    proof {
        assert(final_disruption@.take(final_disruption@.len() as int) == final_disruption@);
    }
    out
}

/// Hash of one transition: tick, node, after, retained, suppressed.
pub open spec fn row_hash(h: u64, r: DisruptionDecay0082Row) -> u64 {
    fnv_append_spec(fnv_append_spec(fnv_append_spec(fnv_append_spec(fnv_append_spec(
        h, r.tick as u64), r.node as u64), r.disruption_after as u64), r.retained as u64), r.suppressed as u64)
}

/// Hash of every transition in order.
pub open spec fn rows_hash(h: u64, rows: Seq<DisruptionDecay0082Row>) -> u64
    decreases rows.len(),
{
    if rows.len() == 0 {
        h
    } else {
        row_hash(rows_hash(h, rows.drop_last()), rows.last())
    }
}

/// Hash of a list of values, each as its 64-bit two's-complement word.
pub open spec fn values_hash(h: u64, values: Seq<i64>) -> u64
    decreases values.len(),
{
    if values.len() == 0 {
        h
    } else {
        fnv_append_spec(values_hash(h, values.drop_last()), values.last() as u64)
    }
}

/// Replay checksum of a report's counts, coefficient, rows, finals and peaks.
pub open spec fn report_checksum(
    node_count: usize,
    tick_count: u32,
    num: u64,
    den: u64,
    rows: Seq<DisruptionDecay0082Row>,
    finals: Seq<i64>,
    peaks: Seq<i64>,
) -> u64 {
    let h = fnv_append_spec(fnv_append_spec(fnv_append_spec(fnv_append_spec(
        FNV_OFFSET_BASIS, node_count as u64), tick_count as u64), num), den);
    values_hash(values_hash(rows_hash(h, rows), finals), peaks)
}

fn hash_values(h: u64, values: &Vec<i64>) -> (r: u64)
    ensures
        r == values_hash(h, values@),
{
    let mut hash = h;
    let mut k: usize = 0;
    while k < values.len()
        invariant
            k <= values@.len(),
            hash == values_hash(h, values@.take(k as int)),
        decreases values@.len() - k,
    {
        hash = fnv_append_u64(hash, values[k] as u64);
        proof {
            assert(values@.take(k + 1).drop_last() == values@.take(k as int));
        }
        k = k + 1;
    }
    proof {
        assert(values@.take(values@.len() as int) == values@);
    }
    hash
}

fn checksum_parts(
    node_count: usize,
    tick_count: u32,
    num: u64,
    den: u64,
    rows: &Vec<DisruptionDecay0082Row>,
    finals: &Vec<i64>,
    peaks: &Vec<i64>,
) -> (r: u64)
    ensures
        r == report_checksum(node_count, tick_count, num, den, rows@, finals@, peaks@),
{
    let mut hash = FNV_OFFSET_BASIS;
    hash = fnv_append_u64(hash, node_count as u64);
    hash = fnv_append_u64(hash, tick_count as u64);
    hash = fnv_append_u64(hash, num);
    hash = fnv_append_u64(hash, den);
    let ghost h0 = hash;
    let mut k: usize = 0;
    while k < rows.len()
        invariant
            k <= rows@.len(),
            hash == rows_hash(h0, rows@.take(k as int)),
        decreases rows@.len() - k,
    {
        let r = rows[k];
        hash = fnv_append_u64(hash, r.tick as u64);
        hash = fnv_append_u64(hash, r.node as u64);
        hash = fnv_append_u64(hash, r.disruption_after as u64);
        hash = fnv_append_u64(hash, r.retained as u64);
        hash = fnv_append_u64(hash, r.suppressed as u64);
        proof {
            assert(rows@.take(k + 1).drop_last() == rows@.take(k as int));
        }
        k = k + 1;
    }
    proof {
        assert(rows@.take(rows@.len() as int) == rows@);
    }
    let hash = hash_values(hash, finals);
    hash_values(hash, peaks)
}

/// Outcome of one run of the disruption field.
#[derive(Clone, Debug, PartialEq, Eq)]
pub struct DisruptionDecay0082Report {
    pub id: &'static str,
    pub status: &'static str,
    pub scenario_name: &'static str,
    pub admitted: bool,
    pub diagnostics: Vec<&'static str>,
    pub explicit_opt_in: bool,
    pub default_off: bool,
    pub disabled_no_op: bool,
    pub no_global_decay_overlay_write: bool,
    pub decay_coefficient_bounded: bool,
    pub single_writer_per_disruption_column: bool,
    pub no_gradient_follow_movement: bool,
    pub no_new_gpu_kernel: bool,
    pub no_cpu_planner: bool,
    pub no_default_session_pass_graph_wiring: bool,
    pub no_global_default_schedule: bool,
    pub does_not_reopen_closed_0080_1_ladder: bool,
    pub node_count: usize,
    pub tick_count: u32,
    pub effective_retain_num: u64,
    pub effective_retain_den: u64,
    pub rows: Vec<DisruptionDecay0082Row>,
    pub final_disruption: Vec<i64>,
    pub peak_disruption: Vec<i64>,
    pub accumulates_with_presence: bool,
    pub decays_to_zero_without_input: bool,
    pub patrol_accelerates_decay: bool,
    pub saturates_at_ceiling: bool,
    pub text_export: String,
    pub deterministic_replay_checksum: u64,
}

/// The composed coefficient is usable: a fraction with nonzero denominator below one.
pub open spec fn coefficient_bounded(c: Option<(u64, u64)>) -> bool {
    match c {
        Some((num, den)) => num < den && den != 0,
        None => false,
    }
}

/// Every diagnostic a run reports, in check order: surface, forbidden requests,
/// coefficient, parameters.
pub open spec fn run_diagnostics(input: DisruptionDecay0082Input) -> Seq<&'static str> {
    let c = spec_compose(input.decay_weights);
    let a = forbidden_diagnostics(surface_diagnostics(Seq::empty(), input.surface), input.forbidden);
    let b = a + flag_diag(c is None, "decay_coefficient_invalid")
        + flag_diag(c is Some && !coefficient_bounded(c), "unbounded_decay_coefficient");
    param_diagnostics(b, input)
}

/// Holds when the recurrence runs: no diagnostics and an explicit opt-in.
pub open spec fn run_computes(input: DisruptionDecay0082Input) -> bool {
    run_diagnostics(input).len() == 0 && input.surface.gate.explicit_opt_in
}

/// Guardrail and identity fields every report carries.
pub open spec fn report_frame(r: DisruptionDecay0082Report, input: DisruptionDecay0082Input) -> bool {
    &&& r.id == DISRUPTION_DECAY_0080_2_ID
    &&& r.status == DISRUPTION_DECAY_0080_2_STATUS_PASS
    &&& r.scenario_name == DISRUPTION_DECAY_0080_2_SCENARIO
    &&& r.explicit_opt_in == input.surface.gate.explicit_opt_in
    &&& r.default_off == !input.surface.gate.enabled_by_default
    &&& r.no_global_decay_overlay_write == (!input.surface.global_decay_overlay_write
        && !input.forbidden.global_decay_overlay_write)
    &&& r.single_writer_per_disruption_column == !input.forbidden.second_writer_on_disruption_column
    &&& r.no_gradient_follow_movement == (!input.surface.gradient_follow_movement
        && !input.forbidden.gradient_follow_movement)
    &&& r.no_new_gpu_kernel == !input.forbidden.new_shader_or_gpu_kernel
    &&& r.no_cpu_planner == !input.forbidden.cpu_planner_urgency_commitment
    &&& r.no_default_session_pass_graph_wiring == (!input.surface.default_session_pass_graph_wiring
        && !input.forbidden.default_session_pass_graph_wiring)
    &&& r.no_global_default_schedule == (!input.surface.global_default_schedule
        && !input.forbidden.global_default_schedule)
    &&& r.does_not_reopen_closed_0080_1_ladder == !input.forbidden.reopen_closed_0080_1_ladder
}

/// Fields derived from the run result (rows, finals, peaks) and the coefficient used.
pub open spec fn report_results(r: DisruptionDecay0082Report, input: DisruptionDecay0082Input, disabled_no_op: bool) -> bool {
    &&& r.disabled_no_op == disabled_no_op
    &&& r.node_count == (if disabled_no_op { 0 } else { input.node_count })
    &&& r.tick_count == (if disabled_no_op { 0 } else { input.tick_count })
    &&& r.decay_coefficient_bounded == (r.effective_retain_den != 0
        && r.effective_retain_num < r.effective_retain_den)
    &&& r.accumulates_with_presence == accumulates_with_presence(r.rows@)
    &&& r.decays_to_zero_without_input == decays_to_zero_without_input(r.rows@)
    &&& r.patrol_accelerates_decay == patrol_accelerates_decay(r.rows@)
    &&& r.saturates_at_ceiling == saturates_at_ceiling(r.peak_disruption@)
    &&& r.text_export@ == (if !disabled_no_op && input.surface.gate.explicit_opt_in {
        export_text(input, r.effective_retain_num, r.effective_retain_den, r.rows@, r.final_disruption@)
    } else {
        Seq::empty()
    })
    &&& r.deterministic_replay_checksum == report_checksum(
        r.node_count,
        r.tick_count,
        r.effective_retain_num,
        r.effective_retain_den,
        r.rows@,
        r.final_disruption@,
        r.peak_disruption@,
    )
}

fn base_report(
    input: &DisruptionDecay0082Input,
    disabled_no_op: bool,
    diagnostics: Vec<&'static str>,
    retain_num: u64,
    retain_den: u64,
    run: Option<RunResult>,
) -> (r: DisruptionDecay0082Report)
    ensures
        report_frame(r, *input),
        report_results(r, *input, disabled_no_op),
        r.admitted,
        r.diagnostics@ == diagnostics@,
        r.effective_retain_num == retain_num,
        r.effective_retain_den == retain_den,
        run matches Some(x) ==> r.rows@ == x.rows@ && r.final_disruption@ == x.final_disruption@
            && r.peak_disruption@ == x.peak_disruption@,
        run is None ==> r.rows@.len() == 0 && r.final_disruption@.len() == 0 && r.peak_disruption@.len() == 0,
{
    let opt_in = input.surface.gate.explicit_opt_in;
    let (rows, final_disruption, peak_disruption) = match run {
        Some(x) => (x.rows, x.final_disruption, x.peak_disruption),
        None => (Vec::new(), Vec::new(), Vec::new()),
    };
    let accumulates_with_presence = detect_accumulation(&rows);
    let decays_to_zero_without_input = detect_decay_to_zero(&rows);
    let patrol_accelerates_decay = detect_patrol_acceleration(&rows);
    let saturates_at_ceiling = detect_saturation(&peak_disruption);
    let text_export = if !disabled_no_op && opt_in {
        render_export(input, retain_num, retain_den, &rows, &final_disruption)
    } else {
        String::new()
    };
    let node_count = if disabled_no_op { 0 } else { input.node_count };
    let tick_count = if disabled_no_op { 0 } else { input.tick_count };
    let checksum = checksum_parts(node_count, tick_count, retain_num, retain_den, &rows, &final_disruption, &peak_disruption);
    DisruptionDecay0082Report {
        id: DISRUPTION_DECAY_0080_2_ID,
        status: DISRUPTION_DECAY_0080_2_STATUS_PASS,
        scenario_name: DISRUPTION_DECAY_0080_2_SCENARIO,
        admitted: true,
        diagnostics,
        explicit_opt_in: opt_in,
        default_off: !input.surface.gate.enabled_by_default,
        disabled_no_op,
        no_global_decay_overlay_write: !input.surface.global_decay_overlay_write
            && !input.forbidden.global_decay_overlay_write,
        decay_coefficient_bounded: retain_den != 0 && retain_num < retain_den,
        single_writer_per_disruption_column: !input.forbidden.second_writer_on_disruption_column,
        no_gradient_follow_movement: !input.surface.gradient_follow_movement
            && !input.forbidden.gradient_follow_movement,
        no_new_gpu_kernel: !input.forbidden.new_shader_or_gpu_kernel,
        no_cpu_planner: !input.forbidden.cpu_planner_urgency_commitment,
        no_default_session_pass_graph_wiring: !input.surface.default_session_pass_graph_wiring
            && !input.forbidden.default_session_pass_graph_wiring,
        no_global_default_schedule: !input.surface.global_default_schedule
            && !input.forbidden.global_default_schedule,
        does_not_reopen_closed_0080_1_ladder: !input.forbidden.reopen_closed_0080_1_ladder,
        node_count,
        tick_count,
        effective_retain_num: retain_num,
        effective_retain_den: retain_den,
        rows,
        final_disruption,
        peak_disruption,
        accumulates_with_presence,
        decays_to_zero_without_input,
        patrol_accelerates_decay,
        saturates_at_ceiling,
        text_export,
        deterministic_replay_checksum: checksum,
    }
}

/// The accumulator `acc` is a prefix of the modifier diagnostics.
proof fn lemma_modifier_diagnostics_grow(acc: Seq<&'static str>, mods: Seq<DisruptionDecay0082RetentionFactor>)
    ensures
        modifier_diagnostics(acc, mods).len() >= acc.len(),
    decreases mods.len(),
{
    if mods.len() > 0 {
        lemma_modifier_diagnostics_grow(acc, mods.drop_last());
    }
}

/// With no diagnostics, the coefficient composed and is bounded, and (when opted in) the
/// schedule is well shaped with no negative presence.
pub proof fn lemma_clean_run(input: DisruptionDecay0082Input)
    requires
        run_diagnostics(input).len() == 0,
    ensures
        coefficient_bounded(spec_compose(input.decay_weights)),
        input.surface.gate.explicit_opt_in ==> schedule_well_shaped(input) && !schedule_has_negative(input),
{
    broadcast use crate::diagnostics::lemma_flag_diag;
    let c = spec_compose(input.decay_weights);
    let a = forbidden_diagnostics(surface_diagnostics(Seq::empty(), input.surface), input.forbidden);
    let b = a + flag_diag(c is None, "decay_coefficient_invalid")
        + flag_diag(c is Some && !coefficient_bounded(c), "unbounded_decay_coefficient");
    let w = input.decay_weights;
    let a2 = b + flag_diag(w.modifiers@.len() > MAX_DECAY_MODIFIERS, "too_many_decay_modifiers");
    lemma_modifier_diagnostics_grow(a2, w.modifiers@);
    if input.surface.gate.explicit_opt_in {
        assert(!schedule_node_shape_mismatch(input));
        assert forall|t: int| 0 <= t < input.tick_count implies (#[trigger] input.presence_schedule@[t])@.len()
            == input.node_count by {
            if input.presence_schedule@[t]@.len() != input.node_count {
                assert(schedule_node_shape_mismatch(input));
            }
        }
    }
}

/// What `run_disruption_decay_0080_2` returns for `input`.
pub open spec fn run_disruption_decay_post(input: DisruptionDecay0082Input, r: DisruptionDecay0082Report) -> bool {
    &&& report_frame(r, input)
    &&& r.diagnostics@ == run_diagnostics(input)
    &&& r.admitted == (run_diagnostics(input).len() == 0)
    &&& report_results(r, input, run_diagnostics(input).len() == 0 && !input.surface.gate.explicit_opt_in)
    &&& run_computes(input) ==> {
        let c = spec_compose(input.decay_weights).unwrap();
        &&& coefficient_bounded(spec_compose(input.decay_weights))
        &&& schedule_well_shaped(input)
        &&& r.effective_retain_num == c.0
        &&& r.effective_retain_den == c.1
        &&& r.rows@ == decay_rows(input, c.0, c.1, input.tick_count as nat)
        &&& r.final_disruption@.len() == input.node_count
        &&& r.peak_disruption@.len() == input.node_count
        &&& forall|n: int| 0 <= n < input.node_count ==> #[trigger] r.final_disruption@[n]
            == disruption_at(input, c.0, c.1, n, input.tick_count as nat)
        &&& forall|n: int| 0 <= n < input.node_count ==> #[trigger] r.peak_disruption@[n]
            == peak_at(input, c.0, c.1, n, input.tick_count as nat)
    }
    &&& !run_computes(input) ==> {
        &&& r.effective_retain_num == 0
        &&& r.effective_retain_den == 0
        &&& r.rows@.len() == 0
        &&& r.final_disruption@.len() == 0
        &&& r.peak_disruption@.len() == 0
    }
}

/// Runs the accumulated-disruption decay field for one input. Rejected inputs report their
/// diagnostics (not admitted); a closed gate is a disabled no-op; otherwise the recurrence runs
/// with the composed, reduced retention coefficient.
pub fn run_disruption_decay_0080_2(input: &DisruptionDecay0082Input) -> (r: DisruptionDecay0082Report)
    ensures
        run_disruption_decay_post(*input, r),
{
    let mut diagnostics: Vec<&'static str> = Vec::new();
    validate_surface(&input.surface, &mut diagnostics);
    validate_forbidden(&input.forbidden, &mut diagnostics);
    let composed = compose_retention(&input.decay_weights);
    let bounded = match composed {
        Some((num, den)) => num < den && den != 0,
        None => false,
    };
    push_if(&mut diagnostics, composed.is_none(), "decay_coefficient_invalid");
    push_if(&mut diagnostics, composed.is_some() && !bounded, "unbounded_decay_coefficient");
    validate_params(input, &mut diagnostics);

    if diagnostics.len() > 0 {
        let mut report = base_report(input, false, diagnostics, 0, 0, None);
        report.admitted = false;
        return report;
    }
    if !input.surface.gate.explicit_opt_in {
        return base_report(input, true, diagnostics, 0, 0, None);
    }
    proof { lemma_clean_run(*input); }
    let (retain_num, retain_den) = match composed {
        Some(c) => c,
        None => (0, 1),
    };
    let run = run_ticks(input, retain_num, retain_den);
    base_report(input, false, diagnostics, retain_num, retain_den, Some(run))
}

/// Two identical runs of the canonical trial, for deterministic-replay checks.
pub fn replay_disruption_decay_0080_2() -> (r: (DisruptionDecay0082Report, DisruptionDecay0082Report))
    ensures
        r.0.admitted == r.1.admitted,
        r.0.diagnostics@ == r.1.diagnostics@,
        r.0.rows@ == r.1.rows@,
        r.0.final_disruption@ == r.1.final_disruption@,
        r.0.peak_disruption@ == r.1.peak_disruption@,
        r.0.text_export@ == r.1.text_export@,
        r.0.deterministic_replay_checksum == r.1.deterministic_replay_checksum,
        exists|input: DisruptionDecay0082Input| #![trigger canonical_decay_input(input)]
            canonical_decay_input(input) && run_disruption_decay_post(input, r.0),
{
    let input = DisruptionDecay0082Input::explicit_opt_in();
    let a = run_disruption_decay_0080_2(&input);
    let b = run_disruption_decay_0080_2(&input);
    proof {
        assert(a.rows@ =~= b.rows@);
        assert(a.final_disruption@ =~= b.final_disruption@);
        assert(a.peak_disruption@ =~= b.peak_disruption@);
        assert(a.text_export@ =~= b.text_export@);
        assert(canonical_decay_input(input) && run_disruption_decay_post(input, a));
    }
    (a, b)
}

/// Gravity to zero: with a coefficient below one and nobody present, held disruption
/// strictly decreases in one tick (and never goes negative).
pub proof fn lemma_quiet_tick_strictly_decays(
    input: DisruptionDecay0082Input,
    num: u64,
    den: u64,
    before: int,
    p: DisruptionDecay0082Presence,
)
    requires
        num < den,
        0 < before <= DISRUPTION_MAX,
        p.mover_presence_units == 0,
        p.patrol_presence == 0,
    ensures
        0 <= decay_step(input, num, den, before, p) < before,
{
    lemma_retained_bounds(before, num, den);
}

/// Patrols accelerate decay: with a patrol present, a positive suppression rate and no mover,
/// a tick ends at or below base decay, strictly below whenever base decay keeps anything.
pub proof fn lemma_patrol_tick_accelerates_decay(
    input: DisruptionDecay0082Input,
    num: u64,
    den: u64,
    before: int,
    p: DisruptionDecay0082Presence,
)
    requires
        num < den,
        0 <= before <= DISRUPTION_MAX,
        p.mover_presence_units == 0,
        p.patrol_presence > 0,
        input.suppression_per_patrol > 0,
    ensures
        decay_step(input, num, den, before, p) <= retained_of(before, num, den),
        retained_of(before, num, den) > 0 ==> decay_step(input, num, den, before, p) < retained_of(before, num, den),
{
    lemma_retained_bounds(before, num, den);
    assert(p.patrol_presence * input.suppression_per_patrol > 0) by (nonlinear_arith)
        requires p.patrol_presence > 0, input.suppression_per_patrol > 0;
}

/// Every recorded transition ends within `[0, DISRUPTION_MAX]`.
pub proof fn lemma_decay_rows_bounded(input: DisruptionDecay0082Input, num: u64, den: u64, t: nat)
    ensures
        forall|i: int| 0 <= i < decay_rows(input, num, den, t).len() ==> {
            let r = #[trigger] decay_rows(input, num, den, t)[i];
            0 <= r.disruption_after <= DISRUPTION_MAX
        },
    decreases t,
{
    if t > 0 {
        lemma_decay_rows_bounded(input, num, den, (t - 1) as nat);
        let prev = decay_rows(input, num, den, (t - 1) as nat);
        let block = Seq::new(input.node_count as nat, |n: int| decay_row(input, num, den, (t - 1) as nat, n));
        assert(decay_rows(input, num, den, t) == prev + block);
        assert forall|i: int| 0 <= i < decay_rows(input, num, den, t).len() implies {
            let r = #[trigger] decay_rows(input, num, den, t)[i];
            0 <= r.disruption_after <= DISRUPTION_MAX
        } by {
            if i >= prev.len() {
                let n = i - prev.len();
                lemma_disruption_bounded(input, num, den, n, t);
                assert(decay_rows(input, num, den, t)[i] == block[n]);
            } else {
                assert(decay_rows(input, num, den, t)[i] == prev[i]);
            }
        }
    }
}

} // verus!
