//! Bounded command admission for the Nested Starmap: gate, session surface, refused requests and
//! the command rules over the bounded configuration.
//!
//! Running the observed scenario the admitted commands configure is not part of this library:
//! an admitted report that asks for it is completed with the observation's checksum and text.
use crate::default_schedule_0080_1::{opted_in_surface, DefaultSchedule0081Input, DefaultSchedule0081Surface};
use crate::diagnostics::{flag_diag, push_if};
use crate::replay_hash::{fnv_append_u64, fnv_words, FNV_OFFSET_BASIS};
use vstd::prelude::*;

verus! {

pub const CONTROL_0080_1_ID: &'static str = "CONTROL-0080-1";
pub const CONTROL_0080_1_STATUS_PASS: &'static str = "IMPLEMENTED / PASS - bounded Nested Starmap command admission";
pub const CONTROL_0080_1_SCENARIO: &'static str = "Nested Starmap";

/// Opt-in gate.
#[derive(Clone, Copy, Debug, PartialEq, Eq)]
pub struct Control0081Gate {
    pub explicit_opt_in: bool,
    pub enabled_by_default: bool,
}

impl Default for Control0081Gate {
    /// Closed gate.
    fn default() -> (r: Self)
        ensures
            !r.explicit_opt_in && !r.enabled_by_default,
    {
        Control0081Gate { explicit_opt_in: false, enabled_by_default: false }
    }
}

impl Control0081Gate {
    /// Opted in, still not enabled by default.
    pub fn explicit_opt_in() -> (r: Self)
        ensures
            r.explicit_opt_in && !r.enabled_by_default,
    {
        Control0081Gate { explicit_opt_in: true, enabled_by_default: false }
    }
}

/// Session surface.
#[derive(Clone, Copy, Debug, PartialEq, Eq)]
pub struct Control0081Surface {
    pub gate: Control0081Gate,
    pub direct_movement_control: bool,
    pub player_command_loop: bool,
    pub ui_framework_present: bool,
    pub realtime_loop_present: bool,
    pub global_default_schedule_registered: bool,
    pub demo_packaging_present: bool,
}

/// `acc` followed by the diagnostics for the surface flags, in check order.
pub open spec fn surface_diagnostics(acc: Seq<&'static str>, s: Control0081Surface) -> Seq<&'static str> {
    acc
        + flag_diag(s.gate.enabled_by_default, "control_0080_1_default_on_behavior_rejected")
        + flag_diag(s.direct_movement_control, "direct_movement_control_rejected")
        + flag_diag(s.player_command_loop, "player_command_loop")
        + flag_diag(s.ui_framework_present, "ui_framework")
        + flag_diag(s.realtime_loop_present, "realtime_loop")
        + flag_diag(s.global_default_schedule_registered, "global_default_schedule")
        + flag_diag(s.demo_packaging_present, "demo_packaging")
}

impl Default for Control0081Surface {
    /// Nothing registered or wired, gate closed.
    fn default() -> (r: Self)
        ensures
            !r.gate.explicit_opt_in,
            surface_diagnostics(Seq::empty(), r).len() == 0,
    {
        broadcast use crate::diagnostics::lemma_flag_diag;
        Control0081Surface {
            gate: Control0081Gate::default(),
            direct_movement_control: false,
            player_command_loop: false,
            ui_framework_present: false,
            realtime_loop_present: false,
            global_default_schedule_registered: false,
            demo_packaging_present: false,
        }
    }
}

impl Control0081Surface {
    /// The default session: nothing registered or wired, gate closed.
    pub fn default_simsession() -> (r: Self)
        ensures
            !r.gate.explicit_opt_in,
            surface_diagnostics(Seq::empty(), r).len() == 0,
    {
        Self::default()
    }

    /// Opted in; nothing else wired.
    pub fn with_explicit_opt_in() -> (r: Self)
        ensures
            r.gate.explicit_opt_in,
            surface_diagnostics(Seq::empty(), r).len() == 0,
    {
        broadcast use crate::diagnostics::lemma_flag_diag;
        Control0081Surface {
            gate: Control0081Gate::explicit_opt_in(),
            direct_movement_control: false,
            player_command_loop: false,
            ui_framework_present: false,
            realtime_loop_present: false,
            global_default_schedule_registered: false,
            demo_packaging_present: false,
        }
    }
}

/// Requests that must be refused.
#[derive(Clone, Copy, Debug, PartialEq, Eq)]
pub struct Control0081ForbiddenRequests {
    pub direct_terran_move: bool,
    pub direct_pirate_move: bool,
    pub external_boundary_request: bool,
    pub sead_bypass: bool,
    pub cpu_planner_or_commitment: bool,
    pub player_command_loop: bool,
    pub ui_framework: bool,
    pub realtime_loop: bool,
    pub global_default_schedule: bool,
    pub demo_packaging: bool,
    pub semantic_or_raw_wgsl: bool,
    pub new_shader_or_gpu_kernel: bool,
    pub hard_currency_markets_trade_aibudget: bool,
    pub nested_resource_flow: bool,
    pub clausething_dependency: bool,
    pub closed_ladder_reopen: bool,
}

/// `acc` followed by the diagnostics for the forbidden requests, in check order.
pub open spec fn forbidden_diagnostics(acc: Seq<&'static str>, f: Control0081ForbiddenRequests) -> Seq<&'static str> {
    acc
        + flag_diag(f.direct_terran_move, "direct_terran_move_rejected")
        + flag_diag(f.direct_pirate_move, "direct_pirate_move_rejected")
        + flag_diag(f.external_boundary_request, "external_boundary_request_rejected")
        + flag_diag(f.sead_bypass, "sead_bypass_rejected")
        + flag_diag(f.cpu_planner_or_commitment, "cpu_planner_or_commitment_rejected")
        + flag_diag(f.player_command_loop, "player_command_loop")
        + flag_diag(f.ui_framework, "ui_framework")
        + flag_diag(f.realtime_loop, "realtime_loop")
        + flag_diag(f.global_default_schedule, "global_default_schedule")
        + flag_diag(f.demo_packaging, "demo_packaging")
        + flag_diag(f.semantic_or_raw_wgsl, "semantic_or_raw_wgsl")
        + flag_diag(f.new_shader_or_gpu_kernel, "new_shader_or_gpu_kernel")
        + flag_diag(f.hard_currency_markets_trade_aibudget, "hard_currency_markets_trade_aibudget")
        + flag_diag(f.nested_resource_flow, "nested_resource_flow")
        + flag_diag(f.clausething_dependency, "clausething_dependency")
        + flag_diag(f.closed_ladder_reopen, "closed_ladder_reopen")
}

impl Default for Control0081ForbiddenRequests {
    /// Nothing requested.
    fn default() -> (r: Self)
        ensures
            forbidden_diagnostics(Seq::empty(), r).len() == 0,
    {
        broadcast use crate::diagnostics::lemma_flag_diag;
        Control0081ForbiddenRequests {
            direct_terran_move: false,
            direct_pirate_move: false,
            external_boundary_request: false,
            sead_bypass: false,
            cpu_planner_or_commitment: false,
            player_command_loop: false,
            ui_framework: false,
            realtime_loop: false,
            global_default_schedule: false,
            demo_packaging: false,
            semantic_or_raw_wgsl: false,
            new_shader_or_gpu_kernel: false,
            hard_currency_markets_trade_aibudget: false,
            nested_resource_flow: false,
            clausething_dependency: false,
            closed_ladder_reopen: false,
        }
    }
}

/// Appends the surface diagnostics, in check order.
pub fn validate_surface(surface: &Control0081Surface, diagnostics: &mut Vec<&'static str>)
    ensures
        final(diagnostics)@ == surface_diagnostics(old(diagnostics)@, *surface),
{
    push_if(diagnostics, surface.gate.enabled_by_default, "control_0080_1_default_on_behavior_rejected");
    push_if(diagnostics, surface.direct_movement_control, "direct_movement_control_rejected");
    push_if(diagnostics, surface.player_command_loop, "player_command_loop");
    push_if(diagnostics, surface.ui_framework_present, "ui_framework");
    push_if(diagnostics, surface.realtime_loop_present, "realtime_loop");
    push_if(diagnostics, surface.global_default_schedule_registered, "global_default_schedule");
    push_if(diagnostics, surface.demo_packaging_present, "demo_packaging");
}

#[verifier::rlimit(60)]
/// Appends the forbidden-request diagnostics, in check order.
pub fn validate_forbidden(forbidden: &Control0081ForbiddenRequests, diagnostics: &mut Vec<&'static str>)
    ensures
        final(diagnostics)@ == forbidden_diagnostics(old(diagnostics)@, *forbidden),
{
    push_if(diagnostics, forbidden.direct_terran_move, "direct_terran_move_rejected");
    push_if(diagnostics, forbidden.direct_pirate_move, "direct_pirate_move_rejected");
    push_if(diagnostics, forbidden.external_boundary_request, "external_boundary_request_rejected");
    push_if(diagnostics, forbidden.sead_bypass, "sead_bypass_rejected");
    push_if(diagnostics, forbidden.cpu_planner_or_commitment, "cpu_planner_or_commitment_rejected");
    push_if(diagnostics, forbidden.player_command_loop, "player_command_loop");
    push_if(diagnostics, forbidden.ui_framework, "ui_framework");
    push_if(diagnostics, forbidden.realtime_loop, "realtime_loop");
    push_if(diagnostics, forbidden.global_default_schedule, "global_default_schedule");
    push_if(diagnostics, forbidden.demo_packaging, "demo_packaging");
    push_if(diagnostics, forbidden.semantic_or_raw_wgsl, "semantic_or_raw_wgsl");
    push_if(diagnostics, forbidden.new_shader_or_gpu_kernel, "new_shader_or_gpu_kernel");
    push_if(diagnostics, forbidden.hard_currency_markets_trade_aibudget, "hard_currency_markets_trade_aibudget");
    push_if(diagnostics, forbidden.nested_resource_flow, "nested_resource_flow");
    push_if(diagnostics, forbidden.clausething_dependency, "clausething_dependency");
    push_if(diagnostics, forbidden.closed_ladder_reopen, "closed_ladder_reopen");
}


/// Largest step count a command may set.
pub const CONTROL_0081_MAX_STEP_COUNT: u32 = 3;
/// Largest starsystem index a command may name.
pub const CONTROL_0081_MAX_STARSYSTEM_INDEX: u8 = 9;
/// Smallest bounded threshold or gap value.
pub const CONTROL_0081_MIN_BOUNDED_VALUE: i64 = -32;
/// Largest bounded threshold or gap value.
pub const CONTROL_0081_MAX_BOUNDED_VALUE: i64 = 32;

/// A command of the bounded command surface.
#[derive(Clone, Copy, Debug, PartialEq, Eq)]
pub enum Control0081Command {
    SetStepCount(u32),
    SetTerranThreshold(i64),
    SetPirateThreshold(i64),
    SetTerranSourceStarsystem(u8),
    SetTerranCandidateStarsystem(u8),
    SetPirateSourceStarsystem(u8),
    SetPirateCandidateStarsystem(u8),
    SetSupplySecurityGap(i64),
    SetBilateralRelationalGap(i64),
    SetCompositeGapSum(i64),
    RunObservedScenario,
    ExportTranscript,
    DirectTerranMove,
    DirectPirateMove,
    ExternalBoundaryRequest,
    SeadBypass,
    CpuPlannerOrCommitment,
    GeneralCommandSystem,
}

/// Commands in the order they are applied.
#[derive(Clone, Debug, PartialEq, Eq)]
pub struct Control0081CommandBatch {
    pub commands: Vec<Control0081Command>,
}

impl Default for Control0081CommandBatch {
    /// No commands.
    fn default() -> (r: Self)
        ensures
            r.commands@.len() == 0,
    {
        Control0081CommandBatch { commands: Vec::new() }
    }
}

impl Control0081CommandBatch {
    /// Three steps, both thresholds 0, run the observed scenario and export its transcript.
    pub fn canonical_run() -> (r: Self)
        ensures
            r.commands@ == seq![
                Control0081Command::SetStepCount(3),
                Control0081Command::SetTerranThreshold(0),
                Control0081Command::SetPirateThreshold(0),
                Control0081Command::RunObservedScenario,
                Control0081Command::ExportTranscript,
            ],
    {
        Control0081CommandBatch {
            commands: vec![
                Control0081Command::SetStepCount(3),
                Control0081Command::SetTerranThreshold(0),
                Control0081Command::SetPirateThreshold(0),
                Control0081Command::RunObservedScenario,
                Control0081Command::ExportTranscript,
            ],
        }
    }
}

/// A refused command: its position in the batch and the reason.
#[derive(Clone, Copy, Debug, PartialEq, Eq)]
pub struct Control0081RejectedCommand {
    pub command_index: usize,
    pub diagnostic: &'static str,
}

/// One transcript line per command.
#[derive(Clone, Copy, Debug, PartialEq, Eq)]
pub struct Control0081CommandTranscriptRow {
    pub command_index: usize,
    pub command: &'static str,
    pub accepted: bool,
    pub target_bounded_field: &'static str,
    pub old_value: i64,
    pub new_value: i64,
    pub run_observed: bool,
    pub export_produced: bool,
    pub replay_checksum: u64,
}

/// The bounded values commands may write.
#[derive(Clone, Copy, Debug, PartialEq, Eq)]
pub struct Control0081BoundedConfig {
    pub terran_threshold: i64,
    pub pirate_threshold: i64,
    pub terran_source_starsystem: u8,
    pub terran_candidate_starsystem: u8,
    pub pirate_source_starsystem: u8,
    pub pirate_candidate_starsystem: u8,
    pub supply_security_gap: i64,
    pub bilateral_relational_gap: i64,
    pub composite_gap_sum: i64,
}

/// The configuration before any command.
pub open spec fn initial_config() -> Control0081BoundedConfig {
    Control0081BoundedConfig {
        terran_threshold: 0,
        pirate_threshold: 0,
        terran_source_starsystem: 0,
        terran_candidate_starsystem: 1,
        pirate_source_starsystem: 6,
        pirate_candidate_starsystem: 2,
        supply_security_gap: -8i64,
        bilateral_relational_gap: 5,
        composite_gap_sum: 0,
    }
}

impl Default for Control0081BoundedConfig {
    /// The configuration before any command.
    fn default() -> (r: Self)
        ensures
            r == initial_config(),
    {
        Control0081BoundedConfig {
            terran_threshold: 0,
            pirate_threshold: 0,
            terran_source_starsystem: 0,
            terran_candidate_starsystem: 1,
            pirate_source_starsystem: 6,
            pirate_candidate_starsystem: 2,
            supply_security_gap: -8,
            bilateral_relational_gap: 5,
            composite_gap_sum: 0,
        }
    }
}

/// Whether a threshold or gap value lies in the bounded range.
pub open spec fn bounded_value(v: i64) -> bool {
    CONTROL_0081_MIN_BOUNDED_VALUE <= v && v <= CONTROL_0081_MAX_BOUNDED_VALUE
}

/// The name a command carries in the transcript.
pub open spec fn command_label(c: Control0081Command) -> &'static str {
    match c {
        Control0081Command::SetStepCount(_) => "set_step_count",
        Control0081Command::SetTerranThreshold(_) => "set_terran_threshold",
        Control0081Command::SetPirateThreshold(_) => "set_pirate_threshold",
        Control0081Command::SetTerranSourceStarsystem(_) => "set_terran_source_starsystem",
        Control0081Command::SetTerranCandidateStarsystem(_) => "set_terran_candidate_starsystem",
        Control0081Command::SetPirateSourceStarsystem(_) => "set_pirate_source_starsystem",
        Control0081Command::SetPirateCandidateStarsystem(_) => "set_pirate_candidate_starsystem",
        Control0081Command::SetSupplySecurityGap(_) => "set_supply_security_gap",
        Control0081Command::SetBilateralRelationalGap(_) => "set_bilateral_relational_gap",
        Control0081Command::SetCompositeGapSum(_) => "set_composite_gap_sum",
        Control0081Command::RunObservedScenario => "run_observed_scenario",
        Control0081Command::ExportTranscript => "export_transcript",
        Control0081Command::DirectTerranMove => "direct_terran_move",
        Control0081Command::DirectPirateMove => "direct_pirate_move",
        Control0081Command::ExternalBoundaryRequest => "external_boundary_request",
        Control0081Command::SeadBypass => "sead_bypass",
        Control0081Command::CpuPlannerOrCommitment => "cpu_planner_or_commitment",
        Control0081Command::GeneralCommandSystem => "general_command_system",
    }
}

/// The reason a command is refused, or `None` when it is accepted.
pub open spec fn command_refusal(c: Control0081Command) -> Option<&'static str> {
    match c {
        Control0081Command::SetStepCount(v) => if v > CONTROL_0081_MAX_STEP_COUNT {
            Some("invalid_step_count_rejected")
        } else {
            None
        },
        Control0081Command::SetTerranThreshold(v) => if !bounded_value(v) {
            Some("bounded_threshold_rejected")
        } else {
            None
        },
        Control0081Command::SetPirateThreshold(v) => if !bounded_value(v) {
            Some("bounded_threshold_rejected")
        } else {
            None
        },
        Control0081Command::SetTerranSourceStarsystem(v) => starsystem_refusal(v),
        Control0081Command::SetTerranCandidateStarsystem(v) => starsystem_refusal(v),
        Control0081Command::SetPirateSourceStarsystem(v) => starsystem_refusal(v),
        Control0081Command::SetPirateCandidateStarsystem(v) => starsystem_refusal(v),
        Control0081Command::SetSupplySecurityGap(v) => gap_refusal(v),
        Control0081Command::SetBilateralRelationalGap(v) => gap_refusal(v),
        Control0081Command::SetCompositeGapSum(v) => gap_refusal(v),
        Control0081Command::RunObservedScenario => None,
        Control0081Command::ExportTranscript => None,
        Control0081Command::DirectTerranMove => Some("direct_terran_move_rejected"),
        Control0081Command::DirectPirateMove => Some("direct_pirate_move_rejected"),
        Control0081Command::ExternalBoundaryRequest => Some("external_boundary_request_rejected"),
        Control0081Command::SeadBypass => Some("sead_bypass_rejected"),
        Control0081Command::CpuPlannerOrCommitment => Some("cpu_planner_or_commitment_rejected"),
        Control0081Command::GeneralCommandSystem => Some("general_command_system_rejected"),
    }
}

/// Refusal of a starsystem index past the last starsystem.
pub open spec fn starsystem_refusal(v: u8) -> Option<&'static str> {
    if v > CONTROL_0081_MAX_STARSYSTEM_INDEX {
        Some("starsystem_index_out_of_bounds_rejected")
    } else {
        None
    }
}

/// Refusal of a gap value outside the bounded range.
pub open spec fn gap_refusal(v: i64) -> Option<&'static str> {
    if !bounded_value(v) {
        Some("bounded_config_value_rejected")
    } else {
        None
    }
}

/// The configuration after an accepted command.
pub open spec fn config_after(c: Control0081Command, cfg: Control0081BoundedConfig) -> Control0081BoundedConfig {
    match c {
        Control0081Command::SetTerranThreshold(v) => Control0081BoundedConfig { terran_threshold: v, ..cfg },
        Control0081Command::SetPirateThreshold(v) => Control0081BoundedConfig { pirate_threshold: v, ..cfg },
        Control0081Command::SetTerranSourceStarsystem(v) => Control0081BoundedConfig { terran_source_starsystem: v, ..cfg },
        Control0081Command::SetTerranCandidateStarsystem(v) => Control0081BoundedConfig { terran_candidate_starsystem: v, ..cfg },
        Control0081Command::SetPirateSourceStarsystem(v) => Control0081BoundedConfig { pirate_source_starsystem: v, ..cfg },
        Control0081Command::SetPirateCandidateStarsystem(v) => Control0081BoundedConfig { pirate_candidate_starsystem: v, ..cfg },
        Control0081Command::SetSupplySecurityGap(v) => Control0081BoundedConfig { supply_security_gap: v, ..cfg },
        Control0081Command::SetBilateralRelationalGap(v) => Control0081BoundedConfig { bilateral_relational_gap: v, ..cfg },
        Control0081Command::SetCompositeGapSum(v) => Control0081BoundedConfig { composite_gap_sum: v, ..cfg },
        _ => cfg,
    }
}

/// The larger of the two faction thresholds.
pub open spec fn movement_threshold_of(cfg: Control0081BoundedConfig) -> i64 {
    if cfg.terran_threshold >= cfg.pirate_threshold {
        cfg.terran_threshold
    } else {
        cfg.pirate_threshold
    }
}

/// The schedule input after an accepted command, given the configuration after it.
pub open spec fn schedule_after(
    c: Control0081Command,
    s: DefaultSchedule0081Input,
    cfg: Control0081BoundedConfig,
) -> DefaultSchedule0081Input {
    match c {
        Control0081Command::SetStepCount(v) => DefaultSchedule0081Input { step_count: v, ..s },
        Control0081Command::SetTerranThreshold(_) => DefaultSchedule0081Input { movement_threshold: movement_threshold_of(cfg), ..s },
        Control0081Command::SetPirateThreshold(_) => DefaultSchedule0081Input { movement_threshold: movement_threshold_of(cfg), ..s },
        _ => s,
    }
}

/// A transcript line with no checksum stamped yet.
pub open spec fn row(
    command_index: usize,
    command: &'static str,
    accepted: bool,
    target_bounded_field: &'static str,
    old_value: i64,
    new_value: i64,
    run_observed: bool,
    export_produced: bool,
) -> Control0081CommandTranscriptRow {
    Control0081CommandTranscriptRow {
        command_index,
        command,
        accepted,
        target_bounded_field,
        old_value,
        new_value,
        run_observed,
        export_produced,
        replay_checksum: 0,
    }
}

/// The transcript line of command `c` at `index`, given the schedule input and configuration
/// before it.
pub open spec fn transcript_row_for(
    c: Control0081Command,
    index: usize,
    s: DefaultSchedule0081Input,
    cfg: Control0081BoundedConfig,
) -> Control0081CommandTranscriptRow {
    let label = command_label(c);
    match command_refusal(c) {
        Some(d) => row(index, label, false, d, 0, 0, false, false),
        None => match c {
            Control0081Command::SetStepCount(v) =>
                row(index, label, true, "DefaultSchedule0081Input.step_count", s.step_count as i64, v as i64, false, false),
            Control0081Command::SetTerranThreshold(v) =>
                row(index, label, true, "DefaultSchedule0081Input.movement_threshold", cfg.terran_threshold, v, false, false),
            Control0081Command::SetPirateThreshold(v) =>
                row(index, label, true, "DefaultSchedule0081Input.movement_threshold", cfg.pirate_threshold, v, false, false),
            Control0081Command::SetTerranSourceStarsystem(v) =>
                row(index, label, true, "bounded_config.terran_source_starsystem", cfg.terran_source_starsystem as i64, v as i64, false, false),
            Control0081Command::SetTerranCandidateStarsystem(v) =>
                row(index, label, true, "bounded_config.terran_candidate_starsystem", cfg.terran_candidate_starsystem as i64, v as i64, false, false),
            Control0081Command::SetPirateSourceStarsystem(v) =>
                row(index, label, true, "bounded_config.pirate_source_starsystem", cfg.pirate_source_starsystem as i64, v as i64, false, false),
            Control0081Command::SetPirateCandidateStarsystem(v) =>
                row(index, label, true, "bounded_config.pirate_candidate_starsystem", cfg.pirate_candidate_starsystem as i64, v as i64, false, false),
            Control0081Command::SetSupplySecurityGap(v) =>
                row(index, label, true, "bounded_config.supply_security_gap", cfg.supply_security_gap, v, false, false),
            Control0081Command::SetBilateralRelationalGap(v) =>
                row(index, label, true, "bounded_config.bilateral_relational_gap", cfg.bilateral_relational_gap, v, false, false),
            Control0081Command::SetCompositeGapSum(v) =>
                row(index, label, true, "bounded_config.composite_gap_sum", cfg.composite_gap_sum, v, false, false),
            Control0081Command::RunObservedScenario =>
                row(index, label, true, "GAMEPLAY-0080-1", 0, 1, true, false),
            _ => row(index, label, true, "text_export", 0, 1, false, true),
        },
    }
}

/// Schedule input and configuration after applying `cmds` in order, from `s0` and the
/// initial configuration; a refused command changes nothing.
pub open spec fn fold_state(
    cmds: Seq<Control0081Command>,
    s0: DefaultSchedule0081Input,
) -> (DefaultSchedule0081Input, Control0081BoundedConfig)
    decreases cmds.len(),
{
    if cmds.len() == 0 {
        (s0, initial_config())
    } else {
        let prev = fold_state(cmds.drop_last(), s0);
        let c = cmds.last();
        if command_refusal(c) is Some {
            prev
        } else {
            let cfg = config_after(c, prev.1);
            (schedule_after(c, prev.0, cfg), cfg)
        }
    }
}

/// The refused commands among `cmds`, in order.
pub open spec fn fold_rejected(cmds: Seq<Control0081Command>) -> Seq<Control0081RejectedCommand>
    decreases cmds.len(),
{
    if cmds.len() == 0 {
        Seq::empty()
    } else {
        let prev = fold_rejected(cmds.drop_last());
        match command_refusal(cmds.last()) {
            Some(d) => prev.push(
                Control0081RejectedCommand { command_index: (cmds.len() - 1) as usize, diagnostic: d },
            ),
            None => prev,
        }
    }
}

/// The transcript of `cmds`, one line per command.
pub open spec fn fold_transcript(
    cmds: Seq<Control0081Command>,
    s0: DefaultSchedule0081Input,
) -> Seq<Control0081CommandTranscriptRow>
    decreases cmds.len(),
{
    if cmds.len() == 0 {
        Seq::empty()
    } else {
        let before = fold_state(cmds.drop_last(), s0);
        fold_transcript(cmds.drop_last(), s0).push(
            transcript_row_for(cmds.last(), (cmds.len() - 1) as usize, before.0, before.1),
        )
    }
}

/// Number of accepted commands among `cmds`.
pub open spec fn accepted_count(cmds: Seq<Control0081Command>) -> nat
    decreases cmds.len(),
{
    if cmds.len() == 0 {
        0
    } else {
        accepted_count(cmds.drop_last()) + if command_refusal(cmds.last()) is None { 1nat } else { 0nat }
    }
}

/// `n` saturated at `u32::MAX`.
pub open spec fn saturate_u32(n: nat) -> u32 {
    if n > u32::MAX {
        u32::MAX
    } else {
        n as u32
    }
}

/// Whether some command asks for the observed scenario, directly or through an export.
pub open spec fn asks_observation(cmds: Seq<Control0081Command>) -> bool {
    exists|i: int| 0 <= i < cmds.len()
        && (cmds[i] is RunObservedScenario || cmds[i] is ExportTranscript)
}

/// Whether some command asks for the transcript export.
pub open spec fn asks_export(cmds: Seq<Control0081Command>) -> bool {
    exists|i: int| 0 <= i < cmds.len() && cmds[i] is ExportTranscript
}

/// Outcome of applying one command.
pub enum Control0081CommandOutcome {
    Applied,
    Rejected,
    RunObservedScenario,
    ExportTranscript,
}

/// The larger of the two faction thresholds.
fn movement_threshold(cfg: &Control0081BoundedConfig) -> (r: i64)
    ensures
        r == movement_threshold_of(*cfg),
{
    if cfg.terran_threshold >= cfg.pirate_threshold {
        cfg.terran_threshold
    } else {
        cfg.pirate_threshold
    }
}

/// Whether a threshold or gap value lies in the bounded range.
pub fn bounded_i64(value: i64) -> (r: bool)
    ensures
        r == bounded_value(value),
{
    CONTROL_0081_MIN_BOUNDED_VALUE <= value && value <= CONTROL_0081_MAX_BOUNDED_VALUE
}

/// Applies one command at `command_index`: an accepted one writes its bounded value (a threshold
/// also rewrites the schedule's movement threshold to the larger of the two), a refused one is
/// recorded with its reason and changes nothing; either way one transcript line is appended.
#[verifier::rlimit(80)]
pub fn apply_command(
    command: &Control0081Command,
    command_index: usize,
    schedule_input: &mut DefaultSchedule0081Input,
    bounded_config: &mut Control0081BoundedConfig,
    rejected_commands: &mut Vec<Control0081RejectedCommand>,
    command_transcript: &mut Vec<Control0081CommandTranscriptRow>,
) -> (outcome: Control0081CommandOutcome)
    ensures
        command_refusal(*command) is Some ==> {
            &&& outcome is Rejected
            &&& *final(schedule_input) == *old(schedule_input)
            &&& *final(bounded_config) == *old(bounded_config)
            &&& final(rejected_commands)@ == old(rejected_commands)@.push(
                Control0081RejectedCommand { command_index, diagnostic: command_refusal(*command)->0 },
            )
        },
        command_refusal(*command) is None ==> {
            &&& *final(bounded_config) == config_after(*command, *old(bounded_config))
            &&& *final(schedule_input) == schedule_after(*command, *old(schedule_input), *final(bounded_config))
            &&& final(rejected_commands)@ == old(rejected_commands)@
            &&& (*command is RunObservedScenario ==> outcome is RunObservedScenario)
            &&& (*command is ExportTranscript ==> outcome is ExportTranscript)
            &&& (!(*command is RunObservedScenario) && !(*command is ExportTranscript) ==> outcome is Applied)
        },
        final(command_transcript)@ == old(command_transcript)@.push(
            transcript_row_for(*command, command_index, *old(schedule_input), *old(bounded_config)),
        ),
{
    let label = command_name(command);
    match *command {
        Control0081Command::SetStepCount(value) => {
            if value > CONTROL_0081_MAX_STEP_COUNT {
                return reject_command(rejected_commands, command_transcript, command_index, label, "invalid_step_count_rejected");
            }
            let old = schedule_input.step_count as i64;
            schedule_input.step_count = value;
            push_applied(command_transcript, command_index, label, "DefaultSchedule0081Input.step_count", old, value as i64);
            Control0081CommandOutcome::Applied
        },
        Control0081Command::SetTerranThreshold(value) => {
            if !bounded_i64(value) {
                return reject_command(rejected_commands, command_transcript, command_index, label, "bounded_threshold_rejected");
            }
            let old = bounded_config.terran_threshold;
            bounded_config.terran_threshold = value;
            schedule_input.movement_threshold = movement_threshold(bounded_config);
            push_applied(command_transcript, command_index, label, "DefaultSchedule0081Input.movement_threshold", old, value);
            Control0081CommandOutcome::Applied
        },
        Control0081Command::SetPirateThreshold(value) => {
            if !bounded_i64(value) {
                return reject_command(rejected_commands, command_transcript, command_index, label, "bounded_threshold_rejected");
            }
            let old = bounded_config.pirate_threshold;
            bounded_config.pirate_threshold = value;
            schedule_input.movement_threshold = movement_threshold(bounded_config);
            push_applied(command_transcript, command_index, label, "DefaultSchedule0081Input.movement_threshold", old, value);
            Control0081CommandOutcome::Applied
        },
        Control0081Command::SetTerranSourceStarsystem(value) => {
            if value > CONTROL_0081_MAX_STARSYSTEM_INDEX {
                return reject_command(rejected_commands, command_transcript, command_index, label, "starsystem_index_out_of_bounds_rejected");
            }
            let old = bounded_config.terran_source_starsystem as i64;
            bounded_config.terran_source_starsystem = value;
            push_applied(command_transcript, command_index, label, "bounded_config.terran_source_starsystem", old, value as i64);
            Control0081CommandOutcome::Applied
        },
        Control0081Command::SetTerranCandidateStarsystem(value) => {
            if value > CONTROL_0081_MAX_STARSYSTEM_INDEX {
                return reject_command(rejected_commands, command_transcript, command_index, label, "starsystem_index_out_of_bounds_rejected");
            }
            let old = bounded_config.terran_candidate_starsystem as i64;
            bounded_config.terran_candidate_starsystem = value;
            push_applied(command_transcript, command_index, label, "bounded_config.terran_candidate_starsystem", old, value as i64);
            Control0081CommandOutcome::Applied
        },
        Control0081Command::SetPirateSourceStarsystem(value) => {
            if value > CONTROL_0081_MAX_STARSYSTEM_INDEX {
                return reject_command(rejected_commands, command_transcript, command_index, label, "starsystem_index_out_of_bounds_rejected");
            }
            let old = bounded_config.pirate_source_starsystem as i64;
            bounded_config.pirate_source_starsystem = value;
            push_applied(command_transcript, command_index, label, "bounded_config.pirate_source_starsystem", old, value as i64);
            Control0081CommandOutcome::Applied
        },
        Control0081Command::SetPirateCandidateStarsystem(value) => {
            if value > CONTROL_0081_MAX_STARSYSTEM_INDEX {
                return reject_command(rejected_commands, command_transcript, command_index, label, "starsystem_index_out_of_bounds_rejected");
            }
            let old = bounded_config.pirate_candidate_starsystem as i64;
            bounded_config.pirate_candidate_starsystem = value;
            push_applied(command_transcript, command_index, label, "bounded_config.pirate_candidate_starsystem", old, value as i64);
            Control0081CommandOutcome::Applied
        },
        Control0081Command::SetSupplySecurityGap(value) => {
            if !bounded_i64(value) {
                return reject_command(rejected_commands, command_transcript, command_index, label, "bounded_config_value_rejected");
            }
            let old = bounded_config.supply_security_gap;
            bounded_config.supply_security_gap = value;
            push_applied(command_transcript, command_index, label, "bounded_config.supply_security_gap", old, value);
            Control0081CommandOutcome::Applied
        },
        Control0081Command::SetBilateralRelationalGap(value) => {
            if !bounded_i64(value) {
                return reject_command(rejected_commands, command_transcript, command_index, label, "bounded_config_value_rejected");
            }
            let old = bounded_config.bilateral_relational_gap;
            bounded_config.bilateral_relational_gap = value;
            push_applied(command_transcript, command_index, label, "bounded_config.bilateral_relational_gap", old, value);
            Control0081CommandOutcome::Applied
        },
        Control0081Command::SetCompositeGapSum(value) => {
            if !bounded_i64(value) {
                return reject_command(rejected_commands, command_transcript, command_index, label, "bounded_config_value_rejected");
            }
            let old = bounded_config.composite_gap_sum;
            bounded_config.composite_gap_sum = value;
            push_applied(command_transcript, command_index, label, "bounded_config.composite_gap_sum", old, value);
            Control0081CommandOutcome::Applied
        },
        Control0081Command::RunObservedScenario => {
            command_transcript.push(Control0081CommandTranscriptRow {
                command_index,
                command: label,
                accepted: true,
                target_bounded_field: "GAMEPLAY-0080-1",
                old_value: 0,
                new_value: 1,
                run_observed: true,
                export_produced: false,
                replay_checksum: 0,
            });
            Control0081CommandOutcome::RunObservedScenario
        },
        Control0081Command::ExportTranscript => {
            command_transcript.push(Control0081CommandTranscriptRow {
                command_index,
                command: label,
                accepted: true,
                target_bounded_field: "text_export",
                old_value: 0,
                new_value: 1,
                run_observed: false,
                export_produced: true,
                replay_checksum: 0,
            });
            Control0081CommandOutcome::ExportTranscript
        },
        Control0081Command::DirectTerranMove => reject_command(rejected_commands, command_transcript, command_index, label, "direct_terran_move_rejected"),
        Control0081Command::DirectPirateMove => reject_command(rejected_commands, command_transcript, command_index, label, "direct_pirate_move_rejected"),
        Control0081Command::ExternalBoundaryRequest => reject_command(rejected_commands, command_transcript, command_index, label, "external_boundary_request_rejected"),
        Control0081Command::SeadBypass => reject_command(rejected_commands, command_transcript, command_index, label, "sead_bypass_rejected"),
        Control0081Command::CpuPlannerOrCommitment => reject_command(rejected_commands, command_transcript, command_index, label, "cpu_planner_or_commitment_rejected"),
        Control0081Command::GeneralCommandSystem => reject_command(rejected_commands, command_transcript, command_index, label, "general_command_system_rejected"),
    }
}

/// The transcript name of a command.
pub fn command_name(command: &Control0081Command) -> (r: &'static str)
    ensures
        r == command_label(*command),
{
    match *command {
        Control0081Command::SetStepCount(_) => "set_step_count",
        Control0081Command::SetTerranThreshold(_) => "set_terran_threshold",
        Control0081Command::SetPirateThreshold(_) => "set_pirate_threshold",
        Control0081Command::SetTerranSourceStarsystem(_) => "set_terran_source_starsystem",
        Control0081Command::SetTerranCandidateStarsystem(_) => "set_terran_candidate_starsystem",
        Control0081Command::SetPirateSourceStarsystem(_) => "set_pirate_source_starsystem",
        Control0081Command::SetPirateCandidateStarsystem(_) => "set_pirate_candidate_starsystem",
        Control0081Command::SetSupplySecurityGap(_) => "set_supply_security_gap",
        Control0081Command::SetBilateralRelationalGap(_) => "set_bilateral_relational_gap",
        Control0081Command::SetCompositeGapSum(_) => "set_composite_gap_sum",
        Control0081Command::RunObservedScenario => "run_observed_scenario",
        Control0081Command::ExportTranscript => "export_transcript",
        Control0081Command::DirectTerranMove => "direct_terran_move",
        Control0081Command::DirectPirateMove => "direct_pirate_move",
        Control0081Command::ExternalBoundaryRequest => "external_boundary_request",
        Control0081Command::SeadBypass => "sead_bypass",
        Control0081Command::CpuPlannerOrCommitment => "cpu_planner_or_commitment",
        Control0081Command::GeneralCommandSystem => "general_command_system",
    }
}

/// Appends the transcript line of an accepted write.
fn push_applied(
    command_transcript: &mut Vec<Control0081CommandTranscriptRow>,
    command_index: usize,
    command: &'static str,
    field: &'static str,
    old_value: i64,
    new_value: i64,
)
    ensures
        final(command_transcript)@ == old(command_transcript)@.push(
            row(command_index, command, true, field, old_value, new_value, false, false),
        ),
{
    command_transcript.push(Control0081CommandTranscriptRow {
        command_index,
        command,
        accepted: true,
        target_bounded_field: field,
        old_value,
        new_value,
        run_observed: false,
        export_produced: false,
        replay_checksum: 0,
    });
}

/// Records a refused command and its transcript line.
fn reject_command(
    rejected_commands: &mut Vec<Control0081RejectedCommand>,
    command_transcript: &mut Vec<Control0081CommandTranscriptRow>,
    command_index: usize,
    command: &'static str,
    diagnostic: &'static str,
) -> (outcome: Control0081CommandOutcome)
    ensures
        outcome is Rejected,
        final(rejected_commands)@ == old(rejected_commands)@.push(
            Control0081RejectedCommand { command_index, diagnostic },
        ),
        final(command_transcript)@ == old(command_transcript)@.push(
            row(command_index, command, false, diagnostic, 0, 0, false, false),
        ),
{
    rejected_commands.push(Control0081RejectedCommand { command_index, diagnostic });
    command_transcript.push(Control0081CommandTranscriptRow {
        command_index,
        command,
        accepted: false,
        target_bounded_field: diagnostic,
        old_value: 0,
        new_value: 0,
        run_observed: false,
        export_produced: false,
        replay_checksum: 0,
    });
    Control0081CommandOutcome::Rejected
}


/// Admission input: surface, the schedule input the commands start from, the commands, and the
/// refused requests.
#[derive(Clone, Debug, PartialEq, Eq)]
pub struct Control0081AdmissionInput {
    pub surface: Control0081Surface,
    pub base_schedule_input: DefaultSchedule0081Input,
    pub commands: Control0081CommandBatch,
    pub forbidden: Control0081ForbiddenRequests,
}

/// The canonical admission input that `Control0081AdmissionInput::explicit_opt_in` returns.
pub open spec fn canonical_admission_input(r: Control0081AdmissionInput) -> bool {
    &&& r.surface.gate.explicit_opt_in
    &&& surface_diagnostics(Seq::empty(), r.surface).len() == 0
    &&& forbidden_diagnostics(Seq::empty(), r.forbidden).len() == 0
    &&& r.base_schedule_input == (DefaultSchedule0081Input {
        surface: opted_in_surface(),
        step_count: crate::default_schedule_0080_1::DEFAULT_SCHEDULE_0081_STEP_COUNT,
        movement_threshold: 0,
        forbidden: crate::default_schedule_0080_1::no_forbidden_requests(),
    })
    &&& r.commands.commands@ == seq![
        Control0081Command::SetStepCount(3),
        Control0081Command::SetTerranThreshold(0),
        Control0081Command::SetPirateThreshold(0),
        Control0081Command::RunObservedScenario,
        Control0081Command::ExportTranscript,
    ]
}

impl Control0081AdmissionInput {
    /// The default session: gate closed, no commands.
    pub fn default_simsession() -> (r: Self)
        ensures
            !r.surface.gate.explicit_opt_in,
            surface_diagnostics(Seq::empty(), r.surface).len() == 0,
            forbidden_diagnostics(Seq::empty(), r.forbidden).len() == 0,
            r.base_schedule_input == (DefaultSchedule0081Input {
                surface: crate::default_schedule_0080_1::closed_surface(),
                step_count: 0,
                movement_threshold: 0,
                forbidden: crate::default_schedule_0080_1::no_forbidden_requests(),
            }),
            r.commands.commands@.len() == 0,
    {
        Control0081AdmissionInput {
            surface: Control0081Surface::default_simsession(),
            base_schedule_input: DefaultSchedule0081Input::default_simsession(),
            commands: Control0081CommandBatch::default(),
            forbidden: Control0081ForbiddenRequests::default(),
        }
    }

    /// Opted in, running the canonical batch.
    pub fn explicit_opt_in() -> (r: Self)
        ensures
            canonical_admission_input(r),
    {
        Control0081AdmissionInput {
            surface: Control0081Surface::with_explicit_opt_in(),
            base_schedule_input: DefaultSchedule0081Input::explicit_opt_in(),
            commands: Control0081CommandBatch::canonical_run(),
            forbidden: Control0081ForbiddenRequests::default(),
        }
    }
}

/// Admission report. When the admitted commands ask for the observed scenario,
/// `observation_pending` is set until the observation's checksum and text are attached.
#[derive(Clone, Debug, PartialEq, Eq)]
pub struct Control0081AdmissionReport {
    pub control_id: &'static str,
    pub status: &'static str,
    pub scenario_name: &'static str,
    pub admitted: bool,
    pub diagnostics: Vec<&'static str>,
    pub explicit_opt_in: bool,
    pub default_off: bool,
    pub disabled_no_op: bool,
    pub bounded_command_admission_only: bool,
    pub command_writes_existing_bounded_values_only: bool,
    pub command_moved_ship: bool,
    pub command_emitted_boundary_request: bool,
    pub command_bypassed_sead: bool,
    pub direct_movement_control: bool,
    pub player_command_loop: bool,
    pub ui_framework_present: bool,
    pub realtime_loop_present: bool,
    pub global_default_schedule_registered: bool,
    pub demo_packaging_present: bool,
    pub semantic_or_raw_wgsl_present: bool,
    pub new_shader_or_gpu_kernel: bool,
    pub cpu_planner_used: bool,
    pub hard_currency_markets_trade_aibudget: bool,
    pub nested_resource_flow: bool,
    pub clausething_dependency_present: bool,
    pub closed_ladders_reopened: bool,
    pub applied_command_count: u32,
    pub rejected_commands: Vec<Control0081RejectedCommand>,
    pub command_transcript: Vec<Control0081CommandTranscriptRow>,
    pub schedule_input: DefaultSchedule0081Input,
    pub bounded_config: Control0081BoundedConfig,
    pub observation_pending: bool,
    pub export_requested: bool,
    pub observation_replay_checksum: Option<u64>,
    pub text_export: String,
    pub deterministic_replay_checksum: u64,
}

/// The report's fixed identity and the flags copied from the input's surface and requests.
pub open spec fn report_frame(r: &Control0081AdmissionReport, input: &Control0081AdmissionInput, disabled: bool) -> bool {
    &&& r.control_id == CONTROL_0080_1_ID
    &&& r.status == CONTROL_0080_1_STATUS_PASS
    &&& r.scenario_name == CONTROL_0080_1_SCENARIO
    &&& r.explicit_opt_in == input.surface.gate.explicit_opt_in
    &&& r.default_off == !input.surface.gate.enabled_by_default
    &&& r.disabled_no_op == disabled
    &&& r.bounded_command_admission_only == !disabled
    &&& r.command_writes_existing_bounded_values_only == !disabled
    &&& !r.command_moved_ship
    &&& !r.command_emitted_boundary_request
    &&& !r.command_bypassed_sead
    &&& r.direct_movement_control == input.surface.direct_movement_control
    &&& r.player_command_loop == input.surface.player_command_loop
    &&& r.ui_framework_present == input.surface.ui_framework_present
    &&& r.realtime_loop_present == input.surface.realtime_loop_present
    &&& r.global_default_schedule_registered == input.surface.global_default_schedule_registered
    &&& r.demo_packaging_present == input.surface.demo_packaging_present
    &&& r.semantic_or_raw_wgsl_present == input.forbidden.semantic_or_raw_wgsl
    &&& r.new_shader_or_gpu_kernel == input.forbidden.new_shader_or_gpu_kernel
    &&& !r.cpu_planner_used
    &&& r.hard_currency_markets_trade_aibudget == input.forbidden.hard_currency_markets_trade_aibudget
    &&& r.nested_resource_flow == input.forbidden.nested_resource_flow
    &&& r.clausething_dependency_present == input.forbidden.clausething_dependency
    &&& r.closed_ladders_reopened == input.forbidden.closed_ladder_reopen
}

/// `1` for true, `0` for false.
pub open spec fn bool_word(b: bool) -> u64 {
    if b { 1 } else { 0 }
}

/// The words the replay checksum folds: admission, counts, the schedule values, the bounded
/// configuration, the observation's checksum (0 when absent), then each byte of the text export.
pub open spec fn checksum_words(r: &Control0081AdmissionReport) -> Seq<u64> {
    words_of(
        r.admitted,
        r.applied_command_count,
        r.rejected_commands@.len(),
        r.schedule_input,
        r.bounded_config,
        match r.observation_replay_checksum { Some(c) => c, None => 0u64 },
        r.text_export@,
    )
}

/// The checksum words of an admission with the given outcome.
pub open spec fn words_of(
    admitted: bool,
    applied: u32,
    rejected: nat,
    s: DefaultSchedule0081Input,
    cfg: Control0081BoundedConfig,
    observation: u64,
    text: Seq<char>,
) -> Seq<u64> {
    seq![
        bool_word(admitted),
        applied as u64,
        rejected as u64,
        s.step_count as u64,
        s.movement_threshold as u64,
        cfg.terran_threshold as u64,
        cfg.pirate_threshold as u64,
        cfg.terran_source_starsystem as u64,
        cfg.terran_candidate_starsystem as u64,
        cfg.pirate_source_starsystem as u64,
        cfg.pirate_candidate_starsystem as u64,
        cfg.supply_security_gap as u64,
        cfg.bilateral_relational_gap as u64,
        cfg.composite_gap_sum as u64,
        observation,
    ] + vstd::utf8::encode_utf8(text).map_values(|b: u8| b as u64)
}

/// The replay checksum of an admission with the given outcome.
pub open spec fn checksum_of(
    admitted: bool,
    applied: u32,
    rejected: nat,
    s: DefaultSchedule0081Input,
    cfg: Control0081BoundedConfig,
    observation: u64,
    text: Seq<char>,
) -> u64 {
    fnv_words(FNV_OFFSET_BASIS, words_of(admitted, applied, rejected, s, cfg, observation, text))
}

/// The replay checksum of a report.
pub open spec fn report_checksum(r: &Control0081AdmissionReport) -> u64 {
    fnv_words(FNV_OFFSET_BASIS, checksum_words(r))
}

/// Transcript lines with the replay checksum stamped on each.
pub open spec fn stamped(rows: Seq<Control0081CommandTranscriptRow>, checksum: u64) -> Seq<Control0081CommandTranscriptRow> {
    rows.map_values(|t: Control0081CommandTranscriptRow| Control0081CommandTranscriptRow { replay_checksum: checksum, ..t })
}

/// The schedule input the commands start from: the base input with the opted-in surface.
pub open spec fn command_start(input: &Control0081AdmissionInput) -> DefaultSchedule0081Input {
    DefaultSchedule0081Input { surface: opted_in_surface(), ..input.base_schedule_input }
}

/// The diagnostics of the surface and the refused requests, in check order.
pub open spec fn admission_diagnostics(input: &Control0081AdmissionInput) -> Seq<&'static str> {
    forbidden_diagnostics(surface_diagnostics(Seq::empty(), input.surface), input.forbidden)
}

/// Computes the replay checksum of a report.
pub fn checksum_report(report: &Control0081AdmissionReport) -> (r: u64)
    ensures
        r == report_checksum(report),
{
    let ghost words = checksum_words(report);
    let cfg = &report.bounded_config;
    let mut hash = FNV_OFFSET_BASIS;
    let mut k: usize = 0;
    let head: [u64; 15] = [
        if report.admitted { 1u64 } else { 0u64 },
        report.applied_command_count as u64,
        report.rejected_commands.len() as u64,
        report.schedule_input.step_count as u64,
        report.schedule_input.movement_threshold as u64,
        cfg.terran_threshold as u64,
        cfg.pirate_threshold as u64,
        cfg.terran_source_starsystem as u64,
        cfg.terran_candidate_starsystem as u64,
        cfg.pirate_source_starsystem as u64,
        cfg.pirate_candidate_starsystem as u64,
        cfg.supply_security_gap as u64,
        cfg.bilateral_relational_gap as u64,
        cfg.composite_gap_sum as u64,
        match report.observation_replay_checksum { Some(c) => c, None => 0u64 },
    ];
    proof {
        assert(head@ =~= words.take(15));
    }
    while k < 15
        invariant
            k <= 15,
            words == checksum_words(report),
            head@ =~= words.take(15),
            words.len() >= 15,
            hash == fnv_words(FNV_OFFSET_BASIS, words.take(k as int)),
        decreases 15 - k,
    {
        proof {
            assert(words.take(k as int + 1).drop_last() =~= words.take(k as int));
        }
        hash = fnv_append_u64(hash, head[k]);
        k = k + 1;
    }
    let bytes = report.text_export.as_str().as_bytes();
    let ghost tail = vstd::utf8::encode_utf8(report.text_export@).map_values(|b: u8| b as u64);
    proof {
        assert(words =~= words.take(15) + tail);
        assert forall|t: int| 0 <= t < tail.len() implies words[15 + t] == tail[t] by {
            assert((words.take(15) + tail)[15 + t] == tail[t]);
        }
    }
    let mut j: usize = 0;
    while j < bytes.len()
        invariant
            j <= bytes@.len(),
            bytes@ == vstd::utf8::encode_utf8(report.text_export@),
            tail == bytes@.map_values(|b: u8| b as u64),
            tail.len() == bytes@.len(),
            words.len() == 15 + tail.len(),
            forall|t: int| 0 <= t < tail.len() ==> words[15 + t] == tail[t],
            hash == fnv_words(FNV_OFFSET_BASIS, words.take(15 + j)),
        decreases bytes@.len() - j,
    {
        proof {
            assert(words.take(15 + j + 1).drop_last() =~= words.take(15 + j));
            assert(tail[j as int] == bytes@[j as int] as u64);
            assert(words[15 + j as int] == tail[j as int]);
        }
        hash = fnv_append_u64(hash, bytes[j] as u64);
        j = j + 1;
    }
    proof {
        assert(words.take(15 + j as int) =~= words);
    }
    hash
}

/// Stamps `checksum` on every transcript line.
fn stamp_transcript(rows: &Vec<Control0081CommandTranscriptRow>, checksum: u64) -> (r: Vec<Control0081CommandTranscriptRow>)
    ensures
        r@ == stamped(rows@, checksum),
{
    let mut out: Vec<Control0081CommandTranscriptRow> = Vec::new();
    let mut i: usize = 0;
    while i < rows.len()
        invariant
            i <= rows@.len(),
            out@ =~= stamped(rows@.take(i as int), checksum),
        decreases rows@.len() - i,
    {
        let t = rows[i];
        out.push(Control0081CommandTranscriptRow {
            command_index: t.command_index,
            command: t.command,
            accepted: t.accepted,
            target_bounded_field: t.target_bounded_field,
            old_value: t.old_value,
            new_value: t.new_value,
            run_observed: t.run_observed,
            export_produced: t.export_produced,
            replay_checksum: checksum,
        });
        i = i + 1;
        proof {
            assert(rows@.take(i as int) =~= rows@.take(i as int - 1).push(t));
        }
    }
    proof {
        assert(rows@.take(i as int) =~= rows@);
    }
    out
}

/// A report with the frame of `input` and the given outcome, checksum not yet set.
fn base_report(
    input: &Control0081AdmissionInput,
    admitted: bool,
    diagnostics: Vec<&'static str>,
    disabled_no_op: bool,
    schedule_input: DefaultSchedule0081Input,
    bounded_config: Control0081BoundedConfig,
    applied_command_count: u32,
    rejected_commands: Vec<Control0081RejectedCommand>,
    command_transcript: Vec<Control0081CommandTranscriptRow>,
    observation_pending: bool,
    export_requested: bool,
) -> (r: Control0081AdmissionReport)
    ensures
        report_frame(&r, input, disabled_no_op),
        r.admitted == admitted,
        r.diagnostics@ == diagnostics@,
        r.schedule_input == schedule_input,
        r.bounded_config == bounded_config,
        r.applied_command_count == applied_command_count,
        r.rejected_commands@ == rejected_commands@,
        r.command_transcript@ == command_transcript@,
        r.observation_pending == observation_pending,
        r.export_requested == export_requested,
        r.observation_replay_checksum is None,
        r.text_export@.len() == 0,
        r.deterministic_replay_checksum == 0,
{
    Control0081AdmissionReport {
        control_id: CONTROL_0080_1_ID,
        status: CONTROL_0080_1_STATUS_PASS,
        scenario_name: CONTROL_0080_1_SCENARIO,
        admitted,
        diagnostics,
        explicit_opt_in: input.surface.gate.explicit_opt_in,
        default_off: !input.surface.gate.enabled_by_default,
        disabled_no_op,
        bounded_command_admission_only: !disabled_no_op,
        command_writes_existing_bounded_values_only: !disabled_no_op,
        command_moved_ship: false,
        command_emitted_boundary_request: false,
        command_bypassed_sead: false,
        direct_movement_control: input.surface.direct_movement_control,
        player_command_loop: input.surface.player_command_loop,
        ui_framework_present: input.surface.ui_framework_present,
        realtime_loop_present: input.surface.realtime_loop_present,
        global_default_schedule_registered: input.surface.global_default_schedule_registered,
        demo_packaging_present: input.surface.demo_packaging_present,
        semantic_or_raw_wgsl_present: input.forbidden.semantic_or_raw_wgsl,
        new_shader_or_gpu_kernel: input.forbidden.new_shader_or_gpu_kernel,
        cpu_planner_used: false,
        hard_currency_markets_trade_aibudget: input.forbidden.hard_currency_markets_trade_aibudget,
        nested_resource_flow: input.forbidden.nested_resource_flow,
        clausething_dependency_present: input.forbidden.clausething_dependency,
        closed_ladders_reopened: input.forbidden.closed_ladder_reopen,
        applied_command_count,
        rejected_commands,
        command_transcript,
        schedule_input,
        bounded_config,
        observation_pending,
        export_requested,
        observation_replay_checksum: None,
        text_export: String::new(),
        deterministic_replay_checksum: 0,
    }
}

/// Sets the replay checksum of a report and stamps it on every transcript line.
fn seal_report(report: Control0081AdmissionReport) -> (r: Control0081AdmissionReport)
    ensures
        r.deterministic_replay_checksum == report_checksum(&report),
        r.command_transcript@ == stamped(report.command_transcript@, report_checksum(&report)),
        same_outcome(&r, &report),
{
    let checksum = checksum_report(&report);
    let rows = stamp_transcript(&report.command_transcript, checksum);
    let mut r = report;
    r.deterministic_replay_checksum = checksum;
    r.command_transcript = rows;
    r
}

/// Two reports agree on everything but the observation, the transcript and the replay checksum.
pub open spec fn same_commands(a: &Control0081AdmissionReport, b: &Control0081AdmissionReport) -> bool {
    &&& a.control_id == b.control_id
    &&& a.status == b.status
    &&& a.scenario_name == b.scenario_name
    &&& a.admitted == b.admitted
    &&& a.diagnostics@ == b.diagnostics@
    &&& a.explicit_opt_in == b.explicit_opt_in
    &&& a.default_off == b.default_off
    &&& a.disabled_no_op == b.disabled_no_op
    &&& a.bounded_command_admission_only == b.bounded_command_admission_only
    &&& a.command_writes_existing_bounded_values_only == b.command_writes_existing_bounded_values_only
    &&& a.command_moved_ship == b.command_moved_ship
    &&& a.command_emitted_boundary_request == b.command_emitted_boundary_request
    &&& a.command_bypassed_sead == b.command_bypassed_sead
    &&& a.direct_movement_control == b.direct_movement_control
    &&& a.player_command_loop == b.player_command_loop
    &&& a.ui_framework_present == b.ui_framework_present
    &&& a.realtime_loop_present == b.realtime_loop_present
    &&& a.global_default_schedule_registered == b.global_default_schedule_registered
    &&& a.demo_packaging_present == b.demo_packaging_present
    &&& a.semantic_or_raw_wgsl_present == b.semantic_or_raw_wgsl_present
    &&& a.new_shader_or_gpu_kernel == b.new_shader_or_gpu_kernel
    &&& a.cpu_planner_used == b.cpu_planner_used
    &&& a.hard_currency_markets_trade_aibudget == b.hard_currency_markets_trade_aibudget
    &&& a.nested_resource_flow == b.nested_resource_flow
    &&& a.clausething_dependency_present == b.clausething_dependency_present
    &&& a.closed_ladders_reopened == b.closed_ladders_reopened
    &&& a.applied_command_count == b.applied_command_count
    &&& a.rejected_commands@ == b.rejected_commands@
    &&& a.schedule_input == b.schedule_input
    &&& a.bounded_config == b.bounded_config
    &&& a.export_requested == b.export_requested
}

/// Two reports agree on everything but the transcript and the replay checksum.
pub open spec fn same_outcome(a: &Control0081AdmissionReport, b: &Control0081AdmissionReport) -> bool {
    &&& same_commands(a, b)
    &&& a.observation_pending == b.observation_pending
    &&& a.observation_replay_checksum == b.observation_replay_checksum
    &&& a.text_export@ == b.text_export@
}


/// Asking for the observation or the export, one more command at a time.
proof fn lemma_asks_step(cmds: Seq<Control0081Command>, i: int)
    requires
        0 <= i < cmds.len(),
    ensures
        asks_observation(cmds.take(i + 1)) == (asks_observation(cmds.take(i))
            || cmds[i] is RunObservedScenario || cmds[i] is ExportTranscript),
        asks_export(cmds.take(i + 1)) == (asks_export(cmds.take(i)) || cmds[i] is ExportTranscript),
{
    let prefix = cmds.take(i);
    let next = cmds.take(i + 1);
    assert forall|w: int| 0 <= w < prefix.len() implies next[w] == prefix[w] by {}
    assert(next[i] == cmds[i]);
    if asks_observation(next) {
        let w = choose|w: int| 0 <= w < next.len()
            && (next[w] is RunObservedScenario || next[w] is ExportTranscript);
        if w < i {
            assert(prefix[w] == next[w]);
        }
    }
    if asks_observation(prefix) {
        let w = choose|w: int| 0 <= w < prefix.len()
            && (prefix[w] is RunObservedScenario || prefix[w] is ExportTranscript);
        assert(next[w] == prefix[w]);
    }
    if asks_export(next) {
        let w = choose|w: int| 0 <= w < next.len() && next[w] is ExportTranscript;
        if w < i {
            assert(prefix[w] == next[w]);
        }
    }
    if asks_export(prefix) {
        let w = choose|w: int| 0 <= w < prefix.len() && prefix[w] is ExportTranscript;
        assert(next[w] == prefix[w]);
    }
}

/// What running a command batch produced.
struct CommandRun {
    schedule_input: DefaultSchedule0081Input,
    bounded_config: Control0081BoundedConfig,
    rejected_commands: Vec<Control0081RejectedCommand>,
    command_transcript: Vec<Control0081CommandTranscriptRow>,
    applied_command_count: u32,
    observed: bool,
    export_transcript: bool,
}

/// Applies `cmds` in order from `s0` and the initial configuration.
#[verifier::rlimit(40)]
fn run_commands(cmds: &Vec<Control0081Command>, s0: DefaultSchedule0081Input) -> (r: CommandRun)
    ensures
        (r.schedule_input, r.bounded_config) == fold_state(cmds@, s0),
        r.rejected_commands@ == fold_rejected(cmds@),
        r.command_transcript@ == fold_transcript(cmds@, s0),
        r.applied_command_count == saturate_u32(accepted_count(cmds@)),
        r.observed == asks_observation(cmds@),
        r.export_transcript == asks_export(cmds@),
{
    let mut schedule_input = s0;
    let mut bounded_config = Control0081BoundedConfig::default();
    let mut rejected_commands: Vec<Control0081RejectedCommand> = Vec::new();
    let mut command_transcript: Vec<Control0081CommandTranscriptRow> = Vec::new();
    let mut applied_command_count: u32 = 0;
    let mut observed = false;
    let mut export_transcript = false;
    proof {
        assert(cmds@.take(0) =~= Seq::<Control0081Command>::empty());
    }
    let mut i: usize = 0;
    while i < cmds.len()
        invariant
            i <= cmds@.len(),
            (schedule_input, bounded_config) == fold_state(cmds@.take(i as int), s0),
            rejected_commands@ == fold_rejected(cmds@.take(i as int)),
            command_transcript@ == fold_transcript(cmds@.take(i as int), s0),
            applied_command_count == saturate_u32(accepted_count(cmds@.take(i as int))),
            observed == asks_observation(cmds@.take(i as int)),
            export_transcript == asks_export(cmds@.take(i as int)),
        decreases cmds@.len() - i,
    {
        proof {
            let next = cmds@.take(i as int + 1);
            assert(next.drop_last() =~= cmds@.take(i as int));
            assert(next.last() == cmds@[i as int]);
            lemma_asks_step(cmds@, i as int);
        }
        let outcome = apply_command(
            &cmds[i], i, &mut schedule_input, &mut bounded_config,
            &mut rejected_commands, &mut command_transcript,
        );
        match outcome {
            Control0081CommandOutcome::Applied => {
                applied_command_count = applied_command_count.saturating_add(1);
            },
            Control0081CommandOutcome::Rejected => {},
            Control0081CommandOutcome::RunObservedScenario => {
                applied_command_count = applied_command_count.saturating_add(1);
                observed = true;
            },
            Control0081CommandOutcome::ExportTranscript => {
                applied_command_count = applied_command_count.saturating_add(1);
                observed = true;
                export_transcript = true;
            },
        }
        i = i + 1;
    }
    proof {
        assert(cmds@.take(i as int) =~= cmds@);
    }
    CommandRun {
        schedule_input,
        bounded_config,
        rejected_commands,
        command_transcript,
        applied_command_count,
        observed,
        export_transcript,
    }
}

/// What `admit_control_0080_1` returns for `input`.
pub open spec fn admit_control_0080_1_post(input: &Control0081AdmissionInput, r: Control0081AdmissionReport) -> bool {
    &&& admission_diagnostics(input).len() > 0 ==> {
        &&& report_frame(&r, input, false)
        &&& !r.admitted
        &&& r.diagnostics@ == admission_diagnostics(input)
        &&& r.schedule_input == input.base_schedule_input
        &&& r.bounded_config == initial_config()
        &&& r.applied_command_count == 0
        &&& r.rejected_commands@.len() == 0
        &&& r.command_transcript@.len() == 0
        &&& !r.observation_pending && !r.export_requested
    }
    &&& admission_diagnostics(input).len() == 0 && !input.surface.gate.explicit_opt_in ==> {
        &&& report_frame(&r, input, true)
        &&& r.admitted
        &&& r.diagnostics@.len() == 0
        &&& r.schedule_input == input.base_schedule_input
        &&& r.bounded_config == initial_config()
        &&& r.applied_command_count == 0
        &&& r.rejected_commands@.len() == 0
        &&& r.command_transcript@.len() == 0
        &&& !r.observation_pending && !r.export_requested
        &&& r.deterministic_replay_checksum == 0
    }
    &&& admission_diagnostics(input).len() == 0 && input.surface.gate.explicit_opt_in ==> {
        let cmds = input.commands.commands@;
        let end = fold_state(cmds, command_start(input));
        let refused = fold_rejected(cmds);
        &&& report_frame(&r, input, false)
        &&& r.schedule_input == end.0
        &&& r.bounded_config == end.1
        &&& r.rejected_commands@ == refused
        &&& (refused.len() > 0 ==> {
            &&& !r.admitted
            &&& r.diagnostics@ == seq!["control_0080_1_command_rejected"]
            &&& r.applied_command_count == 0
            &&& !r.observation_pending && !r.export_requested
        })
        &&& (refused.len() == 0 ==> {
            &&& r.admitted
            &&& r.diagnostics@.len() == 0
            &&& r.applied_command_count == saturate_u32(accepted_count(cmds))
            &&& r.observation_pending == asks_observation(cmds)
            &&& r.export_requested == asks_export(cmds)
        })
        &&& r.command_transcript@ == stamped(
            fold_transcript(cmds, command_start(input)),
            r.deterministic_replay_checksum,
        )
    }
    &&& r.observation_replay_checksum is None
    &&& r.text_export@.len() == 0
    &&& (admission_diagnostics(input).len() > 0 || input.surface.gate.explicit_opt_in)
        ==> r.deterministic_replay_checksum == report_checksum(&r)
}

/// Admits a command batch.
///
/// Surface and request diagnostics refuse the whole input; a closed gate is a no-op; otherwise
/// the commands run in order from the base schedule input with the opted-in surface and the
/// initial configuration. Any refused command refuses the batch (reporting what the accepted
/// ones wrote). An admitted batch reports its writes and whether it asks for the observed
/// scenario and its export; the observation itself is attached by `complete_control_0080_1`.
pub fn admit_control_0080_1(input: &Control0081AdmissionInput) -> (r: Control0081AdmissionReport)
    ensures
        admit_control_0080_1_post(input, r),
{
    let mut diagnostics: Vec<&'static str> = Vec::new();
    validate_surface(&input.surface, &mut diagnostics);
    validate_forbidden(&input.forbidden, &mut diagnostics);
    if diagnostics.len() > 0 {
        let report = base_report(
            input, false, diagnostics, false, input.base_schedule_input,
            Control0081BoundedConfig::default(), 0, Vec::new(), Vec::new(), false, false,
        );
        let sealed = seal_report(report);
        proof { assert(sealed.command_transcript@ =~= Seq::<Control0081CommandTranscriptRow>::empty()); }
        return sealed;
    }
    if !input.surface.gate.explicit_opt_in {
        return base_report(
            input, true, diagnostics, true, input.base_schedule_input,
            Control0081BoundedConfig::default(), 0, Vec::new(), Vec::new(), false, false,
        );
    }
    let mut start = input.base_schedule_input;
    start.surface = DefaultSchedule0081Surface::with_explicit_opt_in();
    proof { assert(start == command_start(input)); }
    let run = run_commands(&input.commands.commands, start);
    command_report(input, run)
}

/// The sealed report of a batch that ran: refused when any command was refused.
fn command_report(input: &Control0081AdmissionInput, run: CommandRun) -> (r: Control0081AdmissionReport)
    ensures
        report_frame(&r, input, false),
        r.schedule_input == run.schedule_input,
        r.bounded_config == run.bounded_config,
        r.rejected_commands@ == run.rejected_commands@,
        run.rejected_commands@.len() > 0 ==> {
            &&& !r.admitted
            &&& r.diagnostics@ == seq!["control_0080_1_command_rejected"]
            &&& r.applied_command_count == 0
            &&& !r.observation_pending && !r.export_requested
        },
        run.rejected_commands@.len() == 0 ==> {
            &&& r.admitted
            &&& r.diagnostics@.len() == 0
            &&& r.applied_command_count == run.applied_command_count
            &&& r.observation_pending == run.observed
            &&& r.export_requested == run.export_transcript
        },
        r.command_transcript@ == stamped(run.command_transcript@, r.deterministic_replay_checksum),
        r.observation_replay_checksum is None,
        r.text_export@.len() == 0,
        r.deterministic_replay_checksum == report_checksum(&r),
{
    if run.rejected_commands.len() > 0 {
        let report = base_report(
            input, false, vec!["control_0080_1_command_rejected"], false, run.schedule_input,
            run.bounded_config, 0, run.rejected_commands, run.command_transcript, false, false,
        );
        return seal_report(report);
    }
    let report = base_report(
        input, true, Vec::new(), false, run.schedule_input, run.bounded_config,
        run.applied_command_count, run.rejected_commands, run.command_transcript, run.observed,
        run.export_transcript,
    );
    seal_report(report)
}


/// Attaches the observed scenario's replay checksum and its text export to an admitted report
/// that asked for the observation; the text is kept only when the batch asked for the export.
/// The replay checksum is recomputed and stamped on the transcript again.
pub fn complete_control_0080_1(
    report: Control0081AdmissionReport,
    observation_replay_checksum: u64,
    observation_text: String,
) -> (r: Control0081AdmissionReport)
    requires
        report.observation_pending,
    ensures
        same_commands(&r, &report),
        !r.observation_pending,
        r.observation_replay_checksum == Some(observation_replay_checksum),
        r.text_export@ == (if report.export_requested { observation_text@ } else { Seq::<char>::empty() }),
        r.deterministic_replay_checksum == report_checksum(&r),
        r.command_transcript@ == stamped(report.command_transcript@, r.deterministic_replay_checksum),
{
    let mut r = report;
    r.observation_pending = false;
    r.observation_replay_checksum = Some(observation_replay_checksum);
    if r.export_requested {
        r.text_export = observation_text;
    } else {
        r.text_export = String::new();
    }
    seal_report(r)
}

/// Admits the opted-in canonical input twice.
pub fn replay_admit_control_0080_1() -> (r: (Control0081AdmissionReport, Control0081AdmissionReport))
    ensures
        same_outcome(&r.0, &r.1),
        r.0.command_transcript@ == r.1.command_transcript@,
        r.0.deterministic_replay_checksum == r.1.deterministic_replay_checksum,
        exists|input: Control0081AdmissionInput| #![trigger canonical_admission_input(input)]
            canonical_admission_input(input) && admit_control_0080_1_post(&input, r.0),
{
    let input = Control0081AdmissionInput::explicit_opt_in();
    proof {
        assert(admission_diagnostics(&input) =~= Seq::<&'static str>::empty()) by {
            broadcast use crate::diagnostics::lemma_flag_diag;
        }
    }
    let a = admit_control_0080_1(&input);
    let b = admit_control_0080_1(&input);
    proof {
        assert(a.diagnostics@ =~= b.diagnostics@);
        assert(a.text_export@ =~= b.text_export@);
        assert(checksum_words(&a) =~= checksum_words(&b));
        assert(canonical_admission_input(input) && admit_control_0080_1_post(&input, a));
    }
    (a, b)
}

/// Every bounded value of a configuration lies in its range.
pub open spec fn config_in_bounds(cfg: Control0081BoundedConfig) -> bool {
    &&& bounded_value(cfg.terran_threshold)
    &&& bounded_value(cfg.pirate_threshold)
    &&& cfg.terran_source_starsystem <= CONTROL_0081_MAX_STARSYSTEM_INDEX
    &&& cfg.terran_candidate_starsystem <= CONTROL_0081_MAX_STARSYSTEM_INDEX
    &&& cfg.pirate_source_starsystem <= CONTROL_0081_MAX_STARSYSTEM_INDEX
    &&& cfg.pirate_candidate_starsystem <= CONTROL_0081_MAX_STARSYSTEM_INDEX
    &&& bounded_value(cfg.supply_security_gap)
    &&& bounded_value(cfg.bilateral_relational_gap)
    &&& bounded_value(cfg.composite_gap_sum)
}

/// Commands write bounded values only: whatever the batch, every configuration value stays in
/// its range, the step count stays the base one or at most the bound, and the movement threshold
/// stays the base one or the larger of the two faction thresholds.
pub proof fn lemma_commands_write_bounded_values(cmds: Seq<Control0081Command>, s0: DefaultSchedule0081Input)
    ensures
        config_in_bounds(fold_state(cmds, s0).1),
        fold_state(cmds, s0).0.step_count == s0.step_count
            || fold_state(cmds, s0).0.step_count <= CONTROL_0081_MAX_STEP_COUNT,
        fold_state(cmds, s0).0.movement_threshold == s0.movement_threshold
            || fold_state(cmds, s0).0.movement_threshold == movement_threshold_of(fold_state(cmds, s0).1),
        fold_state(cmds, s0).0.surface == s0.surface,
        fold_state(cmds, s0).0.forbidden == s0.forbidden,
    decreases cmds.len(),
{
    if cmds.len() > 0 {
        lemma_commands_write_bounded_values(cmds.drop_last(), s0);
    }
}

/// A refused command is recorded and writes nothing: appending it to a batch leaves the schedule
/// input and configuration as they were and adds one refusal at its position.
pub proof fn lemma_refused_command_writes_nothing(
    cmds: Seq<Control0081Command>,
    c: Control0081Command,
    s0: DefaultSchedule0081Input,
)
    requires
        command_refusal(c) is Some,
    ensures
        fold_state(cmds.push(c), s0) == fold_state(cmds, s0),
        fold_rejected(cmds.push(c)) == fold_rejected(cmds).push(
            Control0081RejectedCommand { command_index: cmds.len() as usize, diagnostic: command_refusal(c)->0 },
        ),
        accepted_count(cmds.push(c)) == accepted_count(cmds),
{
    assert(cmds.push(c).drop_last() =~= cmds);
}

/// The transcript of a batch has one row per command, in order, accepted exactly when the
/// command is not refused; the batch is refused nowhere exactly when every row is accepted, and
/// then every command counts as accepted.
proof fn lemma_fold_transcript_rows(cmds: Seq<Control0081Command>, s0: DefaultSchedule0081Input)
    requires
        cmds.len() <= usize::MAX,
    ensures
        fold_transcript(cmds, s0).len() == cmds.len(),
        forall|i: int| 0 <= i < cmds.len() ==> (#[trigger] fold_transcript(cmds, s0)[i]).command_index == i
            && fold_transcript(cmds, s0)[i].accepted == (command_refusal(cmds[i]) is None),
        (fold_rejected(cmds).len() == 0) == (forall|i: int| 0 <= i < cmds.len() ==> #[trigger] command_refusal(cmds[i]) is None),
        fold_rejected(cmds).len() == 0 ==> accepted_count(cmds) == cmds.len(),
    decreases cmds.len(),
{
    if cmds.len() > 0 {
        let init = cmds.drop_last();
        lemma_fold_transcript_rows(init, s0);
        let t = fold_transcript(cmds, s0);
        assert forall|i: int| 0 <= i < cmds.len() implies (#[trigger] fold_transcript(cmds, s0)[i]).command_index == i
            && fold_transcript(cmds, s0)[i].accepted == (command_refusal(cmds[i]) is None) by {
            if i < init.len() {
                assert(t[i] == fold_transcript(init, s0)[i]);
                assert(init[i] == cmds[i]);
            }
        }
        if fold_rejected(cmds).len() == 0 {
            assert(command_refusal(cmds.last()) is None);
            assert forall|i: int| 0 <= i < cmds.len() implies #[trigger] command_refusal(cmds[i]) is None by {
                if i < init.len() {
                    assert(init[i] == cmds[i]);
                }
            }
        } else if forall|i: int| 0 <= i < cmds.len() ==> #[trigger] command_refusal(cmds[i]) is None {
            assert(command_refusal(cmds[cmds.len() - 1]) is None);
            assert forall|i: int| 0 <= i < init.len() implies #[trigger] command_refusal(init[i]) is None by {
                assert(init[i] == cmds[i]);
                assert(command_refusal(cmds[i]) is None);
            }
        }
    }
}

/// An opted-in admission with no surface or request diagnostics stamps one transcript row per
/// command, in order, each carrying the report's replay checksum; the batch is admitted exactly
/// when every row is accepted, exactly when no command is refused; an admitted batch applies
/// every command (saturating at `u32::MAX`), a refused one none.
pub proof fn lemma_admission_transcript(input: &Control0081AdmissionInput, r: Control0081AdmissionReport)
    requires
        admit_control_0080_1_post(input, r),
        admission_diagnostics(input).len() == 0,
        input.surface.gate.explicit_opt_in,
        input.commands.commands@.len() <= usize::MAX,
    ensures
        r.command_transcript@.len() == input.commands.commands@.len(),
        forall|i: int| 0 <= i < r.command_transcript@.len() ==> (#[trigger] r.command_transcript@[i]).command_index == i
            && r.command_transcript@[i].replay_checksum == r.deterministic_replay_checksum,
        r.admitted == (forall|i: int| 0 <= i < r.command_transcript@.len() ==> (#[trigger] r.command_transcript@[i]).accepted),
        r.admitted == (r.rejected_commands@.len() == 0),
        r.applied_command_count == (if r.admitted { saturate_u32(input.commands.commands@.len()) } else { 0 }),
{
    let cmds = input.commands.commands@;
    let s0 = command_start(input);
    lemma_fold_transcript_rows(cmds, s0);
    let t = fold_transcript(cmds, s0);
    let st = stamped(t, r.deterministic_replay_checksum);
    assert(r.command_transcript@ == st);
    assert forall|i: int| 0 <= i < st.len() implies (#[trigger] st[i]).command_index == i
        && st[i].replay_checksum == r.deterministic_replay_checksum
        && st[i].accepted == (command_refusal(cmds[i]) is None) by {
        assert(t[i].command_index == i);
    }
    if r.admitted {
        assert forall|i: int| 0 <= i < st.len() implies (#[trigger] st[i]).accepted by {
            assert(command_refusal(cmds[i]) is None);
        }
    } else {
        assert(fold_rejected(cmds).len() > 0);
        let i = choose|i: int| 0 <= i < cmds.len() && !(#[trigger] command_refusal(cmds[i]) is None);
        assert(!st[i].accepted);
    }
}

/// The bounded configuration values, in field order.
pub open spec fn config_values(cfg: Control0081BoundedConfig) -> Seq<int> {
    seq![
        cfg.terran_threshold as int,
        cfg.pirate_threshold as int,
        cfg.terran_source_starsystem as int,
        cfg.terran_candidate_starsystem as int,
        cfg.pirate_source_starsystem as int,
        cfg.pirate_candidate_starsystem as int,
        cfg.supply_security_gap as int,
        cfg.bilateral_relational_gap as int,
        cfg.composite_gap_sum as int,
    ]
}

/// Each accepted command writes only the value it names: a configuration setter replaces
/// exactly its own configuration value; a threshold command moves the schedule's movement
/// threshold to the larger of the two faction thresholds after it; `SetStepCount(v)` sets the
/// step count to `v`; nothing else changes the schedule, and the run and export commands change
/// nothing at all.
pub proof fn lemma_commands_write_one_value(c: Control0081Command, s: DefaultSchedule0081Input, cfg: Control0081BoundedConfig)
    ensures
        ({
            let a = config_after(c, cfg);
            let t = schedule_after(c, s, a);
            &&& (c matches Control0081Command::SetTerranThreshold(v) ==> config_values(a) =~= config_values(cfg).update(0, v as int))
            &&& (c matches Control0081Command::SetPirateThreshold(v) ==> config_values(a) =~= config_values(cfg).update(1, v as int))
            &&& (c matches Control0081Command::SetTerranSourceStarsystem(v) ==> config_values(a) =~= config_values(cfg).update(2, v as int))
            &&& (c matches Control0081Command::SetTerranCandidateStarsystem(v) ==> config_values(a) =~= config_values(cfg).update(3, v as int))
            &&& (c matches Control0081Command::SetPirateSourceStarsystem(v) ==> config_values(a) =~= config_values(cfg).update(4, v as int))
            &&& (c matches Control0081Command::SetPirateCandidateStarsystem(v) ==> config_values(a) =~= config_values(cfg).update(5, v as int))
            &&& (c matches Control0081Command::SetSupplySecurityGap(v) ==> config_values(a) =~= config_values(cfg).update(6, v as int))
            &&& (c matches Control0081Command::SetBilateralRelationalGap(v) ==> config_values(a) =~= config_values(cfg).update(7, v as int))
            &&& (c matches Control0081Command::SetCompositeGapSum(v) ==> config_values(a) =~= config_values(cfg).update(8, v as int))
            &&& (c is SetTerranThreshold || c is SetPirateThreshold ==> {
                &&& t.movement_threshold >= a.terran_threshold && t.movement_threshold >= a.pirate_threshold
                &&& (t.movement_threshold == a.terran_threshold || t.movement_threshold == a.pirate_threshold)
                &&& t == DefaultSchedule0081Input { movement_threshold: t.movement_threshold, ..s }
            })
            &&& (c matches Control0081Command::SetStepCount(v) ==> t.step_count == v
                && t == DefaultSchedule0081Input { step_count: v, ..s } && a == cfg)
            &&& (!(c is SetTerranThreshold || c is SetPirateThreshold || c is SetStepCount) ==> t == s)
            &&& (c is RunObservedScenario || c is ExportTranscript ==> a == cfg && t == s)
        }),
{
}

} // verus!
