//! Bounded command admission for the Local Patrol Economy: gate, session surface, refused requests
//! and the command rules.
//!
//! Running the observed scenario the admitted commands configure is not part of this library:
//! an admitted report that asks for it is completed with the observation's checksum and text.
use crate::default_schedule_0080_0::{
    opted_in_surface, DefaultSchedule0080Input, DefaultSchedule0080Surface, LocalPatrolEconomyNode,
    LocalPatrolEconomyScenario,
};
use crate::diagnostics::{flag_diag, push_if};
use crate::replay_hash::{fnv_append_u64, fnv_words, FNV_OFFSET_BASIS};
use vstd::prelude::*;

verus! {

pub const CONTROL_0080_0_ID: &'static str = "CONTROL-0080-0";
pub const CONTROL_0080_0_STATUS_PASS: &'static str = "IMPLEMENTED / PASS - bounded Local Patrol Economy command admission";
pub const CONTROL_0080_0_SCENARIO: &'static str = "Local Patrol Economy";

/// Opt-in gate.
#[derive(Clone, Copy, Debug, PartialEq, Eq)]
pub struct Control0080Gate {
    pub explicit_opt_in: bool,
    pub enabled_by_default: bool,
}

impl Default for Control0080Gate {
    /// Closed gate.
    fn default() -> (r: Self)
        ensures
            !r.explicit_opt_in && !r.enabled_by_default,
    {
        Control0080Gate { explicit_opt_in: false, enabled_by_default: false }
    }
}

impl Control0080Gate {
    /// Opted in, still not enabled by default.
    pub fn explicit_opt_in() -> (r: Self)
        ensures
            r.explicit_opt_in && !r.enabled_by_default,
    {
        Control0080Gate { explicit_opt_in: true, enabled_by_default: false }
    }
}

/// Session surface.
#[derive(Clone, Copy, Debug, PartialEq, Eq)]
pub struct Control0080Surface {
    pub gate: Control0080Gate,
    pub direct_movement_control: bool,
    pub player_command_loop: bool,
    pub ui_framework_present: bool,
    pub realtime_loop_present: bool,
    pub global_default_schedule_registered: bool,
}

/// `acc` followed by the diagnostics for the surface flags, in check order.
pub open spec fn surface_diagnostics(acc: Seq<&'static str>, s: Control0080Surface) -> Seq<&'static str> {
    acc
        + flag_diag(s.gate.enabled_by_default, "control_0080_0_default_on_behavior_rejected")
        + flag_diag(s.direct_movement_control, "direct_patrol_move_rejected")
        + flag_diag(s.player_command_loop, "player_command_loop")
        + flag_diag(s.ui_framework_present, "ui_framework")
        + flag_diag(s.realtime_loop_present, "realtime_loop")
        + flag_diag(s.global_default_schedule_registered, "global_default_schedule")
}

impl Default for Control0080Surface {
    /// Nothing registered or wired, gate closed.
    fn default() -> (r: Self)
        ensures
            !r.gate.explicit_opt_in,
            surface_diagnostics(Seq::empty(), r).len() == 0,
    {
        broadcast use crate::diagnostics::lemma_flag_diag;
        Control0080Surface {
            gate: Control0080Gate::default(),
            direct_movement_control: false,
            player_command_loop: false,
            ui_framework_present: false,
            realtime_loop_present: false,
            global_default_schedule_registered: false,
        }
    }
}

impl Control0080Surface {
    /// The default session: nothing registered or wired, gate closed.
    pub fn default_simsession() -> (r: Self)
        ensures
            !r.gate.explicit_opt_in,
            surface_diagnostics(Seq::empty(), r).len() == 0,
    {
        Self::default()
    }

    /// Opted in; nothing else wired.
    pub fn with_explicit_opt_in() -> (r: Self)
        ensures
            r.gate.explicit_opt_in,
            surface_diagnostics(Seq::empty(), r).len() == 0,
    {
        broadcast use crate::diagnostics::lemma_flag_diag;
        Control0080Surface {
            gate: Control0080Gate::explicit_opt_in(),
            direct_movement_control: false,
            player_command_loop: false,
            ui_framework_present: false,
            realtime_loop_present: false,
            global_default_schedule_registered: false,
        }
    }
}

/// Requests that must be refused.
#[derive(Clone, Copy, Debug, PartialEq, Eq)]
pub struct Control0080ForbiddenRequests {
    pub direct_patrol_move: bool,
    pub direct_pirate_move: bool,
    pub external_boundary_request: bool,
    pub cpu_planner_or_commitment: bool,
    pub player_command_loop: bool,
    pub ui_framework: bool,
    pub realtime_loop: bool,
    pub global_default_schedule: bool,
    pub semantic_or_raw_wgsl: bool,
    pub hard_currency_markets_trade_aibudget: bool,
    pub nested_resource_flow: bool,
    pub clausething_dependency: bool,
    pub closed_ladder_reopen: bool,
}

/// `acc` followed by the diagnostics for the forbidden requests, in check order.
pub open spec fn forbidden_diagnostics(acc: Seq<&'static str>, f: Control0080ForbiddenRequests) -> Seq<&'static str> {
    acc
        + flag_diag(f.direct_patrol_move, "direct_patrol_move_rejected")
        + flag_diag(f.direct_pirate_move, "direct_pirate_move_rejected")
        + flag_diag(f.external_boundary_request, "external_boundary_request_rejected")
        + flag_diag(f.cpu_planner_or_commitment, "cpu_planner_or_commitment_rejected")
        + flag_diag(f.player_command_loop, "player_command_loop")
        + flag_diag(f.ui_framework, "ui_framework")
        + flag_diag(f.realtime_loop, "realtime_loop")
        + flag_diag(f.global_default_schedule, "global_default_schedule")
        + flag_diag(f.semantic_or_raw_wgsl, "semantic_or_raw_wgsl")
        + flag_diag(f.hard_currency_markets_trade_aibudget, "hard_currency_markets_trade_aibudget")
        + flag_diag(f.nested_resource_flow, "nested_resource_flow")
        + flag_diag(f.clausething_dependency, "clausething_dependency")
        + flag_diag(f.closed_ladder_reopen, "closed_ladder_reopen")
}

impl Default for Control0080ForbiddenRequests {
    /// Nothing requested.
    fn default() -> (r: Self)
        ensures
            forbidden_diagnostics(Seq::empty(), r).len() == 0,
    {
        broadcast use crate::diagnostics::lemma_flag_diag;
        Control0080ForbiddenRequests {
            direct_patrol_move: false,
            direct_pirate_move: false,
            external_boundary_request: false,
            cpu_planner_or_commitment: false,
            player_command_loop: false,
            ui_framework: false,
            realtime_loop: false,
            global_default_schedule: false,
            semantic_or_raw_wgsl: false,
            hard_currency_markets_trade_aibudget: false,
            nested_resource_flow: false,
            clausething_dependency: false,
            closed_ladder_reopen: false,
        }
    }
}

/// Appends the surface diagnostics, in check order.
pub fn validate_surface(surface: &Control0080Surface, diagnostics: &mut Vec<&'static str>)
    ensures
        final(diagnostics)@ == surface_diagnostics(old(diagnostics)@, *surface),
{
    push_if(diagnostics, surface.gate.enabled_by_default, "control_0080_0_default_on_behavior_rejected");
    push_if(diagnostics, surface.direct_movement_control, "direct_patrol_move_rejected");
    push_if(diagnostics, surface.player_command_loop, "player_command_loop");
    push_if(diagnostics, surface.ui_framework_present, "ui_framework");
    push_if(diagnostics, surface.realtime_loop_present, "realtime_loop");
    push_if(diagnostics, surface.global_default_schedule_registered, "global_default_schedule");
}

#[verifier::rlimit(60)]
/// Appends the forbidden-request diagnostics, in check order.
pub fn validate_forbidden(forbidden: &Control0080ForbiddenRequests, diagnostics: &mut Vec<&'static str>)
    ensures
        final(diagnostics)@ == forbidden_diagnostics(old(diagnostics)@, *forbidden),
{
    push_if(diagnostics, forbidden.direct_patrol_move, "direct_patrol_move_rejected");
    push_if(diagnostics, forbidden.direct_pirate_move, "direct_pirate_move_rejected");
    push_if(diagnostics, forbidden.external_boundary_request, "external_boundary_request_rejected");
    push_if(diagnostics, forbidden.cpu_planner_or_commitment, "cpu_planner_or_commitment_rejected");
    push_if(diagnostics, forbidden.player_command_loop, "player_command_loop");
    push_if(diagnostics, forbidden.ui_framework, "ui_framework");
    push_if(diagnostics, forbidden.realtime_loop, "realtime_loop");
    push_if(diagnostics, forbidden.global_default_schedule, "global_default_schedule");
    push_if(diagnostics, forbidden.semantic_or_raw_wgsl, "semantic_or_raw_wgsl");
    push_if(diagnostics, forbidden.hard_currency_markets_trade_aibudget, "hard_currency_markets_trade_aibudget");
    push_if(diagnostics, forbidden.nested_resource_flow, "nested_resource_flow");
    push_if(diagnostics, forbidden.clausething_dependency, "clausething_dependency");
    push_if(diagnostics, forbidden.closed_ladder_reopen, "closed_ladder_reopen");
}


/// Largest step count a command may set.
pub const CONTROL_0080_MAX_STEP_COUNT: u32 = 32;

/// A command of the bounded command surface.
#[derive(Clone, Copy, Debug, PartialEq, Eq, Structural)]
pub enum Control0080Command {
    SetSourceDisruption(i64),
    SetDestinationDisruption(i64),
    SetSourceSupply(i64),
    SetDestinationSupply(i64),
    SetSourceLocalSecurity(i64),
    SetDestinationLocalSecurity(i64),
    SetStepCount(u32),
    SetPatrolDisruptionReduction(i64),
    RunObservedScenario,
    ExportTranscript,
    DirectPatrolMove,
    DirectPirateMove,
    ExternalBoundaryRequest,
    CpuPlannerOrCommitment,
}

/// Commands in the order they are applied.
#[derive(Clone, Debug, PartialEq, Eq)]
pub struct Control0080CommandBatch {
    pub commands: Vec<Control0080Command>,
}

impl Default for Control0080CommandBatch {
    /// No commands.
    fn default() -> (r: Self)
        ensures
            r.commands@.len() == 0,
    {
        Control0080CommandBatch { commands: Vec::new() }
    }
}

impl Control0080CommandBatch {
    /// Three steps, run the observed scenario and export its transcript.
    pub fn canonical_run() -> (r: Self)
        ensures
            r.commands@ == seq![
                Control0080Command::SetStepCount(3),
                Control0080Command::RunObservedScenario,
                Control0080Command::ExportTranscript,
            ],
    {
        Control0080CommandBatch {
            commands: vec![
                Control0080Command::SetStepCount(3),
                Control0080Command::RunObservedScenario,
                Control0080Command::ExportTranscript,
            ],
        }
    }
}

/// A refused command: its position in the batch and the reason.
#[derive(Clone, Copy, Debug, PartialEq, Eq)]
pub struct Control0080RejectedCommand {
    pub command_index: usize,
    pub diagnostic: &'static str,
}

/// The reason a command is refused, or `None` when it is accepted.
pub open spec fn command_refusal(c: Control0080Command) -> Option<&'static str> {
    match c {
        Control0080Command::SetSourceDisruption(v) => if v < 0 { Some("negative_disruption_rejected") } else { None },
        Control0080Command::SetDestinationDisruption(v) => if v < 0 { Some("negative_disruption_rejected") } else { None },
        Control0080Command::SetSourceSupply(v) => if v < 0 { Some("negative_supply_rejected") } else { None },
        Control0080Command::SetDestinationSupply(v) => if v < 0 { Some("negative_supply_rejected") } else { None },
        Control0080Command::SetSourceLocalSecurity(v) => if v < 0 { Some("negative_local_security_rejected") } else { None },
        Control0080Command::SetDestinationLocalSecurity(v) => if v < 0 { Some("negative_local_security_rejected") } else { None },
        Control0080Command::SetStepCount(v) => if v > CONTROL_0080_MAX_STEP_COUNT { Some("invalid_step_count_rejected") } else { None },
        Control0080Command::SetPatrolDisruptionReduction(v) => if v < 0 {
            Some("negative_patrol_disruption_reduction_rejected")
        } else {
            None
        },
        Control0080Command::RunObservedScenario => None,
        Control0080Command::ExportTranscript => None,
        Control0080Command::DirectPatrolMove => Some("direct_patrol_move_rejected"),
        Control0080Command::DirectPirateMove => Some("direct_pirate_move_rejected"),
        Control0080Command::ExternalBoundaryRequest => Some("external_boundary_request_rejected"),
        Control0080Command::CpuPlannerOrCommitment => Some("cpu_planner_or_commitment_rejected"),
    }
}

/// The schedule input after an accepted command.
pub open spec fn input_after(c: Control0080Command, s: DefaultSchedule0080Input) -> DefaultSchedule0080Input {
    let sc = s.scenario;
    match c {
        Control0080Command::SetSourceDisruption(v) => DefaultSchedule0080Input {
            scenario: LocalPatrolEconomyScenario { source: LocalPatrolEconomyNode { disruption: v, ..sc.source }, ..sc },
            ..s
        },
        Control0080Command::SetDestinationDisruption(v) => DefaultSchedule0080Input {
            scenario: LocalPatrolEconomyScenario { destination: LocalPatrolEconomyNode { disruption: v, ..sc.destination }, ..sc },
            ..s
        },
        Control0080Command::SetSourceSupply(v) => DefaultSchedule0080Input {
            scenario: LocalPatrolEconomyScenario { source: LocalPatrolEconomyNode { supply: v, ..sc.source }, ..sc },
            ..s
        },
        Control0080Command::SetDestinationSupply(v) => DefaultSchedule0080Input {
            scenario: LocalPatrolEconomyScenario { destination: LocalPatrolEconomyNode { supply: v, ..sc.destination }, ..sc },
            ..s
        },
        Control0080Command::SetSourceLocalSecurity(v) => DefaultSchedule0080Input {
            scenario: LocalPatrolEconomyScenario { source: LocalPatrolEconomyNode { local_security: v, ..sc.source }, ..sc },
            ..s
        },
        Control0080Command::SetDestinationLocalSecurity(v) => DefaultSchedule0080Input {
            scenario: LocalPatrolEconomyScenario { destination: LocalPatrolEconomyNode { local_security: v, ..sc.destination }, ..sc },
            ..s
        },
        Control0080Command::SetStepCount(v) => DefaultSchedule0080Input { step_count: v, ..s },
        Control0080Command::SetPatrolDisruptionReduction(v) => DefaultSchedule0080Input { patrol_disruption_reduction_per_step: v, ..s },
        _ => s,
    }
}

/// The schedule input after applying `cmds` in order from `s0`; a refused command changes nothing.
pub open spec fn fold_input(cmds: Seq<Control0080Command>, s0: DefaultSchedule0080Input) -> DefaultSchedule0080Input
    decreases cmds.len(),
{
    if cmds.len() == 0 {
        s0
    } else {
        let prev = fold_input(cmds.drop_last(), s0);
        if command_refusal(cmds.last()) is Some {
            prev
        } else {
            input_after(cmds.last(), prev)
        }
    }
}

/// The refused commands among `cmds`, in order.
pub open spec fn fold_rejected(cmds: Seq<Control0080Command>) -> Seq<Control0080RejectedCommand>
    decreases cmds.len(),
{
    if cmds.len() == 0 {
        Seq::empty()
    } else {
        let prev = fold_rejected(cmds.drop_last());
        match command_refusal(cmds.last()) {
            Some(d) => prev.push(Control0080RejectedCommand { command_index: (cmds.len() - 1) as usize, diagnostic: d }),
            None => prev,
        }
    }
}

/// Number of accepted commands among `cmds`.
pub open spec fn accepted_count(cmds: Seq<Control0080Command>) -> nat
    decreases cmds.len(),
{
    if cmds.len() == 0 {
        0
    } else {
        accepted_count(cmds.drop_last()) + if command_refusal(cmds.last()) is None { 1nat } else { 0nat }
    }
}

/// `n` saturated at `u32::MAX`.
pub open spec fn saturate_u32(n: nat) -> u32 {
    if n > u32::MAX { u32::MAX } else { n as u32 }
}

/// Whether some command asks for the observed scenario, directly or through an export.
pub open spec fn asks_observation(cmds: Seq<Control0080Command>) -> bool {
    exists|i: int| 0 <= i < cmds.len() && (cmds[i] is RunObservedScenario || cmds[i] is ExportTranscript)
}

/// Outcome of applying one command.
pub enum Control0080CommandOutcome {
    Applied,
    Rejected,
    RunObservedScenario,
    ExportTranscript,
}

/// Applies one command at `command_index`: an accepted one writes its value into the schedule
/// input, a refused one is recorded with its reason and changes nothing.
pub fn apply_command(
    command: &Control0080Command,
    command_index: usize,
    schedule_input: &mut DefaultSchedule0080Input,
    rejected_commands: &mut Vec<Control0080RejectedCommand>,
) -> (outcome: Control0080CommandOutcome)
    ensures
        command_refusal(*command) is Some ==> {
            &&& outcome is Rejected
            &&& *final(schedule_input) == *old(schedule_input)
            &&& final(rejected_commands)@ == old(rejected_commands)@.push(
                Control0080RejectedCommand { command_index, diagnostic: command_refusal(*command)->0 },
            )
        },
        command_refusal(*command) is None ==> {
            &&& *final(schedule_input) == input_after(*command, *old(schedule_input))
            &&& final(rejected_commands)@ == old(rejected_commands)@
            &&& (*command is RunObservedScenario ==> outcome is RunObservedScenario)
            &&& (*command is ExportTranscript ==> outcome is ExportTranscript)
            &&& (!(*command is RunObservedScenario) && !(*command is ExportTranscript) ==> outcome is Applied)
        },
{
    match *command {
        Control0080Command::SetSourceDisruption(value) => {
            if value < 0 {
                return reject(rejected_commands, command_index, "negative_disruption_rejected");
            }
            schedule_input.scenario.source.disruption = value;
            Control0080CommandOutcome::Applied
        },
        Control0080Command::SetDestinationDisruption(value) => {
            if value < 0 {
                return reject(rejected_commands, command_index, "negative_disruption_rejected");
            }
            schedule_input.scenario.destination.disruption = value;
            Control0080CommandOutcome::Applied
        },
        Control0080Command::SetSourceSupply(value) => {
            if value < 0 {
                return reject(rejected_commands, command_index, "negative_supply_rejected");
            }
            schedule_input.scenario.source.supply = value;
            Control0080CommandOutcome::Applied
        },
        Control0080Command::SetDestinationSupply(value) => {
            if value < 0 {
                return reject(rejected_commands, command_index, "negative_supply_rejected");
            }
            schedule_input.scenario.destination.supply = value;
            Control0080CommandOutcome::Applied
        },
        Control0080Command::SetSourceLocalSecurity(value) => {
            if value < 0 {
                return reject(rejected_commands, command_index, "negative_local_security_rejected");
            }
            schedule_input.scenario.source.local_security = value;
            Control0080CommandOutcome::Applied
        },
        Control0080Command::SetDestinationLocalSecurity(value) => {
            if value < 0 {
                return reject(rejected_commands, command_index, "negative_local_security_rejected");
            }
            schedule_input.scenario.destination.local_security = value;
            Control0080CommandOutcome::Applied
        },
        Control0080Command::SetStepCount(value) => {
            if value > CONTROL_0080_MAX_STEP_COUNT {
                return reject(rejected_commands, command_index, "invalid_step_count_rejected");
            }
            schedule_input.step_count = value;
            Control0080CommandOutcome::Applied
        },
        Control0080Command::SetPatrolDisruptionReduction(value) => {
            if value < 0 {
                return reject(rejected_commands, command_index, "negative_patrol_disruption_reduction_rejected");
            }
            schedule_input.patrol_disruption_reduction_per_step = value;
            Control0080CommandOutcome::Applied
        },
        Control0080Command::RunObservedScenario => Control0080CommandOutcome::RunObservedScenario,
        Control0080Command::ExportTranscript => Control0080CommandOutcome::ExportTranscript,
        Control0080Command::DirectPatrolMove => reject(rejected_commands, command_index, "direct_patrol_move_rejected"),
        Control0080Command::DirectPirateMove => reject(rejected_commands, command_index, "direct_pirate_move_rejected"),
        Control0080Command::ExternalBoundaryRequest => reject(rejected_commands, command_index, "external_boundary_request_rejected"),
        Control0080Command::CpuPlannerOrCommitment => reject(rejected_commands, command_index, "cpu_planner_or_commitment_rejected"),
    }
}

/// Records a refused command.
fn reject(
    rejected_commands: &mut Vec<Control0080RejectedCommand>,
    command_index: usize,
    diagnostic: &'static str,
) -> (outcome: Control0080CommandOutcome)
    ensures
        outcome is Rejected,
        final(rejected_commands)@ == old(rejected_commands)@.push(Control0080RejectedCommand { command_index, diagnostic }),
{
    rejected_commands.push(Control0080RejectedCommand { command_index, diagnostic });
    Control0080CommandOutcome::Rejected
}


/// Admission input: surface, the schedule input the commands start from, the commands, and the
/// refused requests.
#[derive(Clone, Debug, PartialEq, Eq)]
pub struct Control0080AdmissionInput {
    pub surface: Control0080Surface,
    pub base_schedule_input: DefaultSchedule0080Input,
    pub commands: Control0080CommandBatch,
    pub forbidden: Control0080ForbiddenRequests,
}

/// The canonical admission input over `scenario` that `Control0080AdmissionInput::explicit_opt_in` returns.
pub open spec fn canonical_admission_input(r: Control0080AdmissionInput, scenario: LocalPatrolEconomyScenario) -> bool {
    &&& r.surface.gate.explicit_opt_in
    &&& surface_diagnostics(Seq::empty(), r.surface).len() == 0
    &&& forbidden_diagnostics(Seq::empty(), r.forbidden).len() == 0
    &&& r.base_schedule_input == (DefaultSchedule0080Input {
        surface: opted_in_surface(),
        scenario,
        step_count: 3,
        patrol_disruption_reduction_per_step: 1,
        forbidden: crate::default_schedule_0080_0::no_forbidden_requests(),
    })
    &&& r.commands.commands@ == seq![
        Control0080Command::SetStepCount(3),
        Control0080Command::RunObservedScenario,
        Control0080Command::ExportTranscript,
    ]
}

impl Control0080AdmissionInput {
    /// The default session over `scenario`: gate closed, no commands.
    pub fn default_simsession(scenario: LocalPatrolEconomyScenario) -> (r: Self)
        ensures
            !r.surface.gate.explicit_opt_in,
            surface_diagnostics(Seq::empty(), r.surface).len() == 0,
            forbidden_diagnostics(Seq::empty(), r.forbidden).len() == 0,
            r.base_schedule_input == (DefaultSchedule0080Input {
                surface: crate::default_schedule_0080_0::closed_surface(),
                scenario,
                step_count: 0,
                patrol_disruption_reduction_per_step: 1,
                forbidden: crate::default_schedule_0080_0::no_forbidden_requests(),
            }),
            r.commands.commands@.len() == 0,
    {
        Control0080AdmissionInput {
            surface: Control0080Surface::default_simsession(),
            base_schedule_input: DefaultSchedule0080Input::default_simsession(scenario),
            commands: Control0080CommandBatch::default(),
            forbidden: Control0080ForbiddenRequests::default(),
        }
    }

    /// Opted in over `scenario`, running the canonical batch.
    pub fn explicit_opt_in(scenario: LocalPatrolEconomyScenario) -> (r: Self)
        ensures
            canonical_admission_input(r, scenario),
    {
        Control0080AdmissionInput {
            surface: Control0080Surface::with_explicit_opt_in(),
            base_schedule_input: DefaultSchedule0080Input::explicit_opt_in(scenario),
            commands: Control0080CommandBatch::canonical_run(),
            forbidden: Control0080ForbiddenRequests::default(),
        }
    }
}

/// Admission report. When the admitted commands ask for the observed scenario,
/// `observation_pending` is set until the observation's checksum and text are attached.
#[derive(Clone, Debug, PartialEq, Eq)]
pub struct Control0080AdmissionReport {
    pub control_id: &'static str,
    pub status: &'static str,
    pub scenario_name: &'static str,
    pub admitted: bool,
    pub diagnostics: Vec<&'static str>,
    pub explicit_opt_in: bool,
    pub default_off: bool,
    pub disabled_no_op: bool,
    pub bounded_command_admission_only: bool,
    pub direct_movement_control: bool,
    pub player_command_loop: bool,
    pub ui_framework_present: bool,
    pub realtime_loop_present: bool,
    pub global_default_schedule_registered: bool,
    pub semantic_or_raw_wgsl_present: bool,
    pub cpu_planner_used: bool,
    pub external_boundary_request_emitted: bool,
    pub hard_currency_markets_trade_aibudget: bool,
    pub nested_resource_flow: bool,
    pub clausething_dependency_present: bool,
    pub closed_ladders_reopened: bool,
    pub applied_command_count: u32,
    pub rejected_commands: Vec<Control0080RejectedCommand>,
    pub schedule_input: DefaultSchedule0080Input,
    pub observation_pending: bool,
    pub observation_replay_checksum: Option<u64>,
    pub text_export: String,
    pub deterministic_replay_checksum: u64,
}

/// The report's fixed identity and the flags copied from the input's surface.
pub open spec fn report_frame(r: &Control0080AdmissionReport, input: &Control0080AdmissionInput, disabled: bool) -> bool {
    &&& r.control_id == CONTROL_0080_0_ID
    &&& r.status == CONTROL_0080_0_STATUS_PASS
    &&& r.scenario_name == CONTROL_0080_0_SCENARIO
    &&& r.explicit_opt_in == input.surface.gate.explicit_opt_in
    &&& r.default_off == !input.surface.gate.enabled_by_default
    &&& r.disabled_no_op == disabled
    &&& r.bounded_command_admission_only == !disabled
    &&& r.direct_movement_control == input.surface.direct_movement_control
    &&& r.player_command_loop == input.surface.player_command_loop
    &&& r.ui_framework_present == input.surface.ui_framework_present
    &&& r.realtime_loop_present == input.surface.realtime_loop_present
    &&& r.global_default_schedule_registered == input.surface.global_default_schedule_registered
    &&& !r.semantic_or_raw_wgsl_present
    &&& !r.cpu_planner_used
    &&& !r.external_boundary_request_emitted
    &&& !r.hard_currency_markets_trade_aibudget
    &&& !r.nested_resource_flow
    &&& !r.clausething_dependency_present
    &&& !r.closed_ladders_reopened
}

/// The words the replay checksum of an admitted report folds: counts, the step count, both
/// disruptions, the observation's checksum (0 when absent), then each byte of the text export.
pub open spec fn words_of(applied: u32, rejected: nat, s: DefaultSchedule0080Input, observation: u64, text: Seq<char>) -> Seq<u64> {
    seq![
        applied as u64,
        rejected as u64,
        s.step_count as u64,
        s.scenario.source.disruption as u64,
        s.scenario.destination.disruption as u64,
        observation,
    ] + vstd::utf8::encode_utf8(text).map_values(|b: u8| b as u64)
}

/// The replay checksum of an admission with the given outcome.
pub open spec fn checksum_of(applied: u32, rejected: nat, s: DefaultSchedule0080Input, observation: u64, text: Seq<char>) -> u64 {
    fnv_words(FNV_OFFSET_BASIS, words_of(applied, rejected, s, observation, text))
}

/// The words of a report's replay checksum.
pub open spec fn checksum_words(r: &Control0080AdmissionReport) -> Seq<u64> {
    words_of(
        r.applied_command_count,
        r.rejected_commands@.len(),
        r.schedule_input,
        match r.observation_replay_checksum { Some(c) => c, None => 0u64 },
        r.text_export@,
    )
}

/// The replay checksum of an admitted report.
pub open spec fn report_checksum(r: &Control0080AdmissionReport) -> u64 {
    fnv_words(FNV_OFFSET_BASIS, checksum_words(r))
}

/// The schedule input the commands start from: the base input with the opted-in surface.
pub open spec fn command_start(input: &Control0080AdmissionInput) -> DefaultSchedule0080Input {
    DefaultSchedule0080Input { surface: opted_in_surface(), ..input.base_schedule_input }
}

/// The diagnostics of the surface and the refused requests, in check order.
pub open spec fn admission_diagnostics(input: &Control0080AdmissionInput) -> Seq<&'static str> {
    forbidden_diagnostics(surface_diagnostics(Seq::empty(), input.surface), input.forbidden)
}

/// Computes the replay checksum of a report.
pub fn checksum_report(report: &Control0080AdmissionReport) -> (r: u64)
    ensures
        r == report_checksum(report),
{
    let ghost words = checksum_words(report);
    let head: [u64; 6] = [
        report.applied_command_count as u64,
        report.rejected_commands.len() as u64,
        report.schedule_input.step_count as u64,
        report.schedule_input.scenario.source.disruption as u64,
        report.schedule_input.scenario.destination.disruption as u64,
        match report.observation_replay_checksum { Some(c) => c, None => 0u64 },
    ];
    proof {
        assert(head@ =~= words.take(6));
    }
    let mut hash = FNV_OFFSET_BASIS;
    let mut k: usize = 0;
    while k < 6
        invariant
            k <= 6,
            words == checksum_words(report),
            head@ =~= words.take(6),
            words.len() >= 6,
            hash == fnv_words(FNV_OFFSET_BASIS, words.take(k as int)),
        decreases 6 - k,
    {
        proof {
            assert(words.take(k as int + 1).drop_last() =~= words.take(k as int));
        }
        hash = fnv_append_u64(hash, head[k]);
        k = k + 1;
    }
    let bytes = report.text_export.as_str().as_bytes();
    let ghost tail = vstd::utf8::encode_utf8(report.text_export@).map_values(|b: u8| b as u64);
    proof {
        assert(words =~= words.take(6) + tail);
        assert forall|t: int| 0 <= t < tail.len() implies words[6 + t] == tail[t] by {
            assert((words.take(6) + tail)[6 + t] == tail[t]);
        }
    }
    let mut j: usize = 0;
    while j < bytes.len()
        invariant
            j <= bytes@.len(),
            bytes@ == vstd::utf8::encode_utf8(report.text_export@),
            tail == bytes@.map_values(|b: u8| b as u64),
            tail.len() == bytes@.len(),
            words.len() == 6 + tail.len(),
            forall|t: int| 0 <= t < tail.len() ==> words[6 + t] == tail[t],
            hash == fnv_words(FNV_OFFSET_BASIS, words.take(6 + j)),
        decreases bytes@.len() - j,
    {
        proof {
            assert(words.take(6 + j + 1).drop_last() =~= words.take(6 + j));
            assert(tail[j as int] == bytes@[j as int] as u64);
            assert(words[6 + j as int] == tail[j as int]);
        }
        hash = fnv_append_u64(hash, bytes[j] as u64);
        j = j + 1;
    }
    proof {
        assert(words.take(6 + j as int) =~= words);
    }
    hash
}

/// A report with the frame of `input` and the given outcome; checksum 0.
fn base_report(
    input: &Control0080AdmissionInput,
    admitted: bool,
    diagnostics: Vec<&'static str>,
    disabled_no_op: bool,
    schedule_input: DefaultSchedule0080Input,
    applied_command_count: u32,
    rejected_commands: Vec<Control0080RejectedCommand>,
    observation_pending: bool,
) -> (r: Control0080AdmissionReport)
    ensures
        report_frame(&r, input, disabled_no_op),
        r.admitted == admitted,
        r.diagnostics@ == diagnostics@,
        r.schedule_input == schedule_input,
        r.applied_command_count == applied_command_count,
        r.rejected_commands@ == rejected_commands@,
        r.observation_pending == observation_pending,
        r.observation_replay_checksum is None,
        r.text_export@.len() == 0,
        r.deterministic_replay_checksum == 0,
{
    Control0080AdmissionReport {
        control_id: CONTROL_0080_0_ID,
        status: CONTROL_0080_0_STATUS_PASS,
        scenario_name: CONTROL_0080_0_SCENARIO,
        admitted,
        diagnostics,
        explicit_opt_in: input.surface.gate.explicit_opt_in,
        default_off: !input.surface.gate.enabled_by_default,
        disabled_no_op,
        bounded_command_admission_only: !disabled_no_op,
        direct_movement_control: input.surface.direct_movement_control,
        player_command_loop: input.surface.player_command_loop,
        ui_framework_present: input.surface.ui_framework_present,
        realtime_loop_present: input.surface.realtime_loop_present,
        global_default_schedule_registered: input.surface.global_default_schedule_registered,
        semantic_or_raw_wgsl_present: false,
        cpu_planner_used: false,
        external_boundary_request_emitted: false,
        hard_currency_markets_trade_aibudget: false,
        nested_resource_flow: false,
        clausething_dependency_present: false,
        closed_ladders_reopened: false,
        applied_command_count,
        rejected_commands,
        schedule_input,
        observation_pending,
        observation_replay_checksum: None,
        text_export: String::new(),
        deterministic_replay_checksum: 0,
    }
}

/// Asking for the observation, one more command at a time.
proof fn lemma_asks_step(cmds: Seq<Control0080Command>, i: int)
    requires
        0 <= i < cmds.len(),
    ensures
        asks_observation(cmds.take(i + 1)) == (asks_observation(cmds.take(i))
            || cmds[i] is RunObservedScenario || cmds[i] is ExportTranscript),
{
    let prefix = cmds.take(i);
    let next = cmds.take(i + 1);
    assert(next[i] == cmds[i]);
    if asks_observation(next) {
        let w = choose|w: int| 0 <= w < next.len()
            && (next[w] is RunObservedScenario || next[w] is ExportTranscript);
        if w < i {
            assert(prefix[w] == next[w]);
        }
    }
    if asks_observation(prefix) {
        let w = choose|w: int| 0 <= w < prefix.len()
            && (prefix[w] is RunObservedScenario || prefix[w] is ExportTranscript);
        assert(next[w] == prefix[w]);
    }
}

/// What running a command batch produced.
struct CommandRun {
    schedule_input: DefaultSchedule0080Input,
    rejected_commands: Vec<Control0080RejectedCommand>,
    applied_command_count: u32,
    observed: bool,
}

/// Applies `cmds` in order from `s0`.
fn run_commands(cmds: &Vec<Control0080Command>, s0: DefaultSchedule0080Input) -> (r: CommandRun)
    ensures
        r.schedule_input == fold_input(cmds@, s0),
        r.rejected_commands@ == fold_rejected(cmds@),
        r.applied_command_count == saturate_u32(accepted_count(cmds@)),
        r.observed == asks_observation(cmds@),
{
    let mut schedule_input = s0;
    let mut rejected_commands: Vec<Control0080RejectedCommand> = Vec::new();
    let mut applied_command_count: u32 = 0;
    let mut observed = false;
    proof {
        assert(cmds@.take(0) =~= Seq::<Control0080Command>::empty());
    }
    let mut i: usize = 0;
    while i < cmds.len()
        invariant
            i <= cmds@.len(),
            schedule_input == fold_input(cmds@.take(i as int), s0),
            rejected_commands@ == fold_rejected(cmds@.take(i as int)),
            applied_command_count == saturate_u32(accepted_count(cmds@.take(i as int))),
            observed == asks_observation(cmds@.take(i as int)),
        decreases cmds@.len() - i,
    {
        proof {
            let next = cmds@.take(i as int + 1);
            assert(next.drop_last() =~= cmds@.take(i as int));
            assert(next.last() == cmds@[i as int]);
            lemma_asks_step(cmds@, i as int);
        }
        match apply_command(&cmds[i], i, &mut schedule_input, &mut rejected_commands) {
            Control0080CommandOutcome::Applied => {
                applied_command_count = applied_command_count.saturating_add(1);
            },
            Control0080CommandOutcome::Rejected => {},
            Control0080CommandOutcome::RunObservedScenario => {
                applied_command_count = applied_command_count.saturating_add(1);
                observed = true;
            },
            Control0080CommandOutcome::ExportTranscript => {
                applied_command_count = applied_command_count.saturating_add(1);
                observed = true;
            },
        }
        i = i + 1;
    }
    proof {
        assert(cmds@.take(i as int) =~= cmds@);
    }
    CommandRun { schedule_input, rejected_commands, applied_command_count, observed }
}

/// What `admit_control_0080_0` returns for `input`.
pub open spec fn admit_control_0080_0_post(input: &Control0080AdmissionInput, r: Control0080AdmissionReport) -> bool {
    &&& admission_diagnostics(input).len() > 0 ==> {
        &&& report_frame(&r, input, false)
        &&& !r.admitted
        &&& r.diagnostics@ == admission_diagnostics(input)
        &&& r.schedule_input == input.base_schedule_input
        &&& r.applied_command_count == 0
        &&& r.rejected_commands@.len() == 0
        &&& !r.observation_pending
        &&& r.deterministic_replay_checksum == 0
    }
    &&& admission_diagnostics(input).len() == 0 && !input.surface.gate.explicit_opt_in ==> {
        &&& report_frame(&r, input, true)
        &&& r.admitted
        &&& r.diagnostics@.len() == 0
        &&& r.schedule_input == input.base_schedule_input
        &&& r.applied_command_count == 0
        &&& r.rejected_commands@.len() == 0
        &&& !r.observation_pending
        &&& r.deterministic_replay_checksum == 0
    }
    &&& admission_diagnostics(input).len() == 0 && input.surface.gate.explicit_opt_in ==> {
        let cmds = input.commands.commands@;
        let refused = fold_rejected(cmds);
        &&& report_frame(&r, input, false)
        &&& r.schedule_input == fold_input(cmds, command_start(input))
        &&& r.rejected_commands@ == refused
        &&& (refused.len() > 0 ==> {
            &&& !r.admitted
            &&& r.diagnostics@ == seq!["control_0080_0_command_rejected"]
            &&& r.applied_command_count == 0
            &&& !r.observation_pending
            &&& r.deterministic_replay_checksum == 0
        })
        &&& (refused.len() == 0 ==> {
            &&& r.admitted
            &&& r.diagnostics@.len() == 0
            &&& r.applied_command_count == saturate_u32(accepted_count(cmds))
            &&& r.observation_pending == asks_observation(cmds)
            &&& r.deterministic_replay_checksum == report_checksum(&r)
        })
    }
    &&& r.observation_replay_checksum is None
    &&& r.text_export@.len() == 0
}

/// Admits a command batch.
///
/// Surface and request diagnostics refuse the whole input; a closed gate is a no-op; otherwise
/// the commands run in order from the base schedule input with the opted-in surface. Any refused
/// command refuses the batch (reporting what the accepted ones wrote). Refused and no-op reports
/// carry checksum 0. An admitted batch that asks for the observed scenario is completed by
/// `complete_control_0080_0`; one that does not is checksummed at once.
pub fn admit_control_0080_0(input: &Control0080AdmissionInput) -> (r: Control0080AdmissionReport)
    ensures
        admit_control_0080_0_post(input, r),
{
    let mut diagnostics: Vec<&'static str> = Vec::new();
    validate_surface(&input.surface, &mut diagnostics);
    validate_forbidden(&input.forbidden, &mut diagnostics);
    if diagnostics.len() > 0 {
        return base_report(input, false, diagnostics, false, input.base_schedule_input, 0, Vec::new(), false);
    }
    if !input.surface.gate.explicit_opt_in {
        return base_report(input, true, diagnostics, true, input.base_schedule_input, 0, Vec::new(), false);
    }
    let mut start = input.base_schedule_input;
    start.surface = DefaultSchedule0080Surface::with_explicit_opt_in();
    proof { assert(start == command_start(input)); }
    let run = run_commands(&input.commands.commands, start);
    if run.rejected_commands.len() > 0 {
        let refused = base_report(
            input, false, vec!["control_0080_0_command_rejected"], false, run.schedule_input, 0,
            run.rejected_commands, false,
        );
        assert(refused.diagnostics@ =~= seq!["control_0080_0_command_rejected"]);
        return refused;
    }
    let mut report = base_report(
        input, true, diagnostics, false, run.schedule_input, run.applied_command_count,
        run.rejected_commands, run.observed,
    );
    report.deterministic_replay_checksum = checksum_report(&report);
    report
}

/// Attaches the observed scenario's replay checksum and its text export to an admitted report
/// that asked for the observation, and recomputes the replay checksum.
pub fn complete_control_0080_0(
    report: Control0080AdmissionReport,
    observation_replay_checksum: u64,
    observation_text: String,
) -> (r: Control0080AdmissionReport)
    requires
        report.observation_pending,
    ensures
        !r.observation_pending,
        r.observation_replay_checksum == Some(observation_replay_checksum),
        r.text_export@ == observation_text@,
        r.deterministic_replay_checksum == report_checksum(&r),
        r.admitted == report.admitted,
        r.diagnostics@ == report.diagnostics@,
        r.applied_command_count == report.applied_command_count,
        r.rejected_commands@ == report.rejected_commands@,
        r.schedule_input == report.schedule_input,
{
    let mut r = report;
    r.observation_pending = false;
    r.observation_replay_checksum = Some(observation_replay_checksum);
    r.text_export = observation_text;
    r.deterministic_replay_checksum = checksum_report(&r);
    r
}

/// Admits the opted-in canonical input over `scenario` twice.
pub fn replay_admit_control_0080_0(scenario: LocalPatrolEconomyScenario) -> (r: (Control0080AdmissionReport, Control0080AdmissionReport))
    ensures
        r.0.admitted == r.1.admitted,
        r.0.schedule_input == r.1.schedule_input,
        r.0.applied_command_count == r.1.applied_command_count,
        r.0.observation_pending == r.1.observation_pending,
        r.0.deterministic_replay_checksum == r.1.deterministic_replay_checksum,
        exists|input: Control0080AdmissionInput| #![trigger canonical_admission_input(input, scenario)]
            canonical_admission_input(input, scenario) && admit_control_0080_0_post(&input, r.0),
{
    let input = Control0080AdmissionInput::explicit_opt_in(scenario);
    proof {
        assert(admission_diagnostics(&input) =~= Seq::<&'static str>::empty()) by {
            broadcast use crate::diagnostics::lemma_flag_diag;
        }
    }
    let a = admit_control_0080_0(&input);
    let b = admit_control_0080_0(&input);
    proof {
        assert(checksum_words(&a) =~= checksum_words(&b));
        assert(canonical_admission_input(input, scenario) && admit_control_0080_0_post(&input, a));
    }
    (a, b)
}

/// Commands write non-negative values only: whatever the batch, a disruption, supply or local
/// security of either node is its base value or not negative, as is the patrol reduction, and the
/// step count is its base value or at most the bound.
pub proof fn lemma_commands_write_admissible_values(cmds: Seq<Control0080Command>, s0: DefaultSchedule0080Input)
    ensures
        ({
            let s = fold_input(cmds, s0);
            &&& (s.scenario.source.disruption == s0.scenario.source.disruption || s.scenario.source.disruption >= 0)
            &&& (s.scenario.destination.disruption == s0.scenario.destination.disruption || s.scenario.destination.disruption >= 0)
            &&& (s.scenario.source.supply == s0.scenario.source.supply || s.scenario.source.supply >= 0)
            &&& (s.scenario.destination.supply == s0.scenario.destination.supply || s.scenario.destination.supply >= 0)
            &&& (s.scenario.source.local_security == s0.scenario.source.local_security || s.scenario.source.local_security >= 0)
            &&& (s.scenario.destination.local_security == s0.scenario.destination.local_security || s.scenario.destination.local_security >= 0)
            &&& (s.patrol_disruption_reduction_per_step == s0.patrol_disruption_reduction_per_step || s.patrol_disruption_reduction_per_step >= 0)
            &&& (s.step_count == s0.step_count || s.step_count <= CONTROL_0080_MAX_STEP_COUNT)
            &&& s.scenario.disruption_threshold == s0.scenario.disruption_threshold
            &&& s.scenario.local_security_floor == s0.scenario.local_security_floor
            &&& s.surface == s0.surface
            &&& s.forbidden == s0.forbidden
        }),
    decreases cmds.len(),
{
    if cmds.len() > 0 {
        lemma_commands_write_admissible_values(cmds.drop_last(), s0);
    }
}

/// Each accepted node command writes one field of one node: a source command leaves the
/// destination node untouched and sets the source's field to its value, a destination command
/// leaves the source node untouched and sets the destination's field; the other fields of the
/// written node, the thresholds, the step count and the patrol reduction stay as they were.
pub proof fn lemma_node_commands_write_one_field(c: Control0080Command, s: DefaultSchedule0080Input)
    ensures
        ({
            let t = input_after(c, s);
            let (a, b) = (s.scenario, t.scenario);
            &&& (t.step_count == s.step_count || c is SetStepCount)
            &&& (t.patrol_disruption_reduction_per_step == s.patrol_disruption_reduction_per_step
                || c is SetPatrolDisruptionReduction)
            &&& b.disruption_threshold == a.disruption_threshold
            &&& b.local_security_floor == a.local_security_floor
            &&& (c matches Control0080Command::SetSourceDisruption(v) ==> b.destination == a.destination
                && b.source.disruption == v && b.source.supply == a.source.supply
                && b.source.local_security == a.source.local_security && b.source.maintenance == a.source.maintenance)
            &&& (c matches Control0080Command::SetSourceSupply(v) ==> b.destination == a.destination
                && b.source.supply == v && b.source.disruption == a.source.disruption
                && b.source.local_security == a.source.local_security && b.source.maintenance == a.source.maintenance)
            &&& (c matches Control0080Command::SetSourceLocalSecurity(v) ==> b.destination == a.destination
                && b.source.local_security == v && b.source.disruption == a.source.disruption
                && b.source.supply == a.source.supply && b.source.maintenance == a.source.maintenance)
            &&& (c matches Control0080Command::SetDestinationDisruption(v) ==> b.source == a.source
                && b.destination.disruption == v && b.destination.supply == a.destination.supply
                && b.destination.local_security == a.destination.local_security
                && b.destination.maintenance == a.destination.maintenance)
            &&& (c matches Control0080Command::SetDestinationSupply(v) ==> b.source == a.source
                && b.destination.supply == v && b.destination.disruption == a.destination.disruption
                && b.destination.local_security == a.destination.local_security
                && b.destination.maintenance == a.destination.maintenance)
            &&& (c matches Control0080Command::SetDestinationLocalSecurity(v) ==> b.source == a.source
                && b.destination.local_security == v && b.destination.disruption == a.destination.disruption
                && b.destination.supply == a.destination.supply
                && b.destination.maintenance == a.destination.maintenance)
        }),
{
}

/// The schedule-wide commands write only their own value: `SetStepCount(v)` sets the step count
/// to `v` and `SetPatrolDisruptionReduction(v)` the patrol reduction to `v`, each leaving the
/// scenario as it was; the run, export and refused commands change nothing.
pub proof fn lemma_schedule_commands_write_one_value(c: Control0080Command, s: DefaultSchedule0080Input)
    ensures
        c matches Control0080Command::SetStepCount(v) ==> input_after(c, s).step_count == v
            && input_after(c, s).scenario == s.scenario
            && input_after(c, s).patrol_disruption_reduction_per_step == s.patrol_disruption_reduction_per_step,
        c matches Control0080Command::SetPatrolDisruptionReduction(v) ==> input_after(c, s).patrol_disruption_reduction_per_step == v
            && input_after(c, s).scenario == s.scenario && input_after(c, s).step_count == s.step_count,
        c is RunObservedScenario || c is ExportTranscript || command_refusal(c) is Some && !(c is SetSourceDisruption
            || c is SetDestinationDisruption || c is SetSourceSupply || c is SetDestinationSupply
            || c is SetSourceLocalSecurity || c is SetDestinationLocalSecurity || c is SetStepCount
            || c is SetPatrolDisruptionReduction) ==> input_after(c, s) == s,
        input_after(c, s).surface == s.surface && input_after(c, s).forbidden == s.forbidden,
{
}

} // verus!
