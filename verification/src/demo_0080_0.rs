//! Headless Local Patrol Economy demo: gate, session surface and refused requests.
//!
//! The demo admits a control batch, completes it with the gameplay observation (computed outside
//! this library and handed in as the values the demo reads of it), and renders the movement days
//! of the observed steps as a text export.
use crate::control_0080_0::{
    accepted_count, admission_diagnostics, admit_control_0080_0, asks_observation, checksum_of,
    command_start, complete_control_0080_0, fold_input, fold_rejected, saturate_u32,
    Control0080AdmissionInput, Control0080AdmissionReport, Control0080Command,
};
use crate::decimal_text::{bool_text, decimal_int, decimal_nat, push_bool, push_decimal_i64, push_decimal_u64, push_text};
use crate::default_schedule_0080_0::{DefaultSchedule0080Input, LocalPatrolEconomyScenario};
use crate::diagnostics::{flag_diag, push_if};
use crate::replay_hash::{fnv_append_u64, fnv_words, FNV_OFFSET_BASIS};
use vstd::prelude::*;

verus! {

pub const DEMO_0080_0_ID: &'static str = "DEMO-0080-0";
pub const DEMO_0080_0_STATUS_PASS: &'static str = "IMPLEMENTED / PASS - headless Local Patrol Economy demo/export library helper";
pub const DEMO_0080_0_SCENARIO: &'static str = "Local Patrol Economy";

/// Opt-in gate.
#[derive(Clone, Copy, Debug, PartialEq, Eq)]
pub struct Demo0080Gate {
    pub explicit_opt_in: bool,
    pub enabled_by_default: bool,
}

impl Default for Demo0080Gate {
    /// Closed gate.
    fn default() -> (r: Self)
        ensures
            !r.explicit_opt_in && !r.enabled_by_default,
    {
        Demo0080Gate { explicit_opt_in: false, enabled_by_default: false }
    }
}

impl Demo0080Gate {
    /// Opted in, still not enabled by default.
    pub fn explicit_opt_in() -> (r: Self)
        ensures
            r.explicit_opt_in && !r.enabled_by_default,
    {
        Demo0080Gate { explicit_opt_in: true, enabled_by_default: false }
    }
}

/// Session surface.
#[derive(Clone, Copy, Debug, PartialEq, Eq)]
pub struct Demo0080Surface {
    pub gate: Demo0080Gate,
    pub cli_binary_requested: bool,
    pub direct_movement_control: bool,
    pub external_boundary_request: bool,
    pub player_command_loop: bool,
    pub ui_framework_present: bool,
    pub realtime_loop_present: bool,
    pub global_default_schedule_registered: bool,
}

/// `acc` followed by the diagnostics for the surface flags, in check order.
pub open spec fn surface_diagnostics(acc: Seq<&'static str>, s: Demo0080Surface) -> Seq<&'static str> {
    acc
        + flag_diag(s.gate.enabled_by_default, "demo_0080_0_default_on_behavior_rejected")
        + flag_diag(s.cli_binary_requested, "cli_binary")
        + flag_diag(s.direct_movement_control, "direct_patrol_move_rejected")
        + flag_diag(s.external_boundary_request, "external_boundary_request_rejected")
        + flag_diag(s.player_command_loop, "player_command_loop")
        + flag_diag(s.ui_framework_present, "ui_framework")
        + flag_diag(s.realtime_loop_present, "realtime_loop")
        + flag_diag(s.global_default_schedule_registered, "global_default_schedule")
}

impl Default for Demo0080Surface {
    /// Nothing registered or wired, gate closed.
    fn default() -> (r: Self)
        ensures
            !r.gate.explicit_opt_in,
            surface_diagnostics(Seq::empty(), r).len() == 0,
    {
        broadcast use crate::diagnostics::lemma_flag_diag;
        Demo0080Surface {
            gate: Demo0080Gate::default(),
            cli_binary_requested: false,
            direct_movement_control: false,
            external_boundary_request: false,
            player_command_loop: false,
            ui_framework_present: false,
            realtime_loop_present: false,
            global_default_schedule_registered: false,
        }
    }
}

impl Demo0080Surface {
    /// The default session: nothing registered or wired, gate closed.
    pub fn default_simsession() -> (r: Self)
        ensures
            !r.gate.explicit_opt_in,
            surface_diagnostics(Seq::empty(), r).len() == 0,
    {
        Self::default()
    }

    /// Opted in; nothing else wired.
    pub fn with_explicit_opt_in() -> (r: Self)
        ensures
            r.gate.explicit_opt_in,
            surface_diagnostics(Seq::empty(), r).len() == 0,
    {
        broadcast use crate::diagnostics::lemma_flag_diag;
        Demo0080Surface {
            gate: Demo0080Gate::explicit_opt_in(),
            cli_binary_requested: false,
            direct_movement_control: false,
            external_boundary_request: false,
            player_command_loop: false,
            ui_framework_present: false,
            realtime_loop_present: false,
            global_default_schedule_registered: false,
        }
    }
}

/// Requests that must be refused.
#[derive(Clone, Copy, Debug, PartialEq, Eq)]
pub struct Demo0080ForbiddenRequests {
    pub cli_binary: bool,
    pub direct_movement_control: bool,
    pub external_boundary_request: bool,
    pub player_command_loop: bool,
    pub ui_framework: bool,
    pub realtime_loop: bool,
    pub global_default_schedule: bool,
    pub semantic_or_raw_wgsl: bool,
    pub hard_currency_markets_trade_aibudget: bool,
    pub nested_resource_flow: bool,
    pub clausething_dependency: bool,
    pub closed_ladder_reopen: bool,
}

/// `acc` followed by the diagnostics for the forbidden requests, in check order.
pub open spec fn forbidden_diagnostics(acc: Seq<&'static str>, f: Demo0080ForbiddenRequests) -> Seq<&'static str> {
    acc
        + flag_diag(f.cli_binary, "cli_binary")
        + flag_diag(f.direct_movement_control, "direct_patrol_move_rejected")
        + flag_diag(f.external_boundary_request, "external_boundary_request_rejected")
        + flag_diag(f.player_command_loop, "player_command_loop")
        + flag_diag(f.ui_framework, "ui_framework")
        + flag_diag(f.realtime_loop, "realtime_loop")
        + flag_diag(f.global_default_schedule, "global_default_schedule")
        + flag_diag(f.semantic_or_raw_wgsl, "semantic_or_raw_wgsl")
        + flag_diag(f.hard_currency_markets_trade_aibudget, "hard_currency_markets_trade_aibudget")
        + flag_diag(f.nested_resource_flow, "nested_resource_flow")
        + flag_diag(f.clausething_dependency, "clausething_dependency")
        + flag_diag(f.closed_ladder_reopen, "closed_ladder_reopen")
}

impl Default for Demo0080ForbiddenRequests {
    /// Nothing requested.
    fn default() -> (r: Self)
        ensures
            forbidden_diagnostics(Seq::empty(), r).len() == 0,
    {
        broadcast use crate::diagnostics::lemma_flag_diag;
        Demo0080ForbiddenRequests {
            cli_binary: false,
            direct_movement_control: false,
            external_boundary_request: false,
            player_command_loop: false,
            ui_framework: false,
            realtime_loop: false,
            global_default_schedule: false,
            semantic_or_raw_wgsl: false,
            hard_currency_markets_trade_aibudget: false,
            nested_resource_flow: false,
            clausething_dependency: false,
            closed_ladder_reopen: false,
        }
    }
}

/// Appends the surface diagnostics, in check order.
pub fn validate_surface(surface: &Demo0080Surface, diagnostics: &mut Vec<&'static str>)
    ensures
        final(diagnostics)@ == surface_diagnostics(old(diagnostics)@, *surface),
{
    push_if(diagnostics, surface.gate.enabled_by_default, "demo_0080_0_default_on_behavior_rejected");
    push_if(diagnostics, surface.cli_binary_requested, "cli_binary");
    push_if(diagnostics, surface.direct_movement_control, "direct_patrol_move_rejected");
    push_if(diagnostics, surface.external_boundary_request, "external_boundary_request_rejected");
    push_if(diagnostics, surface.player_command_loop, "player_command_loop");
    push_if(diagnostics, surface.ui_framework_present, "ui_framework");
    push_if(diagnostics, surface.realtime_loop_present, "realtime_loop");
    push_if(diagnostics, surface.global_default_schedule_registered, "global_default_schedule");
}

#[verifier::rlimit(60)]
/// Appends the forbidden-request diagnostics, in check order.
pub fn validate_forbidden(forbidden: &Demo0080ForbiddenRequests, diagnostics: &mut Vec<&'static str>)
    ensures
        final(diagnostics)@ == forbidden_diagnostics(old(diagnostics)@, *forbidden),
{
    push_if(diagnostics, forbidden.cli_binary, "cli_binary");
    push_if(diagnostics, forbidden.direct_movement_control, "direct_patrol_move_rejected");
    push_if(diagnostics, forbidden.external_boundary_request, "external_boundary_request_rejected");
    push_if(diagnostics, forbidden.player_command_loop, "player_command_loop");
    push_if(diagnostics, forbidden.ui_framework, "ui_framework");
    push_if(diagnostics, forbidden.realtime_loop, "realtime_loop");
    push_if(diagnostics, forbidden.global_default_schedule, "global_default_schedule");
    push_if(diagnostics, forbidden.semantic_or_raw_wgsl, "semantic_or_raw_wgsl");
    push_if(diagnostics, forbidden.hard_currency_markets_trade_aibudget, "hard_currency_markets_trade_aibudget");
    push_if(diagnostics, forbidden.nested_resource_flow, "nested_resource_flow");
    push_if(diagnostics, forbidden.clausething_dependency, "clausething_dependency");
    push_if(diagnostics, forbidden.closed_ladder_reopen, "closed_ladder_reopen");
}


/// A node of one observed step, as the demo reads it.
#[derive(Clone, Copy, Debug, PartialEq, Eq)]
pub struct Demo0080NodeObservation {
    pub supply: i64,
    pub disruption: i64,
    pub local_security: i64,
}

/// One step of the gameplay observation, as the demo reads it.
#[derive(Clone, Copy, Debug, PartialEq, Eq)]
pub struct Demo0080StepObservation {
    pub step_index: u32,
    pub patrol_at_source_before_step: bool,
    pub patrol_at_destination_before_step: bool,
    pub patrol_relocated: bool,
    pub pirate_location_before: Option<&'static str>,
    pub pirate_location_after: Option<&'static str>,
    pub pirate_relocated: bool,
    pub source: Demo0080NodeObservation,
    pub destination: Demo0080NodeObservation,
    pub threshold_accepted: bool,
    pub event_emitted: bool,
    pub boundary_request_materialized: bool,
    pub production_path_invoked: bool,
}

/// The gameplay observation as the demo reads it: its replay checksum, its text export and its
/// step transcript.
#[derive(Clone, Debug, PartialEq, Eq)]
pub struct Demo0080Observation {
    pub replay_checksum: u64,
    pub text_export: String,
    pub steps: Vec<Demo0080StepObservation>,
}

/// One movement record of the demo.
#[derive(Clone, Copy, Debug, PartialEq, Eq)]
pub struct Demo0080MovementRecord {
    pub step_index: u32,
    pub patrol_start: &'static str,
    pub patrol_end: &'static str,
    pub patrol_relocated: bool,
    pub patrol_relocation_source: Option<&'static str>,
    pub patrol_relocation_destination: Option<&'static str>,
    pub pirate_start: Option<&'static str>,
    pub pirate_end: Option<&'static str>,
    pub pirate_relocated: bool,
    pub pirate_relocation_source: Option<&'static str>,
    pub pirate_relocation_destination: Option<&'static str>,
    pub source_supply: i64,
    pub source_disruption: i64,
    pub source_local_security: i64,
    pub destination_supply: i64,
    pub destination_disruption: i64,
    pub destination_local_security: i64,
    pub threshold_accepted: bool,
    pub event_emitted: bool,
    pub boundary_request_materialized: bool,
    pub production_path_invoked: bool,
}

/// One day of movement: a step and its record.
#[derive(Clone, Copy, Debug, PartialEq, Eq)]
pub struct Demo0080MovementDay {
    pub step_index: u32,
    pub record: Demo0080MovementRecord,
}

/// Where the patrol stands: at the source, else at the destination, else nowhere.
pub open spec fn patrol_location_spec(at_source: bool, at_destination: bool) -> &'static str {
    if at_source { "source" } else if at_destination { "destination" } else { "none" }
}

/// The movement day of one observed step.
pub open spec fn movement_day_spec(s: Demo0080StepObservation) -> Demo0080MovementDay {
    let patrol_start = patrol_location_spec(s.patrol_at_source_before_step, s.patrol_at_destination_before_step);
    Demo0080MovementDay {
        step_index: s.step_index,
        record: Demo0080MovementRecord {
            step_index: s.step_index,
            patrol_start,
            patrol_end: if s.patrol_relocated { "destination" } else { patrol_start },
            patrol_relocated: s.patrol_relocated,
            patrol_relocation_source: if s.patrol_relocated { Some("source") } else { None },
            patrol_relocation_destination: if s.patrol_relocated { Some("destination") } else { None },
            pirate_start: s.pirate_location_before,
            pirate_end: s.pirate_location_after,
            pirate_relocated: s.pirate_relocated,
            pirate_relocation_source: if s.pirate_relocated {
                Some(match s.pirate_location_before { Some(l) => l, None => "none" })
            } else {
                None
            },
            pirate_relocation_destination: if s.pirate_relocated {
                Some(match s.pirate_location_after { Some(l) => l, None => "none" })
            } else {
                None
            },
            source_supply: s.source.supply,
            source_disruption: s.source.disruption,
            source_local_security: s.source.local_security,
            destination_supply: s.destination.supply,
            destination_disruption: s.destination.disruption,
            destination_local_security: s.destination.local_security,
            threshold_accepted: s.threshold_accepted,
            event_emitted: s.event_emitted,
            boundary_request_materialized: s.boundary_request_materialized,
            production_path_invoked: s.production_path_invoked,
        },
    }
}

/// Where the patrol stands.
pub fn patrol_location(at_source: bool, at_destination: bool) -> (r: &'static str)
    ensures
        r == patrol_location_spec(at_source, at_destination),
{
    if at_source { "source" } else if at_destination { "destination" } else { "none" }
}

/// The movement day of one observed step.
pub fn build_movement_day(s: &Demo0080StepObservation) -> (r: Demo0080MovementDay)
    ensures
        r == movement_day_spec(*s),
{
    let patrol_start = patrol_location(s.patrol_at_source_before_step, s.patrol_at_destination_before_step);
    let patrol_end = if s.patrol_relocated { "destination" } else { patrol_start };
    Demo0080MovementDay {
        step_index: s.step_index,
        record: Demo0080MovementRecord {
            step_index: s.step_index,
            patrol_start,
            patrol_end,
            patrol_relocated: s.patrol_relocated,
            patrol_relocation_source: if s.patrol_relocated { Some("source") } else { None },
            patrol_relocation_destination: if s.patrol_relocated { Some("destination") } else { None },
            pirate_start: s.pirate_location_before,
            pirate_end: s.pirate_location_after,
            pirate_relocated: s.pirate_relocated,
            pirate_relocation_source: if s.pirate_relocated {
                Some(match s.pirate_location_before { Some(l) => l, None => "none" })
            } else {
                None
            },
            pirate_relocation_destination: if s.pirate_relocated {
                Some(match s.pirate_location_after { Some(l) => l, None => "none" })
            } else {
                None
            },
            source_supply: s.source.supply,
            source_disruption: s.source.disruption,
            source_local_security: s.source.local_security,
            destination_supply: s.destination.supply,
            destination_disruption: s.destination.disruption,
            destination_local_security: s.destination.local_security,
            threshold_accepted: s.threshold_accepted,
            event_emitted: s.event_emitted,
            boundary_request_materialized: s.boundary_request_materialized,
            production_path_invoked: s.production_path_invoked,
        },
    }
}

/// The movement days of an observation, one per step.
pub fn build_movement_days(steps: &Vec<Demo0080StepObservation>) -> (r: Vec<Demo0080MovementDay>)
    ensures
        r@ == steps@.map_values(|s: Demo0080StepObservation| movement_day_spec(s)),
{
    let mut out: Vec<Demo0080MovementDay> = Vec::new();
    let mut i: usize = 0;
    while i < steps.len()
        invariant
            i <= steps@.len(),
            out@ =~= steps@.take(i as int).map_values(|s: Demo0080StepObservation| movement_day_spec(s)),
        decreases steps@.len() - i,
    {
        out.push(build_movement_day(&steps[i]));
        i = i + 1;
        proof {
            assert(steps@.take(i as int) =~= steps@.take(i as int - 1).push(steps@[i as int - 1]));
        }
    }
    proof {
        assert(steps@.take(i as int) =~= steps@);
    }
    out
}

/// An optional label, `none` when absent.
pub open spec fn opt_text(o: Option<&'static str>) -> Seq<char> {
    match o {
        Some(s) => s@,
        None => "none"@,
    }
}

/// Appends an optional label, `none` when absent.
fn push_opt(out: &mut String, o: Option<&'static str>)
    ensures
        final(out)@ == old(out)@ + opt_text(o),
{
    match o {
        Some(s) => push_text(out, s),
        None => push_text(out, "none"),
    }
}

/// The patrol half of a movement line.
pub open spec fn patrol_text(r: Demo0080MovementRecord) -> Seq<char> {
    "MOVEMENT|step="@ + decimal_nat(r.step_index as nat)
        + "|patrol_start="@ + r.patrol_start@
        + "|patrol_end="@ + r.patrol_end@
        + "|patrol_relocated="@ + bool_text(r.patrol_relocated)
        + "|patrol_from="@ + opt_text(r.patrol_relocation_source)
        + "|patrol_to="@ + opt_text(r.patrol_relocation_destination)
}

/// The pirate part of a movement line.
pub open spec fn pirate_text(r: Demo0080MovementRecord) -> Seq<char> {
    "|pirate_start="@ + opt_text(r.pirate_start)
        + "|pirate_end="@ + opt_text(r.pirate_end)
        + "|pirate_relocated="@ + bool_text(r.pirate_relocated)
        + "|pirate_from="@ + opt_text(r.pirate_relocation_source)
        + "|pirate_to="@ + opt_text(r.pirate_relocation_destination)
}

/// The node values of a movement line.
pub open spec fn values_text(r: Demo0080MovementRecord) -> Seq<char> {
    "|source_supply="@ + decimal_int(r.source_supply as int)
        + "|source_disruption="@ + decimal_int(r.source_disruption as int)
        + "|source_local_security="@ + decimal_int(r.source_local_security as int)
        + "|destination_supply="@ + decimal_int(r.destination_supply as int)
        + "|destination_disruption="@ + decimal_int(r.destination_disruption as int)
        + "|destination_local_security="@ + decimal_int(r.destination_local_security as int)
}

/// The decision flags of a movement line.
pub open spec fn flags_text(r: Demo0080MovementRecord) -> Seq<char> {
    "|threshold="@ + bool_text(r.threshold_accepted)
        + "|event="@ + bool_text(r.event_emitted)
        + "|boundary="@ + bool_text(r.boundary_request_materialized)
        + "|production_path="@ + bool_text(r.production_path_invoked)
}

/// One movement line.
pub open spec fn movement_line(r: Demo0080MovementRecord) -> Seq<char> {
    patrol_text(r) + pirate_text(r) + values_text(r) + flags_text(r)
}

/// `acc` followed by a newline and the movement line of each day.
pub open spec fn movement_lines(acc: Seq<char>, days: Seq<Demo0080MovementDay>) -> Seq<char>
    decreases days.len(),
{
    if days.len() == 0 {
        acc
    } else {
        movement_lines(acc, days.drop_last()) + "\n"@ + movement_line(days.last().record)
    }
}

/// The demo export: header, the observation export, then the movement lines between their
/// begin and end markers, one per line.
pub open spec fn demo_export_text(observation_export: Seq<char>, days: Seq<Demo0080MovementDay>) -> Seq<char> {
    movement_lines(
        "DEMO-0080-0|scenario="@ + DEMO_0080_0_SCENARIO@ + "|headless=true"@ + "\n"@ + observation_export
            + "\n"@ + "MOVEMENT|begin"@,
        days,
    ) + "\n"@ + "MOVEMENT|end"@
}

fn push_patrol_text(out: &mut String, r: &Demo0080MovementRecord)
    ensures
        final(out)@ == old(out)@ + patrol_text(*r),
{
    push_text(out, "MOVEMENT|step=");
    push_decimal_u64(out, r.step_index as u64);
    push_text(out, "|patrol_start=");
    push_text(out, r.patrol_start);
    push_text(out, "|patrol_end=");
    push_text(out, r.patrol_end);
    push_text(out, "|patrol_relocated=");
    push_bool(out, r.patrol_relocated);
    push_text(out, "|patrol_from=");
    push_opt(out, r.patrol_relocation_source);
    push_text(out, "|patrol_to=");
    push_opt(out, r.patrol_relocation_destination);
    proof {
        assert(final(out)@ =~= old(out)@ + patrol_text(*r));
    }
}

fn push_pirate_text(out: &mut String, r: &Demo0080MovementRecord)
    ensures
        final(out)@ == old(out)@ + pirate_text(*r),
{
    push_text(out, "|pirate_start=");
    push_opt(out, r.pirate_start);
    push_text(out, "|pirate_end=");
    push_opt(out, r.pirate_end);
    push_text(out, "|pirate_relocated=");
    push_bool(out, r.pirate_relocated);
    push_text(out, "|pirate_from=");
    push_opt(out, r.pirate_relocation_source);
    push_text(out, "|pirate_to=");
    push_opt(out, r.pirate_relocation_destination);
    proof {
        assert(final(out)@ =~= old(out)@ + pirate_text(*r));
    }
}

fn push_values_text(out: &mut String, r: &Demo0080MovementRecord)
    ensures
        final(out)@ == old(out)@ + values_text(*r),
{
    push_text(out, "|source_supply=");
    push_decimal_i64(out, r.source_supply);
    push_text(out, "|source_disruption=");
    push_decimal_i64(out, r.source_disruption);
    push_text(out, "|source_local_security=");
    push_decimal_i64(out, r.source_local_security);
    push_text(out, "|destination_supply=");
    push_decimal_i64(out, r.destination_supply);
    push_text(out, "|destination_disruption=");
    push_decimal_i64(out, r.destination_disruption);
    push_text(out, "|destination_local_security=");
    push_decimal_i64(out, r.destination_local_security);
    proof {
        assert(final(out)@ =~= old(out)@ + values_text(*r));
    }
}

fn push_flags_text(out: &mut String, r: &Demo0080MovementRecord)
    ensures
        final(out)@ == old(out)@ + flags_text(*r),
{
    push_text(out, "|threshold=");
    push_bool(out, r.threshold_accepted);
    push_text(out, "|event=");
    push_bool(out, r.event_emitted);
    push_text(out, "|boundary=");
    push_bool(out, r.boundary_request_materialized);
    push_text(out, "|production_path=");
    push_bool(out, r.production_path_invoked);
    proof {
        assert(final(out)@ =~= old(out)@ + flags_text(*r));
    }
}

/// Appends a newline and the movement line of `r`.
fn push_movement_line(out: &mut String, r: &Demo0080MovementRecord)
    ensures
        final(out)@ == old(out)@ + "\n"@ + movement_line(*r),
{
    push_text(out, "\n");
    push_patrol_text(out, r);
    push_pirate_text(out, r);
    push_values_text(out, r);
    push_flags_text(out, r);
    proof {
        assert(final(out)@ =~= old(out)@ + "\n"@ + movement_line(*r));
    }
}

/// Renders the demo export.
pub fn render_demo_export(observation_export: &str, days: &Vec<Demo0080MovementDay>) -> (r: String)
    ensures
        r@ == demo_export_text(observation_export@, days@),
{
    let mut out = String::new();
    push_text(&mut out, "DEMO-0080-0|scenario=");
    push_text(&mut out, DEMO_0080_0_SCENARIO);
    push_text(&mut out, "|headless=true");
    push_text(&mut out, "\n");
    push_text(&mut out, observation_export);
    push_text(&mut out, "\n");
    push_text(&mut out, "MOVEMENT|begin");
    let ghost head = out@;
    proof {
        assert(head =~= "DEMO-0080-0|scenario="@ + DEMO_0080_0_SCENARIO@ + "|headless=true"@ + "\n"@
            + observation_export@ + "\n"@ + "MOVEMENT|begin"@);
        assert(days@.take(0) =~= Seq::<Demo0080MovementDay>::empty());
    }
    let mut i: usize = 0;
    while i < days.len()
        invariant
            i <= days@.len(),
            out@ == movement_lines(head, days@.take(i as int)),
        decreases days@.len() - i,
    {
        push_movement_line(&mut out, &days[i].record);
        proof {
            let next = days@.take(i as int + 1);
            assert(next.drop_last() =~= days@.take(i as int));
        }
        i = i + 1;
    }
    proof {
        assert(days@.take(i as int) =~= days@);
    }
    push_text(&mut out, "\n");
    push_text(&mut out, "MOVEMENT|end");
    out
}

/// Demo input: surface, the control input it admits, and the refused requests.
#[derive(Clone, Debug, PartialEq, Eq)]
pub struct Demo0080Input {
    pub surface: Demo0080Surface,
    pub control_input: Control0080AdmissionInput,
    pub forbidden: Demo0080ForbiddenRequests,
}

/// The canonical control input over `scenario`: opted in, the canonical batch, nothing refused.
pub fn canonical_control_input(scenario: LocalPatrolEconomyScenario) -> (r: Control0080AdmissionInput)
    ensures
        r.surface.gate.explicit_opt_in,
        crate::control_0080_0::admission_diagnostics(&r).len() == 0,
        r.base_schedule_input == (DefaultSchedule0080Input {
            surface: crate::default_schedule_0080_0::opted_in_surface(),
            scenario,
            step_count: 3,
            patrol_disruption_reduction_per_step: 1,
            forbidden: crate::default_schedule_0080_0::no_forbidden_requests(),
        }),
        r.commands.commands@ == canonical_commands(),
        crate::control_0080_0::canonical_admission_input(r, scenario),
{
    let r = Control0080AdmissionInput::explicit_opt_in(scenario);
    proof {
        broadcast use crate::diagnostics::lemma_flag_diag;
        assert(crate::control_0080_0::admission_diagnostics(&r) =~= Seq::<&'static str>::empty());
    }
    r
}

/// The canonical command batch.
pub open spec fn canonical_commands() -> Seq<Control0080Command> {
    seq![
        Control0080Command::SetStepCount(3),
        Control0080Command::RunObservedScenario,
        Control0080Command::ExportTranscript,
    ]
}

/// The canonical demo input over `scenario` that `Demo0080Input::explicit_opt_in` returns.
pub open spec fn canonical_demo_input(r: Demo0080Input, scenario: LocalPatrolEconomyScenario) -> bool {
    &&& r.surface.gate.explicit_opt_in
    &&& surface_diagnostics(Seq::empty(), r.surface).len() == 0
    &&& forbidden_diagnostics(Seq::empty(), r.forbidden).len() == 0
    &&& r.control_input.surface.gate.explicit_opt_in
    &&& crate::control_0080_0::admission_diagnostics(&r.control_input).len() == 0
    &&& r.control_input.commands.commands@ == canonical_commands()
    &&& r.control_input.base_schedule_input.scenario == scenario
    &&& crate::control_0080_0::canonical_admission_input(r.control_input, scenario)
    &&& demo_diagnostics(&r).len() == 0
}

impl Demo0080Input {
    /// The default session over `scenario`: demo and control gates closed.
    pub fn default_simsession(scenario: LocalPatrolEconomyScenario) -> (r: Self)
        ensures
            !r.surface.gate.explicit_opt_in,
            surface_diagnostics(Seq::empty(), r.surface).len() == 0,
            forbidden_diagnostics(Seq::empty(), r.forbidden).len() == 0,
            !r.control_input.surface.gate.explicit_opt_in,
            r.control_input.commands.commands@.len() == 0,
    {
        Demo0080Input {
            surface: Demo0080Surface::default_simsession(),
            control_input: Control0080AdmissionInput::default_simsession(scenario),
            forbidden: Demo0080ForbiddenRequests::default(),
        }
    }

    /// Opted in over `scenario`, admitting the canonical control input.
    pub fn explicit_opt_in(scenario: LocalPatrolEconomyScenario) -> (r: Self)
        ensures
            canonical_demo_input(r, scenario),
    {
        let r = Demo0080Input {
            surface: Demo0080Surface::with_explicit_opt_in(),
            control_input: canonical_control_input(scenario),
            forbidden: Demo0080ForbiddenRequests::default(),
        };
        proof {
            broadcast use crate::diagnostics::lemma_flag_diag;
            assert(demo_diagnostics(&r) =~= Seq::<&'static str>::empty());
        }
        r
    }
}

/// Demo report.
#[derive(Clone, Debug, PartialEq, Eq)]
pub struct Demo0080Report {
    pub demo_id: &'static str,
    pub status: &'static str,
    pub scenario_name: &'static str,
    pub admitted: bool,
    pub diagnostics: Vec<&'static str>,
    pub explicit_opt_in: bool,
    pub default_off: bool,
    pub disabled_no_op: bool,
    pub headless_library_helper_only: bool,
    pub cli_binary_present: bool,
    pub direct_movement_control: bool,
    pub external_boundary_request_emitted: bool,
    pub player_command_loop: bool,
    pub ui_framework_present: bool,
    pub realtime_loop_present: bool,
    pub global_default_schedule_registered: bool,
    pub semantic_or_raw_wgsl_present: bool,
    pub hard_currency_markets_trade_aibudget: bool,
    pub nested_resource_flow: bool,
    pub clausething_dependency_present: bool,
    pub uses_canonical_control_batch: bool,
    pub control_report: Option<Control0080AdmissionReport>,
    pub observation_replay_checksum: Option<u64>,
    pub movement_days: Vec<Demo0080MovementDay>,
    pub observation_export: String,
    pub demo_export: String,
    pub deterministic_replay_checksum: u64,
}

/// The report's identity and the flags copied from the input's surface.
pub open spec fn demo_frame(r: &Demo0080Report, input: &Demo0080Input, disabled: bool) -> bool {
    &&& r.demo_id == DEMO_0080_0_ID
    &&& r.status == DEMO_0080_0_STATUS_PASS
    &&& r.scenario_name == DEMO_0080_0_SCENARIO
    &&& r.explicit_opt_in == input.surface.gate.explicit_opt_in
    &&& r.default_off == !input.surface.gate.enabled_by_default
    &&& r.disabled_no_op == disabled
    &&& r.headless_library_helper_only
    &&& !r.cli_binary_present
    &&& r.direct_movement_control == input.surface.direct_movement_control
    &&& !r.external_boundary_request_emitted
    &&& r.player_command_loop == input.surface.player_command_loop
    &&& r.ui_framework_present == input.surface.ui_framework_present
    &&& r.realtime_loop_present == input.surface.realtime_loop_present
    &&& r.global_default_schedule_registered == input.surface.global_default_schedule_registered
    &&& !r.semantic_or_raw_wgsl_present
    &&& !r.hard_currency_markets_trade_aibudget
    &&& !r.nested_resource_flow
    &&& !r.clausething_dependency_present
}

/// The words the demo checksum folds: each byte of the demo export, the number of movement
/// days, the control report's checksum and the observation's checksum (0 when none was used).
pub open spec fn demo_checksum_words(
    demo_export: Seq<char>,
    day_count: nat,
    control_checksum: u64,
    observation_checksum: u64,
) -> Seq<u64> {
    vstd::utf8::encode_utf8(demo_export).map_values(|b: u8| b as u64)
        + seq![day_count as u64, control_checksum, observation_checksum]
}

/// Folding the word at `k` into the checksum of the first `k` words.
proof fn lemma_take_step(words: Seq<u64>, k: int)
    requires
        0 <= k < words.len(),
    ensures
        fnv_words(FNV_OFFSET_BASIS, words.take(k + 1))
            == crate::replay_hash::fnv_append_spec(fnv_words(FNV_OFFSET_BASIS, words.take(k)), words[k]),
{
    assert(words.take(k + 1).drop_last() =~= words.take(k));
    assert(words.take(k + 1).last() == words[k]);
}

/// Computes the demo checksum.
fn checksum_demo(demo_export: &String, day_count: usize, control_checksum: u64, observation_checksum: u64) -> (r: u64)
    ensures
        r == fnv_words(FNV_OFFSET_BASIS, demo_checksum_words(demo_export@, day_count as nat, control_checksum, observation_checksum)),
{
    let bytes = demo_export.as_str().as_bytes();
    let ghost words = demo_checksum_words(demo_export@, day_count as nat, control_checksum, observation_checksum);
    let ghost tail = vstd::utf8::encode_utf8(demo_export@).map_values(|b: u8| b as u64);
    let mut hash = FNV_OFFSET_BASIS;
    let mut j: usize = 0;
    proof {
        assert(words.take(0) =~= Seq::<u64>::empty());
    }
    while j < bytes.len()
        invariant
            j <= bytes@.len(),
            bytes@ == vstd::utf8::encode_utf8(demo_export@),
            tail == bytes@.map_values(|b: u8| b as u64),
            tail.len() == bytes@.len(),
            words == demo_checksum_words(demo_export@, day_count as nat, control_checksum, observation_checksum),
            words == tail + seq![day_count as u64, control_checksum, observation_checksum],
            words.len() == tail.len() + 3,
            hash == fnv_words(FNV_OFFSET_BASIS, words.take(j as int)),
        decreases bytes@.len() - j,
    {
        proof {
            assert(words.take(j + 1).drop_last() =~= words.take(j as int));
            assert(words[j as int] == tail[j as int]);
        }
        hash = fnv_append_u64(hash, bytes[j] as u64);
        j = j + 1;
    }
    let n = bytes.len();
    proof { lemma_take_step(words, n as int); }
    hash = fnv_append_u64(hash, day_count as u64);
    proof { lemma_take_step(words, n + 1); }
    hash = fnv_append_u64(hash, control_checksum);
    proof { lemma_take_step(words, n + 2); }
    hash = fnv_append_u64(hash, observation_checksum);
    proof {
        assert(words.take(n + 3) =~= words);
    }
    hash
}

/// A report with the frame of `input`, nothing admitted through the control layer.
fn empty_report(input: &Demo0080Input, admitted: bool, diagnostics: Vec<&'static str>, disabled: bool) -> (r: Demo0080Report)
    ensures
        demo_frame(&r, input, disabled),
        r.admitted == admitted,
        r.diagnostics@ == diagnostics@,
        !r.uses_canonical_control_batch,
        r.control_report is None,
        r.observation_replay_checksum is None,
        r.movement_days@.len() == 0,
        r.observation_export@.len() == 0,
        r.demo_export@.len() == 0,
        r.deterministic_replay_checksum == 0,
{
    Demo0080Report {
        demo_id: DEMO_0080_0_ID,
        status: DEMO_0080_0_STATUS_PASS,
        scenario_name: DEMO_0080_0_SCENARIO,
        admitted,
        diagnostics,
        explicit_opt_in: input.surface.gate.explicit_opt_in,
        default_off: !input.surface.gate.enabled_by_default,
        disabled_no_op: disabled,
        headless_library_helper_only: true,
        cli_binary_present: false,
        direct_movement_control: input.surface.direct_movement_control,
        external_boundary_request_emitted: false,
        player_command_loop: input.surface.player_command_loop,
        ui_framework_present: input.surface.ui_framework_present,
        realtime_loop_present: input.surface.realtime_loop_present,
        global_default_schedule_registered: input.surface.global_default_schedule_registered,
        semantic_or_raw_wgsl_present: false,
        hard_currency_markets_trade_aibudget: false,
        nested_resource_flow: false,
        clausething_dependency_present: false,
        uses_canonical_control_batch: false,
        control_report: None,
        observation_replay_checksum: None,
        movement_days: Vec::new(),
        observation_export: String::new(),
        demo_export: String::new(),
        deterministic_replay_checksum: 0,
    }
}

/// Whether a batch is the canonical one.
fn is_canonical_batch(commands: &Vec<Control0080Command>) -> (r: bool)
    ensures
        r == (commands@ == canonical_commands()),
{
    if commands.len() != 3 {
        return false;
    }
    let same = commands[0] == Control0080Command::SetStepCount(3)
        && commands[1] == Control0080Command::RunObservedScenario
        && commands[2] == Control0080Command::ExportTranscript;
    proof {
        if same {
            assert(commands@ =~= canonical_commands());
        }
    }
    same
}

/// Whether the control layer admits `ci` (a closed control gate admits as a no-op).
pub open spec fn control_admits(ci: &Control0080AdmissionInput) -> bool {
    admission_diagnostics(ci).len() == 0
        && (ci.surface.gate.explicit_opt_in ==> fold_rejected(ci.commands.commands@).len() == 0)
}

/// Whether the control layer admits `ci` and its batch asks for the observed scenario.
pub open spec fn control_asks_observation(ci: &Control0080AdmissionInput) -> bool {
    admission_diagnostics(ci).len() == 0 && ci.surface.gate.explicit_opt_in
        && fold_rejected(ci.commands.commands@).len() == 0 && asks_observation(ci.commands.commands@)
}

/// The diagnostics the control layer refuses `ci` with.
pub open spec fn control_refusal_diagnostics(ci: &Control0080AdmissionInput) -> Seq<&'static str> {
    if admission_diagnostics(ci).len() > 0 {
        admission_diagnostics(ci)
    } else {
        seq!["control_0080_0_command_rejected"]
    }
}

/// The diagnostics of the demo surface and the refused requests, in check order.
pub open spec fn demo_diagnostics(input: &Demo0080Input) -> Seq<&'static str> {
    forbidden_diagnostics(surface_diagnostics(Seq::empty(), input.surface), input.forbidden)
}

/// What `run_demo_0080_0` returns for `input` and `observation`.
pub open spec fn run_demo_0080_0_post(input: &Demo0080Input, observation: &Demo0080Observation, r: Demo0080Report) -> bool {
    &&& demo_diagnostics(input).len() > 0 ==> {
        &&& demo_frame(&r, input, false)
        &&& !r.admitted
        &&& r.diagnostics@ == demo_diagnostics(input)
        &&& r.control_report is None
        &&& r.deterministic_replay_checksum == 0
    }
    &&& demo_diagnostics(input).len() == 0 && !input.surface.gate.explicit_opt_in ==> {
        &&& demo_frame(&r, input, true)
        &&& r.admitted
        &&& r.diagnostics@.len() == 0
        &&& r.control_report is None
        &&& r.deterministic_replay_checksum == 0
    }
    &&& demo_diagnostics(input).len() == 0 && input.surface.gate.explicit_opt_in ==> {
        let ci = input.control_input;
        let used = control_asks_observation(&ci);
        &&& demo_frame(&r, input, false)
        &&& r.admitted == control_admits(&ci)
        &&& (!r.admitted ==> {
            &&& r.control_report is None
            &&& r.diagnostics@ == control_refusal_diagnostics(&ci)
            &&& r.movement_days@.len() == 0
            &&& r.demo_export@.len() == 0
            &&& r.deterministic_replay_checksum == 0
        })
        &&& (r.admitted ==> {
            let control = r.control_report->0;
            &&& r.uses_canonical_control_batch == (ci.commands.commands@ == canonical_commands())
            &&& r.control_report is Some
            &&& control.admitted
            &&& !control.observation_pending
            &&& r.diagnostics@.len() == 0
            &&& r.observation_replay_checksum == (if used { Some(observation.replay_checksum) } else { None })
            &&& control.observation_replay_checksum == r.observation_replay_checksum
            &&& r.movement_days@ == (if used {
                observation.steps@.map_values(|s: Demo0080StepObservation| movement_day_spec(s))
            } else {
                Seq::empty()
            })
            &&& r.observation_export@ == (if used { observation.text_export@ } else { Seq::<char>::empty() })
            &&& control.text_export@ == r.observation_export@
            &&& control.deterministic_replay_checksum == (if ci.surface.gate.explicit_opt_in {
                checksum_of(
                    saturate_u32(accepted_count(ci.commands.commands@)),
                    0,
                    fold_input(ci.commands.commands@, command_start(&ci)),
                    if used { observation.replay_checksum } else { 0 },
                    if used { observation.text_export@ } else { Seq::<char>::empty() },
                )
            } else {
                0
            })
            &&& r.demo_export@ == demo_export_text(r.observation_export@, r.movement_days@)
            &&& r.deterministic_replay_checksum == fnv_words(
                FNV_OFFSET_BASIS,
                demo_checksum_words(
                    r.demo_export@,
                    r.movement_days@.len(),
                    control.deterministic_replay_checksum,
                    if used { observation.replay_checksum } else { 0 },
                ),
            )
        })
    }
}

/// Runs the headless demo: admits the control input and, when the admitted batch asks for the
/// observed scenario, completes it with `observation`, whose steps become the movement days.
///
/// Demo diagnostics refuse the input; a closed gate is a no-op; a control report that is not
/// admitted refuses the demo with the control's diagnostics. Otherwise the demo export is the
/// header, the control's text export and one movement line per day, and the checksum folds the
/// export, the day count, the control checksum and the observation checksum.
pub fn run_demo_0080_0(input: &Demo0080Input, observation: &Demo0080Observation) -> (r: Demo0080Report)
    ensures
        run_demo_0080_0_post(input, observation, r),
{
    let mut diagnostics: Vec<&'static str> = Vec::new();
    validate_surface(&input.surface, &mut diagnostics);
    validate_forbidden(&input.forbidden, &mut diagnostics);
    if diagnostics.len() > 0 {
        return empty_report(input, false, diagnostics, false);
    }
    if !input.surface.gate.explicit_opt_in {
        return empty_report(input, true, diagnostics, true);
    }
    let uses_canonical = is_canonical_batch(&input.control_input.commands.commands);
    let admitted_control = admit_control_0080_0(&input.control_input);
    if !admitted_control.admitted {
        return empty_report(input, false, admitted_control.diagnostics, false);
    }
    let used = admitted_control.observation_pending;
    proof {
        assert(admitted_control.text_export@ =~= Seq::<char>::empty());
        assert(admitted_control.rejected_commands@.len() == 0);
    }
    let control = if used {
        complete_control_0080_0(admitted_control, observation.replay_checksum, observation.text_export.clone())
    } else {
        admitted_control
    };
    let movement_days = if used { build_movement_days(&observation.steps) } else { Vec::new() };
    let observation_export = control.text_export.clone();
    let demo_export = render_demo_export(observation_export.as_str(), &movement_days);
    let observation_checksum: u64 = if used { observation.replay_checksum } else { 0 };
    let checksum = checksum_demo(&demo_export, movement_days.len(), control.deterministic_replay_checksum, observation_checksum);
    let mut report = empty_report(input, true, diagnostics, false);
    report.uses_canonical_control_batch = uses_canonical;
    report.observation_replay_checksum = if used { Some(observation.replay_checksum) } else { None };
    report.control_report = Some(control);
    report.movement_days = movement_days;
    report.observation_export = observation_export;
    report.demo_export = demo_export;
    report.deterministic_replay_checksum = checksum;
    report
}

/// Runs the opted-in demo over `scenario` twice against the same observation.
pub fn replay_demo_0080_0(scenario: LocalPatrolEconomyScenario, observation: &Demo0080Observation) -> (r: (Demo0080Report, Demo0080Report))
    ensures
        r.0.admitted == r.1.admitted,
        r.0.movement_days@ == r.1.movement_days@,
        r.0.demo_export@ == r.1.demo_export@,
        r.0.deterministic_replay_checksum == r.1.deterministic_replay_checksum,
        exists|input: Demo0080Input| #![trigger canonical_demo_input(input, scenario)]
            canonical_demo_input(input, scenario) && run_demo_0080_0_post(&input, observation, r.0),
{
    let input = Demo0080Input::explicit_opt_in(scenario);
    let a = run_demo_0080_0(&input, observation);
    let b = run_demo_0080_0(&input, observation);
    proof {
        if !a.admitted {
            assert(a.movement_days@ =~= b.movement_days@);
            assert(a.demo_export@ =~= b.demo_export@);
        }
        assert(canonical_demo_input(input, scenario) && run_demo_0080_0_post(&input, observation, a));
    }
    (a, b)
}

/// The demo follows its control layer: an opted-in demo with no diagnostics of its own is
/// admitted exactly when `admit_control_0080_0` admits its control input; when it is not, it
/// reports the control layer's diagnostics, with no control report, no movement days, no export
/// and checksum 0.
pub proof fn lemma_demo_follows_control(
    input: &Demo0080Input,
    observation: &Demo0080Observation,
    control: Control0080AdmissionReport,
    r: Demo0080Report,
)
    requires
        crate::control_0080_0::admit_control_0080_0_post(&input.control_input, control),
        run_demo_0080_0_post(input, observation, r),
        demo_diagnostics(input).len() == 0,
        input.surface.gate.explicit_opt_in,
    ensures
        r.admitted == control.admitted,
        !control.admitted ==> {
            &&& r.diagnostics@ == control.diagnostics@
            &&& r.control_report is None
            &&& r.movement_days@.len() == 0
            &&& r.demo_export@.len() == 0
            &&& r.deterministic_replay_checksum == 0
        },
{
}

} // verus!
