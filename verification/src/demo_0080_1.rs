//! Headless Nested Starmap demo: gate, session surface and refused requests.
//!
//! The demo admits a control batch, completes it with the gameplay observation (computed outside
//! this library and handed in as the values the demo reads of it), and renders the command and
//! movement rows as a text export.
use crate::control_0080_1::{
    accepted_count, admission_diagnostics, admit_control_0080_1, asks_export, asks_observation,
    checksum_of, command_start, complete_control_0080_1, fold_rejected, fold_state, fold_transcript,
    initial_config, saturate_u32, stamped, Control0081AdmissionInput, Control0081Command,
    Control0081CommandTranscriptRow, CONTROL_0080_1_ID,
};
use crate::decimal_text::{bool_text, decimal_int, decimal_nat, push_bool, push_decimal_i64, push_decimal_u64, push_text};
use crate::default_schedule_0080_1::{DefaultSchedule0081Input, DefaultSchedule0081ShipFaction};
use crate::diagnostics::{flag_diag, push_if};
use crate::replay_hash::{fnv, fnv_step, fnv_whole_words, FNV_OFFSET_BASIS};
use vstd::prelude::*;

verus! {

pub const DEMO_0080_1_ID: &'static str = "DEMO-0080-1";
pub const DEMO_0080_1_SCENARIO: &'static str = "Nested Starmap";
pub const DEMO_0080_1_STATUS_PASS: &'static str = "IMPLEMENTED / PASS - headless Nested Starmap demo/export library helper";

/// Opt-in gate.
#[derive(Clone, Copy, Debug, PartialEq, Eq)]
pub struct Demo0081Gate {
    pub explicit_opt_in: bool,
    pub enabled_by_default: bool,
}

impl Default for Demo0081Gate {
    /// Closed gate.
    fn default() -> (r: Self)
        ensures
            !r.explicit_opt_in && !r.enabled_by_default,
    {
        Demo0081Gate { explicit_opt_in: false, enabled_by_default: false }
    }
}

impl Demo0081Gate {
    /// Opted in, still not enabled by default.
    pub fn explicit_opt_in() -> (r: Self)
        ensures
            r.explicit_opt_in && !r.enabled_by_default,
    {
        Demo0081Gate { explicit_opt_in: true, enabled_by_default: false }
    }
}

/// Session surface.
#[derive(Clone, Copy, Debug, PartialEq, Eq)]
pub struct Demo0081Surface {
    pub gate: Demo0081Gate,
    pub cli_binary_present: bool,
    pub ui_framework_present: bool,
    pub realtime_loop_present: bool,
    pub player_command_loop: bool,
    pub direct_movement_command: bool,
    pub external_boundary_request: bool,
    pub sead_bypass: bool,
    pub global_default_schedule: bool,
}

/// `acc` followed by the diagnostics for the surface flags, in check order.
pub open spec fn surface_diagnostics(acc: Seq<&'static str>, s: Demo0081Surface) -> Seq<&'static str> {
    acc
        + flag_diag(s.gate.enabled_by_default, "demo_0080_1_default_on_behavior_rejected")
        + flag_diag(s.cli_binary_present, "cli_binary_not_authorized")
        + flag_diag(s.ui_framework_present, "ui_framework")
        + flag_diag(s.realtime_loop_present, "realtime_loop")
        + flag_diag(s.player_command_loop, "player_command_loop")
        + flag_diag(s.direct_movement_command, "direct_movement_command")
        + flag_diag(s.external_boundary_request, "external_boundary_request")
        + flag_diag(s.sead_bypass, "sead_bypass")
        + flag_diag(s.global_default_schedule, "global_default_schedule")
}

impl Default for Demo0081Surface {
    /// Nothing registered or wired, gate closed.
    fn default() -> (r: Self)
        ensures
            !r.gate.explicit_opt_in,
            surface_diagnostics(Seq::empty(), r).len() == 0,
    {
        broadcast use crate::diagnostics::lemma_flag_diag;
        Demo0081Surface {
            gate: Demo0081Gate::default(),
            cli_binary_present: false,
            ui_framework_present: false,
            realtime_loop_present: false,
            player_command_loop: false,
            direct_movement_command: false,
            external_boundary_request: false,
            sead_bypass: false,
            global_default_schedule: false,
        }
    }
}

impl Demo0081Surface {
    /// The default session: nothing registered or wired, gate closed.
    pub fn default_simsession() -> (r: Self)
        ensures
            !r.gate.explicit_opt_in,
            surface_diagnostics(Seq::empty(), r).len() == 0,
    {
        Self::default()
    }

    /// Opted in; nothing else wired.
    pub fn with_explicit_opt_in() -> (r: Self)
        ensures
            r.gate.explicit_opt_in,
            surface_diagnostics(Seq::empty(), r).len() == 0,
    {
        broadcast use crate::diagnostics::lemma_flag_diag;
        Demo0081Surface {
            gate: Demo0081Gate::explicit_opt_in(),
            cli_binary_present: false,
            ui_framework_present: false,
            realtime_loop_present: false,
            player_command_loop: false,
            direct_movement_command: false,
            external_boundary_request: false,
            sead_bypass: false,
            global_default_schedule: false,
        }
    }
}

/// Requests that must be refused.
#[derive(Clone, Copy, Debug, PartialEq, Eq)]
pub struct Demo0081ForbiddenRequests {
    pub cli_binary: bool,
    pub direct_movement_command: bool,
    pub external_boundary_request: bool,
    pub sead_bypass: bool,
    pub cpu_planner_or_commitment: bool,
    pub player_command_loop: bool,
    pub ui_framework: bool,
    pub realtime_loop: bool,
    pub global_default_schedule: bool,
    pub semantic_or_raw_wgsl: bool,
    pub new_shader_or_gpu_kernel: bool,
    pub hard_currency_markets_trade_aibudget: bool,
    pub nested_resource_flow: bool,
    pub clausething_dependency: bool,
    pub general_command_framework: bool,
    pub general_gameplay_framework: bool,
}

/// `acc` followed by the diagnostics for the forbidden requests, in check order.
pub open spec fn forbidden_diagnostics(acc: Seq<&'static str>, f: Demo0081ForbiddenRequests) -> Seq<&'static str> {
    acc
        + flag_diag(f.cli_binary, "cli_binary_not_authorized")
        + flag_diag(f.direct_movement_command, "direct_movement_command")
        + flag_diag(f.external_boundary_request, "external_boundary_request")
        + flag_diag(f.sead_bypass, "sead_bypass")
        + flag_diag(f.cpu_planner_or_commitment, "cpu_planner_or_commitment")
        + flag_diag(f.player_command_loop, "player_command_loop")
        + flag_diag(f.ui_framework, "ui_framework")
        + flag_diag(f.realtime_loop, "realtime_loop")
        + flag_diag(f.global_default_schedule, "global_default_schedule")
        + flag_diag(f.semantic_or_raw_wgsl, "semantic_or_raw_wgsl")
        + flag_diag(f.new_shader_or_gpu_kernel, "new_shader_or_gpu_kernel")
        + flag_diag(f.hard_currency_markets_trade_aibudget, "hard_currency_markets_trade_aibudget")
        + flag_diag(f.nested_resource_flow, "nested_resource_flow")
        + flag_diag(f.clausething_dependency, "clausething_dependency")
        + flag_diag(f.general_command_framework, "general_command_framework")
        + flag_diag(f.general_gameplay_framework, "general_gameplay_framework")
}

impl Default for Demo0081ForbiddenRequests {
    /// Nothing requested.
    fn default() -> (r: Self)
        ensures
            forbidden_diagnostics(Seq::empty(), r).len() == 0,
    {
        broadcast use crate::diagnostics::lemma_flag_diag;
        Demo0081ForbiddenRequests {
            cli_binary: false,
            direct_movement_command: false,
            external_boundary_request: false,
            sead_bypass: false,
            cpu_planner_or_commitment: false,
            player_command_loop: false,
            ui_framework: false,
            realtime_loop: false,
            global_default_schedule: false,
            semantic_or_raw_wgsl: false,
            new_shader_or_gpu_kernel: false,
            hard_currency_markets_trade_aibudget: false,
            nested_resource_flow: false,
            clausething_dependency: false,
            general_command_framework: false,
            general_gameplay_framework: false,
        }
    }
}

#[verifier::rlimit(40)]
/// Appends the surface diagnostics, in check order.
pub fn validate_surface(surface: &Demo0081Surface, diagnostics: &mut Vec<&'static str>)
    ensures
        final(diagnostics)@ == surface_diagnostics(old(diagnostics)@, *surface),
{
    push_if(diagnostics, surface.gate.enabled_by_default, "demo_0080_1_default_on_behavior_rejected");
    push_if(diagnostics, surface.cli_binary_present, "cli_binary_not_authorized");
    push_if(diagnostics, surface.ui_framework_present, "ui_framework");
    push_if(diagnostics, surface.realtime_loop_present, "realtime_loop");
    push_if(diagnostics, surface.player_command_loop, "player_command_loop");
    push_if(diagnostics, surface.direct_movement_command, "direct_movement_command");
    push_if(diagnostics, surface.external_boundary_request, "external_boundary_request");
    push_if(diagnostics, surface.sead_bypass, "sead_bypass");
    push_if(diagnostics, surface.global_default_schedule, "global_default_schedule");
}

#[verifier::rlimit(60)]
/// Appends the forbidden-request diagnostics, in check order.
pub fn validate_forbidden(forbidden: &Demo0081ForbiddenRequests, diagnostics: &mut Vec<&'static str>)
    ensures
        final(diagnostics)@ == forbidden_diagnostics(old(diagnostics)@, *forbidden),
{
    push_if(diagnostics, forbidden.cli_binary, "cli_binary_not_authorized");
    push_if(diagnostics, forbidden.direct_movement_command, "direct_movement_command");
    push_if(diagnostics, forbidden.external_boundary_request, "external_boundary_request");
    push_if(diagnostics, forbidden.sead_bypass, "sead_bypass");
    push_if(diagnostics, forbidden.cpu_planner_or_commitment, "cpu_planner_or_commitment");
    push_if(diagnostics, forbidden.player_command_loop, "player_command_loop");
    push_if(diagnostics, forbidden.ui_framework, "ui_framework");
    push_if(diagnostics, forbidden.realtime_loop, "realtime_loop");
    push_if(diagnostics, forbidden.global_default_schedule, "global_default_schedule");
    push_if(diagnostics, forbidden.semantic_or_raw_wgsl, "semantic_or_raw_wgsl");
    push_if(diagnostics, forbidden.new_shader_or_gpu_kernel, "new_shader_or_gpu_kernel");
    push_if(diagnostics, forbidden.hard_currency_markets_trade_aibudget, "hard_currency_markets_trade_aibudget");
    push_if(diagnostics, forbidden.nested_resource_flow, "nested_resource_flow");
    push_if(diagnostics, forbidden.clausething_dependency, "clausething_dependency");
    push_if(diagnostics, forbidden.general_command_framework, "general_command_framework");
    push_if(diagnostics, forbidden.general_gameplay_framework, "general_gameplay_framework");
}


/// One row of the gameplay observation's transcript, as the demo reads it.
#[derive(Clone, Copy, Debug, PartialEq, Eq)]
pub struct Demo0081ObservedRow {
    pub step_index: u32,
    pub mover_faction: Option<DefaultSchedule0081ShipFaction>,
    pub start_starsystem: Option<u8>,
    pub end_starsystem: Option<u8>,
    pub threshold_accepted: bool,
    pub event_emitted: bool,
    pub boundary_request_materialized: bool,
    pub identity_preserved: bool,
    pub owner_overlay_preserved: bool,
    pub membership_updated_without_reparenting: bool,
}

/// The gameplay observation as the demo reads it: checksum, text export, step and movement
/// counts, transcript rows, and which summaries it carries.
#[derive(Clone, Debug, PartialEq, Eq)]
pub struct Demo0081Observation {
    pub replay_checksum: u64,
    pub text_export: String,
    pub executed_step_count: u32,
    pub terran_movement_rows: u32,
    pub pirate_movement_rows: u32,
    pub rows: Vec<Demo0081ObservedRow>,
    pub atlas_summary_present: bool,
    pub faction_econ_summary_present: bool,
    pub owner_overlay_summary_present: bool,
    pub ownership_up_aggregation_summary_present: bool,
    pub sead_movement_trace_included: bool,
}

/// A command transcript row in the demo report.
#[derive(Clone, Copy, Debug, PartialEq, Eq)]
pub struct Demo0081CommandRow {
    pub command_index: usize,
    pub command: &'static str,
    pub accepted: bool,
    pub target_bounded_field: &'static str,
    pub old_value: i64,
    pub new_value: i64,
}

/// A movement row in the demo report, built from the observation transcript.
#[derive(Clone, Copy, Debug, PartialEq, Eq)]
pub struct Demo0081MovementRow {
    pub step_index: u32,
    pub mover_faction: &'static str,
    pub start_starsystem: Option<u8>,
    pub end_starsystem: Option<u8>,
    pub threshold_accepted: bool,
    pub event_emitted: bool,
    pub boundary_request_materialized: bool,
    pub identity_preserved: bool,
    pub owner_overlay_preserved: bool,
    pub membership_updated_without_reparenting: bool,
}

/// The label of a mover's faction.
pub open spec fn faction_label_spec(f: Option<DefaultSchedule0081ShipFaction>) -> &'static str {
    match f {
        Some(DefaultSchedule0081ShipFaction::Terran) => "Terran",
        Some(DefaultSchedule0081ShipFaction::Pirate) => "Pirate",
        None => "none",
    }
}

/// The label of a mover's faction.
pub fn faction_label(f: Option<DefaultSchedule0081ShipFaction>) -> (r: &'static str)
    ensures
        r == faction_label_spec(f),
{
    match f {
        Some(DefaultSchedule0081ShipFaction::Terran) => "Terran",
        Some(DefaultSchedule0081ShipFaction::Pirate) => "Pirate",
        None => "none",
    }
}

/// The movement row of an observed transcript row.
pub open spec fn movement_row_spec(o: Demo0081ObservedRow) -> Demo0081MovementRow {
    Demo0081MovementRow {
        step_index: o.step_index,
        mover_faction: faction_label_spec(o.mover_faction),
        start_starsystem: o.start_starsystem,
        end_starsystem: o.end_starsystem,
        threshold_accepted: o.threshold_accepted,
        event_emitted: o.event_emitted,
        boundary_request_materialized: o.boundary_request_materialized,
        identity_preserved: o.identity_preserved,
        owner_overlay_preserved: o.owner_overlay_preserved,
        membership_updated_without_reparenting: o.membership_updated_without_reparenting,
    }
}

/// The demo row of a control transcript row.
pub open spec fn command_row_spec(t: Control0081CommandTranscriptRow) -> Demo0081CommandRow {
    Demo0081CommandRow {
        command_index: t.command_index,
        command: t.command,
        accepted: t.accepted,
        target_bounded_field: t.target_bounded_field,
        old_value: t.old_value,
        new_value: t.new_value,
    }
}

/// Number of rows satisfying `f`.
pub open spec fn count_rows(rows: Seq<Demo0081ObservedRow>, f: spec_fn(Demo0081ObservedRow) -> bool) -> nat
    decreases rows.len(),
{
    if rows.len() == 0 {
        0
    } else {
        count_rows(rows.drop_last(), f) + if f(rows.last()) { 1nat } else { 0nat }
    }
}

/// What the report takes from the observation, with the defaults when there is none.
pub struct ObservationTally {
    pub executed_step_count: u32,
    pub terran_move_count: u32,
    pub pirate_move_count: u32,
    pub boundary_request_count: u32,
    pub identity_preserved: bool,
    pub owner_overlay_preserved: bool,
    pub membership_updated_without_reparenting: bool,
}

/// The tally of an observation (zero counts and preserved flags when there is none).
pub open spec fn tally_spec(obs: Option<&Demo0081Observation>) -> (u32, u32, u32, nat, bool, bool, bool) {
    match obs {
        Some(o) => (
            o.executed_step_count,
            o.terran_movement_rows,
            o.pirate_movement_rows,
            count_rows(o.rows@, |r: Demo0081ObservedRow| r.boundary_request_materialized),
            count_rows(o.rows@, |r: Demo0081ObservedRow| !r.identity_preserved) == 0,
            count_rows(o.rows@, |r: Demo0081ObservedRow| !r.owner_overlay_preserved) == 0,
            count_rows(o.rows@, |r: Demo0081ObservedRow| !r.membership_updated_without_reparenting) == 0,
        ),
        None => (0, 0, 0, 0, true, true, true),
    }
}

/// Tallies an observation.
fn tally_observation(obs: Option<&Demo0081Observation>) -> (t: ObservationTally)
    requires
        match obs { Some(o) => o.rows@.len() < u32::MAX, None => true },
    ensures
        (t.executed_step_count, t.terran_move_count, t.pirate_move_count, t.boundary_request_count as nat,
            t.identity_preserved, t.owner_overlay_preserved, t.membership_updated_without_reparenting) == tally_spec(obs),
{
    match obs {
        None => ObservationTally {
            executed_step_count: 0,
            terran_move_count: 0,
            pirate_move_count: 0,
            boundary_request_count: 0,
            identity_preserved: true,
            owner_overlay_preserved: true,
            membership_updated_without_reparenting: true,
        },
        Some(o) => {
            let rows = &o.rows;
            let mut boundary: u32 = 0;
            let mut identity_lost: u32 = 0;
            let mut overlay_lost: u32 = 0;
            let mut membership_lost: u32 = 0;
            proof {
                assert(rows@.take(0) =~= Seq::<Demo0081ObservedRow>::empty());
            }
            let mut i: usize = 0;
            while i < rows.len()
                invariant
                    i <= rows@.len(),
                    rows@.len() < u32::MAX,
                    boundary == count_rows(rows@.take(i as int), |r: Demo0081ObservedRow| r.boundary_request_materialized),
                    identity_lost == count_rows(rows@.take(i as int), |r: Demo0081ObservedRow| !r.identity_preserved),
                    overlay_lost == count_rows(rows@.take(i as int), |r: Demo0081ObservedRow| !r.owner_overlay_preserved),
                    membership_lost == count_rows(rows@.take(i as int), |r: Demo0081ObservedRow| !r.membership_updated_without_reparenting),
                    boundary <= i && identity_lost <= i && overlay_lost <= i && membership_lost <= i,
                decreases rows@.len() - i,
            {
                let r = rows[i];
                proof {
                    let next = rows@.take(i as int + 1);
                    assert(next.drop_last() =~= rows@.take(i as int));
                    assert(next.last() == r);
                }
                if r.boundary_request_materialized { boundary = boundary + 1; }
                if !r.identity_preserved { identity_lost = identity_lost + 1; }
                if !r.owner_overlay_preserved { overlay_lost = overlay_lost + 1; }
                if !r.membership_updated_without_reparenting { membership_lost = membership_lost + 1; }
                i = i + 1;
            }
            proof {
                assert(rows@.take(i as int) =~= rows@);
            }
            ObservationTally {
                executed_step_count: o.executed_step_count,
                terran_move_count: o.terran_movement_rows,
                pirate_move_count: o.pirate_movement_rows,
                boundary_request_count: boundary,
                identity_preserved: identity_lost == 0,
                owner_overlay_preserved: overlay_lost == 0,
                membership_updated_without_reparenting: membership_lost == 0,
            }
        },
    }
}

/// The movement rows of an observation's transcript.
fn build_movement_rows(rows: &Vec<Demo0081ObservedRow>) -> (r: Vec<Demo0081MovementRow>)
    ensures
        r@ == rows@.map_values(|o: Demo0081ObservedRow| movement_row_spec(o)),
{
    let mut out: Vec<Demo0081MovementRow> = Vec::new();
    let mut i: usize = 0;
    while i < rows.len()
        invariant
            i <= rows@.len(),
            out@ =~= rows@.take(i as int).map_values(|o: Demo0081ObservedRow| movement_row_spec(o)),
        decreases rows@.len() - i,
    {
        let o = rows[i];
        out.push(Demo0081MovementRow {
            step_index: o.step_index,
            mover_faction: faction_label(o.mover_faction),
            start_starsystem: o.start_starsystem,
            end_starsystem: o.end_starsystem,
            threshold_accepted: o.threshold_accepted,
            event_emitted: o.event_emitted,
            boundary_request_materialized: o.boundary_request_materialized,
            identity_preserved: o.identity_preserved,
            owner_overlay_preserved: o.owner_overlay_preserved,
            membership_updated_without_reparenting: o.membership_updated_without_reparenting,
        });
        i = i + 1;
        proof {
            assert(rows@.take(i as int) =~= rows@.take(i as int - 1).push(o));
        }
    }
    proof {
        assert(rows@.take(i as int) =~= rows@);
    }
    out
}

/// The demo rows of a control transcript.
fn build_command_rows(rows: &Vec<Control0081CommandTranscriptRow>) -> (r: Vec<Demo0081CommandRow>)
    ensures
        r@ == rows@.map_values(|t: Control0081CommandTranscriptRow| command_row_spec(t)),
{
    let mut out: Vec<Demo0081CommandRow> = Vec::new();
    let mut i: usize = 0;
    while i < rows.len()
        invariant
            i <= rows@.len(),
            out@ =~= rows@.take(i as int).map_values(|t: Control0081CommandTranscriptRow| command_row_spec(t)),
        decreases rows@.len() - i,
    {
        let t = rows[i];
        out.push(Demo0081CommandRow {
            command_index: t.command_index,
            command: t.command,
            accepted: t.accepted,
            target_bounded_field: t.target_bounded_field,
            old_value: t.old_value,
            new_value: t.new_value,
        });
        i = i + 1;
        proof {
            assert(rows@.take(i as int) =~= rows@.take(i as int - 1).push(t));
        }
    }
    proof {
        assert(rows@.take(i as int) =~= rows@);
    }
    out
}

/// `Some(n)` or `None`, as `{:?}` renders an `Option<u8>`.
pub open spec fn option_debug(o: Option<u8>) -> Seq<char> {
    match o {
        Some(v) => "Some("@ + decimal_nat(v as nat) + ")"@,
        None => "None"@,
    }
}

fn push_option_debug(out: &mut String, o: Option<u8>)
    ensures
        final(out)@ == old(out)@ + option_debug(o),
{
    match o {
        Some(v) => {
            push_text(out, "Some(");
            push_decimal_u64(out, v as u64);
            push_text(out, ")");
            proof {
                assert(final(out)@ =~= old(out)@ + option_debug(o));
            }
        },
        None => push_text(out, "None"),
    }
}

/// The header line of the demo export.
pub open spec fn header_line(applied: u32, steps: u32, terran: u32, pirate: u32, identity: bool, overlay: bool, checksum: u64) -> Seq<char> {
    "DEMO-0080-1|scenario="@ + DEMO_0080_1_SCENARIO@ + "|control_id="@ + CONTROL_0080_1_ID@
        + "|commands_applied="@ + decimal_nat(applied as nat) + "|steps="@ + decimal_nat(steps as nat)
        + "|terran_moves="@ + decimal_nat(terran as nat) + "|pirate_moves="@ + decimal_nat(pirate as nat)
        + "|identity_preserved="@ + bool_text(identity) + "|owner_overlay_preserved="@ + bool_text(overlay)
        + "|checksum="@ + decimal_nat(checksum as nat)
}

/// One command line of the demo export.
pub open spec fn command_line(r: Demo0081CommandRow) -> Seq<char> {
    "CMD|index="@ + decimal_nat(r.command_index as nat) + "|command="@ + r.command@
        + "|accepted="@ + bool_text(r.accepted) + "|field="@ + r.target_bounded_field@
        + "|old="@ + decimal_int(r.old_value as int) + "|new="@ + decimal_int(r.new_value as int)
}

/// One movement line of the demo export.
pub open spec fn move_line(r: Demo0081MovementRow) -> Seq<char> {
    move_head(r) + move_flags(r)
}

/// Step, faction and starsystems of a movement line.
pub open spec fn move_head(r: Demo0081MovementRow) -> Seq<char> {
    "MOVE|step="@ + decimal_nat(r.step_index as nat) + "|faction="@ + r.mover_faction@
        + "|start="@ + option_debug(r.start_starsystem) + "|end="@ + option_debug(r.end_starsystem)
}

/// The decision and preservation flags of a movement line.
pub open spec fn move_flags(r: Demo0081MovementRow) -> Seq<char> {
    move_decision(r) + move_preservation(r)
}

/// The decision flags of a movement line.
pub open spec fn move_decision(r: Demo0081MovementRow) -> Seq<char> {
    "|threshold="@ + bool_text(r.threshold_accepted) + "|event="@ + bool_text(r.event_emitted)
        + "|boundary="@ + bool_text(r.boundary_request_materialized)
}

/// The preservation flags of a movement line.
pub open spec fn move_preservation(r: Demo0081MovementRow) -> Seq<char> {
    "|identity="@ + bool_text(r.identity_preserved)
        + "|owner_overlay="@ + bool_text(r.owner_overlay_preserved)
        + "|no_reparenting="@ + bool_text(r.membership_updated_without_reparenting)
}

/// `acc` followed by a newline and the command line of each row.
pub open spec fn command_lines(acc: Seq<char>, rows: Seq<Demo0081CommandRow>) -> Seq<char>
    decreases rows.len(),
{
    if rows.len() == 0 {
        acc
    } else {
        command_lines(acc, rows.drop_last()) + "\n"@ + command_line(rows.last())
    }
}

/// `acc` followed by a newline and the movement line of each row.
pub open spec fn move_lines(acc: Seq<char>, rows: Seq<Demo0081MovementRow>) -> Seq<char>
    decreases rows.len(),
{
    if rows.len() == 0 {
        acc
    } else {
        move_lines(acc, rows.drop_last()) + "\n"@ + move_line(rows.last())
    }
}

fn push_command_line(out: &mut String, r: &Demo0081CommandRow)
    ensures
        final(out)@ == old(out)@ + "\n"@ + command_line(*r),
{
    push_text(out, "\n");
    push_text(out, "CMD|index=");
    push_decimal_u64(out, r.command_index as u64);
    push_text(out, "|command=");
    push_text(out, r.command);
    push_text(out, "|accepted=");
    push_bool(out, r.accepted);
    push_text(out, "|field=");
    push_text(out, r.target_bounded_field);
    push_text(out, "|old=");
    push_decimal_i64(out, r.old_value);
    push_text(out, "|new=");
    push_decimal_i64(out, r.new_value);
    proof {
        assert(final(out)@ =~= old(out)@ + "\n"@ + command_line(*r));
    }
}

fn push_move_head(out: &mut String, r: &Demo0081MovementRow)
    ensures
        final(out)@ == old(out)@ + move_head(*r),
{
    push_text(out, "MOVE|step=");
    push_decimal_u64(out, r.step_index as u64);
    push_text(out, "|faction=");
    push_text(out, r.mover_faction);
    push_text(out, "|start=");
    push_option_debug(out, r.start_starsystem);
    push_text(out, "|end=");
    push_option_debug(out, r.end_starsystem);
    proof {
        assert(final(out)@ =~= old(out)@ + move_head(*r));
    }
}

fn push_move_decision(out: &mut String, r: &Demo0081MovementRow)
    ensures
        final(out)@ == old(out)@ + move_decision(*r),
{
    push_text(out, "|threshold=");
    push_bool(out, r.threshold_accepted);
    push_text(out, "|event=");
    push_bool(out, r.event_emitted);
    push_text(out, "|boundary=");
    push_bool(out, r.boundary_request_materialized);
    proof {
        assert(final(out)@ =~= old(out)@ + move_decision(*r));
    }
}

fn push_move_preservation(out: &mut String, r: &Demo0081MovementRow)
    ensures
        final(out)@ == old(out)@ + move_preservation(*r),
{
    push_text(out, "|identity=");
    push_bool(out, r.identity_preserved);
    push_text(out, "|owner_overlay=");
    push_bool(out, r.owner_overlay_preserved);
    push_text(out, "|no_reparenting=");
    push_bool(out, r.membership_updated_without_reparenting);
    proof {
        assert(final(out)@ =~= old(out)@ + move_preservation(*r));
    }
}

fn push_move_flags(out: &mut String, r: &Demo0081MovementRow)
    ensures
        final(out)@ == old(out)@ + move_flags(*r),
{
    push_move_decision(out, r);
    push_move_preservation(out, r);
    proof {
        assert(final(out)@ =~= old(out)@ + move_flags(*r));
    }
}

fn push_move_line(out: &mut String, r: &Demo0081MovementRow)
    ensures
        final(out)@ == old(out)@ + "\n"@ + move_line(*r),
{
    push_text(out, "\n");
    push_move_head(out, r);
    push_move_flags(out, r);
    proof {
        assert(final(out)@ =~= old(out)@ + "\n"@ + move_line(*r));
    }
}

fn push_header_line(out: &mut String, applied: u32, steps: u32, terran: u32, pirate: u32, identity: bool, overlay: bool, checksum: u64)
    ensures
        final(out)@ == old(out)@ + header_line(applied, steps, terran, pirate, identity, overlay, checksum),
{
    push_text(out, "DEMO-0080-1|scenario=");
    push_text(out, DEMO_0080_1_SCENARIO);
    push_text(out, "|control_id=");
    push_text(out, CONTROL_0080_1_ID);
    push_text(out, "|commands_applied=");
    push_decimal_u64(out, applied as u64);
    push_text(out, "|steps=");
    push_decimal_u64(out, steps as u64);
    push_text(out, "|terran_moves=");
    push_decimal_u64(out, terran as u64);
    push_text(out, "|pirate_moves=");
    push_decimal_u64(out, pirate as u64);
    push_text(out, "|identity_preserved=");
    push_bool(out, identity);
    push_text(out, "|owner_overlay_preserved=");
    push_bool(out, overlay);
    push_text(out, "|checksum=");
    push_decimal_u64(out, checksum);
    proof {
        assert(final(out)@ =~= old(out)@ + header_line(applied, steps, terran, pirate, identity, overlay, checksum));
    }
}

/// Renders the demo export: the header line, then one line per command row and per movement row.
fn render_demo_export(
    header: (u32, u32, u32, u32, bool, bool, u64),
    command_rows: &Vec<Demo0081CommandRow>,
    movement_rows: &Vec<Demo0081MovementRow>,
) -> (r: String)
    ensures
        r@ == move_lines(
            command_lines(header_line(header.0, header.1, header.2, header.3, header.4, header.5, header.6), command_rows@),
            movement_rows@,
        ),
{
    let mut out = String::new();
    push_header_line(&mut out, header.0, header.1, header.2, header.3, header.4, header.5, header.6);
    let ghost head = out@;
    proof {
        assert(head =~= header_line(header.0, header.1, header.2, header.3, header.4, header.5, header.6));
        assert(command_rows@.take(0) =~= Seq::<Demo0081CommandRow>::empty());
    }
    let mut i: usize = 0;
    while i < command_rows.len()
        invariant
            i <= command_rows@.len(),
            out@ == command_lines(head, command_rows@.take(i as int)),
        decreases command_rows@.len() - i,
    {
        push_command_line(&mut out, &command_rows[i]);
        proof {
            assert(command_rows@.take(i as int + 1).drop_last() =~= command_rows@.take(i as int));
        }
        i = i + 1;
    }
    proof {
        assert(command_rows@.take(i as int) =~= command_rows@);
        assert(movement_rows@.take(0) =~= Seq::<Demo0081MovementRow>::empty());
    }
    let ghost mid = out@;
    let mut k: usize = 0;
    while k < movement_rows.len()
        invariant
            k <= movement_rows@.len(),
            out@ == move_lines(mid, movement_rows@.take(k as int)),
        decreases movement_rows@.len() - k,
    {
        push_move_line(&mut out, &movement_rows[k]);
        proof {
            assert(movement_rows@.take(k as int + 1).drop_last() =~= movement_rows@.take(k as int));
        }
        k = k + 1;
    }
    proof {
        assert(movement_rows@.take(k as int) =~= movement_rows@);
    }
    out
}

/// Demo input: surface, the control input it admits, and the refused requests.
#[derive(Clone, Debug, PartialEq, Eq)]
pub struct Demo0081Input {
    pub surface: Demo0081Surface,
    pub control_input: Control0081AdmissionInput,
    pub forbidden: Demo0081ForbiddenRequests,
}

/// The canonical control input: opted in, the canonical batch, nothing refused.
pub fn canonical_control_input_0080_1() -> (r: Control0081AdmissionInput)
    ensures
        r.surface.gate.explicit_opt_in,
        crate::control_0080_1::admission_diagnostics(&r).len() == 0,
        r.commands.commands@ == seq![
            Control0081Command::SetStepCount(3),
            Control0081Command::SetTerranThreshold(0),
            Control0081Command::SetPirateThreshold(0),
            Control0081Command::RunObservedScenario,
            Control0081Command::ExportTranscript,
        ],
        r.base_schedule_input == (DefaultSchedule0081Input {
            surface: crate::default_schedule_0080_1::opted_in_surface(),
            step_count: crate::default_schedule_0080_1::DEFAULT_SCHEDULE_0081_STEP_COUNT,
            movement_threshold: 0,
            forbidden: crate::default_schedule_0080_1::no_forbidden_requests(),
        }),
        crate::control_0080_1::canonical_admission_input(r),
{
    let r = Control0081AdmissionInput::explicit_opt_in();
    proof {
        broadcast use crate::diagnostics::lemma_flag_diag;
        assert(crate::control_0080_1::admission_diagnostics(&r) =~= Seq::<&'static str>::empty());
    }
    r
}

/// The canonical demo input that `Demo0081Input::explicit_opt_in` returns.
pub open spec fn canonical_demo_input(r: Demo0081Input) -> bool {
    &&& r.surface.gate.explicit_opt_in
    &&& demo_diagnostics(&r).len() == 0
    &&& r.control_input.surface.gate.explicit_opt_in
    &&& crate::control_0080_1::admission_diagnostics(&r.control_input).len() == 0
    &&& crate::control_0080_1::canonical_admission_input(r.control_input)
}

impl Demo0081Input {
    /// The default session: demo and control gates closed.
    pub fn default_simsession() -> (r: Self)
        ensures
            !r.surface.gate.explicit_opt_in,
            demo_diagnostics(&r).len() == 0,
            !r.control_input.surface.gate.explicit_opt_in,
            r.control_input.commands.commands@.len() == 0,
    {
        let r = Demo0081Input {
            surface: Demo0081Surface::default_simsession(),
            control_input: Control0081AdmissionInput::default_simsession(),
            forbidden: Demo0081ForbiddenRequests::default(),
        };
        proof {
            broadcast use crate::diagnostics::lemma_flag_diag;
            assert(demo_diagnostics(&r) =~= Seq::<&'static str>::empty());
        }
        r
    }

    /// Opted in, admitting the canonical control input.
    pub fn explicit_opt_in() -> (r: Self)
        ensures
            canonical_demo_input(r),
    {
        let r = Demo0081Input {
            surface: Demo0081Surface::with_explicit_opt_in(),
            control_input: canonical_control_input_0080_1(),
            forbidden: Demo0081ForbiddenRequests::default(),
        };
        proof {
            broadcast use crate::diagnostics::lemma_flag_diag;
            assert(demo_diagnostics(&r) =~= Seq::<&'static str>::empty());
        }
        r
    }
}

/// The diagnostics of the demo surface and the refused requests, in check order.
pub open spec fn demo_diagnostics(input: &Demo0081Input) -> Seq<&'static str> {
    forbidden_diagnostics(surface_diagnostics(Seq::empty(), input.surface), input.forbidden)
}

/// The compact demo/export report.
#[derive(Clone, Debug, PartialEq, Eq)]
pub struct Demo0081Report {
    pub demo_id: &'static str,
    pub status: &'static str,
    pub scenario_name: &'static str,
    pub admitted: bool,
    pub diagnostics: Vec<&'static str>,
    pub explicit_opt_in: bool,
    pub default_off: bool,
    pub disabled_no_op: bool,
    pub no_cli_binary: bool,
    pub no_direct_movement_command: bool,
    pub no_external_boundary_request: bool,
    pub no_sead_bypass: bool,
    pub no_cpu_planner_or_commitment: bool,
    pub no_player_command_loop: bool,
    pub no_ui_framework: bool,
    pub no_realtime_loop: bool,
    pub no_global_default_schedule: bool,
    pub no_semantic_or_raw_wgsl: bool,
    pub no_new_shader_or_gpu_kernel: bool,
    pub no_hard_currency_markets_trade_aibudget: bool,
    pub no_nested_resource_flow: bool,
    pub no_clausething_dependency: bool,
    pub control_id: &'static str,
    pub control_admitted: bool,
    pub applied_command_count: u32,
    pub command_transcript: Vec<Demo0081CommandRow>,
    pub control_ran_schedule: bool,
    pub executed_step_count: u32,
    pub terran_move_count: u32,
    pub pirate_move_count: u32,
    pub boundary_request_count: u32,
    pub identity_preserved: bool,
    pub owner_overlay_preserved: bool,
    pub membership_updated_without_reparenting: bool,
    pub atlas_residency_summary_present: bool,
    pub faction_index_econ_summary_present: bool,
    pub owner_overlay_summary_present: bool,
    pub ownership_up_aggregation_summary_present: bool,
    pub sead_movement_trace_present: bool,
    pub movement_rows: Vec<Demo0081MovementRow>,
    pub demo_text_export: String,
    pub deterministic_replay_checksum: u64,
}

/// The words of the demo checksum (folded whole, one step per word): the counts and flags, then
/// step, threshold, boundary, identity and overlay of each movement row.
pub open spec fn demo_words(r: &Demo0081Report) -> Seq<u64> {
    seq![
        r.applied_command_count as u64,
        r.executed_step_count as u64,
        r.terran_move_count as u64,
        r.pirate_move_count as u64,
        r.boundary_request_count as u64,
        bool_word(r.identity_preserved),
        bool_word(r.owner_overlay_preserved),
    ] + rows_words(r.movement_rows@)
}

/// `1` for true, `0` for false.
pub open spec fn bool_word(b: bool) -> u64 {
    if b { 1 } else { 0 }
}

/// The checksum words of the movement rows.
pub open spec fn rows_words(rows: Seq<Demo0081MovementRow>) -> Seq<u64>
    decreases rows.len(),
{
    if rows.len() == 0 {
        Seq::empty()
    } else {
        let r = rows.last();
        rows_words(rows.drop_last()) + seq![
            r.step_index as u64,
            bool_word(r.threshold_accepted),
            bool_word(r.boundary_request_materialized),
            bool_word(r.identity_preserved),
            bool_word(r.owner_overlay_preserved),
        ]
    }
}

/// Folding whole words one at a time.
proof fn lemma_whole_push(ws: Seq<u64>, w: u64)
    ensures
        fnv_whole_words(FNV_OFFSET_BASIS, ws.push(w)) == fnv_step(fnv_whole_words(FNV_OFFSET_BASIS, ws), w),
{
    assert(ws.push(w).drop_last() =~= ws);
}

/// Folds `words` whole into a checksum over `ws`.
fn fold_whole(hash: u64, words: &Vec<u64>, Ghost(ws): Ghost<Seq<u64>>) -> (r: u64)
    requires
        hash == fnv_whole_words(FNV_OFFSET_BASIS, ws),
    ensures
        r == fnv_whole_words(FNV_OFFSET_BASIS, ws + words@),
{
    let mut h = hash;
    let mut k: usize = 0;
    while k < words.len()
        invariant
            k <= words@.len(),
            h == fnv_whole_words(FNV_OFFSET_BASIS, ws + words@.take(k as int)),
        decreases words@.len() - k,
    {
        proof {
            lemma_whole_push(ws + words@.take(k as int), words@[k as int]);
            assert((ws + words@.take(k as int)).push(words@[k as int]) =~= ws + words@.take(k as int + 1));
        }
        h = fnv(h, words[k]);
        k = k + 1;
    }
    proof {
        assert(words@.take(k as int) =~= words@);
    }
    h
}

/// Computes the demo checksum.
fn checksum_demo(r: &Demo0081Report) -> (h: u64)
    ensures
        h == fnv_whole_words(FNV_OFFSET_BASIS, demo_words(r)),
{
    let head: Vec<u64> = vec![
        r.applied_command_count as u64,
        r.executed_step_count as u64,
        r.terran_move_count as u64,
        r.pirate_move_count as u64,
        r.boundary_request_count as u64,
        if r.identity_preserved { 1u64 } else { 0u64 },
        if r.owner_overlay_preserved { 1u64 } else { 0u64 },
    ];
    proof {
        assert(Seq::<u64>::empty() + head@ =~= head@);
    }
    let mut hash = fold_whole(FNV_OFFSET_BASIS, &head, Ghost(Seq::empty()));
    let ghost prefix = head@;
    let rows = &r.movement_rows;
    proof {
        assert(rows@.take(0) =~= Seq::<Demo0081MovementRow>::empty());
        assert(prefix + rows_words(rows@.take(0)) =~= prefix);
    }
    let mut i: usize = 0;
    while i < rows.len()
        invariant
            i <= rows@.len(),
            rows@ == r.movement_rows@,
            hash == fnv_whole_words(FNV_OFFSET_BASIS, prefix + rows_words(rows@.take(i as int))),
        decreases rows@.len() - i,
    {
        let row = rows[i];
        let words: Vec<u64> = vec![
            row.step_index as u64,
            if row.threshold_accepted { 1u64 } else { 0u64 },
            if row.boundary_request_materialized { 1u64 } else { 0u64 },
            if row.identity_preserved { 1u64 } else { 0u64 },
            if row.owner_overlay_preserved { 1u64 } else { 0u64 },
        ];
        let ghost before = prefix + rows_words(rows@.take(i as int));
        hash = fold_whole(hash, &words, Ghost(before));
        proof {
            let next = rows@.take(i as int + 1);
            assert(next.drop_last() =~= rows@.take(i as int));
            assert(next.last() == row);
            assert(prefix + rows_words(next) =~= before + words@);
        }
        i = i + 1;
    }
    proof {
        assert(rows@.take(i as int) =~= rows@);
        assert(demo_words(r) =~= prefix + rows_words(rows@));
    }
    hash
}

/// What the demo reads of the control report it ran: applied count, checksum, whether it was
/// admitted (and not a no-op), and its transcript.
pub struct ControlView {
    pub applied: u32,
    pub checksum: u64,
    pub admitted: bool,
    pub transcript: Vec<Control0081CommandTranscriptRow>,
}

/// The report frame: identity and the guardrail flags from the input.
pub open spec fn demo_frame(r: &Demo0081Report, input: &Demo0081Input, disabled: bool) -> bool {
    let s = input.surface;
    let f = input.forbidden;
    &&& r.demo_id == DEMO_0080_1_ID
    &&& r.status == DEMO_0080_1_STATUS_PASS
    &&& r.scenario_name == DEMO_0080_1_SCENARIO
    &&& r.explicit_opt_in == s.gate.explicit_opt_in
    &&& r.default_off == !s.gate.enabled_by_default
    &&& r.disabled_no_op == disabled
    &&& r.no_cli_binary == (!s.cli_binary_present && !f.cli_binary)
    &&& r.no_direct_movement_command == (!s.direct_movement_command && !f.direct_movement_command)
    &&& r.no_external_boundary_request == (!s.external_boundary_request && !f.external_boundary_request)
    &&& r.no_sead_bypass == (!s.sead_bypass && !f.sead_bypass)
    &&& r.no_cpu_planner_or_commitment == !f.cpu_planner_or_commitment
    &&& r.no_player_command_loop == (!s.player_command_loop && !f.player_command_loop)
    &&& r.no_ui_framework == (!s.ui_framework_present && !f.ui_framework)
    &&& r.no_realtime_loop == (!s.realtime_loop_present && !f.realtime_loop)
    &&& r.no_global_default_schedule == (!s.global_default_schedule && !f.global_default_schedule)
    &&& r.no_semantic_or_raw_wgsl == !f.semantic_or_raw_wgsl
    &&& r.no_new_shader_or_gpu_kernel == !f.new_shader_or_gpu_kernel
    &&& r.no_hard_currency_markets_trade_aibudget == !f.hard_currency_markets_trade_aibudget
    &&& r.no_nested_resource_flow == !f.nested_resource_flow
    &&& r.no_clausething_dependency == !f.clausething_dependency
    &&& r.control_id == CONTROL_0080_1_ID
}

/// The report body: what it takes from the control report (`applied`, `checksum`, `admitted`,
/// `transcript`) and from the observation (when one was used).
pub open spec fn demo_body(
    r: &Demo0081Report,
    active: bool,
    applied: u32,
    checksum: u64,
    control_admitted: bool,
    transcript: Seq<Control0081CommandTranscriptRow>,
    obs: Option<&Demo0081Observation>,
) -> bool {
    let t = tally_spec(obs);
    let commands = transcript.map_values(|x: Control0081CommandTranscriptRow| command_row_spec(x));
    let moves = match obs {
        Some(o) => o.rows@.map_values(|x: Demo0081ObservedRow| movement_row_spec(x)),
        None => Seq::empty(),
    };
    &&& r.control_admitted == control_admitted
    &&& r.applied_command_count == applied
    &&& r.command_transcript@ == commands
    &&& r.control_ran_schedule == (active && obs is Some)
    &&& r.executed_step_count == t.0
    &&& r.terran_move_count == t.1
    &&& r.pirate_move_count == t.2
    &&& r.boundary_request_count == t.3
    &&& r.identity_preserved == t.4
    &&& r.owner_overlay_preserved == t.5
    &&& r.membership_updated_without_reparenting == t.6
    &&& r.atlas_residency_summary_present == (match obs { Some(o) => o.atlas_summary_present, None => false })
    &&& r.faction_index_econ_summary_present == (match obs { Some(o) => o.faction_econ_summary_present, None => false })
    &&& r.owner_overlay_summary_present == (match obs { Some(o) => o.owner_overlay_summary_present, None => false })
    &&& r.ownership_up_aggregation_summary_present == (match obs { Some(o) => o.ownership_up_aggregation_summary_present, None => false })
    &&& r.sead_movement_trace_present == (match obs { Some(o) => o.sead_movement_trace_included, None => false })
    &&& r.movement_rows@ == moves
    &&& r.demo_text_export@ == (if active {
        move_lines(command_lines(header_line(applied, t.0, t.1, t.2, t.4, t.5, checksum), commands), moves)
    } else {
        Seq::empty()
    })
    &&& r.deterministic_replay_checksum == fnv_whole_words(FNV_OFFSET_BASIS, demo_words(r))
}

/// Whether the control layer admits `ci` with its gate open, no refused command, and a batch
/// that asks for the observed scenario.
pub open spec fn control_uses_observation(ci: &Control0081AdmissionInput) -> bool {
    admission_diagnostics(ci).len() == 0 && ci.surface.gate.explicit_opt_in
        && fold_rejected(ci.commands.commands@).len() == 0 && asks_observation(ci.commands.commands@)
}

/// What the demo reads of the control report of `ci`, completed with `obs` when it asks for the
/// observation: applied count, replay checksum, whether it was admitted (and not a no-op), and its
/// transcript (without the stamped checksums, which the demo drops).
pub open spec fn control_view_spec(
    ci: &Control0081AdmissionInput,
    obs: &Demo0081Observation,
) -> (u32, u64, bool, Seq<Control0081CommandTranscriptRow>) {
    let cmds = ci.commands.commands@;
    let start = command_start(ci);
    let end = fold_state(cmds, start);
    let refused = fold_rejected(cmds);
    if admission_diagnostics(ci).len() > 0 {
        (0, checksum_of(false, 0, 0, ci.base_schedule_input, initial_config(), 0, Seq::empty()), false, Seq::empty())
    } else if !ci.surface.gate.explicit_opt_in {
        (0, 0, false, Seq::empty())
    } else if refused.len() > 0 {
        (0, checksum_of(false, 0, refused.len(), end.0, end.1, 0, Seq::empty()), false, fold_transcript(cmds, start))
    } else {
        let applied = saturate_u32(accepted_count(cmds));
        let used = asks_observation(cmds);
        (
            applied,
            checksum_of(
                true,
                applied,
                0,
                end.0,
                end.1,
                if used { obs.replay_checksum } else { 0 },
                if used && asks_export(cmds) { obs.text_export@ } else { Seq::<char>::empty() },
            ),
            true,
            fold_transcript(cmds, start),
        )
    }
}

/// Dropping the stamped checksum makes stamping invisible to the demo rows.
proof fn lemma_demo_rows_ignore_stamp(rows: Seq<Control0081CommandTranscriptRow>, c: u64)
    ensures
        stamped(rows, c).map_values(|x: Control0081CommandTranscriptRow| command_row_spec(x))
            == rows.map_values(|x: Control0081CommandTranscriptRow| command_row_spec(x)),
{
    assert(stamped(rows, c).map_values(|x: Control0081CommandTranscriptRow| command_row_spec(x))
        =~= rows.map_values(|x: Control0081CommandTranscriptRow| command_row_spec(x)));
}

/// A report with the given outcome.
#[verifier::rlimit(40)]
fn base_report(
    input: &Demo0081Input,
    admitted: bool,
    diagnostics: Vec<&'static str>,
    disabled: bool,
    applied: u32,
    checksum: u64,
    control_admitted: bool,
    transcript: &Vec<Control0081CommandTranscriptRow>,
    obs: Option<&Demo0081Observation>,
) -> (r: Demo0081Report)
    requires
        match obs { Some(o) => o.rows@.len() < u32::MAX, None => true },
    ensures
        demo_frame(&r, input, disabled),
        r.admitted == admitted,
        r.diagnostics@ == diagnostics@,
        demo_body(&r, !disabled && input.surface.gate.explicit_opt_in, applied, checksum, control_admitted, transcript@, obs),
{
    let active = !disabled && input.surface.gate.explicit_opt_in;
    let t = tally_observation(obs);
    let command_rows = build_command_rows(transcript);
    let movement_rows = match obs {
        Some(o) => build_movement_rows(&o.rows),
        None => Vec::new(),
    };
    let text = if active {
        render_demo_export(
            (applied, t.executed_step_count, t.terran_move_count, t.pirate_move_count, t.identity_preserved, t.owner_overlay_preserved, checksum),
            &command_rows,
            &movement_rows,
        )
    } else {
        String::new()
    };
    let (atlas, econ, owner, up_agg, sead) = match obs {
        Some(o) => (o.atlas_summary_present, o.faction_econ_summary_present, o.owner_overlay_summary_present,
            o.ownership_up_aggregation_summary_present, o.sead_movement_trace_included),
        None => (false, false, false, false, false),
    };
    let s = &input.surface;
    let f = &input.forbidden;
    let mut report = Demo0081Report {
        demo_id: DEMO_0080_1_ID,
        status: DEMO_0080_1_STATUS_PASS,
        scenario_name: DEMO_0080_1_SCENARIO,
        admitted,
        diagnostics,
        explicit_opt_in: s.gate.explicit_opt_in,
        default_off: !s.gate.enabled_by_default,
        disabled_no_op: disabled,
        no_cli_binary: !s.cli_binary_present && !f.cli_binary,
        no_direct_movement_command: !s.direct_movement_command && !f.direct_movement_command,
        no_external_boundary_request: !s.external_boundary_request && !f.external_boundary_request,
        no_sead_bypass: !s.sead_bypass && !f.sead_bypass,
        no_cpu_planner_or_commitment: !f.cpu_planner_or_commitment,
        no_player_command_loop: !s.player_command_loop && !f.player_command_loop,
        no_ui_framework: !s.ui_framework_present && !f.ui_framework,
        no_realtime_loop: !s.realtime_loop_present && !f.realtime_loop,
        no_global_default_schedule: !s.global_default_schedule && !f.global_default_schedule,
        no_semantic_or_raw_wgsl: !f.semantic_or_raw_wgsl,
        no_new_shader_or_gpu_kernel: !f.new_shader_or_gpu_kernel,
        no_hard_currency_markets_trade_aibudget: !f.hard_currency_markets_trade_aibudget,
        no_nested_resource_flow: !f.nested_resource_flow,
        no_clausething_dependency: !f.clausething_dependency,
        control_id: CONTROL_0080_1_ID,
        control_admitted,
        applied_command_count: applied,
        command_transcript: command_rows,
        control_ran_schedule: active && obs.is_some(),
        executed_step_count: t.executed_step_count,
        terran_move_count: t.terran_move_count,
        pirate_move_count: t.pirate_move_count,
        boundary_request_count: t.boundary_request_count,
        identity_preserved: t.identity_preserved,
        owner_overlay_preserved: t.owner_overlay_preserved,
        membership_updated_without_reparenting: t.membership_updated_without_reparenting,
        atlas_residency_summary_present: atlas,
        faction_index_econ_summary_present: econ,
        owner_overlay_summary_present: owner,
        ownership_up_aggregation_summary_present: up_agg,
        sead_movement_trace_present: sead,
        movement_rows,
        demo_text_export: text,
        deterministic_replay_checksum: 0,
    };
    report.deterministic_replay_checksum = checksum_demo(&report);
    report
}

/// What `run_demo_0080_1` returns for `input` and `observation`.
pub open spec fn run_demo_0080_1_post(input: &Demo0081Input, observation: &Demo0081Observation, r: Demo0081Report) -> bool {
    &&& demo_diagnostics(input).len() > 0 ==> {
        &&& demo_frame(&r, input, false)
        &&& !r.admitted
        &&& r.diagnostics@ == demo_diagnostics(input)
        &&& demo_body(&r, input.surface.gate.explicit_opt_in, 0, 0, false, Seq::empty(), None)
    }
    &&& demo_diagnostics(input).len() == 0 && !input.surface.gate.explicit_opt_in ==> {
        &&& demo_frame(&r, input, true)
        &&& r.admitted
        &&& r.diagnostics@.len() == 0
        &&& demo_body(&r, false, 0, 0, false, Seq::empty(), None)
    }
    &&& demo_diagnostics(input).len() == 0 && input.surface.gate.explicit_opt_in ==> {
        let v = control_view_spec(&input.control_input, observation);
        &&& demo_frame(&r, input, false)
        &&& r.admitted
        &&& r.diagnostics@.len() == 0
        &&& demo_body(&r, true, v.0, v.1, v.2, v.3,
            if control_uses_observation(&input.control_input) { Some(observation) } else { None })
    }
}

/// Runs the headless Nested Starmap demo: admits the control input and, when the admitted batch
/// asks for the observed scenario, completes it with `observation`.
///
/// Demo diagnostics refuse the input and a closed gate is a no-op (both with an empty control
/// view; an opted-in refused input still renders its header). Otherwise the report carries the
/// control view of `control_view_spec`, the observation's tally and rows when it was used, the
/// text export and the whole-word checksum.
pub fn run_demo_0080_1(input: &Demo0081Input, observation: &Demo0081Observation) -> (r: Demo0081Report)
    requires
        observation.rows@.len() < u32::MAX,
    ensures
        run_demo_0080_1_post(input, observation, r),
{
    let mut diagnostics: Vec<&'static str> = Vec::new();
    validate_surface(&input.surface, &mut diagnostics);
    validate_forbidden(&input.forbidden, &mut diagnostics);
    let empty: Vec<Control0081CommandTranscriptRow> = Vec::new();
    if diagnostics.len() > 0 {
        return base_report(input, false, diagnostics, false, 0, 0, false, &empty, None);
    }
    if !input.surface.gate.explicit_opt_in {
        return base_report(input, true, diagnostics, true, 0, 0, false, &empty, None);
    }
    let (applied, checksum, control_admitted, transcript, used) = run_control(&input.control_input, observation);
    let obs = if used { Some(observation) } else { None };
    base_report(input, true, diagnostics, false, applied, checksum, control_admitted, &transcript, obs)
}

/// Admits the control input and completes it with the observation when it asks for one.
fn run_control(ci: &Control0081AdmissionInput, observation: &Demo0081Observation) -> (r: (u32, u64, bool, Vec<Control0081CommandTranscriptRow>, bool))
    ensures
        r.0 == control_view_spec(ci, observation).0,
        r.1 == control_view_spec(ci, observation).1,
        r.2 == control_view_spec(ci, observation).2,
        r.3@.map_values(|x: Control0081CommandTranscriptRow| command_row_spec(x))
            == control_view_spec(ci, observation).3.map_values(|x: Control0081CommandTranscriptRow| command_row_spec(x)),
        r.4 == control_uses_observation(ci),
{
    let admitted_control = admit_control_0080_1(ci);
    proof {
        assert(admitted_control.text_export@ =~= Seq::<char>::empty());
    }
    let used = admitted_control.observation_pending;
    let control = if used {
        complete_control_0080_1(admitted_control, observation.replay_checksum, observation.text_export.clone())
    } else {
        admitted_control
    };
    proof {
        lemma_demo_rows_ignore_stamp(fold_transcript(ci.commands.commands@, command_start(ci)), control.deterministic_replay_checksum);
        if !used {
            assert(control.text_export@ =~= Seq::<char>::empty());
        }
        if admission_diagnostics(ci).len() > 0 || !ci.surface.gate.explicit_opt_in {
            assert(control.command_transcript@ =~= Seq::<Control0081CommandTranscriptRow>::empty());
        }
    }
    let control_admitted = control.admitted && !control.disabled_no_op;
    (control.applied_command_count, control.deterministic_replay_checksum, control_admitted, control.command_transcript, used)
}

/// Runs the opted-in demo twice against the same observation.
pub fn replay_demo_0080_1(observation: &Demo0081Observation) -> (r: (Demo0081Report, Demo0081Report))
    requires
        observation.rows@.len() < u32::MAX,
    ensures
        r.0.admitted == r.1.admitted,
        r.0.command_transcript@ == r.1.command_transcript@,
        r.0.movement_rows@ == r.1.movement_rows@,
        r.0.demo_text_export@ == r.1.demo_text_export@,
        r.0.deterministic_replay_checksum == r.1.deterministic_replay_checksum,
        exists|input: Demo0081Input| #![trigger canonical_demo_input(input)]
            canonical_demo_input(input) && run_demo_0080_1_post(&input, observation, r.0),
{
    let input = Demo0081Input::explicit_opt_in();
    let a = run_demo_0080_1(&input, observation);
    let b = run_demo_0080_1(&input, observation);
    proof {
        assert(demo_words(&a) =~= demo_words(&b));
        assert(canonical_demo_input(input) && run_demo_0080_1_post(&input, observation, a));
    }
    (a, b)
}

} // verus!
