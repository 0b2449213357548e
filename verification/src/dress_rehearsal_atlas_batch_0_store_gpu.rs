//! Adapter-name matching and the parity report text of the GPU store tier.
//!
//! Running the GPU tier itself is not part of this library.
use crate::decimal_text::{decimal_nat, push_decimal_u64, push_text};
use crate::dress_rehearsal_atlas_batch_0_store::StoreKey;
use std::collections::HashMap;
use vstd::prelude::*;
use vstd::string::StrSliceExecFns;

verus! {

/// Code of a character after ASCII lowercasing (`A`–`Z` map to `a`–`z`, everything else stays).
pub open spec fn lower_code(c: char) -> u32 {
    if 65 <= (c as u32) && (c as u32) <= 90 { ((c as u32) + 32) as u32 } else { c as u32 }
}

/// Codes of a text after ASCII lowercasing.
pub open spec fn lower_codes(s: Seq<char>) -> Seq<u32> {
    s.map_values(|c: char| lower_code(c))
}

/// `p` occurs in `s` at position `i`.
pub open spec fn codes_at(s: Seq<u32>, p: Seq<u32>, i: int) -> bool {
    0 <= i && i + p.len() <= s.len() && s.subrange(i, i + p.len()) == p
}

/// `p` occurs in `s`, ignoring ASCII case.
pub open spec fn contains_ignoring_case(s: Seq<char>, p: Seq<char>) -> bool {
    exists|i: int| #[trigger] codes_at(lower_codes(s), lower_codes(p), i)
}

fn lower(c: char) -> (r: u32)
    ensures
        r == lower_code(c),
{
    let code = c as u32;
    if 65 <= code && code <= 90 { code + 32 } else { code }
}

fn codes_match_at(s: &str, p: &str, i: usize, slen: usize, plen: usize) -> (r: bool)
    requires
        slen == s@.len(),
        plen == p@.len(),
        i + plen <= slen,
    ensures
        r == codes_at(lower_codes(s@), lower_codes(p@), i as int),
{
    let ghost ls = lower_codes(s@);
    let ghost lp = lower_codes(p@);
    let mut k: usize = 0;
    while k < plen
        invariant
            slen == s@.len(),
            plen == p@.len(),
            i + plen <= slen,
            ls == lower_codes(s@),
            lp == lower_codes(p@),
            k <= plen,
            forall|j: int| 0 <= j < k ==> ls[i + j] == lp[j],
        decreases plen - k,
    {
        if lower(s.get_char(i + k)) != lower(p.get_char(k)) {
            proof {
                assert(ls.subrange(i as int, i + plen)[k as int] != lp[k as int]);
            }
            return false;
        }
        k = k + 1;
    }
    proof {
        assert(ls.subrange(i as int, i + plen) =~= lp);
    }
    true
}

/// Whether `substring` occurs in `adapter_name`, ignoring ASCII case.
pub fn adapter_name_matches_substring(adapter_name: &str, substring: &str) -> (r: bool)
    ensures
        r == contains_ignoring_case(adapter_name@, substring@),
{
    let slen = adapter_name.unicode_len();
    let plen = substring.unicode_len();
    if plen > slen {
        proof {
            assert forall|i: int| !#[trigger] codes_at(lower_codes(adapter_name@), lower_codes(substring@), i) by {}
        }
        return false;
    }
    let last = slen - plen;
    let mut i: usize = 0;
    while i < last
        invariant
            slen == adapter_name@.len(),
            plen == substring@.len(),
            last == slen - plen,
            i <= last,
            forall|j: int| 0 <= j < i ==> !#[trigger] codes_at(lower_codes(adapter_name@), lower_codes(substring@), j),
        decreases last - i,
    {
        if codes_match_at(adapter_name, substring, i, slen, plen) {
            return true;
        }
        i = i + 1;
    }
    if codes_match_at(adapter_name, substring, last, slen, plen) {
        return true;
    }
    proof {
        assert forall|j: int| !#[trigger] codes_at(lower_codes(adapter_name@), lower_codes(substring@), j) by {
            if 0 <= j < last {
            }
        }
    }
    false
}

/// An Intel integrated adapter: its name mentions intel, raptorlake, iris, uhd or arc(tm).
pub open spec fn is_intel_name(name: Seq<char>) -> bool {
    contains_ignoring_case(name, "intel"@) || contains_ignoring_case(name, "raptorlake"@)
        || contains_ignoring_case(name, "iris"@) || contains_ignoring_case(name, "uhd"@)
        || contains_ignoring_case(name, "arc(tm)"@)
}

/// Whether the adapter is an Intel integrated part.
pub fn adapter_name_is_intel(adapter_name: &str) -> (r: bool)
    ensures
        r == is_intel_name(adapter_name@),
{
    adapter_name_matches_substring(adapter_name, "intel")
        || adapter_name_matches_substring(adapter_name, "raptorlake")
        || adapter_name_matches_substring(adapter_name, "iris")
        || adapter_name_matches_substring(adapter_name, "uhd")
        || adapter_name_matches_substring(adapter_name, "arc(tm)")
}

/// Whether the adapter is the discrete RTX target: not Intel, and naming nvidia, rtx or 4080.
pub fn adapter_name_is_discrete_rtx_target(adapter_name: &str) -> (r: bool)
    ensures
        r == (!is_intel_name(adapter_name@) && (contains_ignoring_case(adapter_name@, "nvidia"@)
            || contains_ignoring_case(adapter_name@, "rtx"@) || contains_ignoring_case(adapter_name@, "4080"@))),
{
    if adapter_name_is_intel(adapter_name) {
        return false;
    }
    adapter_name_matches_substring(adapter_name, "nvidia")
        || adapter_name_matches_substring(adapter_name, "rtx")
        || adapter_name_matches_substring(adapter_name, "4080")
}

/// Which adapter the GPU tier selected, and how it matched the request.
#[derive(Clone, Debug, PartialEq)]
pub struct StoreGpuAdapterSelection {
    pub adapter_inventory: Vec<String>,
    pub requested_adapter_substring: Option<String>,
    pub require_adapter_match: bool,
    pub selected_adapter_name: String,
    pub adapter_target_matched: bool,
    pub selected_adapter_is_discrete_rtx: bool,
}

/// Outcome of the GPU store parity check.
#[derive(Clone, Debug, PartialEq)]
pub struct StoreGpuParityReport {
    pub adapter_selection: StoreGpuAdapterSelection,
    pub adapter_name: String,
    pub device_name: String,
    pub cpu_oracle_entry_count: usize,
    pub gpu_output_entry_count: usize,
    pub bit_exact_matches: usize,
    pub bit_exact_mismatches: usize,
    pub parity_standard: &'static str,
    pub ec_a3_gpu_closed: bool,
    pub ten_pirate_shared_cell_ok: bool,
    pub constructed_co_location_ok: bool,
    pub owner_channel_no_blind_sum_ok: bool,
}

/// Slot layout of the GPU store fixture.
pub struct StoreGpuFixtureLayout {
    pub n_contrib_slots: u32,
    pub n_target_slots: u32,
    pub key_to_target_slot: HashMap<StoreKey, u32>,
    pub contrib_slot_for: HashMap<(String, StoreKey), u32>,
}

/// `true` or `false`, as `{}` renders a `bool`.
pub open spec fn bool_text(b: bool) -> Seq<char> {
    if b { "true"@ } else { "false"@ }
}

/// The names joined by `", "`.
pub open spec fn joined(names: Seq<Seq<char>>) -> Seq<char>
    decreases names.len(),
{
    if names.len() == 0 {
        Seq::empty()
    } else if names.len() == 1 {
        names[0]
    } else {
        joined(names.drop_last()) + ", "@ + names.last()
    }
}

fn push_bool(out: &mut String, b: bool)
    ensures
        final(out)@ == old(out)@ + bool_text(b),
{
    if b {
        push_text(out, "true");
    } else {
        push_text(out, "false");
    }
}

fn push_joined(out: &mut String, names: &Vec<String>)
    ensures
        final(out)@ == old(out)@ + joined(names@.map_values(|s: String| s@)),
{
    let ghost start = out@;
    let ghost views = names@.map_values(|s: String| s@);
    let mut k: usize = 0;
    while k < names.len()
        invariant
            k <= names@.len(),
            views == names@.map_values(|s: String| s@),
            out@ == start + joined(views.take(k as int)),
        decreases names@.len() - k,
    {
        proof {
            assert(views.take(k + 1).drop_last() =~= views.take(k as int));
            assert(views.take(k + 1).last() == names@[k as int]@);
        }
        if k > 0 {
            push_text(out, ", ");
        } else {
            proof { assert(views.take(1) =~= seq![names@[0]@]); }
        }
        push_text(out, names[k].as_str());
        k = k + 1;
    }
    proof { assert(views.take(views.len() as int) =~= views); }
}

/// The parity report text, one `name: value` line per item.
pub open spec fn parity_report_text(r: StoreGpuParityReport, gpu_tier_ran: bool) -> Seq<char> {
    let sel = r.adapter_selection;
    "requested_adapter_substring: "@ + (match sel.requested_adapter_substring {
        Some(s) => s@,
        None => "<none>"@,
    }) + "\n"@ + "require_adapter_match: "@ + bool_text(sel.require_adapter_match)
        + "\n"@ + "adapter_inventory: ["@ + joined(sel.adapter_inventory@.map_values(|s: String| s@)) + "]"@
        + "\n"@ + "selected_adapter_name: "@ + sel.selected_adapter_name@
        + "\n"@ + "adapter_target_matched: "@ + bool_text(sel.adapter_target_matched)
        + "\n"@ + "selected_adapter_is_discrete_rtx: "@ + bool_text(sel.selected_adapter_is_discrete_rtx)
        + "\n"@ + "adapter/device: "@ + r.adapter_name@
        + "\n"@ + "device_name: "@ + r.device_name@
        + "\n"@ + "gpu_tier_ran: "@ + bool_text(gpu_tier_ran)
        + "\n"@ + "cpu_oracle_entry_count: "@ + decimal_nat(r.cpu_oracle_entry_count as nat)
        + "\n"@ + "gpu_output_entry_count: "@ + decimal_nat(r.gpu_output_entry_count as nat)
        + "\n"@ + "co-location cases tested:"@
        + "\n"@ + "  ten_pirate_shared_cell: "@ + bool_text(r.ten_pirate_shared_cell_ok)
        + "\n"@ + "  constructed_planet_patrol_pirate: "@ + bool_text(r.constructed_co_location_ok)
        + "\n"@ + "parity_standard: "@ + r.parity_standard@
        + "\n"@ + "exact_match: "@ + decimal_nat(r.bit_exact_matches as nat) + "/"@
            + decimal_nat(r.cpu_oracle_entry_count as nat) + " entries bit-exact; mismatches="@
            + decimal_nat(r.bit_exact_mismatches as nat)
        + "\n"@ + "owner_channel_leakage_checks: blind_sum_guard="@ + bool_text(r.owner_channel_no_blind_sum_ok)
        + "\n"@ + "EC-A3-gpu_closed: "@ + bool_text(r.ec_a3_gpu_closed && gpu_tier_ran)
        + "\n"@ + "skipped_gpu_tests: none (tier ran)"@
}

/// Renders the parity report, one line per item.
#[verifier::rlimit(80)]
pub fn format_parity_report(report: &StoreGpuParityReport, gpu_tier_ran: bool) -> (r: String)
    ensures
        r@ == parity_report_text(*report, gpu_tier_ran),
{
    let sel = &report.adapter_selection;
    let mut out = String::new();
    push_text(&mut out, "requested_adapter_substring: ");
    match &sel.requested_adapter_substring {
        Some(s) => push_text(&mut out, s.as_str()),
        None => push_text(&mut out, "<none>"),
    }
    push_text(&mut out, "\n");
    push_text(&mut out, "require_adapter_match: ");
    push_bool(&mut out, sel.require_adapter_match);
    push_text(&mut out, "\n");
    push_text(&mut out, "adapter_inventory: [");
    push_joined(&mut out, &sel.adapter_inventory);
    push_text(&mut out, "]");
    push_text(&mut out, "\n");
    push_text(&mut out, "selected_adapter_name: ");
    push_text(&mut out, sel.selected_adapter_name.as_str());
    push_text(&mut out, "\n");
    push_text(&mut out, "adapter_target_matched: ");
    push_bool(&mut out, sel.adapter_target_matched);
    push_text(&mut out, "\n");
    push_text(&mut out, "selected_adapter_is_discrete_rtx: ");
    push_bool(&mut out, sel.selected_adapter_is_discrete_rtx);
    push_text(&mut out, "\n");
    push_text(&mut out, "adapter/device: ");
    push_text(&mut out, report.adapter_name.as_str());
    push_text(&mut out, "\n");
    push_text(&mut out, "device_name: ");
    push_text(&mut out, report.device_name.as_str());
    push_text(&mut out, "\n");
    push_text(&mut out, "gpu_tier_ran: ");
    push_bool(&mut out, gpu_tier_ran);
    push_text(&mut out, "\n");
    push_text(&mut out, "cpu_oracle_entry_count: ");
    push_decimal_u64(&mut out, report.cpu_oracle_entry_count as u64);
    push_text(&mut out, "\n");
    push_text(&mut out, "gpu_output_entry_count: ");
    push_decimal_u64(&mut out, report.gpu_output_entry_count as u64);
    push_text(&mut out, "\n");
    push_text(&mut out, "co-location cases tested:");
    push_text(&mut out, "\n");
    push_text(&mut out, "  ten_pirate_shared_cell: ");
    push_bool(&mut out, report.ten_pirate_shared_cell_ok);
    push_text(&mut out, "\n");
    push_text(&mut out, "  constructed_planet_patrol_pirate: ");
    push_bool(&mut out, report.constructed_co_location_ok);
    push_text(&mut out, "\n");
    push_text(&mut out, "parity_standard: ");
    push_text(&mut out, report.parity_standard);
    push_text(&mut out, "\n");
    push_text(&mut out, "exact_match: ");
    push_decimal_u64(&mut out, report.bit_exact_matches as u64);
    push_text(&mut out, "/");
    push_decimal_u64(&mut out, report.cpu_oracle_entry_count as u64);
    push_text(&mut out, " entries bit-exact; mismatches=");
    push_decimal_u64(&mut out, report.bit_exact_mismatches as u64);
    push_text(&mut out, "\n");
    push_text(&mut out, "owner_channel_leakage_checks: blind_sum_guard=");
    push_bool(&mut out, report.owner_channel_no_blind_sum_ok);
    push_text(&mut out, "\n");
    push_text(&mut out, "EC-A3-gpu_closed: ");
    push_bool(&mut out, report.ec_a3_gpu_closed && gpu_tier_ran);
    push_text(&mut out, "\n");
    push_text(&mut out, "skipped_gpu_tests: none (tier ran)");
    out
}


/// Why the selected adapter is refused for the GPU store tier.
#[derive(Clone, Debug, PartialEq, Eq)]
pub enum AdapterSelectionError {
    /// The selected adapter is an Intel integrated GPU.
    IntelAdapter { selected_adapter_name: String },
    /// The selected adapter is not the discrete RTX/NVIDIA target.
    NotDiscreteRtx { selected_adapter_name: String },
    /// A match was required and the selected adapter does not contain the requested substring.
    TargetMismatch { requested_adapter_substring: Option<String>, selected_adapter_name: String },
}

/// Whether the selected adapter contains the requested substring (ignoring case), or nothing
/// was requested.
pub open spec fn target_matched(requested: Option<String>, selected: Seq<char>) -> bool {
    match requested {
        Some(sub) => contains_ignoring_case(selected, sub@),
        None => true,
    }
}

/// Whether `name` is the discrete RTX target.
pub open spec fn is_discrete_rtx_name(name: Seq<char>) -> bool {
    !is_intel_name(name) && (contains_ignoring_case(name, "nvidia"@) || contains_ignoring_case(name, "rtx"@)
        || contains_ignoring_case(name, "4080"@))
}

/// Decides the adapter selection of the GPU store tier from the adapter inventory, the requested
/// adapter substring, whether a match is required, and the selected adapter's name: an Intel
/// adapter is refused, then one that is not the discrete RTX target, then (when a match is
/// required) one that does not contain the requested substring; otherwise the selection is
/// recorded.
pub fn decide_adapter_selection(
    adapter_inventory: Vec<String>,
    requested_adapter_substring: Option<String>,
    require_adapter_match: bool,
    selected_adapter_name: String,
) -> (r: Result<StoreGpuAdapterSelection, AdapterSelectionError>)
    ensures
        is_intel_name(selected_adapter_name@) ==> (r matches Err(AdapterSelectionError::IntelAdapter { selected_adapter_name: n })
            && n@ == selected_adapter_name@),
        !is_intel_name(selected_adapter_name@) && !is_discrete_rtx_name(selected_adapter_name@) ==> (r matches Err(
            AdapterSelectionError::NotDiscreteRtx { selected_adapter_name: n }) && n@ == selected_adapter_name@),
        is_discrete_rtx_name(selected_adapter_name@) && require_adapter_match
            && !target_matched(requested_adapter_substring, selected_adapter_name@) ==> (r matches Err(
            AdapterSelectionError::TargetMismatch { requested_adapter_substring: s, selected_adapter_name: n })
            && s == requested_adapter_substring && n@ == selected_adapter_name@),
        is_discrete_rtx_name(selected_adapter_name@)
            && (!require_adapter_match || target_matched(requested_adapter_substring, selected_adapter_name@)) ==> (r matches Ok(sel)
            && sel.adapter_inventory@ == adapter_inventory@
            && sel.requested_adapter_substring == requested_adapter_substring
            && sel.require_adapter_match == require_adapter_match
            && sel.selected_adapter_name@ == selected_adapter_name@
            && sel.adapter_target_matched == target_matched(requested_adapter_substring, selected_adapter_name@)
            && sel.selected_adapter_is_discrete_rtx),
{
    let matched = match &requested_adapter_substring {
        Some(sub) => adapter_name_matches_substring(selected_adapter_name.as_str(), sub.as_str()),
        None => true,
    };
    let rtx = adapter_name_is_discrete_rtx_target(selected_adapter_name.as_str());
    if adapter_name_is_intel(selected_adapter_name.as_str()) {
        return Err(AdapterSelectionError::IntelAdapter { selected_adapter_name });
    }
    if !rtx {
        return Err(AdapterSelectionError::NotDiscreteRtx { selected_adapter_name });
    }
    if require_adapter_match && !matched {
        return Err(AdapterSelectionError::TargetMismatch { requested_adapter_substring, selected_adapter_name });
    }
    Ok(StoreGpuAdapterSelection {
        adapter_inventory,
        requested_adapter_substring,
        require_adapter_match,
        selected_adapter_name,
        adapter_target_matched: matched,
        selected_adapter_is_discrete_rtx: rtx,
    })
}

} // verus!
