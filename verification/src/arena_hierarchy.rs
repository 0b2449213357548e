//! Arena hierarchy band layout: the OrderBand schedule of a nested
//! resource-flow arena of a given depth.
use vstd::prelude::*;

verus! {

/// Tree id under which the child-share formula is registered (one per session).
pub const CHILD_SHARE_FORMULA_TREE_ID: u32 = 0xE11_0001;

/// `min(x, u32::MAX)`: the value a saturating `u32` operation produces.
pub open spec fn sat_u32(x: int) -> u32 {
    if x > u32::MAX { u32::MAX } else if x < 0 { 0 } else { x as u32 }
}

/// `total_bands(D) = 3·D − 1`, saturating at both ends of the `u32` range.
pub open spec fn spec_total_bands(max_depth: u32) -> u32 {
    sat_u32(sat_u32(3 * max_depth) - 1)
}

/// Integration band index `D + 2·(D − 1) = 3·D − 2` (with `D − 1` floored at 0).
pub open spec fn spec_integration_band(max_depth: u32) -> u32 {
    sat_u32(max_depth + 2 * sat_u32(max_depth - 1))
}

/// Count of OrderBand indices `0 ..= integration_band` for an arena of depth `max_depth`.
pub fn total_bands_for_depth(max_depth: u32) -> (r: u32)
    ensures
        r == spec_total_bands(max_depth),
        max_depth >= 1 && max_depth <= 0x5555_5555 ==> r == 3 * max_depth - 1,
{
    let tripled: u32 = if max_depth > u32::MAX / 3 { u32::MAX } else { 3 * max_depth };
    tripled.saturating_sub(1)
}

/// Integration band index of an arena of depth `max_depth`.
pub fn integration_band_for_depth(max_depth: u32) -> (r: u32)
    requires
        max_depth <= 0x8000_0000,
    ensures
        r == spec_integration_band(max_depth),
        max_depth >= 1 && max_depth <= 0x5555_5555 ==> r == 3 * max_depth - 2,
{
    max_depth.saturating_add(2 * max_depth.saturating_sub(1))
}

/// Band schedule of one arena: reset, upsweep phase, downsweep phase, integration.
#[derive(Clone, Copy, Debug, PartialEq, Eq)]
pub struct ArenaBandLayout {
    pub reset_band: u32,
    pub upsweep_band_base: u32,
    pub upsweep_band_count: u32,
    pub downsweep_band_base: u32,
    pub downsweep_band_count: u32,
    pub integration_band: u32,
    pub total_bands_used: u32,
}

/// Number of extra bands a residual-closure pass adds (only for nested arenas).
pub open spec fn spec_residual_bands(max_depth: u32, has_residual_closure: bool) -> u32 {
    if has_residual_closure && max_depth > 1 { 4 } else { 0 }
}

/// The layout `for_depth_with_residual_closure` builds.
pub open spec fn spec_band_layout(max_depth: u32, has_residual_closure: bool) -> ArenaBandLayout {
    let total = spec_total_bands(max_depth);
    let base_integration = if max_depth <= 1 {
        sat_u32(total - 1)
    } else {
        spec_integration_band(max_depth)
    };
    let residual = spec_residual_bands(max_depth, has_residual_closure);
    ArenaBandLayout {
        reset_band: 0,
        upsweep_band_base: 1,
        upsweep_band_count: sat_u32(max_depth - 1),
        downsweep_band_base: max_depth,
        downsweep_band_count: (2 * sat_u32(max_depth - 1)) as u32,
        integration_band: sat_u32(base_integration + residual),
        total_bands_used: sat_u32(total + residual),
    }
}

impl ArenaBandLayout {
    /// Layout of an arena of depth `max_depth` without residual closure.
    pub fn for_depth(max_depth: u32) -> (r: Self)
        requires
            max_depth <= 0x8000_0000,
        ensures
            r == spec_band_layout(max_depth, false),
    {
        Self::for_depth_with_residual_closure(max_depth, false)
    }

    /// Layout of an arena of depth `max_depth`; a residual closure on a nested arena
    /// appends four bands before integration.
    pub fn for_depth_with_residual_closure(max_depth: u32, has_residual_closure: bool) -> (r: Self)
        requires
            max_depth <= 0x8000_0000,
        ensures
            r == spec_band_layout(max_depth, has_residual_closure),
    {
        let total = total_bands_for_depth(max_depth);
        let base_integration = if max_depth <= 1 {
            total.saturating_sub(1)
        } else {
            integration_band_for_depth(max_depth)
        };
        let residual_bands: u32 = if has_residual_closure && max_depth > 1 { 4 } else { 0 };
        let integration = base_integration.saturating_add(residual_bands);
        ArenaBandLayout {
            reset_band: 0,
            upsweep_band_base: 1,
            upsweep_band_count: max_depth.saturating_sub(1),
            downsweep_band_base: max_depth,
            downsweep_band_count: 2 * max_depth.saturating_sub(1),
            integration_band: integration,
            total_bands_used: total.saturating_add(residual_bands),
        }
    }

    /// Band in which a parent at `parent_depth` broadcasts its budget downward.
    pub fn broadcast_band(&self, parent_depth: u32, max_depth: u32) -> (r: u32)
        requires
            parent_depth <= 0x7FFF_FFFF,
        ensures
            r == sat_u32(max_depth + 2 * parent_depth),
    {
        max_depth.saturating_add(2 * parent_depth)
    }

    /// Band in which a parent at `parent_depth` disburses to its children (the band after broadcast).
    pub fn disburse_band(&self, parent_depth: u32, max_depth: u32) -> (r: u32)
        requires
            parent_depth <= 0x7FFF_FFFF,
        ensures
            r == sat_u32(sat_u32(max_depth + 2 * parent_depth) + 1),
    {
        self.broadcast_band(parent_depth, max_depth).saturating_add(1)
    }

    /// Band in which the children of a parent at `parent_depth` are summed upward
    /// (deepest parents first).
    pub fn upsweep_band(&self, parent_depth: u32, max_depth: u32) -> (r: u32)
        ensures
            r == sat_u32(sat_u32(max_depth - 1) - parent_depth),
    {
        max_depth.saturating_sub(1).saturating_sub(parent_depth)
    }
}

/// Phase ordering of a nested arena: for every parent depth `p < D − 1`, its upsweep band
/// lies in the upsweep phase, its broadcast and disburse bands lie in the downsweep phase
/// (disburse right after broadcast), and every one of them comes before the integration band.
pub proof fn lemma_parent_bands_within_phases(max_depth: u32, parent_depth: u32, has_residual_closure: bool)
    requires
        2 <= max_depth <= 0x2000_0000,
        parent_depth < max_depth - 1,
    ensures
        ({
            let l = spec_band_layout(max_depth, has_residual_closure);
            let up = sat_u32(sat_u32(max_depth - 1) - parent_depth);
            let bc = sat_u32(max_depth + 2 * parent_depth);
            let db = sat_u32(bc + 1);
            &&& l.reset_band < l.upsweep_band_base
            &&& l.upsweep_band_base <= up < l.upsweep_band_base + l.upsweep_band_count
            &&& l.upsweep_band_base + l.upsweep_band_count == l.downsweep_band_base
            &&& l.downsweep_band_base <= bc
            &&& db == bc + 1
            &&& db < l.downsweep_band_base + l.downsweep_band_count
            &&& l.downsweep_band_base + l.downsweep_band_count <= l.integration_band
            &&& l.integration_band < l.total_bands_used
        }),
{
}

/// Summary of a static nested hierarchy materialization: depth, root and edge counts, and the
/// band layout it uses.
#[derive(Clone, Debug, PartialEq, Eq)]
pub struct NestedHierarchyMaterializationReport {
    pub max_depth: u32,
    pub participant_root_count: usize,
    pub total_bands: u32,
    pub integration_band: u32,
    pub resource_parent_edge_count: usize,
}

/// The phases follow each other without gaps: reset at band 0, then `D − 1` upsweep bands,
/// then two downsweep bands per parent depth. Integration is the last band of the layout, and it
/// comes right after the downsweep phase
/// — after four more bands exactly when a residual closure runs on a nested arena (the
/// residual bands sit between the downsweep phase and integration).
pub proof fn lemma_integration_closes_the_layout(max_depth: u32, has_residual_closure: bool)
    requires
        1 <= max_depth <= 0x2000_0000,
    ensures
        ({
            let l = spec_band_layout(max_depth, has_residual_closure);
            &&& l.reset_band == 0 && l.upsweep_band_base == l.reset_band + 1
            &&& l.upsweep_band_count == max_depth - 1
            &&& l.downsweep_band_base == l.upsweep_band_base + l.upsweep_band_count
            &&& l.downsweep_band_count == 2 * l.upsweep_band_count
            &&& l.integration_band + 1 == l.total_bands_used
            &&& l.integration_band == l.downsweep_band_base + l.downsweep_band_count
                + (if has_residual_closure && max_depth > 1 { 4int } else { 0int })
            &&& l.total_bands_used == spec_band_layout(max_depth, false).total_bands_used
                + (if has_residual_closure && max_depth > 1 { 4int } else { 0int })
        }),
{
}

} // verus!
