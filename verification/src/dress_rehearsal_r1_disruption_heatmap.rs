//! Integer surface of the R1 galactic disruption heatmap: its gate, session surface, refused
//! requests, the 20×20 row-major galactic grid and the diagnostics that gate a run.
//!
//! The bounded-feedback recurrence itself runs on `f32` values and is not part of this library.
use crate::diagnostics::{flag_diag, push_if};
use crate::dress_rehearsal_atlas_batch_0_gen::Owner;
use vstd::prelude::*;

verus! {

pub const DRESS_REHEARSAL_R1_DISRUPTION_HEATMAP_ID: &'static str = "SCENARIO-0080-2-R1-DISRUPTION-HEATMAP";
pub const DRESS_REHEARSAL_R1_SCENARIO: &'static str = "SCENARIO-0080-2";
pub const GALAXY_SIDE: u32 = 20;
pub const GALAXY_CELL_COUNT: usize = 400;
pub const SYSTEM_COUNT: usize = 13;
pub const HOTSPOT_COUNT: usize = 8;
pub const DISRUPTION_COL: u32 = 0;
pub const LOCATION_STATUS_COL: u32 = 1;

/// Opt-in gate.
#[derive(Clone, Copy, Debug, PartialEq, Eq)]
pub struct DressRehearsalR1Gate {
    pub explicit_opt_in: bool,
    pub enabled_by_default: bool,
}

impl Default for DressRehearsalR1Gate {
    /// Closed gate.
    fn default() -> (r: Self)
        ensures
            !r.explicit_opt_in && !r.enabled_by_default,
    {
        DressRehearsalR1Gate { explicit_opt_in: false, enabled_by_default: false }
    }
}

impl DressRehearsalR1Gate {
    /// Opted in, still not enabled by default.
    pub fn explicit_opt_in() -> (r: Self)
        ensures
            r.explicit_opt_in && !r.enabled_by_default,
    {
        DressRehearsalR1Gate { explicit_opt_in: true, enabled_by_default: false }
    }
}

/// Session surface of the heatmap.
#[derive(Clone, Copy, Debug, PartialEq, Eq)]
pub struct DressRehearsalR1Surface {
    pub gate: DressRehearsalR1Gate,
    pub galactic_gridcell_field_registered: bool,
    pub default_simsession_pass_graph_wiring: bool,
    pub global_default_schedule: bool,
    pub field_policy_movement: bool,
    pub gradientxy_consumption: bool,
    pub recursive_r2_reduce_up: bool,
    pub r3_mask_down: bool,
    pub reenroll: bool,
    pub new_shader_or_wgsl: bool,
    pub f32_bit_exact_claim: bool,
    pub ui_or_realtime: bool,
    pub cli_binary: bool,
    pub blockade_or_divert_gate: bool,
    pub owner_runtime_beyond_r1_cell_routing: bool,
}

/// `acc` followed by the diagnostics for the surface flags, in check order.
pub open spec fn surface_diagnostics(acc: Seq<&'static str>, s: DressRehearsalR1Surface) -> Seq<&'static str> {
    acc + flag_diag(s.gate.enabled_by_default, "r1_default_on_rejected")
        + flag_diag(s.default_simsession_pass_graph_wiring, "default_simsession_pass_graph_wiring")
        + flag_diag(s.global_default_schedule, "global_default_schedule")
        + flag_diag(s.field_policy_movement, "field_policy_movement")
        + flag_diag(s.gradientxy_consumption, "gradientxy_consumption")
        + flag_diag(s.recursive_r2_reduce_up, "recursive_r2_reduce_up")
        + flag_diag(s.r3_mask_down, "r3_mask_down")
        + flag_diag(s.reenroll, "reenroll")
        + flag_diag(s.new_shader_or_wgsl, "new_shader_or_wgsl")
        + flag_diag(s.f32_bit_exact_claim, "f32_bit_exact_claim")
        + flag_diag(s.ui_or_realtime, "ui_or_realtime")
        + flag_diag(s.cli_binary, "cli_binary")
        + flag_diag(s.blockade_or_divert_gate, "disruption_blockade_or_divert")
        + flag_diag(s.owner_runtime_beyond_r1_cell_routing, "owner_runtime_beyond_r1_cell_routing")
}

impl Default for DressRehearsalR1Surface {
    /// Nothing registered or wired, gate closed.
    fn default() -> (r: Self)
        ensures
            !r.gate.explicit_opt_in,
            !r.galactic_gridcell_field_registered,
            surface_diagnostics(Seq::empty(), r).len() == 0,
    {
        broadcast use crate::diagnostics::lemma_flag_diag;
        DressRehearsalR1Surface {
            gate: DressRehearsalR1Gate::default(),
            galactic_gridcell_field_registered: false,
            default_simsession_pass_graph_wiring: false,
            global_default_schedule: false,
            field_policy_movement: false,
            gradientxy_consumption: false,
            recursive_r2_reduce_up: false,
            r3_mask_down: false,
            reenroll: false,
            new_shader_or_wgsl: false,
            f32_bit_exact_claim: false,
            ui_or_realtime: false,
            cli_binary: false,
            blockade_or_divert_gate: false,
            owner_runtime_beyond_r1_cell_routing: false,
        }
    }
}

impl DressRehearsalR1Surface {
    /// The default session: nothing registered, gate closed.
    pub fn default_simsession() -> (r: Self)
        ensures
            !r.gate.explicit_opt_in,
            !r.galactic_gridcell_field_registered,
            surface_diagnostics(Seq::empty(), r).len() == 0,
    {
        Self::default()
    }

    /// Opted in with the galactic gridcell field registered, nothing else.
    pub fn with_explicit_opt_in() -> (r: Self)
        ensures
            r.gate.explicit_opt_in,
            r.galactic_gridcell_field_registered,
            surface_diagnostics(Seq::empty(), r).len() == 0,
    {
        broadcast use crate::diagnostics::lemma_flag_diag;
        DressRehearsalR1Surface {
            gate: DressRehearsalR1Gate::explicit_opt_in(),
            galactic_gridcell_field_registered: true,
            ..Self::default()
        }
    }
}

/// Requests the heatmap must refuse.
#[derive(Clone, Copy, Debug, PartialEq, Eq)]
pub struct DressRehearsalR1ForbiddenRequests {
    pub field_policy_movement: bool,
    pub gradientxy_consumption: bool,
    pub recursive_r2_reduce_up: bool,
    pub r3_mask_down: bool,
    pub reenroll: bool,
    pub r4_field_consumption: bool,
    pub r5_movement_or_ship_fission: bool,
    pub r6_combat: bool,
    pub disruption_blockade_or_divert: bool,
    pub owner_runtime_beyond_r1_cell_routing: bool,
    pub default_simsession_pass_graph_wiring: bool,
    pub global_default_schedule: bool,
    pub ui_or_realtime: bool,
    pub cli_binary: bool,
    pub semantic_or_raw_wgsl: bool,
    pub new_shader_or_gpu_kernel: bool,
    pub f32_bit_exact_claim: bool,
    pub hard_currency_markets_trade_aibudget: bool,
    pub nested_resource_flow: bool,
    pub clausething_dependency: bool,
    pub invariant_edit: bool,
}

/// `acc` followed by the diagnostics for the forbidden requests, in check order.
pub open spec fn forbidden_diagnostics(acc: Seq<&'static str>, f: DressRehearsalR1ForbiddenRequests) -> Seq<&'static str> {
    acc + flag_diag(f.field_policy_movement, "field_policy_movement")
        + flag_diag(f.gradientxy_consumption, "gradientxy_consumption")
        + flag_diag(f.recursive_r2_reduce_up, "recursive_r2_reduce_up")
        + flag_diag(f.r3_mask_down, "r3_mask_down")
        + flag_diag(f.reenroll, "reenroll")
        + flag_diag(f.r4_field_consumption, "r4_field_consumption")
        + flag_diag(f.r5_movement_or_ship_fission, "r5_movement_or_ship_fission")
        + flag_diag(f.r6_combat, "r6_combat")
        + flag_diag(f.disruption_blockade_or_divert, "disruption_blockade_or_divert")
        + flag_diag(f.owner_runtime_beyond_r1_cell_routing, "owner_runtime_beyond_r1_cell_routing")
        + flag_diag(f.default_simsession_pass_graph_wiring, "default_simsession_pass_graph_wiring")
        + flag_diag(f.global_default_schedule, "global_default_schedule")
        + flag_diag(f.ui_or_realtime, "ui_or_realtime")
        + flag_diag(f.cli_binary, "cli_binary")
        + flag_diag(f.semantic_or_raw_wgsl, "semantic_or_raw_wgsl")
        + flag_diag(f.new_shader_or_gpu_kernel, "new_shader_or_gpu_kernel")
        + flag_diag(f.f32_bit_exact_claim, "f32_bit_exact_claim")
        + flag_diag(f.hard_currency_markets_trade_aibudget, "hard_currency_markets_trade_aibudget")
        + flag_diag(f.nested_resource_flow, "nested_resource_flow")
        + flag_diag(f.clausething_dependency, "clausething_dependency")
        + flag_diag(f.invariant_edit, "invariant_edit")
}

impl Default for DressRehearsalR1ForbiddenRequests {
    /// Nothing requested.
    fn default() -> (r: Self)
        ensures
            forbidden_diagnostics(Seq::empty(), r).len() == 0,
    {
        broadcast use crate::diagnostics::lemma_flag_diag;
        DressRehearsalR1ForbiddenRequests {
            field_policy_movement: false,
            gradientxy_consumption: false,
            recursive_r2_reduce_up: false,
            r3_mask_down: false,
            reenroll: false,
            r4_field_consumption: false,
            r5_movement_or_ship_fission: false,
            r6_combat: false,
            disruption_blockade_or_divert: false,
            owner_runtime_beyond_r1_cell_routing: false,
            default_simsession_pass_graph_wiring: false,
            global_default_schedule: false,
            ui_or_realtime: false,
            cli_binary: false,
            semantic_or_raw_wgsl: false,
            new_shader_or_gpu_kernel: false,
            f32_bit_exact_claim: false,
            hard_currency_markets_trade_aibudget: false,
            nested_resource_flow: false,
            clausething_dependency: false,
            invariant_edit: false,
        }
    }
}

/// Appends the surface diagnostics, in check order.
#[verifier::rlimit(40)]
pub fn validate_surface(surface: &DressRehearsalR1Surface, diagnostics: &mut Vec<&'static str>)
    ensures
        final(diagnostics)@ == surface_diagnostics(old(diagnostics)@, *surface),
{
    push_if(diagnostics, surface.gate.enabled_by_default, "r1_default_on_rejected");
    push_if(diagnostics, surface.default_simsession_pass_graph_wiring, "default_simsession_pass_graph_wiring");
    push_if(diagnostics, surface.global_default_schedule, "global_default_schedule");
    push_if(diagnostics, surface.field_policy_movement, "field_policy_movement");
    push_if(diagnostics, surface.gradientxy_consumption, "gradientxy_consumption");
    push_if(diagnostics, surface.recursive_r2_reduce_up, "recursive_r2_reduce_up");
    push_if(diagnostics, surface.r3_mask_down, "r3_mask_down");
    push_if(diagnostics, surface.reenroll, "reenroll");
    push_if(diagnostics, surface.new_shader_or_wgsl, "new_shader_or_wgsl");
    push_if(diagnostics, surface.f32_bit_exact_claim, "f32_bit_exact_claim");
    push_if(diagnostics, surface.ui_or_realtime, "ui_or_realtime");
    push_if(diagnostics, surface.cli_binary, "cli_binary");
    push_if(diagnostics, surface.blockade_or_divert_gate, "disruption_blockade_or_divert");
    push_if(diagnostics, surface.owner_runtime_beyond_r1_cell_routing, "owner_runtime_beyond_r1_cell_routing");
}

/// Appends the forbidden-request diagnostics, in check order.
#[verifier::rlimit(60)]
pub fn validate_forbidden(forbidden: &DressRehearsalR1ForbiddenRequests, diagnostics: &mut Vec<&'static str>)
    ensures
        final(diagnostics)@ == forbidden_diagnostics(old(diagnostics)@, *forbidden),
{
    push_if(diagnostics, forbidden.field_policy_movement, "field_policy_movement");
    push_if(diagnostics, forbidden.gradientxy_consumption, "gradientxy_consumption");
    push_if(diagnostics, forbidden.recursive_r2_reduce_up, "recursive_r2_reduce_up");
    push_if(diagnostics, forbidden.r3_mask_down, "r3_mask_down");
    push_if(diagnostics, forbidden.reenroll, "reenroll");
    push_if(diagnostics, forbidden.r4_field_consumption, "r4_field_consumption");
    push_if(diagnostics, forbidden.r5_movement_or_ship_fission, "r5_movement_or_ship_fission");
    push_if(diagnostics, forbidden.r6_combat, "r6_combat");
    push_if(diagnostics, forbidden.disruption_blockade_or_divert, "disruption_blockade_or_divert");
    push_if(diagnostics, forbidden.owner_runtime_beyond_r1_cell_routing, "owner_runtime_beyond_r1_cell_routing");
    push_if(diagnostics, forbidden.default_simsession_pass_graph_wiring, "default_simsession_pass_graph_wiring");
    push_if(diagnostics, forbidden.global_default_schedule, "global_default_schedule");
    push_if(diagnostics, forbidden.ui_or_realtime, "ui_or_realtime");
    push_if(diagnostics, forbidden.cli_binary, "cli_binary");
    push_if(diagnostics, forbidden.semantic_or_raw_wgsl, "semantic_or_raw_wgsl");
    push_if(diagnostics, forbidden.new_shader_or_gpu_kernel, "new_shader_or_gpu_kernel");
    push_if(diagnostics, forbidden.f32_bit_exact_claim, "f32_bit_exact_claim");
    push_if(diagnostics, forbidden.hard_currency_markets_trade_aibudget, "hard_currency_markets_trade_aibudget");
    push_if(diagnostics, forbidden.nested_resource_flow, "nested_resource_flow");
    push_if(diagnostics, forbidden.clausething_dependency, "clausething_dependency");
    push_if(diagnostics, forbidden.invariant_edit, "invariant_edit");
}

#[derive(Clone, Copy, Debug, PartialEq, Eq, Structural, Hash)]
pub enum DressRehearsalR1Owner {
    Terran,
    Pirate,
}

#[derive(Clone, Copy, Debug, PartialEq, Eq, Structural, Hash)]
pub enum DressRehearsalR1OccupantKind {
    System,
    PirateFleet,
    PatrolFleet,
}

#[derive(Clone, Copy, Debug, PartialEq, Eq, Structural, Hash)]
pub enum DressRehearsalR1Channel {
    InertSystem,
    PirateDisruption,
    PatrolSuppression,
}

/// A galactic cell with its row-major slot and the two field columns it carries.
#[derive(Clone, Copy, Debug, PartialEq, Eq, Structural)]
pub struct DressRehearsalR1GridCell {
    pub x: u32,
    pub y: u32,
    pub cell_index: u32,
    pub disruption_col: u32,
    pub location_status_col: u32,
}

/// Row-major slot of `(x, y)` on the 20-wide galactic grid.
pub fn cell_index(x: u32, y: u32) -> (r: u32)
    requires
        y * 20 + x <= u32::MAX,
    ensures
        r == y * 20 + x,
{
    y * GALAXY_SIDE + x
}

/// The galactic cell `(x, y)` of the grid.
pub open spec fn grid_cell_spec(x: u32, y: u32) -> DressRehearsalR1GridCell {
    DressRehearsalR1GridCell { x, y, cell_index: (y * 20 + x) as u32, disruption_col: 0, location_status_col: 1 }
}

fn grid_cell(x: u32, y: u32) -> (r: DressRehearsalR1GridCell)
    requires
        x < 20 && y < 20,
    ensures
        r == grid_cell_spec(x, y),
{
    DressRehearsalR1GridCell {
        x,
        y,
        cell_index: cell_index(x, y),
        disruption_col: DISRUPTION_COL,
        location_status_col: LOCATION_STATUS_COL,
    }
}

/// The 400 galactic cells in row-major order: cell `i` is `(i % 20, i / 20)` with slot `i`.
pub fn build_grid_cells() -> (r: Vec<DressRehearsalR1GridCell>)
    ensures
        r@.len() == 400,
        forall|i: int| 0 <= i < 400 ==> #[trigger] r@[i] == grid_cell_spec((i % 20) as u32, (i / 20) as u32),
        forall|i: int| 0 <= i < 400 ==> (#[trigger] r@[i]).cell_index == i,
{
    let mut cells: Vec<DressRehearsalR1GridCell> = Vec::new();
    let mut y: u32 = 0;
    while y < GALAXY_SIDE
        invariant
            y <= 20,
            cells@.len() == 20 * y,
            forall|i: int| 0 <= i < cells@.len() ==> #[trigger] cells@[i] == grid_cell_spec((i % 20) as u32, (i / 20) as u32),
        decreases 20 - y,
    {
        let mut x: u32 = 0;
        while x < GALAXY_SIDE
            invariant
                y < 20,
                x <= 20,
                cells@.len() == 20 * y + x,
                forall|i: int| 0 <= i < cells@.len() ==> #[trigger] cells@[i] == grid_cell_spec((i % 20) as u32, (i / 20) as u32),
            decreases 20 - x,
        {
            cells.push(grid_cell(x, y));
            proof {
                let i = 20 * y + x;
                assert(i % 20 == x && i / 20 == y) by (nonlinear_arith)
                    requires i == 20 * y + x, x < 20;
            }
            x = x + 1;
        }
        y = y + 1;
    }
    proof {
        assert forall|i: int| 0 <= i < 400 implies (#[trigger] cells@[i]).cell_index == i by {
            assert((i / 20) * 20 + i % 20 == i) by (nonlinear_arith)
                requires 0 <= i;
        }
    }
    cells
}

/// The heatmap's owner of an atlas owner.
pub fn owner_from_atlas(owner: Owner) -> (r: DressRehearsalR1Owner)
    ensures
        r == (match owner {
            Owner::Terran => DressRehearsalR1Owner::Terran,
            Owner::Pirate => DressRehearsalR1Owner::Pirate,
        }),
{
    match owner {
        Owner::Terran => DressRehearsalR1Owner::Terran,
        Owner::Pirate => DressRehearsalR1Owner::Pirate,
    }
}

/// Row-major slots are a bijection of the grid: distinct in-bounds cells get distinct slots,
/// all below 400.
pub proof fn lemma_cell_index_injective(x1: u32, y1: u32, x2: u32, y2: u32)
    requires
        x1 < 20 && y1 < 20 && x2 < 20 && y2 < 20,
    ensures
        y1 * 20 + x1 < 400,
        (y1 * 20 + x1 == y2 * 20 + x2) ==> (x1 == x2 && y1 == y2),
{
}


/// The in-grid von Neumann neighbours of `(x, y)`, in the order west, east, north, south.
pub open spec fn von_neumann_spec(x: u32, y: u32) -> Seq<(u32, u32)> {
    (if x > 0 { seq![((x - 1) as u32, y)] } else { Seq::empty() })
        + (if x + 1 < GALAXY_SIDE { seq![((x + 1) as u32, y)] } else { Seq::empty() })
        + (if y > 0 { seq![(x, (y - 1) as u32)] } else { Seq::empty() })
        + (if y + 1 < GALAXY_SIDE { seq![(x, (y + 1) as u32)] } else { Seq::empty() })
}

/// The in-grid von Neumann neighbours of `(x, y)`.
pub fn von_neumann_neighbors(x: u32, y: u32) -> (r: Vec<(u32, u32)>)
    requires
        x < GALAXY_SIDE && y < GALAXY_SIDE,
    ensures
        r@ == von_neumann_spec(x, y),
{
    let mut neighbors: Vec<(u32, u32)> = Vec::new();
    if x > 0 {
        neighbors.push((x - 1, y));
    }
    if x + 1 < GALAXY_SIDE {
        neighbors.push((x + 1, y));
    }
    if y > 0 {
        neighbors.push((x, y - 1));
    }
    if y + 1 < GALAXY_SIDE {
        neighbors.push((x, y + 1));
    }
    proof {
        assert(neighbors@ =~= von_neumann_spec(x, y));
    }
    neighbors
}

/// Sort rank of a channel: inert systems, pirate disruption, patrol suppression.
pub fn channel_rank(channel: DressRehearsalR1Channel) -> (r: u8)
    ensures
        r == (match channel {
            DressRehearsalR1Channel::InertSystem => 0u8,
            DressRehearsalR1Channel::PirateDisruption => 1u8,
            DressRehearsalR1Channel::PatrolSuppression => 2u8,
        }),
{
    match channel {
        DressRehearsalR1Channel::InertSystem => 0,
        DressRehearsalR1Channel::PirateDisruption => 1,
        DressRehearsalR1Channel::PatrolSuppression => 2,
    }
}

/// Sort rank of an owner: Terran before pirate.
pub fn owner_rank(owner: DressRehearsalR1Owner) -> (r: u8)
    ensures
        r == (match owner {
            DressRehearsalR1Owner::Terran => 0u8,
            DressRehearsalR1Owner::Pirate => 1u8,
        }),
{
    match owner {
        DressRehearsalR1Owner::Terran => 0,
        DressRehearsalR1Owner::Pirate => 1,
    }
}

/// Every von Neumann neighbour lies in the grid, one step from the cell.
pub proof fn lemma_neighbors_adjacent(x: u32, y: u32)
    requires
        x < GALAXY_SIDE && y < GALAXY_SIDE,
    ensures
        forall|k: int| 0 <= k < von_neumann_spec(x, y).len() ==> {
            let n = #[trigger] von_neumann_spec(x, y)[k];
            &&& n.0 < GALAXY_SIDE && n.1 < GALAXY_SIDE
            &&& (if n.0 >= x { n.0 - x } else { x - n.0 }) + (if n.1 >= y { n.1 - y } else { y - n.1 }) == 1
        },
        von_neumann_spec(x, y).len() >= 2,
{
    let s = von_neumann_spec(x, y);
    assert forall|k: int| 0 <= k < s.len() implies {
        let n = #[trigger] s[k];
        &&& n.0 < GALAXY_SIDE && n.1 < GALAXY_SIDE
        &&& (if n.0 >= x { n.0 - x } else { x - n.0 }) + (if n.1 >= y { n.1 - y } else { y - n.1 }) == 1
    } by {
        let a: Seq<(u32, u32)> = if x > 0 { seq![((x - 1) as u32, y)] } else { Seq::empty() };
        let b: Seq<(u32, u32)> = if x + 1 < GALAXY_SIDE { seq![((x + 1) as u32, y)] } else { Seq::empty() };
        let c: Seq<(u32, u32)> = if y > 0 { seq![(x, (y - 1) as u32)] } else { Seq::empty() };
        let d: Seq<(u32, u32)> = if y + 1 < GALAXY_SIDE { seq![(x, (y + 1) as u32)] } else { Seq::empty() };
        assert(s == a + b + c + d);
    }
}

} // verus!
