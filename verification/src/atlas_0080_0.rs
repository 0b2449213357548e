//! Sparse-residency nested mapping runtime for the Nested Starmap scenario.
//!
//! A 10×10 starmap holds ten starsystems (each 10×10), each with one planet (10×10):
//! 2 100 logical locations. Only the theaters on the active descent stack are resident;
//! residency changes which values are materialized, never what they are.
use crate::diagnostics::{flag_diag, push_if};
use crate::replay_hash::{fnv, fnv_step, lcg_next, lcg_next_spec, stable_mix, stable_mix_spec, FNV_OFFSET_BASIS};
use vstd::prelude::*;

verus! {

pub const ATLAS_0080_0_ID: &'static str = "ATLAS-0080-0";
pub const ATLAS_0080_0_SCENARIO: &'static str = "Nested Starmap";
pub const ATLAS_0080_0_STATUS_PASS: &'static str =
    "IMPLEMENTED / PASS - scenario-scoped sparse-residency nested mapping runtime for Nested Starmap";

pub const ATLAS_0080_0_STARMAP_SIDE: u32 = 10;
pub const ATLAS_0080_0_STARSYSTEM_COUNT: usize = 10;
pub const ATLAS_0080_0_STARSYSTEM_SIDE: u32 = 10;
pub const ATLAS_0080_0_PLANET_SIDE: u32 = 10;
pub const ATLAS_0080_0_LOGICAL_LOCATION_COUNT: u32 = 2_100;
pub const ATLAS_0080_0_DEFAULT_SEED: u64 = 0x0080_0001;
/// Default VRAM budget of the atlas, in bytes (1.5 GiB).
pub const ATLAS_DEFAULT_VRAM_BUDGET_BYTES: u64 = 1_610_612_736;

/// Opt-in gate.
#[derive(Clone, Copy, Debug, PartialEq, Eq)]
pub struct Atlas0080Gate {
    pub explicit_opt_in: bool,
    pub enabled_by_default: bool,
}

impl Default for Atlas0080Gate {
    /// Closed gate.
    fn default() -> (r: Self)
        ensures
            !r.explicit_opt_in && !r.enabled_by_default,
    {
        Atlas0080Gate { explicit_opt_in: false, enabled_by_default: false }
    }
}

impl Atlas0080Gate {
    /// Opted in, still not enabled by default.
    pub fn explicit_opt_in() -> (r: Self)
        ensures
            r.explicit_opt_in && !r.enabled_by_default,
    {
        Atlas0080Gate { explicit_opt_in: true, enabled_by_default: false }
    }
}

/// Session surface of the runtime.
#[derive(Clone, Copy, Debug, PartialEq, Eq)]
pub struct Atlas0080Surface {
    pub gate: Atlas0080Gate,
    pub default_session_pass_graph_wiring: bool,
    pub global_mapping_scheduler: bool,
    pub realtime_loop: bool,
    pub ui_framework: bool,
}

impl Default for Atlas0080Surface {
    /// Gate closed, nothing wired.
    fn default() -> (r: Self)
        ensures
            !r.gate.explicit_opt_in && !r.gate.enabled_by_default,
            !r.default_session_pass_graph_wiring && !r.global_mapping_scheduler,
            !r.realtime_loop && !r.ui_framework,
    {
        Atlas0080Surface {
            gate: Atlas0080Gate::default(),
            default_session_pass_graph_wiring: false,
            global_mapping_scheduler: false,
            realtime_loop: false,
            ui_framework: false,
        }
    }
}

impl Atlas0080Surface {
    /// The default session: gate closed, nothing wired.
    pub fn default_simsession() -> (r: Self)
        ensures
            !r.gate.explicit_opt_in && !r.gate.enabled_by_default,
            !r.default_session_pass_graph_wiring && !r.global_mapping_scheduler,
            !r.realtime_loop && !r.ui_framework,
    {
        Self::default()
    }

    /// Opted in, nothing else wired.
    pub fn with_explicit_opt_in() -> (r: Self)
        ensures
            r.gate.explicit_opt_in && !r.gate.enabled_by_default,
            !r.default_session_pass_graph_wiring && !r.global_mapping_scheduler,
            !r.realtime_loop && !r.ui_framework,
    {
        Atlas0080Surface { gate: Atlas0080Gate::explicit_opt_in(), ..Self::default() }
    }
}

/// Requests this runtime must refuse.
#[derive(Clone, Copy, Debug, PartialEq, Eq)]
pub struct Atlas0080ForbiddenRequests {
    pub default_session_pass_graph_wiring: bool,
    pub global_mapping_scheduler: bool,
    pub realtime_loop: bool,
    pub ui_framework: bool,
    pub residency_alters_field_values: bool,
    pub semantic_or_raw_wgsl: bool,
    pub semantically_named_shader: bool,
    pub cpu_planner: bool,
    pub clausething_dependency: bool,
    pub invariant_edit: bool,
    pub general_mapping_runtime: bool,
    pub econ_scale_0080_0: bool,
    pub production_path_0080_1: bool,
}

/// `acc` followed by the diagnostics for the forbidden requests, in check order.
pub open spec fn forbidden_diagnostics(acc: Seq<&'static str>, f: Atlas0080ForbiddenRequests) -> Seq<&'static str> {
    acc + flag_diag(f.default_session_pass_graph_wiring, "default_session_pass_graph_wiring")
        + flag_diag(f.global_mapping_scheduler, "global_mapping_scheduler")
        + flag_diag(f.realtime_loop, "realtime_loop")
        + flag_diag(f.ui_framework, "ui_framework")
        + flag_diag(f.residency_alters_field_values, "residency_alters_field_values")
        + flag_diag(f.semantic_or_raw_wgsl, "semantic_or_raw_wgsl")
        + flag_diag(f.semantically_named_shader, "semantically_named_shader")
        + flag_diag(f.cpu_planner, "cpu_planner")
        + flag_diag(f.clausething_dependency, "clausething_dependency")
        + flag_diag(f.invariant_edit, "invariant_edit")
        + flag_diag(f.general_mapping_runtime, "general_mapping_runtime")
        + flag_diag(f.econ_scale_0080_0, "econ_scale_0080_0_not_implemented")
        + flag_diag(f.production_path_0080_1, "production_path_0080_1_not_implemented")
}

impl Default for Atlas0080ForbiddenRequests {
    /// Nothing requested.
    fn default() -> (r: Self)
        ensures
            forbidden_diagnostics(Seq::empty(), r).len() == 0,
    {
        broadcast use crate::diagnostics::lemma_flag_diag;
        Atlas0080ForbiddenRequests {
            default_session_pass_graph_wiring: false,
            global_mapping_scheduler: false,
            realtime_loop: false,
            ui_framework: false,
            residency_alters_field_values: false,
            semantic_or_raw_wgsl: false,
            semantically_named_shader: false,
            cpu_planner: false,
            clausething_dependency: false,
            invariant_edit: false,
            general_mapping_runtime: false,
            econ_scale_0080_0: false,
            production_path_0080_1: false,
        }
    }
}

/// `min(a * b, u64::MAX)`.
pub open spec fn sat_mul_u64_spec(a: u64, b: u64) -> u64 {
    if a * b > u64::MAX { u64::MAX } else { (a * b) as u64 }
}

fn sat_mul_u64(a: u64, b: u64) -> (r: u64)
    ensures
        r == sat_mul_u64_spec(a, b),
{
    match a.checked_mul(b) {
        Some(p) => p,
        None => u64::MAX,
    }
}

/// `min(a * b, u32::MAX)`.
pub open spec fn sat_mul_u32_spec(a: u32, b: u32) -> u32 {
    if a * b > u32::MAX { u32::MAX } else { (a * b) as u32 }
}

fn sat_mul_u32(a: u32, b: u32) -> (r: u32)
    ensures
        r == sat_mul_u32_spec(a, b),
{
    match a.checked_mul(b) {
        Some(p) => p,
        None => u32::MAX,
    }
}

/// A cell of a 2-D theater grid.
#[derive(Clone, Copy, Debug, PartialEq, Eq, Structural, Hash)]
pub struct Atlas0080Cell {
    pub x: u32,
    pub y: u32,
}

impl Atlas0080Cell {
    pub fn new(x: u32, y: u32) -> (r: Self)
        ensures
            r.x == x && r.y == y,
    {
        Atlas0080Cell { x, y }
    }

    /// Row-major index `y * side + x`, saturating at `u32::MAX`.
    pub fn linear_index(self, side: u32) -> (r: u32)
        ensures
            r == (if sat_mul_u32_spec(self.y, side) + self.x > u32::MAX {
                u32::MAX as int
            } else {
                sat_mul_u32_spec(self.y, side) + self.x
            }),
    {
        sat_mul_u32(self.y, side).saturating_add(self.x)
    }
}

/// A theater of the nesting: the starmap, one starsystem, or one starsystem's planet.
#[derive(Clone, Copy, Debug, PartialEq, Eq, Structural, Hash)]
pub enum Atlas0080TheaterId {
    Starmap,
    Starsystem { index: u8 },
    Planet { starsystem_index: u8 },
}

/// Cells of a theater: every theater is a 10×10 grid.
pub open spec fn theater_cell_count(t: Atlas0080TheaterId) -> u32 {
    match t {
        Atlas0080TheaterId::Starmap => 100,
        Atlas0080TheaterId::Starsystem { .. } => 100,
        Atlas0080TheaterId::Planet { .. } => 100,
    }
}

/// Stable numeric code: 1 for the starmap, 10 + index for a starsystem, 100 + index for a planet.
pub open spec fn theater_code(t: Atlas0080TheaterId) -> u64 {
    match t {
        Atlas0080TheaterId::Starmap => 1,
        Atlas0080TheaterId::Starsystem { index } => (10 + index) as u64,
        Atlas0080TheaterId::Planet { starsystem_index } => (100 + starsystem_index) as u64,
    }
}

impl Atlas0080TheaterId {
    pub fn cell_count(self) -> (r: u32)
        ensures
            r == theater_cell_count(self),
    {
        match self {
            Atlas0080TheaterId::Starmap => ATLAS_0080_0_STARMAP_SIDE * ATLAS_0080_0_STARMAP_SIDE,
            Atlas0080TheaterId::Starsystem { .. } => ATLAS_0080_0_STARSYSTEM_SIDE * ATLAS_0080_0_STARSYSTEM_SIDE,
            Atlas0080TheaterId::Planet { .. } => ATLAS_0080_0_PLANET_SIDE * ATLAS_0080_0_PLANET_SIDE,
        }
    }

    pub fn stable_code(self) -> (r: u64)
        ensures
            r == theater_code(self),
    {
        match self {
            Atlas0080TheaterId::Starmap => 1,
            Atlas0080TheaterId::Starsystem { index } => 10 + index as u64,
            Atlas0080TheaterId::Planet { starsystem_index } => 100 + starsystem_index as u64,
        }
    }
}

/// A descent or ascent request of the access pattern.
#[derive(Clone, Copy, Debug, PartialEq, Eq, Structural)]
pub enum Atlas0080ResidencyRequest {
    DescendToStarsystem { starsystem_index: u8 },
    DescendToPlanet { starsystem_index: u8 },
    AscendToStarsystem { starsystem_index: u8 },
    AscendToStarmap,
}

/// The active theater stack a request leads to, outermost first.
pub open spec fn target_stack_spec(r: Atlas0080ResidencyRequest) -> Seq<Atlas0080TheaterId> {
    match r {
        Atlas0080ResidencyRequest::DescendToStarsystem { starsystem_index } => seq![
            Atlas0080TheaterId::Starmap,
            Atlas0080TheaterId::Starsystem { index: starsystem_index },
        ],
        Atlas0080ResidencyRequest::AscendToStarsystem { starsystem_index } => seq![
            Atlas0080TheaterId::Starmap,
            Atlas0080TheaterId::Starsystem { index: starsystem_index },
        ],
        Atlas0080ResidencyRequest::DescendToPlanet { starsystem_index } => seq![
            Atlas0080TheaterId::Starmap,
            Atlas0080TheaterId::Starsystem { index: starsystem_index },
            Atlas0080TheaterId::Planet { starsystem_index },
        ],
        Atlas0080ResidencyRequest::AscendToStarmap => seq![Atlas0080TheaterId::Starmap],
    }
}

impl Atlas0080ResidencyRequest {
    fn target_stack(self) -> (r: Vec<Atlas0080TheaterId>)
        ensures
            r@ == target_stack_spec(self),
    {
        let mut v: Vec<Atlas0080TheaterId> = Vec::new();
        v.push(Atlas0080TheaterId::Starmap);
        match self {
            Atlas0080ResidencyRequest::DescendToStarsystem { starsystem_index }
            | Atlas0080ResidencyRequest::AscendToStarsystem { starsystem_index } => {
                v.push(Atlas0080TheaterId::Starsystem { index: starsystem_index });
            }
            Atlas0080ResidencyRequest::DescendToPlanet { starsystem_index } => {
                v.push(Atlas0080TheaterId::Starsystem { index: starsystem_index });
                v.push(Atlas0080TheaterId::Planet { starsystem_index });
            }
            Atlas0080ResidencyRequest::AscendToStarmap => {}
        }
        proof {
            assert(v@ =~= target_stack_spec(self));
        }
        v
    }
}

/// Generator state after `k` draws from `seed`.
pub open spec fn atlas_state(seed: u64, k: nat) -> u64
    decreases k,
{
    if k == 0 {
        seed ^ 0x9E37_79B9_7F4A_7C15u64
    } else {
        lcg_next_spec(atlas_state(seed, (k - 1) as nat))
    }
}

/// The starmap cell of the `k`-th draw (`k ≥ 1`): `state % 100` read row-major on a 10-wide grid.
pub open spec fn draw_cell(seed: u64, k: nat) -> Atlas0080Cell {
    let c = (atlas_state(seed, k) % 100) as u32;
    Atlas0080Cell { x: c % 10, y: c / 10 }
}

/// Whether `c` occurs in `s`.
pub open spec fn has_cell(s: Seq<Atlas0080Cell>, c: Atlas0080Cell) -> bool
    decreases s.len(),
{
    if s.len() == 0 {
        false
    } else {
        s.last() == c || has_cell(s.drop_last(), c)
    }
}

/// Distinct starsystem cells kept after `n` draws, in order of first appearance, at most ten.
pub open spec fn cells_after(seed: u64, n: nat) -> Seq<Atlas0080Cell>
    decreases n,
{
    if n == 0 {
        Seq::empty()
    } else {
        let prev = cells_after(seed, (n - 1) as nat);
        let c = draw_cell(seed, n);
        if prev.len() < 10 && !has_cell(prev, c) {
            prev.push(c)
        } else {
            prev
        }
    }
}

/// The draws from `seed` eventually yield ten distinct cells (the placement terminates).
pub open spec fn starsystem_cells_settle(seed: u64) -> bool {
    exists|n: nat| #[trigger] cells_after(seed, n).len() >= 10
}

proof fn lemma_cells_after_len(seed: u64, n: nat)
    ensures
        cells_after(seed, n).len() <= 10,
    decreases n,
{
    if n > 0 {
        lemma_cells_after_len(seed, (n - 1) as nat);
    }
}

proof fn lemma_cells_after_monotone(seed: u64, m: nat, n: nat)
    requires
        m <= n,
    ensures
        cells_after(seed, m).len() <= cells_after(seed, n).len(),
        cells_after(seed, m).len() >= 10 ==> cells_after(seed, n) == cells_after(seed, m),
    decreases n - m,
{
    if m < n {
        lemma_cells_after_monotone(seed, m, (n - 1) as nat);
        lemma_cells_after_len(seed, (n - 1) as nat);
    }
}

/// Once ten cells are found, every later count of draws gives the same ten.
pub proof fn lemma_cells_settled(seed: u64, m: nat, n: nat)
    requires
        cells_after(seed, m).len() >= 10,
        cells_after(seed, n).len() >= 10,
    ensures
        cells_after(seed, m) == cells_after(seed, n),
{
    if m <= n {
        lemma_cells_after_monotone(seed, m, n);
    } else {
        lemma_cells_after_monotone(seed, n, m);
    }
}

fn contains_cell(cells: &Vec<Atlas0080Cell>, c: Atlas0080Cell) -> (r: bool)
    ensures
        r == has_cell(cells@, c),
{
    let mut k: usize = 0;
    let mut found = false;
    while k < cells.len()
        invariant
            k <= cells@.len(),
            found == has_cell(cells@.take(k as int), c),
        decreases cells@.len() - k,
    {
        proof {
            assert(cells@.take(k + 1).drop_last() == cells@.take(k as int));
        }
        if cells[k] == c {
            found = true;
        }
        k = k + 1;
    }
    proof {
        assert(cells@.take(cells@.len() as int) == cells@);
    }
    found
}

fn deterministic_starsystem_cells(seed: u64) -> (r: Vec<Atlas0080Cell>)
    requires
        starsystem_cells_settle(seed),
    ensures
        r@.len() == 10,
        forall|n: nat| #[trigger] cells_after(seed, n).len() >= 10 ==> r@ == cells_after(seed, n),
{
    let ghost n0: nat = choose|n: nat| #[trigger] cells_after(seed, n).len() >= 10;
    let mut cells: Vec<Atlas0080Cell> = Vec::new();
    let mut state: u64 = seed ^ 0x9E37_79B9_7F4A_7C15u64;
    let ghost mut k: nat = 0;
    while cells.len() < ATLAS_0080_0_STARSYSTEM_COUNT
        invariant
            cells_after(seed, n0).len() >= 10,
            k <= n0,
            cells@ == cells_after(seed, k),
            state == atlas_state(seed, k),
        decreases n0 - k,
    {
        proof {
            if k >= n0 {
                lemma_cells_after_monotone(seed, n0, k);
            }
        }
        state = lcg_next(state);
        let candidate = (state % 100) as u32;
        let cell = Atlas0080Cell::new(candidate % ATLAS_0080_0_STARMAP_SIDE, candidate / ATLAS_0080_0_STARMAP_SIDE);
        if !contains_cell(&cells, cell) {
            cells.push(cell);
        }
        proof {
            k = k + 1;
        }
    }
    proof {
        lemma_cells_after_len(seed, k);
        assert forall|n: nat| #[trigger] cells_after(seed, n).len() >= 10 implies cells@ == cells_after(seed, n) by {
            lemma_cells_settled(seed, k, n);
        }
    }
    cells
}

/// The planet cell inside starsystem `index`.
pub open spec fn planet_cell_spec(seed: u64, index: u8) -> Atlas0080Cell {
    let state = lcg_next_spec(seed ^ sat_mul_u64_spec((index as u64 + 1) as u64, 0xA24B_AED4));
    let c = (state % 100) as u32;
    Atlas0080Cell { x: c % 10, y: c / 10 }
}

fn deterministic_planet_cell(seed: u64, starsystem_index: u8) -> (r: Atlas0080Cell)
    ensures
        r == planet_cell_spec(seed, starsystem_index),
{
    let state = lcg_next(seed ^ sat_mul_u64(starsystem_index as u64 + 1, 0xA24B_AED4));
    let candidate = (state % 100) as u32;
    Atlas0080Cell::new(candidate % ATLAS_0080_0_STARSYSTEM_SIDE, candidate / ATLAS_0080_0_STARSYSTEM_SIDE)
}

/// The nested starmap: sides, seed, and the placement of starsystems and planets.
#[derive(Clone, Debug, PartialEq, Eq)]
pub struct Atlas0080Scenario {
    pub seed: u64,
    pub starmap_side: u32,
    pub starsystem_side: u32,
    pub planet_side: u32,
    pub starsystem_cells: Vec<Atlas0080Cell>,
    pub planet_cells: Vec<Atlas0080Cell>,
}

/// `starmap² + 10·starsystem² + 10·planet²`, unbounded.
pub open spec fn location_count_int(s: Atlas0080Scenario) -> int {
    s.starmap_side * s.starmap_side + 10 * (s.starsystem_side * s.starsystem_side)
        + 10 * (s.planet_side * s.planet_side)
}

/// The scenario generated from `seed`, when its placement terminates.
pub open spec fn scenario_from_seed(s: Atlas0080Scenario, seed: u64) -> bool {
    &&& s.seed == seed
    &&& s.starmap_side == 10 && s.starsystem_side == 10 && s.planet_side == 10
    &&& s.starsystem_cells@.len() == 10
    &&& forall|n: nat| #[trigger] cells_after(seed, n).len() >= 10 ==> s.starsystem_cells@ == cells_after(seed, n)
    &&& s.planet_cells@ == Seq::new(10, |i: int| planet_cell_spec(seed, i as u8))
}

/// `has_cell` is sequence membership.
proof fn lemma_has_cell_contains(s: Seq<Atlas0080Cell>, c: Atlas0080Cell)
    ensures
        has_cell(s, c) <==> s.contains(c),
    decreases s.len(),
{
    if s.len() > 0 {
        lemma_has_cell_contains(s.drop_last(), c);
        if s.drop_last().contains(c) {
            let i = choose|i: int| 0 <= i < s.drop_last().len() && s.drop_last()[i] == c;
            assert(s[i] == c);
        }
        if s.contains(c) && s.last() != c {
            let i = choose|i: int| 0 <= i < s.len() && s[i] == c;
            assert(s.drop_last()[i] == c);
        }
    }
}

/// The default seed's placement terminates: ten draws give ten distinct cells.
pub proof fn lemma_default_seed_settles()
    ensures
        starsystem_cells_settle(ATLAS_0080_0_DEFAULT_SEED),
{
    let seed = ATLAS_0080_0_DEFAULT_SEED;
    assert(0x0080_0001u64 ^ 0x9E37_79B9_7F4A_7C15u64 == 11400714819331587092u64) by (bit_vector);
    assert(atlas_state(seed, 0) == 11400714819331587092u64);
    assert(atlas_state(seed, 1) == 16951343062484860115u64);
    assert(draw_cell(seed, 1) == Atlas0080Cell { x: 5, y: 1 });
    lemma_has_cell_contains(cells_after(seed, 0), Atlas0080Cell { x: 5, y: 1 });
    assert(cells_after(seed, 1) =~= seq![Atlas0080Cell { x: 5, y: 1 }]);
    assert(atlas_state(seed, 2) == 10601935876278378342u64);
    assert(draw_cell(seed, 2) == Atlas0080Cell { x: 2, y: 4 });
    lemma_has_cell_contains(cells_after(seed, 1), Atlas0080Cell { x: 2, y: 4 });
    assert(cells_after(seed, 2) =~= seq![Atlas0080Cell { x: 5, y: 1 }, Atlas0080Cell { x: 2, y: 4 }]);
    assert(atlas_state(seed, 3) == 7221866596128677949u64);
    assert(draw_cell(seed, 3) == Atlas0080Cell { x: 9, y: 4 });
    lemma_has_cell_contains(cells_after(seed, 2), Atlas0080Cell { x: 9, y: 4 });
    assert(cells_after(seed, 3) =~= seq![Atlas0080Cell { x: 5, y: 1 }, Atlas0080Cell { x: 2, y: 4 }, Atlas0080Cell { x: 9, y: 4 }]);
    assert(atlas_state(seed, 4) == 3667563687164620552u64);
    assert(draw_cell(seed, 4) == Atlas0080Cell { x: 2, y: 5 });
    lemma_has_cell_contains(cells_after(seed, 3), Atlas0080Cell { x: 2, y: 5 });
    assert(cells_after(seed, 4) =~= seq![Atlas0080Cell { x: 5, y: 1 }, Atlas0080Cell { x: 2, y: 4 }, Atlas0080Cell { x: 9, y: 4 }, Atlas0080Cell { x: 2, y: 5 }]);
    assert(atlas_state(seed, 5) == 13490870676550073783u64);
    assert(draw_cell(seed, 5) == Atlas0080Cell { x: 3, y: 8 });
    lemma_has_cell_contains(cells_after(seed, 4), Atlas0080Cell { x: 3, y: 8 });
    assert(cells_after(seed, 5) =~= seq![Atlas0080Cell { x: 5, y: 1 }, Atlas0080Cell { x: 2, y: 4 }, Atlas0080Cell { x: 9, y: 4 }, Atlas0080Cell { x: 2, y: 5 }, Atlas0080Cell { x: 3, y: 8 }]);
    assert(atlas_state(seed, 6) == 14723325926042706810u64);
    assert(draw_cell(seed, 6) == Atlas0080Cell { x: 0, y: 1 });
    lemma_has_cell_contains(cells_after(seed, 5), Atlas0080Cell { x: 0, y: 1 });
    assert(cells_after(seed, 6) =~= seq![Atlas0080Cell { x: 5, y: 1 }, Atlas0080Cell { x: 2, y: 4 }, Atlas0080Cell { x: 9, y: 4 }, Atlas0080Cell { x: 2, y: 5 }, Atlas0080Cell { x: 3, y: 8 }, Atlas0080Cell { x: 0, y: 1 }]);
    assert(atlas_state(seed, 7) == 6858958112844432321u64);
    assert(draw_cell(seed, 7) == Atlas0080Cell { x: 1, y: 2 });
    lemma_has_cell_contains(cells_after(seed, 6), Atlas0080Cell { x: 1, y: 2 });
    assert(cells_after(seed, 7) =~= seq![Atlas0080Cell { x: 5, y: 1 }, Atlas0080Cell { x: 2, y: 4 }, Atlas0080Cell { x: 9, y: 4 }, Atlas0080Cell { x: 2, y: 5 }, Atlas0080Cell { x: 3, y: 8 }, Atlas0080Cell { x: 0, y: 1 }, Atlas0080Cell { x: 1, y: 2 }]);
    assert(atlas_state(seed, 8) == 9973270736170985788u64);
    assert(draw_cell(seed, 8) == Atlas0080Cell { x: 8, y: 8 });
    lemma_has_cell_contains(cells_after(seed, 7), Atlas0080Cell { x: 8, y: 8 });
    assert(cells_after(seed, 8) =~= seq![Atlas0080Cell { x: 5, y: 1 }, Atlas0080Cell { x: 2, y: 4 }, Atlas0080Cell { x: 9, y: 4 }, Atlas0080Cell { x: 2, y: 5 }, Atlas0080Cell { x: 3, y: 8 }, Atlas0080Cell { x: 0, y: 1 }, Atlas0080Cell { x: 1, y: 2 }, Atlas0080Cell { x: 8, y: 8 }]);
    assert(atlas_state(seed, 9) == 7555232645273126107u64);
    assert(draw_cell(seed, 9) == Atlas0080Cell { x: 7, y: 0 });
    lemma_has_cell_contains(cells_after(seed, 8), Atlas0080Cell { x: 7, y: 0 });
    assert(cells_after(seed, 9) =~= seq![Atlas0080Cell { x: 5, y: 1 }, Atlas0080Cell { x: 2, y: 4 }, Atlas0080Cell { x: 9, y: 4 }, Atlas0080Cell { x: 2, y: 5 }, Atlas0080Cell { x: 3, y: 8 }, Atlas0080Cell { x: 0, y: 1 }, Atlas0080Cell { x: 1, y: 2 }, Atlas0080Cell { x: 8, y: 8 }, Atlas0080Cell { x: 7, y: 0 }]);
    assert(atlas_state(seed, 10) == 14365951646449434830u64);
    assert(draw_cell(seed, 10) == Atlas0080Cell { x: 0, y: 3 });
    lemma_has_cell_contains(cells_after(seed, 9), Atlas0080Cell { x: 0, y: 3 });
    assert(cells_after(seed, 10) =~= seq![Atlas0080Cell { x: 5, y: 1 }, Atlas0080Cell { x: 2, y: 4 }, Atlas0080Cell { x: 9, y: 4 }, Atlas0080Cell { x: 2, y: 5 }, Atlas0080Cell { x: 3, y: 8 }, Atlas0080Cell { x: 0, y: 1 }, Atlas0080Cell { x: 1, y: 2 }, Atlas0080Cell { x: 8, y: 8 }, Atlas0080Cell { x: 7, y: 0 }, Atlas0080Cell { x: 0, y: 3 }]);
}

impl Atlas0080Scenario {
    /// The scenario of the default seed.
    pub fn canonical() -> (r: Self)
        ensures
            scenario_from_seed(r, ATLAS_0080_0_DEFAULT_SEED),
    {
        proof { lemma_default_seed_settles(); }
        Self::from_seed(ATLAS_0080_0_DEFAULT_SEED)
    }

    /// Places ten distinct starsystems by drawing from `seed` until ten distinct cells have
    /// appeared, and one planet per starsystem.
    pub fn from_seed(seed: u64) -> (r: Self)
        requires
            starsystem_cells_settle(seed),
        ensures
            scenario_from_seed(r, seed),
    {
        let starsystem_cells = deterministic_starsystem_cells(seed);
        let mut planet_cells: Vec<Atlas0080Cell> = Vec::new();
        let mut index: usize = 0;
        while index < ATLAS_0080_0_STARSYSTEM_COUNT
            invariant
                index <= 10,
                planet_cells@ == Seq::new(index as nat, |i: int| planet_cell_spec(seed, i as u8)),
            decreases 10 - index,
        {
            planet_cells.push(deterministic_planet_cell(seed, index as u8));
            index = index + 1;
        }
        Atlas0080Scenario {
            seed,
            starmap_side: ATLAS_0080_0_STARMAP_SIDE,
            starsystem_side: ATLAS_0080_0_STARSYSTEM_SIDE,
            planet_side: ATLAS_0080_0_PLANET_SIDE,
            starsystem_cells,
            planet_cells,
        }
    }

    /// `starmap² + 10·starsystem² + 10·planet²`.
    pub fn logical_location_count(&self) -> (r: u32)
        requires
            location_count_int(*self) <= u32::MAX,
        ensures
            r == location_count_int(*self),
    {
        proof {
            assert(self.starmap_side * self.starmap_side >= 0) by (nonlinear_arith);
            assert(self.starsystem_side * self.starsystem_side >= 0) by (nonlinear_arith);
            assert(self.planet_side * self.planet_side >= 0) by (nonlinear_arith);
            let a = self.starsystem_side;
            let b = self.planet_side;
            assert(10 * a * a == 10 * (a * a) && 10 * a <= 10 * (a * a) + 10) by (nonlinear_arith);
            assert(10 * b * b == 10 * (b * b) && 10 * b <= 10 * (b * b) + 10) by (nonlinear_arith);
            assert(a == 0 || 10 * a <= 10 * (a * a)) by (nonlinear_arith);
            assert(b == 0 || 10 * b <= 10 * (b * b)) by (nonlinear_arith);
        }
        self.starmap_side * self.starmap_side
            + ATLAS_0080_0_STARSYSTEM_COUNT as u32 * self.starsystem_side * self.starsystem_side
            + ATLAS_0080_0_STARSYSTEM_COUNT as u32 * self.planet_side * self.planet_side
    }
}

/// Cells resident for a theater stack.
pub open spec fn stack_cell_total(stack: Seq<Atlas0080TheaterId>) -> int
    decreases stack.len(),
{
    if stack.len() == 0 {
        0
    } else {
        stack_cell_total(stack.drop_last()) + theater_cell_count(stack.last())
    }
}

/// The i8 value the oracle assigns to `slot` of `theater`: a mixed hash of seed, theater and
/// slot, reduced modulo 127.
pub open spec fn oracle_value(seed: u64, theater: Atlas0080TheaterId, slot: u32) -> i8 {
    let h = stable_mix_spec(
        seed ^ sat_mul_u64_spec(theater_code(theater), 0x9E37_79B9) ^ sat_mul_u64_spec(slot as u64, 0x85EB_CA6B),
    );
    (h % 127) as i8
}

/// Values materialized for a theater stack: every slot of every theater, in stack order.
pub open spec fn materialized_spec(seed: u64, stack: Seq<Atlas0080TheaterId>) -> Seq<i8>
    decreases stack.len(),
{
    if stack.len() == 0 {
        Seq::empty()
    } else {
        materialized_spec(seed, stack.drop_last())
            + Seq::new(theater_cell_count(stack.last()) as nat, |slot: int| oracle_value(seed, stack.last(), slot as u32))
    }
}

fn i8_oracle_value(seed: u64, theater: Atlas0080TheaterId, slot: u32) -> (r: i8)
    ensures
        r == oracle_value(seed, theater, slot),
{
    let hash = stable_mix(
        seed ^ sat_mul_u64(theater.stable_code(), 0x9E37_79B9) ^ sat_mul_u64(slot as u64, 0x85EB_CA6B),
    );
    (hash % 127) as i8
}

fn materialized_values(theaters: &Vec<Atlas0080TheaterId>, scenario: &Atlas0080Scenario) -> (r: Vec<i8>)
    ensures
        r@ == materialized_spec(scenario.seed, theaters@),
{
    let mut values: Vec<i8> = Vec::new();
    let mut t: usize = 0;
    while t < theaters.len()
        invariant
            t <= theaters@.len(),
            values@ == materialized_spec(scenario.seed, theaters@.take(t as int)),
        decreases theaters@.len() - t,
    {
        let theater = theaters[t];
        let count = theater.cell_count();
        let ghost prefix = values@;
        let mut slot: u32 = 0;
        while slot < count
            invariant
                slot <= count,
                count == theater_cell_count(theater),
                values@ == prefix + Seq::new(slot as nat, |s: int| oracle_value(scenario.seed, theater, s as u32)),
            decreases count - slot,
        {
            values.push(i8_oracle_value(scenario.seed, theater, slot));
            proof {
                assert(values@ =~= prefix + Seq::new((slot + 1) as nat, |s: int| oracle_value(scenario.seed, theater, s as u32)));
            }
            slot = slot + 1;
        }
        proof {
            assert(theaters@.take(t + 1).drop_last() == theaters@.take(t as int));
            assert(theaters@.take(t + 1).last() == theater);
        }
        t = t + 1;
    }
    proof {
        assert(theaters@.take(theaters@.len() as int) == theaters@);
    }
    values
}

/// Resident theaters of the runtime: exactly the active stack.
#[derive(Clone, Debug, PartialEq, Eq)]
pub struct Atlas0080ResidencyState {
    pub active_theaters: Vec<Atlas0080TheaterId>,
    pub resident_theaters: Vec<Atlas0080TheaterId>,
    pub resident_cell_count: u32,
    pub estimated_resident_bytes: u64,
}

proof fn lemma_stack_cell_total(stack: Seq<Atlas0080TheaterId>)
    ensures
        stack_cell_total(stack) == 100 * stack.len(),
    decreases stack.len(),
{
    if stack.len() > 0 {
        lemma_stack_cell_total(stack.drop_last());
    }
}

fn copy_theaters(v: &Vec<Atlas0080TheaterId>) -> (r: Vec<Atlas0080TheaterId>)
    ensures
        r@ == v@,
{
    let mut out: Vec<Atlas0080TheaterId> = Vec::new();
    let mut k: usize = 0;
    while k < v.len()
        invariant
            k <= v@.len(),
            out@ == v@.take(k as int),
        decreases v@.len() - k,
    {
        out.push(v[k]);
        k = k + 1;
    }
    proof {
        assert(v@.take(v@.len() as int) == v@);
    }
    out
}

impl Atlas0080ResidencyState {
    fn from_stack(active_theaters: Vec<Atlas0080TheaterId>) -> (r: Self)
        requires
            active_theaters@.len() <= 3,
        ensures
            r.active_theaters@ == active_theaters@,
            r.resident_theaters@ == active_theaters@,
            r.resident_cell_count == stack_cell_total(active_theaters@),
            r.estimated_resident_bytes == stack_cell_total(active_theaters@),
    {
        let mut total: u32 = 0;
        let mut k: usize = 0;
        while k < active_theaters.len()
            invariant
                k <= active_theaters@.len() <= 3,
                total == stack_cell_total(active_theaters@.take(k as int)),
            decreases active_theaters@.len() - k,
        {
            proof {
                lemma_stack_cell_total(active_theaters@.take(k as int));
                assert(active_theaters@.take(k + 1).drop_last() == active_theaters@.take(k as int));
            }
            total = total + active_theaters[k].cell_count();
            k = k + 1;
        }
        proof {
            assert(active_theaters@.take(active_theaters@.len() as int) == active_theaters@);
        }
        Atlas0080ResidencyState {
            resident_theaters: copy_theaters(&active_theaters),
            active_theaters,
            resident_cell_count: total,
            estimated_resident_bytes: total as u64,
        }
    }
}

/// One step of the access pattern.
#[derive(Clone, Debug, PartialEq, Eq)]
pub struct Atlas0080ResidencyReport {
    pub step_index: u32,
    pub request: Option<Atlas0080ResidencyRequest>,
    pub active_theaters_before: Vec<Atlas0080TheaterId>,
    pub active_theaters_after: Vec<Atlas0080TheaterId>,
    pub resident_theaters: Vec<Atlas0080TheaterId>,
    pub resident_cell_count: u32,
    pub inert_cell_count: u32,
    pub estimated_resident_bytes: u64,
    pub vram_budget_bytes: u64,
    pub within_vram_budget: bool,
    pub sparse_residency_only_active_theaters: bool,
    pub residency_changes_values: bool,
    pub value_noop_parity_bit_exact: bool,
    pub materialized_i8_values_before: Vec<i8>,
    pub materialized_i8_values_after: Vec<i8>,
}

/// One descent or ascent: the stack before and after a request.
#[derive(Clone, Debug, PartialEq, Eq)]
pub struct Atlas0080DescentAscentReport {
    pub request: Atlas0080ResidencyRequest,
    pub from: Vec<Atlas0080TheaterId>,
    pub to: Vec<Atlas0080TheaterId>,
    pub deterministic: bool,
}

/// Input of one run.
#[derive(Clone, Debug, PartialEq, Eq)]
pub struct Atlas0080Input {
    pub surface: Atlas0080Surface,
    pub scenario: Atlas0080Scenario,
    pub access_pattern: Vec<Atlas0080ResidencyRequest>,
    pub forbidden: Atlas0080ForbiddenRequests,
}

/// Descend to starsystem 0, to its planet, back up to the starsystem, back to the starmap.
pub open spec fn canonical_pattern() -> Seq<Atlas0080ResidencyRequest> {
    seq![
        Atlas0080ResidencyRequest::DescendToStarsystem { starsystem_index: 0 },
        Atlas0080ResidencyRequest::DescendToPlanet { starsystem_index: 0 },
        Atlas0080ResidencyRequest::AscendToStarsystem { starsystem_index: 0 },
        Atlas0080ResidencyRequest::AscendToStarmap,
    ]
}

/// The canonical input that `Atlas0080Input::explicit_opt_in` returns.
pub open spec fn canonical_atlas_input(r: Atlas0080Input) -> bool {
    &&& r.surface.gate.explicit_opt_in && !r.surface.gate.enabled_by_default
    &&& !r.surface.default_session_pass_graph_wiring && !r.surface.global_mapping_scheduler
    &&& !r.surface.realtime_loop && !r.surface.ui_framework
    &&& scenario_from_seed(r.scenario, ATLAS_0080_0_DEFAULT_SEED)
    &&& r.access_pattern@ == canonical_pattern()
    &&& forbidden_diagnostics(Seq::empty(), r.forbidden).len() == 0
}

impl Atlas0080Input {
    /// The default session: gate closed, canonical scenario, no accesses.
    pub fn default_simsession() -> (r: Self)
        ensures
            !r.surface.gate.explicit_opt_in && !r.surface.gate.enabled_by_default,
            !r.surface.default_session_pass_graph_wiring && !r.surface.global_mapping_scheduler,
            !r.surface.realtime_loop && !r.surface.ui_framework,
            scenario_from_seed(r.scenario, ATLAS_0080_0_DEFAULT_SEED),
            r.access_pattern@.len() == 0,
            forbidden_diagnostics(Seq::empty(), r.forbidden).len() == 0,
    {
        Atlas0080Input {
            surface: Atlas0080Surface::default_simsession(),
            scenario: Atlas0080Scenario::canonical(),
            access_pattern: Vec::new(),
            forbidden: Atlas0080ForbiddenRequests::default(),
        }
    }

    /// Opted in, canonical scenario and access pattern.
    pub fn explicit_opt_in() -> (r: Self)
        ensures
            canonical_atlas_input(r),
    {
        Atlas0080Input {
            surface: Atlas0080Surface::with_explicit_opt_in(),
            scenario: Atlas0080Scenario::canonical(),
            access_pattern: Self::canonical_access_pattern(),
            forbidden: Atlas0080ForbiddenRequests::default(),
        }
    }

    /// Descend to starsystem 0, to its planet, back up to the starsystem, back to the starmap.
    pub fn canonical_access_pattern() -> (r: Vec<Atlas0080ResidencyRequest>)
        ensures
            r@ == canonical_pattern(),
    {
        let mut v: Vec<Atlas0080ResidencyRequest> = Vec::new();
        v.push(Atlas0080ResidencyRequest::DescendToStarsystem { starsystem_index: 0 });
        v.push(Atlas0080ResidencyRequest::DescendToPlanet { starsystem_index: 0 });
        v.push(Atlas0080ResidencyRequest::AscendToStarsystem { starsystem_index: 0 });
        v.push(Atlas0080ResidencyRequest::AscendToStarmap);
        proof {
            assert(v@ =~= canonical_pattern());
        }
        v
    }
}

/// `acc` followed by the diagnostics for the surface flags, in check order.
pub open spec fn surface_diagnostics(acc: Seq<&'static str>, s: Atlas0080Surface) -> Seq<&'static str> {
    acc + flag_diag(s.gate.enabled_by_default, "atlas_0080_0_default_on_behavior_rejected")
        + flag_diag(s.default_session_pass_graph_wiring, "default_session_pass_graph_wiring")
        + flag_diag(s.global_mapping_scheduler, "global_mapping_scheduler")
        + flag_diag(s.realtime_loop, "realtime_loop")
        + flag_diag(s.ui_framework, "ui_framework")
}

/// The scenario has the nested starmap's shape: sides of ten, ten starsystems, ten planets,
/// 2 100 logical locations.
pub open spec fn scenario_well_shaped(s: Atlas0080Scenario) -> bool {
    &&& s.starmap_side == 10 && s.starsystem_side == 10 && s.planet_side == 10
    &&& s.starsystem_cells@.len() == 10 && s.planet_cells@.len() == 10
    &&& location_count_int(s) == 2_100
}

/// The starsystem index a request names, if any.
pub open spec fn request_index(r: Atlas0080ResidencyRequest) -> Option<u8> {
    match r {
        Atlas0080ResidencyRequest::DescendToStarsystem { starsystem_index } => Some(starsystem_index),
        Atlas0080ResidencyRequest::DescendToPlanet { starsystem_index } => Some(starsystem_index),
        Atlas0080ResidencyRequest::AscendToStarsystem { starsystem_index } => Some(starsystem_index),
        Atlas0080ResidencyRequest::AscendToStarmap => None,
    }
}

/// `acc` followed by one out-of-bounds diagnostic per request naming a starsystem index ≥ 10.
pub open spec fn access_diagnostics(acc: Seq<&'static str>, pattern: Seq<Atlas0080ResidencyRequest>) -> Seq<&'static str>
    decreases pattern.len(),
{
    if pattern.len() == 0 {
        acc
    } else {
        access_diagnostics(acc, pattern.drop_last()) + flag_diag(
            request_index(pattern.last()) matches Some(i) && i >= 10,
            "starsystem_index_out_of_bounds",
        )
    }
}

/// Every diagnostic of a run, in check order: surface, scenario, access pattern, forbidden requests.
pub open spec fn run_diagnostics(input: Atlas0080Input) -> Seq<&'static str> {
    let a = surface_diagnostics(Seq::empty(), input.surface)
        + flag_diag(!scenario_well_shaped(input.scenario), "nested_starmap_shape_bounds");
    forbidden_diagnostics(access_diagnostics(a, input.access_pattern@), input.forbidden)
}

fn validate_surface(surface: &Atlas0080Surface, diagnostics: &mut Vec<&'static str>)
    ensures
        final(diagnostics)@ == surface_diagnostics(old(diagnostics)@, *surface),
{
    push_if(diagnostics, surface.gate.enabled_by_default, "atlas_0080_0_default_on_behavior_rejected");
    push_if(diagnostics, surface.default_session_pass_graph_wiring, "default_session_pass_graph_wiring");
    push_if(diagnostics, surface.global_mapping_scheduler, "global_mapping_scheduler");
    push_if(diagnostics, surface.realtime_loop, "realtime_loop");
    push_if(diagnostics, surface.ui_framework, "ui_framework");
}

fn validate_scenario(scenario: &Atlas0080Scenario, diagnostics: &mut Vec<&'static str>)
    ensures
        final(diagnostics)@ == old(diagnostics)@ + flag_diag(!scenario_well_shaped(*scenario), "nested_starmap_shape_bounds"),
{
    let bad = if scenario.starmap_side != ATLAS_0080_0_STARMAP_SIDE
        || scenario.starsystem_side != ATLAS_0080_0_STARSYSTEM_SIDE
        || scenario.planet_side != ATLAS_0080_0_PLANET_SIDE
        || scenario.starsystem_cells.len() != ATLAS_0080_0_STARSYSTEM_COUNT
        || scenario.planet_cells.len() != ATLAS_0080_0_STARSYSTEM_COUNT
    {
        true
    } else {
        scenario.logical_location_count() != ATLAS_0080_0_LOGICAL_LOCATION_COUNT
    };
    push_if(diagnostics, bad, "nested_starmap_shape_bounds");
}

fn validate_access_pattern(access_pattern: &Vec<Atlas0080ResidencyRequest>, diagnostics: &mut Vec<&'static str>)
    ensures
        final(diagnostics)@ == access_diagnostics(old(diagnostics)@, access_pattern@),
{
    let ghost start = diagnostics@;
    let mut k: usize = 0;
    while k < access_pattern.len()
        invariant
            k <= access_pattern@.len(),
            diagnostics@ == access_diagnostics(start, access_pattern@.take(k as int)),
        decreases access_pattern@.len() - k,
    {
        let out_of_bounds = match access_pattern[k] {
            Atlas0080ResidencyRequest::DescendToStarsystem { starsystem_index }
            | Atlas0080ResidencyRequest::DescendToPlanet { starsystem_index }
            | Atlas0080ResidencyRequest::AscendToStarsystem { starsystem_index } => {
                starsystem_index as usize >= ATLAS_0080_0_STARSYSTEM_COUNT
            }
            Atlas0080ResidencyRequest::AscendToStarmap => false,
        };
        push_if(diagnostics, out_of_bounds, "starsystem_index_out_of_bounds");
        proof {
            assert(access_pattern@.take(k + 1).drop_last() == access_pattern@.take(k as int));
        }
        k = k + 1;
    }
    proof {
        assert(access_pattern@.take(access_pattern@.len() as int) == access_pattern@);
    }
}

#[verifier::rlimit(40)]
fn validate_forbidden(forbidden: &Atlas0080ForbiddenRequests, diagnostics: &mut Vec<&'static str>)
    ensures
        final(diagnostics)@ == forbidden_diagnostics(old(diagnostics)@, *forbidden),
{
    push_if(diagnostics, forbidden.default_session_pass_graph_wiring, "default_session_pass_graph_wiring");
    push_if(diagnostics, forbidden.global_mapping_scheduler, "global_mapping_scheduler");
    push_if(diagnostics, forbidden.realtime_loop, "realtime_loop");
    push_if(diagnostics, forbidden.ui_framework, "ui_framework");
    push_if(diagnostics, forbidden.residency_alters_field_values, "residency_alters_field_values");
    push_if(diagnostics, forbidden.semantic_or_raw_wgsl, "semantic_or_raw_wgsl");
    push_if(diagnostics, forbidden.semantically_named_shader, "semantically_named_shader");
    push_if(diagnostics, forbidden.cpu_planner, "cpu_planner");
    push_if(diagnostics, forbidden.clausething_dependency, "clausething_dependency");
    push_if(diagnostics, forbidden.invariant_edit, "invariant_edit");
    push_if(diagnostics, forbidden.general_mapping_runtime, "general_mapping_runtime");
    push_if(diagnostics, forbidden.econ_scale_0080_0, "econ_scale_0080_0_not_implemented");
    push_if(diagnostics, forbidden.production_path_0080_1, "production_path_0080_1_not_implemented");
}

/// The active stack before step `i`: the starmap alone first, then the previous request's stack.
pub open spec fn stack_before(input: Atlas0080Input, i: int) -> Seq<Atlas0080TheaterId> {
    if i == 0 {
        seq![Atlas0080TheaterId::Starmap]
    } else {
        target_stack_spec(input.access_pattern@[i - 1])
    }
}

/// What step `i` of an admitted run reports.
pub open spec fn residency_step(rep: Atlas0080ResidencyReport, input: Atlas0080Input, i: int) -> bool {
    let req = input.access_pattern@[i];
    let before = stack_before(input, i);
    let after = target_stack_spec(req);
    let count = stack_cell_total(after);
    let llc = location_count_int(input.scenario);
    &&& rep.step_index == i as u32
    &&& rep.request == Some(req)
    &&& rep.active_theaters_before@ == before
    &&& rep.active_theaters_after@ == after
    &&& rep.resident_theaters@ == after
    &&& rep.resident_cell_count == count
    &&& rep.inert_cell_count == (if llc > count { llc - count } else { 0 })
    &&& rep.estimated_resident_bytes == count
    &&& rep.vram_budget_bytes == ATLAS_DEFAULT_VRAM_BUDGET_BYTES
    &&& rep.within_vram_budget == (count <= ATLAS_DEFAULT_VRAM_BUDGET_BYTES)
    &&& rep.sparse_residency_only_active_theaters == (count < llc)
    &&& !rep.residency_changes_values
    &&& rep.value_noop_parity_bit_exact
    &&& rep.materialized_i8_values_before@ == materialized_spec(input.scenario.seed, before)
    &&& rep.materialized_i8_values_after@ == materialized_spec(input.scenario.seed, after)
}

/// What step `i` of an admitted run reports as its descent or ascent.
pub open spec fn descent_step(rep: Atlas0080DescentAscentReport, input: Atlas0080Input, i: int) -> bool {
    &&& rep.request == input.access_pattern@[i]
    &&& rep.from@ == stack_before(input, i)
    &&& rep.to@ == target_stack_spec(input.access_pattern@[i])
    &&& rep.deterministic
}

fn theaters_equal(a: &Vec<Atlas0080TheaterId>, b: &Vec<Atlas0080TheaterId>) -> (r: bool)
    ensures
        r == (a@ == b@),
{
    if a.len() != b.len() {
        return false;
    }
    let mut k: usize = 0;
    while k < a.len()
        invariant
            k <= a@.len() == b@.len(),
            forall|i: int| 0 <= i < k ==> a@[i] == b@[i],
        decreases a@.len() - k,
    {
        if a[k] != b[k] {
            return false;
        }
        k = k + 1;
    }
    proof {
        assert(a@ =~= b@);
    }
    true
}

fn values_equal(a: &Vec<i8>, b: &Vec<i8>) -> (r: bool)
    ensures
        r == (a@ == b@),
{
    if a.len() != b.len() {
        return false;
    }
    let mut k: usize = 0;
    while k < a.len()
        invariant
            k <= a@.len() == b@.len(),
            forall|i: int| 0 <= i < k ==> a@[i] == b@[i],
        decreases a@.len() - k,
    {
        if a[k] != b[k] {
            return false;
        }
        k = k + 1;
    }
    proof {
        assert(a@ =~= b@);
    }
    true
}

/// Outcome of one run of the runtime.
#[derive(Clone, Debug, PartialEq, Eq)]
pub struct Atlas0080Report {
    pub atlas_id: &'static str,
    pub status: &'static str,
    pub scenario_name: &'static str,
    pub admitted: bool,
    pub diagnostics: Vec<&'static str>,
    pub explicit_opt_in: bool,
    pub default_off: bool,
    pub disabled_no_op: bool,
    pub scenario_scoped_only: bool,
    pub default_session_has_no_residency_runtime: bool,
    pub default_session_pass_graph_wiring: bool,
    pub global_mapping_scheduler: bool,
    pub realtime_loop: bool,
    pub ui_framework: bool,
    pub semantic_or_raw_wgsl_present: bool,
    pub clausething_dependency_present: bool,
    pub cpu_planner_used: bool,
    pub econ_scale_0080_0_implemented: bool,
    pub production_path_0080_1_implemented: bool,
    pub starmap_side: u32,
    pub starsystem_count: usize,
    pub starsystem_side: u32,
    pub planet_count: usize,
    pub planet_side: u32,
    pub logical_location_count: u32,
    pub starsystem_cells: Vec<Atlas0080Cell>,
    pub planet_cells: Vec<Atlas0080Cell>,
    pub sparse_residency: bool,
    pub max_resident_cell_count: u32,
    pub total_logical_cell_count: u32,
    pub vram_budget_bytes: u64,
    pub max_estimated_resident_bytes: u64,
    pub within_vram_budget: bool,
    pub residency_reports: Vec<Atlas0080ResidencyReport>,
    pub descent_ascent_reports: Vec<Atlas0080DescentAscentReport>,
    pub value_noop_parity_bit_exact: bool,
    pub deterministic_replay_checksum: u64,
}

/// Largest resident cell count over the steps (0 without steps).
pub open spec fn max_resident(reps: Seq<Atlas0080ResidencyReport>) -> u32
    decreases reps.len(),
{
    if reps.len() == 0 {
        0
    } else {
        let m = max_resident(reps.drop_last());
        if reps.last().resident_cell_count > m { reps.last().resident_cell_count } else { m }
    }
}

/// Largest estimated resident byte count over the steps (0 without steps).
pub open spec fn max_bytes(reps: Seq<Atlas0080ResidencyReport>) -> u64
    decreases reps.len(),
{
    if reps.len() == 0 {
        0
    } else {
        let m = max_bytes(reps.drop_last());
        if reps.last().estimated_resident_bytes > m { reps.last().estimated_resident_bytes } else { m }
    }
}

/// Every step kept values bit-exact and changed none.
pub open spec fn all_value_noop(reps: Seq<Atlas0080ResidencyReport>) -> bool {
    forall|i: int| 0 <= i < reps.len() ==> (#[trigger] reps[i]).value_noop_parity_bit_exact
        && !reps[i].residency_changes_values
}

/// Every step kept only active theaters resident, below the logical location count.
pub open spec fn all_sparse(reps: Seq<Atlas0080ResidencyReport>, llc: int) -> bool {
    forall|i: int| 0 <= i < reps.len() ==> (#[trigger] reps[i]).sparse_residency_only_active_theaters
        && reps[i].resident_cell_count < llc
}

/// The 16-bit two's-complement word of an i8, widened.
pub open spec fn i8_word(v: i8) -> u64 {
    if v >= 0 { v as u64 } else { (v + 65536) as u64 }
}

/// Whole-word FNV over the cells' coordinates.
pub open spec fn cells_hash(h: u64, cells: Seq<Atlas0080Cell>) -> u64
    decreases cells.len(),
{
    if cells.len() == 0 {
        h
    } else {
        fnv_step(fnv_step(cells_hash(h, cells.drop_last()), cells.last().x as u64), cells.last().y as u64)
    }
}

/// Whole-word FNV over theater codes.
pub open spec fn codes_hash(h: u64, ts: Seq<Atlas0080TheaterId>) -> u64
    decreases ts.len(),
{
    if ts.len() == 0 {
        h
    } else {
        fnv_step(codes_hash(h, ts.drop_last()), theater_code(ts.last()))
    }
}

/// Whole-word FNV over i8 values, each as its 16-bit word.
pub open spec fn i8s_hash(h: u64, vs: Seq<i8>) -> u64
    decreases vs.len(),
{
    if vs.len() == 0 {
        h
    } else {
        fnv_step(i8s_hash(h, vs.drop_last()), i8_word(vs.last()))
    }
}

/// Hash of one step: index, resident count, bytes, resident codes, values after.
pub open spec fn step_hash(h: u64, rep: Atlas0080ResidencyReport) -> u64 {
    i8s_hash(
        codes_hash(
            fnv_step(fnv_step(fnv_step(h, rep.step_index as u64), rep.resident_cell_count as u64), rep.estimated_resident_bytes),
            rep.resident_theaters@,
        ),
        rep.materialized_i8_values_after@,
    )
}

/// Hash of every step in order.
pub open spec fn steps_hash(h: u64, reps: Seq<Atlas0080ResidencyReport>) -> u64
    decreases reps.len(),
{
    if reps.len() == 0 {
        h
    } else {
        step_hash(steps_hash(h, reps.drop_last()), reps.last())
    }
}

/// Replay checksum: starsystem cells, then every step.
pub open spec fn atlas_checksum(cells: Seq<Atlas0080Cell>, reps: Seq<Atlas0080ResidencyReport>) -> u64 {
    steps_hash(cells_hash(FNV_OFFSET_BASIS, cells), reps)
}

fn hash_step(h: u64, rep: &Atlas0080ResidencyReport) -> (r: u64)
    ensures
        r == step_hash(h, *rep),
{
    let mut hash = fnv(h, rep.step_index as u64);
    hash = fnv(hash, rep.resident_cell_count as u64);
    hash = fnv(hash, rep.estimated_resident_bytes);
    let ghost h0 = hash;
    let mut k: usize = 0;
    while k < rep.resident_theaters.len()
        invariant
            k <= rep.resident_theaters@.len(),
            hash == codes_hash(h0, rep.resident_theaters@.take(k as int)),
        decreases rep.resident_theaters@.len() - k,
    {
        hash = fnv(hash, rep.resident_theaters[k].stable_code());
        proof {
            assert(rep.resident_theaters@.take(k + 1).drop_last() == rep.resident_theaters@.take(k as int));
        }
        k = k + 1;
    }
    proof {
        assert(rep.resident_theaters@.take(rep.resident_theaters@.len() as int) == rep.resident_theaters@);
    }
    let ghost h1 = hash;
    let mut n: usize = 0;
    while n < rep.materialized_i8_values_after.len()
        invariant
            n <= rep.materialized_i8_values_after@.len(),
            hash == i8s_hash(h1, rep.materialized_i8_values_after@.take(n as int)),
        decreases rep.materialized_i8_values_after@.len() - n,
    {
        let v = rep.materialized_i8_values_after[n];
        let word: u64 = if v >= 0 { v as u64 } else { (v as i32 + 65536) as u64 };
        hash = fnv(hash, word);
        proof {
            assert(rep.materialized_i8_values_after@.take(n + 1).drop_last() == rep.materialized_i8_values_after@.take(n as int));
        }
        n = n + 1;
    }
    proof {
        assert(rep.materialized_i8_values_after@.take(rep.materialized_i8_values_after@.len() as int)
            == rep.materialized_i8_values_after@);
    }
    hash
}

fn checksum_report(cells: &Vec<Atlas0080Cell>, reps: &Vec<Atlas0080ResidencyReport>) -> (r: u64)
    ensures
        r == atlas_checksum(cells@, reps@),
{
    let mut hash = FNV_OFFSET_BASIS;
    let mut k: usize = 0;
    while k < cells.len()
        invariant
            k <= cells@.len(),
            hash == cells_hash(FNV_OFFSET_BASIS, cells@.take(k as int)),
        decreases cells@.len() - k,
    {
        hash = fnv(hash, cells[k].x as u64);
        hash = fnv(hash, cells[k].y as u64);
        proof {
            assert(cells@.take(k + 1).drop_last() == cells@.take(k as int));
        }
        k = k + 1;
    }
    proof {
        assert(cells@.take(cells@.len() as int) == cells@);
    }
    let ghost h0 = hash;
    let mut n: usize = 0;
    while n < reps.len()
        invariant
            n <= reps@.len(),
            hash == steps_hash(h0, reps@.take(n as int)),
        decreases reps@.len() - n,
    {
        hash = hash_step(hash, &reps[n]);
        proof {
            assert(reps@.take(n + 1).drop_last() == reps@.take(n as int));
        }
        n = n + 1;
    }
    proof {
        assert(reps@.take(reps@.len() as int) == reps@);
    }
    hash
}

/// Guardrail, identity and scenario fields every report carries.
pub open spec fn report_frame(r: Atlas0080Report, input: Atlas0080Input) -> bool {
    let s = input.scenario;
    &&& r.atlas_id == ATLAS_0080_0_ID
    &&& r.status == ATLAS_0080_0_STATUS_PASS
    &&& r.scenario_name == ATLAS_0080_0_SCENARIO
    &&& r.explicit_opt_in == input.surface.gate.explicit_opt_in
    &&& r.default_off == !input.surface.gate.enabled_by_default
    &&& r.scenario_scoped_only
    &&& r.default_session_has_no_residency_runtime == !input.surface.gate.explicit_opt_in
    &&& r.default_session_pass_graph_wiring == (input.surface.default_session_pass_graph_wiring
        || input.forbidden.default_session_pass_graph_wiring)
    &&& r.global_mapping_scheduler == (input.surface.global_mapping_scheduler || input.forbidden.global_mapping_scheduler)
    &&& r.realtime_loop == (input.surface.realtime_loop || input.forbidden.realtime_loop)
    &&& r.ui_framework == (input.surface.ui_framework || input.forbidden.ui_framework)
    &&& r.semantic_or_raw_wgsl_present == input.forbidden.semantic_or_raw_wgsl
    &&& r.clausething_dependency_present == input.forbidden.clausething_dependency
    &&& r.cpu_planner_used == input.forbidden.cpu_planner
    &&& !r.econ_scale_0080_0_implemented
    &&& !r.production_path_0080_1_implemented
    &&& r.starmap_side == s.starmap_side
    &&& r.starsystem_count == s.starsystem_cells@.len()
    &&& r.starsystem_side == s.starsystem_side
    &&& r.planet_count == s.planet_cells@.len()
    &&& r.planet_side == s.planet_side
    &&& r.logical_location_count == location_count_int(s)
    &&& r.total_logical_cell_count == location_count_int(s)
    &&& r.starsystem_cells@ == s.starsystem_cells@
    &&& r.planet_cells@ == s.planet_cells@
    &&& r.vram_budget_bytes == ATLAS_DEFAULT_VRAM_BUDGET_BYTES
}

/// Fields derived from the steps of a report.
pub open spec fn report_summary(r: Atlas0080Report, input: Atlas0080Input, admitted: bool) -> bool {
    let reps = r.residency_reports@;
    let live = admitted && input.surface.gate.explicit_opt_in;
    &&& r.admitted == admitted
    &&& r.disabled_no_op == (admitted && !input.surface.gate.explicit_opt_in)
    &&& r.max_resident_cell_count == max_resident(reps)
    &&& r.max_estimated_resident_bytes == max_bytes(reps)
    &&& r.within_vram_budget == (max_bytes(reps) <= ATLAS_DEFAULT_VRAM_BUDGET_BYTES)
    &&& r.value_noop_parity_bit_exact == (live && all_value_noop(reps))
    &&& r.sparse_residency == (live && all_sparse(reps, location_count_int(input.scenario)))
    &&& r.deterministic_replay_checksum == atlas_checksum(input.scenario.starsystem_cells@, reps)
}

fn copy_cells(v: &Vec<Atlas0080Cell>) -> (r: Vec<Atlas0080Cell>)
    ensures
        r@ == v@,
{
    let mut out: Vec<Atlas0080Cell> = Vec::new();
    let mut k: usize = 0;
    while k < v.len()
        invariant
            k <= v@.len(),
            out@ == v@.take(k as int),
        decreases v@.len() - k,
    {
        out.push(v[k]);
        k = k + 1;
    }
    proof {
        assert(v@.take(v@.len() as int) == v@);
    }
    out
}

fn base_report(
    input: &Atlas0080Input,
    admitted: bool,
    diagnostics: Vec<&'static str>,
    residency_reports: Vec<Atlas0080ResidencyReport>,
    descent_ascent_reports: Vec<Atlas0080DescentAscentReport>,
) -> (r: Atlas0080Report)
    requires
        location_count_int(input.scenario) <= u32::MAX,
    ensures
        report_frame(r, *input),
        report_summary(r, *input, admitted),
        r.diagnostics@ == diagnostics@,
        r.residency_reports@ == residency_reports@,
        r.descent_ascent_reports@ == descent_ascent_reports@,
{
    let opt_in = input.surface.gate.explicit_opt_in;
    let llc = input.scenario.logical_location_count();
    let mut max_resident_cell_count: u32 = 0;
    let mut max_estimated_resident_bytes: u64 = 0;
    let mut all_noop = true;
    let mut all_sparse_steps = true;
    let mut k: usize = 0;
    while k < residency_reports.len()
        invariant
            k <= residency_reports@.len(),
            llc == location_count_int(input.scenario),
            max_resident_cell_count == max_resident(residency_reports@.take(k as int)),
            max_estimated_resident_bytes == max_bytes(residency_reports@.take(k as int)),
            all_noop == all_value_noop(residency_reports@.take(k as int)),
            all_sparse_steps == all_sparse(residency_reports@.take(k as int), llc as int),
        decreases residency_reports@.len() - k,
    {
        let rep = &residency_reports[k];
        proof {
            assert(residency_reports@.take(k + 1).drop_last() == residency_reports@.take(k as int));
            assert(residency_reports@.take(k + 1).last() == residency_reports@[k as int]);
        }
        if rep.resident_cell_count > max_resident_cell_count {
            max_resident_cell_count = rep.resident_cell_count;
        }
        if rep.estimated_resident_bytes > max_estimated_resident_bytes {
            max_estimated_resident_bytes = rep.estimated_resident_bytes;
        }
        all_noop = all_noop && rep.value_noop_parity_bit_exact && !rep.residency_changes_values;
        all_sparse_steps = all_sparse_steps && rep.sparse_residency_only_active_theaters && rep.resident_cell_count < llc;
        proof {
            let t = residency_reports@.take(k + 1);
            if all_noop {
                assert forall|i: int| 0 <= i < t.len() implies (#[trigger] t[i]).value_noop_parity_bit_exact
                    && !t[i].residency_changes_values by {
                    if i < k {
                        assert(residency_reports@.take(k as int)[i] == t[i]);
                    }
                }
            } else {
                if !(rep.value_noop_parity_bit_exact && !rep.residency_changes_values) {
                    assert(t[k as int] == *rep);
                } else {
                    let w = choose|i: int| 0 <= i < k && !((#[trigger] residency_reports@.take(k as int)[i]).value_noop_parity_bit_exact
                        && !residency_reports@.take(k as int)[i].residency_changes_values);
                    assert(t[w] == residency_reports@.take(k as int)[w]);
                }
            }
            if all_sparse_steps {
                assert forall|i: int| 0 <= i < t.len() implies (#[trigger] t[i]).sparse_residency_only_active_theaters
                    && t[i].resident_cell_count < llc by {
                    if i < k {
                        assert(residency_reports@.take(k as int)[i] == t[i]);
                    }
                }
            } else {
                if !(rep.sparse_residency_only_active_theaters && rep.resident_cell_count < llc) {
                    assert(t[k as int] == *rep);
                } else {
                    let w = choose|i: int| 0 <= i < k && !((#[trigger] residency_reports@.take(k as int)[i]).sparse_residency_only_active_theaters
                        && residency_reports@.take(k as int)[i].resident_cell_count < llc);
                    assert(t[w] == residency_reports@.take(k as int)[w]);
                }
            }
        }
        k = k + 1;
    }
    proof {
        assert(residency_reports@.take(residency_reports@.len() as int) == residency_reports@);
    }
    let within_vram_budget = max_estimated_resident_bytes <= ATLAS_DEFAULT_VRAM_BUDGET_BYTES;
    let value_noop_parity_bit_exact = admitted && opt_in && all_noop;
    let sparse_residency = admitted && opt_in && all_sparse_steps;
    let checksum = checksum_report(&input.scenario.starsystem_cells, &residency_reports);
    Atlas0080Report {
        atlas_id: ATLAS_0080_0_ID,
        status: ATLAS_0080_0_STATUS_PASS,
        scenario_name: ATLAS_0080_0_SCENARIO,
        admitted,
        diagnostics,
        explicit_opt_in: opt_in,
        default_off: !input.surface.gate.enabled_by_default,
        disabled_no_op: admitted && !opt_in,
        scenario_scoped_only: true,
        default_session_has_no_residency_runtime: !opt_in,
        default_session_pass_graph_wiring: input.surface.default_session_pass_graph_wiring
            || input.forbidden.default_session_pass_graph_wiring,
        global_mapping_scheduler: input.surface.global_mapping_scheduler || input.forbidden.global_mapping_scheduler,
        realtime_loop: input.surface.realtime_loop || input.forbidden.realtime_loop,
        ui_framework: input.surface.ui_framework || input.forbidden.ui_framework,
        semantic_or_raw_wgsl_present: input.forbidden.semantic_or_raw_wgsl,
        clausething_dependency_present: input.forbidden.clausething_dependency,
        cpu_planner_used: input.forbidden.cpu_planner,
        econ_scale_0080_0_implemented: false,
        production_path_0080_1_implemented: false,
        starmap_side: input.scenario.starmap_side,
        starsystem_count: input.scenario.starsystem_cells.len(),
        starsystem_side: input.scenario.starsystem_side,
        planet_count: input.scenario.planet_cells.len(),
        planet_side: input.scenario.planet_side,
        logical_location_count: llc,
        starsystem_cells: copy_cells(&input.scenario.starsystem_cells),
        planet_cells: copy_cells(&input.scenario.planet_cells),
        sparse_residency,
        max_resident_cell_count,
        total_logical_cell_count: llc,
        vram_budget_bytes: ATLAS_DEFAULT_VRAM_BUDGET_BYTES,
        max_estimated_resident_bytes,
        within_vram_budget,
        residency_reports,
        descent_ascent_reports,
        value_noop_parity_bit_exact,
        deterministic_replay_checksum: checksum,
    }
}

/// A target stack holds at most three theaters.
proof fn lemma_target_stack_small(req: Atlas0080ResidencyRequest)
    ensures
        1 <= target_stack_spec(req).len() <= 3,
        stack_cell_total(target_stack_spec(req)) == 100 * target_stack_spec(req).len(),
{
    lemma_stack_cell_total(target_stack_spec(req));
}

/// What `run_atlas_0080_0` returns for `input`.
pub open spec fn run_atlas_post(input: Atlas0080Input, r: Atlas0080Report) -> bool {
    &&& report_frame(r, input)
    &&& report_summary(r, input, run_diagnostics(input).len() == 0)
    &&& r.diagnostics@ == run_diagnostics(input)
    &&& run_diagnostics(input).len() == 0 && input.surface.gate.explicit_opt_in ==> {
        &&& r.residency_reports@.len() == input.access_pattern@.len()
        &&& r.descent_ascent_reports@.len() == input.access_pattern@.len()
        &&& forall|i: int| 0 <= i < input.access_pattern@.len()
            ==> residency_step(#[trigger] r.residency_reports@[i], input, i)
        &&& forall|i: int| 0 <= i < input.access_pattern@.len()
            ==> descent_step(#[trigger] r.descent_ascent_reports@[i], input, i)
    }
    &&& !(run_diagnostics(input).len() == 0 && input.surface.gate.explicit_opt_in) ==> {
        &&& r.residency_reports@.len() == 0
        &&& r.descent_ascent_reports@.len() == 0
    }
}

/// Runs the residency runtime. Rejected inputs report their diagnostics (not admitted); a
/// closed gate is a disabled no-op; otherwise each request of the access pattern moves the
/// active stack, materializes exactly its theaters, and reports the step.
#[verifier::rlimit(40)]
pub fn run_atlas_0080_0(input: &Atlas0080Input) -> (r: Atlas0080Report)
    requires
        location_count_int(input.scenario) <= u32::MAX,
    ensures
        run_atlas_post(*input, r),
{
    let mut diagnostics: Vec<&'static str> = Vec::new();
    validate_surface(&input.surface, &mut diagnostics);
    validate_scenario(&input.scenario, &mut diagnostics);
    validate_access_pattern(&input.access_pattern, &mut diagnostics);
    validate_forbidden(&input.forbidden, &mut diagnostics);
    if diagnostics.len() > 0 {
        return base_report(input, false, diagnostics, Vec::new(), Vec::new());
    }
    if !input.surface.gate.explicit_opt_in {
        return base_report(input, true, diagnostics, Vec::new(), Vec::new());
    }
    let llc = input.scenario.logical_location_count();
    let mut start: Vec<Atlas0080TheaterId> = Vec::new();
    start.push(Atlas0080TheaterId::Starmap);
    let mut state = Atlas0080ResidencyState::from_stack(start);
    let mut residency_reports: Vec<Atlas0080ResidencyReport> = Vec::new();
    let mut descent_ascent_reports: Vec<Atlas0080DescentAscentReport> = Vec::new();
    let mut step: usize = 0;
    while step < input.access_pattern.len()
        invariant
            step <= input.access_pattern@.len(),
            llc == location_count_int(input.scenario),
            state.active_theaters@ == stack_before(*input, step as int),
            state.active_theaters@.len() <= 3,
            residency_reports@.len() == step,
            descent_ascent_reports@.len() == step,
            forall|i: int| 0 <= i < step ==> residency_step(#[trigger] residency_reports@[i], *input, i),
            forall|i: int| 0 <= i < step ==> descent_step(#[trigger] descent_ascent_reports@[i], *input, i),
        decreases input.access_pattern@.len() - step,
    {
        let request = input.access_pattern[step];
        let active_before = copy_theaters(&state.active_theaters);
        let values_before = materialized_values(&state.active_theaters, &input.scenario);
        let target_stack = request.target_stack();
        proof { lemma_target_stack_small(request); }
        let expected_after = materialized_values(&target_stack, &input.scenario);
        state = Atlas0080ResidencyState::from_stack(copy_theaters(&target_stack));
        let values_after = materialized_values(&state.active_theaters, &input.scenario);
        let value_noop = values_equal(&values_after, &expected_after);
        let inert_cell_count = llc.saturating_sub(state.resident_cell_count);
        let sparse_only = theaters_equal(&state.resident_theaters, &state.active_theaters)
            && state.resident_cell_count < llc;
        residency_reports.push(Atlas0080ResidencyReport {
            step_index: step as u32,
            request: Some(request),
            active_theaters_before: copy_theaters(&active_before),
            active_theaters_after: copy_theaters(&state.active_theaters),
            resident_theaters: copy_theaters(&state.resident_theaters),
            resident_cell_count: state.resident_cell_count,
            inert_cell_count,
            estimated_resident_bytes: state.estimated_resident_bytes,
            vram_budget_bytes: ATLAS_DEFAULT_VRAM_BUDGET_BYTES,
            within_vram_budget: state.estimated_resident_bytes <= ATLAS_DEFAULT_VRAM_BUDGET_BYTES,
            sparse_residency_only_active_theaters: sparse_only,
            residency_changes_values: false,
            value_noop_parity_bit_exact: value_noop,
            materialized_i8_values_before: values_before,
            materialized_i8_values_after: values_after,
        });
        descent_ascent_reports.push(Atlas0080DescentAscentReport {
            request,
            from: active_before,
            to: copy_theaters(&state.active_theaters),
            deterministic: true,
        });
        proof {
            assert(residency_step(residency_reports@[step as int], *input, step as int));
            assert(descent_step(descent_ascent_reports@[step as int], *input, step as int));
        }
        step = step + 1;
    }
    base_report(input, true, diagnostics, residency_reports, descent_ascent_reports)
}

/// Two identical runs of the canonical trial, for deterministic-replay checks.
pub fn replay_atlas_0080_0() -> (r: (Atlas0080Report, Atlas0080Report))
    ensures
        r.0.admitted == r.1.admitted,
        r.0.diagnostics@ == r.1.diagnostics@,
        r.0.residency_reports@.len() == r.1.residency_reports@.len(),
        forall|i: int| 0 <= i < r.0.residency_reports@.len() ==> step_agrees(
            #[trigger] r.0.residency_reports@[i],
            r.1.residency_reports@[i],
        ),
        r.0.value_noop_parity_bit_exact == r.1.value_noop_parity_bit_exact,
        r.0.deterministic_replay_checksum == r.1.deterministic_replay_checksum,
        exists|input: Atlas0080Input| #![trigger canonical_atlas_input(input)]
            canonical_atlas_input(input) && run_atlas_post(input, r.0),
{
    let input = Atlas0080Input::explicit_opt_in();
    proof {
        assert(location_count_int(input.scenario) == 2_100);
    }
    let first = run_atlas_0080_0(&input);
    let second = run_atlas_0080_0(&input);
    proof {
        let ok = run_diagnostics(input).len() == 0 && input.surface.gate.explicit_opt_in;
        if !ok {
            assert(first.residency_reports@ =~= second.residency_reports@);
        } else {
            assert forall|i: int| 0 <= i < first.residency_reports@.len() implies step_agrees(
                #[trigger] first.residency_reports@[i],
                second.residency_reports@[i],
            ) by {
                assert(residency_step(first.residency_reports@[i], input, i));
                assert(residency_step(second.residency_reports@[i], input, i));
            }
            assert forall|i: int| 0 <= i < first.residency_reports@.len() implies
                (#[trigger] first.residency_reports@[i]).value_noop_parity_bit_exact
                && !first.residency_reports@[i].residency_changes_values by {
                assert(residency_step(first.residency_reports@[i], input, i));
            }
            assert forall|i: int| 0 <= i < second.residency_reports@.len() implies
                (#[trigger] second.residency_reports@[i]).value_noop_parity_bit_exact
                && !second.residency_reports@[i].residency_changes_values by {
                assert(residency_step(second.residency_reports@[i], input, i));
            }
        }
        lemma_steps_hash_congruent(
            cells_hash(FNV_OFFSET_BASIS, input.scenario.starsystem_cells@),
            first.residency_reports@,
            second.residency_reports@,
        );
        assert(canonical_atlas_input(input) && run_atlas_post(input, first));
    }
    (first, second)
}

/// Two steps agree on everything the checksum reads.
pub open spec fn step_agrees(a: Atlas0080ResidencyReport, b: Atlas0080ResidencyReport) -> bool {
    &&& a.resident_theaters@ == b.resident_theaters@
    &&& a.materialized_i8_values_after@ == b.materialized_i8_values_after@
    &&& a.resident_cell_count == b.resident_cell_count
    &&& a.step_index == b.step_index
    &&& a.estimated_resident_bytes == b.estimated_resident_bytes
}

/// Step lists that agree step by step hash alike.
proof fn lemma_steps_hash_congruent(h: u64, a: Seq<Atlas0080ResidencyReport>, b: Seq<Atlas0080ResidencyReport>)
    requires
        a.len() == b.len(),
        forall|i: int| 0 <= i < a.len() ==> step_agrees(#[trigger] a[i], b[i]),
    ensures
        steps_hash(h, a) == steps_hash(h, b),
    decreases a.len(),
{
    if a.len() > 0 {
        let a0 = a.drop_last();
        let b0 = b.drop_last();
        assert forall|i: int| 0 <= i < a0.len() implies step_agrees(#[trigger] a0[i], b0[i]) by {
            assert(a0[i] == a[i] && b0[i] == b[i]);
        }
        lemma_steps_hash_congruent(h, a0, b0);
        assert(step_agrees(a[a.len() - 1], b[a.len() - 1]));
    }
}

/// Sparse residency: whatever the request, at most three theaters (300 cells, 300 bytes)
/// are resident, strictly fewer than the 2 100 logical locations and far within the VRAM budget.
pub proof fn lemma_residency_sparse_within_budget(req: Atlas0080ResidencyRequest)
    ensures
        stack_cell_total(target_stack_spec(req)) <= 300,
        stack_cell_total(target_stack_spec(req)) < ATLAS_0080_0_LOGICAL_LOCATION_COUNT,
        stack_cell_total(target_stack_spec(req)) <= ATLAS_DEFAULT_VRAM_BUDGET_BYTES,
{
    lemma_target_stack_small(req);
}

/// Residency never changes values: the values materialized for a theater depend on the seed and
/// the theater alone, so any stack holding it materializes the same slice for it.
pub proof fn lemma_materialization_is_value_noop(
    seed: u64,
    stack: Seq<Atlas0080TheaterId>,
    i: int,
    slot: int,
)
    requires
        0 <= i < stack.len(),
        0 <= slot < 100,
    ensures
        materialized_spec(seed, stack).len() == 100 * stack.len(),
        materialized_spec(seed, stack)[100 * i + slot] == oracle_value(seed, stack[i], slot as u32),
    decreases stack.len(),
{
    lemma_materialized_len(seed, stack);
    let init = stack.drop_last();
    lemma_materialized_len(seed, init);
    if i < stack.len() - 1 {
        lemma_materialization_is_value_noop(seed, init, i, slot);
        assert(init[i] == stack[i]);
        assert(100 * i + slot < 100 * init.len()) by (nonlinear_arith)
            requires 0 <= i < init.len(), 0 <= slot < 100;
    } else {
        assert(100 * i == 100 * init.len());
    }
}

proof fn lemma_materialized_len(seed: u64, stack: Seq<Atlas0080TheaterId>)
    ensures
        materialized_spec(seed, stack).len() == 100 * stack.len(),
    decreases stack.len(),
{
    if stack.len() > 0 {
        lemma_materialized_len(seed, stack.drop_last());
    }
}

} // verus!
