//! Deterministic static descriptor of the dress-rehearsal galaxy: ten Terran and three Pirate
//! systems on a 20×20 galaxy, each with one planet, starports, and the starting fleets.
//!
//! A seed picks one of four grid symmetries (identity, two mirrors, half-turn) applied to a
//! fixed base layout, and places planets and surface buildings by hashing.
use crate::decimal_text::{push_two_digits, push_text, two_digits};
use crate::replay_hash::{stable_mix, stable_mix_spec};
use vstd::prelude::*;

verus! {

pub const DRESS_REHEARSAL_ATLAS_BATCH_0_GEN_ID: &'static str = "ATLAS-BATCH-0-GEN";
pub const DRESS_REHEARSAL_ATLAS_BATCH_0_GEN_STATUS_PASS: &'static str =
    "IMPLEMENTED / PASS - deterministic static descriptor only; no runtime wiring";

pub const DRESS_REHEARSAL_DEFAULT_SEED: u64 = 0x0080_2000;
pub const GALAXY_SIDE: u32 = 20;
pub const SYSTEM_SIDE: u32 = 10;
pub const PLANET_SURFACE_SIDE: u32 = 10;
pub const TERRAN_SYSTEM_COUNT: usize = 10;
pub const PIRATE_SYSTEM_COUNT: usize = 3;
pub const SYSTEM_COUNT: usize = 13;
pub const TERRAN_STARPORT_COUNT: usize = 3;
pub const PIRATE_STARPORT_COUNT: usize = 1;
pub const PIRATE_STARTING_SHIPS: usize = 10;
pub const TERRAN_PATROL_STARTING_SHIPS: usize = 3;

#[derive(Clone, Copy, Debug, PartialEq, Eq, Structural, Hash)]
pub enum Owner {
    Terran,
    Pirate,
}

#[derive(Clone, Copy, Debug, PartialEq, Eq, Structural, Hash)]
pub enum SystemKind {
    Terran,
    Pirate,
}

#[derive(Clone, Copy, Debug, PartialEq, Eq, Structural, Hash)]
pub enum FleetKind {
    Patrol,
    PirateShip,
}

#[derive(Clone, Copy, Debug, PartialEq, Eq, Structural, Hash)]
pub enum BuildingKind {
    Starport,
    FactoryDistrict,
    PopCohort,
}

/// A cell of a square grid.
#[derive(Clone, Copy, Debug, PartialEq, Eq, Structural, Hash)]
pub struct GridCell {
    pub x: u32,
    pub y: u32,
}

/// `|a - b|`.
pub open spec fn abs_diff(a: u32, b: u32) -> u32 {
    if a >= b { (a - b) as u32 } else { (b - a) as u32 }
}

/// Chebyshev (king-move) distance between two cells.
pub open spec fn chebyshev(a: GridCell, b: GridCell) -> u32 {
    let dx = abs_diff(a.x, b.x);
    let dy = abs_diff(a.y, b.y);
    if dx >= dy { dx } else { dy }
}

/// Empty cells strictly between two cells along a king-move path: distance minus one, at least 0.
pub open spec fn empty_between(a: GridCell, b: GridCell) -> u32 {
    if chebyshev(a, b) >= 1 { (chebyshev(a, b) - 1) as u32 } else { 0 }
}

impl GridCell {
    pub fn new(x: u32, y: u32) -> (r: Self)
        ensures
            r.x == x && r.y == y,
    {
        GridCell { x, y }
    }

    /// Both coordinates are below `side`.
    pub fn in_bounds(self, side: u32) -> (r: bool)
        ensures
            r == (self.x < side && self.y < side),
    {
        self.x < side && self.y < side
    }

    pub fn chebyshev_distance(self, other: Self) -> (r: u32)
        ensures
            r == chebyshev(self, other),
    {
        let dx = if self.x >= other.x { self.x - other.x } else { other.x - self.x };
        let dy = if self.y >= other.y { self.y - other.y } else { other.y - self.y };
        if dx >= dy { dx } else { dy }
    }

    pub fn empty_cells_between(self, other: Self) -> (r: u32)
        ensures
            r == empty_between(self, other),
    {
        self.chebyshev_distance(other).saturating_sub(1)
    }
}

/// Grid dimensions.
#[derive(Clone, Copy, Debug, PartialEq, Eq, Structural)]
pub struct GridDims {
    pub width: u32,
    pub height: u32,
}

impl GridDims {
    pub fn square(side: u32) -> (r: Self)
        ensures
            r.width == side && r.height == side,
    {
        GridDims { width: side, height: side }
    }

    pub fn cell_count(&self) -> (r: u32)
        requires
            self.width * self.height <= u32::MAX,
        ensures
            r == self.width * self.height,
    {
        self.width * self.height
    }
}

#[derive(Clone, Copy, Debug, PartialEq, Eq, Structural)]
pub struct BuildingPlacement {
    pub kind: BuildingKind,
    pub owner: Owner,
    pub cell: GridCell,
}

#[derive(Clone, Copy, Debug, PartialEq, Eq, Structural)]
pub struct PlanetSurfaceDescriptor {
    pub owner: Owner,
    pub dims: GridDims,
    pub factory: BuildingPlacement,
    pub pop_cohort: BuildingPlacement,
}

#[derive(Clone, Copy, Debug, PartialEq, Eq, Structural)]
pub struct PlanetDescriptor {
    pub owner: Owner,
    pub system_cell: GridCell,
    pub surface: PlanetSurfaceDescriptor,
}

#[derive(Clone, Copy, Debug, PartialEq, Eq)]
pub struct SystemDescriptor {
    pub index: usize,
    pub kind: SystemKind,
    pub owner: Owner,
    pub galactic_cell: GridCell,
    pub system_dims: GridDims,
    pub planet: PlanetDescriptor,
    pub starport: Option<BuildingPlacement>,
}

/// A fleet at its starting system.
#[derive(Debug, PartialEq, Eq)]
pub struct FleetPlacement {
    pub id: String,
    pub kind: FleetKind,
    pub owner: Owner,
    pub system_index: usize,
    pub galactic_cell: GridCell,
    pub system_cell: GridCell,
}

impl Clone for FleetPlacement {
    fn clone(&self) -> (r: Self)
        ensures
            r == *self,
    {
        FleetPlacement {
            id: self.id.clone(),
            kind: self.kind,
            owner: self.owner,
            system_index: self.system_index,
            galactic_cell: self.galactic_cell,
            system_cell: self.system_cell,
        }
    }
}

/// The centre cell of a system grid, where starports and starting fleets sit.
pub fn system_center_cell() -> (r: GridCell)
    ensures
        r == (GridCell { x: 5, y: 5 }),
{
    GridCell::new(5, 5)
}

/// One of four grid symmetries.
#[derive(Clone, Copy, Debug, PartialEq, Eq, Structural)]
pub enum Symmetry {
    Identity,
    MirrorX,
    MirrorY,
    Rotate180,
}

/// The symmetry a seed selects: the low two bits of its mixed value.
pub open spec fn symmetry_of(seed: u64) -> Symmetry {
    let b = stable_mix_spec(seed) & 3u64;
    if b == 0 {
        Symmetry::Identity
    } else if b == 1 {
        Symmetry::MirrorX
    } else if b == 2 {
        Symmetry::MirrorY
    } else {
        Symmetry::Rotate180
    }
}

/// The image of an in-bounds cell of a `side`-wide grid under a symmetry.
pub open spec fn apply_spec(s: Symmetry, c: GridCell, side: u32) -> GridCell {
    let max = side - 1;
    match s {
        Symmetry::Identity => c,
        Symmetry::MirrorX => GridCell { x: (max - c.x) as u32, y: c.y },
        Symmetry::MirrorY => GridCell { x: c.x, y: (max - c.y) as u32 },
        Symmetry::Rotate180 => GridCell { x: (max - c.x) as u32, y: (max - c.y) as u32 },
    }
}

impl Symmetry {
    pub fn from_seed(seed: u64) -> (r: Self)
        ensures
            r == symmetry_of(seed),
    {
        let b = stable_mix(seed) & 3u64;
        if b == 0 {
            Symmetry::Identity
        } else if b == 1 {
            Symmetry::MirrorX
        } else if b == 2 {
            Symmetry::MirrorY
        } else {
            Symmetry::Rotate180
        }
    }

    pub fn apply(self, cell: GridCell, side: u32) -> (r: GridCell)
        requires
            cell.x < side,
            cell.y < side,
        ensures
            r == apply_spec(self, cell, side),
            r.x < side && r.y < side,
    {
        let max = side - 1;
        match self {
            Symmetry::Identity => cell,
            Symmetry::MirrorX => GridCell::new(max - cell.x, cell.y),
            Symmetry::MirrorY => GridCell::new(cell.x, max - cell.y),
            Symmetry::Rotate180 => GridCell::new(max - cell.x, max - cell.y),
        }
    }
}

/// Base (untransformed) galactic cell of system `index`: two rows of five Terran systems,
/// then three Pirate systems.
pub open spec fn base_cell_spec(index: int) -> GridCell {
    if index == 0 { GridCell { x: 2, y: 3 } }
    else if index == 1 { GridCell { x: 6, y: 3 } }
    else if index == 2 { GridCell { x: 10, y: 3 } }
    else if index == 3 { GridCell { x: 14, y: 3 } }
    else if index == 4 { GridCell { x: 18, y: 3 } }
    else if index == 5 { GridCell { x: 2, y: 12 } }
    else if index == 6 { GridCell { x: 6, y: 12 } }
    else if index == 7 { GridCell { x: 10, y: 12 } }
    else if index == 8 { GridCell { x: 14, y: 12 } }
    else if index == 9 { GridCell { x: 18, y: 12 } }
    else if index == 10 { GridCell { x: 4, y: 5 } }
    else if index == 11 { GridCell { x: 12, y: 10 } }
    else { GridCell { x: 16, y: 10 } }
}

fn base_cell(index: usize) -> (r: GridCell)
    ensures
        r == base_cell_spec(index as int),
        r.x < GALAXY_SIDE && r.y < GALAXY_SIDE,
{
    if index == 0 { GridCell::new(2, 3) }
    else if index == 1 { GridCell::new(6, 3) }
    else if index == 2 { GridCell::new(10, 3) }
    else if index == 3 { GridCell::new(14, 3) }
    else if index == 4 { GridCell::new(18, 3) }
    else if index == 5 { GridCell::new(2, 12) }
    else if index == 6 { GridCell::new(6, 12) }
    else if index == 7 { GridCell::new(10, 12) }
    else if index == 8 { GridCell::new(14, 12) }
    else if index == 9 { GridCell::new(18, 12) }
    else if index == 10 { GridCell::new(4, 5) }
    else if index == 11 { GridCell::new(12, 10) }
    else { GridCell::new(16, 10) }
}

/// A subgrid cell placed by hashing seed, system index and salt, then transformed.
pub open spec fn subgrid_cell_spec(seed: u64, index: u64, salt: u64, s: Symmetry) -> GridCell {
    let mixed = stable_mix_spec(seed ^ vstd::wrapping::u64_specs::wrapping_mul(index, 0x9E37_79B9_7F4A_7C15) ^ salt);
    apply_spec(s, GridCell { x: (mixed % 10) as u32, y: ((mixed / 17) % 10) as u32 }, 10)
}

fn deterministic_subgrid_cell(seed: u64, index: u64, salt: u64, transform: Symmetry) -> (r: GridCell)
    ensures
        r == subgrid_cell_spec(seed, index, salt, transform),
        r.x < 10 && r.y < 10,
{
    let mixed = stable_mix(seed ^ index.wrapping_mul(0x9E37_79B9_7F4A_7C15) ^ salt);
    let cell = GridCell::new((mixed % SYSTEM_SIDE as u64) as u32, ((mixed / 17) % SYSTEM_SIDE as u64) as u32);
    transform.apply(cell, SYSTEM_SIDE)
}

/// The pop-cohort cell: its hashed cell, shifted one column (wrapping) if it lands on the factory.
pub open spec fn pop_cell_spec(seed: u64, index: u64, s: Symmetry) -> GridCell {
    let factory = subgrid_cell_spec(seed, index, 0xFACA_70A1, s);
    let pop = subgrid_cell_spec(seed, index, 0xC0B0_0001, s);
    if pop == factory { GridCell { x: ((pop.x + 1) % 10) as u32, y: pop.y } } else { pop }
}

/// Whether system `index` has a starport: Terran systems 0, 4, 8 and the first Pirate system.
pub open spec fn has_starport_spec(index: int) -> bool {
    index == 0 || index == 4 || index == 8 || index == 10
}

/// The descriptor of system `index` (0..13) for `seed`.
#[verifier::opaque]
pub open spec fn system_spec(seed: u64, index: int) -> SystemDescriptor {
    let s = symmetry_of(seed);
    let terran = index < 10;
    let owner = if terran { Owner::Terran } else { Owner::Pirate };
    SystemDescriptor {
        index: index as usize,
        kind: if terran { SystemKind::Terran } else { SystemKind::Pirate },
        owner,
        galactic_cell: apply_spec(s, base_cell_spec(index), 20),
        system_dims: GridDims { width: 10, height: 10 },
        planet: PlanetDescriptor {
            owner,
            system_cell: subgrid_cell_spec(seed, index as u64, 0x51A7_E11A, s),
            surface: PlanetSurfaceDescriptor {
                owner,
                dims: GridDims { width: 10, height: 10 },
                factory: BuildingPlacement {
                    kind: BuildingKind::FactoryDistrict,
                    owner,
                    cell: subgrid_cell_spec(seed, index as u64, 0xFACA_70A1, s),
                },
                pop_cohort: BuildingPlacement {
                    kind: BuildingKind::PopCohort,
                    owner,
                    cell: pop_cell_spec(seed, index as u64, s),
                },
            },
        },
        starport: if has_starport_spec(index) {
            Some(BuildingPlacement { kind: BuildingKind::Starport, owner, cell: GridCell { x: 5, y: 5 } })
        } else {
            None
        },
    }
}

fn build_system(
    index: usize,
    kind: SystemKind,
    owner: Owner,
    galactic_cell: GridCell,
    transform: Symmetry,
    seed: u64,
    has_starport: bool,
) -> (r: SystemDescriptor)
    requires
        index < 13,
    ensures
        r.index == index && r.kind == kind && r.owner == owner && r.galactic_cell == galactic_cell,
        r.system_dims == (GridDims { width: 10, height: 10 }),
        r.planet == (PlanetDescriptor {
            owner,
            system_cell: subgrid_cell_spec(seed, index as u64, 0x51A7_E11A, transform),
            surface: PlanetSurfaceDescriptor {
                owner,
                dims: GridDims { width: 10, height: 10 },
                factory: BuildingPlacement {
                    kind: BuildingKind::FactoryDistrict,
                    owner,
                    cell: subgrid_cell_spec(seed, index as u64, 0xFACA_70A1, transform),
                },
                pop_cohort: BuildingPlacement {
                    kind: BuildingKind::PopCohort,
                    owner,
                    cell: pop_cell_spec(seed, index as u64, transform),
                },
            },
        }),
        r.starport == (if has_starport {
            Some(BuildingPlacement { kind: BuildingKind::Starport, owner, cell: GridCell { x: 5, y: 5 } })
        } else {
            None
        }),
{
    let planet_cell = deterministic_subgrid_cell(seed, index as u64, 0x51A7_E11A, transform);
    let factory_cell = deterministic_subgrid_cell(seed, index as u64, 0xFACA_70A1, transform);
    let mut pop_cell = deterministic_subgrid_cell(seed, index as u64, 0xC0B0_0001, transform);
    if pop_cell == factory_cell {
        pop_cell = GridCell::new((pop_cell.x + 1) % PLANET_SURFACE_SIDE, pop_cell.y);
    }
    let starport = if has_starport {
        Some(BuildingPlacement { kind: BuildingKind::Starport, owner, cell: system_center_cell() })
    } else {
        None
    };
    SystemDescriptor {
        index,
        kind,
        owner,
        galactic_cell,
        system_dims: GridDims::square(SYSTEM_SIDE),
        planet: PlanetDescriptor {
            owner,
            system_cell: planet_cell,
            surface: PlanetSurfaceDescriptor {
                owner,
                dims: GridDims::square(PLANET_SURFACE_SIDE),
                factory: BuildingPlacement { kind: BuildingKind::FactoryDistrict, owner, cell: factory_cell },
                pop_cohort: BuildingPlacement { kind: BuildingKind::PopCohort, owner, cell: pop_cell },
            },
        },
        starport,
    }
}

/// A Terran system with a starport.
pub open spec fn is_terran_port(s: SystemDescriptor) -> bool {
    s.owner == Owner::Terran && s.starport is Some
}

/// A Pirate system with a starport.
pub open spec fn is_pirate_port(s: SystemDescriptor) -> bool {
    s.owner == Owner::Pirate && s.starport is Some
}

/// The Terran starport systems, in order.
pub open spec fn terran_ports(systems: Seq<SystemDescriptor>) -> Seq<SystemDescriptor>
    decreases systems.len(),
{
    if systems.len() == 0 {
        Seq::empty()
    } else {
        let p = terran_ports(systems.drop_last());
        if is_terran_port(systems.last()) { p.push(systems.last()) } else { p }
    }
}

/// The first Pirate starport system, if any.
pub open spec fn first_pirate_port(systems: Seq<SystemDescriptor>) -> Option<SystemDescriptor>
    decreases systems.len(),
{
    if systems.len() == 0 {
        None
    } else {
        let f = first_pirate_port(systems.drop_last());
        if f is Some { f } else if is_pirate_port(systems.last()) { Some(systems.last()) } else { None }
    }
}

/// Id of the `k`-th Terran patrol: `terran-patrol-` and two digits.
pub open spec fn patrol_id(k: nat) -> Seq<char> {
    "terran-patrol-"@ + two_digits(k)
}

/// Id of the `k`-th Pirate ship: `pirate-ship-` and two digits.
pub open spec fn pirate_id(k: nat) -> Seq<char> {
    "pirate-ship-"@ + two_digits(k)
}

/// A fleet with the given identity, starting at the centre of system `s`.
pub open spec fn fleet_is(f: FleetPlacement, id: Seq<char>, kind: FleetKind, owner: Owner, s: SystemDescriptor) -> bool {
    &&& f.id@ == id
    &&& f.kind == kind
    &&& f.owner == owner
    &&& f.system_index == s.index
    &&& f.galactic_cell == s.galactic_cell
    &&& f.system_cell == (GridCell { x: 5, y: 5 })
}

/// The fleets built for a system list: one patrol per Terran starport system, then ten Pirate
/// ships at the first Pirate starport system.
pub open spec fn fleets_for(fleets: Seq<FleetPlacement>, systems: Seq<SystemDescriptor>) -> bool {
    let tp = terran_ports(systems);
    let pp = first_pirate_port(systems).unwrap();
    &&& fleets.len() == tp.len() + 10
    &&& forall|k: int| 0 <= k < tp.len() ==> fleet_is(#[trigger] fleets[k], patrol_id(k as nat), FleetKind::Patrol, Owner::Terran, tp[k])
    &&& forall|k: int| 0 <= k < 10 ==> fleet_is(#[trigger] fleets[tp.len() + k], pirate_id(k as nat), FleetKind::PirateShip, Owner::Pirate, pp)
}

proof fn lemma_terran_ports_len(systems: Seq<SystemDescriptor>)
    ensures
        terran_ports(systems).len() <= systems.len(),
    decreases systems.len(),
{
    if systems.len() > 0 {
        lemma_terran_ports_len(systems.drop_last());
    }
}

fn fleet_id(prefix: &str, k: usize) -> (r: String)
    requires
        k < 100,
    ensures
        r@ == prefix@ + two_digits(k as nat),
{
    let mut id = String::new();
    push_text(&mut id, prefix);
    push_two_digits(&mut id, k as u64);
    id
}

fn build_fleets(systems: &Vec<SystemDescriptor>) -> (r: Vec<FleetPlacement>)
    requires
        systems@.len() < 100,
        first_pirate_port(systems@) is Some,
    ensures
        fleets_for(r@, systems@),
{
    let mut fleets: Vec<FleetPlacement> = Vec::new();
    let mut patrol_index: usize = 0;
    let mut k: usize = 0;
    let mut pirate_port: Option<usize> = None;
    while k < systems.len()
        invariant
            k <= systems@.len() < 100,
            patrol_index == terran_ports(systems@.take(k as int)).len(),
            patrol_index <= k,
            fleets@.len() == patrol_index,
            forall|j: int| 0 <= j < patrol_index ==> fleet_is(#[trigger] fleets@[j], patrol_id(j as nat), FleetKind::Patrol,
                Owner::Terran, terran_ports(systems@.take(k as int))[j]),
            match pirate_port {
                Some(i) => i < k && first_pirate_port(systems@.take(k as int)) == Some(systems@[i as int]),
                None => first_pirate_port(systems@.take(k as int)) is None,
            },
        decreases systems@.len() - k,
    {
        let system = systems[k];
        proof {
            assert(systems@.take(k + 1).drop_last() == systems@.take(k as int));
            assert(systems@.take(k + 1).last() == system);
        }
        if system.owner == Owner::Terran && system.starport.is_some() {
            let id = fleet_id("terran-patrol-", patrol_index);
            proof { reveal_strlit("terran-patrol-"); }
            fleets.push(FleetPlacement {
                id,
                kind: FleetKind::Patrol,
                owner: Owner::Terran,
                system_index: system.index,
                galactic_cell: system.galactic_cell,
                system_cell: system_center_cell(),
            });
            patrol_index = patrol_index + 1;
        }
        if pirate_port.is_none() && system.owner == Owner::Pirate && system.starport.is_some() {
            pirate_port = Some(k);
        }
        k = k + 1;
    }
    proof {
        assert(systems@.take(systems@.len() as int) == systems@);
    }
    let port = match pirate_port {
        Some(i) => systems[i],
        None => systems[0],
    };
    let ghost tp_len = patrol_index;
    let mut pirate_index: usize = 0;
    while pirate_index < PIRATE_STARTING_SHIPS
        invariant
            pirate_index <= 10,
            tp_len == terran_ports(systems@).len(),
            port == first_pirate_port(systems@).unwrap(),
            fleets@.len() == tp_len + pirate_index,
            forall|j: int| 0 <= j < tp_len ==> fleet_is(#[trigger] fleets@[j], patrol_id(j as nat), FleetKind::Patrol,
                Owner::Terran, terran_ports(systems@)[j]),
            forall|j: int| 0 <= j < pirate_index ==> fleet_is(#[trigger] fleets@[tp_len + j], pirate_id(j as nat),
                FleetKind::PirateShip, Owner::Pirate, port),
        decreases 10 - pirate_index,
    {
        let id = fleet_id("pirate-ship-", pirate_index);
        proof { reveal_strlit("pirate-ship-"); }
        fleets.push(FleetPlacement {
            id,
            kind: FleetKind::PirateShip,
            owner: Owner::Pirate,
            system_index: port.index,
            galactic_cell: port.galactic_cell,
            system_cell: system_center_cell(),
        });
        proof {
            assert(fleets@[tp_len + pirate_index] == fleets@.last());
        }
        pirate_index = pirate_index + 1;
    }
    fleets
}

/// The thirteen systems of the map of `seed`.
pub open spec fn systems_spec(seed: u64) -> Seq<SystemDescriptor> {
    Seq::new(13, |i: int| system_spec(seed, i))
}

/// Ownership and starport of system `k`.
proof fn lemma_system_port_flags(seed: u64, k: int)
    requires
        0 <= k < 13,
    ensures
        systems_spec(seed)[k] == system_spec(seed, k),
        is_terran_port(system_spec(seed, k)) <==> (k == 0 || k == 4 || k == 8),
        is_pirate_port(system_spec(seed, k)) <==> k == 10,
{
    reveal(system_spec);
}

proof fn lemma_ports_of_layout(sys: Seq<SystemDescriptor>)
    requires
        sys.len() == 13,
        forall|k: int| 0 <= k < 13 ==> (is_terran_port(#[trigger] sys[k]) <==> (k == 0 || k == 4 || k == 8)),
        forall|k: int| 0 <= k < 13 ==> (is_pirate_port(#[trigger] sys[k]) <==> k == 10),
    ensures
        terran_ports(sys) == seq![sys[0], sys[4], sys[8]],
        first_pirate_port(sys) == Some(sys[10]),
{
    assert(sys.take(0) =~= Seq::<SystemDescriptor>::empty());
    assert(terran_ports(sys.take(0)) =~= Seq::<SystemDescriptor>::empty());
    assert(first_pirate_port(sys.take(0)) is None);
    assert(sys.take(1).drop_last() =~= sys.take(0));
    assert(sys.take(1).last() == sys[0]);
    assert(terran_ports(sys.take(1)) =~= seq![sys[0]]);
    assert(first_pirate_port(sys.take(1)) is None);
    assert(sys.take(2).drop_last() =~= sys.take(1));
    assert(sys.take(2).last() == sys[1]);
    assert(terran_ports(sys.take(2)) =~= seq![sys[0]]);
    assert(first_pirate_port(sys.take(2)) is None);
    assert(sys.take(3).drop_last() =~= sys.take(2));
    assert(sys.take(3).last() == sys[2]);
    assert(terran_ports(sys.take(3)) =~= seq![sys[0]]);
    assert(first_pirate_port(sys.take(3)) is None);
    assert(sys.take(4).drop_last() =~= sys.take(3));
    assert(sys.take(4).last() == sys[3]);
    assert(terran_ports(sys.take(4)) =~= seq![sys[0]]);
    assert(first_pirate_port(sys.take(4)) is None);
    assert(sys.take(5).drop_last() =~= sys.take(4));
    assert(sys.take(5).last() == sys[4]);
    assert(terran_ports(sys.take(5)) =~= seq![sys[0], sys[4]]);
    assert(first_pirate_port(sys.take(5)) is None);
    assert(sys.take(6).drop_last() =~= sys.take(5));
    assert(sys.take(6).last() == sys[5]);
    assert(terran_ports(sys.take(6)) =~= seq![sys[0], sys[4]]);
    assert(first_pirate_port(sys.take(6)) is None);
    assert(sys.take(7).drop_last() =~= sys.take(6));
    assert(sys.take(7).last() == sys[6]);
    assert(terran_ports(sys.take(7)) =~= seq![sys[0], sys[4]]);
    assert(first_pirate_port(sys.take(7)) is None);
    assert(sys.take(8).drop_last() =~= sys.take(7));
    assert(sys.take(8).last() == sys[7]);
    assert(terran_ports(sys.take(8)) =~= seq![sys[0], sys[4]]);
    assert(first_pirate_port(sys.take(8)) is None);
    assert(sys.take(9).drop_last() =~= sys.take(8));
    assert(sys.take(9).last() == sys[8]);
    assert(terran_ports(sys.take(9)) =~= seq![sys[0], sys[4], sys[8]]);
    assert(first_pirate_port(sys.take(9)) is None);
    assert(sys.take(10).drop_last() =~= sys.take(9));
    assert(sys.take(10).last() == sys[9]);
    assert(terran_ports(sys.take(10)) =~= seq![sys[0], sys[4], sys[8]]);
    assert(first_pirate_port(sys.take(10)) is None);
    assert(sys.take(11).drop_last() =~= sys.take(10));
    assert(sys.take(11).last() == sys[10]);
    assert(terran_ports(sys.take(11)) =~= seq![sys[0], sys[4], sys[8]]);
    assert(first_pirate_port(sys.take(11)) == Some(sys[10]));
    assert(sys.take(12).drop_last() =~= sys.take(11));
    assert(sys.take(12).last() == sys[11]);
    assert(terran_ports(sys.take(12)) =~= seq![sys[0], sys[4], sys[8]]);
    assert(first_pirate_port(sys.take(12)) == Some(sys[10]));
    assert(sys.take(13).drop_last() =~= sys.take(12));
    assert(sys.take(13).last() == sys[12]);
    assert(terran_ports(sys.take(13)) =~= seq![sys[0], sys[4], sys[8]]);
    assert(first_pirate_port(sys.take(13)) == Some(sys[10]));
    assert(sys.take(13) =~= sys);
}

/// Whatever the seed, the Terran starport systems are systems 0, 4 and 8 and the Pirate
/// starport system is system 10.
pub proof fn lemma_map_starport_systems(seed: u64)
    ensures
        terran_ports(systems_spec(seed)) == seq![system_spec(seed, 0), system_spec(seed, 4), system_spec(seed, 8)],
        first_pirate_port(systems_spec(seed)) == Some(system_spec(seed, 10)),
{
    let sys = systems_spec(seed);
    assert forall|k: int| 0 <= k < 13 implies (is_terran_port(#[trigger] sys[k]) <==> (k == 0 || k == 4 || k == 8)) by {
        lemma_system_port_flags(seed, k);
    }
    assert forall|k: int| 0 <= k < 13 implies (is_pirate_port(#[trigger] sys[k]) <==> k == 10) by {
        lemma_system_port_flags(seed, k);
    }
    lemma_ports_of_layout(sys);
    lemma_system_port_flags(seed, 0);
    lemma_system_port_flags(seed, 4);
    lemma_system_port_flags(seed, 8);
    lemma_system_port_flags(seed, 10);
}

/// The static dress-rehearsal map.
#[derive(Clone, Debug, PartialEq, Eq)]
pub struct DressRehearsalMap {
    pub seed: u64,
    pub galaxy_dims: GridDims,
    pub systems: Vec<SystemDescriptor>,
    pub fleets: Vec<FleetPlacement>,
}

/// Systems owned by `owner`, in order.
pub open spec fn owned_by(systems: Seq<SystemDescriptor>, owner: Owner) -> Seq<SystemDescriptor>
    decreases systems.len(),
{
    if systems.len() == 0 {
        Seq::empty()
    } else {
        let p = owned_by(systems.drop_last(), owner);
        if systems.last().owner == owner { p.push(systems.last()) } else { p }
    }
}

/// The starports of the systems that have one, in order.
pub open spec fn starports_of(systems: Seq<SystemDescriptor>) -> Seq<BuildingPlacement>
    decreases systems.len(),
{
    if systems.len() == 0 {
        Seq::empty()
    } else {
        let p = starports_of(systems.drop_last());
        match systems.last().starport {
            Some(b) => p.push(b),
            None => p,
        }
    }
}

/// Fleets owned by `owner`, in order.
pub open spec fn fleets_of(fleets: Seq<FleetPlacement>, owner: Owner) -> Seq<FleetPlacement>
    decreases fleets.len(),
{
    if fleets.len() == 0 {
        Seq::empty()
    } else {
        let p = fleets_of(fleets.drop_last(), owner);
        if fleets.last().owner == owner { p.push(fleets.last()) } else { p }
    }
}

/// `acc` lowered to `v` (or `v` when empty).
pub open spec fn min_opt(acc: Option<u32>, v: u32) -> Option<u32> {
    match acc {
        Some(c) => Some(if v < c { v } else { c }),
        None => Some(v),
    }
}

/// `acc` lowered by the spacing of systems `0..i` to system `j`.
pub open spec fn row_min(acc: Option<u32>, systems: Seq<SystemDescriptor>, j: int, i: nat) -> Option<u32>
    decreases i,
{
    if i == 0 {
        acc
    } else {
        min_opt(row_min(acc, systems, j, (i - 1) as nat), empty_between(systems[i - 1].galactic_cell, systems[j].galactic_cell))
    }
}

/// Smallest empty-cell spacing over all pairs among the first `n` systems (`None` below two).
pub open spec fn spacing_upto(systems: Seq<SystemDescriptor>, n: nat) -> Option<u32>
    decreases n,
{
    if n == 0 {
        None
    } else {
        row_min(spacing_upto(systems, (n - 1) as nat), systems, n - 1, (n - 1) as nat)
    }
}

/// `pirate` has a Terran system at positive distance with at most one empty cell between.
pub open spec fn near_terran(terran: Seq<SystemDescriptor>, pirate: SystemDescriptor) -> bool {
    exists|i: int| 0 <= i < terran.len() && chebyshev(pirate.galactic_cell, (#[trigger] terran[i]).galactic_cell) > 0
        && empty_between(pirate.galactic_cell, terran[i].galactic_cell) <= 1
}

fn systems_owned_by(systems: &Vec<SystemDescriptor>, owner: Owner) -> (r: Vec<SystemDescriptor>)
    ensures
        r@ == owned_by(systems@, owner),
{
    let mut out: Vec<SystemDescriptor> = Vec::new();
    let mut k: usize = 0;
    while k < systems.len()
        invariant
            k <= systems@.len(),
            out@ == owned_by(systems@.take(k as int), owner),
        decreases systems@.len() - k,
    {
        proof {
            assert(systems@.take(k + 1).drop_last() == systems@.take(k as int));
        }
        if systems[k].owner == owner {
            out.push(systems[k]);
        }
        k = k + 1;
    }
    proof {
        assert(systems@.take(systems@.len() as int) == systems@);
    }
    out
}

impl DressRehearsalMap {
    /// The map of the default seed.
    pub fn canonical() -> (r: Self)
        ensures
            r.seed == DRESS_REHEARSAL_DEFAULT_SEED,
            r.galaxy_dims == (GridDims { width: 20, height: 20 }),
            r.systems@ == systems_spec(DRESS_REHEARSAL_DEFAULT_SEED),
            fleets_for(r.fleets@, r.systems@),
    {
        Self::from_seed(DRESS_REHEARSAL_DEFAULT_SEED)
    }

    /// Builds the map of `seed`: the base layout under the seed's symmetry, hashed planet and
    /// building cells, starports, and the starting fleets.
    pub fn from_seed(seed: u64) -> (r: Self)
        ensures
            r.seed == seed,
            r.galaxy_dims == (GridDims { width: 20, height: 20 }),
            r.systems@ == systems_spec(seed),
            fleets_for(r.fleets@, r.systems@),
    {
        let transform = Symmetry::from_seed(seed);
        let mut systems: Vec<SystemDescriptor> = Vec::new();
        let mut index: usize = 0;
        while index < SYSTEM_COUNT
            invariant
                index <= 13,
                transform == symmetry_of(seed),
                systems@ == Seq::new(index as nat, |i: int| system_spec(seed, i)),
            decreases 13 - index,
        {
            let terran = index < TERRAN_SYSTEM_COUNT;
            let owner = if terran { Owner::Terran } else { Owner::Pirate };
            let kind = if terran { SystemKind::Terran } else { SystemKind::Pirate };
            let has_starport = index == 0 || index == 4 || index == 8 || index == 10;
            let cell = transform.apply(base_cell(index), GALAXY_SIDE);
            let system = build_system(index, kind, owner, cell, transform, seed, has_starport);
            systems.push(system);
            proof {
                reveal(system_spec);
                assert(system == system_spec(seed, index as int));
                assert(systems@ =~= Seq::new((index + 1) as nat, |i: int| system_spec(seed, i)));
            }
            index = index + 1;
        }
        proof {
            assert(systems@ =~= systems_spec(seed));
            lemma_map_starport_systems(seed);
        }
        let fleets = build_fleets(&systems);
        DressRehearsalMap { seed, galaxy_dims: GridDims::square(GALAXY_SIDE), systems, fleets }
    }

    /// The Terran systems, in order.
    pub fn terran_systems(&self) -> (r: Vec<SystemDescriptor>)
        ensures
            r@ == owned_by(self.systems@, Owner::Terran),
    {
        systems_owned_by(&self.systems, Owner::Terran)
    }

    /// The Pirate systems, in order.
    pub fn pirate_systems(&self) -> (r: Vec<SystemDescriptor>)
        ensures
            r@ == owned_by(self.systems@, Owner::Pirate),
    {
        systems_owned_by(&self.systems, Owner::Pirate)
    }

    /// Every starport, in system order.
    pub fn starports(&self) -> (r: Vec<BuildingPlacement>)
        ensures
            r@ == starports_of(self.systems@),
    {
        let mut out: Vec<BuildingPlacement> = Vec::new();
        let mut k: usize = 0;
        while k < self.systems.len()
            invariant
                k <= self.systems@.len(),
                out@ == starports_of(self.systems@.take(k as int)),
            decreases self.systems@.len() - k,
        {
            proof {
                assert(self.systems@.take(k + 1).drop_last() == self.systems@.take(k as int));
            }
            match self.systems[k].starport {
                Some(b) => out.push(b),
                None => {},
            }
            k = k + 1;
        }
        proof {
            assert(self.systems@.take(self.systems@.len() as int) == self.systems@);
        }
        out
    }

    /// The fleets of `owner`, in order.
    pub fn fleets_by_owner(&self, owner: Owner) -> (r: Vec<FleetPlacement>)
        ensures
            r@ == fleets_of(self.fleets@, owner),
    {
        let mut out: Vec<FleetPlacement> = Vec::new();
        let mut k: usize = 0;
        while k < self.fleets.len()
            invariant
                k <= self.fleets@.len(),
                out@ == fleets_of(self.fleets@.take(k as int), owner),
            decreases self.fleets@.len() - k,
        {
            proof {
                assert(self.fleets@.take(k + 1).drop_last() == self.fleets@.take(k as int));
            }
            if self.fleets[k].owner == owner {
                out.push(self.fleets[k].clone());
            }
            k = k + 1;
        }
        proof {
            assert(self.fleets@.take(self.fleets@.len() as int) == self.fleets@);
        }
        out
    }

    /// Smallest number of empty cells between two Terran systems (`None` with fewer than two).
    pub fn minimum_terran_empty_spacing(&self) -> (r: Option<u32>)
        ensures
            r == spacing_upto(owned_by(self.systems@, Owner::Terran), owned_by(self.systems@, Owner::Terran).len()),
    {
        let terran = self.terran_systems();
        let mut min_spacing: Option<u32> = None;
        let mut right: usize = 0;
        while right < terran.len()
            invariant
                right <= terran@.len(),
                min_spacing == spacing_upto(terran@, right as nat),
            decreases terran@.len() - right,
        {
            let ghost start = min_spacing;
            let mut left: usize = 0;
            while left < right
                invariant
                    left <= right < terran@.len(),
                    min_spacing == row_min(start, terran@, right as int, left as nat),
                decreases right - left,
            {
                let spacing = terran[left].galactic_cell.empty_cells_between(terran[right].galactic_cell);
                min_spacing = match min_spacing {
                    Some(current) => Some(if spacing < current { spacing } else { current }),
                    None => Some(spacing),
                };
                left = left + 1;
            }
            right = right + 1;
        }
        min_spacing
    }

    /// Whether `pirate` sits next to a Terran system with at most one empty cell between.
    pub fn pirate_within_one_empty_cell_of_terran(&self, pirate: &SystemDescriptor) -> (r: bool)
        ensures
            r == near_terran(owned_by(self.systems@, Owner::Terran), *pirate),
    {
        let terran = self.terran_systems();
        let mut k: usize = 0;
        while k < terran.len()
            invariant
                k <= terran@.len(),
                terran@ == owned_by(self.systems@, Owner::Terran),
                forall|i: int| 0 <= i < k ==> !(chebyshev(pirate.galactic_cell, (#[trigger] terran@[i]).galactic_cell) > 0
                    && empty_between(pirate.galactic_cell, terran@[i].galactic_cell) <= 1),
            decreases terran@.len() - k,
        {
            let distance = pirate.galactic_cell.chebyshev_distance(terran[k].galactic_cell);
            if distance > 0 && pirate.galactic_cell.empty_cells_between(terran[k].galactic_cell) <= 1 {
                proof {
                    assert(chebyshev(pirate.galactic_cell, terran@[k as int].galactic_cell) > 0
                        && empty_between(pirate.galactic_cell, terran@[k as int].galactic_cell) <= 1);
                    assert(near_terran(terran@, *pirate));
                }
                return true;
            }
            k = k + 1;
        }
        false
    }
}

/// The four symmetries are isometries of the grid: they keep cells in bounds and preserve
/// Chebyshev distance.
pub proof fn lemma_symmetry_isometry(s: Symmetry, a: GridCell, b: GridCell, side: u32)
    requires
        a.x < side && a.y < side,
        b.x < side && b.y < side,
    ensures
        apply_spec(s, a, side).x < side && apply_spec(s, a, side).y < side,
        chebyshev(apply_spec(s, a, side), apply_spec(s, b, side)) == chebyshev(a, b),
{
}

/// Whatever the seed, any two Terran systems have at least three empty cells between them,
/// and systems 0 and 1 exactly three.
pub proof fn lemma_terran_spacing(seed: u64)
    ensures
        forall|i: int, j: int| 0 <= i < j < 10 ==> empty_between(
            #[trigger] system_spec(seed, i).galactic_cell,
            #[trigger] system_spec(seed, j).galactic_cell,
        ) >= 3,
        empty_between(system_spec(seed, 0).galactic_cell, system_spec(seed, 1).galactic_cell) == 3,
{
    reveal(system_spec);
    let s = symmetry_of(seed);
    assert forall|i: int, j: int| 0 <= i < j < 10 implies empty_between(
        #[trigger] system_spec(seed, i).galactic_cell,
        #[trigger] system_spec(seed, j).galactic_cell,
    ) >= 3 by {
        lemma_symmetry_isometry(s, base_cell_spec(i), base_cell_spec(j), 20);
        assert(chebyshev(base_cell_spec(i), base_cell_spec(j)) >= 4);
    }
    lemma_symmetry_isometry(s, base_cell_spec(0), base_cell_spec(1), 20);
}

/// Whatever the seed, each Pirate system has a Terran neighbour at positive distance with at
/// most one empty cell between (systems 0, 7 and 8 respectively).
pub proof fn lemma_pirates_near_terran(seed: u64)
    ensures
        forall|p: int| 10 <= p < 13 ==> near_terran(systems_spec(seed).take(10), #[trigger] system_spec(seed, p)),
{
    reveal(system_spec);
    let s = symmetry_of(seed);
    let t = systems_spec(seed).take(10);
    assert forall|p: int| 10 <= p < 13 implies near_terran(t, #[trigger] system_spec(seed, p)) by {
        let partner: int = if p == 10 { 0 } else if p == 11 { 7 } else { 8 };
        lemma_symmetry_isometry(s, base_cell_spec(p), base_cell_spec(partner), 20);
        assert(t[partner] == system_spec(seed, partner));
        assert(chebyshev(system_spec(seed, p).galactic_cell, t[partner].galactic_cell) == 2);
    }
}

/// The pop cohort never shares its cell with the factory district.
pub proof fn lemma_pop_cohort_off_factory(seed: u64, index: int)
    requires
        0 <= index < 13,
    ensures
        system_spec(seed, index).planet.surface.pop_cohort.cell != system_spec(seed, index).planet.surface.factory.cell,
{
    reveal(system_spec);
}

/// Systems whose owners are `owner` exactly below `m` keep, owned by `owner`, their first `m`.
proof fn lemma_owned_prefix(systems: Seq<SystemDescriptor>, owner: Owner, m: int, k: int)
    requires
        0 <= m <= systems.len(),
        0 <= k <= systems.len(),
        forall|i: int| 0 <= i < systems.len() ==> ((#[trigger] systems[i]).owner == owner <==> i < m),
    ensures
        owned_by(systems.take(k), owner) == systems.take(if k < m { k } else { m }),
    decreases k,
{
    if k > 0 {
        lemma_owned_prefix(systems, owner, m, k - 1);
        assert(systems.take(k).drop_last() =~= systems.take(k - 1));
        assert(systems.take(k).last() == systems[k - 1]);
        if k <= m {
            assert(systems.take(k - 1).push(systems[k - 1]) =~= systems.take(k));
        }
    }
}

/// Starting from `Some(3)`, a row of spacings all at least 3 leaves the minimum at 3.
proof fn lemma_row_min_three(systems: Seq<SystemDescriptor>, j: int, i: nat)
    requires
        i <= j < systems.len(),
        forall|k: int| 0 <= k < j ==> empty_between((#[trigger] systems[k]).galactic_cell, systems[j].galactic_cell) >= 3,
    ensures
        row_min(Some(3u32), systems, j, i) == Some(3u32),
    decreases i,
{
    if i > 0 {
        lemma_row_min_three(systems, j, (i - 1) as nat);
        assert(empty_between(systems[i - 1].galactic_cell, systems[j].galactic_cell) >= 3);
    }
}

/// Spacings all at least 3, with exactly 3 between the first two systems: the minimum is 3.
proof fn lemma_spacing_three(systems: Seq<SystemDescriptor>, n: nat)
    requires
        2 <= n <= systems.len(),
        forall|a: int, b: int| 0 <= a < b < systems.len() ==> empty_between(
            (#[trigger] systems[a]).galactic_cell,
            (#[trigger] systems[b]).galactic_cell,
        ) >= 3,
        empty_between(systems[0].galactic_cell, systems[1].galactic_cell) == 3,
    ensures
        spacing_upto(systems, n) == Some(3u32),
    decreases n,
{
    if n == 2 {
        assert(spacing_upto(systems, 0) == None::<u32>);
        assert(row_min(None, systems, 0, 0) == None::<u32>);
        assert(spacing_upto(systems, 1) == None::<u32>);
        assert(row_min(None, systems, 1, 0) == None::<u32>);
    } else {
        lemma_spacing_three(systems, (n - 1) as nat);
        assert forall|k: int| 0 <= k < n - 1 implies empty_between(
            (#[trigger] systems[k]).galactic_cell,
            systems[n - 1].galactic_cell,
        ) >= 3 by {}
        lemma_row_min_three(systems, n - 1, (n - 1) as nat);
    }
}

/// Whatever the seed, the Terran systems are the first ten systems, and the smallest number of
/// empty cells between two of them is exactly 3.
pub proof fn lemma_terran_systems_and_spacing(seed: u64)
    ensures
        owned_by(systems_spec(seed), Owner::Terran) == systems_spec(seed).take(10),
        spacing_upto(owned_by(systems_spec(seed), Owner::Terran), 10) == Some(3u32),
{
    reveal(system_spec);
    let sys = systems_spec(seed);
    assert forall|i: int| 0 <= i < sys.len() implies ((#[trigger] sys[i]).owner == Owner::Terran <==> i < 10) by {}
    lemma_owned_prefix(sys, Owner::Terran, 10, 13);
    assert(sys.take(13) =~= sys);
    let t = sys.take(10);
    lemma_terran_spacing(seed);
    assert forall|a: int, b: int| 0 <= a < b < t.len() implies empty_between(
        (#[trigger] t[a]).galactic_cell,
        (#[trigger] t[b]).galactic_cell,
    ) >= 3 by {
        assert(t[a] == system_spec(seed, a) && t[b] == system_spec(seed, b));
    }
    assert(t[0] == system_spec(seed, 0) && t[1] == system_spec(seed, 1));
    lemma_spacing_three(t, 10);
}

/// The shape of every seed's map: thirteen systems indexed in order, the first ten Terran and
/// the rest Pirate, starports at systems 0, 4, 8 and 10 only, every system cell inside the
/// 20×20 galaxy, and no pop cohort on its factory district; its fleets are three Terran patrols
/// at systems 0, 4 and 8, then ten Pirate ships at system 10.
pub proof fn lemma_map_shape(seed: u64, fleets: Seq<FleetPlacement>)
    requires
        fleets_for(fleets, systems_spec(seed)),
    ensures
        systems_spec(seed).len() == 13,
        forall|i: int| 0 <= i < 13 ==> {
            let s = #[trigger] systems_spec(seed)[i];
            &&& s.index == i
            &&& s.owner == (if i < 10 { Owner::Terran } else { Owner::Pirate })
            &&& (s.starport is Some <==> (i == 0 || i == 4 || i == 8 || i == 10))
            &&& s.galactic_cell.x < 20 && s.galactic_cell.y < 20
            &&& s.planet.surface.pop_cohort.cell != s.planet.surface.factory.cell
        },
        fleets.len() == 13,
        forall|k: int| 0 <= k < 3 ==> (#[trigger] fleets[k]).kind == FleetKind::Patrol && fleets[k].owner == Owner::Terran
            && fleets[k].system_index == 4 * k,
        forall|k: int| 3 <= k < 13 ==> (#[trigger] fleets[k]).kind == FleetKind::PirateShip && fleets[k].owner == Owner::Pirate
            && fleets[k].system_index == 10,
{
    lemma_map_starport_systems(seed);
    assert forall|i: int| 0 <= i < 13 implies {
        let s = #[trigger] systems_spec(seed)[i];
        &&& s.index == i
        &&& s.owner == (if i < 10 { Owner::Terran } else { Owner::Pirate })
        &&& (s.starport is Some <==> (i == 0 || i == 4 || i == 8 || i == 10))
        &&& s.galactic_cell.x < 20 && s.galactic_cell.y < 20
        &&& s.planet.surface.pop_cohort.cell != s.planet.surface.factory.cell
    } by {
        reveal(system_spec);
        lemma_symmetry_isometry(symmetry_of(seed), base_cell_spec(i), base_cell_spec(i), 20);
        lemma_pop_cohort_off_factory(seed, i);
    }
    reveal(system_spec);
    let tp = terran_ports(systems_spec(seed));
    assert(tp.len() == 3);
    assert forall|k: int| 0 <= k < 3 implies (#[trigger] fleets[k]).kind == FleetKind::Patrol && fleets[k].owner == Owner::Terran
        && fleets[k].system_index == 4 * k by {
        assert(fleet_is(fleets[k], patrol_id(k as nat), FleetKind::Patrol, Owner::Terran, tp[k]));
    }
    assert forall|k: int| 3 <= k < 13 implies (#[trigger] fleets[k]).kind == FleetKind::PirateShip && fleets[k].owner == Owner::Pirate
        && fleets[k].system_index == 10 by {
        assert(fleets[tp.len() + (k - 3)] == fleets[k]);
    }
}

/// The symmetries on a `side`-wide grid: the mirrors reflect one axis (`x ↦ side − 1 − x`,
/// resp. `y`), the half-turn reflects both and is the composition of the two mirrors, and every
/// symmetry undoes itself.
pub proof fn lemma_symmetry_geometry(s: Symmetry, c: GridCell, side: u32)
    requires
        c.x < side && c.y < side,
    ensures
        apply_spec(Symmetry::Identity, c, side) == c,
        apply_spec(Symmetry::MirrorX, c, side).x + c.x == side - 1 && apply_spec(Symmetry::MirrorX, c, side).y == c.y,
        apply_spec(Symmetry::MirrorY, c, side).y + c.y == side - 1 && apply_spec(Symmetry::MirrorY, c, side).x == c.x,
        apply_spec(Symmetry::Rotate180, c, side).x + c.x == side - 1,
        apply_spec(Symmetry::Rotate180, c, side).y + c.y == side - 1,
        apply_spec(Symmetry::Rotate180, c, side)
            == apply_spec(Symmetry::MirrorX, apply_spec(Symmetry::MirrorY, c, side), side),
        apply_spec(s, apply_spec(s, c, side), side) == c,
{
}

} // verus!
