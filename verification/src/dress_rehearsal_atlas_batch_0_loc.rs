//! Location grid layout of the dress-rehearsal map: one galactic grid, one grid per star
//! system and one per planet surface, packed into one dense cell-slot range, and the
//! occupants (planets, starports, districts, cohorts, fleets) placed on them.
use crate::decimal_text::{decimal_nat, push_decimal_u64, push_text};
pub use crate::dress_rehearsal_atlas_batch_0_gen::{DressRehearsalMap, FleetKind, GridCell, Owner};
use crate::dress_rehearsal_atlas_batch_0_gen::{FleetPlacement, SystemDescriptor, GALAXY_SIDE, PLANET_SURFACE_SIDE, SYSTEM_SIDE};
use vstd::prelude::*;

verus! {

pub const DRESS_REHEARSAL_ATLAS_BATCH_0_LOC_ID: &'static str = "ATLAS-BATCH-0-LOC";
pub const DRESS_REHEARSAL_ATLAS_BATCH_0_LOC_STATUS_PASS: &'static str =
    "IMPLEMENTED / PASS - fixture-only Location gridcell layout; no runtime wiring";

pub const EXPECTED_LOCATION_COUNT: usize = 27;
pub const EXPECTED_OCCUPANT_COUNT: usize = 56;
pub const EXPECTED_TOTAL_CELL_SLOTS: u32 = 3000;

#[derive(Clone, Copy, Debug, PartialEq, Eq, Structural, Hash)]
pub struct LocationId(pub u32);

#[derive(Clone, Copy, Debug, PartialEq, Eq, Structural, Hash)]
pub enum LocationRole {
    Galactic,
    StarSystem,
    PlanetSurface,
}

#[derive(Clone, Copy, Debug, PartialEq, Eq, Structural, Hash)]
pub enum OccupantKind {
    Planet,
    Starport,
    FactoryDistrict,
    PopCohort,
    PatrolFleet,
    PirateFleet,
}

#[derive(Clone, Copy, Debug, PartialEq, Eq, Structural, Hash)]
pub enum Mobility {
    Fixed,
    Mover,
}

#[derive(Clone, Copy, Debug, PartialEq, Eq, Structural, Hash)]
pub enum ChannelKind {
    Labor,
    Production,
    ProductionPassThrough,
    Disruption,
    PatrolPresence,
    PiratePresence,
    FleetStrength(Owner),
}

#[derive(Clone, Copy, Debug, PartialEq, Eq, Structural, Hash)]
pub struct ChannelDescriptor {
    pub kind: ChannelKind,
}

#[derive(Clone, Debug, PartialEq, Eq)]
pub struct ChannelSet {
    pub channels: Vec<ChannelDescriptor>,
}

#[derive(Clone, Debug, PartialEq, Eq)]
pub struct LocationGridDescriptor {
    pub id: LocationId,
    pub role: LocationRole,
    pub parent: Option<LocationId>,
    pub map_base: u32,
    pub width: u32,
    pub height: u32,
    pub channels: ChannelSet,
}

#[derive(Clone, Debug, PartialEq, Eq)]
pub struct OccupantPlacement {
    pub kind: OccupantKind,
    pub owner: Owner,
    pub location_id: LocationId,
    pub cell: GridCell,
    pub mobility: Mobility,
    pub channels: Vec<ChannelDescriptor>,
    pub surface_location: Option<LocationId>,
    pub source_id: String,
}

#[derive(Clone, Debug, PartialEq, Eq)]
pub struct LocationMaterialization {
    pub locations: Vec<LocationGridDescriptor>,
    pub occupants: Vec<OccupantPlacement>,
    pub total_cell_slots: u32,
}

/// A location as plain values: id, role, parent, base, width, height, channel kinds.
pub type LocationView = (LocationId, LocationRole, Option<LocationId>, u32, u32, u32, Seq<ChannelDescriptor>);

/// An occupant as plain values: kind, owner, location, cell, mobility, channels, surface, source id.
pub type OccupantView = (OccupantKind, Owner, LocationId, GridCell, Mobility, Seq<ChannelDescriptor>, Option<LocationId>, Seq<char>);

pub open spec fn location_view(l: LocationGridDescriptor) -> LocationView {
    (l.id, l.role, l.parent, l.map_base, l.width, l.height, l.channels.channels@)
}

pub open spec fn occupant_view(o: OccupantPlacement) -> OccupantView {
    (o.kind, o.owner, o.location_id, o.cell, o.mobility, o.channels@, o.surface_location, o.source_id@)
}

/// Channels of a planet surface: labor and production.
pub open spec fn surface_channels() -> Seq<ChannelDescriptor> {
    seq![ChannelDescriptor { kind: ChannelKind::Labor }, ChannelDescriptor { kind: ChannelKind::Production }]
}

/// Channels of a star system: disruption and production pass-through.
pub open spec fn system_channels() -> Seq<ChannelDescriptor> {
    seq![
        ChannelDescriptor { kind: ChannelKind::Disruption },
        ChannelDescriptor { kind: ChannelKind::ProductionPassThrough },
    ]
}

/// Channels of the galactic grid: disruption, fleet strength of each owner, patrol and pirate presence.
pub open spec fn galactic_channels() -> Seq<ChannelDescriptor> {
    seq![
        ChannelDescriptor { kind: ChannelKind::Disruption },
        ChannelDescriptor { kind: ChannelKind::FleetStrength(Owner::Terran) },
        ChannelDescriptor { kind: ChannelKind::FleetStrength(Owner::Pirate) },
        ChannelDescriptor { kind: ChannelKind::PatrolPresence },
        ChannelDescriptor { kind: ChannelKind::PiratePresence },
    ]
}

fn planet_surface_channel_set() -> (r: ChannelSet)
    ensures
        r.channels@ == surface_channels(),
{
    let mut channels: Vec<ChannelDescriptor> = Vec::new();
    channels.push(ChannelDescriptor { kind: ChannelKind::Labor });
    channels.push(ChannelDescriptor { kind: ChannelKind::Production });
    proof { assert(channels@ =~= surface_channels()); }
    ChannelSet { channels }
}

fn star_system_channel_set() -> (r: ChannelSet)
    ensures
        r.channels@ == system_channels(),
{
    let mut channels: Vec<ChannelDescriptor> = Vec::new();
    channels.push(ChannelDescriptor { kind: ChannelKind::Disruption });
    channels.push(ChannelDescriptor { kind: ChannelKind::ProductionPassThrough });
    proof { assert(channels@ =~= system_channels()); }
    ChannelSet { channels }
}

fn galactic_channel_set() -> (r: ChannelSet)
    ensures
        r.channels@ == galactic_channels(),
{
    let mut channels: Vec<ChannelDescriptor> = Vec::new();
    channels.push(ChannelDescriptor { kind: ChannelKind::Disruption });
    channels.push(ChannelDescriptor { kind: ChannelKind::FleetStrength(Owner::Terran) });
    channels.push(ChannelDescriptor { kind: ChannelKind::FleetStrength(Owner::Pirate) });
    channels.push(ChannelDescriptor { kind: ChannelKind::PatrolPresence });
    channels.push(ChannelDescriptor { kind: ChannelKind::PiratePresence });
    proof { assert(channels@ =~= galactic_channels()); }
    ChannelSet { channels }
}

/// Whether the set carries a channel of the given kind.
pub fn channel_set_has_kind(set: &ChannelSet, expected: ChannelKind) -> (r: bool)
    ensures
        r == exists|i: int| 0 <= i < set.channels@.len() && (#[trigger] set.channels@[i]).kind == expected,
{
    let mut k: usize = 0;
    while k < set.channels.len()
        invariant
            k <= set.channels@.len(),
            forall|i: int| 0 <= i < k ==> (#[trigger] set.channels@[i]).kind != expected,
        decreases set.channels@.len() - k,
    {
        if set.channels[k].kind == expected {
            return true;
        }
        k = k + 1;
    }
    false
}

/// Dense slot of cell `(x, y)` in a grid of `width` columns starting at `map_base`.
pub fn cell_index(map_base: u32, width: u32, x: u32, y: u32) -> (r: u32)
    requires
        map_base + y * width + x <= u32::MAX,
    ensures
        r == map_base + y * width + x,
{
    proof {
        assert(0 <= y * width) by (nonlinear_arith);
    }
    map_base + y * width + x
}

/// Location id of the star system of system `index`: `1 + index`.
pub open spec fn system_location(index: usize) -> LocationId {
    LocationId((1 + index) as u32)
}

/// Location id of the planet surface of system `index`: `14 + index`.
pub open spec fn surface_location(index: usize) -> LocationId {
    LocationId((14 + index) as u32)
}

fn system_location_id(system_index: usize) -> (r: LocationId)
    requires
        system_index < 0xFFFF_FFF2,
    ensures
        r == system_location(system_index),
{
    LocationId(1 + system_index as u32)
}

fn surface_location_id(system_index: usize) -> (r: LocationId)
    requires
        system_index < 0xFFFF_FFF2,
    ensures
        r == surface_location(system_index),
{
    LocationId(1 + 13u32 + system_index as u32)
}

/// The locations laid out for a list of `n` systems: the galactic grid (400 slots), then a
/// 10×10 star-system grid per system, then a 10×10 surface grid per system.
pub open spec fn expected_locations(systems: Seq<SystemDescriptor>) -> Seq<LocationView> {
    let n = systems.len();
    Seq::new(1 + 2 * n, |k: int| if k == 0 {
        (LocationId(0), LocationRole::Galactic, None, 0u32, 20u32, 20u32, galactic_channels())
    } else if k <= n {
        (system_location(systems[k - 1].index), LocationRole::StarSystem, Some(LocationId(0)),
            (400 + 100 * (k - 1)) as u32, 10u32, 10u32, system_channels())
    } else {
        (surface_location(systems[k - 1 - n].index), LocationRole::PlanetSurface,
            Some(system_location(systems[k - 1 - n].index)), (400 + 100 * (k - 1)) as u32, 10u32, 10u32,
            surface_channels())
    })
}

/// One channel descriptor of the given kind.
pub open spec fn one_channel(kind: ChannelKind) -> Seq<ChannelDescriptor> {
    seq![ChannelDescriptor { kind }]
}

/// Occupants of one system: its planet (on the star-system grid, pointing at its surface),
/// its starport if any, then its factory district and pop cohort on the surface.
pub open spec fn system_occupants(s: SystemDescriptor) -> Seq<OccupantView> {
    let sys = system_location(s.index);
    let surf = surface_location(s.index);
    let planet: OccupantView = (OccupantKind::Planet, s.planet.owner, sys, s.planet.system_cell, Mobility::Fixed,
        Seq::empty(), Some(surf), "planet-"@ + decimal_nat(s.index as nat));
    let factory: OccupantView = (OccupantKind::FactoryDistrict, s.planet.surface.factory.owner, surf,
        s.planet.surface.factory.cell, Mobility::Fixed, one_channel(ChannelKind::Production), None,
        "factory-"@ + decimal_nat(s.index as nat));
    let pop: OccupantView = (OccupantKind::PopCohort, s.planet.surface.pop_cohort.owner, surf,
        s.planet.surface.pop_cohort.cell, Mobility::Fixed, one_channel(ChannelKind::Labor), None,
        "pop-"@ + decimal_nat(s.index as nat));
    match s.starport {
        Some(b) => seq![planet, (OccupantKind::Starport, b.owner, sys, b.cell, Mobility::Fixed,
            one_channel(ChannelKind::ProductionPassThrough), None, "starport-"@ + decimal_nat(s.index as nat)),
            factory, pop],
        None => seq![planet, factory, pop],
    }
}

/// Occupants of every system, in order.
pub open spec fn systems_occupants(systems: Seq<SystemDescriptor>) -> Seq<OccupantView>
    decreases systems.len(),
{
    if systems.len() == 0 {
        Seq::empty()
    } else {
        systems_occupants(systems.drop_last()) + system_occupants(systems.last())
    }
}

/// A fleet as a mover on the galactic grid, with its presence channel.
pub open spec fn fleet_occupant(f: FleetPlacement) -> OccupantView {
    let (kind, channel) = match f.kind {
        FleetKind::Patrol => (OccupantKind::PatrolFleet, ChannelKind::PatrolPresence),
        FleetKind::PirateShip => (OccupantKind::PirateFleet, ChannelKind::PiratePresence),
    };
    (kind, f.owner, LocationId(0), f.galactic_cell, Mobility::Mover, one_channel(channel), None, f.id@)
}

/// The occupants of the fleets built for `systems`: one Terran patrol per Terran starport
/// system, then ten Pirate ships at the first Pirate starport system, all on the galactic grid.
pub open spec fn fleet_occupants_for(systems: Seq<SystemDescriptor>) -> Seq<OccupantView> {
    let tp = crate::dress_rehearsal_atlas_batch_0_gen::terran_ports(systems);
    let pp = crate::dress_rehearsal_atlas_batch_0_gen::first_pirate_port(systems).unwrap();
    Seq::new(tp.len() + 10, |k: int|
        if k < tp.len() {
            (OccupantKind::PatrolFleet, Owner::Terran, LocationId(0), tp[k].galactic_cell, Mobility::Mover,
                one_channel(ChannelKind::PatrolPresence), None,
                crate::dress_rehearsal_atlas_batch_0_gen::patrol_id(k as nat))
        } else {
            (OccupantKind::PirateFleet, Owner::Pirate, LocationId(0), pp.galactic_cell, Mobility::Mover,
                one_channel(ChannelKind::PiratePresence), None,
                crate::dress_rehearsal_atlas_batch_0_gen::pirate_id((k - tp.len()) as nat))
        })
}

/// Fleets built for `systems` occupy exactly `fleet_occupants_for(systems)`.
proof fn lemma_fleet_occupants(fleets: Seq<FleetPlacement>, systems: Seq<SystemDescriptor>)
    requires
        crate::dress_rehearsal_atlas_batch_0_gen::fleets_for(fleets, systems),
    ensures
        fleets.map_values(|f: FleetPlacement| fleet_occupant(f)) == fleet_occupants_for(systems),
{
    let tp = crate::dress_rehearsal_atlas_batch_0_gen::terran_ports(systems);
    let a = fleets.map_values(|f: FleetPlacement| fleet_occupant(f));
    let b = fleet_occupants_for(systems);
    assert forall|k: int| 0 <= k < a.len() implies a[k] == b[k] by {
        if k < tp.len() {
            assert(crate::dress_rehearsal_atlas_batch_0_gen::fleet_is(fleets[k],
                crate::dress_rehearsal_atlas_batch_0_gen::patrol_id(k as nat),
                crate::dress_rehearsal_atlas_batch_0_gen::FleetKind::Patrol, Owner::Terran, tp[k]));
        } else {
            let j = k - tp.len();
            assert(fleets[tp.len() + j] == fleets[k]);
        }
    }
    assert(a =~= b);
}

fn source_text(prefix: &str, index: usize) -> (r: String)
    ensures
        r@ == prefix@ + decimal_nat(index as nat),
{
    let mut out = String::new();
    push_text(&mut out, prefix);
    push_decimal_u64(&mut out, index as u64);
    out
}

fn one_channel_vec(kind: ChannelKind) -> (r: Vec<ChannelDescriptor>)
    ensures
        r@ == one_channel(kind),
{
    let mut v: Vec<ChannelDescriptor> = Vec::new();
    v.push(ChannelDescriptor { kind });
    proof { assert(v@ =~= one_channel(kind)); }
    v
}

fn push_system_occupants(occupants: &mut Vec<OccupantPlacement>, system: &SystemDescriptor)
    requires
        system.index < 0xFFFF_FFF2,
    ensures
        final(occupants)@.map_values(|o: OccupantPlacement| occupant_view(o))
            == old(occupants)@.map_values(|o: OccupantPlacement| occupant_view(o)) + system_occupants(*system),
{
    let ghost before = old(occupants)@.map_values(|o: OccupantPlacement| occupant_view(o));
    let system_id = system_location_id(system.index);
    let surface_id = surface_location_id(system.index);
    proof {
        reveal_strlit("planet-");
        reveal_strlit("starport-");
        reveal_strlit("factory-");
        reveal_strlit("pop-");
    }
    occupants.push(OccupantPlacement {
        kind: OccupantKind::Planet,
        owner: system.planet.owner,
        location_id: system_id,
        cell: system.planet.system_cell,
        mobility: Mobility::Fixed,
        channels: Vec::new(),
        surface_location: Some(surface_id),
        source_id: source_text("planet-", system.index),
    });
    match system.starport {
        Some(starport) => {
            occupants.push(OccupantPlacement {
                kind: OccupantKind::Starport,
                owner: starport.owner,
                location_id: system_id,
                cell: starport.cell,
                mobility: Mobility::Fixed,
                channels: one_channel_vec(ChannelKind::ProductionPassThrough),
                surface_location: None,
                source_id: source_text("starport-", system.index),
            });
        },
        None => {},
    }
    occupants.push(OccupantPlacement {
        kind: OccupantKind::FactoryDistrict,
        owner: system.planet.surface.factory.owner,
        location_id: surface_id,
        cell: system.planet.surface.factory.cell,
        mobility: Mobility::Fixed,
        channels: one_channel_vec(ChannelKind::Production),
        surface_location: None,
        source_id: source_text("factory-", system.index),
    });
    occupants.push(OccupantPlacement {
        kind: OccupantKind::PopCohort,
        owner: system.planet.surface.pop_cohort.owner,
        location_id: surface_id,
        cell: system.planet.surface.pop_cohort.cell,
        mobility: Mobility::Fixed,
        channels: one_channel_vec(ChannelKind::Labor),
        surface_location: None,
        source_id: source_text("pop-", system.index),
    });
    proof {
        assert(occupants@.map_values(|o: OccupantPlacement| occupant_view(o)) =~= before + system_occupants(*system));
    }
}

impl LocationMaterialization {
    /// The layout of the canonical map.
    pub fn canonical() -> (r: Self)
        ensures
            r.locations@.map_values(|l: LocationGridDescriptor| location_view(l))
                == expected_locations(crate::dress_rehearsal_atlas_batch_0_gen::systems_spec(
                crate::dress_rehearsal_atlas_batch_0_gen::DRESS_REHEARSAL_DEFAULT_SEED)),
            r.occupants@.map_values(|o: OccupantPlacement| occupant_view(o)) == systems_occupants(
                crate::dress_rehearsal_atlas_batch_0_gen::systems_spec(
                crate::dress_rehearsal_atlas_batch_0_gen::DRESS_REHEARSAL_DEFAULT_SEED))
                + fleet_occupants_for(crate::dress_rehearsal_atlas_batch_0_gen::systems_spec(
                crate::dress_rehearsal_atlas_batch_0_gen::DRESS_REHEARSAL_DEFAULT_SEED)),
            r.total_cell_slots == 3000,
    {
        let map = DressRehearsalMap::canonical();
        proof {
            reveal(crate::dress_rehearsal_atlas_batch_0_gen::system_spec);
            lemma_fleet_occupants(map.fleets@, map.systems@);
        }
        Self::from_map(&map)
    }

    /// Lays out the locations of `map` (galactic grid, star systems, surfaces, in one dense
    /// slot range) and places its occupants: per system its planet, starport, district and
    /// cohort, then every fleet on the galactic grid.
    pub fn from_map(map: &DressRehearsalMap) -> (r: Self)
        requires
            400 + 200 * map.systems@.len() <= u32::MAX,
            forall|i: int| 0 <= i < map.systems@.len() ==> (#[trigger] map.systems@[i]).index < 0xFFFF_FFF2,
        ensures
            r.locations@.map_values(|l: LocationGridDescriptor| location_view(l)) == expected_locations(map.systems@),
            r.occupants@.map_values(|o: OccupantPlacement| occupant_view(o))
                == systems_occupants(map.systems@) + map.fleets@.map_values(|f: FleetPlacement| fleet_occupant(f)),
            r.total_cell_slots == 400 + 200 * map.systems@.len(),
    {
        let n = map.systems.len();
        let ghost expected = expected_locations(map.systems@);
        let mut locations: Vec<LocationGridDescriptor> = Vec::new();
        let mut occupants: Vec<OccupantPlacement> = Vec::new();
        let mut next_base: u32 = 0;
        locations.push(LocationGridDescriptor {
            id: LocationId(0),
            role: LocationRole::Galactic,
            parent: None,
            map_base: next_base,
            width: GALAXY_SIDE,
            height: GALAXY_SIDE,
            channels: galactic_channel_set(),
        });
        next_base = next_base + GALAXY_SIDE * GALAXY_SIDE;
        proof {
            assert(locations@.map_values(|l: LocationGridDescriptor| location_view(l)) =~= expected.take(1));
        }
        let mut k: usize = 0;
        while k < n
            invariant
                n == map.systems@.len(),
                400 + 200 * n <= u32::MAX,
                k <= n,
                forall|i: int| 0 <= i < map.systems@.len() ==> (#[trigger] map.systems@[i]).index < 0xFFFF_FFF2,
                expected == expected_locations(map.systems@),
                next_base == 400 + 100 * k,
                locations@.map_values(|l: LocationGridDescriptor| location_view(l)) == expected.take(1 + k),
            decreases n - k,
        {
            let system = &map.systems[k];
            let ghost old_views = locations@.map_values(|l: LocationGridDescriptor| location_view(l));
            locations.push(LocationGridDescriptor {
                id: system_location_id(system.index),
                role: LocationRole::StarSystem,
                parent: Some(LocationId(0)),
                map_base: next_base,
                width: SYSTEM_SIDE,
                height: SYSTEM_SIDE,
                channels: star_system_channel_set(),
            });
            next_base = next_base + SYSTEM_SIDE * SYSTEM_SIDE;
            proof {
                let last = locations@[locations@.len() - 1];
                assert(locations@.map_values(|l: LocationGridDescriptor| location_view(l)) =~= old_views.push(location_view(last)));
                assert(location_view(last) =~~= expected[1 + k]);
                assert(expected.take(1 + k).push(expected[1 + k]) =~= expected.take(1 + k + 1));
            }
            k = k + 1;
        }
        let mut k: usize = 0;
        while k < n
            invariant
                n == map.systems@.len(),
                400 + 200 * n <= u32::MAX,
                k <= n,
                forall|i: int| 0 <= i < map.systems@.len() ==> (#[trigger] map.systems@[i]).index < 0xFFFF_FFF2,
                expected == expected_locations(map.systems@),
                next_base == 400 + 100 * n + 100 * k,
                locations@.map_values(|l: LocationGridDescriptor| location_view(l)) == expected.take(1 + n + k),
            decreases n - k,
        {
            let system = &map.systems[k];
            let ghost old_views = locations@.map_values(|l: LocationGridDescriptor| location_view(l));
            locations.push(LocationGridDescriptor {
                id: surface_location_id(system.index),
                role: LocationRole::PlanetSurface,
                parent: Some(system_location_id(system.index)),
                map_base: next_base,
                width: PLANET_SURFACE_SIDE,
                height: PLANET_SURFACE_SIDE,
                channels: planet_surface_channel_set(),
            });
            next_base = next_base + PLANET_SURFACE_SIDE * PLANET_SURFACE_SIDE;
            proof {
                let last = locations@[locations@.len() - 1];
                assert(locations@.map_values(|l: LocationGridDescriptor| location_view(l)) =~= old_views.push(location_view(last)));
                assert(location_view(last) =~~= expected[1 + n + k]);
                assert(expected.take(1 + n + k).push(expected[1 + n + k]) =~= expected.take(1 + n + k + 1));
            }
            k = k + 1;
        }
        proof {
            assert(expected.take(1 + 2 * n) =~= expected);
        }
        let mut k: usize = 0;
        while k < n
            invariant
                n == map.systems@.len(),
                k <= n,
                forall|i: int| 0 <= i < map.systems@.len() ==> (#[trigger] map.systems@[i]).index < 0xFFFF_FFF2,
                occupants@.map_values(|o: OccupantPlacement| occupant_view(o)) == systems_occupants(map.systems@.take(k as int)),
            decreases n - k,
        {
            push_system_occupants(&mut occupants, &map.systems[k]);
            proof {
                assert(map.systems@.take(k + 1).drop_last() =~= map.systems@.take(k as int));
            }
            k = k + 1;
        }
        proof {
            assert(map.systems@.take(n as int) =~= map.systems@);
        }
        let ghost sys_occ = systems_occupants(map.systems@);
        let mut f: usize = 0;
        while f < map.fleets.len()
            invariant
                f <= map.fleets@.len(),
                sys_occ == systems_occupants(map.systems@),
                occupants@.map_values(|o: OccupantPlacement| occupant_view(o))
                    == sys_occ + map.fleets@.take(f as int).map_values(|x: FleetPlacement| fleet_occupant(x)),
            decreases map.fleets@.len() - f,
        {
            let fleet = &map.fleets[f];
            let ghost old_views = occupants@.map_values(|o: OccupantPlacement| occupant_view(o));
            let (kind, channel) = match fleet.kind {
                FleetKind::Patrol => (OccupantKind::PatrolFleet, ChannelKind::PatrolPresence),
                FleetKind::PirateShip => (OccupantKind::PirateFleet, ChannelKind::PiratePresence),
            };
            occupants.push(OccupantPlacement {
                kind,
                owner: fleet.owner,
                location_id: LocationId(0),
                cell: fleet.galactic_cell,
                mobility: Mobility::Mover,
                channels: one_channel_vec(channel),
                surface_location: None,
                source_id: fleet.id.clone(),
            });
            proof {
                let last = occupants@[occupants@.len() - 1];
                assert(occupants@.map_values(|o: OccupantPlacement| occupant_view(o)) =~= old_views.push(occupant_view(last)));
                assert(occupant_view(last) =~~= fleet_occupant(map.fleets@[f as int]));
                assert(map.fleets@.take(f + 1).map_values(|x: FleetPlacement| fleet_occupant(x))
                    =~= map.fleets@.take(f as int).map_values(|x: FleetPlacement| fleet_occupant(x)).push(fleet_occupant(map.fleets@[f as int])));
                assert(occupants@.map_values(|o: OccupantPlacement| occupant_view(o))
                    =~= sys_occ + map.fleets@.take(f + 1).map_values(|x: FleetPlacement| fleet_occupant(x)));
            }
            f = f + 1;
        }
        proof {
            assert(map.fleets@.take(map.fleets@.len() as int) =~= map.fleets@);
        }
        LocationMaterialization { locations, occupants, total_cell_slots: next_base }
    }
}

/// Index of the first location with `id`, if any.
pub open spec fn first_location(locations: Seq<LocationGridDescriptor>, id: LocationId) -> Option<int>
    decreases locations.len(),
{
    if locations.len() == 0 {
        None
    } else {
        match first_location(locations.drop_last(), id) {
            Some(i) => Some(i),
            None => if locations.last().id == id { Some(locations.len() - 1) } else { None },
        }
    }
}

proof fn lemma_first_location(locations: Seq<LocationGridDescriptor>, id: LocationId, k: int)
    requires
        0 <= k <= locations.len(),
        forall|i: int| 0 <= i < k ==> (#[trigger] locations[i]).id != id,
    ensures
        k < locations.len() && locations[k].id == id ==> first_location(locations, id) == Some(k),
        k == locations.len() ==> first_location(locations, id) is None,
    decreases locations.len(),
{
    if locations.len() > 0 {
        let init = locations.drop_last();
        if k < locations.len() {
            if k < init.len() {
                assert forall|i: int| 0 <= i < k implies (#[trigger] init[i]).id != id by {
                    assert(init[i] == locations[i]);
                }
                lemma_first_location(init, id, k);
                assert(init[k] == locations[k]);
            } else {
                assert forall|i: int| 0 <= i < init.len() implies (#[trigger] init[i]).id != id by {
                    assert(init[i] == locations[i]);
                }
                lemma_first_location(init, id, init.len() as int);
            }
        } else {
            assert forall|i: int| 0 <= i < init.len() implies (#[trigger] init[i]).id != id by {
                assert(init[i] == locations[i]);
            }
            lemma_first_location(init, id, init.len() as int);
        }
    }
}

/// Occupants at `cell` of location `location_id`, in order.
pub open spec fn occupants_at_spec(occupants: Seq<OccupantPlacement>, location_id: LocationId, cell: GridCell) -> Seq<OccupantPlacement>
    decreases occupants.len(),
{
    if occupants.len() == 0 {
        Seq::empty()
    } else {
        let p = occupants_at_spec(occupants.drop_last(), location_id, cell);
        let o = occupants.last();
        if o.location_id == location_id && o.cell == cell { p.push(o) } else { p }
    }
}

/// Locations of `role`, in order.
pub open spec fn locations_by_role_spec(locations: Seq<LocationGridDescriptor>, role: LocationRole) -> Seq<LocationGridDescriptor>
    decreases locations.len(),
{
    if locations.len() == 0 {
        Seq::empty()
    } else {
        let p = locations_by_role_spec(locations.drop_last(), role);
        if locations.last().role == role { p.push(locations.last()) } else { p }
    }
}

impl LocationMaterialization {
    /// The first location with `id`.
    pub fn location(&self, id: LocationId) -> (r: Option<&LocationGridDescriptor>)
        ensures
            match first_location(self.locations@, id) {
                Some(i) => r == Some(&self.locations@[i]),
                None => r is None,
            },
    {
        let mut k: usize = 0;
        while k < self.locations.len()
            invariant
                k <= self.locations@.len(),
                forall|i: int| 0 <= i < k ==> (#[trigger] self.locations@[i]).id != id,
            decreases self.locations@.len() - k,
        {
            if self.locations[k].id == id {
                proof { lemma_first_location(self.locations@, id, k as int); }
                return Some(&self.locations[k]);
            }
            k = k + 1;
        }
        proof { lemma_first_location(self.locations@, id, k as int); }
        None
    }

    /// The occupants placed at `cell` of location `location_id`, in order.
    pub fn occupants_at(&self, location_id: LocationId, cell: GridCell) -> (r: Vec<&OccupantPlacement>)
        ensures
            r@.len() == occupants_at_spec(self.occupants@, location_id, cell).len(),
            forall|i: int| 0 <= i < r@.len() ==> *(#[trigger] r@[i]) == occupants_at_spec(self.occupants@, location_id, cell)[i],
    {
        let mut out: Vec<&OccupantPlacement> = Vec::new();
        let mut k: usize = 0;
        while k < self.occupants.len()
            invariant
                k <= self.occupants@.len(),
                out@.len() == occupants_at_spec(self.occupants@.take(k as int), location_id, cell).len(),
                forall|i: int| 0 <= i < out@.len() ==> *(#[trigger] out@[i]) == occupants_at_spec(self.occupants@.take(k as int), location_id, cell)[i],
            decreases self.occupants@.len() - k,
        {
            proof {
                assert(self.occupants@.take(k + 1).drop_last() =~= self.occupants@.take(k as int));
            }
            let o = &self.occupants[k];
            if o.location_id == location_id && o.cell == cell {
                out.push(o);
            }
            k = k + 1;
        }
        proof {
            assert(self.occupants@.take(self.occupants@.len() as int) =~= self.occupants@);
        }
        out
    }

    /// The locations of `role`, in order.
    pub fn locations_by_role(&self, role: LocationRole) -> (r: Vec<&LocationGridDescriptor>)
        ensures
            r@.len() == locations_by_role_spec(self.locations@, role).len(),
            forall|i: int| 0 <= i < r@.len() ==> *(#[trigger] r@[i]) == locations_by_role_spec(self.locations@, role)[i],
    {
        let mut out: Vec<&LocationGridDescriptor> = Vec::new();
        let mut k: usize = 0;
        while k < self.locations.len()
            invariant
                k <= self.locations@.len(),
                out@.len() == locations_by_role_spec(self.locations@.take(k as int), role).len(),
                forall|i: int| 0 <= i < out@.len() ==> *(#[trigger] out@[i]) == locations_by_role_spec(self.locations@.take(k as int), role)[i],
            decreases self.locations@.len() - k,
        {
            proof {
                assert(self.locations@.take(k + 1).drop_last() =~= self.locations@.take(k as int));
            }
            let l = &self.locations[k];
            if l.role == role {
                out.push(l);
            }
            k = k + 1;
        }
        proof {
            assert(self.locations@.take(self.locations@.len() as int) =~= self.locations@);
        }
        out
    }
}

/// The location grids tile one dense slot range: each location starts where the previous one
/// ends, starting at 0, and the last one ends at `400 + 200 n`.
pub proof fn lemma_location_slots_contiguous(systems: Seq<SystemDescriptor>, k: int)
    requires
        systems.len() <= 1000,
        0 <= k < 2 * systems.len(),
    ensures
        expected_locations(systems)[0].3 == 0,
        expected_locations(systems)[k + 1].3 == expected_locations(systems)[k].3
            + expected_locations(systems)[k].4 * expected_locations(systems)[k].5,
        expected_locations(systems)[2 * systems.len() as int].3 + 100 == 400 + 200 * systems.len(),
{
}

} // verus!
