use simthing_driver::dress_rehearsal_atlas_batch_0_gen::{
    DressRehearsalMap, FleetKind, GridCell, GridDims, Owner, Symmetry,
};
use simthing_driver::dress_rehearsal_atlas_batch_0_loc::{
    cell_index, channel_set_has_kind, ChannelKind, LocationId, LocationMaterialization,
    LocationRole, EXPECTED_LOCATION_COUNT, EXPECTED_OCCUPANT_COUNT, EXPECTED_TOTAL_CELL_SLOTS,
};

#[test]
fn grid_cell_distances() {
    let a = GridCell::new(2, 3);
    let b = GridCell::new(6, 4);
    assert_eq!(a.chebyshev_distance(b), 4);
    assert_eq!(a.empty_cells_between(b), 3);
    assert_eq!(a.empty_cells_between(a), 0);
    assert!(a.in_bounds(3) == false && a.in_bounds(4));
    assert_eq!(GridDims::square(10).cell_count(), 100);
}

#[test]
fn canonical_map_uses_mirror_y_layout() {
    let map = DressRehearsalMap::canonical();
    assert_eq!(Symmetry::from_seed(map.seed), Symmetry::MirrorY);
    assert_eq!(map.systems.len(), 13);
    assert_eq!(map.systems[0].galactic_cell, GridCell::new(2, 16));
    assert_eq!(map.systems[5].galactic_cell, GridCell::new(2, 7));
    assert_eq!(map.systems[10].galactic_cell, GridCell::new(4, 14));
    assert_eq!(map.systems[0].planet.system_cell, GridCell::new(8, 2));
    assert_eq!(map.systems[0].planet.surface.factory.cell, GridCell::new(1, 8));
    assert_eq!(map.systems[0].planet.surface.pop_cohort.cell, GridCell::new(2, 0));
}

#[test]
fn canonical_map_counts_and_fleets() {
    let map = DressRehearsalMap::canonical();
    assert_eq!(map.terran_systems().len(), 10);
    assert_eq!(map.pirate_systems().len(), 3);
    assert_eq!(map.starports().len(), 4);
    let patrols = map.fleets_by_owner(Owner::Terran);
    assert_eq!(patrols.len(), 3);
    assert_eq!(patrols[0].id, "terran-patrol-00");
    assert_eq!(patrols[2].id, "terran-patrol-02");
    assert_eq!(patrols[1].system_index, 4);
    assert_eq!(patrols[0].kind, FleetKind::Patrol);
    let pirates = map.fleets_by_owner(Owner::Pirate);
    assert_eq!(pirates.len(), 10);
    assert_eq!(pirates[9].id, "pirate-ship-09");
    assert!(pirates.iter().all(|f| f.system_index == 10 && f.galactic_cell == GridCell::new(4, 14)));
}

#[test]
fn terran_systems_are_three_empty_cells_apart_for_every_seed() {
    for seed in [0u64, 1, 2, 3, 0x0080_2000, 12345, u64::MAX] {
        let map = DressRehearsalMap::from_seed(seed);
        assert_eq!(map.minimum_terran_empty_spacing(), Some(3));
        for pirate in map.pirate_systems() {
            assert!(map.pirate_within_one_empty_cell_of_terran(&pirate));
        }
    }
}

#[test]
fn location_materialization_counts() {
    let m = LocationMaterialization::canonical();
    assert_eq!(m.locations.len(), EXPECTED_LOCATION_COUNT);
    assert_eq!(m.occupants.len(), EXPECTED_OCCUPANT_COUNT);
    assert_eq!(m.total_cell_slots, EXPECTED_TOTAL_CELL_SLOTS);
    assert_eq!(m.locations_by_role(LocationRole::StarSystem).len(), 13);
    assert_eq!(m.locations_by_role(LocationRole::PlanetSurface).len(), 13);
}

#[test]
fn location_materialization_layout() {
    let m = LocationMaterialization::canonical();
    let galactic = m.location(LocationId(0)).unwrap();
    assert_eq!((galactic.map_base, galactic.width, galactic.height), (0, 20, 20));
    assert!(channel_set_has_kind(&galactic.channels, ChannelKind::FleetStrength(Owner::Pirate)));
    assert!(!channel_set_has_kind(&galactic.channels, ChannelKind::Labor));
    let system1 = m.location(LocationId(2)).unwrap();
    assert_eq!(system1.map_base, 500);
    let surface0 = m.location(LocationId(14)).unwrap();
    assert_eq!(surface0.map_base, 1_700);
    assert_eq!(surface0.parent, Some(LocationId(1)));
    assert!(m.location(LocationId(99)).is_none());
    assert_eq!(m.occupants[0].source_id, "planet-0");
    assert_eq!(m.occupants[1].source_id, "starport-0");
    assert_eq!(m.occupants[2].source_id, "factory-0");
    assert_eq!(m.occupants[3].source_id, "pop-0");
    assert_eq!(m.occupants[4].source_id, "planet-1");
    let at_pirate_port = m.occupants_at(LocationId(0), GridCell::new(4, 14));
    assert_eq!(at_pirate_port.len(), 10);
    assert_eq!(cell_index(400, 10, 3, 2), 423);
}
