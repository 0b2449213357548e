use simthing_driver::dress_rehearsal_atlas_batch_0_gen::Owner;
use simthing_driver::dress_rehearsal_atlas_batch_0_loc::ChannelKind;
use simthing_driver::dress_rehearsal_atlas_batch_0_loc::{
    LocationId, LocationMaterialization, LocationRole, OccupantKind,
};
use simthing_driver::dress_rehearsal_atlas_batch_0_pack::{
    build_g_zero_mask, channel_set_has_owner_indexed, channel_set_matches, g_zero_neighbor_index,
    pack_materialization,
    pack_tile_coord, pack_tile_origins, unpack_tile_coord, CLASS_GALACTIC_20X20,
    CLASS_PLANET_SURFACE_10X10, CLASS_STAR_SYSTEM_10X10, G_ZERO_RULE,
};
use simthing_driver::dress_rehearsal_atlas_batch_0_store::{
    canonical_materialization, canonical_pirate_shared_galactic_cell, cell_index,
    class_id_for_location_role, fixture_seed_hash, pirate_fleet_source_ids,
    register_constructed_co_location_occupants, store_key_channel_rank, store_key_less,
    store_key_owner_rank, StoreKey,
};
use simthing_driver::dress_rehearsal_atlas_batch_0_store_gpu::{
    adapter_name_is_discrete_rtx_target, adapter_name_is_intel, adapter_name_matches_substring,
    decide_adapter_selection, format_parity_report, AdapterSelectionError, StoreGpuAdapterSelection,
    StoreGpuParityReport,
};
use simthing_driver::text_match::{contains_text, starts_with_text, text_less};

#[test]
fn pack_plan_classes_and_tiles() {
    let m = LocationMaterialization::canonical();
    let (classes, tiles) = pack_materialization(&m);
    assert_eq!(classes.len(), 3);
    assert_eq!(classes[0].class_id, CLASS_GALACTIC_20X20);
    assert_eq!((classes[0].atlas_width, classes[0].atlas_height), (20, 20));
    assert_eq!(classes[1].class_id, CLASS_STAR_SYSTEM_10X10);
    assert_eq!((classes[1].atlas_width, classes[1].atlas_height), (130, 10));
    assert_eq!(classes[2].class_id, CLASS_PLANET_SURFACE_10X10);
    assert_eq!(classes[2].source_location_ids.len(), 13);
    assert_eq!(tiles.len(), 27);
    assert_eq!(tiles[1].source_location_id, LocationId(1));
    assert_eq!(tiles[3].atlas_origin, (20, 0));
    assert_eq!(tiles[14].source_role, LocationRole::PlanetSurface);
    assert_eq!(tiles[14].atlas_origin, (0, 0));
    let origins = pack_tile_origins(&[&tiles[1], &tiles[2]]);
    assert_eq!(origins, vec![(0, 0), (10, 0)]);
    let mask = build_g_zero_mask(&tiles);
    assert_eq!(mask.rule, G_ZERO_RULE);
    assert_eq!(mask.tile_bounds.len(), 27);
    assert_eq!(mask.tile_bounds[5].width, 10);
    assert!(channel_set_has_owner_indexed(&classes[0].channels));
    assert!(!channel_set_has_owner_indexed(&classes[1].channels));
    assert!(channel_set_matches(&classes[1].channels, &m.locations[1].channels));
    assert!(!channel_set_matches(&classes[0].channels, &classes[1].channels));
}

#[test]
fn pack_and_unpack_round_trip() {
    let m = LocationMaterialization::canonical();
    let (classes, tiles) = pack_materialization(&m);
    assert_eq!(pack_tile_coord(&tiles, LocationId(5), 3, 7), Some((43, 7)));
    assert_eq!(unpack_tile_coord(&classes, &tiles, CLASS_STAR_SYSTEM_10X10, 43, 7), Some((LocationId(5), 3, 7)));
    assert_eq!(pack_tile_coord(&tiles, LocationId(5), 10, 0), None);
    assert_eq!(pack_tile_coord(&tiles, LocationId(99), 0, 0), None);
    assert_eq!(unpack_tile_coord(&classes, &tiles, CLASS_STAR_SYSTEM_10X10, 130, 0), None);
    assert_eq!(unpack_tile_coord(&classes, &tiles, "NoSuchClass", 0, 0), None);
    assert_eq!(pack_tile_coord(&tiles, LocationId(0), 19, 19), Some((19, 19)));
    assert_eq!(unpack_tile_coord(&classes, &tiles, CLASS_GALACTIC_20X20, 19, 19), Some((LocationId(0), 19, 19)));
}

#[test]
fn store_helpers() {
    let m = canonical_materialization();
    assert_eq!(cell_index(400, 10, 3, 2), 423);
    assert_eq!(class_id_for_location_role(LocationRole::StarSystem), CLASS_STAR_SYSTEM_10X10);
    let ids = pirate_fleet_source_ids(&m);
    assert_eq!(ids.len(), 10);
    assert_eq!(ids[0], "pirate-ship-00");
    assert_eq!(ids[9], "pirate-ship-09");
    let (location, x, y, index) = canonical_pirate_shared_galactic_cell(&m);
    assert_eq!((location, x, y), (LocationId(0), 4, 14));
    assert_eq!(index, 14 * 20 + 4);
}

#[test]
fn constructed_co_location() {
    let m = canonical_materialization();
    let extended = register_constructed_co_location_occupants(&m);
    assert_eq!(extended.locations.len(), m.locations.len());
    assert_eq!(extended.occupants.len(), m.occupants.len() + 3);
    let planet = &extended.occupants[56];
    assert_eq!(planet.source_id, "constructed-planet");
    assert_eq!(planet.kind, OccupantKind::Planet);
    assert_eq!(planet.location_id, LocationId(1));
    assert_eq!((planet.cell.x, planet.cell.y), (3, 3));
    assert_eq!(planet.channels, m.occupants[1].channels);
    assert_eq!(extended.occupants[57].source_id, "constructed-patrol");
    assert_eq!(extended.occupants[57].kind, OccupantKind::PatrolFleet);
    assert_eq!(extended.occupants[58].source_id, "constructed-pirate");
    assert_eq!(extended.occupants[58].location_id, LocationId(1));
}

#[test]
fn text_matching() {
    assert!(starts_with_text("pirate-ship-03", "pirate-ship"));
    assert!(!starts_with_text("pirate", "pirate-ship"));
    assert!(contains_text("terran-patrol-00", "patrol"));
    assert!(contains_text("abc", ""));
    assert!(!contains_text("terran", "patrol"));
    assert!(text_less("a", "b"));
    assert!(text_less("ab", "abc"));
    assert!(!text_less("abc", "abc"));
    assert!(!text_less("b", "a"));
}

#[test]
fn adapter_names() {
    assert!(adapter_name_is_intel("Intel(R) UHD Graphics 770"));
    assert!(adapter_name_is_intel("Mesa RaptorLake-S"));
    assert!(!adapter_name_is_intel("NVIDIA GeForce RTX 4080"));
    assert!(adapter_name_is_discrete_rtx_target("NVIDIA GeForce RTX 4080"));
    assert!(!adapter_name_is_discrete_rtx_target("Intel Arc(TM) A770"));
    assert!(adapter_name_matches_substring("NVIDIA GeForce RTX 4080", "geforce"));
    assert!(!adapter_name_matches_substring("NVIDIA", "amd"));
}

#[test]
fn parity_report_text() {
    let report = StoreGpuParityReport {
        adapter_selection: StoreGpuAdapterSelection {
            adapter_inventory: vec!["A".to_string(), "B".to_string()],
            requested_adapter_substring: None,
            require_adapter_match: false,
            selected_adapter_name: "A".to_string(),
            adapter_target_matched: true,
            selected_adapter_is_discrete_rtx: false,
        },
        adapter_name: "A".to_string(),
        device_name: "dev".to_string(),
        cpu_oracle_entry_count: 12,
        gpu_output_entry_count: 12,
        bit_exact_matches: 12,
        bit_exact_mismatches: 0,
        parity_standard: "bit-exact",
        ec_a3_gpu_closed: true,
        ten_pirate_shared_cell_ok: true,
        constructed_co_location_ok: true,
        owner_channel_no_blind_sum_ok: true,
    };
    let text = format_parity_report(&report, false);
    let lines: Vec<&str> = text.lines().collect();
    assert_eq!(lines[0], "requested_adapter_substring: <none>");
    assert_eq!(lines[2], "adapter_inventory: [A, B]");
    assert_eq!(lines[8], "gpu_tier_ran: false");
    assert_eq!(lines[15], "exact_match: 12/12 entries bit-exact; mismatches=0");
    assert_eq!(lines[17], "EC-A3-gpu_closed: false");
    assert_eq!(lines.len(), 19);
}

#[test]
fn g_zero_masks_cross_tile_and_out_of_atlas_neighbours() {
    let m = LocationMaterialization::canonical();
    let (classes, tiles) = pack_materialization(&m);
    // Star-system tiles are 10 wide in a 130x10 atlas: (5,5) and (15,5) sit in different tiles.
    assert_eq!(
        g_zero_neighbor_index(&classes, &tiles, CLASS_STAR_SYSTEM_10X10, 5, 5, 6, 5),
        Some(5 * 130 + 6)
    );
    assert_eq!(g_zero_neighbor_index(&classes, &tiles, CLASS_STAR_SYSTEM_10X10, 5, 5, 15, 5), None);
    assert_eq!(g_zero_neighbor_index(&classes, &tiles, CLASS_STAR_SYSTEM_10X10, 129, 9, 130, 10), None);
    assert_eq!(g_zero_neighbor_index(&classes, &tiles, "NoSuchClass", 0, 0, 0, 0), None);
}

#[test]
fn adapter_selection_decision() {
    let inventory = vec![String::from("Intel(R) UHD"), String::from("NVIDIA GeForce RTX 4080")];
    let intel = decide_adapter_selection(inventory.clone(), None, false, String::from("Intel(R) UHD"));
    assert_eq!(intel, Err(AdapterSelectionError::IntelAdapter { selected_adapter_name: String::from("Intel(R) UHD") }));
    let other = decide_adapter_selection(inventory.clone(), None, false, String::from("AMD Radeon"));
    assert_eq!(other, Err(AdapterSelectionError::NotDiscreteRtx { selected_adapter_name: String::from("AMD Radeon") }));
    let mismatch = decide_adapter_selection(
        inventory.clone(),
        Some(String::from("3090")),
        true,
        String::from("NVIDIA GeForce RTX 4080"),
    );
    assert_eq!(
        mismatch,
        Err(AdapterSelectionError::TargetMismatch {
            requested_adapter_substring: Some(String::from("3090")),
            selected_adapter_name: String::from("NVIDIA GeForce RTX 4080"),
        })
    );
    let ok = decide_adapter_selection(inventory.clone(), Some(String::from("rtx 40")), true, String::from("NVIDIA GeForce RTX 4080"))
        .unwrap();
    assert!(ok.adapter_target_matched);
    assert!(ok.selected_adapter_is_discrete_rtx);
    assert_eq!(ok.adapter_inventory, inventory);
    let unmatched_allowed = decide_adapter_selection(inventory, Some(String::from("3090")), false, String::from("RTX A5000")).unwrap();
    assert!(!unmatched_allowed.adapter_target_matched);
}

#[test]
fn store_key_order_and_fixture_seed() {
    let key = |loc: u32, cell: u32, channel: ChannelKind, owner: Owner| StoreKey {
        location_id: LocationId(loc),
        cell_index: cell,
        channel,
        owner,
    };
    let a = key(1, 5, ChannelKind::Labor, Owner::Pirate);
    let b = key(1, 5, ChannelKind::Disruption, Owner::Terran);
    let c = key(1, 6, ChannelKind::Labor, Owner::Terran);
    let d = key(2, 0, ChannelKind::Labor, Owner::Terran);
    assert!(store_key_less(&a, &b) && store_key_less(&b, &c) && store_key_less(&c, &d));
    assert!(!store_key_less(&a, &a));
    assert!(store_key_less(&key(1, 5, ChannelKind::Labor, Owner::Terran), &a));
    assert_eq!(store_key_channel_rank(ChannelKind::FleetStrength(Owner::Pirate)), 7);
    assert_eq!(store_key_owner_rank(Owner::Pirate), 1);
    assert_eq!(fixture_seed_hash("planet-1", ChannelKind::Disruption), 810471178252671727);
}
