use simthing_driver::dress_rehearsal_r1_disruption_heatmap::{
    build_grid_cells, cell_index, channel_rank, owner_from_atlas, owner_rank, validate_forbidden,
    validate_surface, von_neumann_neighbors, DressRehearsalR1Channel,
    DressRehearsalR1ForbiddenRequests, DressRehearsalR1Owner, DressRehearsalR1Surface,
};
use simthing_driver::dress_rehearsal_atlas_batch_0_gen::Owner;

#[test]
fn r1_grid_is_row_major() {
    let cells = build_grid_cells();
    assert_eq!(cells.len(), 400);
    assert_eq!((cells[21].x, cells[21].y, cells[21].cell_index), (1, 1, 21));
    assert_eq!(cell_index(19, 19), 399);
    assert!(cells.iter().all(|c| c.disruption_col == 0 && c.location_status_col == 1));
}

#[test]
fn r1_surface_and_forbidden_diagnostics() {
    let mut diagnostics = Vec::new();
    validate_surface(&DressRehearsalR1Surface::with_explicit_opt_in(), &mut diagnostics);
    assert!(diagnostics.is_empty());
    let mut surface = DressRehearsalR1Surface::default_simsession();
    surface.gate.enabled_by_default = true;
    surface.blockade_or_divert_gate = true;
    validate_surface(&surface, &mut diagnostics);
    let mut forbidden = DressRehearsalR1ForbiddenRequests::default();
    forbidden.r6_combat = true;
    validate_forbidden(&forbidden, &mut diagnostics);
    assert_eq!(diagnostics, vec!["r1_default_on_rejected", "disruption_blockade_or_divert", "r6_combat"]);
    assert_eq!(owner_from_atlas(Owner::Pirate), DressRehearsalR1Owner::Pirate);
}

#[test]
fn r1_von_neumann_neighbors_and_ranks() {
    assert_eq!(von_neumann_neighbors(0, 0), vec![(1, 0), (0, 1)]);
    assert_eq!(von_neumann_neighbors(19, 19), vec![(18, 19), (19, 18)]);
    assert_eq!(von_neumann_neighbors(5, 7), vec![(4, 7), (6, 7), (5, 6), (5, 8)]);
    assert_eq!(channel_rank(DressRehearsalR1Channel::InertSystem), 0);
    assert_eq!(channel_rank(DressRehearsalR1Channel::PatrolSuppression), 2);
    assert_eq!(owner_rank(DressRehearsalR1Owner::Pirate), 1);
}
