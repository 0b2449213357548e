use simthing_driver::arena_participant::{
    nested_fission_gap_report, reserve_gap_pools_from_block, slot_in_participant_sibling_range,
    slots_are_contiguous, validate_explicit_participant_graph, ExplicitParticipant,
    ParticipantGraphError,
};

#[test]
fn sibling_range_is_half_open_and_saturating() {
    assert!(slot_in_participant_sibling_range(10, 3, 10));
    assert!(slot_in_participant_sibling_range(10, 3, 12));
    assert!(!slot_in_participant_sibling_range(10, 3, 13));
    assert!(!slot_in_participant_sibling_range(10, 0, 10));
    assert!(slot_in_participant_sibling_range(u32::MAX - 1, 5, u32::MAX - 1));
    assert!(!slot_in_participant_sibling_range(u32::MAX - 1, 5, u32::MAX));
}

#[test]
fn contiguity() {
    assert!(slots_are_contiguous(&[]));
    assert!(slots_are_contiguous(&[7, 8, 9]));
    assert!(!slots_are_contiguous(&[7, 9]));
    assert!(!slots_are_contiguous(&[7, 6]));
}

#[test]
fn gap_block_is_split_per_parent() {
    let (pools, first) = reserve_gap_pools_from_block(&[3, 4], 2, &[100, 101, 102, 103]);
    assert_eq!(first, Some(100));
    assert_eq!(pools.len(), 2);
    assert_eq!(pools[0].parent_participant_slot, 3);
    assert_eq!(pools[0].reserved_slots(), &[100, 101]);
    assert_eq!(pools[1].reserved_slots(), &[102, 103]);
    assert_eq!(pools[1].remaining(), 2);
    let (pools, first) = reserve_gap_pools_from_block(&[3, 4], 0, &[]);
    assert!(pools.is_empty() && first.is_none());
}

#[test]
fn nested_fission_report_flags() {
    let (pools, _) = reserve_gap_pools_from_block(&[3], 2, &[100, 101]);
    let report = nested_fission_gap_report(3, &[20, 21, 22], Some(&pools[0]), Some(10), 5);
    assert_eq!(report.reserved_gap_slots, vec![100, 101]);
    assert!(report.gap_outside_active_child_span);
    assert!(report.gap_outside_arena_sibling_range);
    assert!(report.active_children_contiguous);
    let inside = nested_fission_gap_report(3, &[99, 100], Some(&pools[0]), Some(100), 1);
    assert!(!inside.gap_outside_active_child_span);
    assert!(!inside.gap_outside_arena_sibling_range);
    let empty = nested_fission_gap_report(3, &[], None, None, 0);
    assert!(!empty.gap_outside_active_child_span);
    assert!(empty.gap_outside_arena_sibling_range);
}

fn explicit(subtree_root_id: u32, parent: Option<u64>) -> ExplicitParticipant {
    ExplicitParticipant { subtree_root_id, parent_subtree_root_id: parent }
}

#[test]
fn explicit_participant_graph_accepts_a_forest() {
    let ps = vec![explicit(1, None), explicit(2, Some(1)), explicit(3, Some(2)), explicit(9, None)];
    assert_eq!(validate_explicit_participant_graph("food", &ps), Ok(()));
    assert_eq!(validate_explicit_participant_graph("empty", &Vec::new()), Ok(()));
}

#[test]
fn explicit_participant_graph_refuses_duplicates_unknown_parents_and_cycles() {
    let dup = vec![explicit(1, None), explicit(2, Some(1)), explicit(1, Some(7))];
    assert_eq!(
        validate_explicit_participant_graph("food", &dup),
        Err(ParticipantGraphError::DuplicateEnrollmentHostedSimThing { arena: "food".to_string(), subtree_root_id: 1 })
    );
    let unknown = vec![explicit(1, None), explicit(2, Some(5))];
    assert_eq!(
        validate_explicit_participant_graph("food", &unknown),
        Err(ParticipantGraphError::UnknownExplicitParticipantParent { arena: "food".to_string(), parent_subtree_root_id: 5 })
    );
    let too_wide = vec![explicit(1, Some(1u64 << 32))];
    assert_eq!(
        validate_explicit_participant_graph("food", &too_wide),
        Err(ParticipantGraphError::UnknownExplicitParticipantParent {
            arena: "food".to_string(),
            parent_subtree_root_id: 1u64 << 32,
        })
    );
    let cycle = vec![explicit(4, None), explicit(1, Some(2)), explicit(2, Some(3)), explicit(3, Some(1))];
    assert_eq!(
        validate_explicit_participant_graph("food", &cycle),
        Err(ParticipantGraphError::ExplicitParticipantParentCycle { arena: "food".to_string(), subtree_root_id: 1 })
    );
    let self_loop = vec![explicit(6, Some(6))];
    assert_eq!(
        validate_explicit_participant_graph("food", &self_loop),
        Err(ParticipantGraphError::ExplicitParticipantParentCycle { arena: "food".to_string(), subtree_root_id: 6 })
    );
}
