use simthing_driver::arena_registry::{
    ArenaCoupling, ArenaIdx, ArenaParticipant, ArenaRegistry, ArenaRegistryBuilder,
    ArenaRegistryError, CouplingDelay, FissionPolicy, GpuArenaDescriptor, SimPropertyId,
    SimThingId,
};

fn food_arena(max_participants: u32) -> GpuArenaDescriptor {
    GpuArenaDescriptor {
        name: "food".into(),
        flow_property_id: SimPropertyId(0),
        balance_property_id: Some(SimPropertyId(1)),
        max_participants,
        max_coupling_fanout: 4,
        max_orderband_depth: 8,
        fission_policy: FissionPolicy::default(),
        participant_range: (0, 0),
        wildcard_max_expansion: None,
        reserved_orderband_depth: 0,
    }
}

fn research_arena() -> GpuArenaDescriptor {
    GpuArenaDescriptor {
        name: "research".into(),
        flow_property_id: SimPropertyId(2),
        balance_property_id: None,
        max_participants: 8,
        max_coupling_fanout: 4,
        max_orderband_depth: 8,
        fission_policy: FissionPolicy::Reevaluate,
        participant_range: (0, 0),
        wildcard_max_expansion: None,
        reserved_orderband_depth: 0,
    }
}

fn suppression_arena(fission_policy: FissionPolicy) -> GpuArenaDescriptor {
    GpuArenaDescriptor {
        name: "suppression".into(),
        flow_property_id: SimPropertyId(3),
        balance_property_id: None,
        max_participants: 4,
        max_coupling_fanout: 4,
        max_orderband_depth: 8,
        fission_policy,
        participant_range: (0, 0),
        wildcard_max_expansion: None,
        reserved_orderband_depth: 0,
    }
}

fn participants_in_range(reg: &ArenaRegistry, arena_idx: ArenaIdx) -> &[ArenaParticipant] {
    let (start, len) = reg.arenas[arena_idx as usize].participant_range;
    let start = start as usize;
    let end = start + len as usize;
    &reg.participants[start..end]
}

// Distinct entity identities, as a fresh-id source would mint them.
const ROOT_A: SimThingId = 1001;
const ROOT_B: SimThingId = 1002;
const ROOT_C: SimThingId = 1003;
const ROOT_D: SimThingId = 1004;

#[test]
fn arena_registry_participant_ranges_are_contiguous_when_admissions_interleaved() {
    let mut b = ArenaRegistryBuilder::new();
    let food = b.push_arena(food_arena(4));
    let research = b.push_arena(research_arena());
    b.admit_participant(food, 10, ROOT_A).unwrap();
    b.admit_participant(research, 20, ROOT_B).unwrap();
    b.admit_participant(food, 30, ROOT_C).unwrap();
    let (reg, _) = b.build().unwrap();

    assert_eq!(reg.arenas[food as usize].participant_range, (0, 2));
    assert_eq!(reg.arenas[research as usize].participant_range, (2, 1));

    let food_slice = participants_in_range(&reg, food);
    assert_eq!(food_slice.len(), 2);
    assert!(food_slice.iter().all(|p| p.arena_idx == food));
    assert_eq!(food_slice[0].slot, 10);
    assert_eq!(food_slice[1].slot, 30);
    assert_eq!(food_slice[0].subtree_root, ROOT_A);
    assert_eq!(food_slice[1].subtree_root, ROOT_C);

    let research_slice = participants_in_range(&reg, research);
    assert_eq!(research_slice.len(), 1);
    assert_eq!(research_slice[0].slot, 20);
    assert_eq!(research_slice[0].subtree_root, ROOT_B);
    assert!(research_slice.iter().all(|p| p.arena_idx == research));
}

#[test]
fn arena_registry_participant_range_slices_match_arena_idx() {
    let mut b = ArenaRegistryBuilder::new();
    let food = b.push_arena(food_arena(4));
    let research = b.push_arena(research_arena());
    let suppression = b.push_arena(suppression_arena(FissionPolicy::Reject));
    b.admit_participant(research, 1, ROOT_A).unwrap();
    b.admit_participant(food, 2, ROOT_B).unwrap();
    b.admit_participant(suppression, 3, ROOT_C).unwrap();
    b.admit_participant(food, 4, ROOT_D).unwrap();
    let (reg, _) = b.build().unwrap();

    for (arena_idx, arena) in reg.arenas.iter().enumerate() {
        let slice = participants_in_range(&reg, arena_idx as ArenaIdx);
        assert_eq!(slice.len(), arena.participant_range.1 as usize);
        assert!(slice.iter().all(|p| p.arena_idx == arena_idx as ArenaIdx));
    }
    assert_eq!(reg.arenas[0].participant_range, (0, 2));
    assert_eq!(reg.arenas[1].participant_range, (2, 1));
    assert_eq!(reg.arenas[2].participant_range, (3, 1));
}

#[test]
fn arena_registry_participant_range_is_stable_with_multiple_arenas() {
    let build = |roots: [SimThingId; 4]| {
        let mut b = ArenaRegistryBuilder::new();
        let food = b.push_arena(food_arena(4));
        let research = b.push_arena(research_arena());
        b.admit_participant(research, 5, roots[0]).unwrap();
        b.admit_participant(food, 1, roots[1]).unwrap();
        b.admit_participant(food, 2, roots[2]).unwrap();
        b.admit_participant(research, 6, roots[3]).unwrap();
        b.build().unwrap().0
    };
    let roots = [ROOT_A, ROOT_B, ROOT_C, ROOT_D];
    let a = build(roots);
    let b = build(roots);
    assert_eq!(a.participants, b.participants);
    assert_eq!(
        a.arenas.iter().map(|arena| arena.participant_range).collect::<Vec<_>>(),
        b.arenas.iter().map(|arena| arena.participant_range).collect::<Vec<_>>()
    );
}

#[test]
fn arena_registry_refresh_subtree_still_counts_after_participant_canonicalization() {
    let mut b = ArenaRegistryBuilder::new();
    let food = b.push_arena(food_arena(4));
    let research = b.push_arena(research_arena());
    b.admit_participant(food, 10, ROOT_A).unwrap();
    b.admit_participant(research, 20, ROOT_B).unwrap();
    b.admit_participant(food, 30, ROOT_A).unwrap();
    let (mut reg, _) = b.build().unwrap();
    let report = reg.refresh_subtree(ROOT_A);
    assert_eq!(report.participants_reevaluated, 2);
    assert_eq!(report.untouched_participant_count, 1);
}

#[test]
fn arena_registry_explicit_admission_only() {
    let mut b = ArenaRegistryBuilder::new();
    let food = b.push_arena(food_arena(4));
    b.admit_participant(food, 1, ROOT_A).unwrap();
    let (reg, report) = b.build().unwrap();
    assert_eq!(report.participant_count, 1);
    assert_eq!(reg.participants[0].slot, 1);
}

#[test]
fn arena_registry_rejects_implicit_participation() {
    let mut b = ArenaRegistryBuilder::new();
    b.push_arena(food_arena(4));
    let err = b.build().unwrap_err();
    assert!(matches!(err, ArenaRegistryError::ImplicitParticipation { .. }));
}

#[test]
fn arena_registry_rejects_unbounded_wildcard_without_cap() {
    let mut b = ArenaRegistryBuilder::new();
    let food = b.push_arena(food_arena(4));
    b.declare_wildcard_admission(food, None).unwrap();
    let err = b.build().unwrap_err();
    assert!(matches!(err, ArenaRegistryError::UnboundedWildcard { .. }));
}

#[test]
fn arena_registry_wildcard_with_cap_satisfies_admission() {
    let mut b = ArenaRegistryBuilder::new();
    let food = b.push_arena(food_arena(4));
    b.declare_wildcard_admission(food, Some(4)).unwrap();
    let (reg, _) = b.build().unwrap();
    assert_eq!(reg.arenas[0].wildcard_max_expansion, Some(4));
}

#[test]
fn arena_registry_enforces_max_participants() {
    let mut b = ArenaRegistryBuilder::new();
    let food = b.push_arena(food_arena(1));
    b.admit_participant(food, 1, ROOT_A).unwrap();
    b.admit_participant(food, 2, ROOT_B).unwrap();
    let err = b.build().unwrap_err();
    assert!(matches!(err, ArenaRegistryError::MaxParticipantsExceeded { .. }));
}

#[test]
fn arena_registry_rejects_all_algebraic_coupling_cycle() {
    let mut b = ArenaRegistryBuilder::new();
    let a = b.push_arena(food_arena(4));
    let b_idx = b.push_arena(research_arena());
    let c = b.push_arena(suppression_arena(FissionPolicy::Reevaluate));
    b.admit_participant(a, 0, ROOT_A).unwrap();
    b.admit_participant(b_idx, 1, ROOT_B).unwrap();
    b.admit_participant(c, 2, ROOT_C).unwrap();
    b.push_coupling(ArenaCoupling { from_arena: a, to_arena: b_idx, delay: CouplingDelay::Algebraic }).unwrap();
    b.push_coupling(ArenaCoupling { from_arena: b_idx, to_arena: c, delay: CouplingDelay::Algebraic }).unwrap();
    b.push_coupling(ArenaCoupling { from_arena: c, to_arena: a, delay: CouplingDelay::Algebraic }).unwrap();
    let err = b.build().unwrap_err();
    assert!(matches!(err, ArenaRegistryError::AllAlgebraicCouplingCycle { .. }));
}

#[test]
fn arena_registry_allows_cycle_with_delay_edge() {
    let mut b = ArenaRegistryBuilder::new();
    let a = b.push_arena(food_arena(4));
    let b_idx = b.push_arena(research_arena());
    b.admit_participant(a, 0, ROOT_A).unwrap();
    b.admit_participant(b_idx, 1, ROOT_B).unwrap();
    b.declare_wildcard_admission(b_idx, Some(2)).unwrap();
    b.push_coupling(ArenaCoupling { from_arena: a, to_arena: b_idx, delay: CouplingDelay::Algebraic }).unwrap();
    b.push_coupling(ArenaCoupling { from_arena: b_idx, to_arena: a, delay: CouplingDelay::OneTickDelay }).unwrap();
    assert!(b.build().is_ok());
}

#[test]
fn arena_registry_fission_policy_defaults_reevaluate() {
    assert_eq!(FissionPolicy::default(), FissionPolicy::Reevaluate);
    let arena = food_arena(1);
    assert_eq!(arena.fission_policy, FissionPolicy::Reevaluate);
}

#[test]
fn arena_registry_refresh_is_subtree_scoped() {
    let mut b = ArenaRegistryBuilder::new();
    let food = b.push_arena(food_arena(4));
    let research = b.push_arena(research_arena());
    b.admit_participant(food, 1, ROOT_A).unwrap();
    b.admit_participant(food, 2, ROOT_B).unwrap();
    b.admit_participant(research, 3, ROOT_A).unwrap();
    let (mut reg, _) = b.build().unwrap();
    let gen0 = reg.generation;
    let report = reg.refresh_subtree(ROOT_A);
    assert_eq!(report.participants_reevaluated, 2);
    assert_eq!(report.untouched_participant_count, 1);
    assert_eq!(report.generation_before, gen0);
    assert_eq!(report.generation_after, gen0 + 1);
    assert_eq!(reg.subtree_generations.get(&ROOT_A), Some(&1));

    let gen1 = reg.generation;
    let report2 = reg.refresh_subtree(ROOT_B);
    assert_eq!(report2.participants_reevaluated, 1);
    assert_eq!(report2.generation_after, gen1 + 1);
    assert_eq!(reg.subtree_generations.get(&ROOT_B), Some(&1));
}

// Additional cases.

#[test]
fn arena_registry_cycle_report_names_the_cycle_arenas() {
    let mut b = ArenaRegistryBuilder::new();
    let a = b.push_arena(food_arena(4));
    let c = b.push_arena(research_arena());
    b.admit_participant(a, 0, ROOT_A).unwrap();
    b.admit_participant(c, 1, ROOT_B).unwrap();
    b.push_coupling(ArenaCoupling { from_arena: a, to_arena: c, delay: CouplingDelay::Algebraic }).unwrap();
    b.push_coupling(ArenaCoupling { from_arena: c, to_arena: a, delay: CouplingDelay::Algebraic }).unwrap();
    match b.build() {
        Err(ArenaRegistryError::AllAlgebraicCouplingCycle { cycle }) => assert_eq!(cycle, vec![0, 1]),
        other => panic!("expected a cycle, got {:?}", other.map(|_| ())),
    }
}

#[test]
fn arena_registry_self_loop_is_not_a_cycle() {
    let mut b = ArenaRegistryBuilder::new();
    let a = b.push_arena(food_arena(4));
    b.admit_participant(a, 0, ROOT_A).unwrap();
    b.push_coupling(ArenaCoupling { from_arena: a, to_arena: a, delay: CouplingDelay::Algebraic }).unwrap();
    assert!(b.build().is_ok());
}

#[test]
fn arena_registry_rejects_invalid_indices() {
    let mut b = ArenaRegistryBuilder::new();
    let food = b.push_arena(food_arena(4));
    assert_eq!(b.admit_participant(food + 1, 0, ROOT_A), Err(ArenaRegistryError::InvalidArenaIdx(1)));
    assert_eq!(b.declare_wildcard_admission(7, Some(1)), Err(ArenaRegistryError::InvalidArenaIdx(7)));
    assert_eq!(
        b.push_coupling(ArenaCoupling { from_arena: 0, to_arena: 3, delay: CouplingDelay::OneTickDelay }),
        Err(ArenaRegistryError::InvalidArenaIdx(3))
    );
    assert_eq!(b.reserve_orderband_depth(2, 1), Err(ArenaRegistryError::InvalidArenaIdx(2)));
}

#[test]
fn arena_registry_rejects_orderband_reservation_over_budget() {
    let mut b = ArenaRegistryBuilder::new();
    let food = b.push_arena(food_arena(4));
    b.admit_participant(food, 0, ROOT_A).unwrap();
    b.reserve_orderband_depth(food, 9).unwrap();
    assert_eq!(
        b.build().unwrap_err(),
        ArenaRegistryError::MaxOrderBandDepthExceeded { arena: "food".into(), declared: 8, computed: 9 }
    );
}

#[test]
fn arena_registry_rejects_fanout_over_budget() {
    let mut b = ArenaRegistryBuilder::new();
    let mut narrow = food_arena(4);
    narrow.max_coupling_fanout = 1;
    let a = b.push_arena(narrow);
    let c = b.push_arena(research_arena());
    b.admit_participant(a, 0, ROOT_A).unwrap();
    b.admit_participant(c, 1, ROOT_B).unwrap();
    b.push_coupling(ArenaCoupling { from_arena: a, to_arena: c, delay: CouplingDelay::OneTickDelay }).unwrap();
    b.push_coupling(ArenaCoupling { from_arena: c, to_arena: a, delay: CouplingDelay::OneTickDelay }).unwrap();
    assert_eq!(
        b.build().unwrap_err(),
        ArenaRegistryError::HiddenFanoutExceeded { arena: "food".into(), declared: 1, computed: 2 }
    );
    let mut b = ArenaRegistryBuilder::new();
    let mut narrow = food_arena(4);
    narrow.max_coupling_fanout = 1;
    let a = b.push_arena(narrow);
    let c = b.push_arena(research_arena());
    b.admit_participant(a, 0, ROOT_A).unwrap();
    b.admit_participant(c, 1, ROOT_B).unwrap();
    b.push_coupling(ArenaCoupling { from_arena: a, to_arena: c, delay: CouplingDelay::OneTickDelay }).unwrap();
    b.push_coupling(ArenaCoupling { from_arena: a, to_arena: c, delay: CouplingDelay::OneTickDelay }).unwrap();
    assert_eq!(
        b.build().unwrap_err(),
        ArenaRegistryError::MaxCouplingFanoutExceeded { arena: "food".into(), declared: 1, computed: 2 }
    );
}

#[test]
fn arena_registry_empty_and_refresh_without_participants() {
    let mut reg = ArenaRegistry::empty();
    assert_eq!(reg.generation, 0);
    let report = reg.refresh_subtree(ROOT_A);
    assert_eq!(report.participants_reevaluated, 0);
    assert_eq!(report.generation_after, 0);
    assert!(reg.subtree_generations.is_empty());
    let expansion = reg.expansion_report();
    assert_eq!((expansion.arena_count, expansion.participant_count, expansion.coupling_count), (0, 0, 0));
}
