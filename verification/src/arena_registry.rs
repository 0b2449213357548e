//! Resource-flow arena registry: a session artifact that records which arenas
//! exist, which slots participate in each of them (explicit admission only),
//! and how arenas are coupled. Built once through [`ArenaRegistryBuilder`],
//! which validates budgets, lays the participants out arena-major so that each
//! arena owns one contiguous range of them, and rejects all-algebraic coupling
//! cycles.
use std::collections::HashMap;
use vstd::prelude::*;

verus! {

broadcast use vstd::std_specs::hash::group_hash_axioms;

/// Index of an arena inside a registry.
pub type ArenaIdx = u32;
/// Simulation slot of a participant.
pub type SlotId = u32;
/// Identity of a simulation entity (the root of a participant subtree).
pub type SimThingId = u64;
/// Human-readable arena name.
pub type ArenaName = String;

/// Identity of a simulation property (a flow or balance column family).
#[derive(Clone, Copy, Debug, PartialEq, Eq)]
pub struct SimPropertyId(pub u32);

/// What happens to a participant when its host splits.
#[derive(Clone, Copy, Debug, PartialEq, Eq)]
pub enum FissionPolicy {
    Inherit,
    Reevaluate,
    Reject,
}

impl Default for FissionPolicy {
    /// Fission re-evaluates admission unless a policy says otherwise.
    fn default() -> (r: Self)
        ensures
            r == FissionPolicy::Reevaluate,
    {
        FissionPolicy::Reevaluate
    }
}

/// Latency of a coupling edge between two arenas.
#[derive(Clone, Copy, Debug, PartialEq, Eq)]
pub enum CouplingDelay {
    Algebraic,
    OneTickDelay,
    BoundaryStage { stage: u32 },
    AccumulatorState { property: SimPropertyId },
}

impl CouplingDelay {
    /// True for an edge that takes effect within the same tick.
    pub fn is_algebraic(self) -> (r: bool)
        ensures
            r == (self is Algebraic),
    {
        match self {
            CouplingDelay::Algebraic => true,
            _ => false,
        }
    }
}

/// Declared budgets and identity of one arena.
#[derive(Debug, PartialEq, Eq)]
pub struct GpuArenaDescriptor {
    pub name: ArenaName,
    pub flow_property_id: SimPropertyId,
    pub balance_property_id: Option<SimPropertyId>,
    pub max_participants: u32,
    pub max_coupling_fanout: u32,
    pub max_orderband_depth: u32,
    pub fission_policy: FissionPolicy,
    /// Filled by the builder: `(start, len)` into [`ArenaRegistry::participants`].
    pub participant_range: (u32, u32),
    /// Declared upper bound for wildcard admission expansion.
    pub wildcard_max_expansion: Option<u32>,
    /// Structural OrderBand reservation (0 until enrolled).
    pub reserved_orderband_depth: u32,
}

impl Clone for GpuArenaDescriptor {
    /// Field-by-field copy.
    fn clone(&self) -> (r: Self)
        ensures
            r == *self,
    {
        GpuArenaDescriptor {
            name: self.name.clone(),
            flow_property_id: self.flow_property_id,
            balance_property_id: self.balance_property_id,
            max_participants: self.max_participants,
            max_coupling_fanout: self.max_coupling_fanout,
            max_orderband_depth: self.max_orderband_depth,
            fission_policy: self.fission_policy,
            participant_range: (self.participant_range.0, self.participant_range.1),
            wildcard_max_expansion: self.wildcard_max_expansion,
            reserved_orderband_depth: self.reserved_orderband_depth,
        }
    }
}

/// One explicitly admitted participant slot of an arena.
#[derive(Clone, Copy, Debug, PartialEq, Eq)]
pub struct ArenaParticipant {
    pub arena_idx: ArenaIdx,
    pub slot: SlotId,
    /// Subtree root for incremental refresh scoping.
    pub subtree_root: SimThingId,
}

/// A directed coupling from one arena to another.
#[derive(Clone, Copy, Debug, PartialEq, Eq)]
pub struct ArenaCoupling {
    pub from_arena: ArenaIdx,
    pub to_arena: ArenaIdx,
    pub delay: CouplingDelay,
}

/// The validated registry.
#[derive(Clone, Debug)]
pub struct ArenaRegistry {
    pub arenas: Vec<GpuArenaDescriptor>,
    pub participants: Vec<ArenaParticipant>,
    pub couplings: Vec<ArenaCoupling>,
    pub generation: u64,
    /// Per-subtree refresh generation, bumped only by subtree-scoped refresh.
    pub subtree_generations: HashMap<SimThingId, u64>,
}

/// A rejected admission, with a stable code.
#[derive(Clone, Debug, PartialEq, Eq)]
pub struct ArenaDiagnostic {
    pub code: &'static str,
    pub message: String,
}

/// Counts of what a registry holds.
#[derive(Clone, Debug, PartialEq, Eq)]
pub struct ArenaExpansionReport {
    pub arena_count: usize,
    pub participant_count: usize,
    pub coupling_count: usize,
    pub rejected: Vec<ArenaDiagnostic>,
}

/// Outcome of a subtree-scoped refresh.
#[derive(Clone, Copy, Debug, PartialEq, Eq)]
pub struct ArenaRefreshReport {
    pub changed_root: SimThingId,
    pub participants_reevaluated: usize,
    pub generation_before: u64,
    pub generation_after: u64,
    pub untouched_participant_count: usize,
}

/// Why a registry could not be built or edited.
#[derive(Clone, Debug, PartialEq, Eq)]
pub enum ArenaRegistryError {
    InvalidArenaIdx(ArenaIdx),
    ImplicitParticipation { arena: ArenaName },
    UnboundedWildcard { arena: ArenaName },
    MaxParticipantsExceeded { arena: ArenaName, declared: u32, computed: u32 },
    MaxCouplingFanoutExceeded { arena: ArenaName, declared: u32, computed: u32 },
    MaxOrderBandDepthExceeded { arena: ArenaName, declared: u32, computed: u32 },
    AllAlgebraicCouplingCycle { cycle: Vec<ArenaIdx> },
    HiddenFanoutExceeded { arena: ArenaName, declared: u32, computed: u32 },
}

/// Number of participants admitted to arena `i`.
pub open spec fn arena_count_of(ps: Seq<ArenaParticipant>, i: int) -> nat {
    ps.filter(|p: ArenaParticipant| p.arena_idx == i).len()
}

/// The participants of arenas `0 .. n`, arena-major, each arena's in admission order.
pub open spec fn arena_major(ps: Seq<ArenaParticipant>, n: nat) -> Seq<ArenaParticipant>
    decreases n,
{
    if n == 0 {
        Seq::empty()
    } else {
        arena_major(ps, (n - 1) as nat) + ps.filter(|p: ArenaParticipant| p.arena_idx == n - 1)
    }
}

impl ArenaRegistry {
    /// A registry with nothing in it, at generation 0.
    pub fn empty() -> (r: Self)
        ensures
            r.arenas@.len() == 0,
            r.participants@.len() == 0,
            r.couplings@.len() == 0,
            r.generation == 0,
            r.subtree_generations@ == Map::<SimThingId, u64>::empty(),
    {
        ArenaRegistry {
            arenas: Vec::new(),
            participants: Vec::new(),
            couplings: Vec::new(),
            generation: 0,
            subtree_generations: HashMap::new(),
        }
    }

    /// Number of participants rooted at `root`.
    pub open spec fn rooted_count(ps: Seq<ArenaParticipant>, root: SimThingId) -> nat {
        ps.filter(|p: ArenaParticipant| p.subtree_root == root).len()
    }

    /// Subtree-scoped refresh: re-evaluates admission only for participants rooted at
    /// `changed_root`; when there are any, the registry generation and that subtree's
    /// generation each advance by one. Nothing else changes.
    pub fn refresh_subtree(&mut self, changed_root: SimThingId) -> (report: ArenaRefreshReport)
        requires
            old(self).subtree_generations@.contains_key(changed_root)
                ==> old(self).subtree_generations@[changed_root] < u64::MAX,
        ensures
            report.changed_root == changed_root,
            report.participants_reevaluated == Self::rooted_count(old(self).participants@, changed_root),
            report.untouched_participant_count
                == old(self).participants@.len() - Self::rooted_count(old(self).participants@, changed_root),
            report.generation_before == old(self).generation,
            report.generation_after == final(self).generation,
            final(self).arenas@ == old(self).arenas@,
            final(self).participants@ == old(self).participants@,
            final(self).couplings@ == old(self).couplings@,
            Self::rooted_count(old(self).participants@, changed_root) == 0 ==> {
                &&& final(self).generation == old(self).generation
                &&& final(self).subtree_generations@ == old(self).subtree_generations@
            },
            Self::rooted_count(old(self).participants@, changed_root) > 0 ==> {
                &&& final(self).generation == (if old(self).generation == u64::MAX { u64::MAX } else {
                    (old(self).generation + 1) as u64 })
                &&& final(self).subtree_generations@ == old(self).subtree_generations@.insert(
                    changed_root,
                    (if old(self).subtree_generations@.contains_key(changed_root) {
                        old(self).subtree_generations@[changed_root] + 1
                    } else {
                        1
                    }) as u64,
                )
            },
    {
        let generation_before = self.generation;
        let mut participants_reevaluated: usize = 0;
        let ghost ps = self.participants@;
        let n = self.participants.len();
        let mut i: usize = 0;
        while i < n
            invariant
                n == ps.len(),
                ps == self.participants@,
                i <= n,
                participants_reevaluated == ps.subrange(0, i as int).filter(
                    |p: ArenaParticipant| p.subtree_root == changed_root,
                ).len(),
                participants_reevaluated <= i,
            decreases n - i,
        {
            proof {
                let pred = |p: ArenaParticipant| p.subtree_root == changed_root;
                assert(ps.subrange(0, i + 1) == ps.subrange(0, i as int).push(ps[i as int]));
                ps.subrange(0, i as int).lemma_filter_push(ps[i as int], pred);
            }
            if self.participants[i].subtree_root == changed_root {
                participants_reevaluated = participants_reevaluated + 1;
            }
            i = i + 1;
        }
        proof {
            assert(ps.subrange(0, n as int) == ps);
            ps.lemma_filter_len(|p: ArenaParticipant| p.subtree_root == changed_root);
        }
        if participants_reevaluated > 0 {
            self.generation = self.generation.saturating_add(1);
            let current: u64 = match self.subtree_generations.get(&changed_root) {
                Some(v) => *v,
                None => 0,
            };
            self.subtree_generations.insert(changed_root, current + 1);
        }
        let untouched_participant_count = self.participants.len().saturating_sub(participants_reevaluated);
        ArenaRefreshReport {
            changed_root,
            participants_reevaluated,
            generation_before,
            generation_after: self.generation,
            untouched_participant_count,
        }
    }

    /// Counts of arenas, participants and couplings; nothing rejected.
    pub fn expansion_report(&self) -> (r: ArenaExpansionReport)
        ensures
            r.arena_count == self.arenas@.len(),
            r.participant_count == self.participants@.len(),
            r.coupling_count == self.couplings@.len(),
            r.rejected@.len() == 0,
    {
        ArenaExpansionReport {
            arena_count: self.arenas.len(),
            participant_count: self.participants.len(),
            coupling_count: self.couplings.len(),
            rejected: Vec::new(),
        }
    }
}

/// A wildcard declaration without a usable expansion cap.
pub open spec fn unbounded_wildcard(d: (ArenaIdx, Option<u32>)) -> bool {
    d.1 is None || d.1 == Some(0u32)
}

/// Index of the first unbounded wildcard declaration at or after `i`.
pub open spec fn first_unbounded_from(decls: Seq<(ArenaIdx, Option<u32>)>, i: int) -> Option<int>
    decreases decls.len() - i,
{
    if i < 0 || i >= decls.len() {
        None
    } else if unbounded_wildcard(decls[i]) {
        Some(i)
    } else {
        first_unbounded_from(decls, i + 1)
    }
}

/// The arenas after every wildcard declaration has recorded its cap, later ones winning.
pub open spec fn with_wildcards(
    arenas: Seq<GpuArenaDescriptor>,
    decls: Seq<(ArenaIdx, Option<u32>)>,
) -> Seq<GpuArenaDescriptor>
    decreases decls.len(),
{
    if decls.len() == 0 {
        arenas
    } else {
        let prev = with_wildcards(arenas, decls.drop_last());
        let d = decls.last();
        prev.update(d.0 as int, GpuArenaDescriptor { wildcard_max_expansion: d.1, ..prev[d.0 as int] })
    }
}

/// The budget violation of one arena holding `count` participants, checked in the order
/// participants, implicit participation, OrderBand depth.
pub open spec fn arena_budget_error(a: GpuArenaDescriptor, count: nat) -> Option<ArenaRegistryError> {
    if count > a.max_participants {
        Some(ArenaRegistryError::MaxParticipantsExceeded {
            arena: a.name,
            declared: a.max_participants,
            computed: count as u32,
        })
    } else if count == 0 && a.wildcard_max_expansion is None {
        Some(ArenaRegistryError::ImplicitParticipation { arena: a.name })
    } else if a.reserved_orderband_depth > a.max_orderband_depth {
        Some(ArenaRegistryError::MaxOrderBandDepthExceeded {
            arena: a.name,
            declared: a.max_orderband_depth,
            computed: a.reserved_orderband_depth,
        })
    } else {
        None
    }
}

/// The first budget violation among arenas `i ..`.
pub open spec fn first_budget_error_from(
    arenas: Seq<GpuArenaDescriptor>,
    ps: Seq<ArenaParticipant>,
    i: int,
) -> Option<ArenaRegistryError>
    decreases arenas.len() - i,
{
    if i < 0 || i >= arenas.len() {
        None
    } else {
        match arena_budget_error(arenas[i], arena_count_of(ps, i)) {
            Some(e) => Some(e),
            None => first_budget_error_from(arenas, ps, i + 1),
        }
    }
}

/// Couplings leaving arena `i`.
pub open spec fn out_fanout(cs: Seq<ArenaCoupling>, i: int) -> nat {
    cs.filter(|c: ArenaCoupling| c.from_arena == i).len()
}

/// Couplings entering arena `i`.
pub open spec fn in_fanout(cs: Seq<ArenaCoupling>, i: int) -> nat {
    cs.filter(|c: ArenaCoupling| c.to_arena == i).len()
}

/// The fanout violation of one arena: the larger direction first, then both directions together.
pub open spec fn arena_fanout_error(a: GpuArenaDescriptor, out: nat, inn: nat) -> Option<ArenaRegistryError> {
    let larger = if out >= inn { out } else { inn };
    if larger > a.max_coupling_fanout {
        Some(ArenaRegistryError::MaxCouplingFanoutExceeded {
            arena: a.name,
            declared: a.max_coupling_fanout,
            computed: larger as u32,
        })
    } else if out + inn > a.max_coupling_fanout {
        Some(ArenaRegistryError::HiddenFanoutExceeded {
            arena: a.name,
            declared: a.max_coupling_fanout,
            computed: (out + inn) as u32,
        })
    } else {
        None
    }
}

/// The first fanout violation among arenas `i ..`.
pub open spec fn first_fanout_error_from(
    arenas: Seq<GpuArenaDescriptor>,
    cs: Seq<ArenaCoupling>,
    i: int,
) -> Option<ArenaRegistryError>
    decreases arenas.len() - i,
{
    if i < 0 || i >= arenas.len() {
        None
    } else {
        match arena_fanout_error(arenas[i], out_fanout(cs, i), in_fanout(cs, i)) {
            Some(e) => Some(e),
            None => first_fanout_error_from(arenas, cs, i + 1),
        }
    }
}

/// There is a coupling `a -> b` that takes effect within the tick.
pub open spec fn has_algebraic_edge(cs: Seq<ArenaCoupling>, a: ArenaIdx, b: ArenaIdx) -> bool {
    exists|j: int| 0 <= j < cs.len() && cs[j].from_arena == a && cs[j].to_arena == b && cs[j].delay is Algebraic
}

/// `path` visits distinct arenas, each joined to the next (and the last to the first)
/// by an algebraic coupling: a cycle of at least two arenas that never waits a tick.
pub open spec fn is_algebraic_cycle(cs: Seq<ArenaCoupling>, path: Seq<ArenaIdx>) -> bool {
    &&& path.len() >= 2
    &&& path.no_duplicates()
    &&& forall|k: int| 0 <= k < path.len() - 1 ==> has_algebraic_edge(cs, #[trigger] path[k], path[k + 1])
    &&& has_algebraic_edge(cs, path.last(), path[0])
}

/// The validation error `build` reports before searching for coupling cycles, if any.
pub open spec fn spec_validation_error(
    arenas: Seq<GpuArenaDescriptor>,
    ps: Seq<ArenaParticipant>,
    cs: Seq<ArenaCoupling>,
    decls: Seq<(ArenaIdx, Option<u32>)>,
) -> Option<ArenaRegistryError> {
    match first_unbounded_from(decls, 0) {
        Some(i) => Some(ArenaRegistryError::UnboundedWildcard { arena: arenas[decls[i].0 as int].name }),
        None => {
            let w = with_wildcards(arenas, decls);
            match first_budget_error_from(w, ps, 0) {
                Some(e) => Some(e),
                None => first_fanout_error_from(w, cs, 0),
            }
        }
    }
}

/// The arenas of a built registry: wildcard caps recorded and each participant range set to
/// `(first index of the arena's participants, number of them)` in the arena-major order.
pub open spec fn finalized_arenas(
    arenas: Seq<GpuArenaDescriptor>,
    ps: Seq<ArenaParticipant>,
    decls: Seq<(ArenaIdx, Option<u32>)>,
) -> Seq<GpuArenaDescriptor> {
    let w = with_wildcards(arenas, decls);
    Seq::new(
        w.len(),
        |i: int|
            GpuArenaDescriptor {
                participant_range: (arena_major(ps, i as nat).len() as u32, arena_count_of(ps, i) as u32),
                ..w[i]
            },
    )
}

/// Session-build draft of an [`ArenaRegistry`]: every index it records names an arena
/// that was pushed before it.
#[derive(Debug)]
pub struct ArenaRegistryBuilder {
    arenas: Vec<GpuArenaDescriptor>,
    participants: Vec<ArenaParticipant>,
    couplings: Vec<ArenaCoupling>,
    /// Wildcard admission declared without explicit slots; requires a cap.
    wildcard_declarations: Vec<(ArenaIdx, Option<u32>)>,
}

impl ArenaRegistryBuilder {
    /// Well-formedness: at most `u32::MAX` arenas, and every index recorded names one of them.
    pub closed spec fn wf(&self) -> bool {
        &&& self.arenas@.len() <= u32::MAX
        &&& forall|i: int| 0 <= i < self.participants@.len()
            ==> #[trigger] self.participants@[i].arena_idx < self.arenas@.len()
        &&& forall|i: int| 0 <= i < self.couplings@.len()
            ==> #[trigger] self.couplings@[i].from_arena < self.arenas@.len()
                && self.couplings@[i].to_arena < self.arenas@.len()
        &&& forall|i: int| 0 <= i < self.wildcard_declarations@.len()
            ==> #[trigger] self.wildcard_declarations@[i].0 < self.arenas@.len()
    }

    /// Arenas pushed so far, in push order.
    pub closed spec fn arenas_view(&self) -> Seq<GpuArenaDescriptor> {
        self.arenas@
    }

    /// Participants admitted so far, in admission order.
    pub closed spec fn participants_view(&self) -> Seq<ArenaParticipant> {
        self.participants@
    }

    /// Couplings pushed so far, in push order.
    pub closed spec fn couplings_view(&self) -> Seq<ArenaCoupling> {
        self.couplings@
    }

    /// Wildcard declarations so far, in declaration order.
    pub closed spec fn wildcards_view(&self) -> Seq<(ArenaIdx, Option<u32>)> {
        self.wildcard_declarations@
    }

    /// An empty draft.
    pub fn new() -> (r: Self)
        ensures
            r.wf(),
            r.arenas_view().len() == 0,
            r.participants_view().len() == 0,
            r.couplings_view().len() == 0,
            r.wildcards_view().len() == 0,
    {
        ArenaRegistryBuilder {
            arenas: Vec::new(),
            participants: Vec::new(),
            couplings: Vec::new(),
            wildcard_declarations: Vec::new(),
        }
    }

    /// Adds an arena (its participant range is reset) and returns its index.
    pub fn push_arena(&mut self, desc: GpuArenaDescriptor) -> (idx: ArenaIdx)
        requires
            old(self).wf(),
            old(self).arenas_view().len() < u32::MAX,
        ensures
            final(self).wf(),
            idx == old(self).arenas_view().len(),
            final(self).arenas_view() == old(self).arenas_view().push(
                GpuArenaDescriptor { participant_range: (0u32, 0u32), ..desc },
            ),
            final(self).participants_view() == old(self).participants_view(),
            final(self).couplings_view() == old(self).couplings_view(),
            final(self).wildcards_view() == old(self).wildcards_view(),
    {
        let idx = self.arenas.len() as ArenaIdx;
        let mut desc = desc;
        desc.participant_range = (0, 0);
        self.arenas.push(desc);
        idx
    }

    /// Explicit admission only: `slot` joins arena `arena_idx`, rooted at `subtree_root`.
    pub fn admit_participant(&mut self, arena_idx: ArenaIdx, slot: SlotId, subtree_root: SimThingId) -> (r: Result<(), ArenaRegistryError>)
        requires
            old(self).wf(),
        ensures
            final(self).wf(),
            arena_idx < old(self).arenas_view().len() ==> {
                &&& r is Ok
                &&& final(self).participants_view() == old(self).participants_view().push(
                    ArenaParticipant { arena_idx, slot, subtree_root },
                )
            },
            arena_idx >= old(self).arenas_view().len() ==> {
                &&& r == Err::<(), ArenaRegistryError>(ArenaRegistryError::InvalidArenaIdx(arena_idx))
                &&& final(self).participants_view() == old(self).participants_view()
            },
            final(self).arenas_view() == old(self).arenas_view(),
            final(self).couplings_view() == old(self).couplings_view(),
            final(self).wildcards_view() == old(self).wildcards_view(),
    {
        if arena_idx as usize >= self.arenas.len() {
            return Err(ArenaRegistryError::InvalidArenaIdx(arena_idx));
        }
        self.participants.push(ArenaParticipant { arena_idx, slot, subtree_root });
        Ok(())
    }

    /// Declares wildcard admission for an arena; a missing (or zero) cap is rejected at build.
    pub fn declare_wildcard_admission(&mut self, arena_idx: ArenaIdx, max_expansion: Option<u32>) -> (r: Result<(), ArenaRegistryError>)
        requires
            old(self).wf(),
        ensures
            final(self).wf(),
            arena_idx < old(self).arenas_view().len() ==> {
                &&& r is Ok
                &&& final(self).wildcards_view() == old(self).wildcards_view().push((arena_idx, max_expansion))
            },
            arena_idx >= old(self).arenas_view().len() ==> {
                &&& r == Err::<(), ArenaRegistryError>(ArenaRegistryError::InvalidArenaIdx(arena_idx))
                &&& final(self).wildcards_view() == old(self).wildcards_view()
            },
            final(self).arenas_view() == old(self).arenas_view(),
            final(self).participants_view() == old(self).participants_view(),
            final(self).couplings_view() == old(self).couplings_view(),
    {
        if arena_idx as usize >= self.arenas.len() {
            return Err(ArenaRegistryError::InvalidArenaIdx(arena_idx));
        }
        self.wildcard_declarations.push((arena_idx, max_expansion));
        Ok(())
    }

    /// Adds a coupling between two pushed arenas (the source is checked first).
    pub fn push_coupling(&mut self, coupling: ArenaCoupling) -> (r: Result<(), ArenaRegistryError>)
        requires
            old(self).wf(),
        ensures
            final(self).wf(),
            coupling.from_arena >= old(self).arenas_view().len() ==> r
                == Err::<(), ArenaRegistryError>(ArenaRegistryError::InvalidArenaIdx(coupling.from_arena)),
            coupling.from_arena < old(self).arenas_view().len() && coupling.to_arena >= old(
                self,
            ).arenas_view().len() ==> r == Err::<(), ArenaRegistryError>(
                ArenaRegistryError::InvalidArenaIdx(coupling.to_arena),
            ),
            r is Ok <==> (coupling.from_arena < old(self).arenas_view().len() && coupling.to_arena < old(
                self,
            ).arenas_view().len()),
            r is Ok ==> final(self).couplings_view() == old(self).couplings_view().push(coupling),
            r is Err ==> final(self).couplings_view() == old(self).couplings_view(),
            final(self).arenas_view() == old(self).arenas_view(),
            final(self).participants_view() == old(self).participants_view(),
            final(self).wildcards_view() == old(self).wildcards_view(),
    {
        if coupling.from_arena as usize >= self.arenas.len() {
            return Err(ArenaRegistryError::InvalidArenaIdx(coupling.from_arena));
        }
        if coupling.to_arena as usize >= self.arenas.len() {
            return Err(ArenaRegistryError::InvalidArenaIdx(coupling.to_arena));
        }
        self.couplings.push(coupling);
        Ok(())
    }

    /// Records the OrderBand depth reserved for an arena.
    pub fn reserve_orderband_depth(&mut self, arena_idx: ArenaIdx, depth: u32) -> (r: Result<(), ArenaRegistryError>)
        requires
            old(self).wf(),
        ensures
            final(self).wf(),
            arena_idx < old(self).arenas_view().len() ==> {
                &&& r is Ok
                &&& final(self).arenas_view() == old(self).arenas_view().update(
                    arena_idx as int,
                    GpuArenaDescriptor {
                        reserved_orderband_depth: depth,
                        ..old(self).arenas_view()[arena_idx as int]
                    },
                )
            },
            arena_idx >= old(self).arenas_view().len() ==> {
                &&& r == Err::<(), ArenaRegistryError>(ArenaRegistryError::InvalidArenaIdx(arena_idx))
                &&& final(self).arenas_view() == old(self).arenas_view()
            },
            final(self).participants_view() == old(self).participants_view(),
            final(self).couplings_view() == old(self).couplings_view(),
            final(self).wildcards_view() == old(self).wildcards_view(),
    {
        if arena_idx as usize >= self.arenas.len() {
            return Err(ArenaRegistryError::InvalidArenaIdx(arena_idx));
        }
        let mut arena = self.arenas[arena_idx as usize].clone();
        arena.reserved_orderband_depth = depth;
        self.arenas.set(arena_idx as usize, arena);
        Ok(())
    }

    /// Validates and finalizes the registry. Checks, in order: every wildcard declaration
    /// carries a nonzero cap (recording it); every arena stays within its participant and
    /// OrderBand budgets and has participants or a wildcard cap; participants are laid out
    /// arena-major so each arena owns the range `participant_range`; every arena stays within
    /// its coupling fanout (larger direction, then both directions together); and no
    /// all-algebraic coupling cycle is found by `algebraic_cycle_search` (refused with the cycle
    /// the search reports, which is always a genuine one). The registry starts at generation 1.
    #[verifier::loop_isolation(false)]
    pub fn build(self) -> (r: Result<(ArenaRegistry, ArenaExpansionReport), ArenaRegistryError>)
        requires
            self.wf(),
            self.participants_view().len() <= u32::MAX,
            self.couplings_view().len() <= 0x7FFF_FFFF,
        ensures
            spec_validation_error(
                self.arenas_view(),
                self.participants_view(),
                self.couplings_view(),
                self.wildcards_view(),
            ) matches Some(e) ==> r == Err::<(ArenaRegistry, ArenaExpansionReport), ArenaRegistryError>(e),
            spec_validation_error(
                self.arenas_view(),
                self.participants_view(),
                self.couplings_view(),
                self.wildcards_view(),
            ) is None ==> match r {
                Ok((reg, report)) => {
                    &&& reg.arenas@ == finalized_arenas(
                        self.arenas_view(),
                        self.participants_view(),
                        self.wildcards_view(),
                    )
                    &&& reg.participants@ == arena_major(
                        self.participants_view(),
                        self.arenas_view().len(),
                    )
                    &&& reg.participants@.len() == self.participants_view().len()
                    &&& reg.couplings@ == self.couplings_view()
                    &&& reg.generation == 1
                    &&& reg.subtree_generations@ == Map::<SimThingId, u64>::empty()
                    &&& report.arena_count == self.arenas_view().len()
                    &&& report.participant_count == self.participants_view().len()
                    &&& report.coupling_count == self.couplings_view().len()
                    &&& report.rejected@.len() == 0
                    &&& algebraic_cycle_search(self.couplings_view(), self.arenas_view().len()) is None
                },
                Err(e) => e matches ArenaRegistryError::AllAlgebraicCouplingCycle { cycle }
                    && is_algebraic_cycle(self.couplings_view(), cycle@)
                    && algebraic_cycle_search(self.couplings_view(), self.arenas_view().len()) == Some(cycle@),
            },
            spec_validation_error(
                self.arenas_view(),
                self.participants_view(),
                self.couplings_view(),
                self.wildcards_view(),
            ) is None && (forall|p: Seq<ArenaIdx>| !is_algebraic_cycle(self.couplings_view(), p))
                ==> r is Ok,
    {
        let ghost a0 = self.arenas@;
        let ghost ps = self.participants@;
        let ghost cs = self.couplings@;
        let ghost ds = self.wildcard_declarations@;
        let mut arenas = self.arenas;
        let participants = self.participants;
        let couplings = self.couplings;
        let wildcard_declarations = self.wildcard_declarations;
        let n = arenas.len();

        // Wildcard caps.
        let mut i: usize = 0;
        while i < wildcard_declarations.len()
            invariant
                ds == wildcard_declarations@,
                arenas@.len() == a0.len() == n,
                forall|k: int| 0 <= k < ds.len() ==> #[trigger] ds[k].0 < n,
                i <= ds.len(),
                arenas@ == with_wildcards(a0, ds.take(i as int)),
                forall|k: int| 0 <= k < n ==> #[trigger] arenas@[k].name == a0[k].name,
                first_unbounded_from(ds, 0) == first_unbounded_from(ds, i as int),
            decreases ds.len() - i,
        {
            let (arena_idx, max_expansion) = wildcard_declarations[i];
            match max_expansion {
                Some(cap) if cap != 0 => {
                    let mut arena = arenas[arena_idx as usize].clone();
                    arena.wildcard_max_expansion = Some(cap);
                    arenas.set(arena_idx as usize, arena);
                    proof {
                        assert(ds.take(i + 1).drop_last() == ds.take(i as int));
                    }
                },
                _ => {
                    proof {
                        assert(first_unbounded_from(ds, i as int) == Some(i as int));
                    }
                    let name = arenas[arena_idx as usize].name.clone();
                    return Err(ArenaRegistryError::UnboundedWildcard { arena: name });
                },
            }
            i = i + 1;
        }
        proof {
            assert(ds.take(ds.len() as int) == ds);
            assert(first_unbounded_from(ds, ds.len() as int) is None);
        }
        let ghost w = arenas@;

        // Participant and OrderBand budgets.
        let mut i: usize = 0;
        while i < n
            invariant
                arenas@ == w,
                w.len() == n,
                ps == participants@,
                ps.len() <= u32::MAX,
                i <= n,
                first_budget_error_from(w, ps, 0) == first_budget_error_from(w, ps, i as int),
                first_unbounded_from(ds, 0) is None,
                w == with_wildcards(a0, ds),
            decreases n - i,
        {
            let count = count_in_arena(&participants, i as ArenaIdx);
            proof {
                ps.lemma_filter_len(|p: ArenaParticipant| p.arena_idx == i);
                assert(first_budget_error_from(w, ps, i as int) == match arena_budget_error(
                    w[i as int], arena_count_of(ps, i as int)) {
                    Some(e) => Some(e),
                    None => first_budget_error_from(w, ps, i + 1),
                });
            }
            let arena = &arenas[i];
            if count > arena.max_participants {
                return Err(ArenaRegistryError::MaxParticipantsExceeded {
                    arena: arena.name.clone(),
                    declared: arena.max_participants,
                    computed: count,
                });
            }
            if count == 0 && arena.wildcard_max_expansion.is_none() {
                return Err(ArenaRegistryError::ImplicitParticipation { arena: arena.name.clone() });
            }
            if arena.reserved_orderband_depth > arena.max_orderband_depth {
                return Err(ArenaRegistryError::MaxOrderBandDepthExceeded {
                    arena: arena.name.clone(),
                    declared: arena.max_orderband_depth,
                    computed: arena.reserved_orderband_depth,
                });
            }
            i = i + 1;
        }

        // Arena-major layout and participant ranges.
        proof {
            assert(first_budget_error_from(w, ps, n as int) is None);
            lemma_participant_ranges_partition(ps, n as nat);
        }
        let mut ordered: Vec<ArenaParticipant> = Vec::new();
        let mut i: usize = 0;
        while i < n
            invariant
                w.len() == n,
                arenas@.len() == n,
                ps == participants@,
                ps.len() <= u32::MAX,
                i <= n,
                ordered@ == arena_major(ps, i as nat),
                arena_major(ps, n as nat).len() == ps.len(),
                forall|k: nat| k < n ==> {
                    let start = #[trigger] arena_major(ps, k).len();
                    start + arena_count_of(ps, k as int) == arena_major(ps, k + 1).len()
                },
                forall|k: int| 0 <= k < i ==> #[trigger] arenas@[k] == finalized_arenas(a0, ps, ds)[k],
                forall|k: int| i <= k < n ==> #[trigger] arenas@[k] == w[k],
                w == with_wildcards(a0, ds),
                first_unbounded_from(ds, 0) is None,
                first_budget_error_from(w, ps, 0) is None,
            decreases n - i,
        {
            let range_start = ordered.len();
            proof {
                lemma_arena_major_prefix(ps, (i + 1) as nat, n as nat);
            }
            append_arena_participants(&participants, i as ArenaIdx, &mut ordered);
            let count = ordered.len() - range_start;
            let mut arena = arenas[i].clone();
            arena.participant_range = (range_start as u32, count as u32);
            arenas.set(i, arena);
            i = i + 1;
        }
        assert(arenas@ == finalized_arenas(a0, ps, ds));

        // Coupling fanout.
        let mut i: usize = 0;
        while i < n
            invariant
                arenas@ == finalized_arenas(a0, ps, ds),
                w == with_wildcards(a0, ds),
                w.len() == n,
                cs == couplings@,
                cs.len() <= 0x7FFF_FFFF,
                i <= n,
                first_fanout_error_from(w, cs, 0) == first_fanout_error_from(w, cs, i as int),
                first_unbounded_from(ds, 0) is None,
                first_budget_error_from(w, ps, 0) is None,
                ordered@ == arena_major(ps, n as nat),
                arena_major(ps, n as nat).len() == ps.len(),
            decreases n - i,
        {
            let out = count_couplings(&couplings, i as ArenaIdx, true);
            let inn = count_couplings(&couplings, i as ArenaIdx, false);
            proof {
                cs.lemma_filter_len(|c: ArenaCoupling| c.from_arena == i);
                cs.lemma_filter_len(|c: ArenaCoupling| c.to_arena == i);
                assert(first_fanout_error_from(w, cs, i as int) == match arena_fanout_error(
                    w[i as int], out_fanout(cs, i as int), in_fanout(cs, i as int)) {
                    Some(e) => Some(e),
                    None => first_fanout_error_from(w, cs, i + 1),
                });
            }
            let arena = &arenas[i];
            let computed = if out >= inn { out } else { inn };
            if computed > arena.max_coupling_fanout {
                return Err(ArenaRegistryError::MaxCouplingFanoutExceeded {
                    arena: arena.name.clone(),
                    declared: arena.max_coupling_fanout,
                    computed,
                });
            }
            let total = out + inn;
            if total > arena.max_coupling_fanout {
                return Err(ArenaRegistryError::HiddenFanoutExceeded {
                    arena: arena.name.clone(),
                    declared: arena.max_coupling_fanout,
                    computed: total,
                });
            }
            i = i + 1;
        }

        // All-algebraic cycles.
        proof {
            assert(first_fanout_error_from(w, cs, n as int) is None);
        }
        match find_all_algebraic_cycle(&couplings, n) {
            Some(cycle) => {
                return Err(ArenaRegistryError::AllAlgebraicCouplingCycle { cycle });
            },
            None => {},
        }

        let participant_count = ordered.len();
        let arena_count = arenas.len();
        let coupling_count = couplings.len();
        let registry = ArenaRegistry {
            arenas,
            participants: ordered,
            couplings,
            generation: 1,
            subtree_generations: HashMap::new(),
        };
        let report = ArenaExpansionReport {
            arena_count,
            participant_count,
            coupling_count,
            rejected: Vec::new(),
        };
        Ok((registry, report))
    }
}

/// `arena_idx < bound`.
pub open spec fn idx_below(bound: int) -> spec_fn(ArenaParticipant) -> bool {
    |p: ArenaParticipant| p.arena_idx < bound
}

/// Splitting the participants below `i + 1` into those below `i` and those of arena `i`.
proof fn lemma_filter_below_split(ps: Seq<ArenaParticipant>, i: int)
    ensures
        ps.filter(idx_below(i + 1)).len() == ps.filter(idx_below(i)).len() + arena_count_of(ps, i),
    decreases ps.len(),
{
    let eq = |p: ArenaParticipant| p.arena_idx == i;
    if ps.len() == 0 {
        assert(ps.filter(idx_below(i + 1)) == ps) by { reveal(Seq::filter); }
        assert(ps.filter(idx_below(i)) == ps) by { reveal(Seq::filter); }
        assert(ps.filter(eq) == ps) by { reveal(Seq::filter); }
    } else {
        let init = ps.drop_last();
        let x = ps.last();
        lemma_filter_below_split(init, i);
        assert(init.push(x) == ps);
        init.lemma_filter_push(x, idx_below(i + 1));
        init.lemma_filter_push(x, idx_below(i));
        init.lemma_filter_push(x, eq);
    }
}

/// The arena-major prefix of arenas `0 .. i` holds exactly the participants below `i`.
proof fn lemma_arena_major_len(ps: Seq<ArenaParticipant>, i: nat)
    ensures
        arena_major(ps, i).len() == ps.filter(idx_below(i as int)).len(),
    decreases i,
{
    if i == 0 {
        assert(ps.filter(idx_below(0)).len() == 0) by {
            ps.lemma_filter_len(idx_below(0));
            if ps.filter(idx_below(0)).len() > 0 {
                ps.lemma_filter_pred(idx_below(0), 0);
            }
        }
    } else {
        lemma_arena_major_len(ps, (i - 1) as nat);
        lemma_filter_below_split(ps, i - 1);
    }
}

/// When every participant names an arena below `n`, filtering by `< n` keeps all of them.
proof fn lemma_filter_below_all(ps: Seq<ArenaParticipant>, n: int)
    requires
        forall|k: int| 0 <= k < ps.len() ==> #[trigger] ps[k].arena_idx < n,
    ensures
        ps.filter(idx_below(n)) == ps,
    decreases ps.len(),
{
    if ps.len() == 0 {
        reveal(Seq::filter);
    } else {
        let init = ps.drop_last();
        assert forall|k: int| 0 <= k < init.len() implies #[trigger] init[k].arena_idx < n by {
            assert(init[k] == ps[k]);
        }
        lemma_filter_below_all(init, n);
        assert(init.push(ps.last()) == ps);
        init.lemma_filter_push(ps.last(), idx_below(n));
    }
}

/// The arena-major order up to `i` is a prefix of the order up to any `j >= i`.
proof fn lemma_arena_major_prefix(ps: Seq<ArenaParticipant>, i: nat, j: nat)
    requires
        i <= j,
    ensures
        arena_major(ps, i).len() <= arena_major(ps, j).len(),
        arena_major(ps, j).subrange(0, arena_major(ps, i).len() as int) == arena_major(ps, i),
    decreases j,
{
    if i < j {
        lemma_arena_major_prefix(ps, i, (j - 1) as nat);
        let prev = arena_major(ps, (j - 1) as nat);
        let f = ps.filter(|p: ArenaParticipant| p.arena_idx == j - 1);
        assert(arena_major(ps, j) == prev + f);
        assert(arena_major(ps, j).subrange(0, arena_major(ps, i).len() as int)
            == prev.subrange(0, arena_major(ps, i).len() as int));
    }
}

/// Arena-major layout of a finished registry: when every participant names an arena
/// below `n`, the layout keeps every participant exactly once in total length, and arena
/// `i`'s participants — in admission order — occupy the contiguous range that starts where
/// arena `i − 1`'s range ends (the first at 0) and is as long as the arena's admission count.
pub proof fn lemma_participant_ranges_partition(ps: Seq<ArenaParticipant>, n: nat)
    requires
        forall|k: int| 0 <= k < ps.len() ==> #[trigger] ps[k].arena_idx < n,
    ensures
        arena_major(ps, n).len() == ps.len(),
        arena_major(ps, 0).len() == 0,
        forall|i: nat| i < n ==> {
            let start = #[trigger] arena_major(ps, i).len();
            let count = arena_count_of(ps, i as int);
            &&& start + count == arena_major(ps, i + 1).len()
            &&& arena_major(ps, n).subrange(start as int, (start + count) as int)
                == ps.filter(|p: ArenaParticipant| p.arena_idx == i)
        },
{
    lemma_arena_major_len(ps, n);
    lemma_filter_below_all(ps, n as int);
    assert forall|i: nat| i < n implies {
        let start = #[trigger] arena_major(ps, i).len();
        let count = arena_count_of(ps, i as int);
        &&& start + count == arena_major(ps, i + 1).len()
        &&& arena_major(ps, n).subrange(start as int, (start + count) as int)
            == ps.filter(|p: ArenaParticipant| p.arena_idx == i)
    } by {
        let start = arena_major(ps, i).len();
        let f = ps.filter(|p: ArenaParticipant| p.arena_idx == i);
        let next = arena_major(ps, i + 1);
        assert(next == arena_major(ps, i) + f);
        lemma_arena_major_prefix(ps, i + 1, n);
        assert(arena_major(ps, n).subrange(start as int, (start + f.len()) as int)
            == next.subrange(start as int, (start + f.len()) as int));
        assert(next.subrange(start as int, (start + f.len()) as int) == f);
    }
}

/// Number of participants admitted to arena `idx`.
fn count_in_arena(ps: &Vec<ArenaParticipant>, idx: ArenaIdx) -> (c: u32)
    requires
        ps@.len() <= u32::MAX,
    ensures
        c == arena_count_of(ps@, idx as int),
{
    let ghost pred = |p: ArenaParticipant| p.arena_idx == idx;
    let mut c: u32 = 0;
    let mut k: usize = 0;
    while k < ps.len()
        invariant
            k <= ps@.len() <= u32::MAX,
            pred == (|p: ArenaParticipant| p.arena_idx == idx),
            c == ps@.subrange(0, k as int).filter(pred).len(),
            c <= k,
        decreases ps@.len() - k,
    {
        proof {
            assert(ps@.subrange(0, k + 1) == ps@.subrange(0, k as int).push(ps@[k as int]));
            ps@.subrange(0, k as int).lemma_filter_push(ps@[k as int], pred);
        }
        if ps[k].arena_idx == idx {
            c = c + 1;
        }
        k = k + 1;
    }
    proof { assert(ps@.subrange(0, ps@.len() as int) == ps@); }
    c
}

/// Appends, in admission order, the participants of arena `idx`.
fn append_arena_participants(ps: &Vec<ArenaParticipant>, idx: ArenaIdx, out: &mut Vec<ArenaParticipant>)
    ensures
        final(out)@ == old(out)@ + ps@.filter(|p: ArenaParticipant| p.arena_idx == idx),
{
    let ghost pred = |p: ArenaParticipant| p.arena_idx == idx;
    let ghost start = out@;
    let mut k: usize = 0;
    while k < ps.len()
        invariant
            k <= ps@.len(),
            pred == (|p: ArenaParticipant| p.arena_idx == idx),
            out@ == start + ps@.subrange(0, k as int).filter(pred),
        decreases ps@.len() - k,
    {
        proof {
            assert(ps@.subrange(0, k + 1) == ps@.subrange(0, k as int).push(ps@[k as int]));
            ps@.subrange(0, k as int).lemma_filter_push(ps@[k as int], pred);
        }
        if ps[k].arena_idx == idx {
            out.push(ps[k]);
        }
        k = k + 1;
    }
    proof { assert(ps@.subrange(0, ps@.len() as int) == ps@); }
}

/// Number of couplings leaving (`outgoing`) or entering arena `idx`.
fn count_couplings(cs: &Vec<ArenaCoupling>, idx: ArenaIdx, outgoing: bool) -> (c: u32)
    requires
        cs@.len() <= u32::MAX,
    ensures
        outgoing ==> c == out_fanout(cs@, idx as int),
        !outgoing ==> c == in_fanout(cs@, idx as int),
{
    let ghost pred_out = |c: ArenaCoupling| c.from_arena == idx;
    let ghost pred_in = |c: ArenaCoupling| c.to_arena == idx;
    let mut c: u32 = 0;
    let mut k: usize = 0;
    while k < cs.len()
        invariant
            k <= cs@.len() <= u32::MAX,
            pred_out == (|c: ArenaCoupling| c.from_arena == idx),
            pred_in == (|c: ArenaCoupling| c.to_arena == idx),
            outgoing ==> c == cs@.subrange(0, k as int).filter(pred_out).len(),
            !outgoing ==> c == cs@.subrange(0, k as int).filter(pred_in).len(),
            c <= k,
        decreases cs@.len() - k,
    {
        proof {
            assert(cs@.subrange(0, k + 1) == cs@.subrange(0, k as int).push(cs@[k as int]));
            cs@.subrange(0, k as int).lemma_filter_push(cs@[k as int], pred_out);
            cs@.subrange(0, k as int).lemma_filter_push(cs@[k as int], pred_in);
        }
        let hit = if outgoing { cs[k].from_arena == idx } else { cs[k].to_arena == idx };
        if hit {
            c = c + 1;
        }
        k = k + 1;
    }
    proof { assert(cs@.subrange(0, cs@.len() as int) == cs@); }
    c
}

/// One frame of the cycle search: the arena reached, the path from the start arena to it, and
/// whether every step of that path is algebraic.
pub type SearchFrame = (ArenaIdx, Seq<ArenaIdx>, bool);

/// Scans the couplings from index `j` on for those leaving `node`, during the search from
/// `start` along `path`: one back to `start` closes a cycle when the path holds two arenas or
/// more and it and every earlier step are algebraic (a delayed one is passed over); one to an
/// arena not yet visited marks it and pushes its frame (path extended, still all-algebraic only
/// when this coupling is). Gives the cycle found, if any, the visited marks and the stack.
pub open spec fn scan_couplings(
    cs: Seq<ArenaCoupling>,
    start: ArenaIdx,
    node: ArenaIdx,
    path: Seq<ArenaIdx>,
    all_algebraic: bool,
    j: int,
    visiting: Seq<bool>,
    stack: Seq<SearchFrame>,
) -> (Option<Seq<ArenaIdx>>, Seq<bool>, Seq<SearchFrame>)
    decreases cs.len() - j,
{
    if j >= cs.len() {
        (None, visiting, stack)
    } else {
        let c = cs[j];
        if c.from_arena == node && c.to_arena == start && path.len() > 1 {
            if all_algebraic && c.delay is Algebraic {
                (Some(path), visiting, stack)
            } else {
                scan_couplings(cs, start, node, path, all_algebraic, j + 1, visiting, stack)
            }
        } else if c.from_arena == node && !visiting[c.to_arena as int] {
            scan_couplings(
                cs,
                start,
                node,
                path,
                all_algebraic,
                j + 1,
                visiting.update(c.to_arena as int, true),
                stack.push((c.to_arena, path.push(c.to_arena), all_algebraic && c.delay is Algebraic)),
            )
        } else {
            scan_couplings(cs, start, node, path, all_algebraic, j + 1, visiting, stack)
        }
    }
}

/// The depth-first search from `start`: pops the last frame and scans its arena's couplings,
/// until a cycle is found or the stack empties (at most `fuel` frames are popped).
#[verifier::opaque]
pub open spec fn search_from(
    cs: Seq<ArenaCoupling>,
    start: ArenaIdx,
    visiting: Seq<bool>,
    stack: Seq<SearchFrame>,
    fuel: nat,
) -> Option<Seq<ArenaIdx>>
    decreases fuel,
{
    if fuel == 0 || stack.len() == 0 {
        None
    } else {
        let top = stack.last();
        let scanned = scan_couplings(cs, start, top.0, top.1, top.2, 0, visiting, stack.drop_last());
        if scanned.0 is Some {
            scanned.0
        } else {
            search_from(cs, start, scanned.1, scanned.2, (fuel - 1) as nat)
        }
    }
}

/// Visited marks at the start of the search from `start` among `n` arenas.
pub open spec fn initial_visiting(n: nat, start: nat) -> Seq<bool> {
    Seq::new(n, |i: int| i == start)
}

/// The stack at the start of the search from `start`: the start arena alone.
pub open spec fn initial_stack(start: nat) -> Seq<SearchFrame> {
    seq![(start as ArenaIdx, seq![start as ArenaIdx], true)]
}

/// The searches from `start`, `start + 1`, ... below `n`, each with its own visited marks:
/// the first cycle found.
#[verifier::opaque]
pub open spec fn search_starts(cs: Seq<ArenaCoupling>, n: nat, start: nat) -> Option<Seq<ArenaIdx>>
    decreases n - start,
{
    if start >= n {
        None
    } else {
        let found = search_from(cs, start as ArenaIdx, initial_visiting(n, start), initial_stack(start), n);
        if found is Some {
            found
        } else {
            search_starts(cs, n, start + 1)
        }
    }
}

/// The cycle the search over `n` arenas finds in `cs`, starting from every arena in index order.
pub open spec fn algebraic_cycle_search(cs: Seq<ArenaCoupling>, n: nat) -> Option<Seq<ArenaIdx>> {
    search_starts(cs, n, 0)
}

/// Three arenas coupled algebraically in a ring `0 -> 1 -> 2 -> 0` are found by the search,
/// so `build` refuses them: the search from arena 0 reports the cycle `[0, 1, 2]`.
pub proof fn lemma_three_arena_ring_found(cs: Seq<ArenaCoupling>)
    requires
        cs == seq![
            ArenaCoupling { from_arena: 0, to_arena: 1, delay: CouplingDelay::Algebraic },
            ArenaCoupling { from_arena: 1, to_arena: 2, delay: CouplingDelay::Algebraic },
            ArenaCoupling { from_arena: 2, to_arena: 0, delay: CouplingDelay::Algebraic },
        ],
    ensures
        algebraic_cycle_search(cs, 3) == Some(seq![0u32, 1u32, 2u32]),
{
    reveal(search_starts);
    reveal(search_from);
    let v0 = initial_visiting(3, 0);
    let st0 = initial_stack(0);
    assert(st0.last() == (0u32, seq![0u32], true));
    assert(st0.drop_last() =~= Seq::<SearchFrame>::empty());
    let v1 = v0.update(1, true);
    let st1 = Seq::<SearchFrame>::empty().push((1u32, seq![0u32].push(1u32), true));
    assert(scan_couplings(cs, 0, 0, seq![0u32], true, 0, v0, Seq::empty()) == (None::<Seq<ArenaIdx>>, v1, st1)) by {
        assert(!v0[1]);
        assert(scan_couplings(cs, 0, 0, seq![0u32], true, 3, v1, st1) == (None::<Seq<ArenaIdx>>, v1, st1));
        assert(scan_couplings(cs, 0, 0, seq![0u32], true, 2, v1, st1) == (None::<Seq<ArenaIdx>>, v1, st1));
        assert(scan_couplings(cs, 0, 0, seq![0u32], true, 1, v1, st1) == (None::<Seq<ArenaIdx>>, v1, st1));
    }
    let p1 = seq![0u32].push(1u32);
    assert(st1.last() == (1u32, p1, true));
    assert(st1.drop_last() =~= Seq::<SearchFrame>::empty());
    let v2 = v1.update(2, true);
    let st2 = Seq::<SearchFrame>::empty().push((2u32, p1.push(2u32), true));
    assert(scan_couplings(cs, 0, 1, p1, true, 0, v1, Seq::empty()) == (None::<Seq<ArenaIdx>>, v2, st2)) by {
        assert(!v1[2]);
        assert(scan_couplings(cs, 0, 1, p1, true, 3, v2, st2) == (None::<Seq<ArenaIdx>>, v2, st2));
        assert(scan_couplings(cs, 0, 1, p1, true, 2, v2, st2) == (None::<Seq<ArenaIdx>>, v2, st2));
        assert(scan_couplings(cs, 0, 1, p1, true, 1, v1, Seq::empty()) == (None::<Seq<ArenaIdx>>, v2, st2));
    }
    let p2 = p1.push(2u32);
    assert(st2.last() == (2u32, p2, true));
    assert(st2.drop_last() =~= Seq::<SearchFrame>::empty());
    assert(scan_couplings(cs, 0, 2, p2, true, 0, v2, Seq::empty()) == (Some(p2), v2, Seq::<SearchFrame>::empty())) by {
        assert(scan_couplings(cs, 0, 2, p2, true, 2, v2, Seq::empty()) == (Some(p2), v2, Seq::<SearchFrame>::empty()));
        assert(scan_couplings(cs, 0, 2, p2, true, 1, v2, Seq::empty()) == (Some(p2), v2, Seq::<SearchFrame>::empty()));
    }
    assert(search_from(cs, 0, v2, st2, 1) == Some(p2));
    assert(search_from(cs, 0, v1, st1, 2) == Some(p2));
    assert(search_from(cs, 0, v0, st0, 3) == Some(p2));
    assert(p2 =~= seq![0u32, 1u32, 2u32]);
}

/// The frames of an executable stack.
spec fn frames(s: Seq<(ArenaIdx, Vec<ArenaIdx>, bool)>) -> Seq<SearchFrame> {
    s.map_values(|e: (ArenaIdx, Vec<ArenaIdx>, bool)| (e.0, e.1@, e.2))
}

/// Number of `false` entries.
spec fn count_false(v: Seq<bool>) -> nat
    decreases v.len(),
{
    if v.len() == 0 {
        0
    } else {
        count_false(v.drop_last()) + if v.last() { 0nat } else { 1nat }
    }
}

/// Nothing marked: every entry counts.
proof fn lemma_count_false_none_marked(v: Seq<bool>)
    requires
        forall|k: int| 0 <= k < v.len() ==> !#[trigger] v[k],
    ensures
        count_false(v) == v.len(),
    decreases v.len(),
{
    if v.len() > 0 {
        let init = v.drop_last();
        assert forall|k: int| 0 <= k < init.len() implies !#[trigger] init[k] by {
            assert(init[k] == v[k]);
        }
        lemma_count_false_none_marked(init);
    }
}

/// Marking an unmarked entry removes exactly one `false`.
proof fn lemma_count_false_mark(v: Seq<bool>, i: int)
    requires
        0 <= i < v.len(),
        !v[i],
    ensures
        count_false(v) >= 1,
        count_false(v.update(i, true)) == count_false(v) - 1,
    decreases v.len(),
{
    let u = v.update(i, true);
    if i == v.len() - 1 {
        assert(u.drop_last() == v.drop_last());
    } else {
        lemma_count_false_mark(v.drop_last(), i);
        assert(u.drop_last() == v.drop_last().update(i, true));
    }
}

/// Arena `u` is the arena of some frame of `stack`.
spec fn in_stack(stack: Seq<SearchFrame>, u: ArenaIdx) -> bool {
    exists|i: int| 0 <= i < stack.len() && (#[trigger] stack[i]).0 == u
}

/// Every coupling leaving `u` reaches a visited arena, and none returns to `start` unless `u`
/// is `start` itself.
spec fn closed_at(cs: Seq<ArenaCoupling>, start: ArenaIdx, visiting: Seq<bool>, u: ArenaIdx) -> bool {
    forall|j: int| 0 <= j < cs.len() && (#[trigger] cs[j]).from_arena == u
        ==> visiting[cs[j].to_arena as int] && (u != start ==> cs[j].to_arena != start)
}

/// A frame of the search from `start` over all-algebraic couplings.
spec fn frame_ok(n: nat, start: ArenaIdx, visiting: Seq<bool>, f: SearchFrame) -> bool {
    &&& f.0 < n
    &&& visiting[f.0 as int]
    &&& f.1.len() >= 1
    &&& f.2
    &&& (f.0 != start ==> f.1.len() >= 2)
}

/// The invariant of the search from `start` over all-algebraic couplings: visited marks for
/// `n` arenas with `start` marked, well-formed frames on distinct arenas, and every visited
/// arena not on the stack already scanned (closed).
spec fn search_inv(cs: Seq<ArenaCoupling>, n: nat, start: ArenaIdx, visiting: Seq<bool>, stack: Seq<SearchFrame>) -> bool {
    &&& visiting.len() == n
    &&& start < n
    &&& visiting[start as int]
    &&& forall|i: int| 0 <= i < stack.len() ==> frame_ok(n, start, visiting, #[trigger] stack[i])
    &&& forall|i: int, k: int| 0 <= i < k < stack.len() ==> (#[trigger] stack[i]).0 != (#[trigger] stack[k]).0
    &&& forall|u: ArenaIdx| u < n && #[trigger] visiting[u as int] && !in_stack(stack, u) ==> closed_at(cs, start, visiting, u)
}

/// Couplings between arenas below `n`, all algebraic.
spec fn all_algebraic_below(cs: Seq<ArenaCoupling>, n: nat) -> bool {
    forall|j: int| 0 <= j < cs.len() ==> (#[trigger] cs[j]).from_arena < n && cs[j].to_arena < n && cs[j].delay is Algebraic
}

/// A scan that finds no cycle keeps the invariant: it marks and pushes each newly reached
/// arena, closes the scanned arena, and trades unmarked arenas for frames one for one.
proof fn lemma_scan_keeps(
    cs: Seq<ArenaCoupling>,
    n: nat,
    start: ArenaIdx,
    node: ArenaIdx,
    path: Seq<ArenaIdx>,
    j: int,
    visiting: Seq<bool>,
    stack: Seq<SearchFrame>,
)
    requires
        all_algebraic_below(cs, n),
        0 <= j <= cs.len(),
        node < n,
        path.len() >= 1,
        node != start ==> path.len() >= 2,
        visiting.len() == n,
        start < n,
        visiting[start as int],
        visiting[node as int],
        !in_stack(stack, node),
        forall|i: int| 0 <= i < stack.len() ==> frame_ok(n, start, visiting, #[trigger] stack[i]),
        forall|i: int, k: int| 0 <= i < k < stack.len() ==> (#[trigger] stack[i]).0 != (#[trigger] stack[k]).0,
        forall|u: ArenaIdx| u < n && #[trigger] visiting[u as int] && !in_stack(stack, u) && u != node
            ==> closed_at(cs, start, visiting, u),
        forall|k: int| 0 <= k < j && (#[trigger] cs[k]).from_arena == node
            ==> visiting[cs[k].to_arena as int] && (node != start ==> cs[k].to_arena != start),
    ensures
        ({
            let r = scan_couplings(cs, start, node, path, true, j, visiting, stack);
            r.0 is None ==> {
                &&& search_inv(cs, n, start, r.1, r.2)
                &&& forall|i: int| 0 <= i < n && visiting[i] ==> #[trigger] r.1[i]
                &&& count_false(r.1) + r.2.len() == count_false(visiting) + stack.len()
            }
        }),
    decreases cs.len() - j,
{
    if j >= cs.len() {
        assert forall|u: ArenaIdx| u < n && #[trigger] visiting[u as int] && !in_stack(stack, u)
            implies closed_at(cs, start, visiting, u) by {
            if u == node {
                assert forall|k: int| 0 <= k < cs.len() && (#[trigger] cs[k]).from_arena == u
                    implies visiting[cs[k].to_arena as int] && (u != start ==> cs[k].to_arena != start) by {}
            }
        }
    } else {
        let c = cs[j];
        assert(c.from_arena < n && c.to_arena < n && c.delay is Algebraic);
        if c.from_arena == node && c.to_arena == start && path.len() > 1 {
        } else if c.from_arena == node && !visiting[c.to_arena as int] {
            let t = c.to_arena;
            let v2 = visiting.update(t as int, true);
            let s2 = stack.push((t, path.push(t), true));
            lemma_count_false_mark(visiting, t as int);
            assert(t != start);
            assert(!in_stack(stack, t)) by {
                if in_stack(stack, t) {
                    let i = choose|i: int| 0 <= i < stack.len() && (#[trigger] stack[i]).0 == t;
                    assert(frame_ok(n, start, visiting, stack[i]));
                }
            }
            assert(!in_stack(s2, node)) by {
                if in_stack(s2, node) {
                    let i = choose|i: int| 0 <= i < s2.len() && (#[trigger] s2[i]).0 == node;
                    if i < stack.len() {
                        assert(s2[i] == stack[i]);
                    }
                }
            }
            assert forall|i: int| 0 <= i < s2.len() implies frame_ok(n, start, v2, #[trigger] s2[i]) by {
                if i < stack.len() {
                    assert(s2[i] == stack[i]);
                    assert(frame_ok(n, start, visiting, stack[i]));
                }
            }
            assert forall|i: int, k: int| 0 <= i < k < s2.len() implies (#[trigger] s2[i]).0 != (#[trigger] s2[k]).0 by {
                if k < stack.len() {
                    assert(s2[i] == stack[i] && s2[k] == stack[k]);
                } else {
                    assert(s2[i] == stack[i]);
                    assert(frame_ok(n, start, visiting, stack[i]));
                }
            }
            assert forall|u: ArenaIdx| u < n && #[trigger] v2[u as int] && !in_stack(s2, u) && u != node
                implies closed_at(cs, start, v2, u) by {
                if u == t {
                    assert(s2[stack.len() as int].0 == t);
                } else {
                    assert(visiting[u as int]);
                    if in_stack(stack, u) {
                        let i = choose|i: int| 0 <= i < stack.len() && (#[trigger] stack[i]).0 == u;
                        assert(s2[i] == stack[i]);
                    }
                    assert(closed_at(cs, start, visiting, u));
                }
            }
            lemma_scan_keeps(cs, n, start, node, path, j + 1, v2, s2);
        } else {
            lemma_scan_keeps(cs, n, start, node, path, j + 1, visiting, stack);
        }
    }
}

/// A search over all-algebraic couplings that ends without a cycle leaves a set of visited
/// arenas, containing every arena visited now, in which every arena is closed.
proof fn lemma_search_closes(
    cs: Seq<ArenaCoupling>,
    n: nat,
    start: ArenaIdx,
    visiting: Seq<bool>,
    stack: Seq<SearchFrame>,
    fuel: nat,
)
    requires
        all_algebraic_below(cs, n),
        search_inv(cs, n, start, visiting, stack),
        fuel >= stack.len() + count_false(visiting),
    ensures
        search_from(cs, start, visiting, stack, fuel) is None ==> exists|v: Seq<bool>| {
            &&& v.len() == n
            &&& forall|i: int| 0 <= i < n && visiting[i] ==> #[trigger] v[i]
            &&& forall|u: ArenaIdx| u < n && #[trigger] v[u as int] ==> closed_at(cs, start, v, u)
        },
    decreases fuel,
{
    reveal(search_from);
    if stack.len() == 0 {
        assert forall|u: ArenaIdx| u < n && #[trigger] visiting[u as int] implies closed_at(cs, start, visiting, u) by {
            assert(!in_stack(stack, u));
        }
        assert(forall|i: int| 0 <= i < n && visiting[i] ==> #[trigger] visiting[i]);
    } else {
        let top = stack.last();
        let rest = stack.drop_last();
        assert(frame_ok(n, start, visiting, stack[stack.len() - 1]));
        assert(!in_stack(rest, top.0)) by {
            if in_stack(rest, top.0) {
                let i = choose|i: int| 0 <= i < rest.len() && (#[trigger] rest[i]).0 == top.0;
                assert(rest[i] == stack[i]);
            }
        }
        assert forall|i: int| 0 <= i < rest.len() implies frame_ok(n, start, visiting, #[trigger] rest[i]) by {
            assert(rest[i] == stack[i]);
        }
        assert forall|i: int, k: int| 0 <= i < k < rest.len() implies (#[trigger] rest[i]).0 != (#[trigger] rest[k]).0 by {
            assert(rest[i] == stack[i] && rest[k] == stack[k]);
        }
        assert forall|u: ArenaIdx| u < n && #[trigger] visiting[u as int] && !in_stack(rest, u) && u != top.0
            implies closed_at(cs, start, visiting, u) by {
            assert(!in_stack(stack, u)) by {
                if in_stack(stack, u) {
                    let i = choose|i: int| 0 <= i < stack.len() && (#[trigger] stack[i]).0 == u;
                    if i < rest.len() {
                        assert(rest[i] == stack[i]);
                    }
                }
            }
        }
        lemma_scan_keeps(cs, n, start, top.0, top.1, 0, visiting, rest);
        let scanned = scan_couplings(cs, start, top.0, top.1, top.2, 0, visiting, rest);
        if scanned.0 is None {
            lemma_search_closes(cs, n, start, scanned.1, scanned.2, (fuel - 1) as nat);
            if search_from(cs, start, scanned.1, scanned.2, (fuel - 1) as nat) is None {
                let v = choose|v: Seq<bool>| {
                    &&& v.len() == n
                    &&& forall|i: int| 0 <= i < n && scanned.1[i] ==> #[trigger] v[i]
                    &&& forall|u: ArenaIdx| u < n && #[trigger] v[u as int] ==> closed_at(cs, start, v, u)
                };
                assert(forall|i: int| 0 <= i < n && visiting[i] ==> #[trigger] v[i]) by {
                    assert forall|i: int| 0 <= i < n && visiting[i] implies #[trigger] v[i] by {
                        assert(scanned.1[i]);
                    }
                }
            }
        }
    }
}

/// The search from the first arena of an all-algebraic cycle finds a cycle.
proof fn lemma_search_from_cycle_start(cs: Seq<ArenaCoupling>, n: nat, cycle: Seq<ArenaIdx>)
    requires
        all_algebraic_below(cs, n),
        is_algebraic_cycle(cs, cycle),
    ensures
        cycle[0] < n,
        search_from(cs, cycle[0], initial_visiting(n, cycle[0] as nat), initial_stack(cycle[0] as nat), n) is Some,
{
    let s = cycle[0];
    let j0 = choose|j: int| 0 <= j < cs.len() && cs[j].from_arena == cycle[0] && cs[j].to_arena == cycle[1]
        && cs[j].delay is Algebraic;
    assert(has_algebraic_edge(cs, cycle[0], cycle[1]));
    assert(s < n);
    let v0 = initial_visiting(n, s as nat);
    let st0 = initial_stack(s as nat);
    let none = Seq::new(n, |i: int| false);
    lemma_count_false_none_marked(none);
    lemma_count_false_mark(none, s as int);
    assert(none.update(s as int, true) =~= v0);
    assert(st0[0] == (s, seq![s], true));
    assert forall|u: ArenaIdx| u < n && #[trigger] v0[u as int] && !in_stack(st0, u) implies closed_at(cs, s, v0, u) by {
        assert(st0[0].0 == u);
    }
    assert(search_inv(cs, n, s, v0, st0));
    lemma_search_closes(cs, n, s, v0, st0, n);
    if search_from(cs, s, v0, st0, n) is None {
        let v = choose|v: Seq<bool>| {
            &&& v.len() == n
            &&& forall|i: int| 0 <= i < n && v0[i] ==> #[trigger] v[i]
            &&& forall|u: ArenaIdx| u < n && #[trigger] v[u as int] ==> closed_at(cs, s, v, u)
        };
        assert(v[s as int]);
        let m = cycle.len();
        assert forall|k: int| 0 <= k < m implies #[trigger] v[cycle[k] as int] && cycle[k] < n by {
            lemma_cycle_visited(cs, n, s, v, cycle, k);
        }
        assert(has_algebraic_edge(cs, cycle.last(), cycle[0]));
        let jl = choose|j: int| 0 <= j < cs.len() && cs[j].from_arena == cycle.last() && cs[j].to_arena == cycle[0]
            && cs[j].delay is Algebraic;
        assert(v[cycle[m - 1] as int]);
        assert(closed_at(cs, s, v, cycle[m - 1]));
        assert(cycle[m - 1] != cycle[0]);
        assert(cs[jl].from_arena == cycle[m - 1]);
    }
}

/// Every arena of the cycle lies in a closed visited set that holds its first arena.
proof fn lemma_cycle_visited(cs: Seq<ArenaCoupling>, n: nat, s: ArenaIdx, v: Seq<bool>, cycle: Seq<ArenaIdx>, k: int)
    requires
        all_algebraic_below(cs, n),
        is_algebraic_cycle(cs, cycle),
        s == cycle[0],
        s < n,
        v.len() == n,
        v[s as int],
        forall|u: ArenaIdx| u < n && #[trigger] v[u as int] ==> closed_at(cs, s, v, u),
        0 <= k < cycle.len(),
    ensures
        v[cycle[k] as int],
        cycle[k] < n,
    decreases k,
{
    if k > 0 {
        lemma_cycle_visited(cs, n, s, v, cycle, k - 1);
        assert(has_algebraic_edge(cs, cycle[k - 1], cycle[k]));
        let j = choose|j: int| 0 <= j < cs.len() && cs[j].from_arena == cycle[k - 1] && cs[j].to_arena == cycle[k]
            && cs[j].delay is Algebraic;
        assert(closed_at(cs, s, v, cycle[k - 1]));
        assert(cs[j].from_arena == cycle[k - 1]);
    }
}

/// Starting at or before `s`, the searches reach a cycle when the search from `s` finds one.
proof fn lemma_starts_find(cs: Seq<ArenaCoupling>, n: nat, start: nat, s: nat)
    requires
        start <= s < n,
        search_from(cs, s as ArenaIdx, initial_visiting(n, s), initial_stack(s), n) is Some,
    ensures
        search_starts(cs, n, start) is Some,
    decreases s - start,
{
    reveal(search_starts);
    if start < s {
        lemma_starts_find(cs, n, start + 1, s);
    }
}

/// With every coupling algebraic, the search is complete: whenever the couplings hold an
/// all-algebraic cycle, `algebraic_cycle_search` reports one (so `build` refuses them). With
/// delayed couplings present it can miss one: a cycle `a → b → a` whose couplings in each
/// direction are listed first with a delay and then algebraically is never reported.
pub proof fn lemma_algebraic_search_complete(cs: Seq<ArenaCoupling>, n: nat, cycle: Seq<ArenaIdx>)
    requires
        n <= u32::MAX,
        forall|j: int| 0 <= j < cs.len() ==> (#[trigger] cs[j]).from_arena < n && cs[j].to_arena < n
            && cs[j].delay is Algebraic,
        is_algebraic_cycle(cs, cycle),
    ensures
        algebraic_cycle_search(cs, n) is Some,
{
    assert(all_algebraic_below(cs, n));
    lemma_search_from_cycle_start(cs, n, cycle);
    let s = cycle[0];
    assert((s as nat) as ArenaIdx == s);
    lemma_starts_find(cs, n, 0, s as nat);
}

/// A search path from `start`: distinct arenas below `n`, consecutive ones coupled
/// algebraically when `all_algebraic` holds, all of them marked as visited.
spec fn valid_search_path(
    cs: Seq<ArenaCoupling>,
    n: int,
    start: int,
    visiting: Seq<bool>,
    node: ArenaIdx,
    path: Seq<ArenaIdx>,
    all_algebraic: bool,
) -> bool {
    &&& path.len() >= 1
    &&& path[0] == start
    &&& path.last() == node
    &&& path.no_duplicates()
    &&& forall|k: int| 0 <= k < path.len() ==> #[trigger] path[k] < n && visiting[path[k] as int]
    &&& all_algebraic ==> forall|k: int|
        0 <= k < path.len() - 1 ==> has_algebraic_edge(cs, #[trigger] path[k], path[k + 1])
}

/// Copy of a path of arena indices.
fn copy_path(path: &Vec<ArenaIdx>) -> (r: Vec<ArenaIdx>)
    ensures
        r@ == path@,
{
    let mut r: Vec<ArenaIdx> = Vec::new();
    let mut k: usize = 0;
    while k < path.len()
        invariant
            k <= path@.len(),
            r@ == path@.subrange(0, k as int),
        decreases path@.len() - k,
    {
        r.push(path[k]);
        k = k + 1;
    }
    r
}

/// Depth-first search, from every arena in index order, for a cycle of at least two arenas
/// joined only by algebraic couplings. Each start keeps its own visited set, and an arena first
/// reached along a path that already waited a tick is not explored again from that start.
/// Any cycle reported is a genuine all-algebraic cycle.
#[verifier::rlimit(80)]
fn find_all_algebraic_cycle(couplings: &Vec<ArenaCoupling>, n_arenas: usize) -> (r: Option<Vec<ArenaIdx>>)
    requires
        n_arenas <= u32::MAX,
        forall|i: int| 0 <= i < couplings@.len() ==> #[trigger] couplings@[i].from_arena < n_arenas
            && couplings@[i].to_arena < n_arenas,
    ensures
        r matches Some(cycle) ==> is_algebraic_cycle(couplings@, cycle@),
        r matches Some(cycle) ==> algebraic_cycle_search(couplings@, n_arenas as nat) == Some(cycle@),
        r is None ==> algebraic_cycle_search(couplings@, n_arenas as nat) is None,
{
    let ghost cs = couplings@;
    let ghost n = n_arenas as nat;
    let mut start: usize = 0;
    while start < n_arenas
        invariant
            cs == couplings@,
            n == n_arenas,
            n_arenas <= u32::MAX,
            start <= n_arenas,
            algebraic_cycle_search(cs, n) == search_starts(cs, n, start as nat),
            forall|i: int| 0 <= i < cs.len() ==> #[trigger] cs[i].from_arena < n_arenas
                && cs[i].to_arena < n_arenas,
        decreases n_arenas - start,
    {
        let mut visiting: Vec<bool> = Vec::new();
        let mut v: usize = 0;
        while v < n_arenas
            invariant
                v <= n_arenas,
                visiting@.len() == v,
                forall|k: int| 0 <= k < v ==> !#[trigger] visiting@[k],
            decreases n_arenas - v,
        {
            visiting.push(false);
            v = v + 1;
        }
        proof {
            lemma_count_false_none_marked(visiting@);
            lemma_count_false_mark(visiting@, start as int);
        }
        visiting.set(start, true);
        let mut remaining: usize = n_arenas - 1;
        assert(remaining == count_false(visiting@));
        let mut first_path: Vec<ArenaIdx> = Vec::new();
        first_path.push(start as ArenaIdx);
        let mut stack: Vec<(ArenaIdx, Vec<ArenaIdx>, bool)> = Vec::new();
        stack.push((start as ArenaIdx, first_path, true));
        let ghost target = search_from(
            cs,
            start as ArenaIdx,
            initial_visiting(n, start as nat),
            initial_stack(start as nat),
            n,
        );
        let ghost mut fuel: nat = n;
        proof {
            assert(visiting@ =~= initial_visiting(n, start as nat));
            assert(frames(stack@) =~= initial_stack(start as nat));
        }
        while stack.len() > 0
            invariant
                cs == couplings@,
                n == n_arenas,
                algebraic_cycle_search(cs, n) == search_starts(cs, n, start as nat),
                target == search_from(
                    cs,
                    start as ArenaIdx,
                    initial_visiting(n, start as nat),
                    initial_stack(start as nat),
                    n,
                ),
                fuel >= stack@.len() + remaining,
                search_from(cs, start as ArenaIdx, visiting@, frames(stack@), fuel) == target,
                start < n_arenas <= u32::MAX,
                forall|i: int| 0 <= i < cs.len() ==> #[trigger] cs[i].from_arena < n_arenas
                    && cs[i].to_arena < n_arenas,
                visiting@.len() == n_arenas,
                visiting@[start as int],
                remaining == count_false(visiting@),
                forall|e: int| 0 <= e < stack@.len() ==> valid_search_path(
                    cs,
                    n_arenas as int,
                    start as int,
                    visiting@,
                    #[trigger] stack@[e].0,
                    stack@[e].1@,
                    stack@[e].2,
                ),
            decreases remaining, stack@.len(),
        {
            let ghost before = stack@;
            let (node, path, all_algebraic) = stack.pop().unwrap();
            let ghost popped_len = stack@.len();
            let ghost remaining_at_pop = remaining;
            let ghost s0 = scan_couplings(cs, start as ArenaIdx, node, path@, all_algebraic, 0, visiting@, frames(stack@));
            proof {
                assert(frames(before).drop_last() =~= frames(stack@));
                assert(frames(before).last() == (node, path@, all_algebraic));
                assert((if s0.0 is Some { s0.0 } else { search_from(cs, start as ArenaIdx, s0.1, s0.2, (fuel - 1) as nat) })
                    == search_from(cs, start as ArenaIdx, visiting@, frames(before), fuel)) by {
                    reveal(search_from);
                }
            }
            let mut j: usize = 0;
            while j < couplings.len()
                invariant
                    cs == couplings@,
                    start < n_arenas <= u32::MAX,
                    forall|i: int| 0 <= i < cs.len() ==> #[trigger] cs[i].from_arena < n_arenas
                        && cs[i].to_arena < n_arenas,
                    visiting@.len() == n_arenas,
                    visiting@[start as int],
                    remaining == count_false(visiting@),
                    valid_search_path(cs, n_arenas as int, start as int, visiting@, node, path@, all_algebraic),
                    forall|e: int| 0 <= e < stack@.len() ==> valid_search_path(
                        cs,
                        n_arenas as int,
                        start as int,
                        visiting@,
                        #[trigger] stack@[e].0,
                        stack@[e].1@,
                        stack@[e].2,
                    ),
                    j <= cs.len(),
                    stack@.len() >= popped_len,
                    remaining <= remaining_at_pop,
                    stack@.len() - popped_len == remaining_at_pop - remaining,
                    fuel >= popped_len + 1 + remaining_at_pop,
                    n == n_arenas,
                    s0 == scan_couplings(cs, start as ArenaIdx, node, path@, all_algebraic, j as int, visiting@, frames(stack@)),
                    (if s0.0 is Some { s0.0 } else { search_from(cs, start as ArenaIdx, s0.1, s0.2, (fuel - 1) as nat) }) == target,
                    algebraic_cycle_search(cs, n) == search_starts(cs, n, start as nat),
                    target == search_from(
                        cs,
                        start as ArenaIdx,
                        initial_visiting(n, start as nat),
                        initial_stack(start as nat),
                        n,
                    ),
                decreases cs.len() - j,
            {
                let c = couplings[j];
                if c.from_arena == node {
                    let next = c.to_arena;
                    if next as usize == start && path.len() > 1 {
                        if all_algebraic && c.delay.is_algebraic() {
                            proof {
                                assert(has_algebraic_edge(cs, path@.last(), path@[0]));
                                assert(s0.0 == Some(path@));
                                assert(target == Some(path@));
                                assert(search_starts(cs, n, start as nat) == Some(path@)) by {
                                    reveal(search_starts);
                                    assert((start as nat) as ArenaIdx == start as ArenaIdx);
                                }
                            }
                            return Some(path);
                        }
                    } else if !visiting[next as usize] {
                        let mut next_path = copy_path(&path);
                        next_path.push(next);
                        proof {
                            lemma_count_false_mark(visiting@, next as int);
                            if all_algebraic && c.delay is Algebraic {
                                assert(has_algebraic_edge(cs, node, next));
                            }
                        }
                        let ghost old_visiting = visiting@;
                        visiting.set(next as usize, true);
                        remaining = remaining - 1;
                        proof {
                            assert(!path@.contains(next)) by {
                                if path@.contains(next) {
                                    let k = choose|k: int| 0 <= k < path@.len() && path@[k] == next;
                                    assert(old_visiting[path@[k] as int]);
                                }
                            }
                            assert forall|e: int| 0 <= e < stack@.len() implies valid_search_path(
                                cs,
                                n_arenas as int,
                                start as int,
                                visiting@,
                                #[trigger] stack@[e].0,
                                stack@[e].1@,
                                stack@[e].2,
                            ) by {
                                assert(valid_search_path(cs, n_arenas as int, start as int, old_visiting,
                                    stack@[e].0, stack@[e].1@, stack@[e].2));
                            }
                            let np = next_path@;
                            assert(np == path@.push(next));
                            assert forall|k: int| 0 <= k < np.len() implies #[trigger] np[k] < n_arenas
                                && visiting@[np[k] as int] by {
                                if k < path@.len() {
                                    assert(np[k] == path@[k]);
                                }
                            }
                            assert(np.no_duplicates()) by {
                                assert forall|a: int, b: int| 0 <= a < np.len() && 0 <= b < np.len() && a != b
                                    implies np[a] != np[b] by {
                                    if a < path@.len() && b < path@.len() {
                                    } else if a == path@.len() as int {
                                        assert(path@.contains(np[b]));
                                    } else {
                                        assert(path@.contains(np[a]));
                                    }
                                }
                            }
                            if all_algebraic && c.delay is Algebraic {
                                assert forall|k: int| 0 <= k < np.len() - 1 implies has_algebraic_edge(
                                    cs, #[trigger] np[k], np[k + 1]) by {
                                    if k < path@.len() - 1 {
                                        assert(np[k] == path@[k] && np[k + 1] == path@[k + 1]);
                                    } else {
                                        assert(np[k] == node && np[k + 1] == next);
                                    }
                                }
                            }
                        }
                        let ghost pre_push = stack@;
                        stack.push((next, next_path, all_algebraic && c.delay.is_algebraic()));
                        proof {
                            assert(frames(stack@) =~= frames(pre_push).push(
                                (next, path@.push(next), all_algebraic && c.delay is Algebraic),
                            ));
                        }
                    }
                }
                j = j + 1;
            }
            proof {
                fuel = (fuel - 1) as nat;
            }
        }
        proof {
            assert(target is None) by {
                reveal(search_from);
            }
            assert(search_starts(cs, n, start as nat) == search_starts(cs, n, (start + 1) as nat)) by {
                reveal(search_starts);
            }
        }
        start = start + 1;
    }
    proof {
        assert(search_starts(cs, n, start as nat) is None) by {
            reveal(search_starts);
        }
    }
    None
}

} // verus!
