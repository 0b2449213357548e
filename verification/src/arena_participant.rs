//! Slot bookkeeping of arena participants: reserved gap pools carved from an exclusive gap
//! block, the participant sibling range, the nested-fission gap report, and validation of an
//! arena's explicit participant graph.
use crate::arena_registry::SlotId;
use vstd::prelude::*;

verus! {

/// Where one arena's participants were allocated.
#[derive(Clone, Debug, PartialEq, Eq)]
pub struct ArenaParticipantAllocationReport {
    pub arena: String,
    pub root_slot: SlotId,
    pub participant_count: u32,
    pub reserved_gap_per_intermediate: u32,
    pub max_children_per_intermediate: u32,
    /// First slot of the contiguous participant sibling block under the arena root.
    pub participant_sibling_first: Option<SlotId>,
    /// First slot of the arena-local reserved gap block (if any).
    pub gap_block_first: Option<SlotId>,
}

/// LIFO pool of exclusively reserved tombstoned slots in the arena-local gap block.
#[derive(Clone, Debug, PartialEq, Eq)]
pub struct ReservedGapPool {
    pub parent_participant_slot: SlotId,
    /// Ascending reservation order; consumed LIFO (pop from end).
    available: Vec<SlotId>,
}

impl View for ReservedGapPool {
    type V = (SlotId, Seq<SlotId>);

    /// The parent participant slot and the reserved slots, in reservation order.
    closed spec fn view(&self) -> (SlotId, Seq<SlotId>) {
        (self.parent_participant_slot, self.available@)
    }
}

impl ReservedGapPool {
    /// Number of reserved slots left (as a `u32`, truncating).
    pub fn remaining(&self) -> (r: u32)
        ensures
            r == self@.1.len() as u32,
    {
        self.available.len() as u32
    }

    /// The reserved slots, in reservation order.
    pub fn reserved_slots(&self) -> (r: &[SlotId])
        ensures
            r@ == self@.1,
    {
        self.available.as_slice()
    }
}

/// Splits an exclusive gap block among parent participant slots: parent `i` receives the
/// `gap_per_parent` slots starting at `i * gap_per_parent`. Nothing is reserved (and no pool is
/// made) when the gap or the parent list is empty; otherwise the first slot of the block is
/// returned.
pub fn reserve_gap_pools_from_block(
    parent_slots: &[SlotId],
    gap_per_parent: u32,
    gap_block: &[SlotId],
) -> (r: (Vec<ReservedGapPool>, Option<SlotId>))
    requires
        gap_per_parent * parent_slots@.len() <= u32::MAX,
        gap_block@.len() == gap_per_parent * parent_slots@.len(),
    ensures
        gap_per_parent == 0 || parent_slots@.len() == 0 ==> r.0@.len() == 0 && r.1 is None,
        gap_per_parent > 0 && parent_slots@.len() > 0 ==> {
            &&& r.1 == Some(gap_block@[0])
            &&& r.0@.len() == parent_slots@.len()
            &&& forall|i: int| 0 <= i < parent_slots@.len() ==> {
                &&& (#[trigger] r.0@[i])@.0 == parent_slots@[i]
                &&& r.0@[i]@.1 == gap_block@.subrange(i * gap_per_parent, (i + 1) * gap_per_parent)
            }
        },
{
    let mut pools: Vec<ReservedGapPool> = Vec::new();
    if gap_per_parent == 0 || parent_slots.len() == 0 {
        return (pools, None);
    }
    let n = parent_slots.len();
    let g = gap_per_parent as usize;
    let mut i: usize = 0;
    while i < n
        invariant
            n == parent_slots@.len() > 0,
            g == gap_per_parent > 0,
            g * n <= u32::MAX,
            gap_block@.len() == g * n,
            i <= n,
            pools@.len() == i,
            forall|j: int| 0 <= j < i ==> {
                &&& (#[trigger] pools@[j])@.0 == parent_slots@[j]
                &&& pools@[j]@.1 == gap_block@.subrange(j * g, (j + 1) * g)
            },
        decreases n - i,
    {
        proof {
            assert((i + 1) * g <= n * g) by (nonlinear_arith)
                requires i < n;
            assert(i * g + g == (i + 1) * g) by (nonlinear_arith);
        }
        let start = i * g;
        let end = start + g;
        let mut available: Vec<SlotId> = Vec::new();
        let mut k: usize = start;
        while k < end
            invariant
                start <= k <= end <= gap_block@.len(),
                available@ == gap_block@.subrange(start as int, k as int),
            decreases end - k,
        {
            available.push(gap_block[k]);
            proof {
                assert(available@ =~= gap_block@.subrange(start as int, k + 1));
            }
            k = k + 1;
        }
        pools.push(ReservedGapPool { parent_participant_slot: parent_slots[i], available });
        i = i + 1;
    }
    proof {
        assert(g * n >= 1) by (nonlinear_arith)
            requires g > 0, n > 0;
    }
    (pools, Some(gap_block[0]))
}

/// `first + count`, saturating at `u32::MAX`.
pub open spec fn sat_end(first: SlotId, count: u32) -> int {
    if first + count > u32::MAX { u32::MAX as int } else { first + count }
}

/// True when `slot` falls in the half-open participant sibling range `[first, first + count)`
/// (the end saturating at `u32::MAX`).
pub fn slot_in_participant_sibling_range(first: SlotId, count: u32, slot: SlotId) -> (r: bool)
    ensures
        r == (count > 0 && first <= slot && slot < sat_end(first, count)),
{
    count > 0 && slot >= first && slot < first.saturating_add(count)
}

/// Slots form one ascending run `first, first + 1, …` (true when empty).
pub open spec fn contiguous(slots: Seq<SlotId>) -> bool {
    forall|i: int| 0 <= i < slots.len() ==> #[trigger] slots[i] == slots[0] + i
}

/// True when `slots` form a contiguous ascending range.
pub fn slots_are_contiguous(slots: &[SlotId]) -> (r: bool)
    ensures
        r == contiguous(slots@),
{
    if slots.len() == 0 {
        return true;
    }
    let first = slots[0];
    let mut i: usize = 0;
    while i < slots.len()
        invariant
            0 < slots@.len(),
            first == slots@[0],
            i <= slots@.len(),
            forall|j: int| 0 <= j < i ==> #[trigger] slots@[j] == slots@[0] + j,
        decreases slots@.len() - i,
    {
        if slots[i] < first || (slots[i] - first) as usize != i {
            return false;
        }
        i = i + 1;
    }
    true
}

/// Diagnostic report for nested fission / reserved-gap preservation.
#[derive(Clone, Debug, PartialEq, Eq)]
pub struct NestedFissionGapReport {
    pub parent_participant_slot: SlotId,
    pub active_child_slots: Vec<SlotId>,
    pub reserved_gap_slots: Vec<SlotId>,
    pub gap_outside_active_child_span: bool,
    pub gap_outside_arena_sibling_range: bool,
    pub active_children_contiguous: bool,
}

fn copy_slots(slots: &[SlotId]) -> (r: Vec<SlotId>)
    ensures
        r@ == slots@,
{
    let mut out: Vec<SlotId> = Vec::new();
    let mut k: usize = 0;
    while k < slots.len()
        invariant
            k <= slots@.len(),
            out@ == slots@.take(k as int),
        decreases slots@.len() - k,
    {
        out.push(slots[k]);
        proof {
            assert(out@ =~= slots@.take(k + 1));
        }
        k = k + 1;
    }
    proof {
        assert(slots@.take(slots@.len() as int) =~= slots@);
    }
    out
}

/// No slot lies in `[first, first + count)` (end saturating).
pub open spec fn outside_range(slots: Seq<SlotId>, first: SlotId, count: u32) -> bool {
    forall|i: int| 0 <= i < slots.len() ==> !(count > 0 && first <= #[trigger] slots[i] && slots[i] < sat_end(first, count))
}

fn all_outside_range(first: SlotId, count: u32, slots: &Vec<SlotId>) -> (r: bool)
    ensures
        r == outside_range(slots@, first, count),
{
    let mut k: usize = 0;
    while k < slots.len()
        invariant
            k <= slots@.len(),
            forall|i: int| 0 <= i < k ==> !(count > 0 && first <= #[trigger] slots@[i] && slots@[i] < sat_end(first, count)),
        decreases slots@.len() - k,
    {
        if slot_in_participant_sibling_range(first, count, slots[k]) {
            return false;
        }
        k = k + 1;
    }
    true
}

/// Builds the nested fission / gap report of one interior parent from its pool (if any):
/// whether every reserved slot lies outside the active child span and outside the arena's
/// participant sibling range, and whether the active children are contiguous.
pub fn nested_fission_gap_report(
    parent_participant_slot: SlotId,
    active_child_slots: &[SlotId],
    pool: Option<&ReservedGapPool>,
    arena_sibling_first: Option<SlotId>,
    arena_sibling_count: u32,
) -> (r: NestedFissionGapReport)
    ensures
        r.parent_participant_slot == parent_participant_slot,
        r.active_child_slots@ == active_child_slots@,
        r.reserved_gap_slots@ == (match pool {
            Some(p) => p@.1,
            None => Seq::<SlotId>::empty(),
        }),
        r.gap_outside_active_child_span == (if active_child_slots@.len() == 0 {
            r.reserved_gap_slots@.len() > 0
        } else {
            outside_range(r.reserved_gap_slots@, active_child_slots@[0], active_child_slots@.len() as u32)
        }),
        r.gap_outside_arena_sibling_range == (match arena_sibling_first {
            Some(first) => outside_range(r.reserved_gap_slots@, first, arena_sibling_count),
            None => true,
        }),
        r.active_children_contiguous == contiguous(active_child_slots@),
{
    let reserved_gap_slots: Vec<SlotId> = match pool {
        Some(p) => copy_slots(p.reserved_slots()),
        None => Vec::new(),
    };
    let gap_outside_active_child_span = if active_child_slots.len() == 0 {
        reserved_gap_slots.len() > 0
    } else {
        all_outside_range(active_child_slots[0], active_child_slots.len() as u32, &reserved_gap_slots)
    };
    let outside_arena = match arena_sibling_first {
        Some(first) => all_outside_range(first, arena_sibling_count, &reserved_gap_slots),
        None => true,
    };
    NestedFissionGapReport {
        parent_participant_slot,
        active_child_slots: copy_slots(active_child_slots),
        reserved_gap_slots,
        gap_outside_active_child_span,
        gap_outside_arena_sibling_range: outside_arena,
        active_children_contiguous: slots_are_contiguous(active_child_slots),
    }
}

/// The pools carved from one gap block are pairwise disjoint: a position of the block lies in
/// the chunk of at most one parent.
pub proof fn lemma_gap_pools_disjoint(gap_per_parent: int, i: int, j: int, p: int)
    requires
        gap_per_parent > 0,
        0 <= i,
        0 <= j,
        i * gap_per_parent <= p < (i + 1) * gap_per_parent,
        j * gap_per_parent <= p < (j + 1) * gap_per_parent,
    ensures
        i == j,
{
    assert(i == j) by (nonlinear_arith)
        requires gap_per_parent > 0, i * gap_per_parent <= p < (i + 1) * gap_per_parent,
            j * gap_per_parent <= p < (j + 1) * gap_per_parent;
}


/// One explicitly enrolled participant of an arena: the hosted subtree root and the subtree root
/// of its resource parent, if any.
#[derive(Clone, Copy, Debug, PartialEq, Eq)]
pub struct ExplicitParticipant {
    pub subtree_root_id: u32,
    pub parent_subtree_root_id: Option<u64>,
}

/// Why an explicit participant graph is refused.
#[derive(Clone, Debug, PartialEq, Eq)]
pub enum ParticipantGraphError {
    /// A subtree root is enrolled twice.
    DuplicateEnrollmentHostedSimThing { arena: String, subtree_root_id: u32 },
    /// A participant names a parent that is not enrolled (or does not fit a subtree root id).
    UnknownExplicitParticipantParent { arena: String, parent_subtree_root_id: u64 },
    /// Following parents from a participant comes back to a subtree root already visited.
    ExplicitParticipantParentCycle { arena: String, subtree_root_id: u32 },
}

/// Index of the first participant hosting `id`.
pub open spec fn first_hosting(ps: Seq<ExplicitParticipant>, id: u32) -> Option<int>
    decreases ps.len(),
{
    if ps.len() == 0 {
        None
    } else {
        match first_hosting(ps.drop_last(), id) {
            Some(i) => Some(i),
            None => if ps.last().subtree_root_id == id { Some(ps.len() - 1) } else { None },
        }
    }
}

/// Index of the first participant whose subtree root is hosted by an earlier one.
pub open spec fn first_duplicate(ps: Seq<ExplicitParticipant>) -> Option<int>
    decreases ps.len(),
{
    if ps.len() == 0 {
        None
    } else {
        match first_duplicate(ps.drop_last()) {
            Some(i) => Some(i),
            None => if first_hosting(ps.drop_last(), ps.last().subtree_root_id) is Some {
                Some(ps.len() - 1)
            } else {
                None
            },
        }
    }
}

/// Whether participant `p` names a parent that is not an enrolled subtree root.
pub open spec fn parent_unknown(ps: Seq<ExplicitParticipant>, p: ExplicitParticipant) -> bool {
    match p.parent_subtree_root_id {
        Some(pid) => pid > u32::MAX || first_hosting(ps, pid as u32) is None,
        None => false,
    }
}

/// Index of the first participant with an unknown parent.
pub open spec fn first_unknown_parent(ps: Seq<ExplicitParticipant>, all: Seq<ExplicitParticipant>) -> Option<int>
    decreases ps.len(),
{
    if ps.len() == 0 {
        None
    } else {
        match first_unknown_parent(ps.drop_last(), all) {
            Some(i) => Some(i),
            None => if parent_unknown(all, ps.last()) { Some(ps.len() - 1) } else { None },
        }
    }
}

/// The parent subtree root of `id`: that of the first participant hosting it.
pub open spec fn parent_of(ps: Seq<ExplicitParticipant>, id: u32) -> Option<u32> {
    match first_hosting(ps, id) {
        Some(i) => match ps[i].parent_subtree_root_id {
            Some(pid) => Some(pid as u32),
            None => None,
        },
        None => None,
    }
}

/// The subtree root reached after `k` parent steps from `id`, if the walk has not ended.
pub open spec fn ancestor(ps: Seq<ExplicitParticipant>, id: u32, k: nat) -> Option<u32>
    decreases k,
{
    if k == 0 {
        Some(id)
    } else {
        match ancestor(ps, id, (k - 1) as nat) {
            Some(a) => parent_of(ps, a),
            None => None,
        }
    }
}

/// Whether the parent walk from `id` never ends: after as many steps as there are participants
/// plus one it is still going, which (subtree roots being distinct and parents enrolled) means it
/// came back to a subtree root it had visited.
pub open spec fn walk_cycles(ps: Seq<ExplicitParticipant>, id: u32) -> bool {
    ancestor(ps, id, ps.len() + 1) is Some
}

/// Index of the first participant whose parent walk cycles.
pub open spec fn first_cycle(ps: Seq<ExplicitParticipant>, all: Seq<ExplicitParticipant>) -> Option<int>
    decreases ps.len(),
{
    if ps.len() == 0 {
        None
    } else {
        match first_cycle(ps.drop_last(), all) {
            Some(i) => Some(i),
            None => if walk_cycles(all, ps.last().subtree_root_id) { Some(ps.len() - 1) } else { None },
        }
    }
}

/// Index of the first participant hosting `id`.
fn find_hosting(ps: &Vec<ExplicitParticipant>, id: u32) -> (r: Option<usize>)
    ensures
        r matches Some(i) ==> i < ps@.len() && first_hosting(ps@, id) == Some(i as int),
        r is None ==> first_hosting(ps@, id) is None,
{
    let mut i: usize = 0;
    proof {
        assert(ps@.take(0) =~= Seq::<ExplicitParticipant>::empty());
    }
    while i < ps.len()
        invariant
            i <= ps@.len(),
            first_hosting(ps@.take(i as int), id) is None,
        decreases ps@.len() - i,
    {
        proof {
            assert(ps@.take(i as int + 1).drop_last() =~= ps@.take(i as int));
        }
        if ps[i].subtree_root_id == id {
            proof { lemma_first_hosting_prefix(ps@, id, i as int); }
            return Some(i);
        }
        i = i + 1;
    }
    proof { assert(ps@.take(i as int) =~= ps@); }
    None
}

/// A first host found at `k` after none before it is the first host in the whole list.
proof fn lemma_first_hosting_prefix(ps: Seq<ExplicitParticipant>, id: u32, k: int)
    requires
        0 <= k < ps.len(),
        first_hosting(ps.take(k), id) is None,
        ps[k].subtree_root_id == id,
    ensures
        first_hosting(ps, id) == Some(k),
    decreases ps.len(),
{
    if k < ps.len() - 1 {
        assert(ps.drop_last().take(k) =~= ps.take(k));
        lemma_first_hosting_prefix(ps.drop_last(), id, k);
    } else {
        assert(ps.drop_last() =~= ps.take(k));
    }
}

/// A first index found over a prefix stays the first over any longer prefix.
proof fn lemma_first_duplicate_prefix(ps: Seq<ExplicitParticipant>, k: int)
    requires
        0 <= k <= ps.len(),
        first_duplicate(ps.take(k)) is Some,
    ensures
        first_duplicate(ps) == first_duplicate(ps.take(k)),
    decreases ps.len() - k,
{
    if k < ps.len() {
        assert(ps.take(k + 1).drop_last() =~= ps.take(k));
        lemma_first_duplicate_prefix(ps, k + 1);
    } else {
        assert(ps.take(k) =~= ps);
    }
}

/// The parent subtree root of `id`.
fn parent_subtree_root_id(ps: &Vec<ExplicitParticipant>, id: u32) -> (r: Option<u32>)
    ensures
        r == parent_of(ps@, id),
{
    match find_hosting(ps, id) {
        Some(i) => match ps[i].parent_subtree_root_id {
            Some(pid) => Some(pid as u32),
            None => None,
        },
        None => None,
    }
}

/// Whether the parent walk from `id` cycles.
fn walk_cycles_from(ps: &Vec<ExplicitParticipant>, id: u32) -> (r: bool)
    requires
        ps@.len() < usize::MAX,
    ensures
        r == walk_cycles(ps@, id),
{
    let mut current: Option<u32> = Some(id);
    let mut k: usize = 0;
    let steps = ps.len() + 1;
    while k < steps
        invariant
            k <= steps,
            steps == ps@.len() + 1,
            current == ancestor(ps@, id, k as nat),
        decreases steps - k,
    {
        current = match current {
            Some(a) => parent_subtree_root_id(ps, a),
            None => None,
        };
        k = k + 1;
    }
    current.is_some()
}

/// Validates an arena's explicit participant graph, in three passes over the participants in
/// order: a subtree root enrolled twice is refused (at its second enrolment); then a parent that
/// does not fit a subtree root id or is not enrolled; then a participant whose parent walk cycles.
pub fn validate_explicit_participant_graph(
    arena: &str,
    participants: &Vec<ExplicitParticipant>,
) -> (r: Result<(), ParticipantGraphError>)
    requires
        participants@.len() < usize::MAX,
    ensures
        ({
            let ps = participants@;
            match first_duplicate(ps) {
                Some(j) => r matches Err(ParticipantGraphError::DuplicateEnrollmentHostedSimThing { arena: a, subtree_root_id: id })
                    && a@ == arena@ && id == ps[j].subtree_root_id,
                None => match first_unknown_parent(ps, ps) {
                    Some(j) => r matches Err(ParticipantGraphError::UnknownExplicitParticipantParent { arena: a, parent_subtree_root_id: pid })
                        && a@ == arena@ && Some(pid) == ps[j].parent_subtree_root_id,
                    None => match first_cycle(ps, ps) {
                        Some(j) => r matches Err(ParticipantGraphError::ExplicitParticipantParentCycle { arena: a, subtree_root_id: id })
                            && a@ == arena@ && id == ps[j].subtree_root_id,
                        None => r is Ok,
                    },
                },
            }
        }),
{
    let ghost ps = participants@;
    // Duplicate enrolment.
    let mut i: usize = 0;
    proof { assert(ps.take(0) =~= Seq::<ExplicitParticipant>::empty()); }
    while i < participants.len()
        invariant
            ps == participants@,
            i <= ps.len(),
            first_duplicate(ps.take(i as int)) is None,
        decreases ps.len() - i,
    {
        let ghost prefix = ps.take(i as int);
        proof {
            assert(ps.take(i as int + 1).drop_last() =~= prefix);
        }
        let id = participants[i].subtree_root_id;
        let mut k: usize = 0;
        let mut seen = false;
        while k < i
            invariant
                ps == participants@,
                k <= i < ps.len(),
                prefix == ps.take(i as int),
                id == ps[i as int].subtree_root_id,
                seen ==> first_hosting(prefix, id) is Some,
                !seen ==> first_hosting(prefix.take(k as int), id) is None,
            decreases i - k,
        {
            if !seen {
                proof {
                    assert(prefix.take(k as int + 1).drop_last() =~= prefix.take(k as int));
                }
                if participants[k].subtree_root_id == id {
                    proof { lemma_first_hosting_prefix(prefix, id, k as int); }
                    seen = true;
                }
            }
            k = k + 1;
        }
        if seen {
            proof {
                lemma_first_duplicate_prefix(ps, i as int + 1);
            }
            return Err(ParticipantGraphError::DuplicateEnrollmentHostedSimThing {
                arena: arena.to_string(),
                subtree_root_id: id,
            });
        }
        proof { assert(prefix.take(i as int) =~= prefix); }
        i = i + 1;
    }
    proof { assert(ps.take(i as int) =~= ps); }
    // Unknown parents.
    let mut j: usize = 0;
    proof { assert(ps.take(0) =~= Seq::<ExplicitParticipant>::empty()); }
    while j < participants.len()
        invariant
            ps == participants@,
            j <= ps.len(),
            first_duplicate(ps) is None,
            first_unknown_parent(ps.take(j as int), ps) is None,
        decreases ps.len() - j,
    {
        proof {
            assert(ps.take(j as int + 1).drop_last() =~= ps.take(j as int));
        }
        match participants[j].parent_subtree_root_id {
            Some(pid) => {
                let unknown = if pid > u32::MAX as u64 {
                    true
                } else {
                    find_hosting(participants, pid as u32).is_none()
                };
                if unknown {
                    proof { lemma_first_unknown_prefix(ps, ps, j as int + 1); }
                    return Err(ParticipantGraphError::UnknownExplicitParticipantParent {
                        arena: arena.to_string(),
                        parent_subtree_root_id: pid,
                    });
                }
            },
            None => {},
        }
        j = j + 1;
    }
    proof { assert(ps.take(j as int) =~= ps); }
    // Parent cycles.
    let mut c: usize = 0;
    proof { assert(ps.take(0) =~= Seq::<ExplicitParticipant>::empty()); }
    while c < participants.len()
        invariant
            ps == participants@,
            c <= ps.len(),
            ps.len() < usize::MAX,
            first_duplicate(ps) is None,
            first_unknown_parent(ps, ps) is None,
            first_cycle(ps.take(c as int), ps) is None,
        decreases ps.len() - c,
    {
        proof {
            assert(ps.take(c as int + 1).drop_last() =~= ps.take(c as int));
        }
        if walk_cycles_from(participants, participants[c].subtree_root_id) {
            proof { lemma_first_cycle_prefix(ps, ps, c as int + 1); }
            return Err(ParticipantGraphError::ExplicitParticipantParentCycle {
                arena: arena.to_string(),
                subtree_root_id: participants[c].subtree_root_id,
            });
        }
        c = c + 1;
    }
    proof { assert(ps.take(c as int) =~= ps); }
    Ok(())
}

/// A first unknown parent found over a prefix stays the first over the whole list.
proof fn lemma_first_unknown_prefix(ps: Seq<ExplicitParticipant>, all: Seq<ExplicitParticipant>, k: int)
    requires
        0 <= k <= ps.len(),
        first_unknown_parent(ps.take(k), all) is Some,
    ensures
        first_unknown_parent(ps, all) == first_unknown_parent(ps.take(k), all),
    decreases ps.len() - k,
{
    if k < ps.len() {
        assert(ps.take(k + 1).drop_last() =~= ps.take(k));
        lemma_first_unknown_prefix(ps, all, k + 1);
    } else {
        assert(ps.take(k) =~= ps);
    }
}

/// A first cycling participant found over a prefix stays the first over the whole list.
proof fn lemma_first_cycle_prefix(ps: Seq<ExplicitParticipant>, all: Seq<ExplicitParticipant>, k: int)
    requires
        0 <= k <= ps.len(),
        first_cycle(ps.take(k), all) is Some,
    ensures
        first_cycle(ps, all) == first_cycle(ps.take(k), all),
    decreases ps.len() - k,
{
    if k < ps.len() {
        assert(ps.take(k + 1).drop_last() =~= ps.take(k));
        lemma_first_cycle_prefix(ps, all, k + 1);
    } else {
        assert(ps.take(k) =~= ps);
    }
}


/// A host found anywhere means a first host at or before it.
proof fn lemma_hosting_found(ps: Seq<ExplicitParticipant>, id: u32, i: int)
    requires
        0 <= i < ps.len(),
        ps[i].subtree_root_id == id,
    ensures
        first_hosting(ps, id) matches Some(h) && 0 <= h <= i && ps[h].subtree_root_id == id,
    decreases ps.len(),
{
    if i < ps.len() - 1 {
        lemma_hosting_found(ps.drop_last(), id, i);
    } else {
        if first_hosting(ps.drop_last(), id) matches Some(h) {
            lemma_first_hosting_in_range(ps.drop_last(), id);
        }
    }
}

/// The first host is a host.
proof fn lemma_first_hosting_in_range(ps: Seq<ExplicitParticipant>, id: u32)
    ensures
        first_hosting(ps, id) matches Some(h) ==> 0 <= h < ps.len() && ps[h].subtree_root_id == id,
    decreases ps.len(),
{
    if ps.len() > 0 {
        lemma_first_hosting_in_range(ps.drop_last(), id);
    }
}

/// Graphs the validation admits are forests: subtree roots are distinct, every named parent is an
/// enrolled subtree root, and following parents from any participant ends at a root.
pub proof fn lemma_admitted_graph_is_forest(ps: Seq<ExplicitParticipant>)
    requires
        first_duplicate(ps) is None,
        first_unknown_parent(ps, ps) is None,
        first_cycle(ps, ps) is None,
    ensures
        forall|i: int, j: int| 0 <= i < j < ps.len() ==> ps[i].subtree_root_id != ps[j].subtree_root_id,
        forall|i: int| 0 <= i < ps.len() ==> !parent_unknown(ps, #[trigger] ps[i]),
        forall|i: int| 0 <= i < ps.len() ==> !walk_cycles(ps, #[trigger] ps[i].subtree_root_id),
{
    lemma_no_duplicates(ps);
    lemma_no_unknown(ps, ps);
    lemma_no_cycle(ps, ps);
}

proof fn lemma_no_duplicates(ps: Seq<ExplicitParticipant>)
    requires
        first_duplicate(ps) is None,
    ensures
        forall|i: int, j: int| 0 <= i < j < ps.len() ==> ps[i].subtree_root_id != ps[j].subtree_root_id,
    decreases ps.len(),
{
    if ps.len() > 0 {
        let init = ps.drop_last();
        lemma_no_duplicates(init);
        assert forall|i: int, j: int| 0 <= i < j < ps.len() implies ps[i].subtree_root_id != ps[j].subtree_root_id by {
            if j == ps.len() - 1 && ps[i].subtree_root_id == ps[j].subtree_root_id {
                assert(init[i] == ps[i]);
                lemma_hosting_found(init, ps.last().subtree_root_id, i);
            } else if j < ps.len() - 1 {
                assert(init[i] == ps[i] && init[j] == ps[j]);
            }
        }
    }
}

proof fn lemma_no_unknown(ps: Seq<ExplicitParticipant>, all: Seq<ExplicitParticipant>)
    requires
        first_unknown_parent(ps, all) is None,
    ensures
        forall|i: int| 0 <= i < ps.len() ==> !parent_unknown(all, #[trigger] ps[i]),
    decreases ps.len(),
{
    if ps.len() > 0 {
        let init = ps.drop_last();
        lemma_no_unknown(init, all);
        assert forall|i: int| 0 <= i < ps.len() implies !parent_unknown(all, #[trigger] ps[i]) by {
            if i < ps.len() - 1 {
                assert(init[i] == ps[i]);
            }
        }
    }
}

proof fn lemma_no_cycle(ps: Seq<ExplicitParticipant>, all: Seq<ExplicitParticipant>)
    requires
        first_cycle(ps, all) is None,
    ensures
        forall|i: int| 0 <= i < ps.len() ==> !walk_cycles(all, #[trigger] ps[i].subtree_root_id),
    decreases ps.len(),
{
    if ps.len() > 0 {
        let init = ps.drop_last();
        lemma_no_cycle(init, all);
        assert forall|i: int| 0 <= i < ps.len() implies !walk_cycles(all, #[trigger] ps[i].subtree_root_id) by {
            if i < ps.len() - 1 {
                assert(init[i] == ps[i]);
            }
        }
    }
}

} // verus!
