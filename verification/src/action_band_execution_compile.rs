//! Session origin of a compiled ActionBand execution, and the lowering of frozen template
//! dependencies onto active instance rows and of conserved-progress bindings onto emission
//! bindings.
use vstd::prelude::*;

verus! {

/// Unique per-compile association origin, distinct from the numeric plan fingerprint.
#[derive(Clone, Copy, Debug, PartialEq, Eq, Hash)]
pub struct ActionBandSessionOrigin(u64);

impl View for ActionBandSessionOrigin {
    type V = u64;

    /// The origin number.
    closed spec fn view(&self) -> u64 {
        self.0
    }
}

impl ActionBandSessionOrigin {
    /// The raw origin number.
    pub fn raw(self) -> (r: u64)
        ensures
            r == self@,
    {
        self.0
    }
}

/// The dependency fields of a frozen template: rows reserved for its instances, the span of its
/// child templates in the frozen dependency table, and how many subordinates may be active.
#[derive(Clone, Copy, Debug, PartialEq, Eq)]
pub struct DependencyTemplateRows {
    pub reserved_instance_rows: u32,
    pub dependency_start: u32,
    pub dependency_len: u32,
    pub max_active_subordinates: u32,
}

/// An active instance row: its template index, its slot, and whether it begins active.
#[derive(Clone, Copy, Debug, PartialEq, Eq)]
pub struct DependencyInstanceRow {
    pub template: u32,
    pub slot: u32,
    pub initially_active: bool,
}

/// A parent row whose lifecycle owns a child row.
#[derive(Clone, Copy, Debug, PartialEq, Eq)]
pub struct LoweredDependency {
    pub parent_row: u32,
    pub child_row: u32,
}

/// Why the dependency lowering refuses the instances.
#[derive(Clone, Copy, Debug, PartialEq, Eq)]
pub enum DependencyLoweringError {
    DuplicateActiveInstance,
    InvalidFrozenSpan,
    TemplateRowBudgetExceeded { template: u32, actual: u32, reserved: u32 },
    DependencyCapacityDeferred { parent_template: u32, dependency_count: u32, max_active: u32 },
    MissingPreAdmittedChild { parent_template: u32, child_template: u32, slot: u32 },
    DependencyCycle,
    SharedChildLifecycle { child_template: u32, slot: u32 },
    ChildMustBeginInactive { child_template: u32, slot: u32 },
    UnclaimedInactiveRow { template: u32, slot: u32 },
}

/// Two rows with the same template and slot.
pub open spec fn has_duplicate_instance(inst: Seq<DependencyInstanceRow>) -> bool {
    exists|i: int, j: int|
        0 <= i < j < inst.len() && #[trigger] inst[i].template == #[trigger] inst[j].template
            && inst[i].slot == inst[j].slot
}

/// Number of rows from `i` on instantiating template `t`.
pub open spec fn count_template_from(inst: Seq<DependencyInstanceRow>, t: u32, i: int) -> nat
    decreases inst.len() - i,
{
    if i >= inst.len() {
        0
    } else {
        (if inst[i].template == t { 1nat } else { 0nat }) + count_template_from(inst, t, i + 1)
    }
}

/// Template `t` is missing from the frozen table or has more rows than it reserved.
pub open spec fn template_over_budget(templates: Seq<DependencyTemplateRows>, inst: Seq<DependencyInstanceRow>, t: u32) -> bool {
    t >= templates.len() || count_template_from(inst, t, 0) > templates[t as int].reserved_instance_rows
}

/// The smaller of two optional template indices.
pub open spec fn min_template(a: Option<u32>, b: Option<u32>) -> Option<u32> {
    match (a, b) {
        (Some(x), Some(y)) => Some(if x <= y { x } else { y }),
        (Some(x), None) => Some(x),
        (None, y) => y,
    }
}

/// The smallest over-budget template among the rows from `i` on.
pub open spec fn min_over_budget_from(templates: Seq<DependencyTemplateRows>, inst: Seq<DependencyInstanceRow>, i: int) -> Option<u32>
    decreases inst.len() - i,
{
    if i >= inst.len() {
        None
    } else {
        min_template(
            if template_over_budget(templates, inst, inst[i].template) { Some(inst[i].template) } else { None },
            min_over_budget_from(templates, inst, i + 1),
        )
    }
}

/// The refusal for over-budget template `t`.
pub open spec fn budget_error(templates: Seq<DependencyTemplateRows>, inst: Seq<DependencyInstanceRow>, t: u32) -> DependencyLoweringError {
    if t >= templates.len() {
        DependencyLoweringError::InvalidFrozenSpan
    } else {
        DependencyLoweringError::TemplateRowBudgetExceeded {
            template: t,
            actual: count_template_from(inst, t, 0) as u32,
            reserved: templates[t as int].reserved_instance_rows,
        }
    }
}

/// The first row from `i` on with template `t` and slot `slot`.
pub open spec fn row_of_from(inst: Seq<DependencyInstanceRow>, t: u32, slot: u32, i: int) -> Option<int>
    decreases inst.len() - i,
{
    if i >= inst.len() || i < 0 {
        None
    } else if inst[i].template == t && inst[i].slot == slot {
        Some(i)
    } else {
        row_of_from(inst, t, slot, i + 1)
    }
}

/// Claims the children of parent row `p` listed in `deps[start + k .. start + len]`: each child
/// template must have a row at the parent's slot, other than the parent and not yet claimed.
pub open spec fn claim_from(
    deps: Seq<u32>,
    inst: Seq<DependencyInstanceRow>,
    p: int,
    start: int,
    len: int,
    k: int,
    parent_of: Seq<Option<u32>>,
) -> Result<Seq<Option<u32>>, DependencyLoweringError>
    decreases len - k,
{
    if k >= len {
        Ok(parent_of)
    } else {
        let child_t = deps[start + k];
        let parent = inst[p];
        match row_of_from(inst, child_t, parent.slot, 0) {
            None => Err(DependencyLoweringError::MissingPreAdmittedChild {
                parent_template: parent.template,
                child_template: child_t,
                slot: parent.slot,
            }),
            Some(c) => if c == p {
                Err(DependencyLoweringError::DependencyCycle)
            } else if parent_of[c] is Some {
                Err(DependencyLoweringError::SharedChildLifecycle { child_template: child_t, slot: parent.slot })
            } else {
                claim_from(deps, inst, p, start, len, k + 1, parent_of.update(c, Some(p as u32)))
            },
        }
    }
}

/// Lowers the dependencies of parent row `p`: its template must exist, its span must fit its
/// concurrent cap and the dependency table.
pub open spec fn lower_row(
    templates: Seq<DependencyTemplateRows>,
    deps: Seq<u32>,
    inst: Seq<DependencyInstanceRow>,
    p: int,
    parent_of: Seq<Option<u32>>,
) -> Result<Seq<Option<u32>>, DependencyLoweringError> {
    let t = inst[p].template;
    if t >= templates.len() {
        Err(DependencyLoweringError::InvalidFrozenSpan)
    } else {
        let tr = templates[t as int];
        if tr.dependency_len > tr.max_active_subordinates {
            Err(DependencyLoweringError::DependencyCapacityDeferred {
                parent_template: t,
                dependency_count: tr.dependency_len,
                max_active: tr.max_active_subordinates,
            })
        } else if tr.dependency_start + tr.dependency_len > deps.len() {
            Err(DependencyLoweringError::InvalidFrozenSpan)
        } else {
            claim_from(deps, inst, p, tr.dependency_start as int, tr.dependency_len as int, 0, parent_of)
        }
    }
}

/// Lowers the rows from `p` on, in row order, starting from the claims `parent_of`.
pub open spec fn lower_rows_from(
    templates: Seq<DependencyTemplateRows>,
    deps: Seq<u32>,
    inst: Seq<DependencyInstanceRow>,
    p: int,
    parent_of: Seq<Option<u32>>,
) -> Result<Seq<Option<u32>>, DependencyLoweringError>
    decreases inst.len() - p,
{
    if p >= inst.len() || p < 0 {
        Ok(parent_of)
    } else {
        match lower_row(templates, deps, inst, p, parent_of) {
            Err(e) => Err(e),
            Ok(po) => lower_rows_from(templates, deps, inst, p + 1, po),
        }
    }
}

/// The first row from `i` on that is claimed but begins active, or unclaimed but begins inactive.
pub open spec fn activity_error_from(inst: Seq<DependencyInstanceRow>, parent_of: Seq<Option<u32>>, i: int) -> Option<DependencyLoweringError>
    decreases inst.len() - i,
{
    if i >= inst.len() || i < 0 {
        None
    } else if parent_of[i] is Some && inst[i].initially_active {
        Some(DependencyLoweringError::ChildMustBeginInactive { child_template: inst[i].template, slot: inst[i].slot })
    } else if parent_of[i] is None && !inst[i].initially_active {
        Some(DependencyLoweringError::UnclaimedInactiveRow { template: inst[i].template, slot: inst[i].slot })
    } else {
        activity_error_from(inst, parent_of, i + 1)
    }
}

/// The row `k` parents above row `r`, if the chain of claims reaches that far.
pub open spec fn ancestor_row(parent_of: Seq<Option<u32>>, r: int, k: nat) -> Option<int>
    decreases k,
{
    if k == 0 {
        Some(r)
    } else {
        match ancestor_row(parent_of, r, (k - 1) as nat) {
            Some(a) => match parent_of[a] {
                Some(q) => Some(q as int),
                None => None,
            },
            None => None,
        }
    }
}

/// The claims contain a lifecycle cycle. Every row has at most one parent, so a row whose chain
/// of parents runs as many steps as there are rows revisits a row: a cycle.
pub open spec fn has_lifecycle_cycle(parent_of: Seq<Option<u32>>) -> bool {
    exists|r: int| 0 <= r < parent_of.len() && #[trigger] ancestor_row(parent_of, r, parent_of.len()) is Some
}

/// The children of parent row `q` among rows below `k`, ascending.
pub open spec fn children_upto(parent_of: Seq<Option<u32>>, q: int, k: nat) -> Seq<LoweredDependency>
    decreases k,
{
    if k == 0 {
        Seq::empty()
    } else {
        let prev = children_upto(parent_of, q, (k - 1) as nat);
        if parent_of[k - 1] == Some(q as u32) {
            prev.push(LoweredDependency { parent_row: q as u32, child_row: (k - 1) as u32 })
        } else {
            prev
        }
    }
}

/// The dependencies of parent rows below `p`, sorted by parent row, then child row.
pub open spec fn lowered_upto(parent_of: Seq<Option<u32>>, p: nat) -> Seq<LoweredDependency>
    decreases p,
{
    if p == 0 {
        Seq::empty()
    } else {
        lowered_upto(parent_of, (p - 1) as nat) + children_upto(parent_of, p - 1, parent_of.len())
    }
}

/// The claimed rows below `k`, ascending.
pub open spec fn claimed_upto(parent_of: Seq<Option<u32>>, k: nat) -> Seq<usize>
    decreases k,
{
    if k == 0 {
        Seq::empty()
    } else {
        let prev = claimed_upto(parent_of, (k - 1) as nat);
        if parent_of[k - 1] is Some { prev.push((k - 1) as usize) } else { prev }
    }
}

/// What the lowering gives: duplicate rows are refused; when the rows fit the storage budget,
/// the smallest template missing or over its reservation is refused; then each parent row's
/// dependencies are claimed in row order; then every claimed row must begin inactive and every
/// unclaimed one active; then a lifecycle cycle is refused. Otherwise the dependencies, sorted
/// by (parent row, child row), and the claimed rows, ascending.
pub open spec fn lowering_outcome(
    templates: Seq<DependencyTemplateRows>,
    deps: Seq<u32>,
    storage_rows: u32,
    inst: Seq<DependencyInstanceRow>,
) -> Result<(Seq<LoweredDependency>, Seq<usize>), DependencyLoweringError> {
    if has_duplicate_instance(inst) {
        Err(DependencyLoweringError::DuplicateActiveInstance)
    } else if inst.len() <= storage_rows && min_over_budget_from(templates, inst, 0) is Some {
        Err(budget_error(templates, inst, min_over_budget_from(templates, inst, 0).unwrap()))
    } else {
        match lower_rows_from(templates, deps, inst, 0, Seq::new(inst.len(), |i: int| None::<u32>)) {
            Err(e) => Err(e),
            Ok(po) => match activity_error_from(inst, po, 0) {
                Some(e) => Err(e),
                None => if has_lifecycle_cycle(po) {
                    Err(DependencyLoweringError::DependencyCycle)
                } else {
                    Ok((lowered_upto(po, inst.len()), claimed_upto(po, inst.len())))
                },
            },
        }
    }
}

/// Whether two rows share a template and a slot.
fn has_duplicate(inst: &Vec<DependencyInstanceRow>) -> (r: bool)
    ensures
        r == has_duplicate_instance(inst@),
{
    let mut j: usize = 0;
    while j < inst.len()
        invariant
            j <= inst@.len(),
            forall|a: int, b: int| 0 <= a < b < j ==> !(#[trigger] inst@[a].template == #[trigger] inst@[b].template
                && inst@[a].slot == inst@[b].slot),
        decreases inst@.len() - j,
    {
        let mut i: usize = 0;
        while i < j
            invariant
                i <= j < inst@.len(),
                forall|a: int, b: int| 0 <= a < b < j ==> !(#[trigger] inst@[a].template == #[trigger] inst@[b].template
                    && inst@[a].slot == inst@[b].slot),
                forall|a: int| 0 <= a < i ==> !(#[trigger] inst@[a].template == inst@[j as int].template
                    && inst@[a].slot == inst@[j as int].slot),
            decreases j - i,
        {
            if inst[i].template == inst[j].template && inst[i].slot == inst[j].slot {
                assert(inst@[i as int].template == inst@[j as int].template);
                return true;
            }
            i = i + 1;
        }
        j = j + 1;
    }
    false
}

/// Number of rows instantiating template `t`.
fn count_template(inst: &Vec<DependencyInstanceRow>, t: u32) -> (c: u32)
    requires
        inst@.len() <= u32::MAX,
    ensures
        c == count_template_from(inst@, t, 0),
{
    let mut c: u32 = 0;
    let mut i: usize = 0;
    while i < inst.len()
        invariant
            i <= inst@.len() <= u32::MAX,
            c <= i,
            c + count_template_from(inst@, t, i as int) == count_template_from(inst@, t, 0),
        decreases inst@.len() - i,
    {
        if inst[i].template == t {
            c = c + 1;
        }
        i = i + 1;
    }
    c
}

/// The smallest template that is missing or over its reservation.
fn min_over_budget(templates: &Vec<DependencyTemplateRows>, inst: &Vec<DependencyInstanceRow>) -> (r: Option<u32>)
    requires
        inst@.len() <= u32::MAX,
    ensures
        r == min_over_budget_from(templates@, inst@, 0),
{
    let mut best: Option<u32> = None;
    let mut i: usize = 0;
    while i < inst.len()
        invariant
            i <= inst@.len() <= u32::MAX,
            min_template(best, min_over_budget_from(templates@, inst@, i as int))
                == min_over_budget_from(templates@, inst@, 0),
        decreases inst@.len() - i,
    {
        let t = inst[i].template;
        let bad = if (t as usize) < templates.len() {
            count_template(inst, t) > templates[t as usize].reserved_instance_rows
        } else {
            true
        };
        if bad {
            best = match best {
                Some(b) => Some(if b <= t { b } else { t }),
                None => Some(t),
            };
        }
        i = i + 1;
    }
    best
}

/// The first row with template `t` at `slot`.
fn row_of(inst: &Vec<DependencyInstanceRow>, t: u32, slot: u32) -> (r: Option<usize>)
    ensures
        r matches Some(i) ==> row_of_from(inst@, t, slot, 0) == Some(i as int) && i < inst@.len(),
        r is None ==> row_of_from(inst@, t, slot, 0) is None,
{
    let mut i: usize = 0;
    while i < inst.len()
        invariant
            i <= inst@.len(),
            row_of_from(inst@, t, slot, 0) == row_of_from(inst@, t, slot, i as int),
        decreases inst@.len() - i,
    {
        if inst[i].template == t && inst[i].slot == slot {
            return Some(i);
        }
        i = i + 1;
    }
    None
}

/// Claims, in row order, the children of every parent row.
fn lower_claims(
    templates: &Vec<DependencyTemplateRows>,
    deps: &Vec<u32>,
    inst: &Vec<DependencyInstanceRow>,
) -> (r: Result<Vec<Option<u32>>, DependencyLoweringError>)
    requires
        inst@.len() < u32::MAX,
        forall|i: int| 0 <= i < inst@.len() && (#[trigger] inst@[i]).template < templates@.len()
            ==> templates@[inst@[i].template as int].dependency_start
                + templates@[inst@[i].template as int].dependency_len <= u32::MAX,
    ensures
        match r {
            Ok(po) => lower_rows_from(templates@, deps@, inst@, 0, Seq::new(inst@.len(), |i: int| None::<u32>))
                == Ok::<Seq<Option<u32>>, DependencyLoweringError>(po@)
                && po@.len() == inst@.len()
                && forall|i: int| 0 <= i < po@.len() && (#[trigger] po@[i]) is Some ==> po@[i]->0 < inst@.len(),
            Err(e) => lower_rows_from(templates@, deps@, inst@, 0, Seq::new(inst@.len(), |i: int| None::<u32>))
                == Err::<Seq<Option<u32>>, DependencyLoweringError>(e),
        },
{
    let n = inst.len();
    let ghost init = Seq::new(n as nat, |i: int| None::<u32>);
    let mut parent_of: Vec<Option<u32>> = Vec::new();
    let mut v: usize = 0;
    while v < n
        invariant
            v <= n == inst@.len(),
            parent_of@ == Seq::new(v as nat, |i: int| None::<u32>),
        decreases n - v,
    {
        parent_of.push(None);
        v = v + 1;
        proof {
            assert(parent_of@ =~= Seq::new(v as nat, |i: int| None::<u32>));
        }
    }
    let mut p: usize = 0;
    while p < n
        invariant
            p <= n == inst@.len() < u32::MAX,
            forall|i: int| 0 <= i < inst@.len() && (#[trigger] inst@[i]).template < templates@.len()
                ==> templates@[inst@[i].template as int].dependency_start
                    + templates@[inst@[i].template as int].dependency_len <= u32::MAX,
            init == Seq::new(n as nat, |i: int| None::<u32>),
            parent_of@.len() == n,
            forall|i: int| 0 <= i < n && (#[trigger] parent_of@[i]) is Some ==> parent_of@[i]->0 < n,
            lower_rows_from(templates@, deps@, inst@, 0, init) == lower_rows_from(templates@, deps@, inst@, p as int, parent_of@),
        decreases n - p,
    {
        let ghost po_row = parent_of@;
        let parent = inst[p];
        let t = parent.template;
        if t as usize >= templates.len() {
            return Err(DependencyLoweringError::InvalidFrozenSpan);
        }
        let tr = templates[t as usize];
        if tr.dependency_len > tr.max_active_subordinates {
            return Err(DependencyLoweringError::DependencyCapacityDeferred {
                parent_template: t,
                dependency_count: tr.dependency_len,
                max_active: tr.max_active_subordinates,
            });
        }
        assert(inst@[p as int].template < templates@.len());
        let end = tr.dependency_start + tr.dependency_len;
        if end as usize > deps.len() {
            return Err(DependencyLoweringError::InvalidFrozenSpan);
        }
        proof {
            assert(lower_row(templates@, deps@, inst@, p as int, po_row) == claim_from(
                deps@, inst@, p as int, tr.dependency_start as int, tr.dependency_len as int, 0, po_row));
        }
        let mut k: u32 = 0;
        while k < tr.dependency_len
            invariant
                p < n == inst@.len() < u32::MAX,
                parent == inst@[p as int],
                parent.template < templates@.len(),
                t == parent.template,
                tr == templates@[parent.template as int],
                tr.dependency_start + tr.dependency_len <= u32::MAX,
                init == Seq::new(n as nat, |i: int| None::<u32>),
                lower_rows_from(templates@, deps@, inst@, 0, init) == lower_rows_from(templates@, deps@, inst@, p as int, po_row),
                lower_row(templates@, deps@, inst@, p as int, po_row) == claim_from(
                    deps@, inst@, p as int, tr.dependency_start as int, tr.dependency_len as int, 0, po_row),
                tr.dependency_start + tr.dependency_len <= deps@.len(),
                k <= tr.dependency_len,
                parent_of@.len() == n,
                forall|i: int| 0 <= i < n && (#[trigger] parent_of@[i]) is Some ==> parent_of@[i]->0 < n,
                claim_from(deps@, inst@, p as int, tr.dependency_start as int, tr.dependency_len as int, 0, po_row)
                    == claim_from(deps@, inst@, p as int, tr.dependency_start as int, tr.dependency_len as int, k as int, parent_of@),
            decreases tr.dependency_len - k,
        {
            let child_t = deps[(tr.dependency_start + k) as usize];
            match row_of(inst, child_t, parent.slot) {
                None => {
                    return Err(DependencyLoweringError::MissingPreAdmittedChild {
                        parent_template: t,
                        child_template: child_t,
                        slot: parent.slot,
                    });
                },
                Some(c) => {
                    if c == p {
                        return Err(DependencyLoweringError::DependencyCycle);
                    }
                    if parent_of[c].is_some() {
                        return Err(DependencyLoweringError::SharedChildLifecycle {
                            child_template: child_t,
                            slot: parent.slot,
                        });
                    }
                    parent_of.set(c, Some(p as u32));
                },
            }
            k = k + 1;
        }
        p = p + 1;
    }
    Ok(parent_of)
}

/// The first row claimed but beginning active, or unclaimed but beginning inactive.
fn activity_error(inst: &Vec<DependencyInstanceRow>, parent_of: &Vec<Option<u32>>) -> (r: Option<DependencyLoweringError>)
    requires
        parent_of@.len() == inst@.len(),
    ensures
        r == activity_error_from(inst@, parent_of@, 0),
{
    let mut i: usize = 0;
    while i < inst.len()
        invariant
            i <= inst@.len() == parent_of@.len(),
            activity_error_from(inst@, parent_of@, 0) == activity_error_from(inst@, parent_of@, i as int),
        decreases inst@.len() - i,
    {
        let row = inst[i];
        let claimed = parent_of[i].is_some();
        if claimed && row.initially_active {
            return Some(DependencyLoweringError::ChildMustBeginInactive { child_template: row.template, slot: row.slot });
        }
        if !claimed && !row.initially_active {
            return Some(DependencyLoweringError::UnclaimedInactiveRow { template: row.template, slot: row.slot });
        }
        i = i + 1;
    }
    None
}

/// Whether some row's chain of parents runs as many steps as there are rows.
fn has_cycle(parent_of: &Vec<Option<u32>>) -> (r: bool)
    requires
        forall|i: int| 0 <= i < parent_of@.len() && (#[trigger] parent_of@[i]) is Some
            ==> parent_of@[i]->0 < parent_of@.len(),
    ensures
        r == has_lifecycle_cycle(parent_of@),
{
    let n = parent_of.len();
    let mut r: usize = 0;
    while r < n
        invariant
            r <= n == parent_of@.len(),
            forall|i: int| 0 <= i < parent_of@.len() && (#[trigger] parent_of@[i]) is Some
                ==> parent_of@[i]->0 < parent_of@.len(),
            forall|q: int| 0 <= q < r ==> !(#[trigger] ancestor_row(parent_of@, q, n as nat) is Some),
        decreases n - r,
    {
        let mut cur: Option<usize> = Some(r);
        let mut k: usize = 0;
        while k < n
            invariant
                k <= n == parent_of@.len(),
                r < n,
                forall|i: int| 0 <= i < parent_of@.len() && (#[trigger] parent_of@[i]) is Some
                    ==> parent_of@[i]->0 < parent_of@.len(),
                match cur {
                    Some(a) => a < n && ancestor_row(parent_of@, r as int, k as nat) == Some(a as int),
                    None => ancestor_row(parent_of@, r as int, k as nat) is None,
                },
            decreases n - k,
        {
            cur = match cur {
                Some(a) => match parent_of[a] {
                    Some(q) => Some(q as usize),
                    None => None,
                },
                None => None,
            };
            k = k + 1;
        }
        if cur.is_some() {
            assert(ancestor_row(parent_of@, r as int, n as nat) is Some);
            return true;
        }
        r = r + 1;
    }
    false
}

/// The dependencies, sorted by parent row, then child row.
fn collect_lowered(parent_of: &Vec<Option<u32>>) -> (r: Vec<LoweredDependency>)
    requires
        parent_of@.len() <= u32::MAX,
    ensures
        r@ == lowered_upto(parent_of@, parent_of@.len()),
{
    let n = parent_of.len();
    let mut out: Vec<LoweredDependency> = Vec::new();
    let mut p: usize = 0;
    while p < n
        invariant
            p <= n == parent_of@.len() <= u32::MAX,
            out@ == lowered_upto(parent_of@, p as nat),
        decreases n - p,
    {
        let ghost base = out@;
        let mut c: usize = 0;
        while c < n
            invariant
                p < n == parent_of@.len() <= u32::MAX,
                c <= n,
                base == lowered_upto(parent_of@, p as nat),
                out@ == base + children_upto(parent_of@, p as int, c as nat),
            decreases n - c,
        {
            if parent_of[c] == Some(p as u32) {
                let ghost before = out@;
                out.push(LoweredDependency { parent_row: p as u32, child_row: c as u32 });
                proof {
                    assert(out@ =~= base + children_upto(parent_of@, p as int, (c + 1) as nat));
                }
            } else {
                proof {
                    assert(children_upto(parent_of@, p as int, (c + 1) as nat) == children_upto(parent_of@, p as int, c as nat));
                }
            }
            c = c + 1;
        }
        p = p + 1;
    }
    out
}

/// The claimed rows, ascending.
fn collect_claimed(parent_of: &Vec<Option<u32>>) -> (r: Vec<usize>)
    ensures
        r@ == claimed_upto(parent_of@, parent_of@.len()),
{
    let n = parent_of.len();
    let mut out: Vec<usize> = Vec::new();
    let mut k: usize = 0;
    while k < n
        invariant
            k <= n == parent_of@.len(),
            out@ == claimed_upto(parent_of@, k as nat),
        decreases n - k,
    {
        if parent_of[k].is_some() {
            out.push(k);
        }
        k = k + 1;
    }
    out
}

/// Lowers the frozen dependencies of the active instance rows, as `lowering_outcome` states:
/// refuses duplicate rows; when the rows fit the storage budget, the smallest template missing
/// or over its reservation; then claims each parent row's child rows in row order (refusing a
/// missing, self-owning or shared child, a span over the concurrent cap or outside the table);
/// then refuses a claimed row that begins active or an unclaimed one that begins inactive; then
/// a lifecycle cycle. Gives the dependencies sorted by (parent row, child row) and the claimed
/// rows in ascending order.
pub fn lower_dependency_rows(
    templates: &Vec<DependencyTemplateRows>,
    dependencies: &Vec<u32>,
    storage_rows: u32,
    instances: &Vec<DependencyInstanceRow>,
) -> (r: Result<(Vec<LoweredDependency>, Vec<usize>), DependencyLoweringError>)
    requires
        instances@.len() < u32::MAX,
        forall|i: int| 0 <= i < instances@.len() && (#[trigger] instances@[i]).template < templates@.len()
            ==> templates@[instances@[i].template as int].dependency_start
                + templates@[instances@[i].template as int].dependency_len <= u32::MAX,
    ensures
        match r {
            Ok((lowered, claimed)) => lowering_outcome(templates@, dependencies@, storage_rows, instances@)
                == Ok::<(Seq<LoweredDependency>, Seq<usize>), DependencyLoweringError>((lowered@, claimed@)),
            Err(e) => lowering_outcome(templates@, dependencies@, storage_rows, instances@)
                == Err::<(Seq<LoweredDependency>, Seq<usize>), DependencyLoweringError>(e),
        },
{
    if has_duplicate(instances) {
        return Err(DependencyLoweringError::DuplicateActiveInstance);
    }
    if instances.len() <= storage_rows as usize {
        match min_over_budget(templates, instances) {
            Some(t) => {
                if t as usize >= templates.len() {
                    return Err(DependencyLoweringError::InvalidFrozenSpan);
                }
                return Err(DependencyLoweringError::TemplateRowBudgetExceeded {
                    template: t,
                    actual: count_template(instances, t),
                    reserved: templates[t as usize].reserved_instance_rows,
                });
            },
            None => {},
        }
    }
    let parent_of = match lower_claims(templates, dependencies, instances) {
        Ok(po) => po,
        Err(e) => {
            return Err(e);
        },
    };
    match activity_error(instances, &parent_of) {
        Some(e) => {
            return Err(e);
        },
        None => {},
    }
    if has_cycle(&parent_of) {
        return Err(DependencyLoweringError::DependencyCycle);
    }
    let lowered = collect_lowered(&parent_of);
    let claimed = collect_claimed(&parent_of);
    Ok((lowered, claimed))
}

/// Where an emission binding writes, as the conserved-progress lowering reads it.
#[derive(Clone, Copy, Debug, PartialEq, Eq)]
pub enum EmissionDestinationKind {
    PropertyNext,
    RfClaim,
    CostBand,
    /// Any other destination; conserved progress cannot target it yet.
    Other(u32),
}

/// What bounds a conserved-progress binding.
#[derive(Clone, Copy, Debug, PartialEq, Eq)]
pub enum ConservedBoundSource {
    RfGrant,
    GuYangAvailable,
    GuYangRealized,
}

/// A frozen band as the conserved-progress lowering reads it: its threshold registration and
/// the span of its emission bindings in the frozen band-binding table.
#[derive(Clone, Copy, Debug, PartialEq, Eq)]
pub struct ConservedBandRow {
    pub threshold_registration: u32,
    pub emission_binding_start: u32,
    pub emission_binding_len: u32,
}

/// The crossing source of a band: its threshold registration and threshold column.
#[derive(Clone, Copy, Debug, PartialEq, Eq)]
pub struct CrossingSourceRow {
    pub threshold_registration: u32,
    pub threshold_column: u32,
}

/// A pre-admitted emission binding: its destination and the conserved-progress bound source
/// already written into it, if any.
#[derive(Clone, Copy, Debug, PartialEq, Eq)]
pub struct EmissionBindingRow {
    pub destination: EmissionDestinationKind,
    pub bound_source: Option<ConservedBoundSource>,
}

/// A conserved-progress binding of the frozen admission product.
#[derive(Clone, Copy, Debug, PartialEq, Eq)]
pub struct AdmittedConservedProgressRow {
    pub template: u32,
    pub band_table_index: u32,
    pub emission_binding: u32,
    pub bound_source: ConservedBoundSource,
    /// Threshold registration the bound source was admitted against.
    pub bound_threshold_registration: u32,
}

/// A lowered conserved-progress binding.
#[derive(Clone, Copy, Debug, PartialEq, Eq)]
pub struct CompiledConservedProgressBinding {
    pub template: u32,
    pub band_table_index: u32,
    pub emission_binding_index: u32,
    pub bound_source: ConservedBoundSource,
    pub threshold_column: u32,
    pub destination: EmissionDestinationKind,
}

/// Why the conserved-progress lowering refuses a binding.
#[derive(Clone, Copy, Debug, PartialEq, Eq)]
pub enum ConservedProgressError {
    InvalidConservedProgressBinding { band_table_index: u32, emission_binding_index: u32 },
    ConservedProgressRequiresNativeLane { emission_binding_index: u32 },
    ConservedProgressDestinationDeferred { destination: EmissionDestinationKind },
}

/// The binding `b` is listed in the table entries `[start, start + len)`.
pub open spec fn listed_in_span(table: Seq<u32>, start: int, len: int, b: u32) -> bool {
    exists|k: int| start <= k < start + len && #[trigger] table[k] == b
}

/// Lowers one admitted binding against the current emission bindings: its band must exist,
/// share the bound source's threshold registration and list the binding; native lanes must
/// exist; the emission binding must exist and be unbound; its destination must be a property
/// next-state, an RF claim or a cost band; and the band must have a crossing source with the
/// same registration. Gives the lowered binding and the emission bindings with this one bound.
pub open spec fn lower_conserved_one(
    bands: Seq<ConservedBandRow>,
    table: Seq<u32>,
    crossings: Seq<Option<CrossingSourceRow>>,
    has_native_lanes: bool,
    a: AdmittedConservedProgressRow,
    bindings: Seq<EmissionBindingRow>,
) -> Result<(CompiledConservedProgressBinding, Seq<EmissionBindingRow>), ConservedProgressError> {
    let invalid = ConservedProgressError::InvalidConservedProgressBinding {
        band_table_index: a.band_table_index,
        emission_binding_index: a.emission_binding,
    };
    if a.band_table_index >= bands.len() {
        Err(invalid)
    } else {
        let band = bands[a.band_table_index as int];
        let start = band.emission_binding_start as int;
        let len = band.emission_binding_len as int;
        if band.threshold_registration != a.bound_threshold_registration {
            Err(invalid)
        } else if !(start + len <= table.len() && listed_in_span(table, start, len, a.emission_binding)) {
            Err(invalid)
        } else if !has_native_lanes {
            Err(ConservedProgressError::ConservedProgressRequiresNativeLane { emission_binding_index: a.emission_binding })
        } else if a.emission_binding >= bindings.len() {
            Err(invalid)
        } else {
            let e = bindings[a.emission_binding as int];
            if e.bound_source is Some {
                Err(invalid)
            } else if e.destination is Other {
                Err(ConservedProgressError::ConservedProgressDestinationDeferred { destination: e.destination })
            } else {
                let crossing = if a.band_table_index < crossings.len() { crossings[a.band_table_index as int] } else { None };
                match crossing {
                    Some(src) => if src.threshold_registration != band.threshold_registration {
                        Err(invalid)
                    } else {
                        Ok((
                            CompiledConservedProgressBinding {
                                template: a.template,
                                band_table_index: a.band_table_index,
                                emission_binding_index: a.emission_binding,
                                bound_source: a.bound_source,
                                threshold_column: src.threshold_column,
                                destination: e.destination,
                            },
                            bindings.update(
                                a.emission_binding as int,
                                EmissionBindingRow { bound_source: Some(a.bound_source), ..e },
                            ),
                        ))
                    },
                    None => Err(invalid),
                }
            }
        }
    }
}

/// Lowers the admitted bindings from `i` on, in order, after `compiled`.
pub open spec fn lower_conserved_from(
    bands: Seq<ConservedBandRow>,
    table: Seq<u32>,
    crossings: Seq<Option<CrossingSourceRow>>,
    has_native_lanes: bool,
    admitted: Seq<AdmittedConservedProgressRow>,
    i: int,
    bindings: Seq<EmissionBindingRow>,
    compiled: Seq<CompiledConservedProgressBinding>,
) -> Result<(Seq<CompiledConservedProgressBinding>, Seq<EmissionBindingRow>), ConservedProgressError>
    decreases admitted.len() - i,
{
    if i >= admitted.len() || i < 0 {
        Ok((compiled, bindings))
    } else {
        match lower_conserved_one(bands, table, crossings, has_native_lanes, admitted[i], bindings) {
            Err(e) => Err(e),
            Ok((c, b)) => lower_conserved_from(bands, table, crossings, has_native_lanes, admitted, i + 1, b, compiled.push(c)),
        }
    }
}

/// Whether `b` is listed in `table[start .. start + len]`.
fn listed(table: &Vec<u32>, start: u32, len: u32, b: u32) -> (r: bool)
    requires
        start + len <= table@.len(),
    ensures
        r == listed_in_span(table@, start as int, len as int, b),
{
    let n = table.len();
    assert(start + len <= n);
    let end = start as usize + len as usize;
    let mut k: usize = start as usize;
    while k < end
        invariant
            start <= k <= end == start + len <= table@.len(),
            forall|m: int| start <= m < k ==> table@[m] != b,
        decreases end - k,
    {
        if table[k] == b {
            assert(table@[k as int] == b);
            return true;
        }
        k = k + 1;
    }
    false
}

/// Lowers the conserved-progress bindings in order, as `lower_conserved_from` states: gives the
/// lowered bindings and the emission bindings with each one's bound source written in, or the
/// first refusal.
pub fn lower_conserved_progress_bindings(
    bands: &Vec<ConservedBandRow>,
    band_binding_indices: &Vec<u32>,
    crossings: &Vec<Option<CrossingSourceRow>>,
    bindings: &Vec<EmissionBindingRow>,
    admitted: &Vec<AdmittedConservedProgressRow>,
    has_native_lanes: bool,
) -> (r: Result<(Vec<CompiledConservedProgressBinding>, Vec<EmissionBindingRow>), ConservedProgressError>)
    requires
        forall|i: int| 0 <= i < bands@.len() ==> (#[trigger] bands@[i]).emission_binding_start
            + bands@[i].emission_binding_len <= u32::MAX,
    ensures
        match r {
            Ok((compiled, out)) => lower_conserved_from(
                bands@, band_binding_indices@, crossings@, has_native_lanes, admitted@, 0, bindings@, Seq::empty(),
            ) == Ok::<(Seq<CompiledConservedProgressBinding>, Seq<EmissionBindingRow>), ConservedProgressError>((compiled@, out@)),
            Err(e) => lower_conserved_from(
                bands@, band_binding_indices@, crossings@, has_native_lanes, admitted@, 0, bindings@, Seq::empty(),
            ) == Err::<(Seq<CompiledConservedProgressBinding>, Seq<EmissionBindingRow>), ConservedProgressError>(e),
        },
{
    let ghost target = lower_conserved_from(
        bands@, band_binding_indices@, crossings@, has_native_lanes, admitted@, 0, bindings@, Seq::empty(),
    );
    let mut out: Vec<EmissionBindingRow> = Vec::new();
    let mut k: usize = 0;
    while k < bindings.len()
        invariant
            k <= bindings@.len(),
            out@ == bindings@.take(k as int),
        decreases bindings@.len() - k,
    {
        out.push(bindings[k]);
        k = k + 1;
        proof {
            assert(out@ =~= bindings@.take(k as int));
        }
    }
    proof {
        assert(bindings@.take(bindings@.len() as int) =~= bindings@);
    }
    let mut compiled: Vec<CompiledConservedProgressBinding> = Vec::new();
    let mut i: usize = 0;
    while i < admitted.len()
        invariant
            i <= admitted@.len(),
            forall|j: int| 0 <= j < bands@.len() ==> (#[trigger] bands@[j]).emission_binding_start
                + bands@[j].emission_binding_len <= u32::MAX,
            target == lower_conserved_from(
                bands@, band_binding_indices@, crossings@, has_native_lanes, admitted@, 0, bindings@, Seq::empty(),
            ),
            target == lower_conserved_from(
                bands@, band_binding_indices@, crossings@, has_native_lanes, admitted@, i as int, out@, compiled@,
            ),
        decreases admitted@.len() - i,
    {
        let a = admitted[i];
        let invalid = ConservedProgressError::InvalidConservedProgressBinding {
            band_table_index: a.band_table_index,
            emission_binding_index: a.emission_binding,
        };
        if a.band_table_index as usize >= bands.len() {
            return Err(invalid);
        }
        let band = bands[a.band_table_index as usize];
        if band.threshold_registration != a.bound_threshold_registration {
            return Err(invalid);
        }
        let end = band.emission_binding_start + band.emission_binding_len;
        if end as usize > band_binding_indices.len() {
            return Err(invalid);
        }
        if !listed(band_binding_indices, band.emission_binding_start, band.emission_binding_len, a.emission_binding) {
            return Err(invalid);
        }
        if !has_native_lanes {
            return Err(ConservedProgressError::ConservedProgressRequiresNativeLane { emission_binding_index: a.emission_binding });
        }
        if a.emission_binding as usize >= out.len() {
            return Err(invalid);
        }
        let e = out[a.emission_binding as usize];
        if e.bound_source.is_some() {
            return Err(invalid);
        }
        match e.destination {
            EmissionDestinationKind::Other(_) => {
                return Err(ConservedProgressError::ConservedProgressDestinationDeferred { destination: e.destination });
            },
            _ => {},
        }
        let crossing = if (a.band_table_index as usize) < crossings.len() {
            crossings[a.band_table_index as usize]
        } else {
            None
        };
        let src = match crossing {
            Some(src) => src,
            None => {
                return Err(invalid);
            },
        };
        if src.threshold_registration != band.threshold_registration {
            return Err(invalid);
        }
        let c = CompiledConservedProgressBinding {
            template: a.template,
            band_table_index: a.band_table_index,
            emission_binding_index: a.emission_binding,
            bound_source: a.bound_source,
            threshold_column: src.threshold_column,
            destination: e.destination,
        };
        out.set(a.emission_binding as usize, EmissionBindingRow { bound_source: Some(a.bound_source), ..e });
        compiled.push(c);
        i = i + 1;
    }
    Ok((compiled, out))
}

} // verus!
