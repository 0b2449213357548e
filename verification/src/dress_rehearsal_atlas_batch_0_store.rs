//! Integer side of the dense child-contribution store: keys, class ids of location roles, the
//! constructed co-location occupants and the pirate fleet lookups.
//!
//! Contribution values and their aggregation are `f32` and are not part of this library; the
//! integer seed hash behind each fixture value and the store key order are.
pub use crate::dress_rehearsal_atlas_batch_0_loc::cell_index;
use crate::dress_rehearsal_atlas_batch_0_loc::{
    first_location, fleet_occupants_for, location_view, occupant_view, ChannelDescriptor, ChannelKind, GridCell,
    LocationGridDescriptor, LocationId, LocationMaterialization, LocationRole, OccupantPlacement,
    OccupantView, Owner, ChannelSet, systems_occupants,
};
use crate::dress_rehearsal_atlas_batch_0_pack::{CLASS_GALACTIC_20X20, CLASS_PLANET_SURFACE_10X10, CLASS_STAR_SYSTEM_10X10};
use crate::replay_hash::{fnv, fnv_step, fnv_whole_words, FNV_OFFSET_BASIS};
use crate::text_match::{contains_text, has_infix, has_prefix, lemma_text_lt_irreflexive, lemma_text_lt_total, lemma_text_lt_transitive, starts_with_text, text_less, text_lt};
use vstd::prelude::*;

verus! {

pub const DRESS_REHEARSAL_ATLAS_BATCH_0_STORE_ID: &'static str = "ATLAS-BATCH-0-STORE";

/// Key of a dense store slot.
#[derive(Clone, Copy, Debug, PartialEq, Eq, Hash)]
pub struct StoreKey {
    pub location_id: LocationId,
    pub cell_index: u32,
    pub channel: ChannelKind,
    pub owner: Owner,
}

/// The canonical location materialization.
pub fn canonical_materialization() -> (r: LocationMaterialization)
    ensures
        r.total_cell_slots == 3000,
        r.locations@.map_values(|l: LocationGridDescriptor| location_view(l))
            == crate::dress_rehearsal_atlas_batch_0_loc::expected_locations(crate::dress_rehearsal_atlas_batch_0_gen::systems_spec(
            crate::dress_rehearsal_atlas_batch_0_gen::DRESS_REHEARSAL_DEFAULT_SEED)),
        r.occupants@.map_values(|o: OccupantPlacement| occupant_view(o)) == systems_occupants(
            crate::dress_rehearsal_atlas_batch_0_gen::systems_spec(
            crate::dress_rehearsal_atlas_batch_0_gen::DRESS_REHEARSAL_DEFAULT_SEED))
            + fleet_occupants_for(crate::dress_rehearsal_atlas_batch_0_gen::systems_spec(
            crate::dress_rehearsal_atlas_batch_0_gen::DRESS_REHEARSAL_DEFAULT_SEED)),
{
    LocationMaterialization::canonical()
}

/// The tile class id of a location role.
pub fn class_id_for_location_role(role: LocationRole) -> (r: &'static str)
    ensures
        r == (match role {
            LocationRole::Galactic => CLASS_GALACTIC_20X20,
            LocationRole::StarSystem => CLASS_STAR_SYSTEM_10X10,
            LocationRole::PlanetSurface => CLASS_PLANET_SURFACE_10X10,
        }),
{
    match role {
        LocationRole::Galactic => CLASS_GALACTIC_20X20,
        LocationRole::StarSystem => CLASS_STAR_SYSTEM_10X10,
        LocationRole::PlanetSurface => CLASS_PLANET_SURFACE_10X10,
    }
}

/// Index of the first occupant whose source id starts with `p`.
pub open spec fn first_with_prefix(occ: Seq<OccupantPlacement>, p: Seq<char>) -> Option<int>
    decreases occ.len(),
{
    if occ.len() == 0 {
        None
    } else {
        match first_with_prefix(occ.drop_last(), p) {
            Some(i) => Some(i),
            None => if has_prefix(occ.last().source_id@, p) { Some(occ.len() - 1) } else { None },
        }
    }
}

/// Index of the first occupant whose source id contains `p`.
pub open spec fn first_with_infix(occ: Seq<OccupantPlacement>, p: Seq<char>) -> Option<int>
    decreases occ.len(),
{
    if occ.len() == 0 {
        None
    } else {
        match first_with_infix(occ.drop_last(), p) {
            Some(i) => Some(i),
            None => if has_infix(occ.last().source_id@, p) { Some(occ.len() - 1) } else { None },
        }
    }
}

/// Index of the first occupant whose source id is `id`.
pub open spec fn first_with_id(occ: Seq<OccupantPlacement>, id: Seq<char>) -> Option<int>
    decreases occ.len(),
{
    if occ.len() == 0 {
        None
    } else {
        match first_with_id(occ.drop_last(), id) {
            Some(i) => Some(i),
            None => if occ.last().source_id@ == id { Some(occ.len() - 1) } else { None },
        }
    }
}

/// How an occupant's source id is matched.
pub enum SourceMatch {
    Prefix,
    Infix,
    Exact,
}

/// The first occupant matching `text` under the rule.
pub open spec fn first_match(occ: Seq<OccupantPlacement>, rule: SourceMatch, text: Seq<char>) -> Option<int> {
    match rule {
        SourceMatch::Prefix => first_with_prefix(occ, text),
        SourceMatch::Infix => first_with_infix(occ, text),
        SourceMatch::Exact => first_with_id(occ, text),
    }
}

fn source_matches(source: &String, rule: &SourceMatch, text: &str) -> (r: bool)
    ensures
        r == (match rule {
            SourceMatch::Prefix => has_prefix(source@, text@),
            SourceMatch::Infix => has_infix(source@, text@),
            SourceMatch::Exact => source@ == text@,
        }),
{
    match rule {
        SourceMatch::Prefix => starts_with_text(source.as_str(), text),
        SourceMatch::Infix => contains_text(source.as_str(), text),
        SourceMatch::Exact => {
            let t: String = text.to_owned();
            *source == t
        },
    }
}

fn find_occupant(occ: &Vec<OccupantPlacement>, rule: SourceMatch, text: &str) -> (r: Option<usize>)
    ensures
        match first_match(occ@, rule, text@) {
            Some(i) => 0 <= i < occ@.len() && r == Some(i as usize),
            None => r is None,
        },
{
    let mut k: usize = 0;
    while k < occ.len()
        invariant
            k <= occ@.len(),
            first_match(occ@.take(k as int), rule, text@) is None,
        decreases occ@.len() - k,
    {
        proof {
            assert(occ@.take(k + 1).drop_last() =~= occ@.take(k as int));
        }
        if source_matches(&occ[k].source_id, &rule, text) {
            proof { lemma_first_match_prefix(occ@, rule, text@, k as int); }
            return Some(k);
        }
        k = k + 1;
    }
    proof { assert(occ@.take(occ@.len() as int) =~= occ@); }
    None
}

proof fn lemma_first_match_prefix(occ: Seq<OccupantPlacement>, rule: SourceMatch, text: Seq<char>, k: int)
    requires
        0 <= k < occ.len(),
        first_match(occ.take(k), rule, text) is None,
        match rule {
            SourceMatch::Prefix => has_prefix(occ[k].source_id@, text),
            SourceMatch::Infix => has_infix(occ[k].source_id@, text),
            SourceMatch::Exact => occ[k].source_id@ == text,
        },
    ensures
        first_match(occ, rule, text) == Some(k),
    decreases occ.len(),
{
    if k < occ.len() - 1 {
        let init = occ.drop_last();
        assert(init.take(k) =~= occ.take(k));
        lemma_first_match_prefix(init, rule, text, k);
    } else {
        assert(occ.drop_last() =~= occ.take(k));
    }
}

/// The ids of the pirate ship occupants (source id starting with `pirate-ship`), in order.
pub open spec fn pirate_ids(occ: Seq<OccupantPlacement>) -> Seq<Seq<char>>
    decreases occ.len(),
{
    if occ.len() == 0 {
        Seq::empty()
    } else {
        let p = pirate_ids(occ.drop_last());
        if has_prefix(occ.last().source_id@, "pirate-ship"@) { p.push(occ.last().source_id@) } else { p }
    }
}

/// Texts sorted in ascending order.
pub open spec fn texts_sorted(s: Seq<Seq<char>>) -> bool {
    forall|i: int, j: int| 0 <= i < j < s.len() ==> !text_lt(#[trigger] s[j], #[trigger] s[i])
}

fn sorted_insert(out: &mut Vec<String>, x: String)
    requires
        texts_sorted(old(out)@.map_values(|s: String| s@)),
    ensures
        texts_sorted(final(out)@.map_values(|s: String| s@)),
        final(out)@.map_values(|s: String| s@).to_multiset()
            == old(out)@.map_values(|s: String| s@).to_multiset().insert(x@),
{
    broadcast use vstd::seq_lib::to_multiset_insert;
    let ghost views = out@.map_values(|s: String| s@);
    let mut p: usize = 0;
    while p < out.len()
        invariant
            p <= out@.len(),
            views == out@.map_values(|s: String| s@),
            forall|i: int| 0 <= i < p ==> !text_lt(x@, #[trigger] views[i]),
        ensures
            p <= out@.len(),
            p < out@.len() ==> text_lt(x@, views[p as int]),
            forall|i: int| 0 <= i < p ==> !text_lt(x@, #[trigger] views[i]),
        decreases out@.len() - p,
    {
        if text_less(x.as_str(), out[p].as_str()) {
            break;
        }
        p = p + 1;
    }
    let ghost xv = x@;
    out.insert(p, x);
    proof {
        let nv = out@.map_values(|s: String| s@);
        assert(nv =~= views.insert(p as int, xv));
        assert forall|i: int, j: int| 0 <= i < j < nv.len() implies !text_lt(#[trigger] nv[j], #[trigger] nv[i]) by {
            if i < p && j == p {
            } else if i == p && j > p {
                if text_lt(views[j - 1], xv) {
                    lemma_text_lt_transitive(views[j - 1], xv, views[p as int]);
                    if j - 1 == p {
                        lemma_text_lt_irreflexive(views[p as int]);
                    }
                }
            } else if i < p && j > p {
                assert(!text_lt(views[j - 1], views[i]));
            } else if i > p {
                assert(!text_lt(views[j - 1], views[i - 1]));
            } else {
                assert(!text_lt(views[j], views[i]));
            }
        }
    }
}

/// The pirate ship source ids, sorted ascending.
pub fn pirate_fleet_source_ids(materialization: &LocationMaterialization) -> (r: Vec<String>)
    ensures
        texts_sorted(r@.map_values(|s: String| s@)),
        r@.map_values(|s: String| s@).to_multiset() == pirate_ids(materialization.occupants@).to_multiset(),
{
    broadcast use vstd::seq_lib::to_multiset_build;
    let occ = &materialization.occupants;
    let mut out: Vec<String> = Vec::new();
    let mut k: usize = 0;
    proof {
        assert(out@.map_values(|s: String| s@) =~= Seq::<Seq<char>>::empty());
        assert(pirate_ids(occ@.take(0)) =~= Seq::<Seq<char>>::empty());
    }
    while k < occ.len()
        invariant
            k <= occ@.len(),
            texts_sorted(out@.map_values(|s: String| s@)),
            out@.map_values(|s: String| s@).to_multiset() == pirate_ids(occ@.take(k as int)).to_multiset(),
        decreases occ@.len() - k,
    {
        proof {
            assert(occ@.take(k + 1).drop_last() =~= occ@.take(k as int));
        }
        let ghost before = out@.map_values(|s: String| s@);
        if starts_with_text(occ[k].source_id.as_str(), "pirate-ship") {
            let id = occ[k].source_id.clone();
            sorted_insert(&mut out, id);
            proof {
                assert(id@ == occ@[k as int].source_id@);
                assert(out@.map_values(|s: String| s@).to_multiset() == before.to_multiset().insert(id@));
                vstd::seq_lib::to_multiset_build(pirate_ids(occ@.take(k as int)), id@);
                assert(occ@.take(k + 1).last() == occ@[k as int]);
                assert(pirate_ids(occ@.take(k + 1)) == pirate_ids(occ@.take(k as int)).push(occ@[k as int].source_id@));
            }
        } else {
            proof {
                assert(occ@.take(k + 1).last() == occ@[k as int]);
                assert(pirate_ids(occ@.take(k + 1)) == pirate_ids(occ@.take(k as int)));
            }
        }
        k = k + 1;
    }
    proof {
        assert(occ@.take(occ@.len() as int) =~= occ@);
    }
    out
}

/// Every pirate id is the source id of some occupant.
proof fn lemma_pirate_ids_from_occupants(occ: Seq<OccupantPlacement>, k: int)
    requires
        0 <= k < pirate_ids(occ).len(),
    ensures
        exists|i: int| 0 <= i < occ.len() && (#[trigger] occ[i]).source_id@ == pirate_ids(occ)[k],
    decreases occ.len(),
{
    let init = occ.drop_last();
    if k < pirate_ids(init).len() {
        lemma_pirate_ids_from_occupants(init, k);
        let i = choose|i: int| 0 <= i < init.len() && (#[trigger] init[i]).source_id@ == pirate_ids(init)[k];
        assert(occ[i] == init[i]);
    } else {
        assert(occ[occ.len() - 1].source_id@ == pirate_ids(occ)[k]);
    }
}

proof fn lemma_first_with_id_found(occ: Seq<OccupantPlacement>, id: Seq<char>, i: int)
    requires
        0 <= i < occ.len(),
        occ[i].source_id@ == id,
    ensures
        first_with_id(occ, id) matches Some(j) && 0 <= j < occ.len() && occ[j].source_id@ == id,
    decreases occ.len(),
{
    let init = occ.drop_last();
    if i < occ.len() - 1 {
        assert(init[i] == occ[i]);
        lemma_first_with_id_found(init, id, i);
    } else {
        if let Some(j) = first_with_id(init, id) {
            lemma_first_with_id_found_any(init, id);
        }
    }
}

proof fn lemma_first_with_id_found_any(occ: Seq<OccupantPlacement>, id: Seq<char>)
    ensures
        first_with_id(occ, id) matches Some(j) ==> 0 <= j < occ.len() && occ[j].source_id@ == id,
    decreases occ.len(),
{
    if occ.len() > 0 {
        lemma_first_with_id_found_any(occ.drop_last(), id);
    }
}

/// Location and cell of the first pirate ship (all pirates share one galactic cell), with its
/// dense cell index.
pub fn canonical_pirate_shared_galactic_cell(materialization: &LocationMaterialization) -> (r: (LocationId, u32, u32, u32))
    requires
        pirate_ids(materialization.occupants@).len() == 10,
        ({
            let occ = materialization.occupants@;
            let f = occ[first_with_id(occ, pirate_ids(occ)[0]).unwrap()];
            &&& first_location(materialization.locations@, f.location_id) is Some
            &&& ({
                let l = materialization.locations@[first_location(materialization.locations@, f.location_id).unwrap()];
                l.map_base + f.cell.y * l.width + f.cell.x <= u32::MAX
            })
        }),
    ensures
        ({
            let occ = materialization.occupants@;
            let f = occ[first_with_id(occ, pirate_ids(occ)[0]).unwrap()];
            let l = materialization.locations@[first_location(materialization.locations@, f.location_id).unwrap()];
            r == (f.location_id, f.cell.x, f.cell.y, (l.map_base + f.cell.y * l.width + f.cell.x) as u32)
        }),
{
    let occ = &materialization.occupants;
    proof {
        reveal_strlit("pirate-ship");
        lemma_first_pirate(occ@);
    }
    let occ_len = occ.len();
    let found = find_occupant(occ, SourceMatch::Prefix, "pirate-ship");
    proof {
        assert(first_match(occ@, SourceMatch::Prefix, "pirate-ship"@) == first_with_prefix(occ@, "pirate-ship"@));
        assert(found is Some);
    }
    let p: usize = found.unwrap();
    proof {
        let fp = first_with_prefix(occ@, "pirate-ship"@);
        assert(fp is Some);
        assert(0 <= fp.unwrap() < occ@.len());
        assert(occ@.len() == occ_len);
        assert(found == Some(fp.unwrap() as usize));
        assert(fp == Some(p as int));
        assert(occ@[fp.unwrap()].source_id@ == pirate_ids(occ@)[0]);
        assert(occ@[p as int].source_id@ == pirate_ids(occ@)[0]);
    }
    let first_id: String = occ[p].source_id.clone();
    proof {
        lemma_first_with_id_found(occ@, first_id@, p as int);
    }
    let found_q = find_occupant(occ, SourceMatch::Exact, first_id.as_str());
    proof {
        assert(first_match(occ@, SourceMatch::Exact, first_id@) == first_with_id(occ@, first_id@));
    }
    let q: usize = found_q.unwrap();
    proof {
        assert(first_id@ == pirate_ids(occ@)[0]);
        assert(first_with_id(occ@, pirate_ids(occ@)[0]) == Some(q as int));
    }
    let f = &occ[q];
    let location = materialization.location(f.location_id);
    match location {
        Some(l) => {
            let index = cell_index(l.map_base, l.width, f.cell.x, f.cell.y);
            (f.location_id, f.cell.x, f.cell.y, index)
        },
        None => (f.location_id, f.cell.x, f.cell.y, 0),
    }
}

/// The first pirate id belongs to the first occupant whose id starts with `pirate-ship`.
proof fn lemma_first_pirate(occ: Seq<OccupantPlacement>)
    requires
        pirate_ids(occ).len() > 0,
    ensures
        first_with_prefix(occ, "pirate-ship"@) matches Some(p) && 0 <= p < occ.len()
            && occ[p].source_id@ == pirate_ids(occ)[0],
    decreases occ.len(),
{
    let init = occ.drop_last();
    if pirate_ids(init).len() > 0 {
        lemma_first_pirate(init);
        let p = first_with_prefix(init, "pirate-ship"@).unwrap();
        assert(init[p] == occ[p]);
        assert(pirate_ids(occ)[0] == pirate_ids(init)[0]);
    } else {
        lemma_no_prefix_when_no_pirates(init);
    }
}

proof fn lemma_no_prefix_when_no_pirates(occ: Seq<OccupantPlacement>)
    requires
        pirate_ids(occ).len() == 0,
    ensures
        first_with_prefix(occ, "pirate-ship"@) is None,
    decreases occ.len(),
{
    if occ.len() > 0 {
        let init = occ.drop_last();
        if pirate_ids(init).len() > 0 {
            lemma_pirate_len_monotone(occ);
        }
        lemma_no_prefix_when_no_pirates(init);
    }
}

proof fn lemma_pirate_len_monotone(occ: Seq<OccupantPlacement>)
    requires
        occ.len() > 0,
    ensures
        pirate_ids(occ.drop_last()).len() <= pirate_ids(occ).len(),
{
}

fn copy_channel_vec(v: &Vec<ChannelDescriptor>) -> (r: Vec<ChannelDescriptor>)
    ensures
        r@ == v@,
{
    let mut out: Vec<ChannelDescriptor> = Vec::new();
    let mut k: usize = 0;
    while k < v.len()
        invariant
            k <= v@.len(),
            out@ == v@.take(k as int),
        decreases v@.len() - k,
    {
        out.push(v[k]);
        proof { assert(out@ =~= v@.take(k + 1)); }
        k = k + 1;
    }
    proof { assert(v@.take(v@.len() as int) =~= v@); }
    out
}

fn copy_location(l: &LocationGridDescriptor) -> (r: LocationGridDescriptor)
    ensures
        location_view(r) == location_view(*l),
{
    LocationGridDescriptor {
        id: l.id,
        role: l.role,
        parent: l.parent,
        map_base: l.map_base,
        width: l.width,
        height: l.height,
        channels: ChannelSet { channels: copy_channel_vec(&l.channels.channels) },
    }
}

fn copy_occupant(o: &OccupantPlacement) -> (r: OccupantPlacement)
    ensures
        occupant_view(r) == occupant_view(*o),
{
    OccupantPlacement {
        kind: o.kind,
        owner: o.owner,
        location_id: o.location_id,
        cell: o.cell,
        mobility: o.mobility,
        channels: copy_channel_vec(&o.channels),
        surface_location: o.surface_location,
        source_id: o.source_id.clone(),
    }
}

fn copy_materialization(m: &LocationMaterialization) -> (r: LocationMaterialization)
    ensures
        r.locations@.map_values(|l: LocationGridDescriptor| location_view(l))
            == m.locations@.map_values(|l: LocationGridDescriptor| location_view(l)),
        r.occupants@.map_values(|o: OccupantPlacement| occupant_view(o))
            == m.occupants@.map_values(|o: OccupantPlacement| occupant_view(o)),
        r.total_cell_slots == m.total_cell_slots,
{
    let mut locations: Vec<LocationGridDescriptor> = Vec::new();
    let mut k: usize = 0;
    while k < m.locations.len()
        invariant
            k <= m.locations@.len(),
            locations@.map_values(|l: LocationGridDescriptor| location_view(l))
                == m.locations@.take(k as int).map_values(|l: LocationGridDescriptor| location_view(l)),
        decreases m.locations@.len() - k,
    {
        let ghost before = locations@.map_values(|l: LocationGridDescriptor| location_view(l));
        locations.push(copy_location(&m.locations[k]));
        proof {
            assert(locations@.map_values(|l: LocationGridDescriptor| location_view(l))
                =~= before.push(location_view(m.locations@[k as int])));
            assert(m.locations@.take(k + 1).map_values(|l: LocationGridDescriptor| location_view(l))
                =~= m.locations@.take(k as int).map_values(|l: LocationGridDescriptor| location_view(l)).push(location_view(m.locations@[k as int])));
            assert(locations@.map_values(|l: LocationGridDescriptor| location_view(l))
                =~= m.locations@.take(k + 1).map_values(|l: LocationGridDescriptor| location_view(l)));
        }
        k = k + 1;
    }
    let mut occupants: Vec<OccupantPlacement> = Vec::new();
    let mut j: usize = 0;
    while j < m.occupants.len()
        invariant
            j <= m.occupants@.len(),
            occupants@.map_values(|o: OccupantPlacement| occupant_view(o))
                == m.occupants@.take(j as int).map_values(|o: OccupantPlacement| occupant_view(o)),
        decreases m.occupants@.len() - j,
    {
        let ghost before = occupants@.map_values(|o: OccupantPlacement| occupant_view(o));
        occupants.push(copy_occupant(&m.occupants[j]));
        proof {
            assert(occupants@.map_values(|o: OccupantPlacement| occupant_view(o))
                =~= before.push(occupant_view(m.occupants@[j as int])));
            assert(m.occupants@.take(j + 1).map_values(|o: OccupantPlacement| occupant_view(o))
                =~= m.occupants@.take(j as int).map_values(|o: OccupantPlacement| occupant_view(o)).push(occupant_view(m.occupants@[j as int])));
            assert(occupants@.map_values(|o: OccupantPlacement| occupant_view(o))
                =~= m.occupants@.take(j + 1).map_values(|o: OccupantPlacement| occupant_view(o)));
        }
        j = j + 1;
    }
    proof {
        assert(m.locations@.take(m.locations@.len() as int) =~= m.locations@);
        assert(m.occupants@.take(m.occupants@.len() as int) =~= m.occupants@);
    }
    LocationMaterialization { locations, occupants, total_cell_slots: m.total_cell_slots }
}

/// An occupant moved to cell (3, 3) of location 1 under a new source id and channel list.
pub open spec fn constructed(v: OccupantView, source: Seq<char>, channels: Seq<ChannelDescriptor>) -> OccupantView {
    (v.0, v.1, LocationId(1), GridCell { x: 3, y: 3 }, v.4, channels, v.6, source)
}

/// The occupants the co-location fixture needs are present: a patrol, a pirate ship, planet 0
/// and a starport.
pub open spec fn co_location_sources_present(occ: Seq<OccupantPlacement>) -> bool {
    &&& first_with_infix(occ, "patrol"@) is Some
    &&& first_with_prefix(occ, "pirate-ship"@) is Some
    &&& first_with_id(occ, "planet-0"@) is Some
    &&& first_with_prefix(occ, "starport-"@) is Some
}

/// Copies the materialization and co-locates three constructed occupants on cell (3, 3) of
/// star system location 1: a copy of planet 0 carrying the first starport's channels, a copy of
/// the first patrol and a copy of the first pirate ship.
pub fn register_constructed_co_location_occupants(materialization: &LocationMaterialization) -> (r: LocationMaterialization)
    requires
        co_location_sources_present(materialization.occupants@),
    ensures
        r.locations@.map_values(|l: LocationGridDescriptor| location_view(l))
            == materialization.locations@.map_values(|l: LocationGridDescriptor| location_view(l)),
        r.total_cell_slots == materialization.total_cell_slots,
        ({
            let occ = materialization.occupants@;
            let patrol = occ[first_with_infix(occ, "patrol"@).unwrap()];
            let pirate = occ[first_with_prefix(occ, "pirate-ship"@).unwrap()];
            let planet = occ[first_with_id(occ, "planet-0"@).unwrap()];
            let port = occ[first_with_prefix(occ, "starport-"@).unwrap()];
            r.occupants@.map_values(|o: OccupantPlacement| occupant_view(o))
                == occ.map_values(|o: OccupantPlacement| occupant_view(o)) + seq![
                    constructed(occupant_view(planet), "constructed-planet"@, port.channels@),
                    constructed(occupant_view(patrol), "constructed-patrol"@, patrol.channels@),
                    constructed(occupant_view(pirate), "constructed-pirate"@, pirate.channels@),
                ]
        }),
{
    let mut extended = copy_materialization(materialization);
    let occ = &materialization.occupants;
    let occ_len = occ.len();
    let patrol_i = find_occupant(occ, SourceMatch::Infix, "patrol").unwrap();
    let pirate_i = find_occupant(occ, SourceMatch::Prefix, "pirate-ship").unwrap();
    let planet_i = find_occupant(occ, SourceMatch::Exact, "planet-0").unwrap();
    let port_i = find_occupant(occ, SourceMatch::Prefix, "starport-").unwrap();
    let target_location = LocationId(1);
    let target_cell = GridCell { x: 3, y: 3 };
    let mut planet = copy_occupant(&occ[planet_i]);
    planet.source_id = "constructed-planet".to_owned();
    planet.location_id = target_location;
    planet.cell = target_cell;
    planet.channels = copy_channel_vec(&occ[port_i].channels);
    let mut patrol = copy_occupant(&occ[patrol_i]);
    patrol.source_id = "constructed-patrol".to_owned();
    patrol.location_id = target_location;
    patrol.cell = target_cell;
    let mut pirate = copy_occupant(&occ[pirate_i]);
    pirate.source_id = "constructed-pirate".to_owned();
    pirate.location_id = target_location;
    pirate.cell = target_cell;
    let ghost base = extended.occupants@.map_values(|o: OccupantPlacement| occupant_view(o));
    let ghost pv = occupant_view(planet);
    let ghost tv = occupant_view(patrol);
    let ghost iv = occupant_view(pirate);
    extended.occupants.push(planet);
    extended.occupants.push(patrol);
    extended.occupants.push(pirate);
    proof {
        assert(occ@.len() == occ_len);
        assert(extended.occupants@.map_values(|o: OccupantPlacement| occupant_view(o)) =~= base + seq![pv, tv, iv]);
    }
    extended
}

/// What an occupant is, read from its source id.
#[derive(Clone, Copy, Debug, PartialEq, Eq)]
pub enum OccupantKindName {
    Planet,
    Starport,
    Factory,
    Pop,
    Patrol,
    Pirate,
}

/// The kind a source id names: by prefix `planet-`, `starport-`, `factory-`, `pop-`, else by
/// containing `patrol` or `pirate`, in that order of precedence.
pub open spec fn kind_of_source(id: Seq<char>) -> Option<OccupantKindName> {
    if has_prefix(id, "planet-"@) {
        Some(OccupantKindName::Planet)
    } else if has_prefix(id, "starport-"@) {
        Some(OccupantKindName::Starport)
    } else if has_prefix(id, "factory-"@) {
        Some(OccupantKindName::Factory)
    } else if has_prefix(id, "pop-"@) {
        Some(OccupantKindName::Pop)
    } else if has_infix(id, "patrol"@) {
        Some(OccupantKindName::Patrol)
    } else if has_infix(id, "pirate"@) {
        Some(OccupantKindName::Pirate)
    } else {
        None
    }
}

/// Reads the occupant kind from a source id.
pub fn occupant_kind_name(source_id: &str) -> (r: Option<OccupantKindName>)
    ensures
        r == kind_of_source(source_id@),
{
    proof {
        reveal_strlit("planet-");
        reveal_strlit("starport-");
        reveal_strlit("factory-");
        reveal_strlit("pop-");
        reveal_strlit("patrol");
        reveal_strlit("pirate");
    }
    if starts_with_text(source_id, "planet-") {
        Some(OccupantKindName::Planet)
    } else if starts_with_text(source_id, "starport-") {
        Some(OccupantKindName::Starport)
    } else if starts_with_text(source_id, "factory-") {
        Some(OccupantKindName::Factory)
    } else if starts_with_text(source_id, "pop-") {
        Some(OccupantKindName::Pop)
    } else if contains_text(source_id, "patrol") {
        Some(OccupantKindName::Patrol)
    } else if contains_text(source_id, "pirate") {
        Some(OccupantKindName::Pirate)
    } else {
        None
    }
}

/// The channel kinds of an occupant's descriptors, in order.
pub open spec fn kinds_of(channels: Seq<ChannelDescriptor>) -> Seq<ChannelKind> {
    channels.map_values(|c: ChannelDescriptor| c.kind)
}

/// `kinds` with `k` appended unless already present.
pub open spec fn with_kind(kinds: Seq<ChannelKind>, k: ChannelKind) -> Seq<ChannelKind> {
    if kinds.contains(k) { kinds } else { kinds.push(k) }
}

/// The channels an occupant contributes to: its declared channels, plus the fleet-strength
/// channel of its owner side for patrols (Terran) and pirates (Pirate) when not declared.
pub open spec fn channels_for_source_spec(o: OccupantPlacement) -> Seq<ChannelKind> {
    let kinds = kinds_of(o.channels@);
    match kind_of_source(o.source_id@) {
        Some(OccupantKindName::Patrol) => with_kind(kinds, ChannelKind::FleetStrength(Owner::Terran)),
        Some(OccupantKindName::Pirate) => with_kind(kinds, ChannelKind::FleetStrength(Owner::Pirate)),
        _ => kinds,
    }
}

fn push_unless_present(kinds: &mut Vec<ChannelKind>, k: ChannelKind)
    ensures
        final(kinds)@ == with_kind(old(kinds)@, k),
{
    let mut i: usize = 0;
    while i < kinds.len()
        invariant
            i <= kinds@.len(),
            forall|j: int| 0 <= j < i ==> kinds@[j] != k,
        decreases kinds@.len() - i,
    {
        if kinds[i] == k {
            proof { assert(kinds@.contains(k)); }
            return;
        }
        i = i + 1;
    }
    proof { assert(!kinds@.contains(k)); }
    kinds.push(k);
}

/// The channels the occupant with `source_id` contributes to.
pub fn channels_for_source(materialization: &LocationMaterialization, source_id: &str) -> (r: Vec<ChannelKind>)
    requires
        first_with_id(materialization.occupants@, source_id@) is Some,
    ensures
        r@ == channels_for_source_spec(materialization.occupants@[first_with_id(materialization.occupants@, source_id@).unwrap()]),
{
    let occ = &materialization.occupants;
    let occ_len = occ.len();
    let found = find_occupant(occ, SourceMatch::Exact, source_id);
    proof {
        assert(first_match(occ@, SourceMatch::Exact, source_id@) == first_with_id(occ@, source_id@));
        assert(occ@.len() == occ_len);
    }
    let i = found.unwrap();
    let occupant = &occ[i];
    proof {
        assert(i as int == first_with_id(occ@, source_id@).unwrap());
    }
    let mut kinds: Vec<ChannelKind> = Vec::new();
    let mut k: usize = 0;
    while k < occupant.channels.len()
        invariant
            k <= occupant.channels@.len(),
            kinds@ == kinds_of(occupant.channels@).take(k as int),
        decreases occupant.channels@.len() - k,
    {
        kinds.push(occupant.channels[k].kind);
        proof { assert(kinds@ =~= kinds_of(occupant.channels@).take(k + 1)); }
        k = k + 1;
    }
    proof { assert(kinds_of(occupant.channels@).take(occupant.channels@.len() as int) =~= kinds_of(occupant.channels@)); }
    match occupant_kind_name(occupant.source_id.as_str()) {
        Some(OccupantKindName::Patrol) => push_unless_present(&mut kinds, ChannelKind::FleetStrength(Owner::Terran)),
        Some(OccupantKindName::Pirate) => push_unless_present(&mut kinds, ChannelKind::FleetStrength(Owner::Pirate)),
        _ => {},
    }
    kinds
}


/// Rank of a channel in the store key order.
pub open spec fn channel_rank_spec(channel: ChannelKind) -> u8 {
    match channel {
        ChannelKind::Labor => 0,
        ChannelKind::Production => 1,
        ChannelKind::ProductionPassThrough => 2,
        ChannelKind::Disruption => 3,
        ChannelKind::PatrolPresence => 4,
        ChannelKind::PiratePresence => 5,
        ChannelKind::FleetStrength(Owner::Terran) => 6,
        ChannelKind::FleetStrength(Owner::Pirate) => 7,
    }
}

/// Rank of an owner in the store key order.
pub open spec fn owner_rank_spec(owner: Owner) -> u8 {
    match owner {
        Owner::Terran => 0,
        Owner::Pirate => 1,
    }
}

/// Rank of a channel in the store key order.
pub fn store_key_channel_rank(channel: ChannelKind) -> (r: u8)
    ensures
        r == channel_rank_spec(channel),
{
    match channel {
        ChannelKind::Labor => 0,
        ChannelKind::Production => 1,
        ChannelKind::ProductionPassThrough => 2,
        ChannelKind::Disruption => 3,
        ChannelKind::PatrolPresence => 4,
        ChannelKind::PiratePresence => 5,
        ChannelKind::FleetStrength(Owner::Terran) => 6,
        ChannelKind::FleetStrength(Owner::Pirate) => 7,
    }
}

/// Rank of an owner in the store key order.
pub fn store_key_owner_rank(owner: Owner) -> (r: u8)
    ensures
        r == owner_rank_spec(owner),
{
    match owner {
        Owner::Terran => 0,
        Owner::Pirate => 1,
    }
}

/// Store key order: by location, then cell, then channel rank, then owner rank.
pub open spec fn key_lt(a: StoreKey, b: StoreKey) -> bool {
    if a.location_id.0 != b.location_id.0 {
        a.location_id.0 < b.location_id.0
    } else if a.cell_index != b.cell_index {
        a.cell_index < b.cell_index
    } else if channel_rank_spec(a.channel) != channel_rank_spec(b.channel) {
        channel_rank_spec(a.channel) < channel_rank_spec(b.channel)
    } else {
        owner_rank_spec(a.owner) < owner_rank_spec(b.owner)
    }
}

/// Whether `a` comes before `b` in the store key order.
pub fn store_key_less(a: &StoreKey, b: &StoreKey) -> (r: bool)
    ensures
        r == key_lt(*a, *b),
{
    if a.location_id.0 != b.location_id.0 {
        return a.location_id.0 < b.location_id.0;
    }
    if a.cell_index != b.cell_index {
        return a.cell_index < b.cell_index;
    }
    let (ca, cb) = (store_key_channel_rank(a.channel), store_key_channel_rank(b.channel));
    if ca != cb {
        return ca < cb;
    }
    store_key_owner_rank(a.owner) < store_key_owner_rank(b.owner)
}

/// The store key order is a strict total order on keys: irreflexive, transitive, and any two
/// distinct keys are ordered one way.
pub proof fn lemma_store_key_order(a: StoreKey, b: StoreKey, c: StoreKey)
    ensures
        !key_lt(a, a),
        key_lt(a, b) && key_lt(b, c) ==> key_lt(a, c),
        a != b ==> key_lt(a, b) || key_lt(b, a),
{
    if a != b && !key_lt(a, b) && !key_lt(b, a) {
        assert(a.location_id == b.location_id);
        assert(a.channel == b.channel) by {
            assert(channel_rank_spec(a.channel) == channel_rank_spec(b.channel));
        }
        assert(a.owner == b.owner) by {
            assert(owner_rank_spec(a.owner) == owner_rank_spec(b.owner));
        }
    }
}

/// Seed mix of a channel in the fixture hash.
pub open spec fn channel_seed_spec(channel: ChannelKind) -> u64 {
    (channel_rank_spec(channel) + 1) as u64
}

/// Seed mix of a channel in the fixture hash.
pub fn channel_seed_mix(channel: ChannelKind) -> (r: u64)
    ensures
        r == channel_seed_spec(channel),
{
    match channel {
        ChannelKind::Labor => 1,
        ChannelKind::Production => 2,
        ChannelKind::ProductionPassThrough => 3,
        ChannelKind::Disruption => 4,
        ChannelKind::PatrolPresence => 5,
        ChannelKind::PiratePresence => 6,
        ChannelKind::FleetStrength(Owner::Terran) => 7,
        ChannelKind::FleetStrength(Owner::Pirate) => 8,
    }
}

/// The fixture seed hash of a source and channel: FNV-1a over the bytes of the source id, then
/// one more step with the channel's seed mix.
pub fn fixture_seed_hash(source_id: &str, channel: ChannelKind) -> (r: u64)
    ensures
        r == fnv_step(
            fnv_whole_words(FNV_OFFSET_BASIS, vstd::utf8::encode_utf8(source_id@).map_values(|b: u8| b as u64)),
            channel_seed_spec(channel),
        ),
{
    let bytes = source_id.as_bytes();
    let ghost words = bytes@.map_values(|b: u8| b as u64);
    let mut hash = FNV_OFFSET_BASIS;
    let mut i: usize = 0;
    proof {
        assert(words.take(0) =~= Seq::<u64>::empty());
    }
    while i < bytes.len()
        invariant
            i <= bytes@.len(),
            words == bytes@.map_values(|b: u8| b as u64),
            hash == fnv_whole_words(FNV_OFFSET_BASIS, words.take(i as int)),
        decreases bytes@.len() - i,
    {
        proof {
            assert(words.take(i as int + 1).drop_last() =~= words.take(i as int));
        }
        hash = fnv(hash, bytes[i] as u64);
        i = i + 1;
    }
    proof {
        assert(words.take(i as int) =~= words);
    }
    fnv(hash, channel_seed_mix(channel))
}

} // verus!
