//! Pack plan of the dress-rehearsal locations: one atlas per homogeneous tile class, tiles
//! placed row-major side by side, the tile-local G=0 mask, and coordinate packing between a
//! location cell and its atlas cell.
use crate::dress_rehearsal_atlas_batch_0_loc::{
    locations_by_role_spec, ChannelDescriptor, ChannelKind, ChannelSet, LocationGridDescriptor, LocationId,
    LocationMaterialization, LocationRole,
};
use vstd::prelude::*;

verus! {

pub const DRESS_REHEARSAL_ATLAS_BATCH_0_PACK_ID: &'static str = "ATLAS-BATCH-0-PACK";
/// Default VRAM budget of the atlas (1.5 GiB).
pub const V78_ATLAS_VRAM_BUDGET_BYTES: u64 = 1_610_612_736;
pub const PACKING_STRATEGY: &'static str =
    "row-major tile placement per homogeneous class into the smallest enclosing atlas rectangle";
pub const CLASS_GALACTIC_20X20: &'static str = "Galactic20x20";
pub const CLASS_STAR_SYSTEM_10X10: &'static str = "StarSystem10x10";
pub const CLASS_PLANET_SURFACE_10X10: &'static str = "PlanetSurface10x10";
/// The G=0 rule the mask enforces.
pub const G_ZERO_RULE: &'static str = "algebraic tile-local G=0: stencil samples crossing a tile boundary resolve to 0";

/// One homogeneous tile class and its atlas rectangle.
#[derive(Clone, Debug, PartialEq, Eq)]
pub struct TileClassDescriptor {
    pub class_id: String,
    pub role: LocationRole,
    pub tile_width: u32,
    pub tile_height: u32,
    pub channels: ChannelSet,
    pub source_location_ids: Vec<LocationId>,
    pub atlas_width: u32,
    pub atlas_height: u32,
}

/// A location's tile within its class atlas.
#[derive(Debug)]
pub struct PackedTile {
    pub source_location_id: LocationId,
    pub source_role: LocationRole,
    pub class_id: String,
    pub atlas_origin: (u32, u32),
    pub tile_dims: (u32, u32),
}

/// Bounds of one tile in the G=0 mask.
#[derive(Debug)]
pub struct TileMaskBounds {
    pub class_id: String,
    pub atlas_origin: (u32, u32),
    pub width: u32,
    pub height: u32,
}

/// The tile-local G=0 mask: samples crossing a tile boundary resolve to 0.
#[derive(Debug)]
pub struct GZeroMaskDescriptor {
    pub rule: &'static str,
    pub tile_bounds: Vec<TileMaskBounds>,
}

impl Clone for PackedTile {
    fn clone(&self) -> (r: Self)
        ensures
            r == *self,
    {
        PackedTile {
            source_location_id: self.source_location_id,
            source_role: self.source_role,
            class_id: self.class_id.clone(),
            atlas_origin: self.atlas_origin,
            tile_dims: self.tile_dims,
        }
    }
}

impl Clone for TileMaskBounds {
    fn clone(&self) -> (r: Self)
        ensures
            r == *self,
    {
        TileMaskBounds {
            class_id: self.class_id.clone(),
            atlas_origin: self.atlas_origin,
            width: self.width,
            height: self.height,
        }
    }
}

/// A tile as plain values: location, role, class, origin, dimensions.
pub type TileView = (LocationId, LocationRole, Seq<char>, (u32, u32), (u32, u32));

pub open spec fn tile_view(t: PackedTile) -> TileView {
    (t.source_location_id, t.source_role, t.class_id@, t.atlas_origin, t.tile_dims)
}

/// A class as plain values: id, role, tile width and height, channels, source locations,
/// atlas width and height.
pub type ClassView = (Seq<char>, LocationRole, u32, u32, Seq<ChannelDescriptor>, Seq<LocationId>, u32, u32);

pub open spec fn class_view(c: TileClassDescriptor) -> ClassView {
    (c.class_id@, c.role, c.tile_width, c.tile_height, c.channels.channels@, c.source_location_ids@, c.atlas_width, c.atlas_height)
}

/// The locations behind a list of references.
pub open spec fn deref_all(locations: Seq<&LocationGridDescriptor>) -> Seq<LocationGridDescriptor> {
    Seq::new(locations.len(), |i: int| *locations[i])
}

/// The tiles of one class packed row-major: tile `i` at `(tile_width * i, 0)`.
pub open spec fn class_tiles(class_id: Seq<char>, locations: Seq<LocationGridDescriptor>, w: u32, h: u32) -> Seq<TileView> {
    Seq::new(locations.len(), |i: int| (locations[i].id, locations[i].role, class_id, ((w * i) as u32, 0u32), (w, h)))
}

/// The class descriptor of one class: channels of its first location (none without locations),
/// its source locations in order, and an atlas `tile_width * n` wide and `tile_height` high.
pub open spec fn class_of(class_id: Seq<char>, role: LocationRole, locations: Seq<LocationGridDescriptor>, w: u32, h: u32) -> ClassView {
    (class_id, role, w, h,
        if locations.len() > 0 { locations[0].channels.channels@ } else { Seq::empty() },
        Seq::new(locations.len(), |i: int| locations[i].id),
        (w * locations.len()) as u32, h)
}

fn copy_channels(set: &ChannelSet) -> (r: ChannelSet)
    ensures
        r.channels@ == set.channels@,
{
    let mut channels: Vec<ChannelDescriptor> = Vec::new();
    let mut k: usize = 0;
    while k < set.channels.len()
        invariant
            k <= set.channels@.len(),
            channels@ == set.channels@.take(k as int),
        decreases set.channels@.len() - k,
    {
        channels.push(set.channels[k]);
        proof { assert(channels@ =~= set.channels@.take(k + 1)); }
        k = k + 1;
    }
    proof { assert(set.channels@.take(set.channels@.len() as int) =~= set.channels@); }
    ChannelSet { channels }
}

/// Packs one class row-major: appends a tile per location (origin `(tile_width * i, 0)`) and
/// the class descriptor.
pub fn pack_class_row_major(
    class_id: &str,
    role: LocationRole,
    tile_width: u32,
    tile_height: u32,
    locations: &[&LocationGridDescriptor],
    classes: &mut Vec<TileClassDescriptor>,
    tiles: &mut Vec<PackedTile>,
)
    requires
        locations@.len() <= u32::MAX,
        tile_width * locations@.len() <= u32::MAX,
    ensures
        final(tiles)@.map_values(|t: PackedTile| tile_view(t))
            == old(tiles)@.map_values(|t: PackedTile| tile_view(t)) + class_tiles(class_id@, deref_all(locations@), tile_width, tile_height),
        final(classes)@.map_values(|c: TileClassDescriptor| class_view(c))
            == old(classes)@.map_values(|c: TileClassDescriptor| class_view(c)).push(class_of(class_id@, role, deref_all(locations@), tile_width, tile_height)),
{
    let n = locations.len();
    let tile_count = n as u32;
    proof {
        assert(0 <= tile_width * n) by (nonlinear_arith);
    }
    let atlas_width = tile_width * tile_count;
    let channels = if n > 0 { copy_channels(&locations[0].channels) } else { ChannelSet { channels: Vec::new() } };
    let ghost tiles0 = tiles@.map_values(|t: PackedTile| tile_view(t));
    let ghost expected = class_tiles(class_id@, deref_all(locations@), tile_width, tile_height);
    let mut ids: Vec<LocationId> = Vec::new();
    let mut index: usize = 0;
    while index < n
        invariant
            n == locations@.len(),
            n <= u32::MAX,
            tile_width * n <= u32::MAX,
            index <= n,
            expected == class_tiles(class_id@, deref_all(locations@), tile_width, tile_height),
            ids@ == Seq::new(index as nat, |i: int| locations@[i].id),
            tiles@.map_values(|t: PackedTile| tile_view(t)) == tiles0 + expected.take(index as int),
        decreases n - index,
    {
        proof {
            assert(tile_width * index <= tile_width * n) by (nonlinear_arith)
                requires index <= n;
        }
        let location = locations[index];
        let ghost before = tiles@.map_values(|t: PackedTile| tile_view(t));
        tiles.push(PackedTile {
            source_location_id: location.id,
            source_role: location.role,
            class_id: class_id.to_owned(),
            atlas_origin: (tile_width * index as u32, 0),
            tile_dims: (tile_width, tile_height),
        });
        ids.push(location.id);
        proof {
            let last = tiles@[tiles@.len() - 1];
            assert(tiles@.map_values(|t: PackedTile| tile_view(t)) =~= before.push(tile_view(last)));
            assert(tile_view(last) =~~= expected[index as int]);
            assert(expected.take(index as int).push(expected[index as int]) =~= expected.take(index + 1));
            assert(ids@ =~= Seq::new((index + 1) as nat, |i: int| locations@[i].id));
        }
        index = index + 1;
    }
    proof {
        assert(expected.take(n as int) =~= expected);
    }
    let ghost classes0 = classes@.map_values(|c: TileClassDescriptor| class_view(c));
    classes.push(TileClassDescriptor {
        class_id: class_id.to_owned(),
        role,
        tile_width,
        tile_height,
        channels,
        source_location_ids: ids,
        atlas_width,
        atlas_height: tile_height,
    });
    proof {
        let last = classes@[classes@.len() - 1];
        assert(classes@.map_values(|c: TileClassDescriptor| class_view(c)) =~= classes0.push(class_view(last)));
        assert(class_view(last) =~~= class_of(class_id@, role, deref_all(locations@), tile_width, tile_height));
    }
}

/// Origins of the given tiles, in order.
pub fn pack_tile_origins(tiles: &[&PackedTile]) -> (r: Vec<(u32, u32)>)
    ensures
        r@ == Seq::new(tiles@.len(), |i: int| tiles@[i].atlas_origin),
{
    let mut out: Vec<(u32, u32)> = Vec::new();
    let mut k: usize = 0;
    while k < tiles.len()
        invariant
            k <= tiles@.len(),
            out@ == Seq::new(k as nat, |i: int| tiles@[i].atlas_origin),
        decreases tiles@.len() - k,
    {
        out.push(tiles[k].atlas_origin);
        proof { assert(out@ =~= Seq::new((k + 1) as nat, |i: int| tiles@[i].atlas_origin)); }
        k = k + 1;
    }
    out
}

/// Mask bounds of a tile: its class, origin and dimensions.
pub open spec fn mask_view(b: TileMaskBounds) -> (Seq<char>, (u32, u32), u32, u32) {
    (b.class_id@, b.atlas_origin, b.width, b.height)
}

/// The G=0 mask of a plan: one bounds entry per tile, in tile order.
pub fn build_g_zero_mask(tiles: &Vec<PackedTile>) -> (r: GZeroMaskDescriptor)
    ensures
        r.rule == G_ZERO_RULE,
        r.tile_bounds@.map_values(|b: TileMaskBounds| mask_view(b))
            == tiles@.map_values(|t: PackedTile| (t.class_id@, t.atlas_origin, t.tile_dims.0, t.tile_dims.1)),
{
    let mut tile_bounds: Vec<TileMaskBounds> = Vec::new();
    let mut k: usize = 0;
    while k < tiles.len()
        invariant
            k <= tiles@.len(),
            tile_bounds@.map_values(|b: TileMaskBounds| mask_view(b))
                == tiles@.take(k as int).map_values(|t: PackedTile| (t.class_id@, t.atlas_origin, t.tile_dims.0, t.tile_dims.1)),
        decreases tiles@.len() - k,
    {
        let tile = &tiles[k];
        let ghost before = tile_bounds@.map_values(|b: TileMaskBounds| mask_view(b));
        tile_bounds.push(TileMaskBounds {
            class_id: tile.class_id.clone(),
            atlas_origin: tile.atlas_origin,
            width: tile.tile_dims.0,
            height: tile.tile_dims.1,
        });
        proof {
            let last = tile_bounds@[tile_bounds@.len() - 1];
            assert(tile_bounds@.map_values(|b: TileMaskBounds| mask_view(b)) =~= before.push(mask_view(last)));
            assert(tiles@.take(k + 1).map_values(|t: PackedTile| (t.class_id@, t.atlas_origin, t.tile_dims.0, t.tile_dims.1))
                =~= tiles@.take(k as int).map_values(|t: PackedTile| (t.class_id@, t.atlas_origin, t.tile_dims.0, t.tile_dims.1))
                    .push((tiles@[k as int].class_id@, tiles@[k as int].atlas_origin, tiles@[k as int].tile_dims.0, tiles@[k as int].tile_dims.1)));
        }
        k = k + 1;
    }
    proof {
        assert(tiles@.take(tiles@.len() as int) =~= tiles@);
    }
    GZeroMaskDescriptor { rule: G_ZERO_RULE, tile_bounds }
}

/// Whether two channel sets list the same channels in the same order.
pub fn channel_set_matches(lhs: &ChannelSet, rhs: &ChannelSet) -> (r: bool)
    ensures
        r == (lhs.channels@ == rhs.channels@),
{
    if lhs.channels.len() != rhs.channels.len() {
        return false;
    }
    let mut k: usize = 0;
    while k < lhs.channels.len()
        invariant
            k <= lhs.channels@.len() == rhs.channels@.len(),
            forall|i: int| 0 <= i < k ==> lhs.channels@[i] == rhs.channels@[i],
        decreases lhs.channels@.len() - k,
    {
        if lhs.channels[k] != rhs.channels[k] {
            return false;
        }
        k = k + 1;
    }
    proof { assert(lhs.channels@ =~= rhs.channels@); }
    true
}

/// Whether the set carries an owner-indexed (fleet strength) channel.
pub fn channel_set_has_owner_indexed(set: &ChannelSet) -> (r: bool)
    ensures
        r == exists|i: int| 0 <= i < set.channels@.len() && (#[trigger] set.channels@[i]).kind is FleetStrength,
{
    let mut k: usize = 0;
    while k < set.channels.len()
        invariant
            k <= set.channels@.len(),
            forall|i: int| 0 <= i < k ==> !((#[trigger] set.channels@[i]).kind is FleetStrength),
        decreases set.channels@.len() - k,
    {
        match set.channels[k].kind {
            ChannelKind::FleetStrength(_) => { return true; },
            _ => {},
        }
        k = k + 1;
    }
    false
}

/// Index of the first tile of location `id`.
pub open spec fn first_tile_of(tiles: Seq<TileView>, id: LocationId) -> Option<int>
    decreases tiles.len(),
{
    if tiles.len() == 0 {
        None
    } else {
        match first_tile_of(tiles.drop_last(), id) {
            Some(i) => Some(i),
            None => if tiles.last().0 == id { Some(tiles.len() - 1) } else { None },
        }
    }
}

/// Atlas cell of cell `(x, y)` of location `id`: its first tile's origin plus the offset,
/// `None` when the location has no tile or the cell lies outside the tile.
pub open spec fn pack_coord_spec(tiles: Seq<TileView>, id: LocationId, x: u32, y: u32) -> Option<(u32, u32)> {
    match first_tile_of(tiles, id) {
        None => None,
        Some(i) => {
            let t = tiles[i];
            if x >= t.4.0 || y >= t.4.1 { None } else { Some(((t.3.0 + x) as u32, (t.3.1 + y) as u32)) }
        },
    }
}

/// Index of the first class named `class_id`.
pub open spec fn first_class_of(classes: Seq<ClassView>, class_id: Seq<char>) -> Option<int>
    decreases classes.len(),
{
    if classes.len() == 0 {
        None
    } else {
        match first_class_of(classes.drop_last(), class_id) {
            Some(i) => Some(i),
            None => if classes.last().0 == class_id { Some(classes.len() - 1) } else { None },
        }
    }
}

/// Tile `t` belongs to class `class_id` and contains atlas cell `(ax, ay)`.
pub open spec fn tile_contains(t: TileView, class_id: Seq<char>, ax: u32, ay: u32) -> bool {
    t.2 == class_id && t.3.0 <= ax < t.3.0 + t.4.0 && t.3.1 <= ay < t.3.1 + t.4.1
}

/// Index of the first tile of class `class_id` containing atlas cell `(ax, ay)`.
pub open spec fn first_containing(tiles: Seq<TileView>, class_id: Seq<char>, ax: u32, ay: u32) -> Option<int>
    decreases tiles.len(),
{
    if tiles.len() == 0 {
        None
    } else {
        match first_containing(tiles.drop_last(), class_id, ax, ay) {
            Some(i) => Some(i),
            None => if tile_contains(tiles.last(), class_id, ax, ay) { Some(tiles.len() - 1) } else { None },
        }
    }
}

/// Location cell of atlas cell `(ax, ay)` of class `class_id`: `None` outside the class atlas
/// or outside every tile of the class.
pub open spec fn unpack_coord_spec(
    classes: Seq<ClassView>,
    tiles: Seq<TileView>,
    class_id: Seq<char>,
    ax: u32,
    ay: u32,
) -> Option<(LocationId, u32, u32)> {
    match first_class_of(classes, class_id) {
        None => None,
        Some(c) => if ax >= classes[c].6 || ay >= classes[c].7 {
            None
        } else {
            match first_containing(tiles, class_id, ax, ay) {
                None => None,
                Some(i) => Some((tiles[i].0, (ax - tiles[i].3.0) as u32, (ay - tiles[i].3.1) as u32)),
            }
        },
    }
}

/// Every tile's far edge fits in a `u32`.
pub open spec fn tiles_fit(tiles: Seq<TileView>) -> bool {
    forall|i: int| 0 <= i < tiles.len() ==> (#[trigger] tiles[i]).3.0 + tiles[i].4.0 <= u32::MAX
        && tiles[i].3.1 + tiles[i].4.1 <= u32::MAX
}

/// Packs cell `(x, y)` of location `location_id` into its class atlas.
pub fn pack_tile_coord(tiles: &Vec<PackedTile>, location_id: LocationId, x: u32, y: u32) -> (r: Option<(u32, u32)>)
    requires
        tiles_fit(tiles@.map_values(|t: PackedTile| tile_view(t))),
    ensures
        r == pack_coord_spec(tiles@.map_values(|t: PackedTile| tile_view(t)), location_id, x, y),
{
    let ghost views = tiles@.map_values(|t: PackedTile| tile_view(t));
    let mut k: usize = 0;
    while k < tiles.len()
        invariant
            k <= tiles@.len(),
            views == tiles@.map_values(|t: PackedTile| tile_view(t)),
            tiles_fit(views),
            first_tile_of(views.take(k as int), location_id) is None,
        decreases tiles@.len() - k,
    {
        proof {
            assert(views.take(k + 1).drop_last() =~= views.take(k as int));
        }
        if tiles[k].source_location_id == location_id {
            proof {
                lemma_first_tile_prefix(views, location_id, k as int);
                assert(views[k as int] == tile_view(tiles@[k as int]));
                assert(views[k as int].3.0 + views[k as int].4.0 <= u32::MAX);
            }
            let tile = &tiles[k];
            if x >= tile.tile_dims.0 || y >= tile.tile_dims.1 {
                return None;
            }
            return Some((tile.atlas_origin.0 + x, tile.atlas_origin.1 + y));
        }
        k = k + 1;
    }
    proof {
        assert(views.take(views.len() as int) =~= views);
    }
    None
}

/// A first match found at `k` after none before it is the first match of the whole list.
proof fn lemma_first_tile_prefix(views: Seq<TileView>, id: LocationId, k: int)
    requires
        0 <= k < views.len(),
        first_tile_of(views.take(k), id) is None,
        views[k].0 == id,
    ensures
        first_tile_of(views, id) == Some(k),
    decreases views.len(),
{
    if k < views.len() - 1 {
        let init = views.drop_last();
        assert(init.take(k) =~= views.take(k));
        lemma_first_tile_prefix(init, id, k);
    } else {
        assert(views.drop_last() =~= views.take(k));
    }
}

/// A first match found at `k` after none before it is the first match of the whole list.
proof fn lemma_first_class_prefix(views: Seq<ClassView>, id: Seq<char>, k: int)
    requires
        0 <= k < views.len(),
        first_class_of(views.take(k), id) is None,
        views[k].0 == id,
    ensures
        first_class_of(views, id) == Some(k),
    decreases views.len(),
{
    if k < views.len() - 1 {
        let init = views.drop_last();
        assert(init.take(k) =~= views.take(k));
        lemma_first_class_prefix(init, id, k);
    } else {
        assert(views.drop_last() =~= views.take(k));
    }
}

/// A first containing tile found at `k` after none before it is the first of the whole list.
proof fn lemma_first_containing_prefix(views: Seq<TileView>, id: Seq<char>, ax: u32, ay: u32, k: int)
    requires
        0 <= k < views.len(),
        first_containing(views.take(k), id, ax, ay) is None,
        tile_contains(views[k], id, ax, ay),
    ensures
        first_containing(views, id, ax, ay) == Some(k),
    decreases views.len(),
{
    if k < views.len() - 1 {
        let init = views.drop_last();
        assert(init.take(k) =~= views.take(k));
        lemma_first_containing_prefix(init, id, ax, ay, k);
    } else {
        assert(views.drop_last() =~= views.take(k));
    }
}

/// Unpacks atlas cell `(ax, ay)` of class `class_id` to its location and local cell.
pub fn unpack_tile_coord(
    classes: &Vec<TileClassDescriptor>,
    tiles: &Vec<PackedTile>,
    class_id: &str,
    ax: u32,
    ay: u32,
) -> (r: Option<(LocationId, u32, u32)>)
    ensures
        r == unpack_coord_spec(
            classes@.map_values(|c: TileClassDescriptor| class_view(c)),
            tiles@.map_values(|t: PackedTile| tile_view(t)),
            class_id@,
            ax,
            ay,
        ),
{
    let ghost cviews = classes@.map_values(|c: TileClassDescriptor| class_view(c));
    let ghost tviews = tiles@.map_values(|t: PackedTile| tile_view(t));
    let key: String = class_id.to_owned();
    let mut c: usize = 0;
    let mut found: Option<usize> = None;
    while c < classes.len()
        invariant
            c <= classes@.len(),
            key@ == class_id@,
            cviews == classes@.map_values(|c: TileClassDescriptor| class_view(c)),
            found is None ==> first_class_of(cviews.take(c as int), class_id@) is None,
            found matches Some(i) ==> i < classes@.len() && first_class_of(cviews, class_id@) == Some(i as int),
        decreases classes@.len() - c,
    {
        if found.is_none() {
            proof {
                assert(cviews.take(c + 1).drop_last() =~= cviews.take(c as int));
            }
            if classes[c].class_id == key {
                proof { lemma_first_class_prefix(cviews, class_id@, c as int); }
                found = Some(c);
            }
        }
        c = c + 1;
    }
    let ci = match found {
        Some(i) => i,
        None => {
            proof { assert(cviews.take(cviews.len() as int) =~= cviews); }
            return None;
        },
    };
    if ax >= classes[ci].atlas_width || ay >= classes[ci].atlas_height {
        return None;
    }
    let mut k: usize = 0;
    while k < tiles.len()
        invariant
            k <= tiles@.len(),
            key@ == class_id@,
            tviews == tiles@.map_values(|t: PackedTile| tile_view(t)),
            cviews == classes@.map_values(|c: TileClassDescriptor| class_view(c)),
            ci < classes@.len(),
            first_class_of(cviews, class_id@) == Some(ci as int),
            ax < cviews[ci as int].6 && ay < cviews[ci as int].7,
            first_containing(tviews.take(k as int), class_id@, ax, ay) is None,
        decreases tiles@.len() - k,
    {
        proof {
            assert(tviews.take(k + 1).drop_last() =~= tviews.take(k as int));
        }
        let tile = &tiles[k];
        let (ox, oy) = tile.atlas_origin;
        let (tw, th) = tile.tile_dims;
        if tile.class_id == key && ax >= ox && (ax as u64) < (ox as u64) + (tw as u64) && ay >= oy
            && (ay as u64) < (oy as u64) + (th as u64) {
            proof {
                assert(tviews[k as int] == tile_view(tiles@[k as int]));
                lemma_first_containing_prefix(tviews, class_id@, ax, ay, k as int);
            }
            return Some((tile.source_location_id, ax - ox, ay - oy));
        }
        k = k + 1;
    }
    proof { assert(tviews.take(tviews.len() as int) =~= tviews); }
    None
}

/// The three classes of a materialization, in order: galactic (20×20 tiles), star systems and
/// planet surfaces (10×10 tiles), each packing its locations of that role in order.
pub open spec fn plan_classes(locations: Seq<LocationGridDescriptor>) -> Seq<ClassView> {
    seq![
        class_of("Galactic20x20"@, LocationRole::Galactic, locations_by_role_spec(locations, LocationRole::Galactic), 20, 20),
        class_of("StarSystem10x10"@, LocationRole::StarSystem, locations_by_role_spec(locations, LocationRole::StarSystem), 10, 10),
        class_of("PlanetSurface10x10"@, LocationRole::PlanetSurface, locations_by_role_spec(locations, LocationRole::PlanetSurface), 10, 10),
    ]
}

/// The tiles of a materialization: the galactic tiles, then star systems, then surfaces.
pub open spec fn plan_tiles(locations: Seq<LocationGridDescriptor>) -> Seq<TileView> {
    class_tiles("Galactic20x20"@, locations_by_role_spec(locations, LocationRole::Galactic), 20, 20)
        + class_tiles("StarSystem10x10"@, locations_by_role_spec(locations, LocationRole::StarSystem), 10, 10)
        + class_tiles("PlanetSurface10x10"@, locations_by_role_spec(locations, LocationRole::PlanetSurface), 10, 10)
}

proof fn lemma_role_filter_len(locations: Seq<LocationGridDescriptor>, role: LocationRole)
    ensures
        locations_by_role_spec(locations, role).len() <= locations.len(),
    decreases locations.len(),
{
    if locations.len() > 0 {
        lemma_role_filter_len(locations.drop_last(), role);
    }
}

fn role_locations(m: &LocationMaterialization, role: LocationRole) -> (r: Vec<&LocationGridDescriptor>)
    ensures
        deref_all(r@) == locations_by_role_spec(m.locations@, role),
        r@.len() <= m.locations@.len(),
{
    let r = m.locations_by_role(role);
    proof {
        lemma_role_filter_len(m.locations@, role);
        assert(deref_all(r@) =~= locations_by_role_spec(m.locations@, role));
    }
    r
}

/// Packs every location of a materialization into its class atlas (the class descriptors and
/// the tiles of the pack plan).
pub fn pack_materialization(m: &LocationMaterialization) -> (r: (Vec<TileClassDescriptor>, Vec<PackedTile>))
    requires
        20 * locations_by_role_spec(m.locations@, LocationRole::Galactic).len() <= u32::MAX,
        10 * locations_by_role_spec(m.locations@, LocationRole::StarSystem).len() <= u32::MAX,
        10 * locations_by_role_spec(m.locations@, LocationRole::PlanetSurface).len() <= u32::MAX,
    ensures
        r.0@.map_values(|c: TileClassDescriptor| class_view(c)) == plan_classes(m.locations@),
        r.1@.map_values(|t: PackedTile| tile_view(t)) == plan_tiles(m.locations@),
{
    let mut classes: Vec<TileClassDescriptor> = Vec::new();
    let mut tiles: Vec<PackedTile> = Vec::new();
    let galactic = role_locations(m, LocationRole::Galactic);
    let systems = role_locations(m, LocationRole::StarSystem);
    let surfaces = role_locations(m, LocationRole::PlanetSurface);
    proof {
        assert(galactic@.len() == deref_all(galactic@).len());
        assert(systems@.len() == deref_all(systems@).len());
        assert(surfaces@.len() == deref_all(surfaces@).len());
    }
    pack_class_row_major(CLASS_GALACTIC_20X20, LocationRole::Galactic, 20, 20, galactic.as_slice(), &mut classes, &mut tiles);
    pack_class_row_major(CLASS_STAR_SYSTEM_10X10, LocationRole::StarSystem, 10, 10, systems.as_slice(), &mut classes, &mut tiles);
    pack_class_row_major(CLASS_PLANET_SURFACE_10X10, LocationRole::PlanetSurface, 10, 10, surfaces.as_slice(), &mut classes, &mut tiles);
    proof {
        reveal_strlit("Galactic20x20");
        reveal_strlit("StarSystem10x10");
        reveal_strlit("PlanetSurface10x10");
        assert(classes@.map_values(|c: TileClassDescriptor| class_view(c)) =~= plan_classes(m.locations@));
        assert(tiles@.map_values(|t: PackedTile| tile_view(t)) =~= plan_tiles(m.locations@));
    }
    (classes, tiles)
}

proof fn lemma_no_tile_of(tiles: Seq<TileView>, id: LocationId)
    requires
        forall|j: int| 0 <= j < tiles.len() ==> (#[trigger] tiles[j]).0 != id,
    ensures
        first_tile_of(tiles, id) is None,
    decreases tiles.len(),
{
    if tiles.len() > 0 {
        let init = tiles.drop_last();
        assert forall|j: int| 0 <= j < init.len() implies (#[trigger] init[j]).0 != id by {
            assert(init[j] == tiles[j]);
        }
        lemma_no_tile_of(init, id);
    }
}

proof fn lemma_none_contains(tiles: Seq<TileView>, class_id: Seq<char>, ax: u32, ay: u32)
    requires
        forall|j: int| 0 <= j < tiles.len() ==> !tile_contains(#[trigger] tiles[j], class_id, ax, ay),
    ensures
        first_containing(tiles, class_id, ax, ay) is None,
    decreases tiles.len(),
{
    if tiles.len() > 0 {
        let init = tiles.drop_last();
        assert forall|j: int| 0 <= j < init.len() implies !tile_contains(#[trigger] init[j], class_id, ax, ay) by {
            assert(init[j] == tiles[j]);
        }
        lemma_none_contains(init, class_id, ax, ay);
    }
}

/// Pack and unpack are inverse on a row-major class: when the class's tiles follow tiles of
/// other classes and other locations, cell `(x, y)` of the class's `i`-th location packs to
/// `(w·i + x, y)`, and that atlas cell unpacks back to the same location and cell.
pub proof fn lemma_pack_unpack_round_trip(
    classes: Seq<ClassView>,
    before: Seq<TileView>,
    after: Seq<TileView>,
    class_id: Seq<char>,
    role: LocationRole,
    locations: Seq<LocationGridDescriptor>,
    w: u32,
    h: u32,
    i: int,
    x: u32,
    y: u32,
)
    requires
        w * locations.len() <= u32::MAX,
        0 <= i < locations.len(),
        x < w,
        y < h,
        first_class_of(classes, class_id) matches Some(c) && classes[c] == class_of(class_id, role, locations, w, h),
        forall|j: int| 0 <= j < before.len() ==> (#[trigger] before[j]).2 != class_id && before[j].0 != locations[i].id,
        forall|j: int| 0 <= j < i ==> (#[trigger] locations[j]).id != locations[i].id,
    ensures
        pack_coord_spec(before + class_tiles(class_id, locations, w, h) + after, locations[i].id, x, y)
            == Some(((w * i + x) as u32, y)),
        unpack_coord_spec(classes, before + class_tiles(class_id, locations, w, h) + after, class_id, (w * i + x) as u32, y)
            == Some((locations[i].id, x, y)),
{
    let seg = class_tiles(class_id, locations, w, h);
    let all = before + seg + after;
    let k = before.len() + i;
    let id = locations[i].id;
    let ax = (w * i + x) as u32;
    assert(w * i + w <= w * locations.len()) by (nonlinear_arith)
        requires i < locations.len();
    assert(all[k] == seg[i]);
    assert forall|j: int| 0 <= j < k implies (#[trigger] all.take(k)[j]).0 != id by {
        if j < before.len() {
            assert(all.take(k)[j] == before[j]);
        } else {
            assert(all.take(k)[j] == seg[j - before.len()]);
        }
    }
    lemma_no_tile_of(all.take(k), id);
    lemma_first_tile_prefix(all, id, k);
    assert forall|j: int| 0 <= j < k implies !tile_contains(#[trigger] all.take(k)[j], class_id, ax, y) by {
        if j < before.len() {
            assert(all.take(k)[j] == before[j]);
        } else {
            let jj = j - before.len();
            assert(all.take(k)[j] == seg[jj]);
            assert(w * jj + w <= w * i) by (nonlinear_arith)
                requires jj < i;
        }
    }
    lemma_none_contains(all.take(k), class_id, ax, y);
    assert(w * i + x < w * locations.len());
    lemma_first_containing_prefix(all, class_id, ax, y, k);
}

/// Cells and bytes (4 bytes per channel per cell) of the unpacked locations.
pub open spec fn unpacked_totals(locations: Seq<LocationGridDescriptor>) -> (int, int)
    decreases locations.len(),
{
    if locations.len() == 0 {
        (0, 0)
    } else {
        let (c, b) = unpacked_totals(locations.drop_last());
        let l = locations.last();
        let cells = l.width * l.height;
        (c + cells, b + cells * (l.channels.channels@.len() * 4))
    }
}

/// Cells and bytes (4 bytes per channel per cell) of the packed class atlases.
pub open spec fn packed_totals(classes: Seq<TileClassDescriptor>) -> (int, int)
    decreases classes.len(),
{
    if classes.len() == 0 {
        (0, 0)
    } else {
        let (c, b) = packed_totals(classes.drop_last());
        let k = classes.last();
        let cells = k.atlas_width * k.atlas_height;
        (c + cells, b + cells * (k.channels.channels@.len() * 4))
    }
}

proof fn lemma_totals_nonneg_unpacked(locations: Seq<LocationGridDescriptor>)
    ensures
        unpacked_totals(locations).0 >= 0 && unpacked_totals(locations).1 >= 0,
    decreases locations.len(),
{
    if locations.len() > 0 {
        lemma_totals_nonneg_unpacked(locations.drop_last());
        let l = locations.last();
        assert(l.width * l.height >= 0) by (nonlinear_arith);
        assert(l.width * l.height * (l.channels.channels@.len() * 4) >= 0) by (nonlinear_arith);
    }
}

proof fn lemma_totals_nonneg_packed(classes: Seq<TileClassDescriptor>)
    ensures
        packed_totals(classes).0 >= 0 && packed_totals(classes).1 >= 0,
    decreases classes.len(),
{
    if classes.len() > 0 {
        lemma_totals_nonneg_packed(classes.drop_last());
        let k = classes.last();
        assert(k.atlas_width * k.atlas_height >= 0) by (nonlinear_arith);
        assert(k.atlas_width * k.atlas_height * (k.channels.channels@.len() * 4) >= 0) by (nonlinear_arith);
    }
}

/// Totals of a prefix never exceed the totals of the whole list.
proof fn lemma_unpacked_prefix(locations: Seq<LocationGridDescriptor>)
    ensures
        forall|i: int| 0 <= i <= locations.len() ==> unpacked_totals(#[trigger] locations.take(i)).1 <= unpacked_totals(locations).1
            && unpacked_totals(locations.take(i)).0 <= unpacked_totals(locations).0,
    decreases locations.len(),
{
    if locations.len() > 0 {
        let init = locations.drop_last();
        lemma_unpacked_prefix(init);
        let l = locations.last();
        assert(l.width * l.height >= 0) by (nonlinear_arith);
        assert(l.width * l.height * (l.channels.channels@.len() * 4) >= 0) by (nonlinear_arith);
        assert forall|i: int| 0 <= i <= locations.len() implies unpacked_totals(#[trigger] locations.take(i)).1 <= unpacked_totals(locations).1
            && unpacked_totals(locations.take(i)).0 <= unpacked_totals(locations).0 by {
            if i == locations.len() {
                assert(locations.take(i) =~= locations);
            } else {
                assert(locations.take(i) =~= init.take(i));
            }
        }
    } else {
        assert forall|i: int| 0 <= i <= locations.len() implies unpacked_totals(#[trigger] locations.take(i)).1 <= unpacked_totals(locations).1
            && unpacked_totals(locations.take(i)).0 <= unpacked_totals(locations).0 by {
            assert(locations.take(i) =~= locations);
        }
    }
}

/// Totals of a prefix never exceed the totals of the whole list.
proof fn lemma_packed_prefix(classes: Seq<TileClassDescriptor>)
    ensures
        forall|i: int| 0 <= i <= classes.len() ==> packed_totals(#[trigger] classes.take(i)).1 <= packed_totals(classes).1
            && packed_totals(classes.take(i)).0 <= packed_totals(classes).0,
    decreases classes.len(),
{
    if classes.len() > 0 {
        let init = classes.drop_last();
        lemma_packed_prefix(init);
        let k = classes.last();
        assert(k.atlas_width * k.atlas_height >= 0) by (nonlinear_arith);
        assert(k.atlas_width * k.atlas_height * (k.channels.channels@.len() * 4) >= 0) by (nonlinear_arith);
        assert forall|i: int| 0 <= i <= classes.len() implies packed_totals(#[trigger] classes.take(i)).1 <= packed_totals(classes).1
            && packed_totals(classes.take(i)).0 <= packed_totals(classes).0 by {
            if i == classes.len() {
                assert(classes.take(i) =~= classes);
            } else {
                assert(classes.take(i) =~= init.take(i));
            }
        }
    } else {
        assert forall|i: int| 0 <= i <= classes.len() implies packed_totals(#[trigger] classes.take(i)).1 <= packed_totals(classes).1
            && packed_totals(classes.take(i)).0 <= packed_totals(classes).0 by {
            assert(classes.take(i) =~= classes);
        }
    }
}

/// The VRAM estimate's integer counts: unpacked cells and bytes, packed cells and bytes, and
/// the packed bytes within the budget.
pub fn vram_counts(locations: &Vec<LocationGridDescriptor>, classes: &Vec<TileClassDescriptor>) -> (r: (u64, u64, u64, u64, bool))
    requires
        unpacked_totals(locations@).1 <= u64::MAX,
        unpacked_totals(locations@).0 <= u64::MAX,
        packed_totals(classes@).1 <= u64::MAX,
        packed_totals(classes@).0 <= u64::MAX,
        forall|i: int| 0 <= i < locations@.len() ==> (#[trigger] locations@[i]).channels.channels@.len() <= u32::MAX,
        forall|i: int| 0 <= i < classes@.len() ==> (#[trigger] classes@[i]).channels.channels@.len() <= u32::MAX,
    ensures
        r.0 == unpacked_totals(locations@).0,
        r.1 == unpacked_totals(locations@).1,
        r.2 == packed_totals(classes@).0,
        r.3 == packed_totals(classes@).1,
        r.4 == (packed_totals(classes@).1 <= V78_ATLAS_VRAM_BUDGET_BYTES),
{
    proof {
        lemma_unpacked_prefix(locations@);
        lemma_packed_prefix(classes@);
    }
    let mut unpacked_cells: u64 = 0;
    let mut unpacked_bytes: u64 = 0;
    let mut k: usize = 0;
    while k < locations.len()
        invariant
            k <= locations@.len(),
            forall|i: int| 0 <= i <= locations@.len() ==> unpacked_totals(#[trigger] locations@.take(i)).1 <= unpacked_totals(locations@).1
                && unpacked_totals(locations@.take(i)).0 <= unpacked_totals(locations@).0,
            unpacked_totals(locations@).1 <= u64::MAX,
            unpacked_totals(locations@).0 <= u64::MAX,
            forall|i: int| 0 <= i < locations@.len() ==> (#[trigger] locations@[i]).channels.channels@.len() <= u32::MAX,
            (unpacked_cells as int, unpacked_bytes as int) == unpacked_totals(locations@.take(k as int)),
        decreases locations@.len() - k,
    {
        let l = &locations[k];
        proof {
            assert(locations@.take(k + 1).drop_last() =~= locations@.take(k as int));
            assert(locations@.take(k + 1).last() == locations@[k as int]);
            assert(unpacked_totals(locations@.take(k + 1)).1 <= unpacked_totals(locations@).1);
            lemma_totals_nonneg_unpacked(locations@.take(k as int));
            assert(l.width * l.height >= 0) by (nonlinear_arith);
            assert((l.width as u64) * (l.height as u64) <= u32::MAX * u32::MAX) by (nonlinear_arith)
                requires l.width <= u32::MAX, l.height <= u32::MAX;
            assert(l.width * l.height * (l.channels.channels@.len() * 4) >= 0) by (nonlinear_arith);
        }
        let cells: u64 = (l.width as u64) * (l.height as u64);
        let per_cell: u64 = l.channels.channels.len() as u64 * 4;
        unpacked_cells = unpacked_cells + cells;
        unpacked_bytes = unpacked_bytes + cells * per_cell;
        k = k + 1;
    }
    proof { assert(locations@.take(locations@.len() as int) =~= locations@); }
    let mut packed_cells: u64 = 0;
    let mut packed_bytes: u64 = 0;
    let mut j: usize = 0;
    while j < classes.len()
        invariant
            j <= classes@.len(),
            forall|i: int| 0 <= i <= classes@.len() ==> packed_totals(#[trigger] classes@.take(i)).1 <= packed_totals(classes@).1
                && packed_totals(classes@.take(i)).0 <= packed_totals(classes@).0,
            packed_totals(classes@).1 <= u64::MAX,
            packed_totals(classes@).0 <= u64::MAX,
            forall|i: int| 0 <= i < classes@.len() ==> (#[trigger] classes@[i]).channels.channels@.len() <= u32::MAX,
            (packed_cells as int, packed_bytes as int) == packed_totals(classes@.take(j as int)),
        decreases classes@.len() - j,
    {
        let c = &classes[j];
        proof {
            assert(classes@.take(j + 1).drop_last() =~= classes@.take(j as int));
            assert(classes@.take(j + 1).last() == classes@[j as int]);
            assert(packed_totals(classes@.take(j + 1)).1 <= packed_totals(classes@).1);
            lemma_totals_nonneg_packed(classes@.take(j as int));
            assert(c.atlas_width * c.atlas_height >= 0) by (nonlinear_arith);
            assert((c.atlas_width as u64) * (c.atlas_height as u64) <= u32::MAX * u32::MAX) by (nonlinear_arith)
                requires c.atlas_width <= u32::MAX, c.atlas_height <= u32::MAX;
            assert(c.atlas_width * c.atlas_height * (c.channels.channels@.len() * 4) >= 0) by (nonlinear_arith);
        }
        let cells: u64 = (c.atlas_width as u64) * (c.atlas_height as u64);
        let per_cell: u64 = c.channels.channels.len() as u64 * 4;
        packed_cells = packed_cells + cells;
        packed_bytes = packed_bytes + cells * per_cell;
        j = j + 1;
    }
    proof { assert(classes@.take(classes@.len() as int) =~= classes@); }
    (unpacked_cells, unpacked_bytes, packed_cells, packed_bytes, packed_bytes <= V78_ATLAS_VRAM_BUDGET_BYTES)
}


/// Index of the first class named `class_id`.
fn find_class(classes: &Vec<TileClassDescriptor>, class_id: &str) -> (r: Option<usize>)
    ensures
        r matches Some(i) ==> i < classes@.len()
            && first_class_of(classes@.map_values(|c: TileClassDescriptor| class_view(c)), class_id@) == Some(i as int),
        r is None ==> first_class_of(classes@.map_values(|c: TileClassDescriptor| class_view(c)), class_id@) is None,
{
    let ghost cviews = classes@.map_values(|c: TileClassDescriptor| class_view(c));
    let key: String = class_id.to_owned();
    let mut c: usize = 0;
    while c < classes.len()
        invariant
            c <= classes@.len(),
            key@ == class_id@,
            cviews == classes@.map_values(|c: TileClassDescriptor| class_view(c)),
            first_class_of(cviews.take(c as int), class_id@) is None,
        decreases classes@.len() - c,
    {
        proof {
            assert(cviews.take(c + 1).drop_last() =~= cviews.take(c as int));
        }
        if classes[c].class_id == key {
            proof { lemma_first_class_prefix(cviews, class_id@, c as int); }
            return Some(c);
        }
        c = c + 1;
    }
    proof { assert(cviews.take(cviews.len() as int) =~= cviews); }
    None
}

/// Row-major atlas index of the neighbour `(nax, nay)` of atlas cell `(ax, ay)` of class
/// `class_id`, when both unpack to the same location: in-tile neighbours pass through, while a
/// neighbour across a tile boundary or outside the atlas is masked (`None`).
pub open spec fn g_zero_neighbor_spec(
    classes: Seq<ClassView>,
    tiles: Seq<TileView>,
    class_id: Seq<char>,
    ax: u32,
    ay: u32,
    nax: u32,
    nay: u32,
) -> Option<u64> {
    match (unpack_coord_spec(classes, tiles, class_id, ax, ay), unpack_coord_spec(classes, tiles, class_id, nax, nay)) {
        (Some(a), Some(b)) => if a.0 == b.0 {
            Some((nay * classes[first_class_of(classes, class_id)->0].6 + nax) as u64)
        } else {
            None
        },
        _ => None,
    }
}

/// Row-major atlas index of an in-tile neighbour (see `g_zero_neighbor_spec`).
pub fn g_zero_neighbor_index(
    classes: &Vec<TileClassDescriptor>,
    tiles: &Vec<PackedTile>,
    class_id: &str,
    ax: u32,
    ay: u32,
    nax: u32,
    nay: u32,
) -> (r: Option<u64>)
    ensures
        r == g_zero_neighbor_spec(
            classes@.map_values(|c: TileClassDescriptor| class_view(c)),
            tiles@.map_values(|t: PackedTile| tile_view(t)),
            class_id@,
            ax,
            ay,
            nax,
            nay,
        ),
{
    let center = unpack_tile_coord(classes, tiles, class_id, ax, ay);
    let other = unpack_tile_coord(classes, tiles, class_id, nax, nay);
    match (center, other) {
        (Some(a), Some(b)) => {
            if a.0 != b.0 {
                return None;
            }
            let ci = find_class(classes, class_id);
            match ci {
                Some(i) => {
                    let width = classes[i].atlas_width;
                    let ghost cviews = classes@.map_values(|c: TileClassDescriptor| class_view(c));
                    proof {
                        assert(cviews[i as int].6 == width);
                        assert((nay as int) * (width as int) + nax <= (u32::MAX as int) * (u32::MAX as int) + u32::MAX) by (nonlinear_arith)
                            requires nay <= u32::MAX, width <= u32::MAX, nax <= u32::MAX;
                    }
                    let index = (nay as u64) * (width as u64) + (nax as u64);
                    proof {
                        assert(first_class_of(cviews, class_id@)->0 == i as int);
                        assert(index as int == nay * cviews[first_class_of(cviews, class_id@)->0].6 + nax);
                    }
                    Some(index)
                },
                None => None,
            }
        },
        _ => None,
    }
}

/// The G=0 neighbour index addresses the neighbour itself: when the centre and the neighbour
/// unpack to the same location it is `Some(i)` with `i` the neighbour's row-major index in its
/// class atlas — `i / width` is the neighbour's row `nay` and `i % width` its column `nax` —
/// and otherwise it is `None`.
pub proof fn lemma_g_zero_neighbor_addresses_neighbor(
    classes: Seq<ClassView>,
    tiles: Seq<TileView>,
    class_id: Seq<char>,
    ax: u32,
    ay: u32,
    nax: u32,
    nay: u32,
)
    ensures
        match (unpack_coord_spec(classes, tiles, class_id, ax, ay), unpack_coord_spec(classes, tiles, class_id, nax, nay)) {
            (Some(a), Some(b)) => if a.0 == b.0 {
                match g_zero_neighbor_spec(classes, tiles, class_id, ax, ay, nax, nay) {
                    Some(i) => {
                        let w = classes[first_class_of(classes, class_id)->0].6 as int;
                        &&& first_class_of(classes, class_id) is Some
                        &&& nax < w && nay < classes[first_class_of(classes, class_id)->0].7
                        &&& i as int == nay * w + nax
                        &&& i as int / w == nay
                        &&& i as int % w == nax
                    },
                    None => false,
                }
            } else {
                g_zero_neighbor_spec(classes, tiles, class_id, ax, ay, nax, nay) is None
            },
            _ => g_zero_neighbor_spec(classes, tiles, class_id, ax, ay, nax, nay) is None,
        },
{
    match (unpack_coord_spec(classes, tiles, class_id, ax, ay), unpack_coord_spec(classes, tiles, class_id, nax, nay)) {
        (Some(a), Some(b)) => {
            if a.0 == b.0 {
                let k = first_class_of(classes, class_id)->0;
                let w = classes[k].6 as int;
                assert(nax < w);
                assert(0 <= nay * w + nax <= (u32::MAX as int) * (u32::MAX as int) + u32::MAX) by (nonlinear_arith)
                    requires nay <= u32::MAX, 0 <= w <= u32::MAX, nax <= u32::MAX;
                assert(((nay * w + nax) as u64) as int == nay * w + nax);
                assert((nay * w + nax) / w == nay && (nay * w + nax) % w == nax) by (nonlinear_arith)
                    requires 0 <= nax < w, nay >= 0;
            }
        },
        _ => {},
    }
}

} // verus!
