//! The tile map and the atlas geometry it is drawn from: a sparse mapping
//! from integer tile coordinates to tiles, plus the tilesheet descriptor.
//! The map is built once at load time and only read afterwards.

use vstd::prelude::*;

use crate::{HEIGHT_TL, TL_PX, WIDTH_TL};

verus! {

/// The tile id substituted when a requested map coordinate holds no tile, so
/// that rendering never halts for gaps in the map.
pub const MISSING_TILE_ID: u32 = 10;

/// Coarse classification of a tile, used for gameplay logic, not rendering.
#[derive(Clone, Copy, PartialEq, Eq, Structural, Hash, PartialOrd, Ord, Debug)]
pub enum TileType {
    Wall,
    Floor,
    Missing,
}

/// One cell of the map: which graphic it shows and what kind of tile it is.
#[derive(Clone, Copy, PartialEq, Eq, Structural, Debug)]
pub struct MapTile {
    pub tile_id: u32,
    pub tile_type: TileType,
}

/// Atlas geometry of the tilesheet: where tile graphics sit inside the
/// shared texture. Immutable after load.
#[derive(Clone, Copy, PartialEq, Eq, Structural, Debug)]
pub struct TileSheet {
    pub first_tile_id: u32,
    pub tile_width: u32,
    pub tile_height: u32,
    pub spacing: u32,
    pub margin: u32,
}

impl TileSheet {
    /// A usable tilesheet has tiles with real area; the normalizing
    /// denominators of the atlas math are then never zero.
    pub open spec fn wf(&self) -> bool {
        self.tile_width >= 1 && self.tile_height >= 1
    }
}

/// The sparse map itself, read as a mathematical map from `(x, y)` tile
/// coordinates to tiles. Later insertions for a coordinate win over earlier
/// ones, as in any map that overwrites on insert.
pub struct TileMap {
    entries: Vec<((i32, i32), MapTile)>,
}

/// The mathematical map held by an entry list: an entry hides every entry
/// behind it with the same key.
pub open spec fn map_of(s: Seq<((i32, i32), MapTile)>) -> Map<(i32, i32), MapTile>
    decreases s.len(),
{
    if s.len() == 0 {
        Map::empty()
    } else {
        map_of(s.drop_first()).insert(s[0].0, s[0].1)
    }
}

impl View for TileMap {
    type V = Map<(i32, i32), MapTile>;

    closed spec fn view(&self) -> Map<(i32, i32), MapTile> {
        map_of(self.entries@)
    }
}

/// A key that occurs at `i`, with no earlier occurrence, decides what the
/// map holds for that key.
proof fn lemma_map_of_first_match(s: Seq<((i32, i32), MapTile)>, k: (i32, i32), i: int)
    requires
        0 <= i < s.len(),
        s[i].0 == k,
        forall|j: int| 0 <= j < i ==> s[j].0 != k,
    ensures
        map_of(s).contains_key(k),
        map_of(s)[k] == s[i].1,
    decreases i,
{
    if i > 0 {
        lemma_map_of_first_match(s.drop_first(), k, i - 1);
    }
}

/// A key that occurs nowhere in the entry list is not in the map.
proof fn lemma_map_of_no_match(s: Seq<((i32, i32), MapTile)>, k: (i32, i32))
    requires
        forall|j: int| 0 <= j < s.len() ==> s[j].0 != k,
    ensures
        !map_of(s).contains_key(k),
    decreases s.len(),
{
    if s.len() > 0 {
        lemma_map_of_no_match(s.drop_first(), k);
    }
}

impl TileMap {
    /// An empty map: no coordinate holds a tile.
    pub fn new() -> (m: TileMap)
        ensures
            m@ == Map::<(i32, i32), MapTile>::empty(),
    {
        TileMap { entries: Vec::new() }
    }

    /// Puts `tile` at `(x, y)`, replacing whatever the coordinate held.
    pub fn insert(&mut self, x: i32, y: i32, tile: MapTile)
        ensures
            final(self)@ == old(self)@.insert((x, y), tile),
    {
        self.entries.insert(0, ((x, y), tile));
        proof {
            assert(self.entries@.drop_first() =~= old(self).entries@);
        }
    }

    /// The tile at `(x, y)`: `Some` exactly when the coordinate holds one.
    pub fn get(&self, x: i32, y: i32) -> (tile: Option<MapTile>)
        ensures
            match tile {
                Some(t) => self@.contains_key((x, y)) && self@[(x, y)] == t,
                None => !self@.contains_key((x, y)),
            },
    {
        let mut i: usize = 0;
        while i < self.entries.len()
            invariant
                i <= self.entries@.len(),
                forall|j: int| 0 <= j < i ==> (#[trigger] self.entries@[j]).0 != (x, y),
            decreases self.entries@.len() - i,
        {
            let entry = self.entries[i];
            if entry.0.0 == x && entry.0.1 == y {
                proof {
                    lemma_map_of_first_match(self.entries@, (x, y), i as int);
                }
                return Some(entry.1);
            }
            i = i + 1;
        }
        proof {
            lemma_map_of_no_match(self.entries@, (x, y));
        }
        None
    }
}

/// The tile the built-in basic map holds at `k`: floor everywhere except a
/// handful of fixed wall cells.
pub open spec fn spec_basic_map_tile(k: (i32, i32)) -> MapTile {
    if k == (10i32, 10i32) || k == (9i32, 9i32) || k == (6i32, 10i32) || k == (7i32, 5i32) {
        MapTile { tile_id: 0, tile_type: TileType::Wall }
    } else {
        MapTile { tile_id: 0, tile_type: TileType::Floor }
    }
}

/// Builds the basic built-in map: two screens of floor centered on the
/// origin, with a few wall cells dropped in. No objects yet.
pub fn load_basic_map() -> (m: TileMap)
    ensures
        forall|k: (i32, i32)| #[trigger]
            m@.contains_key(k) <==> (-WIDTH_TL <= k.0 < WIDTH_TL && -HEIGHT_TL <= k.1
                < HEIGHT_TL),
        forall|k: (i32, i32)| m@.contains_key(k) ==> #[trigger] m@[k] == spec_basic_map_tile(k),
{
    let mut m = TileMap::new();

    let mut x: i32 = -WIDTH_TL;
    while x < WIDTH_TL
        invariant
            -WIDTH_TL <= x <= WIDTH_TL,
            forall|k: (i32, i32)| #[trigger]
                m@.contains_key(k) <==> (-WIDTH_TL <= k.0 < x && -HEIGHT_TL <= k.1 < HEIGHT_TL),
            forall|k: (i32, i32)| m@.contains_key(k) ==> #[trigger] m@[k] == (MapTile {
                tile_id: 0,
                tile_type: TileType::Floor,
            }),
        decreases WIDTH_TL - x,
    {
        let mut y: i32 = -HEIGHT_TL;
        while y < HEIGHT_TL
            invariant
                -WIDTH_TL <= x < WIDTH_TL,
                -HEIGHT_TL <= y <= HEIGHT_TL,
                forall|k: (i32, i32)| #[trigger]
                    m@.contains_key(k) <==> ((-WIDTH_TL <= k.0 < x && -HEIGHT_TL <= k.1
                        < HEIGHT_TL) || (k.0 == x && -HEIGHT_TL <= k.1 < y)),
                forall|k: (i32, i32)| m@.contains_key(k) ==> #[trigger] m@[k] == (MapTile {
                    tile_id: 0,
                    tile_type: TileType::Floor,
                }),
            decreases HEIGHT_TL - y,
        {
            let ghost before = m@;
            m.insert(x, y, MapTile { tile_id: 0, tile_type: TileType::Floor });
            proof {
                assert forall|k: (i32, i32)| m@.contains_key(k) implies #[trigger] m@[k]
                    == (MapTile { tile_id: 0, tile_type: TileType::Floor }) by {
                    if k != (x, y) {
                        assert(before.contains_key(k));
                        assert(m@[k] == before[k]);
                    }
                }
            }
            y = y + 1;
        }
        x = x + 1;
    }

    let wall = MapTile { tile_id: 0, tile_type: TileType::Wall };
    m.insert(10, 10, wall);
    m.insert(9, 9, wall);
    m.insert(6, 10, wall);
    m.insert(7, 5, wall);
    m
}

/// Builds the tilesheet descriptor from the atlas geometry of the one
/// tileset the map source provides, so that nothing downstream needs the
/// map source's own data structures.
pub fn load_basic_tilesheet(
    first_tile_id: u32,
    tile_width: u32,
    tile_height: u32,
    spacing: u32,
    margin: u32,
) -> (sheet: TileSheet)
    ensures
        sheet == (TileSheet { first_tile_id, tile_width, tile_height, spacing, margin }),
{
    TileSheet { first_tile_id, tile_width, tile_height, spacing, margin }
}

/// Loads a finite map layer, given row-major as one row of tile ids per map
/// row, into the internal map structure. Cell `(x, y)` of the grid becomes
/// the floor tile with the grid's id at map coordinate `(x, y)`.
pub fn load_basic_map_tmx_finite(tiles: &Vec<Vec<u32>>) -> (m: TileMap)
    requires
        tiles@.len() <= i32::MAX,
        forall|r: int| 0 <= r < tiles@.len() ==> (#[trigger] tiles@[r])@.len() <= i32::MAX,
    ensures
        forall|k: (i32, i32)| #[trigger]
            m@.contains_key(k) <==> (0 <= k.1 < tiles@.len() && 0 <= k.0 < tiles@[k.1 as int]@.len()),
        forall|k: (i32, i32)| m@.contains_key(k) ==> #[trigger] m@[k] == (MapTile {
            tile_id: tiles@[k.1 as int]@[k.0 as int],
            tile_type: TileType::Floor,
        }),
{
    let mut m = TileMap::new();
    let mut y: usize = 0;
    while y < tiles.len()
        invariant
            y <= tiles@.len(),
            tiles@.len() <= i32::MAX,
            forall|r: int| 0 <= r < tiles@.len() ==> (#[trigger] tiles@[r])@.len() <= i32::MAX,
            forall|k: (i32, i32)| #[trigger]
                m@.contains_key(k) <==> (0 <= k.1 < y && 0 <= k.0 < tiles@[k.1 as int]@.len()),
            forall|k: (i32, i32)| m@.contains_key(k) ==> #[trigger] m@[k] == (MapTile {
                tile_id: tiles@[k.1 as int]@[k.0 as int],
                tile_type: TileType::Floor,
            }),
        decreases tiles@.len() - y,
    {
        let row = &tiles[y];
        let mut x: usize = 0;
        while x < row.len()
            invariant
                y < tiles@.len(),
                tiles@.len() <= i32::MAX,
                x <= row@.len(),
                row@ == tiles@[y as int]@,
                forall|r: int| 0 <= r < tiles@.len() ==> (#[trigger] tiles@[r])@.len()
                    <= i32::MAX,
                forall|k: (i32, i32)| #[trigger]
                    m@.contains_key(k) <==> ((0 <= k.1 < y && 0 <= k.0 < tiles@[k.1 as int]@.len())
                        || (k.1 == y && 0 <= k.0 < x)),
                forall|k: (i32, i32)| m@.contains_key(k) ==> #[trigger] m@[k] == (MapTile {
                    tile_id: tiles@[k.1 as int]@[k.0 as int],
                    tile_type: TileType::Floor,
                }),
            decreases row@.len() - x,
        {
            let tile = MapTile { tile_id: row[x], tile_type: TileType::Floor };
            m.insert(x as i32, y as i32, tile);
            x = x + 1;
        }
        y = y + 1;
    }
    m
}

/// Loads a chunked map layer: chunked layers are read as an empty map, a
/// documented stub, rather than rejected.
pub fn load_basic_map_tmx_infinite() -> (m: TileMap)
    ensures
        m@ == Map::<(i32, i32), MapTile>::empty(),
{
    TileMap::new()
}

/// Converts a tile coordinate to its world pixel coordinate.
pub fn to_px(tl: i32) -> (px: i32)
    requires
        i32::MIN <= tl * TL_PX <= i32::MAX,
    ensures
        px == tl * TL_PX,
{
    tl * TL_PX
}

/// Packs an `(x, y)` tile coordinate into a row-major index.
pub fn xy_idx(x: i32, y: i32) -> (idx: usize)
    requires
        0 <= x,
        0 <= y,
        y * WIDTH_TL + x <= usize::MAX,
    ensures
        idx == y * WIDTH_TL + x,
{
    (y as usize) * (WIDTH_TL as usize) + (x as usize)
}

} // verus!
