//! The world map: a fixed-size grid of terrain tiles with per-tile yields,
//! fog-of-war flags (revealed/visible), blocking flags, ownership tags and a
//! per-tile occupancy index.
//!
//! Terrain is classified from an externally produced heightmap, handed in as
//! fixed-point values: a height of 1.0 corresponds to `HEIGHT_SCALE` units.

use vstd::prelude::*;
use vstd::arithmetic::div_mod::lemma_fundamental_div_mod_converse;
use crate::components::{EntityRef, PlayerOrder};

verus! {

/// Default map width used by the game at startup.
pub const MAPWIDTH: usize = 400;

/// Default map height used by the game at startup.
pub const MAPHEIGHT: usize = 300;

/// Number of tiles of the default map.
pub const MAPCOUNT: usize = 400 * 300;

/// Largest accepted map dimension; keeps every index computation in bounds.
pub const MAX_DIM: i32 = 4000;

/// Fixed-point scale of heightmap values: 1.0 maps to 120 units.
pub const HEIGHT_SCALE: i32 = 120;

/// Heights above 1/6 are mountains.
pub const MOUNTAIN_CUTOFF: i32 = 20;

/// Heights above 0 are forest.
pub const FOREST_CUTOFF: i32 = 0;

/// Heights above -1/10 are grasslands.
pub const GRASSLANDS_CUTOFF: i32 = -12;

/// Heights above -1/8 are coast; at or below, water.
pub const COAST_CUTOFF: i32 = -15;

/// One cell of the world grid is classified as one of these terrain kinds.
#[derive(PartialEq, Eq, Structural, Copy, Clone, Debug)]
pub enum TileType {
    Mountain,
    Forest,
    Grasslands,
    Coast,
    Water,
    Ice,
}

/// Per-tile resource yields.
#[derive(PartialEq, Eq, Structural, Copy, Clone, Debug)]
pub struct Yields {
    pub food: i8,
    pub prod: i8,
    pub gold: i8,
}

/// Whether a terrain kind blocks movement regardless of occupancy.
pub open spec fn terrain_blocks(t: TileType) -> bool {
    t is Mountain || t is Water || t is Ice
}

pub fn tile_blocks(t: TileType) -> (b: bool)
    ensures
        b == terrain_blocks(t),
{
    match t {
        TileType::Mountain | TileType::Water | TileType::Ice => true,
        _ => false,
    }
}

/// Terrain classification by height value: the five ordered cutoffs.
pub open spec fn classify(h: int) -> TileType {
    if h > MOUNTAIN_CUTOFF {
        TileType::Mountain
    } else if h > FOREST_CUTOFF {
        TileType::Forest
    } else if h > GRASSLANDS_CUTOFF {
        TileType::Grasslands
    } else if h > COAST_CUTOFF {
        TileType::Coast
    } else {
        TileType::Water
    }
}

pub fn classify_height(h: i32) -> (t: TileType)
    ensures
        t == classify(h as int),
{
    if h > MOUNTAIN_CUTOFF {
        TileType::Mountain
    } else if h > FOREST_CUTOFF {
        TileType::Forest
    } else if h > GRASSLANDS_CUTOFF {
        TileType::Grasslands
    } else if h > COAST_CUTOFF {
        TileType::Coast
    } else {
        TileType::Water
    }
}

/// The yields a freshly generated tile of the given terrain carries:
/// mountains and ice yield nothing, every other terrain a base yield.
pub open spec fn yield_for(t: TileType) -> Yields {
    if t is Mountain || t is Ice {
        Yields { food: 0, prod: 0, gold: 0 }
    } else {
        Yields { food: 1, prod: 1, gold: 1 }
    }
}

pub fn yield_of(t: TileType) -> (y: Yields)
    ensures
        y == yield_for(t),
{
    match t {
        TileType::Mountain | TileType::Ice => Yields { food: 0, prod: 0, gold: 0 },
        _ => Yields { food: 1, prod: 1, gold: 1 },
    }
}

/// The terrain a generated map holds at (x, y): border tiles are forced to
/// ice, interior tiles are classified from the heightmap.
pub open spec fn gen_tile(width: int, height: int, heights: Seq<i32>, x: int, y: int) -> TileType {
    if x == 0 || x == width - 1 || y == 0 || y == height - 1 {
        TileType::Ice
    } else {
        classify(heights[y * width + x] as int)
    }
}

/// Row-major flattening of an x/y coordinate into a tile index.
pub fn xy_idx(width: i32, x: i32, y: i32) -> (idx: usize)
    requires
        1 <= width <= MAX_DIM,
        0 <= x < width,
        0 <= y <= MAX_DIM,
    ensures
        idx == y * width + x,
{
    proof {
        assert(0 <= y * width + x <= 4000 * 4000 + 4000) by (nonlinear_arith)
            requires
                0 <= x < width,
                1 <= width <= 4000,
                0 <= y <= 4000,
        ;
    }
    (y as usize) * (width as usize) + (x as usize)
}

/// Build a vector of `n` copies of `value`.
fn filled<T: Copy>(value: T, n: usize) -> (v: Vec<T>)
    ensures
        v@.len() == n,
        forall|i: int| 0 <= i < n ==> v@[i] == value,
{
    let mut v: Vec<T> = Vec::new();
    let mut k: usize = 0;
    while k < n
        invariant
            k <= n,
            v@.len() == k,
            forall|i: int| 0 <= i < k ==> v@[i] == value,
        decreases n - k,
    {
        v.push(value);
        k = k + 1;
    }
    v
}

/// Build a vector of `n` empty occupancy lists.
fn empty_contents(n: usize) -> (v: Vec<Vec<EntityRef>>)
    ensures
        v@.len() == n,
        forall|i: int| 0 <= i < n ==> #[trigger] v@[i]@.len() == 0,
{
    let mut v: Vec<Vec<EntityRef>> = Vec::new();
    let mut k: usize = 0;
    while k < n
        invariant
            k <= n,
            v@.len() == k,
            forall|i: int| 0 <= i < k ==> #[trigger] v@[i]@.len() == 0,
        decreases n - k,
    {
        v.push(Vec::new());
        k = k + 1;
    }
    v
}

/// Contains all tiles of the map: terrain, yields, fog-of-war state, blocking
/// state, per-tile occupancy and per-tile ownership.
#[derive(Clone, Debug)]
pub struct WorldMap {
    pub tiles: Vec<TileType>,
    pub yields: Vec<Yields>,
    pub width: i32,
    pub height: i32,
    pub revealed_tiles: Vec<bool>,
    pub visible_tiles: Vec<bool>,
    pub blocked: Vec<bool>,
    pub tile_content: Vec<Vec<EntityRef>>,
    pub claimed_tiles: Vec<PlayerOrder>,
}

impl WorldMap {
    /// Number of tiles.
    pub open spec fn area(self) -> int {
        self.width * self.height
    }

    /// Dimensions are in range and every per-tile vector covers the grid.
    pub open spec fn well_formed(self) -> bool {
        &&& 3 <= self.width <= MAX_DIM
        &&& 3 <= self.height <= MAX_DIM
        &&& self.tiles@.len() == self.area()
        &&& self.yields@.len() == self.area()
        &&& self.revealed_tiles@.len() == self.area()
        &&& self.visible_tiles@.len() == self.area()
        &&& self.blocked@.len() == self.area()
        &&& self.tile_content@.len() == self.area()
        &&& self.claimed_tiles@.len() == self.area()
    }

    pub open spec fn spec_in_bounds(self, x: int, y: int) -> bool {
        0 <= x < self.width && 0 <= y < self.height
    }

    /// Row-major index of (x, y).
    pub open spec fn spec_idx(self, x: int, y: int) -> int {
        y * self.width + x
    }

    /// Whether (x, y) lies on the map's border.
    pub open spec fn spec_is_border(self, x: int, y: int) -> bool {
        x == 0 || x == self.width - 1 || y == 0 || y == self.height - 1
    }

    /// An in-bounds coordinate flattens to an in-range index.
    pub proof fn lemma_idx_bounds(self, x: int, y: int)
        requires
            self.spec_in_bounds(x, y),
        ensures
            0 <= self.spec_idx(x, y) < self.area(),
    {
        assert(0 <= y * self.width + x < self.width * self.height) by (nonlinear_arith)
            requires
                0 <= x < self.width,
                0 <= y < self.height,
        ;
    }

    /// Distinct in-bounds coordinates flatten to distinct indices.
    pub proof fn lemma_idx_injective(self)
        ensures
            forall|x1: int, y1: int, x2: int, y2: int|
                self.spec_in_bounds(x1, y1) && self.spec_in_bounds(x2, y2)
                    && #[trigger] self.spec_idx(x1, y1) == #[trigger] self.spec_idx(x2, y2)
                    ==> x1 == x2 && y1 == y2,
    {
        assert forall|x1: int, y1: int, x2: int, y2: int|
            self.spec_in_bounds(x1, y1) && self.spec_in_bounds(x2, y2)
                && #[trigger] self.spec_idx(x1, y1) == #[trigger] self.spec_idx(x2, y2)
                implies x1 == x2 && y1 == y2 by {
            lemma_fundamental_div_mod_converse(self.spec_idx(x1, y1), self.width as int, y1, x1);
            lemma_fundamental_div_mod_converse(self.spec_idx(x2, y2), self.width as int, y2, x2);
        }
    }

    /// Every in-range index is the flattening of exactly one in-bounds
    /// coordinate, namely (i % width, i / width).
    pub proof fn lemma_idx_split(self, i: int)
        requires
            self.width >= 1,
            self.height >= 1,
            0 <= i < self.area(),
        ensures
            self.spec_in_bounds(i % self.width as int, i / self.width as int),
            self.spec_idx(i % self.width as int, i / self.width as int) == i,
    {
        let w = self.width as int;
        vstd::arithmetic::div_mod::lemma_fundamental_div_mod(i, w);
        vstd::arithmetic::div_mod::lemma_mod_bound(i, w);
        vstd::arithmetic::div_mod::lemma_div_pos_is_pos(i, w);
        assert(i / w < self.height) by (nonlinear_arith)
            requires
                w >= 1,
                0 <= i < w * self.height,
                i == w * (i / w) + (i % w),
                0 <= i % w < w,
                0 <= i / w,
        ;
    }

    /// Holds when this map is exactly the map generated from the given
    /// dimensions and heightmap: terrain and yields follow the heightmap with
    /// an ice border, all flags start cleared and all tiles start unclaimed.
    pub open spec fn generated_from(self, width: int, height: int, heights: Seq<i32>) -> bool {
        &&& self.width == width
        &&& self.height == height
        &&& self.well_formed()
        &&& heights.len() == self.area()
        &&& forall|x: int, y: int|
            self.spec_in_bounds(x, y) ==> #[trigger] self.tiles@[self.spec_idx(x, y)] == gen_tile(
                width,
                height,
                heights,
                x,
                y,
            )
        &&& forall|x: int, y: int|
            self.spec_in_bounds(x, y) ==> #[trigger] self.yields@[self.spec_idx(x, y)] == yield_for(
                gen_tile(width, height, heights, x, y),
            )
        &&& forall|i: int| 0 <= i < self.area() ==> !(#[trigger] self.revealed_tiles@[i])
        &&& forall|i: int| 0 <= i < self.area() ==> !(#[trigger] self.visible_tiles@[i])
        &&& forall|i: int| 0 <= i < self.area() ==> !(#[trigger] self.blocked@[i])
        &&& forall|i: int| 0 <= i < self.area() ==> #[trigger] self.claimed_tiles@[i] is NoPlayer
        &&& forall|i: int| 0 <= i < self.area() ==> #[trigger] self.tile_content@[i]@.len() == 0
    }

    /// Allocate the tile grid and classify every tile from the heightmap;
    /// every border tile is forced to ice so the map is fully enclosed.
    pub fn new_map(width: i32, height: i32, heights: &Vec<i32>) -> (m: WorldMap)
        requires
            3 <= width <= MAX_DIM,
            3 <= height <= MAX_DIM,
            heights@.len() == width * height,
        ensures
            m.well_formed(),
            m.generated_from(width as int, height as int, heights@),
    {
        proof {
            assert(0 <= width * height <= 4000 * 4000) by (nonlinear_arith)
                requires
                    3 <= width <= 4000,
                    3 <= height <= 4000,
            ;
        }
        let area_us: usize = (width as usize) * (height as usize);
        let mut m = WorldMap {
            tiles: filled(TileType::Water, area_us),
            yields: filled(Yields { food: 1, prod: 1, gold: 1 }, area_us),
            width,
            height,
            revealed_tiles: filled(false, area_us),
            visible_tiles: filled(false, area_us),
            blocked: filled(false, area_us),
            tile_content: empty_contents(area_us),
            claimed_tiles: filled(PlayerOrder::NoPlayer, area_us),
        };

        let mut y: i32 = 0;
        while y < height
            invariant
                0 <= y <= height,
                m.width == width,
                m.height == height,
                3 <= width <= MAX_DIM,
                3 <= height <= MAX_DIM,
                heights@.len() == m.area(),
                m.well_formed(),
                forall|x2: int, y2: int|
                    m.spec_in_bounds(x2, y2) && y2 < y ==> #[trigger] m.tiles@[m.spec_idx(x2, y2)]
                        == gen_tile(width as int, height as int, heights@, x2, y2),
                forall|x2: int, y2: int|
                    m.spec_in_bounds(x2, y2) && y2 < y ==> #[trigger] m.yields@[m.spec_idx(x2, y2)]
                        == yield_for(gen_tile(width as int, height as int, heights@, x2, y2)),
                forall|i: int| 0 <= i < m.area() ==> !(#[trigger] m.revealed_tiles@[i]),
                forall|i: int| 0 <= i < m.area() ==> !(#[trigger] m.visible_tiles@[i]),
                forall|i: int| 0 <= i < m.area() ==> !(#[trigger] m.blocked@[i]),
                forall|i: int| 0 <= i < m.area() ==> #[trigger] m.claimed_tiles@[i] is NoPlayer,
                forall|i: int| 0 <= i < m.area() ==> #[trigger] m.tile_content@[i]@.len() == 0,
            decreases height - y,
        {
            let mut x: i32 = 0;
            while x < width
                invariant
                    0 <= y < height,
                    0 <= x <= width,
                    m.width == width,
                    m.height == height,
                    3 <= width <= MAX_DIM,
                    3 <= height <= MAX_DIM,
                    heights@.len() == m.area(),
                    m.well_formed(),
                    forall|x2: int, y2: int|
                        m.spec_in_bounds(x2, y2) && (y2 < y || (y2 == y && x2 < x)) ==> #[trigger] m.tiles@[m.spec_idx(x2, y2)]
                            == gen_tile(width as int, height as int, heights@, x2, y2),
                    forall|x2: int, y2: int|
                        m.spec_in_bounds(x2, y2) && (y2 < y || (y2 == y && x2 < x)) ==> #[trigger] m.yields@[m.spec_idx(x2, y2)]
                            == yield_for(gen_tile(width as int, height as int, heights@, x2, y2)),
                    forall|i: int| 0 <= i < m.area() ==> !(#[trigger] m.revealed_tiles@[i]),
                    forall|i: int| 0 <= i < m.area() ==> !(#[trigger] m.visible_tiles@[i]),
                    forall|i: int| 0 <= i < m.area() ==> !(#[trigger] m.blocked@[i]),
                    forall|i: int| 0 <= i < m.area() ==> #[trigger] m.claimed_tiles@[i] is NoPlayer,
                    forall|i: int| 0 <= i < m.area() ==> #[trigger] m.tile_content@[i]@.len() == 0,
                decreases width - x,
            {
                let idx = xy_idx(width, x, y);
                proof {
                    m.lemma_idx_bounds(x as int, y as int);
                }
                let ghost m0 = m;
                let t: TileType = if x == 0 || x == width - 1 || y == 0 || y == height - 1 {
                    TileType::Ice
                } else {
                    classify_height(heights[idx])
                };
                let yl = yield_of(t);
                m.tiles.set(idx, t);
                m.yields.set(idx, yl);
                proof {
                    assert(t == gen_tile(width as int, height as int, heights@, x as int, y as int));
                    assert forall|x2: int, y2: int|
                        m.spec_in_bounds(x2, y2) && (y2 < y || (y2 == y && x2 <= x)) implies
                        #[trigger] m.tiles@[m.spec_idx(x2, y2)] == gen_tile(
                            width as int,
                            height as int,
                            heights@,
                            x2,
                            y2,
                        ) by {
                        m.lemma_idx_bounds(x2, y2);
                        if x2 == x as int && y2 == y as int {
                        } else {
                            if m.spec_idx(x2, y2) == m.spec_idx(x as int, y as int) {
                                lemma_fundamental_div_mod_converse(
                                    m.spec_idx(x2, y2),
                                    width as int,
                                    y2,
                                    x2,
                                );
                                lemma_fundamental_div_mod_converse(
                                    m.spec_idx(x2, y2),
                                    width as int,
                                    y as int,
                                    x as int,
                                );
                            }
                            assert(m0.tiles@[m0.spec_idx(x2, y2)] == gen_tile(
                                width as int,
                                height as int,
                                heights@,
                                x2,
                                y2,
                            ));
                        }
                    }
                    assert forall|x2: int, y2: int|
                        m.spec_in_bounds(x2, y2) && (y2 < y || (y2 == y && x2 <= x)) implies
                        #[trigger] m.yields@[m.spec_idx(x2, y2)] == yield_for(gen_tile(
                            width as int,
                            height as int,
                            heights@,
                            x2,
                            y2,
                        )) by {
                        m.lemma_idx_bounds(x2, y2);
                        if x2 == x as int && y2 == y as int {
                        } else {
                            if m.spec_idx(x2, y2) == m.spec_idx(x as int, y as int) {
                                lemma_fundamental_div_mod_converse(
                                    m.spec_idx(x2, y2),
                                    width as int,
                                    y2,
                                    x2,
                                );
                                lemma_fundamental_div_mod_converse(
                                    m.spec_idx(x2, y2),
                                    width as int,
                                    y as int,
                                    x as int,
                                );
                            }
                            assert(m0.yields@[m0.spec_idx(x2, y2)] == yield_for(gen_tile(
                                width as int,
                                height as int,
                                heights@,
                                x2,
                                y2,
                            )));
                        }
                    }
                }
                x = x + 1;
            }
            y = y + 1;
        }
        m
    }

    /// Border invariant: on every generated map, every border tile is ice.
    pub proof fn lemma_border_ice(self, width: int, height: int, heights: Seq<i32>, x: int, y: int)
        requires
            self.generated_from(width, height, heights),
            self.spec_in_bounds(x, y),
            self.spec_is_border(x, y),
        ensures
            self.tiles@[self.spec_idx(x, y)] is Ice,
    {
    }

    /// Terrain determinism: two maps generated from the same dimensions and
    /// the same heightmap agree on every tile — terrain, yields, and all
    /// initial per-tile state.
    pub proof fn lemma_generation_deterministic(
        m1: WorldMap,
        m2: WorldMap,
        width: int,
        height: int,
        heights: Seq<i32>,
    )
        requires
            m1.generated_from(width, height, heights),
            m2.generated_from(width, height, heights),
        ensures
            m1.tiles@ == m2.tiles@,
            m1.yields@ == m2.yields@,
            m1.revealed_tiles@ == m2.revealed_tiles@,
            m1.visible_tiles@ == m2.visible_tiles@,
            m1.blocked@ == m2.blocked@,
            m1.claimed_tiles@ == m2.claimed_tiles@,
            forall|i: int|
                0 <= i < m1.area() ==> #[trigger] m1.tile_content@[i]@ == m2.tile_content@[i]@,
    {
        assert forall|i: int| 0 <= i < m1.area() implies #[trigger] m1.tiles@[i] == m2.tiles@[i] by {
            m1.lemma_idx_split(i);
            m2.lemma_idx_split(i);
        }
        assert forall|i: int| 0 <= i < m1.area() implies #[trigger] m1.yields@[i]
            == m2.yields@[i] by {
            m1.lemma_idx_split(i);
            m2.lemma_idx_split(i);
        }
        assert(m1.tiles@ =~= m2.tiles@);
        assert(m1.yields@ =~= m2.yields@);
        assert(m1.revealed_tiles@ =~= m2.revealed_tiles@);
        assert(m1.visible_tiles@ =~= m2.visible_tiles@);
        assert(m1.blocked@ =~= m2.blocked@);
        assert(m1.claimed_tiles@ =~= m2.claimed_tiles@);
        assert forall|i: int| 0 <= i < m1.area() implies #[trigger] m1.tile_content@[i]@
            == m2.tile_content@[i]@ by {
            assert(m1.tile_content@[i]@ =~= m2.tile_content@[i]@);
        }
    }

    pub fn in_bounds(&self, x: i32, y: i32) -> (b: bool)
        ensures
            b == self.spec_in_bounds(x as int, y as int),
    {
        0 <= x && x < self.width && 0 <= y && y < self.height
    }

    /// Flatten an in-bounds coordinate to its tile index.
    pub fn idx(&self, x: i32, y: i32) -> (i: usize)
        requires
            self.well_formed(),
            self.spec_in_bounds(x as int, y as int),
        ensures
            i == self.spec_idx(x as int, y as int),
            0 <= i < self.area(),
    {
        proof {
            self.lemma_idx_bounds(x as int, y as int);
        }
        xy_idx(self.width, x, y)
    }

    /// Mark every tile whose terrain blocks movement as blocked.
    pub fn populate_blocked(&mut self)
        requires
            old(self).well_formed(),
        ensures
            final(self).well_formed(),
            final(self).tiles == old(self).tiles,
            final(self).yields == old(self).yields,
            final(self).width == old(self).width,
            final(self).height == old(self).height,
            final(self).revealed_tiles == old(self).revealed_tiles,
            final(self).visible_tiles == old(self).visible_tiles,
            final(self).tile_content == old(self).tile_content,
            final(self).claimed_tiles == old(self).claimed_tiles,
            forall|i: int|
                0 <= i < final(self).area() ==> #[trigger] final(self).blocked@[i] == (old(
                    self,
                ).blocked@[i] || terrain_blocks(final(self).tiles@[i])),
    {
        let n = self.blocked.len();
        let mut i: usize = 0;
        while i < n
            invariant
                n == self.blocked@.len(),
                i <= n,
                self.well_formed(),
                self.tiles == old(self).tiles,
                self.yields == old(self).yields,
                self.width == old(self).width,
                self.height == old(self).height,
                self.revealed_tiles == old(self).revealed_tiles,
                self.visible_tiles == old(self).visible_tiles,
                self.tile_content == old(self).tile_content,
                self.claimed_tiles == old(self).claimed_tiles,
                forall|k: int|
                    0 <= k < i ==> #[trigger] self.blocked@[k] == (old(self).blocked@[k]
                        || terrain_blocks(self.tiles@[k])),
                forall|k: int| i <= k < n ==> #[trigger] self.blocked@[k] == old(self).blocked@[k],
            decreases n - i,
        {
            if tile_blocks(self.tiles[i]) {
                self.blocked.set(i, true);
            }
            i = i + 1;
        }
    }

    /// Clear the occupancy list of every tile.
    pub fn clear_content_index(&mut self)
        requires
            old(self).well_formed(),
        ensures
            final(self).well_formed(),
            final(self).tiles == old(self).tiles,
            final(self).yields == old(self).yields,
            final(self).width == old(self).width,
            final(self).height == old(self).height,
            final(self).revealed_tiles == old(self).revealed_tiles,
            final(self).visible_tiles == old(self).visible_tiles,
            final(self).blocked == old(self).blocked,
            final(self).claimed_tiles == old(self).claimed_tiles,
            forall|i: int|
                0 <= i < final(self).area() ==> #[trigger] final(self).tile_content@[i]@.len() == 0,
    {
        let n = self.tile_content.len();
        let mut i: usize = 0;
        while i < n
            invariant
                n == self.tile_content@.len(),
                i <= n,
                self.well_formed(),
                self.tiles == old(self).tiles,
                self.yields == old(self).yields,
                self.width == old(self).width,
                self.height == old(self).height,
                self.revealed_tiles == old(self).revealed_tiles,
                self.visible_tiles == old(self).visible_tiles,
                self.blocked == old(self).blocked,
                self.claimed_tiles == old(self).claimed_tiles,
                forall|k: int| 0 <= k < i ==> #[trigger] self.tile_content@[k]@.len() == 0,
            decreases n - i,
        {
            self.tile_content.set(i, Vec::new());
            i = i + 1;
        }
    }

    /// Clear every blocked flag, so the current tick can recompute them.
    pub fn clear_blocked(&mut self)
        requires
            old(self).well_formed(),
        ensures
            final(self).well_formed(),
            final(self).tiles == old(self).tiles,
            final(self).yields == old(self).yields,
            final(self).width == old(self).width,
            final(self).height == old(self).height,
            final(self).revealed_tiles == old(self).revealed_tiles,
            final(self).visible_tiles == old(self).visible_tiles,
            final(self).tile_content == old(self).tile_content,
            final(self).claimed_tiles == old(self).claimed_tiles,
            forall|i: int| 0 <= i < final(self).area() ==> !(#[trigger] final(self).blocked@[i]),
    {
        let n = self.blocked.len();
        let mut i: usize = 0;
        while i < n
            invariant
                n == self.blocked@.len(),
                i <= n,
                self.well_formed(),
                self.tiles == old(self).tiles,
                self.yields == old(self).yields,
                self.width == old(self).width,
                self.height == old(self).height,
                self.revealed_tiles == old(self).revealed_tiles,
                self.visible_tiles == old(self).visible_tiles,
                self.tile_content == old(self).tile_content,
                self.claimed_tiles == old(self).claimed_tiles,
                forall|k: int| 0 <= k < i ==> !(#[trigger] self.blocked@[k]),
            decreases n - i,
        {
            self.blocked.set(i, false);
            i = i + 1;
        }
    }

    /// A tile is opaque to sight exactly when its terrain is ice.
    pub fn is_opaque(&self, idx: usize) -> (b: bool)
        requires
            self.well_formed(),
            idx < self.area(),
        ensures
            b == (self.tiles@[idx as int] is Ice),
    {
        matches!(self.tiles[idx], TileType::Ice)
    }

    pub fn dimensions(&self) -> (d: (i32, i32))
        ensures
            d.0 == self.width,
            d.1 == self.height,
    {
        (self.width, self.height)
    }
}

} // verus!
