//! The map as a playing field: the box its content fills, how each cell is
//! drawn, writes into it, where the player starts, the light cones, and
//! the moving platforms that stamp themselves into the map as they go.
use vstd::prelude::*;
use crate::data::{
    attr_spec, flag_set, lemma_cell_index, level_wf, tile_spec, GameData, LevelJson, MASKED_TILE_THRESHOLD,
    TILE_ATTR_BLOCK_SOUTH, TILE_ATTR_IN_FRONT,
};
use crate::effects::{dir8, dir8_step};
use crate::player::Player;

verus! {

/// Whether `(x, y)` is on the grid and holds something other than air.
pub open spec fn filled(level: &LevelJson, x: int, y: int) -> bool {
    0 <= x < level.width && 0 <= y < level.height && tile_spec(level, x, y) != 0
}

/// The box `(min_x, min_y, max_x, max_y)` the non-air cells fill, the
/// maxima one past the last; the whole grid when there are none.
pub open spec fn is_content_box(level: &LevelJson, r: (usize, usize, usize, usize)) -> bool {
    if !(exists|x: int, y: int| filled(level, x, y)) {
        r == (0usize, 0usize, level.width, level.height)
    } else {
        let (x0, y0, x1, y1) = (r.0 as int, r.1 as int, r.2 - 1, r.3 - 1);
        &&& forall|x: int, y: int| filled(level, x, y) ==> r.0 <= x < r.2 && r.1 <= y < r.3
        &&& exists|y: int| filled(level, x0, y)
        &&& exists|y: int| filled(level, x1, y)
        &&& exists|x: int| filled(level, x, y0)
        &&& exists|x: int| filled(level, x, y1)
    }
}

/// Tile-space bounding box of the non-air cells.
pub fn content_bounds(level: &LevelJson) -> (r: (usize, usize, usize, usize))
    requires
        level_wf(level),
    ensures
        is_content_box(level, r),
{
    let w = level.width;
    let h = level.height;
    let (mut min_x, mut min_y) = (w, h);
    let (mut max_x, mut max_y): (usize, usize) = (0, 0);
    let mut any = false;
    let ghost mut wx0: (int, int) = (0, 0);
    let ghost mut wx1: (int, int) = (0, 0);
    let ghost mut wy0: (int, int) = (0, 0);
    let ghost mut wy1: (int, int) = (0, 0);
    let mut y: usize = 0;
    while y < h
        invariant
            level_wf(level),
            w == level.width,
            h == level.height,
            y <= h,
            !any ==> forall|a: int, b: int| 0 <= b < y && filled(level, a, b) ==> false,
            any ==> {
                &&& forall|a: int, b: int| 0 <= b < y && filled(level, a, b) ==> min_x <= a <= max_x && min_y <= b <= max_y
                &&& filled(level, wx0.0, wx0.1) && wx0.0 == min_x
                &&& filled(level, wx1.0, wx1.1) && wx1.0 == max_x
                &&& filled(level, wy0.0, wy0.1) && wy0.1 == min_y
                &&& filled(level, wy1.0, wy1.1) && wy1.1 == max_y
                &&& max_x < w && max_y < h
            },
        decreases h - y,
    {
        let mut x: usize = 0;
        while x < w
            invariant
                level_wf(level),
                w == level.width,
                h == level.height,
                y < h,
                x <= w,
                !any ==> forall|a: int, b: int| ((0 <= b < y) || (b == y && 0 <= a < x)) && filled(level, a, b) ==> false,
                any ==> {
                    &&& forall|a: int, b: int| ((0 <= b < y) || (b == y && 0 <= a < x)) && filled(level, a, b) ==> min_x <= a <= max_x
                        && min_y <= b <= max_y
                    &&& filled(level, wx0.0, wx0.1) && wx0.0 == min_x
                    &&& filled(level, wx1.0, wx1.1) && wx1.0 == max_x
                    &&& filled(level, wy0.0, wy0.1) && wy0.1 == min_y
                    &&& filled(level, wy1.0, wy1.1) && wy1.1 == max_y
                    &&& max_x < w && max_y < h
                },
            decreases w - x,
        {
            if level.tile_at(x, y) != 0 {
                if !any {
                    min_x = x;
                    min_y = y;
                    max_x = x;
                    max_y = y;
                    proof {
                        wx0 = (x as int, y as int);
                        wx1 = (x as int, y as int);
                        wy0 = (x as int, y as int);
                        wy1 = (x as int, y as int);
                    }
                } else {
                    if x < min_x {
                        min_x = x;
                        proof {
                            wx0 = (x as int, y as int);
                        }
                    }
                    if y < min_y {
                        min_y = y;
                        proof {
                            wy0 = (x as int, y as int);
                        }
                    }
                    if x > max_x {
                        max_x = x;
                        proof {
                            wx1 = (x as int, y as int);
                        }
                    }
                    if y > max_y {
                        max_y = y;
                        proof {
                            wy1 = (x as int, y as int);
                        }
                    }
                }
                any = true;
            }
            x = x + 1;
        }
        y = y + 1;
    }
    if !any {
        assert forall|a: int, b: int| !filled(level, a, b) by {
            if filled(level, a, b) {
                assert(0 <= b < h);
            }
        }
        return (0, 0, w, h);
    }
    let r = (min_x, min_y, max_x + 1, max_y + 1);
    proof {
        assert(exists|x: int, y: int| filled(level, x, y)) by {
            assert(filled(level, wx0.0, wx0.1));
        }
        let (x0, y0, x1, y1) = (r.0 as int, r.1 as int, r.2 - 1, r.3 - 1);
        assert(filled(level, x0, wx0.1));
        assert(filled(level, x1, wx1.1));
        assert(filled(level, wy0.0, y0));
        assert(filled(level, wy1.0, y1));
        assert forall|a: int, b: int| filled(level, a, b) implies r.0 <= a < r.2 && r.1 <= b < r.3 by {
            assert(0 <= b < h);
        }
    }
    r
}

/// The map after a write at `(x, y)`: only on the grid.
pub open spec fn written(t: Seq<u16>, w: int, h: int, x: int, y: int, raw: u16) -> Seq<u16> {
    if 0 <= x < w && 0 <= y < h { t.update(y * w + x, raw) } else { t }
}

/// `SetMapTile`: writes a cell if it is on the grid. Gives whether it
/// was, so the cell's drawing can be rebuilt.
pub fn write_tile(level: &mut LevelJson, x: i32, y: i32, raw: u16) -> (r: bool)
    requires
        level_wf(old(level)),
    ensures
        r == (0 <= x < old(level).width && 0 <= y < old(level).height),
        final(level).tiles@ == written(old(level).tiles@, old(level).width as int, old(level).height as int, x as int, y as int, raw),
        final(level).width == old(level).width,
        final(level).height == old(level).height,
        final(level).actors@ == old(level).actors@,
        level_wf(final(level)),
{
    if x < 0 || y < 0 || x as usize >= level.width || y as usize >= level.height {
        return false;
    }
    let (x, y) = (x as usize, y as usize);
    proof {
        lemma_cell_index(x as int, y as int, level.width as int, level.height as int);
    }
    let i = y * level.width + x;
    level.tiles.set(i, raw);
    true
}

/// How a cell is drawn: which sheet, which tile of it, and whether it
/// draws in front of the sprites.
#[derive(Clone, Copy, PartialEq, Eq, Debug, Structural)]
pub struct TileCell {
    pub masked: bool,
    pub index: usize,
    pub front: bool,
}

/// Values below 80 are air or a platform route command, showing the
/// backdrop; masked tiles are addressed by 40-byte offsets past the
/// threshold, solid ones by eight.
pub open spec fn tile_cell_spec(raw: u16, attr: u8) -> Option<TileCell> {
    if raw < 80 {
        None
    } else if raw >= MASKED_TILE_THRESHOLD {
        Some(TileCell { masked: true, index: ((raw - MASKED_TILE_THRESHOLD) / 40) as usize, front: flag_set(attr, TILE_ATTR_IN_FRONT) })
    } else {
        Some(TileCell { masked: false, index: (raw / 8) as usize, front: flag_set(attr, TILE_ATTR_IN_FRONT) })
    }
}

pub fn tile_cell(raw: u16, data: &GameData) -> (r: Option<TileCell>)
    ensures
        r == tile_cell_spec(raw, attr_spec(data, raw)),
{
    if raw < 80 {
        return None;
    }
    let front = data.tile_attr(raw) & TILE_ATTR_IN_FRONT != 0;
    if raw >= MASKED_TILE_THRESHOLD {
        Some(TileCell { masked: true, index: ((raw - MASKED_TILE_THRESHOLD) / 40) as usize, front })
    } else {
        Some(TileCell { masked: false, index: (raw / 8) as usize, front })
    }
}

/// The player start (map type 0), or `(2, 2)` when the level has none.
pub open spec fn start_from(actors: Seq<crate::data::LevelActorJson>, i: int) -> (i32, i32)
    decreases actors.len() - i,
{
    if i < 0 || i >= actors.len() {
        (2, 2)
    } else if actors[i].map_type == 0 {
        (actors[i].x as i32, actors[i].y as i32)
    } else {
        start_from(actors, i + 1)
    }
}

pub fn find_player_start(level: &LevelJson) -> (r: (i32, i32))
    ensures
        r == start_from(level.actors@, 0),
{
    let mut i: usize = 0;
    while i < level.actors.len()
        invariant
            i <= level.actors@.len(),
            start_from(level.actors@, 0) == start_from(level.actors@, i as int),
        decreases level.actors@.len() - i,
    {
        let a = level.actors[i];
        if a.map_type == 0 {
            return (a.x as i32, a.y as i32);
        }
        i = i + 1;
    }
    (2, 2)
}

/// `LIGHT_SIDE_*`: the cone's west edge, middle, or east edge.
#[derive(Clone, Copy, PartialEq, Eq, Debug, Structural)]
pub enum LightSide {
    West,
    Middle,
    East,
}

/// Whether pixel `col` of row `row` of a cone cell is lit: the middle is
/// lit throughout; the west edge fills in from the east over the eight
/// rows, and the east edge from the west.
pub open spec fn lit(side: LightSide, row: int, col: int) -> bool {
    match side {
        LightSide::Middle => true,
        LightSide::West => col >= 7 - row,
        LightSide::East => col <= row,
    }
}

impl LightSide {
    /// The row's mask, leftmost pixel first.
    pub fn row_mask(self, row: usize) -> (r: [bool; 8])
        requires
            row < 8,
        ensures
            forall|col: int| 0 <= col < 8 ==> #[trigger] r@[col] == lit(self, row as int, col),
    {
        let mut out = [false; 8];
        let mut col: usize = 0;
        while col < 8
            invariant
                col <= 8,
                row < 8,
                forall|c: int| 0 <= c < col ==> #[trigger] out@[c] == lit(self, row as int, c),
            decreases 8 - col,
        {
            let on = match self {
                LightSide::Middle => true,
                LightSide::West => col + row >= 7,
                LightSide::East => col <= row,
            };
            out[col] = on;
            col = col + 1;
        }
        out
    }

    /// An 8x8 RGBA image of the cell: white at the light's strength where
    /// lit, clear elsewhere.
    pub fn pixels(self) -> (r: Vec<u8>)
        ensures
            r@.len() == 256,
            forall|row: int, col: int| 0 <= row < 8 && 0 <= col < 8 ==> #[trigger] pixel_ok(r@, self, row * 8 + col),
    {
        let mut px: Vec<u8> = Vec::new();
        let mut k: usize = 0;
        while k < 64
            invariant
                k <= 64,
                px@.len() == 4 * k,
                forall|j: int| 0 <= j < k ==> #[trigger] pixel_ok(px@, self, j),
            decreases 64 - k,
        {
            let row = k / 8;
            let col = k % 8;
            let on = match self {
                LightSide::Middle => true,
                LightSide::West => col + row >= 7,
                LightSide::East => col <= row,
            };
            let ghost before = px@;
            if on {
                px.push(255);
                px.push(255);
                px.push(255);
                px.push(LIGHT_ALPHA);
            } else {
                px.push(0);
                px.push(0);
                px.push(0);
                px.push(0);
            }
            proof {
                assert(row == k / 8 && col == k % 8);
                assert(on == lit(self, k as int / 8, k as int % 8));
                assert(pixel_ok(px@, self, k as int));
                assert forall|j: int| 0 <= j < k + 1 implies #[trigger] pixel_ok(px@, self, j) by {
                    if j < k {
                        assert(pixel_ok(before, self, j));
                        assert(px@[4 * j] == before[4 * j] && px@[4 * j + 1] == before[4 * j + 1]
                            && px@[4 * j + 2] == before[4 * j + 2] && px@[4 * j + 3] == before[4 * j + 3]);
                    }
                }
            }
            k = k + 1;
        }
        px
    }
}

/// Pixel `j` (row `j / 8`, column `j % 8`) of a cone cell's RGBA image:
/// white at the light's strength where lit, clear elsewhere.
pub open spec fn pixel_ok(px: Seq<u8>, side: LightSide, j: int) -> bool {
    if lit(side, j / 8, j % 8) {
        px[4 * j] == 255 && px[4 * j + 1] == 255 && px[4 * j + 2] == 255 && px[4 * j + 3] == LIGHT_ALPHA
    } else {
        px[4 * j] == 0 && px[4 * j + 1] == 0 && px[4 * j + 2] == 0 && px[4 * j + 3] == 0
    }
}

/// How strongly a lit cell is brightened.
pub const LIGHT_ALPHA: u8 = 56;

/// `LIGHT_CAST_DISTANCE`: episode 1 casts eleven rows, the later two
/// thirteen.
pub fn light_cast_distance(episode: u8) -> (r: i32)
    ensures
        r == (if episode == 1 { 11i32 } else { 13i32 }),
{
    if episode == 1 {
        11
    } else {
        13
    }
}

/// One lit cell: where, and the shape it is lit in.
#[derive(Clone, Copy, PartialEq, Eq, Debug, Structural)]
pub struct LightCell {
    pub x: i32,
    pub y: i32,
    pub side: LightSide,
}

/// The side a light's map type gives it, if it is a light.
pub open spec fn light_side(map_type: u16) -> Option<LightSide> {
    if map_type == 6 {
        Some(LightSide::West)
    } else if map_type == 7 {
        Some(LightSide::Middle)
    } else if map_type == 8 {
        Some(LightSide::East)
    } else {
        None
    }
}

/// The full-width cells a cone casts below its source, from `row` on:
/// down until a floor stops it, the map ends, or the reach runs out.
pub open spec fn cone_below(level: &LevelJson, data: &GameData, x: int, y: int, reach: int, row: int) -> Seq<LightCell>
    decreases y + reach - row,
{
    if row >= y + reach || row < 0 || row >= level.height
        || flag_set(attr_spec(data, tile_spec(level, x, row)), TILE_ATTR_BLOCK_SOUTH) {
        Seq::empty()
    } else {
        seq![LightCell { x: x as i32, y: row as i32, side: LightSide::Middle }] + cone_below(level, data, x, y, reach, row + 1)
    }
}

/// Every light's cells, in actor order: its own cell in its shape, then
/// the cone below.
pub open spec fn light_cells_spec(level: &LevelJson, data: &GameData, reach: int, n: int) -> Seq<LightCell>
    decreases n,
{
    if n <= 0 {
        Seq::empty()
    } else {
        let prev = light_cells_spec(level, data, reach, n - 1);
        let a = level.actors@[n - 1];
        match light_side(a.map_type) {
            Some(side) => prev + seq![LightCell { x: a.x as i32, y: a.y as i32, side }]
                + cone_below(level, data, a.x as int, a.y as int, reach, a.y + 1),
            None => prev,
        }
    }
}

/// The lit cells of the level's lights.
pub fn light_cells(level: &LevelJson, data: &GameData) -> (r: Vec<LightCell>)
    requires
        level_wf(level),
    ensures
        r@ == light_cells_spec(level, data, if data.episode == 1 { 11 } else { 13 }, level.actors@.len() as int),
{
    let reach = light_cast_distance(data.episode);
    let mut out: Vec<LightCell> = Vec::new();
    let mut i: usize = 0;
    while i < level.actors.len()
        invariant
            level_wf(level),
            reach == (if data.episode == 1 { 11i32 } else { 13i32 }),
            i <= level.actors@.len(),
            out@ == light_cells_spec(level, data, reach as int, i as int),
        decreases level.actors@.len() - i,
    {
        let a = level.actors[i];
        let side = if a.map_type == 6 {
            Some(LightSide::West)
        } else if a.map_type == 7 {
            Some(LightSide::Middle)
        } else if a.map_type == 8 {
            Some(LightSide::East)
        } else {
            None
        };
        if let Some(side) = side {
            let x = a.x as i32;
            let y = a.y as i32;
            out.push(LightCell { x, y, side });
            let ghost head = out@;
            let mut row = y + 1;
            while row < y + reach
                invariant
                    level_wf(level),
                    y + 1 <= row <= y + reach || row == y + 1,
                    0 <= y <= 0xffff,
                    0 <= x <= 0xffff,
                    reach <= 13,
                    head == light_cells_spec(level, data, reach as int, i as int) + seq![LightCell { x, y, side }],
                    out@ + cone_below(level, data, x as int, y as int, reach as int, row as int)
                        == head + cone_below(level, data, x as int, y as int, reach as int, y + 1),
                ensures
                    out@ == head + cone_below(level, data, x as int, y as int, reach as int, y + 1),
                decreases y + reach - row,
            {
                if row < 0 || row as usize >= level.height {
                    assert(out@ =~= out@ + cone_below(level, data, x as int, y as int, reach as int, row as int));
                    break;
                }
                let attr = data.tile_attr(level.tile_at(x as usize, row as usize));
                if attr & TILE_ATTR_BLOCK_SOUTH != 0 {
                    assert(out@ =~= out@ + cone_below(level, data, x as int, y as int, reach as int, row as int));
                    break;
                }
                let ghost before = out@;
                out.push(LightCell { x, y: row, side: LightSide::Middle });
                proof {
                    assert(before + cone_below(level, data, x as int, y as int, reach as int, row as int)
                        =~= out@ + cone_below(level, data, x as int, y as int, reach as int, row + 1));
                }
                row = row + 1;
            }
        }
        i = i + 1;
    }
    out
}

/// `TILE_BLUE_PLATFORM`: the first of the platform's five cells, which
/// step by 8.
pub const TILE_BLUE_PLATFORM: u16 = 0x3dd0;

/// A moving platform: five tiles wide, stamped into the map under itself,
/// with the five cells it covers kept to put back as it moves on.
#[derive(Clone, Copy, Debug)]
pub struct Platform {
    pub x: i32,
    pub y: i32,
    /// The five tiles currently underneath it, west to east.
    pub stash: [u16; 5],
}

/// The actors that place platforms (map type 1), in order.
pub open spec fn platform_actors(actors: Seq<crate::data::LevelActorJson>) -> Seq<crate::data::LevelActorJson> {
    actors.filter(|a: crate::data::LevelActorJson| a.map_type == 1)
}

/// The platforms placed in a level (map type 1), with nothing stashed yet.
pub fn level_platforms(level: &LevelJson) -> (r: Vec<Platform>)
    ensures
        r@.len() == platform_actors(level.actors@).len(),
        forall|i: int| 0 <= i < r@.len() ==> (#[trigger] r@[i]).stash@ == seq![0u16, 0u16, 0u16, 0u16, 0u16]
            && r@[i].x == platform_actors(level.actors@)[i].x as i32 && r@[i].y == platform_actors(level.actors@)[i].y as i32,
{
    let mut out: Vec<Platform> = Vec::new();
    let mut i: usize = 0;
    while i < level.actors.len()
        invariant
            i <= level.actors@.len(),
            out@.len() == platform_actors(level.actors@.subrange(0, i as int)).len(),
            forall|k: int| 0 <= k < out@.len() ==> (#[trigger] out@[k]).stash@ == seq![0u16, 0u16, 0u16, 0u16, 0u16]
                && out@[k].x == platform_actors(level.actors@.subrange(0, i as int))[k].x as i32
                && out@[k].y == platform_actors(level.actors@.subrange(0, i as int))[k].y as i32,
        decreases level.actors@.len() - i,
    {
        let a = level.actors[i];
        proof {
            let f = |a: crate::data::LevelActorJson| a.map_type == 1;
            assert(level.actors@.subrange(0, i + 1) =~= level.actors@.subrange(0, i as int).push(a));
            level.actors@.subrange(0, i as int).lemma_filter_push(a, f);
        }
        if a.map_type == 1 {
            let p = Platform { x: a.x as i32, y: a.y as i32, stash: [0; 5] };
            assert(p.stash@ == seq![0u16, 0u16, 0u16, 0u16, 0u16]);
            out.push(p);
        }
        i = i + 1;
    }
    proof {
        assert(level.actors@.subrange(0, level.actors@.len() as int) =~= level.actors@);
    }
    out
}

/// The cell `(x, y)` of a `w` x `h` grid; off it, air.
pub open spec fn cell_at(t: Seq<u16>, w: int, h: int, x: int, y: int) -> u16 {
    if 0 <= x < w && 0 <= y < h { t[y * w + x] } else { 0 }
}

/// The grid after writing `vals[..n]` along row `y` from column `x0`.
pub open spec fn put_row(t: Seq<u16>, w: int, h: int, x0: int, y: int, vals: Seq<u16>, n: int) -> Seq<u16>
    decreases n,
{
    if n <= 0 {
        t
    } else {
        written(put_row(t, w, h, x0, y, vals, n - 1), w, h, x0 + n - 1, y, vals[n - 1])
    }
}

/// The writes of `vals[..n]` along row `y` from `x0` that land on the grid.
pub open spec fn row_writes(w: int, h: int, x0: int, y: int, vals: Seq<u16>, n: int) -> Seq<(i32, i32, u16)>
    decreases n,
{
    if n <= 0 {
        Seq::empty()
    } else {
        let prev = row_writes(w, h, x0, y, vals, n - 1);
        let x = x0 + n - 1;
        if 0 <= x < w && 0 <= y < h { prev.push((x as i32, y as i32, vals[n - 1])) } else { prev }
    }
}

/// The platform's five cells.
pub open spec fn blue_row() -> Seq<u16> {
    seq![TILE_BLUE_PLATFORM, (TILE_BLUE_PLATFORM + 8) as u16, (TILE_BLUE_PLATFORM + 16) as u16,
        (TILE_BLUE_PLATFORM + 24) as u16, (TILE_BLUE_PLATFORM + 32) as u16]
}

/// What a platform's tick leaves: where it is, what it now covers, the
/// map, the player, and the cells rewritten (to redraw).
pub struct PlatformTick {
    pub x: int,
    pub y: int,
    pub stash: Seq<u16>,
    pub tiles: Seq<u16>,
    pub player: Player,
    pub writes: Seq<(i32, i32, u16)>,
}

/// `MovePlatforms`: put back what it covered; read the route command in
/// the cell it sits on (`raw / 8` is the `DIR8` direction); while the
/// platforms run, carry a rider standing on its row and move; then keep
/// what the new footprint covers and stamp the platform over it.
pub open spec fn platform_tick(px: int, py: int, stash: Seq<u16>, t: Seq<u16>, w: int, h: int, active: bool, p: Player) -> PlatformTick {
    let t1 = put_row(t, w, h, px - 2, py, stash, 5);
    let raw = if px >= 0 && py >= 0 { cell_at(t1, w, h, px, py) } else { 0 };
    let d = dir8(((raw / 8) as int) % 9);
    let rider = active && p.dead_timer == 0 && py - 1 == p.y && px - 2 <= p.x <= px + 2;
    let p2 = if rider { Player { x: (p.x + d.0) as i32, y: (p.y + d.1) as i32, ..p } } else { p };
    let (x2, y2) = if active { (px + d.0, py + d.1) } else { (px, py) };
    let stash2 = Seq::new(5, |i: int| cell_at(t1, w, h, x2 - 2 + i, y2));
    PlatformTick {
        x: x2,
        y: y2,
        stash: stash2,
        tiles: put_row(t1, w, h, x2 - 2, y2, blue_row(), 5),
        player: p2,
        writes: row_writes(w, h, px - 2, py, stash, 5) + row_writes(w, h, x2 - 2, y2, blue_row(), 5),
    }
}

/// Writes `vals` along a row, giving the writes that landed.
fn stamp_row(level: &mut LevelJson, x0: i32, y: i32, vals: &[u16; 5], out: &mut Vec<(i32, i32, u16)>)
    requires
        level_wf(old(level)),
        -0x4000_0000 <= x0 <= 0x4000_0000,
    ensures
        level_wf(final(level)),
        final(level).width == old(level).width && final(level).height == old(level).height,
        final(level).actors@ == old(level).actors@,
        final(level).tiles@ == put_row(old(level).tiles@, old(level).width as int, old(level).height as int, x0 as int, y as int, vals@, 5),
        final(out)@ == old(out)@ + row_writes(old(level).width as int, old(level).height as int, x0 as int, y as int, vals@, 5),
{
    let ghost t0 = level.tiles@;
    let ghost o0 = out@;
    let mut i: usize = 0;
    while i < 5
        invariant
            i <= 5,
            level_wf(level),
            level.width == old(level).width && level.height == old(level).height,
            level.actors@ == old(level).actors@,
            t0 == old(level).tiles@,
            -0x4000_0000 <= x0 <= 0x4000_0000,
            level.tiles@ == put_row(t0, level.width as int, level.height as int, x0 as int, y as int, vals@, i as int),
            out@ == o0 + row_writes(level.width as int, level.height as int, x0 as int, y as int, vals@, i as int),
        decreases 5 - i,
    {
        let x = x0 + i as i32;
        let v = vals[i];
        let landed = write_tile(level, x, y, v);
        if landed {
            out.push((x, y, v));
        }
        i = i + 1;
    }
}

/// The cell under `(x, y)`, air off the grid.
fn cell(level: &LevelJson, x: i32, y: i32) -> (r: u16)
    requires
        level_wf(level),
    ensures
        r == cell_at(level.tiles@, level.width as int, level.height as int, x as int, y as int),
{
    if x < 0 || y < 0 {
        return 0;
    }
    let r = level.tile_at(x as usize, y as usize);
    proof {
        if (x as int) < level.width && (y as int) < level.height {
            lemma_cell_index(x as int, y as int, level.width as int, level.height as int);
        }
    }
    r
}

/// One platform's tick; gives the cells rewritten, in order, to redraw.
pub fn move_platform(plat: &mut Platform, level: &mut LevelJson, active: bool, player: &mut Player) -> (writes: Vec<(i32, i32, u16)>)
    requires
        level_wf(old(level)),
        -0x3fff_0000 <= old(plat).x <= 0x3fff_0000,
        -0x3fff_0000 <= old(plat).y <= 0x3fff_0000,
        -0x3fff_0000 <= old(player).x <= 0x3fff_0000,
        -0x3fff_0000 <= old(player).y <= 0x3fff_0000,
    ensures
        ({
            let t = platform_tick(old(plat).x as int, old(plat).y as int, old(plat).stash@, old(level).tiles@,
                old(level).width as int, old(level).height as int, active, *old(player));
            &&& final(plat).x == t.x && final(plat).y == t.y
            &&& final(plat).stash@ == t.stash
            &&& final(level).tiles@ == t.tiles
            &&& *final(player) == t.player
            &&& writes@ == t.writes
        }),
        level_wf(final(level)),
        final(level).width == old(level).width && final(level).height == old(level).height,
        final(level).actors@ == old(level).actors@,
{
    let mut writes: Vec<(i32, i32, u16)> = Vec::new();
    let stash = plat.stash;
    stamp_row(level, plat.x - 2, plat.y, &stash, &mut writes);
    let raw = if plat.x >= 0 && plat.y >= 0 { cell(level, plat.x, plat.y) } else { 0 };
    let (dx, dy) = dir8_step(((raw / 8) as usize) % 9);
    if active {
        let on_it = player.dead_timer == 0 && plat.y - 1 == player.y && player.x >= plat.x - 2 && player.x <= plat.x + 2;
        if on_it {
            *player = Player { x: player.x + dx, y: player.y + dy, ..*player };
        }
        plat.x = plat.x + dx;
        plat.y = plat.y + dy;
    }
    let mut fresh: [u16; 5] = [0; 5];
    let mut i: usize = 0;
    while i < 5
        invariant
            i <= 5,
            level_wf(level),
            -0x4000_0000 <= plat.x <= 0x4000_0000,
            forall|k: int| 0 <= k < i ==> #[trigger] fresh@[k] == cell_at(level.tiles@, level.width as int, level.height as int,
                plat.x - 2 + k, plat.y as int),
        decreases 5 - i,
    {
        fresh[i] = cell(level, plat.x - 2 + i as i32, plat.y);
        i = i + 1;
    }
    plat.stash = fresh;
    let blue: [u16; 5] = [TILE_BLUE_PLATFORM, TILE_BLUE_PLATFORM + 8, TILE_BLUE_PLATFORM + 16, TILE_BLUE_PLATFORM + 24, TILE_BLUE_PLATFORM + 32];
    assert(blue@ =~= blue_row());
    let ghost t1 = level.tiles@;
    stamp_row(level, plat.x - 2, plat.y, &blue, &mut writes);
    proof {
        let t = platform_tick(old(plat).x as int, old(plat).y as int, old(plat).stash@, old(level).tiles@,
            old(level).width as int, old(level).height as int, active, *old(player));
        assert(plat.stash@ =~= t.stash);
    }
    writes
}

} // verus!
