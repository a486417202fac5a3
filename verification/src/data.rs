//! The level map and the tile attribute table, as the game logic reads them.
//!
//! A map is a row-major grid of raw 16-bit tile values; what a tile *does*
//! (solid from which side, slippery, sloped, clingable) is looked up in the
//! episode's attribute table at `raw / 8`.
use vstd::prelude::*;

verus! {

pub const MASKED_TILE_THRESHOLD: u16 = 16000;

pub const TILE_ATTR_BLOCK_SOUTH: u8 = 0x01;

pub const TILE_ATTR_BLOCK_NORTH: u8 = 0x02;

pub const TILE_ATTR_BLOCK_WEST: u8 = 0x04;

pub const TILE_ATTR_BLOCK_EAST: u8 = 0x08;

pub const TILE_ATTR_SLIPPERY: u8 = 0x10;

pub const TILE_ATTR_IN_FRONT: u8 = 0x20;

pub const TILE_ATTR_SLOPED: u8 = 0x40;

pub const TILE_ATTR_CAN_CLING: u8 = 0x80;

/// One actor placement read out of a level file.
#[derive(Clone, Copy, PartialEq, Eq, Debug)]
pub struct LevelActorJson {
    pub map_type: u16,
    pub x: u16,
    pub y: u16,
}

/// A level as loaded: the tile grid, its actors, and the header fields.
#[derive(Clone, Debug)]
pub struct LevelJson {
    pub name: String,
    pub width: usize,
    pub height: usize,
    pub tiles: Vec<u16>,
    pub actors: Vec<LevelActorJson>,
    pub backdrop: Option<String>,
    pub music: Option<String>,
    pub has_h_scroll_backdrop: bool,
    pub has_v_scroll_backdrop: bool,
}

/// The tile-grid dimensions the game works in: the grid holds exactly
/// `width * height` cells, and coordinates fit comfortably in an `i32`.
pub open spec fn level_wf(level: &LevelJson) -> bool {
    &&& level.tiles@.len() == level.width * level.height
    &&& level.width <= 0x8000
    &&& level.height <= 0x8000
    &&& level.width * level.height <= 0x4000_0000
}

/// The raw tile at `(x, y)`, with everything off the grid reading as air.
pub open spec fn tile_spec(level: &LevelJson, x: int, y: int) -> u16 {
    if 0 <= x < level.width && 0 <= y < level.height {
        level.tiles@[y * level.width + x]
    } else {
        0
    }
}

/// The index of cell `(x, y)` lies inside a `width * height` grid.
pub proof fn lemma_cell_index(x: int, y: int, width: int, height: int)
    requires
        0 <= x < width,
        0 <= y < height,
    ensures
        0 <= y * width + x < width * height,
{
    assert(y * width + x < width * height) by (nonlinear_arith)
        requires
            0 <= x < width,
            0 <= y < height,
    ;
    assert(0 <= y * width) by (nonlinear_arith)
        requires
            0 <= y,
            0 <= width,
    ;
}

impl LevelJson {
    /// Whether the grid holds exactly `width * height` cells.
    pub fn is_well_formed(&self) -> (r: bool)
        ensures
            r == level_wf(self),
    {
        if self.width > 0x8000 || self.height > 0x8000 {
            return false;
        }
        proof {
            assert(self.width * self.height <= 0x4000_0000) by (nonlinear_arith)
                requires
                    self.width <= 0x8000,
                    self.height <= 0x8000,
            ;
        }
        self.tiles.len() == self.width * self.height
    }

    pub fn tile_at(&self, x: usize, y: usize) -> (r: u16)
        requires
            level_wf(self),
        ensures
            r == tile_spec(self, x as int, y as int),
    {
        if x >= self.width || y >= self.height {
            return 0;
        }
        proof {
            lemma_cell_index(x as int, y as int, self.width as int, self.height as int);
            assert(y * self.width <= y * self.width + x);
        }
        self.tiles[y * self.width + x]
    }
}

/// The converter's description of the episode's tile sheet.
#[derive(Clone, Copy, PartialEq, Eq, Debug)]
pub struct TilesetJson {
    pub tile_size: u32,
    pub atlas_cols: u32,
    pub solid_tile_count: usize,
    pub masked_tile_count: usize,
}

/// One frame of a converted sprite.
#[derive(Clone, Debug)]
pub struct FrameMetaJson {
    pub file: String,
    pub width_px: u32,
    pub height_px: u32,
}

/// The frames of one converted sprite, in order.
#[derive(Clone, Debug)]
pub struct SpriteManifestJson {
    pub frames: Vec<FrameMetaJson>,
}

/// What the game logic needs of an episode's converted data: which episode
/// it is, where its assets sit for the asset server, and the tile
/// attribute table.
#[derive(Clone, Debug)]
pub struct GameData {
    pub asset_prefix: String,
    pub episode: u8,
    pub tileset: TilesetJson,
    pub tile_attrs: Vec<u8>,
}

/// The attributes of a raw tile value: air has none, and a value past the
/// end of the table has none either.
pub open spec fn attr_spec(data: &GameData, raw: u16) -> u8 {
    if raw == 0 {
        0
    } else if (raw / 8) < data.tile_attrs@.len() {
        data.tile_attrs@[(raw / 8) as int]
    } else {
        0
    }
}

/// The attributes of the cell at `(x, y)`; off the grid, none.
pub open spec fn attr_at_spec(level: &LevelJson, data: &GameData, x: int, y: int) -> u8 {
    if x < 0 || y < 0 {
        0
    } else {
        attr_spec(data, tile_spec(level, x, y))
    }
}

/// Whether an attribute byte has a flag set.
pub open spec fn flag_set(a: u8, flag: u8) -> bool {
    a & flag != 0
}

impl GameData {
    /// `tileAttributeData[raw / 8]`: one formula for solid and masked
    /// tiles alike.
    pub fn tile_attr(&self, raw_value: u16) -> (r: u8)
        ensures
            r == attr_spec(self, raw_value),
    {
        if raw_value == 0 {
            return 0;
        }
        let index = (raw_value / 8) as usize;
        if index < self.tile_attrs.len() {
            self.tile_attrs[index]
        } else {
            0
        }
    }

    /// `asset_path`: an asset-server path inside this episode's tree.
    pub fn asset_path(&self, rel: &str) -> (r: String)
        ensures
            r@ == self.asset_prefix@ + "/"@ + rel@,
    {
        let s = self.asset_prefix.clone();
        let s = s.concat("/");
        s.concat(rel)
    }
}

/// The attributes of the cell at `(x, y)`, reading nothing off the grid.
pub fn attr_at(level: &LevelJson, data: &GameData, x: i32, y: i32) -> (r: u8)
    requires
        level_wf(level),
    ensures
        r == attr_at_spec(level, data, x as int, y as int),
{
    if x < 0 || y < 0 {
        return 0;
    }
    data.tile_attr(level.tile_at(x as usize, y as usize))
}

} // verus!
