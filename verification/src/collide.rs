//! `TestSpriteMove`: whether a sprite's footprint may move one step in a
//! compass direction, read off the tile attribute flags.
//!
//! A sprite's origin is its bottom-left tile; `width`/`height` are in tiles.
use vstd::prelude::*;
use crate::data::{
    attr_at, attr_at_spec, flag_set, level_wf, GameData, LevelJson, TILE_ATTR_BLOCK_EAST,
    TILE_ATTR_BLOCK_NORTH, TILE_ATTR_BLOCK_SOUTH, TILE_ATTR_BLOCK_WEST, TILE_ATTR_SLOPED,
};

verus! {

#[derive(Clone, Copy, PartialEq, Eq, Debug, Structural)]
pub enum MoveResult {
    Free,
    Blocked,
    Sloped,
}

#[derive(Clone, Copy, PartialEq, Eq, Debug, Structural)]
pub enum Dir4 {
    North,
    South,
    West,
    East,
}

/// North: blocked if any cell of the top row blocks from below.
pub open spec fn north_blocked(level: &LevelJson, data: &GameData, x: int, row: int, w: int) -> bool {
    exists|i: int| 0 <= i < w && flag_set(#[trigger] attr_at_spec(level, data, x + i, row), TILE_ATTR_BLOCK_NORTH)
}

/// South, scanning the bottom row west to east from column `i`: the first
/// cell that is sloped or solid decides, and a slope wins within a cell.
pub open spec fn south_scan(level: &LevelJson, data: &GameData, x: int, y: int, w: int, i: int) -> MoveResult
    decreases w - i,
{
    if i >= w {
        MoveResult::Free
    } else {
        let a = attr_at_spec(level, data, x + i, y);
        if flag_set(a, TILE_ATTR_SLOPED) {
            MoveResult::Sloped
        } else if flag_set(a, TILE_ATTR_BLOCK_SOUTH) {
            MoveResult::Blocked
        } else {
            south_scan(level, data, x, y, w, i + 1)
        }
    }
}

/// West or east, scanning the leading column bottom-up from row `i`: a
/// blocking cell stops it, and a slope in the bottom cell with open space
/// above it is a step up.
pub open spec fn side_scan(level: &LevelJson, data: &GameData, col: int, y: int, h: int, flag: u8, i: int) -> MoveResult
    decreases h - i,
{
    if i >= h {
        MoveResult::Free
    } else {
        let a = attr_at_spec(level, data, col, y - i);
        if flag_set(a, flag) {
            MoveResult::Blocked
        } else if i == 0 && flag_set(a, TILE_ATTR_SLOPED) && !flag_set(attr_at_spec(level, data, col, y - i - 1), flag) {
            MoveResult::Sloped
        } else {
            side_scan(level, data, col, y, h, flag, i + 1)
        }
    }
}

/// The outcome of moving a `w` x `h` sprite at `(x, y)` one step `dir`.
#[verifier::opaque]
pub open spec fn sprite_move_spec(dir: Dir4, x: int, y: int, w: int, h: int, level: &LevelJson, data: &GameData) -> MoveResult {
    match dir {
        Dir4::North => if north_blocked(level, data, x, y - h + 1, w) {
            MoveResult::Blocked
        } else {
            MoveResult::Free
        },
        Dir4::South => south_scan(level, data, x, y, w, 0),
        Dir4::West => side_scan(level, data, x, y, h, TILE_ATTR_BLOCK_WEST, 0),
        Dir4::East => side_scan(level, data, x + w - 1, y, h, TILE_ATTR_BLOCK_EAST, 0),
    }
}

/// Coordinates and sprite sizes small enough that no footprint arithmetic
/// can overflow.
pub open spec fn coord_ok(v: int) -> bool {
    -0x4000_0000 <= v <= 0x4000_0000
}

/// A coordinate derived from a `coord_ok` one by a sprite-sized offset.
pub open spec fn near_coord(v: int) -> bool {
    -0x5000_0000 <= v <= 0x5000_0000
}

pub open spec fn size_ok(v: int) -> bool {
    0 <= v <= 0x1000
}

fn north_test(level: &LevelJson, data: &GameData, x: i32, row: i32, w: i32) -> (r: bool)
    requires
        level_wf(level),
        near_coord(x as int),
        near_coord(row as int),
        size_ok(w as int),
    ensures
        r == north_blocked(level, data, x as int, row as int, w as int),
{
    let mut i: i32 = 0;
    while i < w
        invariant
            level_wf(level),
            near_coord(x as int),
            size_ok(w as int),
            0 <= i <= w,
            forall|j: int| 0 <= j < i ==> !flag_set(#[trigger] attr_at_spec(level, data, x + j, row as int), TILE_ATTR_BLOCK_NORTH),
        decreases w - i,
    {
        let a = attr_at(level, data, x + i, row);
        if a & TILE_ATTR_BLOCK_NORTH != 0 {
            return true;
        }
        i += 1;
    }
    false
}

fn south_test(level: &LevelJson, data: &GameData, x: i32, y: i32, w: i32) -> (r: MoveResult)
    requires
        level_wf(level),
        near_coord(x as int),
        near_coord(y as int),
        size_ok(w as int),
    ensures
        r == south_scan(level, data, x as int, y as int, w as int, 0),
{
    let mut i: i32 = 0;
    while i < w
        invariant
            level_wf(level),
            near_coord(x as int),
            size_ok(w as int),
            0 <= i <= w,
            south_scan(level, data, x as int, y as int, w as int, 0) == south_scan(level, data, x as int, y as int, w as int, i as int),
        decreases w - i,
    {
        let a = attr_at(level, data, x + i, y);
        if a & TILE_ATTR_SLOPED != 0 {
            return MoveResult::Sloped;
        }
        if a & TILE_ATTR_BLOCK_SOUTH != 0 {
            return MoveResult::Blocked;
        }
        i += 1;
    }
    MoveResult::Free
}

fn side_test(level: &LevelJson, data: &GameData, col: i32, y: i32, h: i32, flag: u8) -> (r: MoveResult)
    requires
        level_wf(level),
        near_coord(col as int),
        near_coord(y as int),
        size_ok(h as int),
    ensures
        r == side_scan(level, data, col as int, y as int, h as int, flag, 0),
{
    let mut i: i32 = 0;
    while i < h
        invariant
            level_wf(level),
            near_coord(y as int),
            size_ok(h as int),
            0 <= i <= h,
            side_scan(level, data, col as int, y as int, h as int, flag, 0) == side_scan(level, data, col as int, y as int, h as int, flag, i as int),
        decreases h - i,
    {
        let row = y - i;
        let a = attr_at(level, data, col, row);
        if a & flag != 0 {
            return MoveResult::Blocked;
        }
        if i == 0 && a & TILE_ATTR_SLOPED != 0 && attr_at(level, data, col, row - 1) & flag == 0 {
            return MoveResult::Sloped;
        }
        i += 1;
    }
    MoveResult::Free
}

/// `TestSpriteMove` for a `width` x `height` sprite at `(x, y)`.
pub fn test_sprite_move(dir: Dir4, x: i32, y: i32, width: i32, height: i32, level: &LevelJson, data: &GameData) -> (r: MoveResult)
    requires
        level_wf(level),
        coord_ok(x as int),
        coord_ok(y as int),
        size_ok(width as int),
        size_ok(height as int),
    ensures
        r == sprite_move_spec(dir, x as int, y as int, width as int, height as int, level, data),
{
    reveal(sprite_move_spec);
    match dir {
        Dir4::North => {
            if north_test(level, data, x, y - height + 1, width) {
                MoveResult::Blocked
            } else {
                MoveResult::Free
            }
        },
        Dir4::South => south_test(level, data, x, y, width),
        Dir4::West => side_test(level, data, x, y, height, TILE_ATTR_BLOCK_WEST),
        Dir4::East => side_test(level, data, x + width - 1, y, height, TILE_ATTR_BLOCK_EAST),
    }
}

/// Two boxes overlap: each given by its bottom-left cell (`y` is the
/// bottom row) and its size in cells.
pub open spec fn rects_overlap_spec(x1: int, y1: int, w1: int, h1: int, x2: int, y2: int, w2: int, h2: int) -> bool {
    &&& ((x1 <= x2 && x1 + w1 > x2) || (x1 >= x2 && x2 + w2 > x1))
    &&& ((y1 - h1 < y2 && y2 <= y1) || (y2 - h2 < y1 && y1 <= y2))
}

/// Whether two boxes, each given by its bottom-left cell and size, share
/// a cell.
pub fn rects_overlap(x1: i32, y1: i32, w1: i32, h1: i32, x2: i32, y2: i32, w2: i32, h2: i32) -> (r: bool)
    ensures
        r == rects_overlap_spec(x1 as int, y1 as int, w1 as int, h1 as int, x2 as int, y2 as int, w2 as int, h2 as int),
{
    let (x1, y1, w1, h1) = (x1 as i64, y1 as i64, w1 as i64, h1 as i64);
    let (x2, y2, w2, h2) = (x2 as i64, y2 as i64, w2 as i64, h2 as i64);
    let horizontal = (x1 <= x2 && x1 + w1 > x2) || (x1 >= x2 && x2 + w2 > x1);
    let vertical = (y1 - h1 < y2 && y2 <= y1) || (y2 - h2 < y1 && y1 <= y2);
    horizontal && vertical
}

} // verus!
