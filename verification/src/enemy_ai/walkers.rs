//! The behaviours that move through the map and read its collision: pacers,
//! crawlers, fliers and droppers.
use vstd::prelude::*;
use crate::collide::{size_ok, sprite_move_spec, test_sprite_move, Dir4, MoveResult};
use crate::data::{level_wf, GameData, LevelJson};
use crate::enemy_ai::{
    adjust_xy, adjust_xy_exec, flip, lemma_push_as_add, lemma_untouched_queues, quiet, Body, Enemy,
    Out, DIR2_EAST, DIR2_NORTH, DIR2_SOUTH, DIR2_WEST,
};
use crate::sfx::snd;

verus! {

/// Coordinates a mover may start a tick from.
pub open spec fn pos_ok(x: int, y: int) -> bool {
    -0x3fff_0000 <= x <= 0x3fff_0000 && -0x3fff_0000 <= y <= 0x3fff_0000
}

/// Whether a `w` x `h` footprint at `(x, y)` may step `dir`.
pub open spec fn free(dir: Dir4, x: int, y: int, w: int, h: int, level: &LevelJson, data: &GameData) -> bool {
    sprite_move_spec(dir, x, y, w, h, level, data) == MoveResult::Free
}

fn free_exec(dir: Dir4, x: i32, y: i32, w: i32, h: i32, level: &LevelJson, data: &GameData) -> (r: bool)
    requires
        level_wf(level),
        -0x4000_0000 <= x <= 0x4000_0000,
        -0x4000_0000 <= y <= 0x4000_0000,
        size_ok(w as int),
        size_ok(h as int),
    ensures
        r == free(dir, x as int, y as int, w as int, h as int, level, data),
{
    test_sprite_move(dir, x, y, w, h, level, data) == MoveResult::Free
}

/// `ActDragonfly`: flies along its row and turns at walls, flapping on the
/// eastward leg.
pub open spec fn dragonfly_core(d1: int, d2: int, frame: int, x: int, y: int, w: int, h: int, level: &LevelJson, data: &GameData) -> (int, int, int, int) {
    if d1 != DIR2_WEST {
        if !free(Dir4::East, x + 1, y, w, h, level, data) {
            (DIR2_WEST as int, d2, frame, x)
        } else {
            let d2a = flip(d2);
            (d1, d2a, d2a + 2, x + 1)
        }
    } else if !free(Dir4::West, x - 1, y, w, h, level, data) {
        (DIR2_EAST as int, d2, frame, x)
    } else {
        (d1, d2, flip(frame), x - 1)
    }
}

pub open spec fn dragonfly_spec(b: Body, level: &LevelJson, data: &GameData) -> (Body, Out) {
    let c = dragonfly_core(b.d1, b.d2, b.frame, b.x, b.y, b.w, b.h, level, data);
    (Body { d1: c.0, d2: c.1, frame: c.2, x: c.3, ..b }, quiet())
}

pub fn tick_dragonfly(e: &mut Enemy, level: &LevelJson, data: &GameData)
    requires
        level_wf(level),
        old(e).bounded(),
    ensures
        final(e).stepped(old(e), dragonfly_spec(old(e).body(), level, data)),
{
    proof {
        lemma_untouched_queues(old(e));
    }
    let (w, h) = (e.width_tiles, e.height_tiles);
    let (d1, d2, frame, x) = if e.d1 != DIR2_WEST {
        if !free_exec(Dir4::East, e.x + 1, e.y, w, h, level, data) {
            (DIR2_WEST, e.d2, e.frame, e.x)
        } else {
            let d2a = if e.d2 == 0 { 1 } else { 0 };
            (e.d1, d2a, (d2a + 2) as usize, e.x + 1)
        }
    } else if !free_exec(Dir4::West, e.x - 1, e.y, w, h, level, data) {
        (DIR2_EAST, e.d2, e.frame, e.x)
    } else {
        (e.d1, e.d2, if e.frame == 0 { 1usize } else { 0usize }, e.x - 1)
    };
    e.d1 = d1;
    e.d2 = d2;
    e.frame = frame;
    e.x = x;
}

/// A dragonfly turns at walls and never flies into one: heading east (any
/// heading but west) with its east step refused, it stays put and ends the
/// tick heading west; heading west with its west step refused, it stays
/// put and ends heading east; otherwise it moves one column the way it
/// heads, into a column its move test allowed. Its row never changes.
pub proof fn lemma_dragonfly_turns_at_walls(b: Body, level: &LevelJson, data: &GameData)
    ensures
        ({
            let r = dragonfly_spec(b, level, data).0;
            &&& b.d1 != DIR2_WEST && !free(Dir4::East, b.x + 1, b.y, b.w, b.h, level, data) ==> r.d1 == DIR2_WEST && r.x == b.x
            &&& b.d1 != DIR2_WEST && free(Dir4::East, b.x + 1, b.y, b.w, b.h, level, data) ==> r.d1 == b.d1 && r.x == b.x + 1
            &&& b.d1 == DIR2_WEST && !free(Dir4::West, b.x - 1, b.y, b.w, b.h, level, data) ==> r.d1 == DIR2_EAST && r.x == b.x
            &&& b.d1 == DIR2_WEST && free(Dir4::West, b.x - 1, b.y, b.w, b.h, level, data) ==> r.d1 == DIR2_WEST && r.x == b.x - 1
            &&& r.y == b.y
        }),
{
}

/// `ActVerticalMover`: rises until a ceiling stops it, falls until the
/// floor does, with its saw sound every tick.
pub open spec fn vertical_mover_core(d1: int, y: int, x: int, w: int, h: int, level: &LevelJson, data: &GameData) -> (int, int) {
    if d1 != DIR2_SOUTH {
        if !free(Dir4::North, x, y - 1, w, h, level, data) { (DIR2_SOUTH as int, y) } else { (d1, y - 1) }
    } else if !free(Dir4::South, x, y + 1, w, h, level, data) {
        (DIR2_NORTH as int, y)
    } else {
        (d1, y + 1)
    }
}

pub open spec fn vertical_mover_spec(b: Body, level: &LevelJson, data: &GameData) -> (Body, Out) {
    let c = vertical_mover_core(b.d1, b.y, b.x, b.w, b.h, level, data);
    (Body { frame: flip(b.frame), d1: c.0, y: c.1, ..b }, quiet().sound(snd::SAW_BLADE_MOVE))
}

pub fn tick_vertical_mover(e: &mut Enemy, level: &LevelJson, data: &GameData)
    requires
        level_wf(level),
        old(e).bounded(),
    ensures
        final(e).stepped(old(e), vertical_mover_spec(old(e).body(), level, data)),
{
    proof {
        lemma_untouched_queues(old(e));
        lemma_push_as_add(old(e).sounds@, snd::SAW_BLADE_MOVE);
    }
    let (w, h) = (e.width_tiles, e.height_tiles);
    let (d1, y) = if e.d1 != DIR2_SOUTH {
        if !free_exec(Dir4::North, e.x, e.y - 1, w, h, level, data) { (DIR2_SOUTH, e.y) } else { (e.d1, e.y - 1) }
    } else if !free_exec(Dir4::South, e.x, e.y + 1, w, h, level, data) {
        (DIR2_NORTH, e.y)
    } else {
        (e.d1, e.y + 1)
    };
    e.frame = if e.frame == 0 { 1 } else { 0 };
    e.d1 = d1;
    e.y = y;
    e.sounds.push(snd::SAW_BLADE_MOVE);
}

/// A pacer's step: one column toward `d2`'s side, validated by
/// `AdjustActorMove`; a refused step turns it round and starts a pause of
/// `d1` ticks. Gives (d2, d4, x, y, west_free, east_free).
pub open spec fn pace(d1: int, d2: int, d4: int, x: int, y: int, b: Body, level: &LevelJson, data: &GameData) -> (int, int, int, int, bool, bool) {
    if d2 != DIR2_WEST {
        let r = adjust_xy(x + 1, y, b.w, b.h, b.acrophile, Dir4::East, level, data);
        if !r.2 { (DIR2_WEST as int, d1, r.0, r.1, b.west_free, r.2) } else { (d2, d4, r.0, r.1, b.west_free, r.2) }
    } else {
        let r = adjust_xy(x - 1, y, b.w, b.h, b.acrophile, Dir4::West, level, data);
        if !r.2 { (DIR2_EAST as int, d1, r.0, r.1, r.2, b.east_free) } else { (d2, d4, r.0, r.1, r.2, b.east_free) }
    }
}

/// `ActHorizontalMover`: paces every other tick (as `d3` toggles),
/// pausing `d1` ticks at each end, and loops its frames up to `d5`.
pub open spec fn horizontal_mover_spec(b: Body, level: &LevelJson, data: &GameData) -> (Body, Out) {
    let d3 = flip(b.d3);
    let d4 = if b.d4 != 0 { b.d4 - 1 } else { b.d4 };
    if d3 == 0 {
        (Body { d3, d4, ..b }, quiet())
    } else {
        let p = if d4 == 0 { pace(b.d1, b.d2, d4, b.x, b.y, b, level, data) } else { (b.d2, d4, b.x, b.y, b.west_free, b.east_free) };
        let f = b.frame + 1;
        let frame = if f > b.d5 { 0 } else { f };
        (Body { d3, d2: p.0, d4: p.1, x: p.2, y: p.3, west_free: p.4, east_free: p.5, frame, ..b }, quiet())
    }
}

fn pace_exec(e: &Enemy, d4: i32, level: &LevelJson, data: &GameData) -> (r: (i32, i32, i32, i32, bool, bool))
    requires
        level_wf(level),
        e.bounded(),
    ensures
        (r.0 as int, r.1 as int, r.2 as int, r.3 as int, r.4, r.5) == pace(e.d1 as int, e.d2 as int, d4 as int, e.x as int, e.y as int, e.body(), level, data),
        e.x - 3 <= r.2 <= e.x + 3,
        e.y - 1 <= r.3 <= e.y,
{
    if e.d2 != DIR2_WEST {
        let r = adjust_xy_exec(e.x + 1, e.y, e.width_tiles, e.height_tiles, e.acrophile, Dir4::East, level, data);
        if !r.2 { (DIR2_WEST, e.d1, r.0, r.1, e.west_free, r.2) } else { (e.d2, d4, r.0, r.1, e.west_free, r.2) }
    } else {
        let r = adjust_xy_exec(e.x - 1, e.y, e.width_tiles, e.height_tiles, e.acrophile, Dir4::West, level, data);
        if !r.2 { (DIR2_EAST, e.d1, r.0, r.1, r.2, e.east_free) } else { (e.d2, d4, r.0, r.1, r.2, e.east_free) }
    }
}

pub fn tick_horizontal_mover(e: &mut Enemy, level: &LevelJson, data: &GameData)
    requires
        level_wf(level),
        old(e).bounded(),
    ensures
        final(e).stepped(old(e), horizontal_mover_spec(old(e).body(), level, data)),
{
    proof {
        lemma_untouched_queues(old(e));
    }
    let d3 = if e.d3 == 0 { 1 } else { 0 };
    let d4 = if e.d4 != 0 { e.d4 - 1 } else { e.d4 };
    let moving = d3 != 0;
    let p = if moving && d4 == 0 { pace_exec(e, d4, level, data) } else { (e.d2, d4, e.x, e.y, e.west_free, e.east_free) };
    let f = e.frame + 1;
    let frame = if moving { if f as i32 > e.d5 { 0 } else { f } } else { e.frame };
    e.d3 = d3;
    e.d2 = p.0;
    e.d4 = p.1;
    e.x = p.2;
    e.y = p.3;
    e.west_free = p.4;
    e.east_free = p.5;
    e.frame = frame;
}

/// `ActSharpRobot`: every other tick, runs along the underside of a
/// ceiling, turning (with a four-tick pause) at a wall or where the ceiling
/// ends.
pub open spec fn sharp_robot_core(d2: int, d4: int, x: int, y: int, w: int, h: int, level: &LevelJson, data: &GameData) -> (int, int, int) {
    if d4 != 0 {
        (d2, d4 - 1, x)
    } else {
        let step = if d2 == DIR2_EAST { 1int } else { -1int };
        let dir = if d2 == DIR2_EAST { Dir4::East } else { Dir4::West };
        if !free(dir, x + step, y, w, h, level, data) || free(dir, x + step, y - 1, w, h, level, data) {
            (if d2 == DIR2_EAST { DIR2_WEST as int } else { DIR2_EAST as int }, 4, x)
        } else {
            (d2, d4, x + step)
        }
    }
}

pub open spec fn sharp_robot_spec(b: Body, level: &LevelJson, data: &GameData) -> (Body, Out) {
    let d3 = flip(b.d3);
    if d3 == 0 {
        (Body { d3, ..b }, quiet())
    } else {
        let c = sharp_robot_core(b.d2, b.d4, b.x, b.y, b.w, b.h, level, data);
        (Body { d3, d2: c.0, d4: c.1, x: c.2, frame: flip(b.frame), ..b }, quiet())
    }
}

pub fn tick_sharp_robot(e: &mut Enemy, level: &LevelJson, data: &GameData)
    requires
        level_wf(level),
        old(e).bounded(),
    ensures
        final(e).stepped(old(e), sharp_robot_spec(old(e).body(), level, data)),
{
    proof {
        lemma_untouched_queues(old(e));
    }
    let d3 = if e.d3 == 0 { 1 } else { 0 };
    let moving = d3 != 0;
    let c = if !moving {
        (e.d2, e.d4, e.x)
    } else if e.d4 != 0 {
        (e.d2, e.d4 - 1, e.x)
    } else {
        let step: i32 = if e.d2 == DIR2_EAST { 1 } else { -1 };
        let dir = if e.d2 == DIR2_EAST { Dir4::East } else { Dir4::West };
        if !free_exec(dir, e.x + step, e.y, e.width_tiles, e.height_tiles, level, data)
            || free_exec(dir, e.x + step, e.y - 1, e.width_tiles, e.height_tiles, level, data) {
            (if e.d2 == DIR2_EAST { DIR2_WEST } else { DIR2_EAST }, 4, e.x)
        } else {
            (e.d2, e.d4, e.x + step)
        }
    };
    let frame: usize = if moving { if e.frame == 0 { 1 } else { 0 } } else { e.frame };
    e.d3 = d3;
    e.d2 = c.0;
    e.d4 = c.1;
    e.x = c.2;
    e.frame = frame;
}

/// `ActJumpPadRobot`: holds its crouch (with its sound) for `d1` ticks
/// after a bounce, and otherwise paces, turning where it must.
pub open spec fn jump_pad_robot_spec(b: Body, level: &LevelJson, data: &GameData) -> (Body, Out) {
    if b.d1 > 0 {
        (Body { frame: 2, d1: b.d1 - 1, ..b }, quiet().sound(snd::JUMP_PAD_ROBOT))
    } else {
        let p = pace(b.d1, b.d2, 0, b.x, b.y, b, level, data);
        (Body { frame: flip(b.frame), d2: p.0, x: p.2, y: p.3, west_free: p.4, east_free: p.5, ..b }, quiet())
    }
}

pub fn tick_jump_pad_robot(e: &mut Enemy, level: &LevelJson, data: &GameData)
    requires
        level_wf(level),
        old(e).bounded(),
    ensures
        final(e).stepped(old(e), jump_pad_robot_spec(old(e).body(), level, data)),
{
    proof {
        lemma_untouched_queues(old(e));
        lemma_push_as_add(old(e).sounds@, snd::JUMP_PAD_ROBOT);
    }
    let crouched = e.d1 > 0;
    let p = if crouched {
        (e.d2, 0, e.x, e.y, e.west_free, e.east_free)
    } else {
        pace_exec(e, 0, level, data)
    };
    let frame: usize = if crouched { 2 } else if e.frame == 0 { 1 } else { 0 };
    let d1 = if crouched { e.d1 - 1 } else { e.d1 };
    e.frame = frame;
    e.d1 = d1;
    e.d2 = p.0;
    e.x = p.2;
    e.y = p.3;
    e.west_free = p.4;
    e.east_free = p.5;
    if crouched {
        e.sounds.push(snd::JUMP_PAD_ROBOT);
    }
}


/// `ActSpark`'s step: every other tick it moves along its heading, turns
/// into a wall it meets and round a corner it runs out of, which traces the
/// outside of a solid. Headings: 0 west, 1 east, 2 north, 3 south.
pub open spec fn spark_core(d1: int, x: int, y: int, w: int, h: int, level: &LevelJson, data: &GameData) -> (int, int, int) {
    if d1 == 0 {
        let x1 = x - 1;
        (if !free(Dir4::West, x1 - 1, y, w, h, level, data) { 2 } else if free(Dir4::South, x1, y + 1, w, h, level, data) { 3 } else { d1 }, x1, y)
    } else if d1 == 1 {
        let x1 = x + 1;
        (if !free(Dir4::East, x1 + 1, y, w, h, level, data) { 3 } else if free(Dir4::North, x1, y - 1, w, h, level, data) { 2 } else { d1 }, x1, y)
    } else if d1 == 2 {
        let y1 = y - 1;
        (if !free(Dir4::North, x, y1 - 1, w, h, level, data) { 1 } else if free(Dir4::West, x - 1, y1, w, h, level, data) { 0 } else { d1 }, x, y1)
    } else {
        let y1 = y + 1;
        (if !free(Dir4::South, x, y1 + 1, w, h, level, data) { 0 } else if free(Dir4::East, x + 1, y1, w, h, level, data) { 1 } else { d1 }, x, y1)
    }
}

pub open spec fn spark_spec(b: Body, level: &LevelJson, data: &GameData) -> (Body, Out) {
    let d5 = b.d5 + 1;
    if d5 % 2 != 0 {
        (Body { d5, frame: flip(b.frame), ..b }, quiet())
    } else {
        let c = spark_core(b.d1, b.x, b.y, b.w, b.h, level, data);
        (Body { d5, frame: flip(b.frame), d1: c.0, x: c.1, y: c.2, ..b }, quiet())
    }
}

fn spark_core_exec(d1: i32, x: i32, y: i32, w: i32, h: i32, level: &LevelJson, data: &GameData) -> (r: (i32, i32, i32))
    requires
        level_wf(level),
        pos_ok(x as int, y as int),
        size_ok(w as int),
        size_ok(h as int),
    ensures
        (r.0 as int, r.1 as int, r.2 as int) == spark_core(d1 as int, x as int, y as int, w as int, h as int, level, data),
{
    if d1 == 0 {
        let x1 = x - 1;
        (if !free_exec(Dir4::West, x1 - 1, y, w, h, level, data) { 2 } else if free_exec(Dir4::South, x1, y + 1, w, h, level, data) { 3 } else { d1 }, x1, y)
    } else if d1 == 1 {
        let x1 = x + 1;
        (if !free_exec(Dir4::East, x1 + 1, y, w, h, level, data) { 3 } else if free_exec(Dir4::North, x1, y - 1, w, h, level, data) { 2 } else { d1 }, x1, y)
    } else if d1 == 2 {
        let y1 = y - 1;
        (if !free_exec(Dir4::North, x, y1 - 1, w, h, level, data) { 1 } else if free_exec(Dir4::West, x - 1, y1, w, h, level, data) { 0 } else { d1 }, x, y1)
    } else {
        let y1 = y + 1;
        (if !free_exec(Dir4::South, x, y1 + 1, w, h, level, data) { 0 } else if free_exec(Dir4::East, x + 1, y1, w, h, level, data) { 1 } else { d1 }, x, y1)
    }
}

pub fn tick_spark(e: &mut Enemy, level: &LevelJson, data: &GameData)
    requires
        level_wf(level),
        old(e).bounded(),
    ensures
        final(e).stepped(old(e), spark_spec(old(e).body(), level, data)),
{
    proof {
        lemma_untouched_queues(old(e));
    }
    let d5 = e.d5 + 1;
    let c = if d5 % 2 != 0 { (e.d1, e.x, e.y) } else { spark_core_exec(e.d1, e.x, e.y, e.width_tiles, e.height_tiles, level, data) };
    e.d5 = d5;
    e.frame = if e.frame == 0 { 1 } else { 0 };
    e.d1 = c.0;
    e.x = c.1;
    e.y = c.2;
}

/// `ActStoneHeadCrusher`'s counters: waiting (`d1` 0) until the player
/// passes in the seven-column box beneath, dropping (1) two rows a tick
/// until it lands, climbing (2) at half speed back to the row in `d2`.
/// Gives (d1, d2, frame, y, landed).
pub open spec fn stone_head_core(d1: int, d2: int, d4: int, frame: int, x: int, y: int, px: int, py: int, w: int, h: int, level: &LevelJson, data: &GameData) -> (int, int, int, int, bool) {
    if d1 == 0 {
        if y < py && x <= px + 6 && x + 7 > px { (1, y, 1, y, false) } else { (d1, d2, 0, y, false) }
    } else if d1 == 1 {
        if !free(Dir4::South, x, y + 1, w, h, level, data) {
            (2, d2, 1, y, true)
        } else if !free(Dir4::South, x, y + 2, w, h, level, data) {
            (2, d2, 1, y + 1, true)
        } else {
            (d1, d2, 1, y + 2, false)
        }
    } else if d1 == 2 {
        if y == d2 { (0, d2, 0, y, false) } else if d4 != 0 { (d1, d2, 0, y - 1, false) } else { (d1, d2, 0, y, false) }
    } else {
        (d1, d2, frame, y, false)
    }
}

pub open spec fn stone_head_spec(b: Body, px: int, py: int, level: &LevelJson, data: &GameData) -> (Body, Out) {
    let d4 = flip(b.d4);
    let c = stone_head_core(b.d1, b.d2, d4, b.frame, b.x, b.y, px, py, b.w, b.h, level, data);
    (
        Body { d4, d1: c.0, d2: c.1, frame: c.2, y: c.3, ..b },
        if c.4 {
            quiet().sound(snd::OBJECT_HIT).decorate(crate::enemy_ai::SPR_SMOKE, 6, b.x + 1, c.3, crate::effects::DIR8_NORTHEAST, 1)
                .decorate(crate::enemy_ai::SPR_SMOKE, 6, b.x, c.3, crate::effects::DIR8_NORTHWEST, 1)
        } else {
            quiet()
        },
    )
}

fn stone_head_core_exec(d1: i32, d2: i32, d4: i32, frame: usize, x: i32, y: i32, px: i32, py: i32, w: i32, h: i32, level: &LevelJson, data: &GameData) -> (r: (i32, i32, usize, i32, bool))
    requires
        level_wf(level),
        pos_ok(x as int, y as int),
        -0x4000_0000 <= px <= 0x4000_0000,
        size_ok(w as int),
        size_ok(h as int),
    ensures
        (r.0 as int, r.1 as int, r.2 as int, r.3 as int, r.4) == stone_head_core(d1 as int, d2 as int, d4 as int, frame as int, x as int, y as int, px as int, py as int, w as int, h as int, level, data),
        y - 1 <= r.3 <= y + 2,
{
    if d1 == 0 {
        if y < py && x <= px + 6 && x + 7 > px { (1, y, 1, y, false) } else { (d1, d2, 0, y, false) }
    } else if d1 == 1 {
        if !free_exec(Dir4::South, x, y + 1, w, h, level, data) {
            (2, d2, 1, y, true)
        } else if !free_exec(Dir4::South, x, y + 2, w, h, level, data) {
            (2, d2, 1, y + 1, true)
        } else {
            (d1, d2, 1, y + 2, false)
        }
    } else if d1 == 2 {
        if y == d2 { (0, d2, 0, y, false) } else if d4 != 0 { (d1, d2, 0, y - 1, false) } else { (d1, d2, 0, y, false) }
    } else {
        (d1, d2, frame, y, false)
    }
}

pub fn tick_stone_head_crusher(e: &mut Enemy, player: &crate::player::Player, level: &LevelJson, data: &GameData)
    requires
        level_wf(level),
        old(e).bounded(),
        -0x4000_0000 <= player.x <= 0x4000_0000,
    ensures
        final(e).stepped(old(e), stone_head_spec(old(e).body(), player.x as int, player.y as int, level, data)),
{
    let d4 = if e.d4 == 0 { 1 } else { 0 };
    let c = stone_head_core_exec(e.d1, e.d2, d4, e.frame, e.x, e.y, player.x, player.y, e.width_tiles, e.height_tiles, level, data);
    proof {
        lemma_untouched_queues(old(e));
        lemma_push_as_add(old(e).sounds@, snd::OBJECT_HIT);
        let d1 = (crate::enemy_ai::SPR_SMOKE, 6usize, (old(e).x + 1) as i32, c.3, crate::effects::DIR8_NORTHEAST, 1u32);
        let d2 = (crate::enemy_ai::SPR_SMOKE, 6usize, old(e).x, c.3, crate::effects::DIR8_NORTHWEST, 1u32);
        lemma_push_as_add(old(e).decorations@, d1);
        lemma_push_as_add(old(e).decorations@.push(d1), d2);
        assert(seq![d1].push(d2) == seq![d1, d2]);
        assert(old(e).decorations@ + seq![d1] + seq![d2] =~= old(e).decorations@ + seq![d1, d2]);
    }
    e.d4 = d4;
    e.d1 = c.0;
    e.d2 = c.1;
    e.frame = c.2;
    e.y = c.3;
    if c.4 {
        e.sounds.push(snd::OBJECT_HIT);
        e.decorations.push((crate::enemy_ai::SPR_SMOKE, 6, e.x + 1, e.y, crate::effects::DIR8_NORTHEAST, 1));
        e.decorations.push((crate::enemy_ai::SPR_SMOKE, 6, e.x, e.y, crate::effects::DIR8_NORTHWEST, 1));
    }
}

/// `ActBabyGhost`'s hop: pausing (`d4`), falling under gravity until it
/// lands (then winding up), or rising four rows (then falling again, which
/// hands it back to the gravity pass). Gives (d1..d5, frame, y, weighted).
pub open spec fn baby_ghost_core(b: Body, level: &LevelJson, data: &GameData) -> (int, int, int, int, int, int, int, bool) {
    if b.d4 != 0 {
        (b.d1, b.d2, b.d3, b.d4 - 1, b.d5, b.frame, b.y, b.weighted)
    } else if b.d1 == DIR2_SOUTH {
        if !free(Dir4::South, b.x, b.y + 1, b.w, b.h, level, data) {
            (DIR2_NORTH as int, 4, 1, 3, b.d5, 1, b.y, false)
        } else if b.d5 == 0 {
            (b.d1, b.d2, b.d3, if b.d3 == 0 { b.d4 + 1 } else { b.d4 }, b.d5, 1, b.y, b.weighted)
        } else {
            (b.d1, b.d2, b.d3, b.d4, b.d5 - 1, b.frame, b.y, b.weighted)
        }
    } else if b.d1 == DIR2_NORTH {
        let d2 = b.d2 - 1;
        if d2 == 0 {
            (DIR2_SOUTH as int, d2, b.d3, b.d4, 3, 0, b.y - 1, true)
        } else {
            (b.d1, d2, b.d3, b.d4, b.d5, 0, b.y - 1, b.weighted)
        }
    } else {
        (b.d1, b.d2, b.d3, b.d4, b.d5, b.frame, b.y, b.weighted)
    }
}

pub open spec fn baby_ghost_spec(b: Body, level: &LevelJson, data: &GameData) -> (Body, Out) {
    let c = baby_ghost_core(b, level, data);
    (Body { d1: c.0, d2: c.1, d3: c.2, d4: c.3, d5: c.4, frame: c.5, y: c.6, weighted: c.7, ..b }, quiet())
}

pub fn tick_baby_ghost(e: &mut Enemy, level: &LevelJson, data: &GameData)
    requires
        level_wf(level),
        old(e).bounded(),
    ensures
        final(e).stepped(old(e), baby_ghost_spec(old(e).body(), level, data)),
{
    proof {
        lemma_untouched_queues(old(e));
    }
    let c: (i32, i32, i32, i32, i32, usize, i32, bool) = if e.d4 != 0 {
        (e.d1, e.d2, e.d3, e.d4 - 1, e.d5, e.frame, e.y, e.weighted)
    } else if e.d1 == DIR2_SOUTH {
        if !free_exec(Dir4::South, e.x, e.y + 1, e.width_tiles, e.height_tiles, level, data) {
            (DIR2_NORTH, 4, 1, 3, e.d5, 1, e.y, false)
        } else if e.d5 == 0 {
            (e.d1, e.d2, e.d3, if e.d3 == 0 { e.d4 + 1 } else { e.d4 }, e.d5, 1, e.y, e.weighted)
        } else {
            (e.d1, e.d2, e.d3, e.d4, e.d5 - 1, e.frame, e.y, e.weighted)
        }
    } else if e.d1 == DIR2_NORTH {
        let d2 = e.d2 - 1;
        if d2 == 0 {
            (DIR2_SOUTH, d2, e.d3, e.d4, 3, 0, e.y - 1, true)
        } else {
            (e.d1, d2, e.d3, e.d4, e.d5, 0, e.y - 1, e.weighted)
        }
    } else {
        (e.d1, e.d2, e.d3, e.d4, e.d5, e.frame, e.y, e.weighted)
    };
    e.d1 = c.0;
    e.d2 = c.1;
    e.d3 = c.2;
    e.d4 = c.3;
    e.d5 = c.4;
    e.frame = c.5;
    e.y = c.6;
    e.weighted = c.7;
}

} // verus!
