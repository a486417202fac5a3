//! The walkers with a mind of their own: jumpers and hoppers that face the
//! player, and crawlers that pick a new way at random.
use vstd::prelude::*;
use crate::collide::{size_ok, Dir4};
use crate::data::{level_wf, GameData, LevelJson};
use crate::enemy_ai::walkers::{free, pos_ok};
use crate::enemy_ai::{
    adjust_xy, adjust_xy_exec, flip, lemma_untouched_queues, quiet, rand_step, Body, Enemy, Out,
    DIR2_EAST, DIR2_WEST,
};
use crate::player::{roll, xorshift, Player};
use crate::collide::{test_sprite_move, MoveResult};

verus! {

fn free_at(dir: Dir4, x: i32, y: i32, w: i32, h: i32, level: &LevelJson, data: &GameData) -> (r: bool)
    requires
        level_wf(level),
        -0x4000_0000 <= x <= 0x4000_0000,
        -0x4000_0000 <= y <= 0x4000_0000,
        size_ok(w as int),
        size_ok(h as int),
    ensures
        r == free(dir, x as int, y as int, w as int, h as int, level, data),
{
    test_sprite_move(dir, x, y, w, h, level, data) == MoveResult::Free
}

/// The red jumper's arc: even entries are the per-tick rise or fall, odd
/// ones the frame offset.
pub open spec fn jump_table(i: int) -> int {
    if i <= 14 {
        0
    } else if i == 15 || i == 17 {
        1
    } else if i == 16 {
        0
    } else if i <= 25 {
        if i % 2 == 0 { -2 } else { 2 }
    } else if i <= 31 {
        if i % 2 == 0 { -1 } else { 2 }
    } else if i <= 35 {
        if i % 2 == 0 { 0 } else { 2 }
    } else {
        1
    }
}

fn jump_table_exec(i: i32) -> (r: i32)
    requires
        0 <= i <= 41,
    ensures
        r == jump_table(i as int),
{
    if i <= 14 {
        0
    } else if i == 15 || i == 17 {
        1
    } else if i == 16 {
        0
    } else if i <= 25 {
        if i % 2 == 0 { -2 } else { 2 }
    } else if i <= 31 {
        if i % 2 == 0 { -1 } else { 2 }
    } else if i <= 35 {
        if i % 2 == 0 { 0 } else { 2 }
    } else {
        1
    }
}

pub open spec fn clamp41(i: int) -> int {
    if i < 0 { 0 } else if i > 41 { 41 } else { i }
}

/// The jumper's frame for a facing (`d1`, 0 or 3) at a point of the arc.
pub open spec fn jumper_frame(d1: int, idx: int) -> int {
    let f = d1 + jump_table(clamp41(idx));
    if f < 0 { 0 } else { f }
}

/// One row up if there is room, or the arc cut short at its top.
pub open spec fn climb(x: int, y: int, d2: int, w: int, h: int, level: &LevelJson, data: &GameData) -> (int, int) {
    if free(Dir4::North, x, y - 1, w, h, level, data) { (y - 1, d2) } else { (y, 34) }
}

/// `ActRedJumper`: crouches facing the player, then launches along a fixed
/// arc (drifting toward its facing mid-flight), and on the way down drops
/// two rows a tick until it lands, when the arc starts over.
/// Gives (d1, d2, frame, x, y).
pub open spec fn red_jumper_core(d1: int, d2: int, frame: int, x: int, y: int, px: int, w: int, h: int, level: &LevelJson, data: &GameData) -> (int, int, int, int, int) {
    let f1 = if d2 < 5 { if x > px { 0int } else { 3int } } else { d1 };
    let x1 = if d2 >= 5 && d2 > 16 && d2 < 39 {
        if f1 == 0 && free(Dir4::West, x - 1, y, w, h, level, data) {
            x - 1
        } else if f1 == 3 && free(Dir4::East, x + 1, y, w, h, level, data) {
            x + 1
        } else {
            x
        }
    } else {
        x
    };
    if d2 > 39 {
        let first = free(Dir4::South, x1, y + 1, w, h, level, data);
        let second = first && free(Dir4::South, x1, y + 2, w, h, level, data);
        if first && second {
            (f1, d2, jumper_frame(f1, d2 + 1), x1, y + 2)
        } else {
            (f1, 0, frame, x1, if first { y + 1 } else { y })
        }
    } else {
        let t = jump_table(clamp41(d2));
        if t == -1 {
            let c = climb(x1, y, d2, w, h, level, data);
            (f1, if c.1 < 39 { c.1 + 2 } else { c.1 }, jumper_frame(f1, c.1 + 1), x1, c.0)
        } else if t == -2 {
            let c1 = climb(x1, y, d2, w, h, level, data);
            let c2 = climb(x1, c1.0, c1.1, w, h, level, data);
            (f1, if c2.1 < 39 { c2.1 + 2 } else { c2.1 }, jumper_frame(f1, c2.1 + 1), x1, c2.0)
        } else if t == 1 {
            let y2 = if free(Dir4::South, x1, y + 1, w, h, level, data) { y + 1 } else { y };
            (f1, if d2 < 39 { d2 + 2 } else { d2 }, jumper_frame(f1, d2 + 1), x1, y2)
        } else if t == 2 {
            let first = free(Dir4::South, x1, y - 1, w, h, level, data);
            let second = first && free(Dir4::South, x1, y, w, h, level, data);
            if first && second {
                (f1, if d2 < 39 { d2 + 2 } else { d2 }, jumper_frame(f1, d2 + 1), x1, y + 2)
            } else {
                (f1, 0, frame, x1, if first { y + 1 } else { y })
            }
        } else {
            (f1, if d2 < 39 { d2 + 2 } else { d2 }, jumper_frame(f1, d2 + 1), x1, y)
        }
    }
}

pub open spec fn red_jumper_spec(b: Body, px: int, level: &LevelJson, data: &GameData) -> (Body, Out) {
    let c = red_jumper_core(b.d1, b.d2, b.frame, b.x, b.y, px, b.w, b.h, level, data);
    (Body { d1: c.0, d2: c.1, frame: c.2, x: c.3, y: c.4, ..b }, quiet())
}

fn jumper_frame_exec(d1: i32, idx: i32) -> (r: usize)
    requires
        -0x4000_0000 <= d1 <= 0x4000_0000,
        -0x4000_0000 <= idx <= 0x4000_0001,
    ensures
        r as int == jumper_frame(d1 as int, idx as int),
{
    let i = if idx < 0 { 0 } else if idx > 41 { 41 } else { idx };
    let f = d1 + jump_table_exec(i);
    if f < 0 { 0 } else { f as usize }
}

fn climb_exec(x: i32, y: i32, d2: i32, w: i32, h: i32, level: &LevelJson, data: &GameData) -> (r: (i32, i32))
    requires
        level_wf(level),
        -0x3fff_8000 <= x <= 0x3fff_8000,
        -0x3fff_8000 <= y <= 0x3fff_8000,
        size_ok(w as int),
        size_ok(h as int),
    ensures
        (r.0 as int, r.1 as int) == climb(x as int, y as int, d2 as int, w as int, h as int, level, data),
        y - 1 <= r.0 <= y,
        r.1 == d2 || r.1 == 34,
{
    if free_at(Dir4::North, x, y - 1, w, h, level, data) { (y - 1, d2) } else { (y, 34) }
}

#[verifier::rlimit(30)]
fn red_jumper_core_exec(d1: i32, d2: i32, frame: usize, x: i32, y: i32, px: i32, w: i32, h: i32, level: &LevelJson, data: &GameData) -> (r: (i32, i32, usize, i32, i32))
    requires
        level_wf(level),
        pos_ok(x as int, y as int),
        -0x4000_0000 <= d1 <= 0x4000_0000,
        -0x4000_0000 <= d2 <= 0x4000_0000,
        size_ok(w as int),
        size_ok(h as int),
    ensures
        (r.0 as int, r.1 as int, r.2 as int, r.3 as int, r.4 as int) == red_jumper_core(d1 as int, d2 as int, frame as int, x as int, y as int, px as int, w as int, h as int, level, data),
{
    let f1 = if d2 < 5 { if x > px { 0 } else { 3 } } else { d1 };
    let x1 = if d2 >= 5 && d2 > 16 && d2 < 39 {
        if f1 == 0 && free_at(Dir4::West, x - 1, y, w, h, level, data) {
            x - 1
        } else if f1 == 3 && free_at(Dir4::East, x + 1, y, w, h, level, data) {
            x + 1
        } else {
            x
        }
    } else {
        x
    };
    if d2 > 39 {
        let first = free_at(Dir4::South, x1, y + 1, w, h, level, data);
        let second = first && free_at(Dir4::South, x1, y + 2, w, h, level, data);
        if first && second {
            (f1, d2, jumper_frame_exec(f1, d2 + 1), x1, y + 2)
        } else {
            (f1, 0, frame, x1, if first { y + 1 } else { y })
        }
    } else {
        let i = if d2 < 0 { 0 } else if d2 > 41 { 41 } else { d2 };
        let t = jump_table_exec(i);
        if t == -1 {
            let c = climb_exec(x1, y, d2, w, h, level, data);
            (f1, if c.1 < 39 { c.1 + 2 } else { c.1 }, jumper_frame_exec(f1, c.1 + 1), x1, c.0)
        } else if t == -2 {
            let c1 = climb_exec(x1, y, d2, w, h, level, data);
            let c2 = climb_exec(x1, c1.0, c1.1, w, h, level, data);
            (f1, if c2.1 < 39 { c2.1 + 2 } else { c2.1 }, jumper_frame_exec(f1, c2.1 + 1), x1, c2.0)
        } else if t == 1 {
            let y2 = if free_at(Dir4::South, x1, y + 1, w, h, level, data) { y + 1 } else { y };
            (f1, if d2 < 39 { d2 + 2 } else { d2 }, jumper_frame_exec(f1, d2 + 1), x1, y2)
        } else if t == 2 {
            let first = free_at(Dir4::South, x1, y - 1, w, h, level, data);
            let second = first && free_at(Dir4::South, x1, y, w, h, level, data);
            if first && second {
                (f1, if d2 < 39 { d2 + 2 } else { d2 }, jumper_frame_exec(f1, d2 + 1), x1, y + 2)
            } else {
                (f1, 0, frame, x1, if first { y + 1 } else { y })
            }
        } else {
            (f1, if d2 < 39 { d2 + 2 } else { d2 }, jumper_frame_exec(f1, d2 + 1), x1, y)
        }
    }
}

pub fn tick_red_jumper(e: &mut Enemy, player: &Player, level: &LevelJson, data: &GameData)
    requires
        level_wf(level),
        old(e).bounded(),
    ensures
        final(e).stepped(old(e), red_jumper_spec(old(e).body(), player.x as int, level, data)),
{
    proof {
        lemma_untouched_queues(old(e));
    }
    let c = red_jumper_core_exec(e.d1, e.d2, e.frame, e.x, e.y, player.x, e.width_tiles, e.height_tiles, level, data);
    e.d1 = c.0;
    e.d2 = c.1;
    e.frame = c.2;
    e.x = c.3;
    e.y = c.4;
}

/// `ActCabbage`: sits for ten ticks facing the player, then hops three
/// tiles toward them (rising two rows), and lands to sit again.
/// Gives (d2, d3, d4, frame, x, y, west_free, east_free).
pub open spec fn cabbage_core(b: Body, px: int, level: &LevelJson, data: &GameData) -> (int, int, int, int, int, int, bool, bool) {
    let grounded = !free(Dir4::South, b.x, b.y + 1, b.w, b.h, level, data);
    let facing = if b.x > px { 0int } else { 2int };
    if b.d2 == 10 && b.d3 == 3 && !grounded {
        (b.d2, b.d3, b.d4, if b.d4 != 0 { 3 } else { 1 }, b.x, b.y, b.west_free, b.east_free)
    } else if b.d2 < 10 && grounded {
        (b.d2 + 1, b.d3, facing, facing, b.x, b.y, b.west_free, b.east_free)
    } else if b.d3 < 3 {
        let y1 = b.y + (if b.d3 < 2 { -1int } else { 0int });
        if b.d4 != 0 {
            let r = adjust_xy(b.x + 1, y1, b.w, b.h, b.acrophile, Dir4::East, level, data);
            (b.d2, b.d3 + 1, b.d4, 3, r.0, r.1, b.west_free, r.2)
        } else {
            let r = adjust_xy(b.x - 1, y1, b.w, b.h, b.acrophile, Dir4::West, level, data);
            (b.d2, b.d3 + 1, b.d4, 1, r.0, r.1, r.2, b.east_free)
        }
    } else {
        (0, 0, facing, facing, b.x, b.y, b.west_free, b.east_free)
    }
}

pub open spec fn cabbage_spec(b: Body, px: int, level: &LevelJson, data: &GameData) -> (Body, Out) {
    let c = cabbage_core(b, px, level, data);
    (Body { d2: c.0, d3: c.1, d4: c.2, frame: c.3, x: c.4, y: c.5, west_free: c.6, east_free: c.7, ..b }, quiet())
}

fn cabbage_core_exec(e: &Enemy, px: i32, level: &LevelJson, data: &GameData) -> (c: (i32, i32, i32, usize, i32, i32, bool, bool))
    requires
        level_wf(level),
        e.bounded(),
    ensures
        (c.0 as int, c.1 as int, c.2 as int, c.3 as int, c.4 as int, c.5 as int, c.6, c.7) == cabbage_core(e.body(), px as int, level, data),
{
    let grounded = !free_at(Dir4::South, e.x, e.y + 1, e.width_tiles, e.height_tiles, level, data);
    let facing: i32 = if e.x > px { 0 } else { 2 };
    if e.d2 == 10 && e.d3 == 3 && !grounded {
        (e.d2, e.d3, e.d4, if e.d4 != 0 { 3 } else { 1 }, e.x, e.y, e.west_free, e.east_free)
    } else if e.d2 < 10 && grounded {
        (e.d2 + 1, e.d3, facing, facing as usize, e.x, e.y, e.west_free, e.east_free)
    } else if e.d3 < 3 {
        let y1 = e.y + (if e.d3 < 2 { -1i32 } else { 0i32 });
        if e.d4 != 0 {
            let r = adjust_xy_exec(e.x + 1, y1, e.width_tiles, e.height_tiles, e.acrophile, Dir4::East, level, data);
            (e.d2, e.d3 + 1, e.d4, 3, r.0, r.1, e.west_free, r.2)
        } else {
            let r = adjust_xy_exec(e.x - 1, y1, e.width_tiles, e.height_tiles, e.acrophile, Dir4::West, level, data);
            (e.d2, e.d3 + 1, e.d4, 1, r.0, r.1, r.2, e.east_free)
        }
    } else {
        (0, 0, facing, facing as usize, e.x, e.y, e.west_free, e.east_free)
    }
}

pub fn tick_cabbage(e: &mut Enemy, player: &Player, level: &LevelJson, data: &GameData)
    requires
        level_wf(level),
        old(e).bounded(),
    ensures
        final(e).stepped(old(e), cabbage_spec(old(e).body(), player.x as int, level, data)),
{
    proof {
        lemma_untouched_queues(old(e));
    }
    let c = cabbage_core_exec(e, player.x, level, data);
    e.d2 = c.0;
    e.d3 = c.1;
    e.d4 = c.2;
    e.frame = c.3;
    e.x = c.4;
    e.y = c.5;
    e.west_free = c.6;
    e.east_free = c.7;
}

/// Whether a crawler may head `dir4` (0 north, 1 south, 2 west, 3 east).
pub open spec fn slug_can(dir4: int, x: int, y: int, w: int, h: int, level: &LevelJson, data: &GameData) -> bool {
    if dir4 == 0 {
        free(Dir4::North, x, y - 1, w, h, level, data)
    } else if dir4 == 1 {
        free(Dir4::South, x, y + 1, w, h, level, data)
    } else if dir4 == 2 {
        free(Dir4::West, x - 1, y, w, h, level, data)
    } else {
        free(Dir4::East, x + 1, y, w, h, level, data)
    }
}

/// `ActRoamerSlug`: crawls its heading until blocked (`d5` set), then
/// rolls a new heading each tick until one is open. `d3` picks the frame
/// pair for the heading and `d4` alternates within it.
/// Gives (d1, d3, d4, d5, frame, x, y, rng).
pub open spec fn roamer_slug_core(b: Body, level: &LevelJson, data: &GameData) -> (int, int, int, int, int, int, int, u32) {
    let d4 = flip(b.d4);
    if b.d5 == 0 {
        let ok = slug_can(b.d1, b.x, b.y, b.w, b.h, level, data);
        let d3: int = if b.d1 == 0 { 0 } else if b.d1 == 1 { 4 } else if b.d1 == 2 { 6 } else { 2 };
        let x = if ok && b.d1 == 2 { b.x - 1 } else if ok && b.d1 != 0 && b.d1 != 1 && b.d1 != 2 { b.x + 1 } else { b.x };
        let y = if ok && b.d1 == 0 { b.y - 1 } else if ok && b.d1 == 1 { b.y + 1 } else { b.y };
        let f = d3 + d4;
        (b.d1, d3, d4, if ok { b.d5 } else { 1 }, if f < 0 { 0 } else { f }, x, y, b.rng)
    } else {
        let rng = xorshift(b.rng);
        let nd = roll(rng, 4) as int;
        let ok = slug_can(nd, b.x, b.y, b.w, b.h, level, data);
        let f = b.d3 + d4;
        (if ok { nd } else { b.d1 }, b.d3, d4, if ok { 0 } else { b.d5 }, if f < 0 { 0 } else { f }, b.x, b.y, rng)
    }
}

pub open spec fn roamer_slug_spec(b: Body, level: &LevelJson, data: &GameData) -> (Body, Out) {
    let c = roamer_slug_core(b, level, data);
    (Body { d1: c.0, d3: c.1, d4: c.2, d5: c.3, frame: c.4, x: c.5, y: c.6, rng: c.7, ..b }, quiet())
}

fn slug_can_exec(dir4: i32, x: i32, y: i32, w: i32, h: i32, level: &LevelJson, data: &GameData) -> (r: bool)
    requires
        level_wf(level),
        pos_ok(x as int, y as int),
        size_ok(w as int),
        size_ok(h as int),
    ensures
        r == slug_can(dir4 as int, x as int, y as int, w as int, h as int, level, data),
{
    if dir4 == 0 {
        free_at(Dir4::North, x, y - 1, w, h, level, data)
    } else if dir4 == 1 {
        free_at(Dir4::South, x, y + 1, w, h, level, data)
    } else if dir4 == 2 {
        free_at(Dir4::West, x - 1, y, w, h, level, data)
    } else {
        free_at(Dir4::East, x + 1, y, w, h, level, data)
    }
}

fn roamer_slug_core_exec(e: &Enemy, level: &LevelJson, data: &GameData) -> (c: (i32, i32, i32, i32, usize, i32, i32, u32))
    requires
        level_wf(level),
        e.bounded(),
    ensures
        (c.0 as int, c.1 as int, c.2 as int, c.3 as int, c.4 as int, c.5 as int, c.6 as int, c.7) == roamer_slug_core(e.body(), level, data),
{
    let d4 = if e.d4 == 0 { 1 } else { 0 };
    if e.d5 == 0 {
        let ok = slug_can_exec(e.d1, e.x, e.y, e.width_tiles, e.height_tiles, level, data);
        let d3: i32 = if e.d1 == 0 { 0 } else if e.d1 == 1 { 4 } else if e.d1 == 2 { 6 } else { 2 };
        let x = if ok && e.d1 == 2 { e.x - 1 } else if ok && e.d1 != 0 && e.d1 != 1 && e.d1 != 2 { e.x + 1 } else { e.x };
        let y = if ok && e.d1 == 0 { e.y - 1 } else if ok && e.d1 == 1 { e.y + 1 } else { e.y };
        (e.d1, d3, d4, if ok { e.d5 } else { 1 }, (d3 + d4) as usize, x, y, e.rng)
    } else {
        let (rng, nd) = rand_step(e.rng, 4);
        let ok = slug_can_exec(nd as i32, e.x, e.y, e.width_tiles, e.height_tiles, level, data);
        let f = e.d3 + d4;
        (if ok { nd as i32 } else { e.d1 }, e.d3, d4, if ok { 0 } else { e.d5 }, if f < 0 { 0 } else { f as usize }, e.x, e.y, rng)
    }
}

pub fn tick_roamer_slug(e: &mut Enemy, level: &LevelJson, data: &GameData)
    requires
        level_wf(level),
        old(e).bounded(),
    ensures
        final(e).stepped(old(e), roamer_slug_spec(old(e).body(), level, data)),
{
    proof {
        lemma_untouched_queues(old(e));
    }
    let c = roamer_slug_core_exec(e, level, data);
    e.d1 = c.0;
    e.d3 = c.1;
    e.d4 = c.2;
    e.d5 = c.3;
    e.frame = c.4;
    e.x = c.5;
    e.y = c.6;
    e.rng = c.7;
}


/// `ActPinkWorm`: moves every other tick, rearing up now and then (`d3`
/// counts the rear down); westward it steps on alternate frames, eastward
/// on alternate ticks of its own toggle `d2`.
/// Gives (d1, d2, d3, d4, frame, x, y, west_free, east_free, rng).
pub open spec fn pink_worm_core(b: Body, level: &LevelJson, data: &GameData) -> (int, int, int, int, int, int, int, bool, bool, u32) {
    let d4 = flip(b.d4);
    if d4 != 0 {
        (b.d1, b.d2, b.d3, d4, b.frame, b.x, b.y, b.west_free, b.east_free, b.rng)
    } else {
        let rng = xorshift(b.rng);
        let r = roll(rng, 40);
        let d3a = if r > 37 && b.d3 == 0 && b.d2 == 0 { 4 } else { b.d3 };
        if d3a != 0 {
            let d3b = d3a - 1;
            let f = if d3b == 2 {
                if b.d1 == DIR2_WEST { 2 } else if b.d2 == 0 { 5 } else { b.frame }
            } else if b.d1 == DIR2_WEST {
                0
            } else {
                3
            };
            (b.d1, b.d2, d3b, d4, f, b.x, b.y, b.west_free, b.east_free, rng)
        } else if b.d1 == DIR2_WEST {
            let f = flip(b.frame);
            if f != 0 {
                let m = adjust_xy(b.x - 1, b.y, b.w, b.h, b.acrophile, Dir4::West, level, data);
                (if !m.2 { DIR2_EAST as int } else { b.d1 }, b.d2, d3a, d4, f, m.0, m.1, m.2, b.east_free, rng)
            } else {
                (b.d1, b.d2, d3a, d4, f, b.x, b.y, b.west_free, b.east_free, rng)
            }
        } else {
            let d2a = flip(b.d2);
            if d2a == 0 {
                let m = adjust_xy(b.x + 1, b.y, b.w, b.h, b.acrophile, Dir4::East, level, data);
                (if !m.2 { DIR2_WEST as int } else { b.d1 }, d2a, d3a, d4, d2a + 3, m.0, m.1, b.west_free, m.2, rng)
            } else {
                (b.d1, d2a, d3a, d4, d2a + 3, b.x, b.y, b.west_free, b.east_free, rng)
            }
        }
    }
}

pub open spec fn pink_worm_spec(b: Body, level: &LevelJson, data: &GameData) -> (Body, Out) {
    let c = pink_worm_core(b, level, data);
    (Body { d1: c.0, d2: c.1, d3: c.2, d4: c.3, frame: c.4, x: c.5, y: c.6, west_free: c.7, east_free: c.8, rng: c.9, ..b }, quiet())
}

fn pink_worm_core_exec(e: &Enemy, level: &LevelJson, data: &GameData) -> (c: (i32, i32, i32, i32, usize, i32, i32, bool, bool, u32))
    requires
        level_wf(level),
        e.bounded(),
    ensures
        (c.0 as int, c.1 as int, c.2 as int, c.3 as int, c.4 as int, c.5 as int, c.6 as int, c.7, c.8, c.9) == pink_worm_core(e.body(), level, data),
{
    let d4 = if e.d4 == 0 { 1 } else { 0 };
    if d4 != 0 {
        return (e.d1, e.d2, e.d3, d4, e.frame, e.x, e.y, e.west_free, e.east_free, e.rng);
    }
    let (rng, r) = rand_step(e.rng, 40);
    let d3a = if r > 37 && e.d3 == 0 && e.d2 == 0 { 4 } else { e.d3 };
    if d3a != 0 {
        let d3b = d3a - 1;
        let f = if d3b == 2 {
            if e.d1 == DIR2_WEST { 2 } else if e.d2 == 0 { 5 } else { e.frame }
        } else if e.d1 == DIR2_WEST {
            0
        } else {
            3
        };
        (e.d1, e.d2, d3b, d4, f, e.x, e.y, e.west_free, e.east_free, rng)
    } else if e.d1 == DIR2_WEST {
        let f: usize = if e.frame == 0 { 1 } else { 0 };
        if f != 0 {
            let m = adjust_xy_exec(e.x - 1, e.y, e.width_tiles, e.height_tiles, e.acrophile, Dir4::West, level, data);
            (if !m.2 { DIR2_EAST } else { e.d1 }, e.d2, d3a, d4, f, m.0, m.1, m.2, e.east_free, rng)
        } else {
            (e.d1, e.d2, d3a, d4, f, e.x, e.y, e.west_free, e.east_free, rng)
        }
    } else {
        let d2a = if e.d2 == 0 { 1 } else { 0 };
        if d2a == 0 {
            let m = adjust_xy_exec(e.x + 1, e.y, e.width_tiles, e.height_tiles, e.acrophile, Dir4::East, level, data);
            (if !m.2 { DIR2_WEST } else { e.d1 }, d2a, d3a, d4, (d2a + 3) as usize, m.0, m.1, e.west_free, m.2, rng)
        } else {
            (e.d1, d2a, d3a, d4, (d2a + 3) as usize, e.x, e.y, e.west_free, e.east_free, rng)
        }
    }
}

pub fn tick_pink_worm(e: &mut Enemy, level: &LevelJson, data: &GameData)
    requires
        level_wf(level),
        old(e).bounded(),
    ensures
        final(e).stepped(old(e), pink_worm_spec(old(e).body(), level, data)),
{
    proof {
        lemma_untouched_queues(old(e));
    }
    let c = pink_worm_core_exec(e, level, data);
    e.d1 = c.0;
    e.d2 = c.1;
    e.d3 = c.2;
    e.d4 = c.3;
    e.frame = c.4;
    e.x = c.5;
    e.y = c.6;
    e.west_free = c.7;
    e.east_free = c.8;
    e.rng = c.9;
}

/// The chomper's look-around frames, facing west and east.
pub open spec fn search_frame(west: bool, i: int) -> int {
    let a = if i == 0 || i == 5 { 8int } else if i == 1 || i == 4 { 9int } else { 10int };
    if west { a } else { 18 - a }
}

/// The chomper's random interruptions, drawn in order: a chomp on one in
/// ninety-five, else a look-around on one in a hundred.
/// Gives (d5, rng).
pub open spec fn chomper_roll(d5: int, rng: u32) -> (int, u32) {
    let r1 = xorshift(rng);
    if roll(r1, 95) == 0 {
        (10, r1)
    } else {
        let r2 = xorshift(r1);
        (if roll(r2, 100) == 0 { 11 } else { d5 }, r2)
    }
}

/// `ActRedChomper`: walks on alternate ticks; a chomp (`d5` 10 down to 1)
/// may end with it turning toward the player on a coin flip; a look-around
/// (`d5` 11..16) sweeps its gaze.
/// Gives (d1, d2, d3, d4, d5, frame, x, y, west_free, east_free, rng).
pub open spec fn red_chomper_core(b: Body, px: int, level: &LevelJson, data: &GameData) -> (int, int, int, int, int, int, int, int, bool, bool, u32) {
    let d4 = flip(b.d4);
    let ro = chomper_roll(b.d5, b.rng);
    let d5 = ro.0;
    let rng = ro.1;
    if d5 < 11 && d5 != 0 {
        let d5a = d5 - 1;
        let d2 = if d5a > 8 || d5a == 8 { b.d2 } else { flip(b.d2) };
        let f = if d5a > 8 { 6 } else if d5a == 8 { 5 } else { d2 + 6 };
        if d5a == 0 {
            let r3 = xorshift(rng);
            let d1 = if roll(r3, 2) != 0 { if b.x >= px { DIR2_WEST as int } else { DIR2_EAST as int } } else { b.d1 };
            (d1, d2, b.d3, d4, d5a, f, b.x, b.y, b.west_free, b.east_free, r3)
        } else {
            (b.d1, d2, b.d3, d4, d5a, f, b.x, b.y, b.west_free, b.east_free, rng)
        }
    } else if d5 > 10 {
        let i = if d5 - 11 < 0 { 0 } else if d5 - 11 > 5 { 5 } else { d5 - 11 };
        let f = search_frame(b.d1 == DIR2_WEST, i);
        let d5a = if d5 + 1 == 17 { 0 } else { d5 + 1 };
        (b.d1, b.d2, b.d3, d4, d5a, f, b.x, b.y, b.west_free, b.east_free, rng)
    } else if d4 != 0 {
        if b.d1 == DIR2_WEST {
            let m = adjust_xy(b.x - 1, b.y, b.w, b.h, b.acrophile, Dir4::West, level, data);
            if !m.2 {
                (DIR2_EAST as int, b.d2, b.d3, d4, d5, 4, m.0, m.1, m.2, b.east_free, rng)
            } else {
                (b.d1, b.d2, b.d3, d4, d5, flip(b.frame), m.0, m.1, m.2, b.east_free, rng)
            }
        } else {
            let d3 = flip(b.d3);
            let m = adjust_xy(b.x + 1, b.y, b.w, b.h, b.acrophile, Dir4::East, level, data);
            if !m.2 {
                (DIR2_WEST as int, b.d2, d3, d4, d5, 4, m.0, m.1, b.west_free, m.2, rng)
            } else {
                (b.d1, b.d2, d3, d4, d5, d3 + 2, m.0, m.1, b.west_free, m.2, rng)
            }
        }
    } else {
        (b.d1, b.d2, b.d3, d4, d5, b.frame, b.x, b.y, b.west_free, b.east_free, rng)
    }
}

pub open spec fn red_chomper_spec(b: Body, px: int, level: &LevelJson, data: &GameData) -> (Body, Out) {
    let c = red_chomper_core(b, px, level, data);
    (Body { d1: c.0, d2: c.1, d3: c.2, d4: c.3, d5: c.4, frame: c.5, x: c.6, y: c.7, west_free: c.8, east_free: c.9, rng: c.10, ..b }, quiet())
}

#[verifier::rlimit(30)]
fn red_chomper_core_exec(e: &Enemy, px: i32, level: &LevelJson, data: &GameData) -> (c: (i32, i32, i32, i32, i32, usize, i32, i32, bool, bool, u32))
    requires
        level_wf(level),
        e.bounded(),
    ensures
        (c.0 as int, c.1 as int, c.2 as int, c.3 as int, c.4 as int, c.5 as int, c.6 as int, c.7 as int, c.8, c.9, c.10) == red_chomper_core(e.body(), px as int, level, data),
{
    let d4 = if e.d4 == 0 { 1 } else { 0 };
    let (r1, a) = rand_step(e.rng, 95);
    let (d5, rng) = if a == 0 {
        (10, r1)
    } else {
        let (r2, b) = rand_step(r1, 100);
        (if b == 0 { 11 } else { e.d5 }, r2)
    };
    if d5 < 11 && d5 != 0 {
        let d5a = d5 - 1;
        let d2 = if d5a > 8 || d5a == 8 { e.d2 } else if e.d2 == 0 { 1 } else { 0 };
        let f: usize = if d5a > 8 { 6 } else if d5a == 8 { 5 } else { (d2 + 6) as usize };
        if d5a == 0 {
            let (r3, c) = rand_step(rng, 2);
            let d1 = if c != 0 { if e.x >= px { DIR2_WEST } else { DIR2_EAST } } else { e.d1 };
            (d1, d2, e.d3, d4, d5a, f, e.x, e.y, e.west_free, e.east_free, r3)
        } else {
            (e.d1, d2, e.d3, d4, d5a, f, e.x, e.y, e.west_free, e.east_free, rng)
        }
    } else if d5 > 10 {
        let i = if d5 - 11 < 0 { 0 } else if d5 - 11 > 5 { 5 } else { d5 - 11 };
        let a: usize = if i == 0 || i == 5 { 8 } else if i == 1 || i == 4 { 9 } else { 10 };
        let f = if e.d1 == DIR2_WEST { a } else { 18 - a };
        let d5a = if d5 + 1 == 17 { 0 } else { d5 + 1 };
        (e.d1, e.d2, e.d3, d4, d5a, f, e.x, e.y, e.west_free, e.east_free, rng)
    } else if d4 != 0 {
        if e.d1 == DIR2_WEST {
            let m = adjust_xy_exec(e.x - 1, e.y, e.width_tiles, e.height_tiles, e.acrophile, Dir4::West, level, data);
            if !m.2 {
                (DIR2_EAST, e.d2, e.d3, d4, d5, 4, m.0, m.1, m.2, e.east_free, rng)
            } else {
                (e.d1, e.d2, e.d3, d4, d5, if e.frame == 0 { 1 } else { 0 }, m.0, m.1, m.2, e.east_free, rng)
            }
        } else {
            let d3 = if e.d3 == 0 { 1 } else { 0 };
            let m = adjust_xy_exec(e.x + 1, e.y, e.width_tiles, e.height_tiles, e.acrophile, Dir4::East, level, data);
            if !m.2 {
                (DIR2_WEST, e.d2, d3, d4, d5, 4, m.0, m.1, e.west_free, m.2, rng)
            } else {
                (e.d1, e.d2, d3, d4, d5, (d3 + 2) as usize, m.0, m.1, e.west_free, m.2, rng)
            }
        }
    } else {
        (e.d1, e.d2, e.d3, d4, d5, e.frame, e.x, e.y, e.west_free, e.east_free, rng)
    }
}

pub fn tick_red_chomper(e: &mut Enemy, player: &Player, level: &LevelJson, data: &GameData)
    requires
        level_wf(level),
        old(e).bounded(),
    ensures
        final(e).stepped(old(e), red_chomper_spec(old(e).body(), player.x as int, level, data)),
{
    proof {
        lemma_untouched_queues(old(e));
    }
    let c = red_chomper_core_exec(e, player.x, level, data);
    e.d1 = c.0;
    e.d2 = c.1;
    e.d3 = c.2;
    e.d4 = c.3;
    e.d5 = c.4;
    e.frame = c.5;
    e.x = c.6;
    e.y = c.7;
    e.west_free = c.8;
    e.east_free = c.9;
    e.rng = c.10;
}

/// The parachute ball's idle bob, as frames.
pub open spec fn ball_idle_frame(i: int) -> int {
    if i <= 2 {
        2
    } else if i == 3 || i == 7 || i == 8 || i == 11 || i == 12 || i == 15 || i == 20 || i == 23 {
        0
    } else if (4 <= i && i <= 6) || (17 <= i && i <= 19) {
        3
    } else if i == 9 || i == 10 {
        2
    } else {
        1
    }
}

fn ball_idle_frame_exec(i: i32) -> (r: usize)
    requires
        0 <= i <= 26,
    ensures
        r as int == ball_idle_frame(i as int),
{
    if i <= 2 {
        2
    } else if i == 3 || i == 7 || i == 8 || i == 11 || i == 12 || i == 15 || i == 20 || i == 23 {
        0
    } else if (4 <= i && i <= 6) || (17 <= i && i <= 19) {
        3
    } else if i == 9 || i == 10 {
        2
    } else {
        1
    }
}

/// `ActParachuteBall`'s idle phase (`d1` 0): bobs through its frames, and
/// every twenty-six ticks, if level with the player or on a coin flip,
/// charges toward them (after a six-tick wind-up in `d3`).
/// Gives (d1, d2, d3, frame, rng).
pub open spec fn ball_idle(b: Body, px: int, py: int) -> (int, int, int, int, u32) {
    if b.d1 != 0 {
        (b.d1, b.d2, b.d3, b.frame, b.rng)
    } else {
        let d2 = b.d2 + 1;
        let f = ball_idle_frame(if d2 < 0 { 0 } else if d2 > 26 { 26 } else { d2 });
        if d2 == 26 {
            let level_with = b.y == py;
            let rng = if level_with { b.rng } else { xorshift(b.rng) };
            let go = level_with || roll(rng, 2) == 0;
            if go && b.x >= px + 2 {
                (1, 0, 6, 2, rng)
            } else if go && b.x + 2 <= px {
                (2, 0, 6, 3, rng)
            } else {
                (b.d1, 0, b.d3, f, rng)
            }
        } else {
            (b.d1, d2, b.d3, f, b.rng)
        }
    }
}

/// The charge: a step a tick toward its side (`d1` 1 west, 2 east) through
/// four rolling frames; a wall or the end of the run (sixteen steps west,
/// twelve east) ends it.
/// Gives (d1, d2, frame, x, y, west_free, east_free).
pub open spec fn ball_charge(b: Body, d1: int, d2: int, frame: int, level: &LevelJson, data: &GameData) -> (int, int, int, int, int, bool, bool) {
    if d1 == 1 {
        let m = adjust_xy(b.x - 1, b.y, b.w, b.h, b.acrophile, Dir4::West, level, data);
        if !m.2 {
            (0, 0, 0, m.0, m.1, m.2, b.east_free)
        } else {
            let f = 7 - d2 % 4;
            let d2a = d2 + 1;
            if d2a == 16 { (0, 0, f, m.0, m.1, m.2, b.east_free) } else { (d1, d2a, f, m.0, m.1, m.2, b.east_free) }
        }
    } else if d1 == 2 {
        let m = adjust_xy(b.x + 1, b.y, b.w, b.h, b.acrophile, Dir4::East, level, data);
        if !m.2 {
            (0, 0, 0, m.0, m.1, b.west_free, m.2)
        } else {
            let f = 4 + d2 % 4;
            let d2a = d2 + 1;
            if d2a == 12 { (0, 0, f, m.0, m.1, b.west_free, m.2) } else { (d1, d2a, f, m.0, m.1, b.west_free, m.2) }
        }
    } else {
        (d1, d2, frame, b.x, b.y, b.west_free, b.east_free)
    }
}

/// `ActParachuteBall`: the idle bob, then the wind-up count or the charge.
pub open spec fn parachute_ball_spec(b: Body, px: int, py: int, level: &LevelJson, data: &GameData) -> (Body, Out) {
    let i = ball_idle(b, px, py);
    if i.2 != 0 {
        (Body { d1: i.0, d2: i.1, d3: i.2 - 1, frame: i.3, rng: i.4, ..b }, quiet())
    } else {
        let c = ball_charge(b, i.0, i.1, i.3, level, data);
        (Body { d1: c.0, d2: c.1, d3: i.2, frame: c.2, x: c.3, y: c.4, west_free: c.5, east_free: c.6, rng: i.4, ..b }, quiet())
    }
}

fn mod4(v: i32) -> (r: i32)
    ensures
        r as int == (v as int) % 4,
        0 <= r < 4,
{
    let m = v % 4;
    if m < 0 { m + 4 } else { m }
}

fn ball_idle_exec(e: &Enemy, px: i32, py: i32) -> (r: (i32, i32, i32, usize, u32))
    requires
        e.bounded(),
        -0x4000_0000 <= px <= 0x4000_0000,
    ensures
        (r.0 as int, r.1 as int, r.2 as int, r.3 as int, r.4) == ball_idle(e.body(), px as int, py as int),
{
    if e.d1 != 0 {
        return (e.d1, e.d2, e.d3, e.frame, e.rng);
    }
    let d2 = e.d2 + 1;
    let f = ball_idle_frame_exec(if d2 < 0 { 0 } else if d2 > 26 { 26 } else { d2 });
    if d2 == 26 {
        let level_with = e.y == py;
        let (rng, c) = if level_with { (e.rng, 1) } else { rand_step(e.rng, 2) };
        let go = level_with || c == 0;
        if go && e.x >= px + 2 {
            (1, 0, 6, 2, rng)
        } else if go && e.x + 2 <= px {
            (2, 0, 6, 3, rng)
        } else {
            (e.d1, 0, e.d3, f, rng)
        }
    } else {
        (e.d1, d2, e.d3, f, e.rng)
    }
}

fn ball_charge_exec(e: &Enemy, d1: i32, d2: i32, frame: usize, level: &LevelJson, data: &GameData) -> (r: (i32, i32, usize, i32, i32, bool, bool))
    requires
        level_wf(level),
        e.bounded(),
        -0x4000_0000 <= d2 <= 0x4000_0001,
    ensures
        (r.0 as int, r.1 as int, r.2 as int, r.3 as int, r.4 as int, r.5, r.6) == ball_charge(e.body(), d1 as int, d2 as int, frame as int, level, data),
{
    if d1 == 1 {
        let m = adjust_xy_exec(e.x - 1, e.y, e.width_tiles, e.height_tiles, e.acrophile, Dir4::West, level, data);
        if !m.2 {
            (0, 0, 0, m.0, m.1, m.2, e.east_free)
        } else {
            let f = (7 - mod4(d2)) as usize;
            let d2a = d2 + 1;
            if d2a == 16 { (0, 0, f, m.0, m.1, m.2, e.east_free) } else { (d1, d2a, f, m.0, m.1, m.2, e.east_free) }
        }
    } else if d1 == 2 {
        let m = adjust_xy_exec(e.x + 1, e.y, e.width_tiles, e.height_tiles, e.acrophile, Dir4::East, level, data);
        if !m.2 {
            (0, 0, 0, m.0, m.1, e.west_free, m.2)
        } else {
            let f = (4 + mod4(d2)) as usize;
            let d2a = d2 + 1;
            if d2a == 12 { (0, 0, f, m.0, m.1, e.west_free, m.2) } else { (d1, d2a, f, m.0, m.1, e.west_free, m.2) }
        }
    } else {
        (d1, d2, frame, e.x, e.y, e.west_free, e.east_free)
    }
}

pub fn tick_parachute_ball(e: &mut Enemy, player: &Player, level: &LevelJson, data: &GameData)
    requires
        level_wf(level),
        old(e).bounded(),
        -0x4000_0000 <= player.x <= 0x4000_0000,
    ensures
        final(e).stepped(old(e), parachute_ball_spec(old(e).body(), player.x as int, player.y as int, level, data)),
{
    proof {
        lemma_untouched_queues(old(e));
    }
    let i = ball_idle_exec(e, player.x, player.y);
    if i.2 != 0 {
        e.d1 = i.0;
        e.d2 = i.1;
        e.d3 = i.2 - 1;
        e.frame = i.3;
        e.rng = i.4;
    } else {
        let c = ball_charge_exec(e, i.0, i.1, i.3, level, data);
        e.d1 = c.0;
        e.d2 = c.1;
        e.d3 = i.2;
        e.frame = c.2;
        e.x = c.3;
        e.y = c.4;
        e.west_free = c.5;
        e.east_free = c.6;
        e.rng = i.4;
    }
}

} // verus!
