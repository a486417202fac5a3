//! Contraptions and fixtures: the suction walker, floors and crates that
//! fall, the rocket and the scooter, the mystery wall and force fields,
//! fireballs, slime and projectiles.
use vstd::prelude::*;
use crate::camera::Scroll;
use crate::collide::{coord_ok, size_ok, Dir4};
use crate::data::{
    attr_at, attr_at_spec, flag_set, level_wf, tile_spec, GameData, LevelJson, TILE_ATTR_BLOCK_EAST,
    TILE_ATTR_BLOCK_NORTH, TILE_ATTR_BLOCK_SOUTH, TILE_ATTR_BLOCK_WEST,
};
use crate::effects::{DIR8_NONE, DIR8_NORTH, DIR8_NORTHEAST, DIR8_NORTHWEST, DIR8_SOUTH};
use crate::enemy_ai::walkers::{free, pos_ok};
use crate::enemy_ai::{
    flip, is_visible_at, with_vals, Queued, Vals, lemma_push_as_add, lemma_untouched_queues, quiet, rand_step, visible_spec,
    Body, Enemy, Out, SwitchState, ACT_PINK_WORM, DIR2_WEST, DIRP_WEST, SPR_FALLING_FLOOR,
    SPR_PYRAMID, SPR_ROCKET, SPR_SMOKE, SPR_SPARKLE_SHORT, SPR_WORM_CRATE_SHARDS, TILE_EMPTY,
    TILE_MYSTERY_BLOCK, TILE_STRIPED_PLATFORM,
};
use crate::player::{roll, xorshift, Player};
use crate::collide::{test_sprite_move, MoveResult};
use crate::sfx::snd;

verus! {

fn free_at(dir: Dir4, x: i32, y: i32, w: i32, h: i32, level: &LevelJson, data: &GameData) -> (r: bool)
    requires
        level_wf(level),
        -0x4000_0000 <= x <= 0x4000_0000,
        -0x4000_0000 <= y <= 0x4000_0000,
        size_ok(w as int),
        size_ok(h as int),
    ensures
        r == free(dir, x as int, y as int, w as int, h as int, level, data),
{
    test_sprite_move(dir, x, y, w, h, level, data) == MoveResult::Free
}

/// Whether the suction walker must leave the surface it is on: blocked
/// ahead, out of surface, or on a one-in-fifty whim (only rolled when
/// neither of the others holds). Gives (leave, rng).
pub open spec fn walker_leaves(blocked: bool, ledge: bool, rng: u32) -> (bool, u32) {
    if blocked || ledge {
        (true, rng)
    } else {
        let r = xorshift(rng);
        (roll(r, 50) == 0, r)
    }
}

/// `ActSuctionWalker`: walks a floor (`d2` 0) or a ceiling (1), stepping on
/// alternate ticks; leaving a surface, it swaps to the opposite one if it
/// can reach it (rising 2 or falling 3, two rows a tick) and turns round
/// otherwise. Gives (d1, d2, d3, frame, x, y, rng).
pub open spec fn suction_walker_core(b: Body, d4: int, level: &LevelJson, data: &GameData) -> (int, int, int, int, int, int, u32) {
    let dir = if b.d1 == DIR2_WEST { -1int } else { 1int };
    let step_dir = if b.d1 == DIR2_WEST { Dir4::West } else { Dir4::East };
    let turned = if b.d1 == DIR2_WEST { 1int } else { 0int };
    if b.d2 == 0 || b.d2 == 1 {
        let on_floor = b.d2 == 0;
        let d3 = if d4 != 0 { flip(b.d3) } else { b.d3 };
        let f = if d4 != 0 { if on_floor { d3 } else { d3 + 4 } } else { b.frame };
        let blocked = !free(step_dir, b.x + dir, b.y, b.w, b.h, level, data);
        let ledge = if on_floor {
            !flag_set(attr_at_spec(level, data, b.x + dir, b.y + 1), TILE_ATTR_BLOCK_SOUTH)
        } else {
            !flag_set(attr_at_spec(level, data, b.x + dir, b.y - b.h), TILE_ATTR_BLOCK_WEST)
        };
        let l = walker_leaves(blocked, ledge, b.rng);
        if l.0 {
            let can_swap = if on_floor {
                free(Dir4::North, b.x, b.y - 1, b.w, b.h, level, data)
            } else {
                free(Dir4::South, b.x, b.y + 1, b.w, b.h, level, data)
            };
            if can_swap {
                (b.d1, if on_floor { 2 } else { 3 }, d3, 9, b.x, b.y, l.1)
            } else {
                (turned, b.d2, d3, f, b.x, b.y, l.1)
            }
        } else if d4 != 0 {
            (b.d1, b.d2, d3, f, b.x + dir, b.y, l.1)
        } else {
            (b.d1, b.d2, d3, f, b.x, b.y, l.1)
        }
    } else if b.d2 == 2 {
        if !free(Dir4::North, b.x, b.y - 1, b.w, b.h, level, data) {
            (b.d1, 1, b.d3, b.frame, b.x, b.y, b.rng)
        } else if !free(Dir4::North, b.x, b.y - 2, b.w, b.h, level, data) {
            (b.d1, 1, b.d3, b.frame, b.x, b.y - 1, b.rng)
        } else {
            (b.d1, b.d2, b.d3, b.frame, b.x, b.y - 2, b.rng)
        }
    } else {
        if !free(Dir4::South, b.x, b.y + 1, b.w, b.h, level, data) {
            (b.d1, 0, b.d3, b.frame, b.x, b.y, b.rng)
        } else if !free(Dir4::South, b.x, b.y + 2, b.w, b.h, level, data) {
            (b.d1, 0, b.d3, b.frame, b.x, b.y + 1, b.rng)
        } else {
            (b.d1, b.d2, b.d3, b.frame, b.x, b.y + 2, b.rng)
        }
    }
}

pub open spec fn suction_walker_spec(b: Body, level: &LevelJson, data: &GameData) -> (Body, Out) {
    let d4 = flip(b.d4);
    let c = suction_walker_core(b, d4, level, data);
    (Body { d4, d1: c.0, d2: c.1, d3: c.2, frame: c.3, x: c.4, y: c.5, rng: c.6, ..b }, quiet())
}

#[verifier::rlimit(30)]
fn suction_walker_core_exec(e: &Enemy, d4: i32, level: &LevelJson, data: &GameData) -> (c: (i32, i32, i32, usize, i32, i32, u32))
    requires
        level_wf(level),
        e.bounded(),
    ensures
        (c.0 as int, c.1 as int, c.2 as int, c.3 as int, c.4 as int, c.5 as int, c.6) == suction_walker_core(e.body(), d4 as int, level, data),
{
    let dir: i32 = if e.d1 == DIR2_WEST { -1 } else { 1 };
    let step_dir = if e.d1 == DIR2_WEST { Dir4::West } else { Dir4::East };
    let turned: i32 = if e.d1 == DIR2_WEST { 1 } else { 0 };
    let (w, h) = (e.width_tiles, e.height_tiles);
    if e.d2 == 0 || e.d2 == 1 {
        let on_floor = e.d2 == 0;
        let d3 = if d4 != 0 { if e.d3 == 0 { 1 } else { 0 } } else { e.d3 };
        let f: usize = if d4 != 0 { if on_floor { d3 as usize } else { (d3 + 4) as usize } } else { e.frame };
        let blocked = !free_at(step_dir, e.x + dir, e.y, w, h, level, data);
        let ledge = if on_floor {
            attr_at(level, data, e.x + dir, e.y + 1) & TILE_ATTR_BLOCK_SOUTH == 0
        } else {
            attr_at(level, data, e.x + dir, e.y - h) & TILE_ATTR_BLOCK_WEST == 0
        };
        let (leave, rng) = if blocked || ledge {
            (true, e.rng)
        } else {
            let (r, v) = rand_step(e.rng, 50);
            (v == 0, r)
        };
        if leave {
            let can_swap = if on_floor {
                free_at(Dir4::North, e.x, e.y - 1, w, h, level, data)
            } else {
                free_at(Dir4::South, e.x, e.y + 1, w, h, level, data)
            };
            if can_swap {
                (e.d1, if on_floor { 2 } else { 3 }, d3, 9, e.x, e.y, rng)
            } else {
                (turned, e.d2, d3, f, e.x, e.y, rng)
            }
        } else if d4 != 0 {
            (e.d1, e.d2, d3, f, e.x + dir, e.y, rng)
        } else {
            (e.d1, e.d2, d3, f, e.x, e.y, rng)
        }
    } else if e.d2 == 2 {
        if !free_at(Dir4::North, e.x, e.y - 1, w, h, level, data) {
            (e.d1, 1, e.d3, e.frame, e.x, e.y, e.rng)
        } else if !free_at(Dir4::North, e.x, e.y - 2, w, h, level, data) {
            (e.d1, 1, e.d3, e.frame, e.x, e.y - 1, e.rng)
        } else {
            (e.d1, e.d2, e.d3, e.frame, e.x, e.y - 2, e.rng)
        }
    } else {
        if !free_at(Dir4::South, e.x, e.y + 1, w, h, level, data) {
            (e.d1, 0, e.d3, e.frame, e.x, e.y, e.rng)
        } else if !free_at(Dir4::South, e.x, e.y + 2, w, h, level, data) {
            (e.d1, 0, e.d3, e.frame, e.x, e.y + 1, e.rng)
        } else {
            (e.d1, e.d2, e.d3, e.frame, e.x, e.y + 2, e.rng)
        }
    }
}

pub fn tick_suction_walker(e: &mut Enemy, level: &LevelJson, data: &GameData)
    requires
        level_wf(level),
        old(e).bounded(),
    ensures
        final(e).stepped(old(e), suction_walker_spec(old(e).body(), level, data)),
{
    proof {
        lemma_untouched_queues(old(e));
    }
    let d4 = if e.d4 == 0 { 1 } else { 0 };
    let c = suction_walker_core_exec(e, d4, level, data);
    e.d4 = d4;
    e.d1 = c.0;
    e.d2 = c.1;
    e.d3 = c.2;
    e.frame = c.3;
    e.x = c.4;
    e.y = c.5;
    e.rng = c.6;
}

/// A map cell read as a saved word, zero off the map's west or north edge.
pub open spec fn saved_tile(level: &LevelJson, x: int, y: int) -> int {
    if x >= 0 && y >= 0 { tile_spec(level, x, y) as int } else { 0 }
}

/// `ActFallingFloor`: lays a two-tile platform across its top (saving what
/// was there in `d3`/`d4`); seven ticks after the player stands on it, it
/// puts the map back and drops under gravity; landing on anything, it
/// shatters.
pub open spec fn falling_floor_spec(b: Body, px: int, py: int, level: &LevelJson, data: &GameData) -> (Body, Out) {
    if !free(Dir4::South, b.x, b.y + 1, b.w, b.h, level, data) {
        (
            Body { dead: true, ..b },
            quiet().sound(snd::DESTROY_SOLID).shard(SPR_FALLING_FLOOR, 1, b.x, b.y).shard(SPR_FALLING_FLOOR, 2, b.x, b.y),
        )
    } else {
        let first = b.d1 == 0;
        let d3 = if first { saved_tile(level, b.x, b.y - 1) } else { b.d3 };
        let d4 = if first { saved_tile(level, b.x + 1, b.y - 1) } else { b.d4 };
        let o1 = if first {
            quiet().write(b.x, b.y - 1, TILE_STRIPED_PLATFORM).write(b.x + 1, b.y - 1, TILE_STRIPED_PLATFORM)
        } else {
            quiet()
        };
        let d2a = if b.y - 2 == py && b.x <= px + 2 && b.x + 1 >= px { 7 } else { b.d2 };
        let drops = d2a != 0 && d2a - 1 == 0;
        let d2 = if d2a != 0 { d2a - 1 } else { d2a };
        let o2 = if drops { o1.write(b.x, b.y - 1, d3 as u16).write(b.x + 1, b.y - 1, d4 as u16) } else { o1 };
        (Body { d1: if first { 1 } else { b.d1 }, d2, d3, d4, weighted: if drops { true } else { b.weighted }, ..b }, o2)
    }
}

/// A falling floor puts back exactly what it covered: on its first tick
/// it keeps the two cells above it and lays its platform there; every
/// later tick keeps them (whatever the map holds by then), and the tick it
/// gives way writes them back to those two cells.
pub proof fn lemma_falling_floor_restores_what_it_covered(
    b: Body,
    px: int,
    py: int,
    level: &LevelJson,
    data: &GameData,
    later: Body,
    qx: int,
    qy: int,
    later_level: &LevelJson,
)
    requires
        b.d1 == 0,
        free(Dir4::South, b.x, b.y + 1, b.w, b.h, level, data),
        later.d1 != 0,
        free(Dir4::South, later.x, later.y + 1, later.w, later.h, later_level, data),
    ensures
        falling_floor_spec(b, px, py, level, data).0.d3 == saved_tile(level, b.x, b.y - 1),
        falling_floor_spec(b, px, py, level, data).0.d4 == saved_tile(level, b.x + 1, b.y - 1),
        falling_floor_spec(b, px, py, level, data).1.tile_writes.subrange(0, 2)
            == seq![(b.x as i32, (b.y - 1) as i32, TILE_STRIPED_PLATFORM), ((b.x + 1) as i32, (b.y - 1) as i32, TILE_STRIPED_PLATFORM)],
        falling_floor_spec(b, px, py, level, data).0.d1 != 0,
        falling_floor_spec(later, qx, qy, later_level, data).0.d3 == later.d3,
        falling_floor_spec(later, qx, qy, later_level, data).0.d4 == later.d4,
        falling_floor_spec(later, qx, qy, later_level, data).0.weighted && !later.weighted ==>
            falling_floor_spec(later, qx, qy, later_level, data).1.tile_writes
                == seq![(later.x as i32, (later.y - 1) as i32, later.d3 as u16), ((later.x + 1) as i32, (later.y - 1) as i32, later.d4 as u16)],
{
    let o = falling_floor_spec(b, px, py, level, data).1.tile_writes;
    assert(o.subrange(0, 2) =~= seq![(b.x as i32, (b.y - 1) as i32, TILE_STRIPED_PLATFORM), ((b.x + 1) as i32, (b.y - 1) as i32, TILE_STRIPED_PLATFORM)]);
    let o2 = falling_floor_spec(later, qx, qy, later_level, data).1.tile_writes;
    if falling_floor_spec(later, qx, qy, later_level, data).0.weighted && !later.weighted {
        assert(o2 =~= seq![(later.x as i32, (later.y - 1) as i32, later.d3 as u16), ((later.x + 1) as i32, (later.y - 1) as i32, later.d4 as u16)]);
    }
}

fn saved_tile_exec(level: &LevelJson, x: i32, y: i32) -> (r: i32)
    requires
        level_wf(level),
    ensures
        r as int == saved_tile(level, x as int, y as int),
{
    if x >= 0 && y >= 0 { level.tile_at(x as usize, y as usize) as i32 } else { 0 }
}

fn falling_floor_exec(e: &Enemy, px: i32, py: i32, level: &LevelJson, data: &GameData) -> (r: (bool, i32, i32, i32, i32, bool, Queued))
    requires
        level_wf(level),
        e.bounded(),
        -0x4000_0000 <= px <= 0x4000_0000,
    ensures
        ({
            let s = falling_floor_spec(e.body(), px as int, py as int, level, data);
            &&& r.0 == s.0.dead
            &&& r.1 == s.0.d1
            &&& r.2 == s.0.d2
            &&& r.3 == s.0.d3
            &&& r.4 == s.0.d4
            &&& r.5 == s.0.weighted
            &&& r.6@ == s.1
        }),
{
    let mut q = Queued::new();
    if !free_at(Dir4::South, e.x, e.y + 1, e.width_tiles, e.height_tiles, level, data) {
        q.sounds.push(snd::DESTROY_SOLID);
        q.shards.push((SPR_FALLING_FLOOR, 1, e.x, e.y));
        q.shards.push((SPR_FALLING_FLOOR, 2, e.x, e.y));
        return (true, e.d1, e.d2, e.d3, e.d4, e.weighted, q);
    }
    let first = e.d1 == 0;
    let d3 = if first { saved_tile_exec(level, e.x, e.y - 1) } else { e.d3 };
    let d4 = if first { saved_tile_exec(level, e.x + 1, e.y - 1) } else { e.d4 };
    if first {
        q.tile_writes.push((e.x, e.y - 1, TILE_STRIPED_PLATFORM));
        q.tile_writes.push((e.x + 1, e.y - 1, TILE_STRIPED_PLATFORM));
    }
    let d2a = if e.y - 2 == py && e.x <= px + 2 && e.x + 1 >= px { 7 } else { e.d2 };
    let drops = d2a != 0 && d2a - 1 == 0;
    let d2 = if d2a != 0 { d2a - 1 } else { d2a };
    if drops {
        q.tile_writes.push((e.x, e.y - 1, d3 as u16));
        q.tile_writes.push((e.x + 1, e.y - 1, d4 as u16));
    }
    (e.dead, if first { 1 } else { e.d1 }, d2, d3, d4, if drops { true } else { e.weighted }, q)
}

pub fn tick_falling_floor(e: &mut Enemy, player: &Player, level: &LevelJson, data: &GameData)
    requires
        level_wf(level),
        old(e).bounded(),
        -0x4000_0000 <= player.x <= 0x4000_0000,
    ensures
        final(e).stepped(old(e), falling_floor_spec(old(e).body(), player.x as int, player.y as int, level, data)),
{
    let r = falling_floor_exec(e, player.x, player.y, level, data);
    e.dead = r.0;
    e.d1 = r.1;
    e.d2 = r.2;
    e.d3 = r.3;
    e.d4 = r.4;
    e.weighted = r.5;
    e.absorb(r.6);
}


/// `ActPyramid`: a blast three ticks earlier (`d2`) destroys it for 200
/// and a shard; the floor-mounted kind (`d5`) is inert; the ceiling kind
/// drops once the player passes beneath, and dies on landing.
pub open spec fn pyramid_spec(b: Body, px: int, py: int, level: &LevelJson, data: &GameData) -> (Body, Out) {
    let d2 = if b.d2 != 0 { b.d2 - 1 } else { b.d2 };
    if b.d2 != 0 && d2 == 0 {
        (Body { d2, dead: true, ..b }, quiet().explode(b.x - 1, b.y + 1).award(200).shard(SPR_PYRAMID, 0, b.x, b.y))
    } else if b.d5 != 0 {
        (Body { d2, ..b }, quiet())
    } else if b.d1 == 0 {
        (Body { d2, d1: if b.y < py && b.x <= px + 6 && b.x + 5 > px { 1 } else { b.d1 }, ..b }, quiet())
    } else if !free(Dir4::South, b.x, b.y + 1, b.w, b.h, level, data) {
        (Body { d2, dead: true, ..b }, quiet())
    } else {
        (Body { d2, y: b.y + 1, ..b }, quiet())
    }
}

fn pyramid_step(e: &Enemy, px: i32, py: i32, level: &LevelJson, data: &GameData) -> (r: (Vals, Queued))
    requires
        level_wf(level),
        e.bounded(),
        -0x4000_0000 <= px <= 0x4000_0000,
    ensures
        with_vals(e.body(), r.0) == pyramid_spec(e.body(), px as int, py as int, level, data).0,
        r.1@ == pyramid_spec(e.body(), px as int, py as int, level, data).1,
        r.1.score <= 200,
{
    let mut v = e.vals();
    let mut q = Queued::new();
    if v.d2 != 0 {
        v.d2 = v.d2 - 1;
        if v.d2 == 0 {
            q.explosions.push((v.x - 1, v.y + 1));
            v.dead = true;
            q.score = 200;
            q.shards.push((SPR_PYRAMID, 0, v.x, v.y));
            return (v, q);
        }
    }
    if v.d5 != 0 {
        return (v, q);
    }
    if v.d1 == 0 {
        if v.y < py && v.x <= px + 6 && v.x + 5 > px {
            v.d1 = 1;
        }
    } else if !free_at(Dir4::South, v.x, v.y + 1, e.width_tiles, e.height_tiles, level, data) {
        v.dead = true;
    } else {
        v.y = v.y + 1;
    }
    (v, q)
}

pub fn tick_pyramid(e: &mut Enemy, player: &Player, level: &LevelJson, data: &GameData)
    requires
        level_wf(level),
        old(e).bounded(),
        -0x4000_0000 <= player.x <= 0x4000_0000,
    ensures
        final(e).stepped(old(e), pyramid_spec(old(e).body(), player.x as int, player.y as int, level, data)),
{
    let (v, q) = pyramid_step(e, player.x, player.y, level, data);
    e.finish(v, q);
}

/// `ActScooter`: spins its four frames; ridden, it sits under the player;
/// left alone, every tenth tick it settles onto whatever is below it.
pub open spec fn scooter_spec(b: Body, ridden: bool, px: int, py: int, level: &LevelJson, data: &GameData) -> (Body, Out) {
    let frame = (b.frame + 1) % 4;
    if ridden {
        (Body { frame, x: px, y: py + 1, ..b }, quiet())
    } else {
        let d2 = b.d2 + 1;
        if d2 % 10 != 0 {
            (Body { frame, d2, ..b }, quiet())
        } else if !free(Dir4::South, b.x, b.y + 1, b.w, b.h, level, data) {
            (Body { frame, d2, y: b.y - 1, ..b }, quiet())
        } else if !free(Dir4::South, b.x, b.y + 2, b.w, b.h, level, data) {
            (Body { frame, d2, ..b }, quiet())
        } else {
            (Body { frame, d2, y: b.y + 1, ..b }, quiet())
        }
    }
}

fn scooter_step(e: &Enemy, ridden: bool, px: i32, py: i32, level: &LevelJson, data: &GameData) -> (r: (Vals, Queued))
    requires
        level_wf(level),
        e.bounded(),
        py < i32::MAX,
    ensures
        with_vals(e.body(), r.0) == scooter_spec(e.body(), ridden, px as int, py as int, level, data).0,
        r.1@ == scooter_spec(e.body(), ridden, px as int, py as int, level, data).1,
        r.1.score == 0,
{
    let mut v = e.vals();
    let q = Queued::new();
    v.frame = (v.frame + 1) % 4;
    if ridden {
        v.x = px;
        v.y = py + 1;
        return (v, q);
    }
    v.d2 = v.d2 + 1;
    if v.d2 % 10 != 0 {
        return (v, q);
    }
    if !free_at(Dir4::South, v.x, v.y + 1, e.width_tiles, e.height_tiles, level, data) {
        v.y = v.y - 1;
    } else if free_at(Dir4::South, v.x, v.y + 2, e.width_tiles, e.height_tiles, level, data) {
        v.y = v.y + 1;
    }
    (v, q)
}

pub fn tick_scooter(e: &mut Enemy, player: &Player, level: &LevelJson, data: &GameData)
    requires
        level_wf(level),
        old(e).bounded(),
        player.y < i32::MAX,
    ensures
        final(e).stepped(old(e), scooter_spec(old(e).body(), player.scooter != 0, player.x as int, player.y as int, level, data)),
{
    let (v, q) = scooter_step(e, player.scooter != 0, player.x, player.y, level, data);
    e.finish(v, q);
}

/// A climbing rocket's row: up if there is room, and a ceiling sets it to
/// explode (`d5`).
pub open spec fn rocket_climb(x: int, y: int, d5: int, w: int, h: int, level: &LevelJson, data: &GameData) -> (int, int) {
    if free(Dir4::North, x, y - 1, w, h, level, data) { (y - 1, d5) } else { (y, 1) }
}

/// `ActRocket`: on its sixty-tick fuse it smokes on the pad, alternating
/// sides; lit, it climbs (a row a tick below ten, two below five) with a
/// burn under it, carries a player standing on its nose, and explodes
/// into three pieces when it meets a ceiling.
pub open spec fn rocket_spec(b: Body, px: int, py: int, level: &LevelJson, data: &GameData) -> (Body, Out) {
    if b.d1 != 0 {
        let d1 = b.d1 - 1;
        let out = if d1 < 30 {
            if d1 % 2 != 0 {
                quiet().decorate(SPR_SMOKE, 6, b.x - 1, b.y + 1, DIR8_NORTHWEST, 1)
            } else {
                quiet().decorate(SPR_SMOKE, 6, b.x + 1, b.y + 1, DIR8_NORTHEAST, 1)
            }
        } else {
            quiet()
        };
        (Body { d1, ..b }, out)
    } else {
        let lit = b.d2 != 0;
        let d2 = if lit && b.d2 > 1 { b.d2 - 1 } else { b.d2 };
        let o1 = if lit && d2 > 4 && d2 % 2 != 0 { quiet().decorate(SPR_SMOKE, 6, b.x, b.y + 2, DIR8_SOUTH, 1) } else { quiet() };
        let c1 = if lit && d2 < 10 { rocket_climb(b.x, b.y, b.d5, b.w, b.h, level, data) } else { (b.y, b.d5) };
        let c2 = if lit && d2 < 5 { rocket_climb(b.x, c1.0, c1.1, b.w, b.h, level, data) } else { c1 };
        let d4 = if lit { flip(b.d4) } else { b.d4 };
        let y = c2.0;
        let d5 = c2.1;
        let o2 = if d2 != 0 && b.x == px && y - 7 <= py && y - 4 >= py { o1.lift() } else { o1 };
        if d5 != 0 {
            (
                Body { d2, d4, d5, y, dead: true, ..b },
                o2.sound(snd::EXPLOSION).shard(SPR_ROCKET, 1, b.x, y).shard(SPR_ROCKET, 2, b.x + 1, y).shard(SPR_ROCKET, 3, b.x + 2, y),
            )
        } else {
            (Body { d2, d4, d5, y, ..b }, o2)
        }
    }
}

fn rocket_climb_exec(x: i32, y: i32, d5: i32, w: i32, h: i32, level: &LevelJson, data: &GameData) -> (r: (i32, i32))
    requires
        level_wf(level),
        -0x3fff_8000 <= x <= 0x3fff_8000,
        -0x3fff_8000 <= y <= 0x3fff_8000,
        size_ok(w as int),
        size_ok(h as int),
    ensures
        (r.0 as int, r.1 as int) == rocket_climb(x as int, y as int, d5 as int, w as int, h as int, level, data),
        y - 1 <= r.0 <= y,
{
    if free_at(Dir4::North, x, y - 1, w, h, level, data) { (y - 1, d5) } else { (y, 1) }
}

fn rocket_step(e: &Enemy, px: i32, py: i32, level: &LevelJson, data: &GameData) -> (r: (Vals, Queued))
    requires
        level_wf(level),
        e.bounded(),
    ensures
        with_vals(e.body(), r.0) == rocket_spec(e.body(), px as int, py as int, level, data).0,
        r.1@ == rocket_spec(e.body(), px as int, py as int, level, data).1,
        r.1.score == 0,
{
    let mut v = e.vals();
    let mut q = Queued::new();
    if v.d1 != 0 {
        v.d1 = v.d1 - 1;
        if v.d1 < 30 {
            if v.d1 % 2 != 0 {
                q.decorations.push((SPR_SMOKE, 6, v.x - 1, v.y + 1, DIR8_NORTHWEST, 1));
            } else {
                q.decorations.push((SPR_SMOKE, 6, v.x + 1, v.y + 1, DIR8_NORTHEAST, 1));
            }
        }
        return (v, q);
    }
    let lit = v.d2 != 0;
    if lit && v.d2 > 1 {
        v.d2 = v.d2 - 1;
    }
    if lit && v.d2 > 4 && v.d2 % 2 != 0 {
        q.decorations.push((SPR_SMOKE, 6, v.x, v.y + 2, DIR8_SOUTH, 1));
    }
    if lit && v.d2 < 10 {
        let c = rocket_climb_exec(v.x, v.y, v.d5, e.width_tiles, e.height_tiles, level, data);
        v.y = c.0;
        v.d5 = c.1;
    }
    if lit && v.d2 < 5 {
        let c = rocket_climb_exec(v.x, v.y, v.d5, e.width_tiles, e.height_tiles, level, data);
        v.y = c.0;
        v.d5 = c.1;
    }
    if lit {
        v.d4 = if v.d4 == 0 { 1 } else { 0 };
    }
    if v.d2 != 0 && v.x == px && v.y - 7 <= py && v.y - 4 >= py {
        q.carry = true;
    }
    if v.d5 != 0 {
        v.dead = true;
        q.sounds.push(snd::EXPLOSION);
        q.shards.push((SPR_ROCKET, 1, v.x, v.y));
        q.shards.push((SPR_ROCKET, 2, v.x + 1, v.y));
        q.shards.push((SPR_ROCKET, 3, v.x + 2, v.y));
    }
    (v, q)
}

pub fn tick_rocket(e: &mut Enemy, player: &Player, level: &LevelJson, data: &GameData)
    requires
        level_wf(level),
        old(e).bounded(),
    ensures
        final(e).stepped(old(e), rocket_spec(old(e).body(), player.x as int, player.y as int, level, data)),
{
    let (v, q) = rocket_step(e, player.x, player.y, level, data);
    e.finish(v, q);
}

/// The four cells of a crate's platform, on the row two above its base.
pub open spec fn lay(o: Out, x: int, y: int, raw: u16) -> Out {
    o.write(x, y - 2, raw).write(x + 1, y - 2, raw).write(x + 2, y - 2, raw).write(x + 3, y - 2, raw)
}

fn lay_exec(q: &mut Queued, x: i32, y: i32, raw: u16)
    requires
        -0x3fff_8000 <= x <= 0x3fff_8000,
        -0x3fff_8000 <= y <= 0x3fff_8000,
    ensures
        final(q)@ == lay(old(q)@, x as int, y as int, raw),
{
    q.tile_writes.push((x, y - 2, raw));
    q.tile_writes.push((x + 1, y - 2, raw));
    q.tile_writes.push((x + 2, y - 2, raw));
    q.tile_writes.push((x + 3, y - 2, raw));
}

/// `ActWormCrate`: lays a four-tile platform across its top on its first
/// tick, then falls while it can, carrying the platform down with it.
pub open spec fn worm_crate_spec(b: Body, level: &LevelJson, data: &GameData) -> (Body, Out) {
    if b.d4 == 0 {
        (Body { d4: 1, ..b }, lay(quiet(), b.x, b.y, TILE_STRIPED_PLATFORM))
    } else if free(Dir4::South, b.x, b.y + 1, b.w, b.h, level, data) {
        let y = b.y + 1;
        let o = lay(quiet(), b.x, b.y, TILE_EMPTY);
        if !free(Dir4::South, b.x, y + 1, b.w, b.h, level, data) {
            (Body { y, ..b }, lay(o, b.x, y, TILE_STRIPED_PLATFORM))
        } else {
            (Body { y, ..b }, o)
        }
    } else {
        (b, quiet())
    }
}

fn worm_crate_step(e: &Enemy, level: &LevelJson, data: &GameData) -> (r: (Vals, Queued))
    requires
        level_wf(level),
        e.bounded(),
    ensures
        with_vals(e.body(), r.0) == worm_crate_spec(e.body(), level, data).0,
        r.1@ == worm_crate_spec(e.body(), level, data).1,
        r.1.score == 0,
{
    let mut v = e.vals();
    let mut q = Queued::new();
    if v.d4 == 0 {
        lay_exec(&mut q, v.x, v.y, TILE_STRIPED_PLATFORM);
        v.d4 = 1;
        return (v, q);
    }
    if free_at(Dir4::South, v.x, v.y + 1, e.width_tiles, e.height_tiles, level, data) {
        lay_exec(&mut q, v.x, v.y, TILE_EMPTY);
        v.y = v.y + 1;
        if !free_at(Dir4::South, v.x, v.y + 1, e.width_tiles, e.height_tiles, level, data) {
            lay_exec(&mut q, v.x, v.y, TILE_STRIPED_PLATFORM);
        }
    }
    (v, q)
}

pub fn tick_worm_crate(e: &mut Enemy, level: &LevelJson, data: &GameData)
    requires
        level_wf(level),
        old(e).bounded(),
    ensures
        final(e).stepped(old(e), worm_crate_spec(old(e).body(), level, data)),
{
    let (v, q) = worm_crate_step(e, level, data);
    e.finish(v, q);
}

/// Breaking a worm crate open: it clears its platform and lets out a pink
/// worm, in seven pieces.
pub open spec fn burst_spec(b: Body) -> (Body, Out) {
    if b.dead {
        (b, quiet())
    } else {
        let o = lay(quiet(), b.x, b.y, TILE_EMPTY).spawn(ACT_PINK_WORM, b.x, b.y).sound(snd::DESTROY_SOLID)
            .shard(SPR_WORM_CRATE_SHARDS, 0, b.x - 1, b.y + 3)
            .shard(SPR_WORM_CRATE_SHARDS, 1, b.x, b.y - 1)
            .shard(SPR_WORM_CRATE_SHARDS, 2, b.x + 1, b.y)
            .shard(SPR_WORM_CRATE_SHARDS, 3, b.x, b.y)
            .shard(SPR_WORM_CRATE_SHARDS, 4, b.x + 3, b.y + 2)
            .shard(SPR_WORM_CRATE_SHARDS, 5, b.x, b.y)
            .shard(SPR_WORM_CRATE_SHARDS, 6, b.x + 5, b.y + 5);
        (Body { dead: true, ..b }, o)
    }
}

fn burst_step(e: &Enemy) -> (r: (Vals, Queued))
    requires
        e.bounded(),
    ensures
        with_vals(e.body(), r.0) == burst_spec(e.body()).0,
        r.1@ == burst_spec(e.body()).1,
        r.1.score == 0,
{
    let mut v = e.vals();
    let mut q = Queued::new();
    if v.dead {
        return (v, q);
    }
    v.dead = true;
    lay_exec(&mut q, v.x, v.y, TILE_EMPTY);
    q.spawns.push((ACT_PINK_WORM, v.x, v.y));
    q.sounds.push(snd::DESTROY_SOLID);
    q.shards.push((SPR_WORM_CRATE_SHARDS, 0, v.x - 1, v.y + 3));
    q.shards.push((SPR_WORM_CRATE_SHARDS, 1, v.x, v.y - 1));
    q.shards.push((SPR_WORM_CRATE_SHARDS, 2, v.x + 1, v.y));
    q.shards.push((SPR_WORM_CRATE_SHARDS, 3, v.x, v.y));
    q.shards.push((SPR_WORM_CRATE_SHARDS, 4, v.x + 3, v.y + 2));
    q.shards.push((SPR_WORM_CRATE_SHARDS, 5, v.x, v.y));
    q.shards.push((SPR_WORM_CRATE_SHARDS, 6, v.x + 5, v.y + 5));
    (v, q)
}

/// Breaks a worm crate open. Called by the blast code.
pub fn burst_worm_crate(e: &mut Enemy)
    requires
        old(e).bounded(),
    ensures
        final(e).stepped(old(e), burst_spec(old(e).body())),
{
    let (v, q) = burst_step(e);
    e.finish(v, q);
}


/// `ActMysteryWall`: sleeps until its switch is thrown (`mystery_wall_time`
/// non-zero), then rises a row a tick, stamping its blocks and sparkling
/// on alternate rows, and becomes part of the map when it meets a ceiling.
pub open spec fn mystery_wall_spec(b: Body, wall_time: int, level: &LevelJson, data: &GameData) -> (Body, Out) {
    let woke = wall_time != 0;
    let d1 = if woke { 1 } else { b.d1 };
    let fa = if woke { true } else { b.force_active };
    if d1 == 0 {
        (Body { d1, force_active: fa, ..b }, quiet())
    } else {
        let odd = d1 % 2 != 0;
        let o1 = if odd {
            quiet().write(b.x, b.y - 1, TILE_MYSTERY_BLOCK).write(b.x + 1, b.y - 1, TILE_MYSTERY_BLOCK)
                .write(b.x, b.y, TILE_MYSTERY_BLOCK).write(b.x + 1, b.y, TILE_MYSTERY_BLOCK)
        } else {
            quiet()
        };
        if !free(Dir4::North, b.x, b.y - 1, b.w, b.h, level, data) {
            let o2 = if !odd { o1.write(b.x, b.y - 1, TILE_MYSTERY_BLOCK).write(b.x + 1, b.y - 1, TILE_MYSTERY_BLOCK) } else { o1 };
            (Body { d1, force_active: fa, dead: true, ..b }, o2)
        } else {
            let o2 = if !odd { o1.decorate(SPR_SPARKLE_SHORT, 4, b.x - 1, b.y - 1, DIR8_NONE, 1) } else { o1 };
            (Body { d1: d1 + 1, force_active: fa, y: b.y - 1, ..b }, o2)
        }
    }
}

fn mystery_wall_step(e: &Enemy, wall_time: i32, level: &LevelJson, data: &GameData) -> (r: (Vals, Queued))
    requires
        level_wf(level),
        e.bounded(),
    ensures
        with_vals(e.body(), r.0) == mystery_wall_spec(e.body(), wall_time as int, level, data).0,
        r.1@ == mystery_wall_spec(e.body(), wall_time as int, level, data).1,
        r.1.score == 0,
{
    let mut v = e.vals();
    let mut q = Queued::new();
    if wall_time != 0 {
        v.d1 = 1;
        v.force_active = true;
    }
    if v.d1 == 0 {
        return (v, q);
    }
    let odd = v.d1 % 2 != 0;
    if odd {
        q.tile_writes.push((v.x, v.y - 1, TILE_MYSTERY_BLOCK));
        q.tile_writes.push((v.x + 1, v.y - 1, TILE_MYSTERY_BLOCK));
        q.tile_writes.push((v.x, v.y, TILE_MYSTERY_BLOCK));
        q.tile_writes.push((v.x + 1, v.y, TILE_MYSTERY_BLOCK));
    }
    if !free_at(Dir4::North, v.x, v.y - 1, e.width_tiles, e.height_tiles, level, data) {
        if !odd {
            q.tile_writes.push((v.x, v.y - 1, TILE_MYSTERY_BLOCK));
            q.tile_writes.push((v.x + 1, v.y - 1, TILE_MYSTERY_BLOCK));
        }
        v.dead = true;
    } else {
        if !odd {
            q.decorations.push((SPR_SPARKLE_SHORT, 4, v.x - 1, v.y - 1, DIR8_NONE, 1));
        }
        v.d1 = v.d1 + 1;
        v.y = v.y - 1;
    }
    (v, q)
}

pub fn tick_mystery_wall(e: &mut Enemy, switches: &SwitchState, level: &LevelJson, data: &GameData)
    requires
        level_wf(level),
        old(e).bounded(),
    ensures
        final(e).stepped(old(e), mystery_wall_spec(old(e).body(), switches.mystery_wall_time as int, level, data)),
{
    let (v, q) = mystery_wall_step(e, switches.mystery_wall_time, level, data);
    e.finish(v, q);
}

/// The longest a beam runs; it only ends a run a level leaves open.
pub const FORCE_FIELD_MAX: i32 = 64;

/// How many cells a beam runs from `(x, y)` before a wall: up the column
/// for a vertical beam, along the row for a horizontal one.
pub open spec fn beam_len(x: int, y: int, vertical: bool, len: int, level: &LevelJson, data: &GameData) -> int
    decreases FORCE_FIELD_MAX - len,
{
    if len >= FORCE_FIELD_MAX {
        len
    } else {
        let blocked = if vertical {
            flag_set(attr_at_spec(level, data, x, y - len), TILE_ATTR_BLOCK_NORTH)
        } else {
            flag_set(attr_at_spec(level, data, x + len, y), TILE_ATTR_BLOCK_EAST)
        };
        if blocked { len } else { beam_len(x, y, vertical, len + 1, level, data) }
    }
}

/// `ActForceField`: measures its beam into `d1` each tick; the switch
/// turns the fields off for good.
pub open spec fn force_field_spec(b: Body, active: bool, level: &LevelJson, data: &GameData) -> (Body, Out) {
    let d4 = if b.d4 + 1 == 3 { 0 } else { b.d4 + 1 };
    if !active {
        (Body { d4, dead: true, d1: 0, ..b }, quiet())
    } else {
        (Body { d4, d1: beam_len(b.x, b.y, b.d5 == 0, 0, level, data), ..b }, quiet())
    }
}

fn beam_len_exec(x: i32, y: i32, vertical: bool, level: &LevelJson, data: &GameData) -> (r: i32)
    requires
        level_wf(level),
        -0x3fff_0000 <= x <= 0x3fff_0000,
        -0x3fff_0000 <= y <= 0x3fff_0000,
    ensures
        r as int == beam_len(x as int, y as int, vertical, 0, level, data),
        0 <= r <= FORCE_FIELD_MAX,
{
    let mut len: i32 = 0;
    while len < FORCE_FIELD_MAX
        invariant
            level_wf(level),
            -0x3fff_0000 <= x <= 0x3fff_0000,
            -0x3fff_0000 <= y <= 0x3fff_0000,
            0 <= len <= FORCE_FIELD_MAX,
            beam_len(x as int, y as int, vertical, 0, level, data) == beam_len(x as int, y as int, vertical, len as int, level, data),
        decreases FORCE_FIELD_MAX - len,
    {
        let blocked = if vertical {
            attr_at(level, data, x, y - len) & TILE_ATTR_BLOCK_NORTH != 0
        } else {
            attr_at(level, data, x + len, y) & TILE_ATTR_BLOCK_EAST != 0
        };
        if blocked {
            return len;
        }
        len = len + 1;
    }
    len
}

fn force_field_step(e: &Enemy, active: bool, level: &LevelJson, data: &GameData) -> (r: (Vals, Queued))
    requires
        level_wf(level),
        e.bounded(),
    ensures
        with_vals(e.body(), r.0) == force_field_spec(e.body(), active, level, data).0,
        r.1@ == force_field_spec(e.body(), active, level, data).1,
        r.1.score == 0,
{
    let mut v = e.vals();
    let q = Queued::new();
    v.d4 = v.d4 + 1;
    if v.d4 == 3 {
        v.d4 = 0;
    }
    if !active {
        v.dead = true;
        v.d1 = 0;
        return (v, q);
    }
    v.d1 = beam_len_exec(v.x, v.y, v.d5 == 0, level, data);
    (v, q)
}

pub fn tick_force_field(e: &mut Enemy, switches: &SwitchState, level: &LevelJson, data: &GameData)
    requires
        level_wf(level),
        old(e).bounded(),
    ensures
        final(e).stepped(old(e), force_field_spec(old(e).body(), switches.force_fields_active, level, data)),
{
    let (v, q) = force_field_step(e, switches.force_fields_active, level, data);
    e.finish(v, q);
}

/// `ActFireball`: waits thirty ticks (sounding its launch on the last),
/// then flies along `d5`'s side until it strikes something (a puff and a
/// thud) or leaves the view, and snaps back to its launcher at `d2`/`d3`.
pub open spec fn fireball_spec(b: Body, sx: int, sy: int, level: &LevelJson, data: &GameData) -> (Body, Out) {
    let o1 = if b.d1 == 29 { quiet().sound(snd::FIREBALL_LAUNCH) } else { quiet() };
    let (d1, x, y, o2) = if b.d1 < 30 {
        (b.d1 + 1, b.x, b.y, o1)
    } else {
        let dir = if b.d5 == DIR2_WEST { Dir4::West } else { Dir4::East };
        let x1 = if b.d5 == DIR2_WEST { b.x - 1 } else { b.x + 1 };
        if !free(dir, x1, b.y, b.w, b.h, level, data) {
            let px = if b.d5 == DIRP_WEST { x1 + 1 } else { x1 - 2 };
            (0, b.d2, b.d3, o1.decorate(SPR_SMOKE, 6, px, b.y, DIR8_NORTH, 1).sound(snd::BIG_OBJECT_HIT))
        } else {
            (b.d1, x1, b.y, o1)
        }
    };
    if !visible_spec(x, y, b.w, b.h, sx, sy) {
        (Body { d1: 0, x: b.d2, y: b.d3, frame: flip(b.frame), ..b }, o2)
    } else {
        (Body { d1, x, y, frame: flip(b.frame), ..b }, o2)
    }
}

fn fireball_step(e: &Enemy, scroll: &Scroll, level: &LevelJson, data: &GameData) -> (r: (Vals, Queued))
    requires
        level_wf(level),
        e.bounded(),
        coord_ok(scroll.x as int),
        coord_ok(scroll.y as int),
    ensures
        with_vals(e.body(), r.0) == fireball_spec(e.body(), scroll.x as int, scroll.y as int, level, data).0,
        r.1@ == fireball_spec(e.body(), scroll.x as int, scroll.y as int, level, data).1,
        r.1.score == 0,
{
    let mut v = e.vals();
    let mut q = Queued::new();
    if v.d1 == 29 {
        q.sounds.push(snd::FIREBALL_LAUNCH);
    }
    if v.d1 < 30 {
        v.d1 = v.d1 + 1;
    } else {
        let dir = if v.d5 == DIR2_WEST { Dir4::West } else { Dir4::East };
        v.x = if v.d5 == DIR2_WEST { v.x - 1 } else { v.x + 1 };
        if !free_at(dir, v.x, v.y, e.width_tiles, e.height_tiles, level, data) {
            let px = if v.d5 == DIRP_WEST { v.x + 1 } else { v.x - 2 };
            q.decorations.push((SPR_SMOKE, 6, px, v.y, DIR8_NORTH, 1));
            q.sounds.push(snd::BIG_OBJECT_HIT);
            v.d1 = 0;
            v.x = v.d2;
            v.y = v.d3;
        }
    }
    if !is_visible_at(v.x, v.y, e.width_tiles, e.height_tiles, scroll.x, scroll.y) {
        v.d1 = 0;
        v.x = v.d2;
        v.y = v.d3;
    }
    v.frame = if v.frame == 0 { 1 } else { 0 };
    (v, q)
}

pub fn tick_fireball(e: &mut Enemy, level: &LevelJson, data: &GameData, scroll: &Scroll)
    requires
        level_wf(level),
        old(e).bounded(),
        coord_ok(scroll.x as int),
        coord_ok(scroll.y as int),
    ensures
        final(e).stepped(old(e), fireball_spec(old(e).body(), scroll.x as int, scroll.y as int, level, data)),
{
    let (v, q) = fireball_step(e, scroll, level, data);
    e.finish(v, q);
}

/// The slime's throb, as frames.
pub open spec fn throb(i: int) -> int {
    if i == 0 || i == 6 { 0 } else if i == 1 || i == 5 { 1 } else if i == 2 || i == 4 { 2 } else { 3 }
}

fn throb_exec(i: usize) -> (r: usize)
    requires
        i < 7,
    ensures
        r as int == throb(i as int),
{
    if i == 0 || i == 6 { 0 } else if i == 1 || i == 5 { 1 } else if i == 2 || i == 4 { 2 } else { 3 }
}

/// `ActRedGreenSlime`: the throbbing kind (`d5` 0) throbs in place; the
/// dripping kind gathers for fifteen ticks (with a drip sound), stretches,
/// falls, and returns to its ceiling row (`d2`) once out of view.
pub open spec fn slime_spec(b: Body, sx: int, sy: int) -> (Body, Out) {
    if b.d5 == 0 {
        let d3 = b.d3 + 1;
        (Body { frame: throb(((b.d3 as usize) % 7) as int), d3: if d3 == 6 { 0 } else { d3 }, ..b }, quiet())
    } else if b.d4 == 0 {
        let d3 = b.d3 + 1;
        if d3 == 15 {
            (Body { frame: 4, d3: 0, d4: 1, ..b }, quiet().sound(snd::DRIP))
        } else {
            (Body { frame: throb(((b.d3 as usize) % 6) as int), d3, ..b }, quiet())
        }
    } else if b.frame < 6 {
        (Body { frame: b.frame + 1, ..b }, quiet())
    } else {
        let y = b.y + 1;
        if !visible_spec(b.x, y, b.w, b.h, sx, sy) {
            (Body { y: b.d2, d4: 0, frame: 0, ..b }, quiet())
        } else {
            (Body { y, ..b }, quiet())
        }
    }
}

fn slime_step(e: &Enemy, scroll: &Scroll) -> (r: (Vals, Queued))
    requires
        e.bounded(),
        coord_ok(scroll.x as int),
        coord_ok(scroll.y as int),
    ensures
        with_vals(e.body(), r.0) == slime_spec(e.body(), scroll.x as int, scroll.y as int).0,
        r.1@ == slime_spec(e.body(), scroll.x as int, scroll.y as int).1,
        r.1.score == 0,
{
    let mut v = e.vals();
    let mut q = Queued::new();
    if v.d5 == 0 {
        v.frame = throb_exec((v.d3 as usize) % 7);
        v.d3 = v.d3 + 1;
        if v.d3 == 6 {
            v.d3 = 0;
        }
        return (v, q);
    }
    if v.d4 == 0 {
        v.frame = throb_exec((v.d3 as usize) % 6);
        v.d3 = v.d3 + 1;
        if v.d3 == 15 {
            v.d4 = 1;
            v.d3 = 0;
            v.frame = 4;
            q.sounds.push(snd::DRIP);
        }
    } else if v.frame < 6 {
        v.frame = v.frame + 1;
    } else {
        v.y = v.y + 1;
        if !is_visible_at(v.x, v.y, e.width_tiles, e.height_tiles, scroll.x, scroll.y) {
            v.y = v.d2;
            v.d4 = 0;
            v.frame = 0;
        }
    }
    (v, q)
}

pub fn tick_slime(e: &mut Enemy, scroll: &Scroll)
    requires
        old(e).bounded(),
        coord_ok(scroll.x as int),
        coord_ok(scroll.y as int),
    ensures
        final(e).stepped(old(e), slime_spec(old(e).body(), scroll.x as int, scroll.y as int)),
{
    let (v, q) = slime_step(e, scroll);
    e.finish(v, q);
}

/// `ActProjectile`: dies once out of view; otherwise sounds its launch on
/// the first tick and flies a cell a tick toward `d5` (0 west, 1
/// south-west, 2 south, 3 south-east, else east).
pub open spec fn projectile_spec(b: Body, sx: int, sy: int) -> (Body, Out) {
    if !visible_spec(b.x, b.y, b.w, b.h, sx, sy) {
        (Body { dead: true, ..b }, quiet())
    } else {
        let o = if b.d1 == 0 { quiet().sound(snd::PROJECTILE_LAUNCH) } else { quiet() };
        let d1 = if b.d1 == 0 { 1 } else { b.d1 };
        let x = if b.d5 == 0 || b.d5 == 1 { b.x - 1 } else if b.d5 == 2 { b.x } else { b.x + 1 };
        let y = if b.d5 == 1 || b.d5 == 2 || b.d5 == 3 { b.y + 1 } else { b.y };
        (Body { d1, x, y, frame: flip(b.frame), ..b }, o)
    }
}

fn projectile_step(e: &Enemy, scroll: &Scroll) -> (r: (Vals, Queued))
    requires
        e.bounded(),
        coord_ok(scroll.x as int),
        coord_ok(scroll.y as int),
    ensures
        with_vals(e.body(), r.0) == projectile_spec(e.body(), scroll.x as int, scroll.y as int).0,
        r.1@ == projectile_spec(e.body(), scroll.x as int, scroll.y as int).1,
        r.1.score == 0,
{
    let mut v = e.vals();
    let mut q = Queued::new();
    if !is_visible_at(v.x, v.y, e.width_tiles, e.height_tiles, scroll.x, scroll.y) {
        v.dead = true;
        return (v, q);
    }
    if v.d1 == 0 {
        v.d1 = 1;
        q.sounds.push(snd::PROJECTILE_LAUNCH);
    }
    v.frame = if v.frame == 0 { 1 } else { 0 };
    if v.d5 == 0 {
        v.x = v.x - 1;
    } else if v.d5 == 1 {
        v.x = v.x - 1;
        v.y = v.y + 1;
    } else if v.d5 == 2 {
        v.y = v.y + 1;
    } else if v.d5 == 3 {
        v.x = v.x + 1;
        v.y = v.y + 1;
    } else {
        v.x = v.x + 1;
    }
    (v, q)
}

pub fn tick_projectile(e: &mut Enemy, scroll: &Scroll)
    requires
        old(e).bounded(),
        coord_ok(scroll.x as int),
        coord_ok(scroll.y as int),
    ensures
        final(e).stepped(old(e), projectile_spec(old(e).body(), scroll.x as int, scroll.y as int)),
{
    let (v, q) = projectile_step(e, scroll);
    e.finish(v, q);
}

} // verus!
