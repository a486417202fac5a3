//! The fixtures and one-off behaviours: plants and turrets, eggs, doors and
//! switches, the monument and the satellite, traps, bubbles, prizes and
//! the ghost and bird, plus what the drawing pass asks of an actor.
use vstd::prelude::*;
use crate::data::{level_wf, LevelJson};
use crate::effects::{DIR8_EAST, DIR8_NONE, DIR8_NORTH, DIR8_NORTHEAST, DIR8_NORTHWEST, DIR8_WEST};
use crate::enemy_ai::machines::saved_tile;
use crate::enemy_ai::{
    flip, quiet, rand_step, with_vals, Body, Enemy, EnemyKind, Out, Queued, SwitchState, Vals,
    ACT_BABY_GHOST, ACT_DOOR_BLUE, ACT_DOOR_YELLOW, ACT_HAMBURGER, ACT_PARACHUTE_BALL,
    ACT_PROJECTILE_E, ACT_PROJECTILE_S, ACT_PROJECTILE_SE, ACT_PROJECTILE_SW, ACT_PROJECTILE_W,
    ACT_SPEECH_UMPH, ACT_SPEECH_WHOA, ACT_SWITCH_FORCE_FIELD, ACT_SWITCH_LIGHTS,
    ACT_SWITCH_MYSTERY_WALL, ACT_SWITCH_PLATFORMS, DIR2_EAST, DIR2_WEST, DRAW_MODE_FLIPPED,
    SPR_FROZEN_DN, SPR_MONUMENT, SPR_PARACHUTE_BALL_SPR, SPR_SATELLITE_SHARDS, SPR_SMOKE,
    SPR_SPARKLE_SHORT, TILE_BLUE_PLATFORM, TILE_DOOR_BLOCK, TILE_EMPTY, TILE_SWITCH_BLOCK,
};
use crate::player::{roll, xorshift, FaceDir, Player};
use crate::sfx::snd;

verus! {

/// `ActEyePlant`: the eye follows the player (with a lopsided dead zone)
/// and blinks on two rolls in forty.
pub open spec fn eye_plant_spec(b: Body, px: int) -> (Body, Out) {
    let rng = xorshift(b.rng);
    let d2 = if roll(rng, 40) > 37 { 3int } else { 0int };
    let frame = if b.x - 2 > px { d2 } else if b.x + 1 < px { d2 + 2 } else { d2 + 1 };
    (Body { rng, d2, frame, ..b }, quiet())
}

fn eye_plant_step(e: &Enemy, px: i32) -> (r: (Vals, Queued))
    requires
        e.bounded(),
    ensures
        with_vals(e.body(), r.0) == eye_plant_spec(e.body(), px as int).0,
        r.1@ == eye_plant_spec(e.body(), px as int).1,
        r.1.score == 0,
{
    let mut v = e.vals();
    let q = Queued::new();
    let (rng, c) = rand_step(v.rng, 40);
    v.rng = rng;
    v.d2 = if c > 37 { 3 } else { 0 };
    v.frame = if v.x - 2 > px { v.d2 as usize } else if v.x + 1 < px { (v.d2 + 2) as usize } else { (v.d2 + 1) as usize };
    (v, q)
}

pub fn tick_eye_plant(e: &mut Enemy, player: &Player)
    requires
        old(e).bounded(),
    ensures
        final(e).stepped(old(e), eye_plant_spec(old(e).body(), player.x as int)),
{
    let (v, q) = eye_plant_step(e, player.x);
    e.finish(v, q);
}

/// The turret's shot on a firing frame: west, south-west, south,
/// south-east, east, each clear of its body.
pub open spec fn turret_shot(o: Out, frame: int, x: int, y: int) -> Out {
    if frame == 2 {
        o.spawn(ACT_PROJECTILE_W, x - 1, y - 1)
    } else if frame == 5 {
        o.spawn(ACT_PROJECTILE_SW, x - 1, y + 1)
    } else if frame == 8 {
        o.spawn(ACT_PROJECTILE_S, x + 1, y + 1)
    } else if frame == 11 {
        o.spawn(ACT_PROJECTILE_SE, x + 5, y + 1)
    } else if frame == 14 {
        o.spawn(ACT_PROJECTILE_E, x + 5, y - 1)
    } else {
        o
    }
}

/// The turret's aim while idle: level with or below it, west or east;
/// above it, south-west, south-east or south, snapping between its two
/// columns (`d3`, `d3 + 1`). Gives (frame, x).
pub open spec fn turret_aim(frame: int, x: int, y: int, d3: int, px: int, py: int) -> (int, int) {
    if y >= py - 2 {
        if x + 1 > px { (0, d3) } else if x + 2 <= px { (12, d3 + 1) } else { (frame, x) }
    } else {
        let a = if x - 2 > px { (3, d3) } else if x + 3 < px { (9, d3 + 1) } else if x - 2 < px && x + 3 >= px { (6, d3 + 1) } else { (frame, x) };
        if a.1 - 2 == px { (6, d3 + 1) } else { a }
    }
}

/// `ActSpittingTurret`: every three ticks it steps a frame through a
/// firing arc (shooting on the arc's five firing frames), rests
/// twenty-seven ticks after three steps, and while idle tracks the player.
pub open spec fn turret_spec(b: Body, px: int, py: int) -> (Body, Out) {
    let d2a = b.d2 - 1;
    let stepping = d2a == 0;
    let d1a = if stepping { b.d1 + 1 } else { b.d1 };
    let d2b = if stepping { 3 } else { d2a };
    let advances = stepping && d1a != 3;
    let f1 = if advances { b.frame + 1 } else { b.frame };
    let o = if advances { turret_shot(quiet(), f1, b.x, b.y) } else { quiet() };
    let aim = if d1a == 0 { turret_aim(f1, b.x, b.y, b.d3, px, py) } else { (f1, b.x) };
    let (d1, d2) = if d1a == 3 { (0int, 27int) } else { (d1a, d2b) };
    let frame = if aim.0 > 14 { 14 } else { aim.0 };
    (Body { d1, d2, frame, x: aim.1, ..b }, o)
}

fn turret_step(e: &Enemy, px: i32, py: i32) -> (r: (Vals, Queued))
    requires
        e.bounded(),
        -0x4000_0000 <= px <= 0x4000_0000,
        -0x4000_0000 <= py <= 0x4000_0000,
    ensures
        with_vals(e.body(), r.0) == turret_spec(e.body(), px as int, py as int).0,
        r.1@ == turret_spec(e.body(), px as int, py as int).1,
        r.1.score == 0,
{
    let mut v = e.vals();
    let mut q = Queued::new();
    v.d2 = v.d2 - 1;
    if v.d2 == 0 {
        v.d1 = v.d1 + 1;
        v.d2 = 3;
        if v.d1 != 3 {
            v.frame = v.frame + 1;
            if v.frame == 2 {
                q.spawns.push((ACT_PROJECTILE_W, v.x - 1, v.y - 1));
            } else if v.frame == 5 {
                q.spawns.push((ACT_PROJECTILE_SW, v.x - 1, v.y + 1));
            } else if v.frame == 8 {
                q.spawns.push((ACT_PROJECTILE_S, v.x + 1, v.y + 1));
            } else if v.frame == 11 {
                q.spawns.push((ACT_PROJECTILE_SE, v.x + 5, v.y + 1));
            } else if v.frame == 14 {
                q.spawns.push((ACT_PROJECTILE_E, v.x + 5, v.y - 1));
            }
        }
    }
    if v.d1 == 0 {
        if v.y >= py - 2 {
            if v.x + 1 > px {
                v.frame = 0;
                v.x = v.d3;
            } else if v.x + 2 <= px {
                v.frame = 12;
                v.x = v.d3 + 1;
            }
        } else {
            if v.x - 2 > px {
                v.frame = 3;
                v.x = v.d3;
            } else if v.x + 3 < px {
                v.frame = 9;
                v.x = v.d3 + 1;
            } else if v.x - 2 < px && v.x + 3 >= px {
                v.frame = 6;
                v.x = v.d3 + 1;
            }
            if v.x - 2 == px {
                v.frame = 6;
                v.x = v.d3 + 1;
            }
        }
    }
    if v.d1 == 3 {
        v.d2 = 27;
        v.d1 = 0;
    }
    if v.frame > 14 {
        v.frame = 14;
    }
    (v, q)
}

pub fn tick_spitting_turret(e: &mut Enemy, player: &Player)
    requires
        old(e).bounded(),
        -0x4000_0000 <= player.x <= 0x4000_0000,
        -0x4000_0000 <= player.y <= 0x4000_0000,
    ensures
        final(e).stepped(old(e), turret_spec(old(e).body(), player.x as int, player.y as int)),
{
    let (v, q) = turret_step(e, player.x, player.y);
    e.finish(v, q);
}

/// The egg's four pieces of shell.
pub open spec fn egg_shell(o: Out, x: int, y: int) -> Out {
    o.decorate(76, 2, x, y - 1, DIR8_NORTHWEST, 5).decorate(77, 2, x + 1, y - 1, DIR8_NORTHEAST, 5)
        .decorate(132, 2, x, y, DIR8_EAST, 5).decorate(133, 2, x + 1, y, DIR8_WEST, 5)
}

/// `ActBabyGhostEgg`: jiggles now and then; the plain kind (`d5` 0)
/// cracks when the player comes near (level or below, within its columns)
/// and hatches twenty ticks later into a baby ghost.
pub open spec fn egg_spec(b: Body, px: int, py: int) -> (Body, Out) {
    let rng = if b.d2 != 0 { b.rng } else { xorshift(b.rng) };
    let jiggle = b.d2 == 0 && roll(rng, 70) == 0 && b.d3 == 0;
    let f0 = if b.d2 != 0 { 2int } else if jiggle { b.frame } else { 0int };
    let d3a = if jiggle { 2 } else { b.d3 };
    let (d3, f1) = if d3a != 0 { (d3a - 1, 1int) } else { (d3a, f0) };
    let cracks = b.d5 == 0 && b.d1 == 0 && b.y <= py && b.x - 6 < px && b.x + 4 > px;
    let (d1, d2a) = if cracks { (1int, 20int) } else { (b.d1, b.d2) };
    let o1 = if cracks { quiet().sound(snd::BGHOST_EGG_CRACK) } else { quiet() };
    if d2a > 1 {
        (Body { rng, frame: f1, d3, d1, d2: d2a - 1, ..b }, o1)
    } else if d2a == 1 {
        (
            Body { rng, frame: f1, d3, d1, d2: d2a, dead: true, ..b },
            egg_shell(o1.spawn(ACT_BABY_GHOST, b.x, b.y).sound(snd::BGHOST_EGG_HATCH), b.x, b.y),
        )
    } else {
        (Body { rng, frame: f1, d3, d1, d2: d2a, ..b }, o1)
    }
}

fn egg_step(e: &Enemy, px: i32, py: i32) -> (r: (Vals, Queued))
    requires
        e.bounded(),
        -0x4000_0000 <= px <= 0x4000_0000,
    ensures
        with_vals(e.body(), r.0) == egg_spec(e.body(), px as int, py as int).0,
        r.1@ == egg_spec(e.body(), px as int, py as int).1,
        r.1.score == 0,
{
    let mut v = e.vals();
    let mut q = Queued::new();
    if v.d2 != 0 {
        v.frame = 2;
    } else {
        let (rng, c) = rand_step(v.rng, 70);
        v.rng = rng;
        if c == 0 && v.d3 == 0 {
            v.d3 = 2;
        } else {
            v.frame = 0;
        }
    }
    if v.d3 != 0 {
        v.d3 = v.d3 - 1;
        v.frame = 1;
    }
    if v.d5 == 0 && v.d1 == 0 && v.y <= py && v.x - 6 < px && v.x + 4 > px {
        v.d1 = 1;
        v.d2 = 20;
        q.sounds.push(snd::BGHOST_EGG_CRACK);
    }
    if v.d2 > 1 {
        v.d2 = v.d2 - 1;
    } else if v.d2 == 1 {
        v.dead = true;
        q.spawns.push((ACT_BABY_GHOST, v.x, v.y));
        q.sounds.push(snd::BGHOST_EGG_HATCH);
        q.decorations.push((76, 2, v.x, v.y - 1, DIR8_NORTHWEST, 5));
        q.decorations.push((77, 2, v.x + 1, v.y - 1, DIR8_NORTHEAST, 5));
        q.decorations.push((132, 2, v.x, v.y, DIR8_EAST, 5));
        q.decorations.push((133, 2, v.x + 1, v.y, DIR8_WEST, 5));
    }
    (v, q)
}

pub fn tick_baby_ghost_egg(e: &mut Enemy, player: &Player)
    requires
        old(e).bounded(),
        -0x4000_0000 <= player.x <= 0x4000_0000,
    ensures
        final(e).stepped(old(e), egg_spec(old(e).body(), player.x as int, player.y as int)),
{
    let (v, q) = egg_step(e, player.x, player.y);
    e.finish(v, q);
}

/// The four cells of the splitting platform, on the row above it.
pub open spec fn platform_row(o: Out, x: int, y: int, raw: u16) -> Out {
    o.write(x, y - 1, raw).write(x + 1, y - 1, raw).write(x + 2, y - 1, raw).write(x + 3, y - 1, raw)
}

fn platform_row_exec(q: &mut Queued, x: i32, y: i32, raw: u16)
    requires
        -0x3fff_0000 <= x <= 0x3fff_0000,
        -0x3fff_0000 <= y <= 0x3fff_0000,
    ensures
        final(q)@ == platform_row(old(q)@, x as int, y as int, raw),
        final(q).score == old(q).score,
{
    q.tile_writes.push((x, y - 1, raw));
    q.tile_writes.push((x + 1, y - 1, raw));
    q.tile_writes.push((x + 2, y - 1, raw));
    q.tile_writes.push((x + 3, y - 1, raw));
}

/// `ActSplittingPlatform`: lays its four-tile platform, waits for the
/// player to stand on it (either edge over its span), pulls apart (the
/// tiles go at five steps) and closes again, stepping on alternate ticks of
/// its counter `d3`.
pub open spec fn splitting_spec(b: Body, px: int, py: int) -> (Body, Out) {
    let d3 = b.d3 + 1;
    let odd = d3 % 2 != 0;
    let (d1a, d2a, o) = if b.d1 == 0 {
        (1int, b.d2, platform_row(quiet(), b.x, b.y, TILE_BLUE_PLATFORM))
    } else if b.d1 == 1 && b.y - 2 == py {
        let over = (b.x <= px && b.x + 3 >= px) || (b.x <= px + 2 && b.x + 3 >= px + 2);
        if over { (2int, 0int, quiet()) } else { (b.d1, b.d2, quiet()) }
    } else if b.d1 == 2 {
        let d2 = if odd { b.d2 + 1 } else { b.d2 };
        let o = if d2 == 5 { platform_row(quiet(), b.x, b.y, TILE_EMPTY) } else { quiet() };
        if d2 == 7 { (3int, 0int, o) } else { (b.d1, d2, o) }
    } else {
        (b.d1, b.d2, quiet())
    };
    if d1a == 3 {
        let d2 = if odd { d2a + 1 } else { d2a };
        (Body { d3, d1: if d2 == 3 { 0 } else { d1a }, d2, ..b }, o)
    } else {
        (Body { d3, d1: d1a, d2: d2a, ..b }, o)
    }
}

fn splitting_step(e: &Enemy, px: i32, py: i32) -> (r: (Vals, Queued))
    requires
        e.bounded(),
        -0x4000_0000 <= px <= 0x4000_0000,
    ensures
        with_vals(e.body(), r.0) == splitting_spec(e.body(), px as int, py as int).0,
        r.1@ == splitting_spec(e.body(), px as int, py as int).1,
        r.1.score == 0,
{
    let mut v = e.vals();
    let mut q = Queued::new();
    v.d3 = v.d3 + 1;
    if v.d1 == 0 {
        v.d1 = 1;
        platform_row_exec(&mut q, v.x, v.y, TILE_BLUE_PLATFORM);
    } else if v.d1 == 1 && v.y - 2 == py {
        let over = (v.x <= px && v.x + 3 >= px) || (v.x <= px + 2 && v.x + 3 >= px + 2);
        if over {
            v.d1 = 2;
            v.d2 = 0;
        }
    } else if v.d1 == 2 {
        if v.d3 % 2 != 0 {
            v.d2 = v.d2 + 1;
        }
        if v.d2 == 5 {
            platform_row_exec(&mut q, v.x, v.y, TILE_EMPTY);
        }
        if v.d2 == 7 {
            v.d1 = 3;
            v.d2 = 0;
        }
    }
    if v.d1 == 3 {
        if v.d3 % 2 != 0 {
            v.d2 = v.d2 + 1;
        }
        if v.d2 == 3 {
            v.d1 = 0;
        }
    }
    (v, q)
}

pub fn tick_splitting_platform(e: &mut Enemy, player: &Player)
    requires
        old(e).bounded(),
        -0x4000_0000 <= player.x <= 0x4000_0000,
    ensures
        final(e).stepped(old(e), splitting_spec(old(e).body(), player.x as int, player.y as int)),
{
    let (v, q) = splitting_step(e, player.x, player.y);
    e.finish(v, q);
}

/// `ActDoor`: on its first tick (its `west_free` flag clear) saves the five
/// cells up its column into `d1`..`d5` and stamps door blocks over them;
/// once its colour's head switch is pounced it puts them back and goes.
pub open spec fn door_spec(b: Body, opened: Seq<u16>, level: &LevelJson) -> (Body, Out) {
    let x = b.x + 1;
    if !b.west_free {
        (
            Body {
                west_free: true,
                d1: saved_tile(level, x, b.y),
                d2: saved_tile(level, x, b.y - 1),
                d3: saved_tile(level, x, b.y - 2),
                d4: saved_tile(level, x, b.y - 3),
                d5: saved_tile(level, x, b.y - 4),
                ..b
            },
            quiet().write(x, b.y, TILE_DOOR_BLOCK).write(x, b.y - 1, TILE_DOOR_BLOCK).write(x, b.y - 2, TILE_DOOR_BLOCK)
                .write(x, b.y - 3, TILE_DOOR_BLOCK).write(x, b.y - 4, TILE_DOOR_BLOCK),
        )
    } else if !opened.contains(b.act_id) {
        (b, quiet())
    } else {
        (
            Body { dead: true, ..b },
            quiet().write(x, b.y, b.d1 as u16).write(x, b.y - 1, b.d2 as u16).write(x, b.y - 2, b.d3 as u16)
                .write(x, b.y - 3, b.d4 as u16).write(x, b.y - 4, b.d5 as u16),
        )
    }
}

/// A door puts back exactly what it covered: its first tick stamps five
/// rows of door block in the column beside it and keeps what they covered;
/// while its colour stays locked it does nothing, whatever the map holds
/// by then; once unlocked it writes the kept tiles back and goes.
pub proof fn lemma_door_restores_what_it_covered(b: Body, level: &LevelJson, locked: Seq<u16>, opened: Seq<u16>, later: &LevelJson)
    requires
        !b.west_free,
        !locked.contains(b.act_id),
        opened.contains(b.act_id),
    ensures
        ({
            let first = door_spec(b, locked, level);
            let shut = first.0;
            let x = b.x + 1;
            &&& first.1.tile_writes =~= Seq::new(5, |k: int| (x as i32, (b.y - k) as i32, TILE_DOOR_BLOCK))
            &&& door_spec(shut, locked, later) == (shut, quiet())
            &&& door_spec(shut, opened, later).0.dead
            &&& door_spec(shut, opened, later).1.tile_writes
                =~= Seq::new(5, |k: int| (x as i32, (b.y - k) as i32, saved_tile(level, x, b.y - k) as u16))
        }),
{
}

/// Whether `id` is in `list`.
pub fn listed(list: &Vec<u16>, id: u16) -> (r: bool)
    ensures
        r == list@.contains(id),
{
    let mut i: usize = 0;
    while i < list.len()
        invariant
            0 <= i <= list@.len(),
            forall|j: int| 0 <= j < i ==> list@[j] != id,
        decreases list@.len() - i,
    {
        if list[i] == id {
            return true;
        }
        i = i + 1;
    }
    false
}

fn saved_tile_at(level: &LevelJson, x: i32, y: i32) -> (r: i32)
    requires
        level_wf(level),
    ensures
        r as int == saved_tile(level, x as int, y as int),
{
    if x >= 0 && y >= 0 { level.tile_at(x as usize, y as usize) as i32 } else { 0 }
}

fn door_step(e: &Enemy, switches: &SwitchState, level: &LevelJson) -> (r: (Vals, Queued))
    requires
        level_wf(level),
        e.bounded(),
    ensures
        with_vals(e.body(), r.0) == door_spec(e.body(), switches.doors_opened@, level).0,
        r.1@ == door_spec(e.body(), switches.doors_opened@, level).1,
        r.1.score == 0,
{
    let mut v = e.vals();
    let mut q = Queued::new();
    let x = v.x + 1;
    if !v.west_free {
        v.west_free = true;
        v.d1 = saved_tile_at(level, x, v.y);
        v.d2 = saved_tile_at(level, x, v.y - 1);
        v.d3 = saved_tile_at(level, x, v.y - 2);
        v.d4 = saved_tile_at(level, x, v.y - 3);
        v.d5 = saved_tile_at(level, x, v.y - 4);
        q.tile_writes.push((x, v.y, TILE_DOOR_BLOCK));
        q.tile_writes.push((x, v.y - 1, TILE_DOOR_BLOCK));
        q.tile_writes.push((x, v.y - 2, TILE_DOOR_BLOCK));
        q.tile_writes.push((x, v.y - 3, TILE_DOOR_BLOCK));
        q.tile_writes.push((x, v.y - 4, TILE_DOOR_BLOCK));
        return (v, q);
    }
    if !listed(&switches.doors_opened, e.act_id) {
        return (v, q);
    }
    q.tile_writes.push((x, v.y, v.d1 as u16));
    q.tile_writes.push((x, v.y - 1, v.d2 as u16));
    q.tile_writes.push((x, v.y - 2, v.d3 as u16));
    q.tile_writes.push((x, v.y - 3, v.d4 as u16));
    q.tile_writes.push((x, v.y - 4, v.d5 as u16));
    v.dead = true;
    (v, q)
}

pub fn tick_door(e: &mut Enemy, switches: &SwitchState, level: &LevelJson)
    requires
        level_wf(level),
        old(e).bounded(),
    ensures
        final(e).stepped(old(e), door_spec(old(e).body(), switches.doors_opened@, level)),
{
    let (v, q) = door_step(e, switches, level);
    e.finish(v, q);
}


/// The door colour a head switch opens, when it names one.
pub open spec fn switch_door(d5: int) -> Option<u16> {
    let door = d5 as u16;
    if ACT_DOOR_BLUE <= door <= ACT_DOOR_YELLOW { Some(door) } else { None }
}

/// `ActHeadSwitch`: once pounced (frame 1) it counts up to three, and
/// records its colour's doors as opened.
pub open spec fn head_switch_spec(b: Body, opened: Seq<u16>) -> (Body, Seq<u16>) {
    if b.frame != 1 {
        (b, opened)
    } else {
        let d1 = if b.d1 < 3 { b.d1 + 1 } else { b.d1 };
        let list = match switch_door(b.d5) {
            Some(door) => if opened.contains(door) { opened } else { opened.push(door) },
            None => opened,
        };
        (Body { d1, ..b }, list)
    }
}

pub fn tick_head_switch(e: &mut Enemy, switches: &mut SwitchState)
    requires
        old(e).bounded(),
    ensures
        final(e).stepped(old(e), (head_switch_spec(old(e).body(), old(switches).doors_opened@).0, quiet())),
        final(switches).doors_opened@ == head_switch_spec(old(e).body(), old(switches).doors_opened@).1,
        final(switches).platforms_active == old(switches).platforms_active,
        final(switches).lights_active == old(switches).lights_active,
        final(switches).force_fields_active == old(switches).force_fields_active,
        final(switches).mystery_wall_time == old(switches).mystery_wall_time,
{
    let mut v = e.vals();
    if v.frame == 1 {
        if v.d1 < 3 {
            v.d1 = v.d1 + 1;
        }
        let door = v.d5 as u16;
        if ACT_DOOR_BLUE <= door && door <= ACT_DOOR_YELLOW && !listed(&switches.doors_opened, door) {
            switches.doors_opened.push(door);
        }
    }
    e.finish(v, Queued::new());
}

/// `ActFootSwitch`: each press drops the knob a row (with a sound); the
/// fourth throws what `d5` names: the platforms on, the mystery wall rising
/// (with a cry), the lights on, or the force fields off.
pub open spec fn foot_switch_spec(b: Body) -> (Body, Out) {
    if b.d4 == 0 {
        (b, quiet())
    } else if b.d1 != 4 {
        (Body { d4: 0, y: b.y + 1, ..b }, quiet().sound(snd::FOOT_SWITCH_MOVE))
    } else {
        let o = quiet().sound(snd::FOOT_SWITCH_ON);
        (Body { d4: 0, y: b.y + 1, ..b }, if b.d5 == ACT_SWITCH_MYSTERY_WALL { o.say(ACT_SPEECH_WHOA) } else { o })
    }
}

/// What a foot switch's throw does to the level's switches.
pub open spec fn foot_switch_throw(b: Body, s: crate::enemy_ai::SwitchView) -> crate::enemy_ai::SwitchView {
    if b.d4 == 0 || b.d1 != 4 {
        s
    } else if b.d5 == ACT_SWITCH_PLATFORMS {
        crate::enemy_ai::SwitchView { platforms_active: true, ..s }
    } else if b.d5 == ACT_SWITCH_MYSTERY_WALL {
        crate::enemy_ai::SwitchView { mystery_wall_time: 4, ..s }
    } else if b.d5 == ACT_SWITCH_LIGHTS {
        crate::enemy_ai::SwitchView { lights_active: true, ..s }
    } else if b.d5 == ACT_SWITCH_FORCE_FIELD {
        crate::enemy_ai::SwitchView { force_fields_active: false, ..s }
    } else {
        s
    }
}

pub fn tick_foot_switch(e: &mut Enemy, switches: &mut SwitchState)
    requires
        old(e).bounded(),
    ensures
        final(e).stepped(old(e), foot_switch_spec(old(e).body())),
        final(switches)@ == foot_switch_throw(old(e).body(), old(switches)@),
{
    let mut v = e.vals();
    let mut q = Queued::new();
    if v.d4 != 0 {
        v.d4 = 0;
        v.y = v.y + 1;
        if v.d1 != 4 {
            q.sounds.push(snd::FOOT_SWITCH_MOVE);
        } else {
            q.sounds.push(snd::FOOT_SWITCH_ON);
            if v.d5 == ACT_SWITCH_PLATFORMS {
                switches.platforms_active = true;
            } else if v.d5 == ACT_SWITCH_MYSTERY_WALL {
                switches.mystery_wall_time = 4;
                q.bubble = Some(ACT_SPEECH_WHOA);
            } else if v.d5 == ACT_SWITCH_LIGHTS {
                switches.lights_active = true;
            } else if v.d5 == ACT_SWITCH_FORCE_FIELD {
                switches.force_fields_active = false;
            }
        }
    }
    e.finish(v, q);
}

/// A blast driving a foot switch down one step: at most four, one per tick.
pub open spec fn press_spec(b: Body) -> Body {
    if b.d1 >= 4 || b.d4 != 0 { b } else { Body { d1: b.d1 + 1, d4: 1, ..b } }
}

pub fn press_foot_switch(e: &mut Enemy)
    requires
        old(e).bounded(),
    ensures
        final(e).stepped(old(e), (press_spec(old(e).body()), quiet())),
{
    let mut v = e.vals();
    if !(v.d1 >= 4 || v.d4 != 0) {
        v.d1 = v.d1 + 1;
        v.d4 = 1;
    }
    e.finish(v, Queued::new());
}

/// Nine cells up the monument's column.
pub open spec fn pillar(o: Out, x: int, y: int, raw: u16) -> Out {
    o.write(x + 1, y, raw).write(x + 1, y - 1, raw).write(x + 1, y - 2, raw).write(x + 1, y - 3, raw)
        .write(x + 1, y - 4, raw).write(x + 1, y - 5, raw).write(x + 1, y - 6, raw).write(x + 1, y - 7, raw)
        .write(x + 1, y - 8, raw)
}

fn pillar_exec(q: &mut Queued, x: i32, y: i32, raw: u16)
    requires
        -0x3fff_0000 <= x <= 0x3fff_0000,
        -0x3fff_0000 <= y <= 0x3fff_0000,
    ensures
        final(q)@ == pillar(old(q)@, x as int, y as int, raw),
        final(q).score == old(q).score,
{
    q.tile_writes.push((x + 1, y, raw));
    q.tile_writes.push((x + 1, y - 1, raw));
    q.tile_writes.push((x + 1, y - 2, raw));
    q.tile_writes.push((x + 1, y - 3, raw));
    q.tile_writes.push((x + 1, y - 4, raw));
    q.tile_writes.push((x + 1, y - 5, raw));
    q.tile_writes.push((x + 1, y - 6, raw));
    q.tile_writes.push((x + 1, y - 7, raw));
    q.tile_writes.push((x + 1, y - 8, raw));
}

/// The monument's fall: its column cleared, 25600 (with a pop-up either
/// side), six pieces and a dust cloud.
pub open spec fn monument_fall(x: int, y: int) -> Out {
    pillar(quiet(), x, y, TILE_EMPTY).sound(snd::DESTROY_SOLID).award(25600).pop_up(x - 2, y - 9).pop_up(x + 2, y - 9)
        .shard(SPR_MONUMENT, 3, x, y - 8).shard(SPR_MONUMENT, 3, x, y - 7).shard(SPR_MONUMENT, 3, x, y - 6)
        .shard(SPR_MONUMENT, 3, x, y).shard(SPR_MONUMENT, 3, x + 1, y).shard(SPR_MONUMENT, 3, x + 2, y)
        .decorate(SPR_SMOKE, 6, x, y, DIR8_NORTH, 2).decorate(SPR_SMOKE, 6, x, y, DIR8_NORTHEAST, 2)
        .decorate(SPR_SMOKE, 6, x, y, DIR8_NORTHWEST, 2).decorate(SPR_SMOKE, 6, x, y - 4, DIR8_NORTH, 2)
}

/// `ActMonument`: stands as nine solid cells (stamped on its first tick,
/// its `west_free` flag clear) until toppled (`d2`); `d1` is the cooldown
/// between blasts.
pub open spec fn monument_spec(b: Body) -> (Body, Out) {
    if b.d2 != 0 {
        (Body { dead: true, ..b }, monument_fall(b.x, b.y))
    } else {
        let o = if !b.west_free { pillar(quiet(), b.x, b.y, TILE_SWITCH_BLOCK) } else { quiet() };
        (Body { west_free: true, d1: if b.d1 != 0 { b.d1 - 1 } else { b.d1 }, ..b }, o)
    }
}

fn monument_step(e: &Enemy) -> (r: (Vals, Queued))
    requires
        e.bounded(),
    ensures
        with_vals(e.body(), r.0) == monument_spec(e.body()).0,
        r.1@ == monument_spec(e.body()).1,
        r.1.score <= 25600,
{
    let mut v = e.vals();
    let mut q = Queued::new();
    if v.d2 != 0 {
        v.dead = true;
        pillar_exec(&mut q, v.x, v.y, TILE_EMPTY);
        q.sounds.push(snd::DESTROY_SOLID);
        q.score = 25600;
        q.score_effects.push((v.x - 2, v.y - 9));
        q.score_effects.push((v.x + 2, v.y - 9));
        q.shards.push((SPR_MONUMENT, 3, v.x, v.y - 8));
        q.shards.push((SPR_MONUMENT, 3, v.x, v.y - 7));
        q.shards.push((SPR_MONUMENT, 3, v.x, v.y - 6));
        q.shards.push((SPR_MONUMENT, 3, v.x, v.y));
        q.shards.push((SPR_MONUMENT, 3, v.x + 1, v.y));
        q.shards.push((SPR_MONUMENT, 3, v.x + 2, v.y));
        q.decorations.push((SPR_SMOKE, 6, v.x, v.y, DIR8_NORTH, 2));
        q.decorations.push((SPR_SMOKE, 6, v.x, v.y, DIR8_NORTHEAST, 2));
        q.decorations.push((SPR_SMOKE, 6, v.x, v.y, DIR8_NORTHWEST, 2));
        q.decorations.push((SPR_SMOKE, 6, v.x, v.y - 4, DIR8_NORTH, 2));
        return (v, q);
    }
    if !v.west_free {
        v.west_free = true;
        pillar_exec(&mut q, v.x, v.y, TILE_SWITCH_BLOCK);
    }
    if v.d1 != 0 {
        v.d1 = v.d1 - 1;
    }
    (v, q)
}

pub fn tick_monument(e: &mut Enemy)
    requires
        old(e).bounded(),
    ensures
        final(e).stepped(old(e), monument_spec(old(e).body())),
{
    let (v, q) = monument_step(e);
    e.finish(v, q);
}

/// A monument clears every cell it stood as: the nine cells its first tick
/// stamps solid are the nine its fall writes back as empty, in the same
/// order, so it leaves no invisible wall behind.
pub proof fn lemma_monument_leaves_no_wall(b: Body, later: Body)
    requires
        !b.west_free,
        b.d2 == 0,
        later.x == b.x,
        later.y == b.y,
        later.d2 != 0,
    ensures
        monument_spec(b).1.tile_writes.len() == 9,
        monument_spec(later).1.tile_writes.len() == 9,
        forall|i: int| 0 <= i < 9 ==> {
            &&& (#[trigger] monument_spec(b).1.tile_writes[i]).2 == TILE_SWITCH_BLOCK
            &&& monument_spec(later).1.tile_writes[i] == (monument_spec(b).1.tile_writes[i].0,
                monument_spec(b).1.tile_writes[i].1, TILE_EMPTY)
        },
{
    let a = monument_spec(b).1.tile_writes;
    let z = monument_spec(later).1.tile_writes;
    assert(a =~= Seq::new(9, |i: int| ((b.x + 1) as i32, (b.y - i) as i32, TILE_SWITCH_BLOCK)));
    assert(z =~= Seq::new(9, |i: int| ((b.x + 1) as i32, (b.y - i) as i32, TILE_EMPTY)));
}

/// A blast landing on a monument: ignored during the cooldown; the third
/// brings it down (and says so).
pub open spec fn blast_monument_spec(b: Body) -> (Body, bool) {
    if b.d1 != 0 || b.d2 != 0 {
        (b, false)
    } else {
        let f = b.frame + 1;
        if f == 3 { (Body { d1: 10, frame: 2, d2: 1, ..b }, true) } else { (Body { d1: 10, frame: f, ..b }, false) }
    }
}

pub fn blast_monument(e: &mut Enemy) -> (toppled: bool)
    requires
        old(e).bounded(),
    ensures
        final(e).stepped(old(e), (blast_monument_spec(old(e).body()).0, quiet())),
        toppled == blast_monument_spec(old(e).body()).1,
{
    let mut v = e.vals();
    let mut toppled = false;
    if !(v.d1 != 0 || v.d2 != 0) {
        v.d1 = 10;
        v.frame = v.frame + 1;
        if v.frame == 3 {
            v.frame = 2;
            v.d2 = 1;
            toppled = true;
        }
    }
    e.finish(v, Queued::new());
    toppled
}

/// `ActSatellite`: only its blast cooldown counts down.
pub open spec fn satellite_spec(b: Body) -> Body {
    if b.d2 != 0 { Body { d2: b.d2 - 1, ..b } } else { b }
}

pub fn tick_satellite(e: &mut Enemy)
    requires
        old(e).bounded(),
    ensures
        final(e).stepped(old(e), (satellite_spec(old(e).body()), quiet())),
{
    let mut v = e.vals();
    if v.d2 != 0 {
        v.d2 = v.d2 - 1;
    }
    e.finish(v, Queued::new());
}

/// A blast on a tulip launcher: the second (outside the cooldown) finishes
/// it, throwing the ball it held in five pieces.
pub open spec fn blast_tulip_spec(b: Body) -> (Body, Out) {
    if b.d3 != 0 {
        (b, quiet())
    } else {
        let d5 = b.d5 + 1;
        if d5 != 2 {
            (Body { d3: 15, d5, ..b }, quiet())
        } else {
            (
                Body { d3: 15, d5, dead: true, ..b },
                quiet().shard(SPR_PARACHUTE_BALL_SPR, 0, b.x + 2, b.y - 5).shard(SPR_PARACHUTE_BALL_SPR, 2, b.x + 2, b.y - 5)
                    .shard(SPR_PARACHUTE_BALL_SPR, 4, b.x + 2, b.y - 5).shard(SPR_PARACHUTE_BALL_SPR, 9, b.x + 2, b.y - 5)
                    .shard(SPR_PARACHUTE_BALL_SPR, 3, b.x + 2, b.y - 5).sound(snd::DESTROY_SOLID),
            )
        }
    }
}

pub fn blast_tulip_launcher(e: &mut Enemy)
    requires
        old(e).bounded(),
    ensures
        final(e).stepped(old(e), blast_tulip_spec(old(e).body())),
{
    let mut v = e.vals();
    let mut q = Queued::new();
    if v.d3 == 0 {
        v.d3 = 15;
        v.d5 = v.d5 + 1;
        if v.d5 == 2 {
            v.dead = true;
            q.shards.push((SPR_PARACHUTE_BALL_SPR, 0, v.x + 2, v.y - 5));
            q.shards.push((SPR_PARACHUTE_BALL_SPR, 2, v.x + 2, v.y - 5));
            q.shards.push((SPR_PARACHUTE_BALL_SPR, 4, v.x + 2, v.y - 5));
            q.shards.push((SPR_PARACHUTE_BALL_SPR, 9, v.x + 2, v.y - 5));
            q.shards.push((SPR_PARACHUTE_BALL_SPR, 3, v.x + 2, v.y - 5));
            q.sounds.push(snd::DESTROY_SOLID);
        }
    }
    e.finish(v, q);
}

/// The satellite's end: eight pieces, a ring of smoke, and a hamburger.
pub open spec fn satellite_end(x: int, y: int) -> Out {
    quiet().sound(snd::DESTROY_SATELLITE)
        .shard(SPR_SATELLITE_SHARDS, 0, x, y - 2).shard(SPR_SATELLITE_SHARDS, 1, x + 1, y - 2)
        .shard(SPR_SATELLITE_SHARDS, 2, x + 7, y + 2).shard(SPR_SATELLITE_SHARDS, 3, x + 3, y - 2)
        .shard(SPR_SATELLITE_SHARDS, 4, x - 1, y - 8).shard(SPR_SATELLITE_SHARDS, 5, x + 2, y + 3)
        .shard(SPR_SATELLITE_SHARDS, 6, x + 6, y - 2).shard(SPR_SATELLITE_SHARDS, 7, x - 4, y + 1)
        .decorate(SPR_SMOKE, 6, x + 3, y - 3, 1, 3).decorate(SPR_SMOKE, 6, x + 3, y - 3, 2, 3)
        .decorate(SPR_SMOKE, 6, x + 3, y - 3, 3, 3).decorate(SPR_SMOKE, 6, x + 3, y - 3, 4, 3)
        .decorate(SPR_SMOKE, 6, x + 3, y - 3, 5, 3).decorate(SPR_SMOKE, 6, x + 3, y - 3, 6, 3)
        .decorate(SPR_SMOKE, 6, x + 3, y - 3, 7, 3).decorate(SPR_SMOKE, 6, x + 3, y - 3, 8, 3)
        .spawn(ACT_HAMBURGER, x + 4, y)
}

/// A blast on a satellite: the first (outside the cooldown) damages it, the
/// second destroys it.
pub open spec fn blast_satellite_spec(b: Body) -> (Body, Out) {
    if b.d2 != 0 {
        (b, quiet())
    } else if b.d1 == 0 {
        (Body { d1: 1, d2: 15, ..b }, quiet())
    } else {
        (Body { dead: true, ..b }, satellite_end(b.x, b.y))
    }
}

pub fn blast_satellite(e: &mut Enemy)
    requires
        old(e).bounded(),
    ensures
        final(e).stepped(old(e), blast_satellite_spec(old(e).body())),
{
    let mut v = e.vals();
    let mut q = Queued::new();
    if v.d2 == 0 {
        if v.d1 == 0 {
            v.d1 = 1;
            v.d2 = 15;
        } else {
            v.dead = true;
            q.sounds.push(snd::DESTROY_SATELLITE);
            q.shards.push((SPR_SATELLITE_SHARDS, 0, v.x, v.y - 2));
            q.shards.push((SPR_SATELLITE_SHARDS, 1, v.x + 1, v.y - 2));
            q.shards.push((SPR_SATELLITE_SHARDS, 2, v.x + 7, v.y + 2));
            q.shards.push((SPR_SATELLITE_SHARDS, 3, v.x + 3, v.y - 2));
            q.shards.push((SPR_SATELLITE_SHARDS, 4, v.x - 1, v.y - 8));
            q.shards.push((SPR_SATELLITE_SHARDS, 5, v.x + 2, v.y + 3));
            q.shards.push((SPR_SATELLITE_SHARDS, 6, v.x + 6, v.y - 2));
            q.shards.push((SPR_SATELLITE_SHARDS, 7, v.x - 4, v.y + 1));
            q.decorations.push((SPR_SMOKE, 6, v.x + 3, v.y - 3, 1, 3));
            q.decorations.push((SPR_SMOKE, 6, v.x + 3, v.y - 3, 2, 3));
            q.decorations.push((SPR_SMOKE, 6, v.x + 3, v.y - 3, 3, 3));
            q.decorations.push((SPR_SMOKE, 6, v.x + 3, v.y - 3, 4, 3));
            q.decorations.push((SPR_SMOKE, 6, v.x + 3, v.y - 3, 5, 3));
            q.decorations.push((SPR_SMOKE, 6, v.x + 3, v.y - 3, 6, 3));
            q.decorations.push((SPR_SMOKE, 6, v.x + 3, v.y - 3, 7, 3));
            q.decorations.push((SPR_SMOKE, 6, v.x + 3, v.y - 3, 8, 3));
            q.spawns.push((crate::enemy_ai::ACT_HAMBURGER, v.x + 4, v.y));
        }
    }
    e.finish(v, q);
}

/// The tulip launcher's wind-up, as frames.
pub open spec fn launch_frame(i: int) -> int {
    if i == 0 || i == 3 { 0 } else if i == 1 { 2 } else { 1 }
}

/// `ActTulipLauncher`: winds up through five frames, throwing a parachute
/// ball on the second, then rests a hundred ticks.
pub open spec fn tulip_spec(b: Body) -> (Body, Out) {
    if b.d2 != 0 {
        (Body { frame: 1, d2: b.d2 - 1, ..b }, quiet())
    } else {
        let f = launch_frame(((b.d1 as usize) % 5) as int);
        let d1 = b.d1 + 1;
        let o = if d1 == 2 { quiet().spawn(ACT_PARACHUTE_BALL, b.x + 2, b.y - 5).sound(snd::TULIP_LAUNCH) } else { quiet() };
        if d1 == 5 { (Body { frame: f, d1: 0, d2: 100, ..b }, o) } else { (Body { frame: f, d1, ..b }, o) }
    }
}

pub fn tick_tulip_launcher(e: &mut Enemy)
    requires
        old(e).bounded(),
    ensures
        final(e).stepped(old(e), tulip_spec(old(e).body())),
{
    let mut v = e.vals();
    let mut q = Queued::new();
    if v.d2 != 0 {
        v.frame = 1;
        v.d2 = v.d2 - 1;
    } else {
        let i = (v.d1 as usize) % 5;
        v.frame = if i == 0 || i == 3 { 0 } else if i == 1 { 2 } else { 1 };
        v.d1 = v.d1 + 1;
        if v.d1 == 2 {
            q.spawns.push((ACT_PARACHUTE_BALL, v.x + 2, v.y - 5));
            q.sounds.push(snd::TULIP_LAUNCH);
        }
        if v.d1 == 5 {
            v.d2 = 100;
            v.d1 = 0;
        }
    }
    e.finish(v, q);
}

/// An invisible line crossed: from above (`d1` 0, the player within four
/// rows below it) or from below; it fires once.
pub open spec fn trigger_spec(b: Body, py: int) -> (Body, bool) {
    if b.d2 != 0 {
        (b, false)
    } else {
        let crossed = if b.d1 == 0 { b.y <= py && b.y >= py - 4 } else { b.y >= py };
        (if crossed { Body { d2: 1, ..b } } else { b }, crossed)
    }
}

pub fn tick_trigger_line(e: &mut Enemy, player: &Player) -> (crossed: bool)
    requires
        old(e).bounded(),
    ensures
        final(e).stepped(old(e), (trigger_spec(old(e).body(), player.y as int).0, quiet())),
        crossed == trigger_spec(old(e).body(), player.y as int).1,
{
    let mut v = e.vals();
    let mut crossed = false;
    if v.d2 == 0 {
        crossed = if v.d1 == 0 { v.y <= player.y && v.y as i64 >= player.y as i64 - 4 } else { v.y >= player.y };
        if crossed {
            v.d2 = 1;
        }
    }
    e.finish(v, Queued::new());
    crossed
}

/// The cliffhanger text the first two episode-end lines show; the third
/// has none (it ends the episode).
pub fn cliffhanger_lines(act_id: u16) -> (r: Option<Vec<&'static str>>)
    ensures
        r is Some <==> (act_id == 164 || act_id == 165),
        r matches Some(lines) ==> lines@.len() == 3,
        act_id == 164 ==> (r matches Some(lines) && lines@[0]@ == " What's happening?  Is"@
            && lines@[1]@ == " Cosmo falling to his"@ && lines@[2]@ == " doom?"@),
        act_id == 165 ==> (r matches Some(lines) && lines@[0]@ == " Is there no end to this"@
            && lines@[1]@ == " pit?  And what danger"@ && lines@[2]@ == " awaits below?!"@),
{
    if act_id == 164 {
        Some(vec![" What's happening?  Is", " Cosmo falling to his", " doom?"])
    } else if act_id == 165 {
        Some(vec![" Is there no end to this", " pit?  And what danger", " awaits below?!"])
    } else {
        None
    }
}

/// The bear trap's frames: open, twenty-three ticks shut, easing open.
pub open spec fn trap_frame(i: int) -> int {
    if i == 0 || i == 26 { 0 } else if i <= 23 { 2 } else { 1 }
}

/// `ActBearTrap`: catches a player standing exactly on it (with a sound
/// and a cry), holding them for twenty-seven ticks, and plays its frames.
/// Gives the state, what it queued, and the hold.
pub open spec fn bear_trap_spec(b: Body, px: int, py: int) -> (Body, Out, u32) {
    if b.d2 == 0 {
        if b.x == px && b.y == py {
            (Body { d2: 1, ..b }, quiet().sound(snd::BEAR_TRAP_CLOSE).say(ACT_SPEECH_UMPH), 27)
        } else {
            (Body { frame: 0, ..b }, quiet(), 0)
        }
    } else {
        let f = trap_frame(((b.d3 as usize) % 27) as int);
        let d3 = b.d3 + 1;
        if d3 == 27 { (Body { frame: f, d3: 0, d2: 0, ..b }, quiet(), 0) } else { (Body { frame: f, d3, ..b }, quiet(), 0) }
    }
}

/// `ActBearTrap`, one tick; returns how long it holds the player.
pub fn tick_bear_trap(e: &mut Enemy, player: &Player) -> (hold: u32)
    requires
        old(e).bounded(),
    ensures
        ({
            let s = bear_trap_spec(old(e).body(), player.x as int, player.y as int);
            &&& final(e).stepped(old(e), (s.0, s.1))
            &&& hold == s.2
        }),
{
    let mut v = e.vals();
    let mut q = Queued::new();
    let mut hold: u32 = 0;
    if v.d2 == 0 {
        if v.x == player.x && v.y == player.y {
            v.d2 = 1;
            q.sounds.push(snd::BEAR_TRAP_CLOSE);
            q.bubble = Some(ACT_SPEECH_UMPH);
            hold = 27;
        } else {
            v.frame = 0;
        }
    } else {
        let i = (v.d3 as usize) % 27;
        v.frame = if i == 0 || i == 26 { 0 } else if i <= 23 { 2 } else { 1 };
        v.d3 = v.d3 + 1;
        if v.d3 == 27 {
            v.d3 = 0;
            v.d2 = 0;
        }
    }
    e.finish(v, q);
    hold
}

/// `ActFrozenDN`: once smashed it rises a row every other tick for ten
/// ticks, then waits thirty.
pub open spec fn frozen_spec(b: Body) -> Body {
    if b.d1 == 1 {
        let d2 = b.d2 + 1;
        let y = if d2 % 2 != 0 { b.y - 1 } else { b.y };
        if d2 == 10 { Body { d1: 2, d2: 0, y, ..b } } else { Body { d2, y, ..b } }
    } else if b.d1 == 2 {
        let d2 = b.d2 + 1;
        if d2 == 30 { Body { d1: 3, d2: 0, ..b } } else { Body { d2, ..b } }
    } else {
        b
    }
}

pub fn tick_frozen_dn(e: &mut Enemy)
    requires
        old(e).bounded(),
    ensures
        final(e).stepped(old(e), (frozen_spec(old(e).body()), quiet())),
{
    let mut v = e.vals();
    if v.d1 == 1 {
        v.d2 = v.d2 + 1;
        if v.d2 % 2 != 0 {
            v.y = v.y - 1;
        }
        if v.d2 == 10 {
            v.d1 = 2;
            v.d2 = 0;
        }
    } else if v.d1 == 2 {
        v.d2 = v.d2 + 1;
        if v.d2 == 30 {
            v.d1 = 3;
            v.d2 = 0;
        }
    }
    e.finish(v, Queued::new());
}

/// A blast freeing the frozen figure: once, with a sound and six pieces of
/// ice.
pub open spec fn smash_spec(b: Body) -> (Body, Out) {
    if b.d1 != 0 {
        (b, quiet())
    } else {
        let x = b.x + 1;
        (
            Body { d1: 1, x, ..b },
            quiet().sound(snd::SMASH).shard(SPR_FROZEN_DN, 6, x, b.y - 6).shard(SPR_FROZEN_DN, 7, x + 4, b.y)
                .shard(SPR_FROZEN_DN, 8, x, b.y - 5).shard(SPR_FROZEN_DN, 9, x, b.y - 4)
                .shard(SPR_FROZEN_DN, 10, x + 5, b.y - 6).shard(SPR_FROZEN_DN, 11, x + 5, b.y - 4),
        )
    }
}

pub fn smash_frozen_dn(e: &mut Enemy)
    requires
        old(e).bounded(),
    ensures
        final(e).stepped(old(e), smash_spec(old(e).body())),
{
    let mut v = e.vals();
    let mut q = Queued::new();
    if v.d1 == 0 {
        v.d1 = 1;
        v.x = v.x + 1;
        q.sounds.push(snd::SMASH);
        q.shards.push((SPR_FROZEN_DN, 6, v.x, v.y - 6));
        q.shards.push((SPR_FROZEN_DN, 7, v.x + 4, v.y));
        q.shards.push((SPR_FROZEN_DN, 8, v.x, v.y - 5));
        q.shards.push((SPR_FROZEN_DN, 9, v.x, v.y - 4));
        q.shards.push((SPR_FROZEN_DN, 10, v.x + 5, v.y - 6));
        q.shards.push((SPR_FROZEN_DN, 11, v.x + 5, v.y - 4));
    }
    e.finish(v, q);
}

/// `ActSpeechBubble`: sounds on its first tick (the jackpot bubble, `d5`,
/// paying 50000), follows the player, and goes after twenty ticks.
pub open spec fn bubble_spec(b: Body, px: int, py: int) -> (Body, Out) {
    let o = if b.d1 == 0 {
        if b.d5 != 0 { quiet().sound(snd::SPEECH_BUBBLE).award(50000) } else { quiet().sound(snd::SPEECH_BUBBLE) }
    } else {
        quiet()
    };
    let d1 = b.d1 + 1;
    if d1 == 20 { (Body { d1, dead: true, ..b }, o) } else { (Body { d1, x: px - 1, y: py - 5, ..b }, o) }
}

pub fn tick_speech_bubble(e: &mut Enemy, player: &Player)
    requires
        old(e).bounded(),
        player.x > i32::MIN,
        player.y >= i32::MIN + 5,
    ensures
        final(e).stepped(old(e), bubble_spec(old(e).body(), player.x as int, player.y as int)),
{
    let mut v = e.vals();
    let mut q = Queued::new();
    if v.d1 == 0 {
        q.sounds.push(snd::SPEECH_BUBBLE);
        if v.d5 != 0 {
            q.score = 50000;
        }
    }
    v.d1 = v.d1 + 1;
    if v.d1 == 20 {
        v.dead = true;
    } else {
        v.x = player.x - 1;
        v.y = player.y - 5;
    }
    e.finish(v, q);
}

/// `ActPrize`: cycles its frames up to `d5` (at half rate when `d4` is
/// set); one with nothing to cycle sparkles on one roll in sixteen.
pub open spec fn prize_spec(b: Body) -> (Body, Out) {
    let rng = if b.d5 <= 1 { xorshift(b.rng) } else { b.rng };
    let o = if b.d5 <= 1 && roll(rng, 16) == 0 { quiet().decorate(SPR_SPARKLE_SHORT, 4, b.x, b.y, DIR8_NONE, 1) } else { quiet() };
    let d3 = if b.d4 == 0 { b.d3 } else { flip(b.d3) };
    let f = if b.d4 == 0 || d3 != 0 { b.frame + 1 } else { b.frame };
    (Body { rng, d3, frame: if f == b.d5 { 0 } else { f }, ..b }, o)
}

pub fn tick_prize(e: &mut Enemy)
    requires
        old(e).bounded(),
    ensures
        final(e).stepped(old(e), prize_spec(old(e).body())),
{
    let mut v = e.vals();
    let mut q = Queued::new();
    if v.d5 <= 1 {
        let (r, c) = rand_step(v.rng, 16);
        v.rng = r;
        if c == 0 {
            q.decorations.push((SPR_SPARKLE_SHORT, 4, v.x, v.y, DIR8_NONE, 1));
        }
    }
    if v.d4 == 0 {
        v.frame = v.frame + 1;
    } else {
        v.d3 = if v.d3 == 0 { 1 } else { 0 };
        if v.d3 != 0 {
            v.frame = v.frame + 1;
        }
    }
    if v.frame as i32 == v.d5 {
        v.frame = 0;
    }
    e.finish(v, q);
}

/// `v % 2` as the machine computes it: the sign follows `v`.
pub open spec fn rem2(v: int) -> int {
    if v % 2 == 0 { 0 } else if v >= 0 { 1 } else { -1 }
}

/// One row toward the player's row.
pub open spec fn toward(y: int, py: int) -> int {
    if y < py { y + 1 } else if y > py { y - 1 } else { y }
}

/// `ActGhost`: every third tick advances its four-step cycle; it drifts
/// toward the player only from behind them (judged by the way they face),
/// a cell a cycle, closing a row as it goes.
pub open spec fn ghost_spec(b: Body, px: int, py: int, faces_west: bool) -> (Body, Out) {
    let d4 = b.d4 + 1;
    let d1a = if d4 % 3 == 0 { b.d1 + 1 } else { b.d1 };
    let d1 = if d1a == 4 { 0 } else { d1a };
    if faces_west {
        if b.x > px {
            if d1 == 0 {
                (Body { d4, d1, frame: (rem2(d1) as usize) as int, x: b.x - 1, y: toward(b.y, py), ..b }, quiet())
            } else {
                (Body { d4, d1, frame: (rem2(d1) as usize) as int, ..b }, quiet())
            }
        } else {
            (Body { d4, d1, frame: 5, ..b }, quiet())
        }
    } else if b.x < px {
        if d1 == 0 {
            (Body { d4, d1, frame: ((rem2(d1) + 3) as usize) as int, x: b.x + 1, y: toward(b.y, py), ..b }, quiet())
        } else {
            (Body { d4, d1, frame: ((rem2(d1) + 3) as usize) as int, ..b }, quiet())
        }
    } else {
        (Body { d4, d1, frame: 2, ..b }, quiet())
    }
}

pub fn tick_ghost(e: &mut Enemy, player: &Player)
    requires
        old(e).bounded(),
    ensures
        final(e).stepped(old(e), ghost_spec(old(e).body(), player.x as int, player.y as int, player.face_dir == FaceDir::West)),
{
    let mut v = e.vals();
    v.d4 = v.d4 + 1;
    if v.d4 % 3 == 0 {
        v.d1 = v.d1 + 1;
    }
    if v.d1 == 4 {
        v.d1 = 0;
    }
    let faces_west = player.face_dir == FaceDir::West;
    if faces_west {
        if v.x > player.x {
            v.frame = (v.d1 % 2) as usize;
            if v.d1 == 0 {
                v.x = v.x - 1;
                v.y = if v.y < player.y { v.y + 1 } else if v.y > player.y { v.y - 1 } else { v.y };
            }
        } else {
            v.frame = 5;
        }
    } else if v.x < player.x {
        v.frame = ((v.d1 % 2) + 3) as usize;
        if v.d1 == 0 {
            v.x = v.x + 1;
            v.y = if v.y < player.y { v.y + 1 } else if v.y > player.y { v.y - 1 } else { v.y };
        }
    } else {
        v.frame = 2;
    }
    e.finish(v, Queued::new());
}

/// The bird's swoop, as per-tick rows.
pub open spec fn swoop(i: int) -> int {
    2 - i / 3
}

/// `ActBird`: perches thirty ticks watching the player (blinking on one
/// roll in ten), flaps twenty (rising on the early odd ticks), then swoops
/// toward where the player was along a fixed arc and flaps again.
pub open spec fn bird_spec(b: Body, px: int) -> (Body, Out) {
    let west_of = b.x + 1 > px;
    if b.d1 == 0 {
        let rng = xorshift(b.rng);
        let blink = roll(rng, 10) == 0;
        let d2 = if west_of { if blink { 1int } else { 0int } } else if blink { 5int } else { 4int };
        let d3 = b.d3 + 1;
        if d3 == 30 {
            (Body { rng, d2, frame: d2, d1: 1, d3: 0, ..b }, quiet())
        } else {
            (Body { rng, d2, frame: d2, d3, ..b }, quiet())
        }
    } else if b.d1 == 1 {
        let d3a = b.d3 + 1;
        let (d3, d1, d4, y) = if d3a == 20 {
            (0int, 2int, if west_of { DIR2_WEST as int } else { DIR2_EAST as int }, b.y)
        } else if d3a % 2 != 0 && d3a < 10 {
            (d3a, b.d1, b.d4, b.y - 1)
        } else {
            (d3a, b.d1, b.d4, b.y)
        };
        (Body { d3, d1, d4, y, frame: if west_of { rem2(d3) + 2 } else { rem2(d3) + 6 }, ..b }, quiet())
    } else if b.d1 == 2 {
        let d3 = b.d3 + 1;
        let (frame, x) = if b.d4 == DIR2_WEST { (rem2(d3) + 2, b.x - 1) } else { (rem2(d3) + 6, b.x + 1) };
        let i = if d3 - 1 < 0 { 0 } else if d3 - 1 > 14 { 14 } else { d3 - 1 };
        let y = b.y + swoop(i);
        if d3 == 15 { (Body { frame, x, y, d1: 1, d3: 10, ..b }, quiet()) } else { (Body { frame, x, y, d3, ..b }, quiet()) }
    } else {
        (b, quiet())
    }
}

#[verifier::rlimit(30)]
fn bird_step(e: &Enemy, px: i32) -> (r: Vals)
    requires
        e.bounded(),
    ensures
        with_vals(e.body(), r) == bird_spec(e.body(), px as int).0,
{
    let mut v = e.vals();
    let west_of = v.x + 1 > px;
    if v.d1 == 0 {
        let (r, c) = rand_step(v.rng, 10);
        v.rng = r;
        v.d2 = if west_of { if c == 0 { 1 } else { 0 } } else if c == 0 { 5 } else { 4 };
        v.frame = v.d2 as usize;
        v.d3 = v.d3 + 1;
        if v.d3 == 30 {
            v.d1 = 1;
            v.d3 = 0;
        }
    } else if v.d1 == 1 {
        v.d3 = v.d3 + 1;
        if v.d3 == 20 {
            v.d3 = 0;
            v.d1 = 2;
            v.d4 = if west_of { DIR2_WEST } else { DIR2_EAST };
        } else if v.d3 % 2 != 0 && v.d3 < 10 {
            v.y = v.y - 1;
        }
        v.frame = if west_of { ((v.d3 % 2) + 2) as usize } else { ((v.d3 % 2) + 6) as usize };
    } else if v.d1 == 2 {
        v.d3 = v.d3 + 1;
        if v.d4 == DIR2_WEST {
            v.frame = ((v.d3 % 2) + 2) as usize;
            v.x = v.x - 1;
        } else {
            v.frame = ((v.d3 % 2) + 6) as usize;
            v.x = v.x + 1;
        }
        let i = if v.d3 - 1 < 0 { 0 } else if v.d3 - 1 > 14 { 14 } else { v.d3 - 1 };
        let rise: i32 = if i < 3 { 2 } else if i < 6 { 1 } else if i < 9 { 0 } else if i < 12 { -1 } else { -2 };
        assert(rise == 2 - i / 3);
        v.y = v.y + rise;
        if v.d3 == 15 {
            v.d1 = 1;
            v.d3 = 10;
        }
    }
    v
}

pub fn tick_bird(e: &mut Enemy, player: &Player)
    requires
        old(e).bounded(),
    ensures
        final(e).stepped(old(e), bird_spec(old(e).body(), player.x as int)),
{
    let v = bird_step(e, player.x);
    e.finish(v, Queued::new());
}

/// `ActClamPlant`: idles closed for sixteen ticks, then opens through four
/// frames and closes back to the first.
pub open spec fn clam_spec(b: Body) -> Body {
    if b.d2 == 1 {
        let f = b.frame + 1;
        Body { frame: f, d2: if f == 4 { 2 } else { b.d2 }, ..b }
    } else if b.d2 == 2 {
        let f = if b.frame > 0 { b.frame - 1 } else { 0 };
        if f == 1 { Body { frame: f, d2: 0, d1: 1, ..b } } else { Body { frame: f, ..b } }
    } else {
        let d1 = if b.d1 < 16 { b.d1 + 1 } else { 0 };
        if d1 == 0 { Body { d1, d2: 1, ..b } } else { Body { d1, frame: 0, ..b } }
    }
}

pub fn tick_clam_plant(e: &mut Enemy)
    requires
        old(e).bounded(),
    ensures
        final(e).stepped(old(e), (clam_spec(old(e).body()), quiet())),
{
    let mut v = e.vals();
    if v.d2 == 1 {
        v.frame = v.frame + 1;
        if v.frame == 4 {
            v.d2 = 2;
        }
    } else if v.d2 == 2 {
        v.frame = if v.frame > 0 { v.frame - 1 } else { 0 };
        if v.frame == 1 {
            v.d2 = 0;
            v.d1 = 1;
        }
    } else {
        if v.d1 < 16 {
            v.d1 = v.d1 + 1;
        } else {
            v.d1 = 0;
        }
        if v.d1 == 0 {
            v.d2 = 1;
        } else {
            v.frame = 0;
        }
    }
    e.finish(v, Queued::new());
}

/// `ActReciprocatingSpikes`: a twenty-tick cycle that extends and retracts
/// between frames 0 and 2, sounding every tick.
pub open spec fn spikes_spec(b: Body) -> (Body, Out) {
    let d2a = b.d2 + 1;
    let d2 = if d2a == 20 { 0 } else { d2a };
    let b1 = if b.frame == 0 && d2 == 0 {
        Body { d2, d1: 0, ..b }
    } else if b.frame == 2 && d2 == 0 {
        Body { d2, d1: 1, ..b }
    } else if b.d1 != 0 {
        Body { d2, frame: if b.frame > 0 { b.frame - 1 } else { 0 }, ..b }
    } else if b.frame < 2 {
        Body { d2, frame: b.frame + 1, ..b }
    } else {
        Body { d2, ..b }
    };
    (b1, quiet().sound(snd::SPIKES_MOVE))
}

pub fn tick_reciprocating_spikes(e: &mut Enemy)
    requires
        old(e).bounded(),
    ensures
        final(e).stepped(old(e), spikes_spec(old(e).body())),
{
    let mut v = e.vals();
    let mut q = Queued::new();
    v.d2 = v.d2 + 1;
    q.sounds.push(snd::SPIKES_MOVE);
    if v.d2 == 20 {
        v.d2 = 0;
    }
    if v.frame == 0 && v.d2 == 0 {
        v.d1 = 0;
    } else if v.frame == 2 && v.d2 == 0 {
        v.d1 = 1;
    } else if v.d1 != 0 {
        v.frame = if v.frame > 0 { v.frame - 1 } else { 0 };
    } else if v.frame < 2 {
        v.frame = v.frame + 1;
    }
    e.finish(v, q);
}

/// `ActReciprocatingSpear`: a thirty-tick cycle, down over 15..22 and up
/// over 23..30.
pub open spec fn spear_spec(b: Body) -> Body {
    let d1 = if b.d1 < 30 { b.d1 + 1 } else { 0 };
    Body { d1, y: if d1 > 22 { b.y - 1 } else if d1 > 14 { b.y + 1 } else { b.y }, ..b }
}

pub fn tick_reciprocating_spear(e: &mut Enemy)
    requires
        old(e).bounded(),
    ensures
        final(e).stepped(old(e), (spear_spec(old(e).body()), quiet())),
{
    let mut v = e.vals();
    v.d1 = if v.d1 < 30 { v.d1 + 1 } else { 0 };
    if v.d1 > 22 {
        v.y = v.y - 1;
    } else if v.d1 > 14 {
        v.y = v.y + 1;
    }
    e.finish(v, Queued::new());
}

/// The cells a beam occupies, as (x, top row, width, height): a force
/// field's run from its cell, or the beam standing on a robot's head.
pub open spec fn beam_rect_spec(e: &Enemy) -> Option<(i32, i32, i32, i32)> {
    if e.dead {
        None
    } else if e.kind == EnemyKind::ForceField && e.d1 > 0 {
        if e.d5 == 0 {
            Some((e.x, (e.y - e.d1 + 1) as i32, e.width_tiles, e.d1))
        } else {
            Some((e.x, (e.y - e.height_tiles + 1) as i32, e.d1, e.height_tiles))
        }
    } else if e.kind == EnemyKind::BeamRobot && e.d2 > 0 {
        Some(((e.x + 1) as i32, (e.y - e.d2 - 1) as i32, 1, e.d2))
    } else {
        None
    }
}

pub fn beam_rect(e: &Enemy) -> (r: Option<(i32, i32, i32, i32)>)
    requires
        e.bounded(),
    ensures
        r == beam_rect_spec(e),
{
    if e.dead {
        None
    } else if e.kind == EnemyKind::ForceField && e.d1 > 0 {
        if e.d5 == 0 {
            Some((e.x, e.y - e.d1 + 1, e.width_tiles, e.d1))
        } else {
            Some((e.x, e.y - e.height_tiles + 1, e.d1, e.height_tiles))
        }
    } else if e.kind == EnemyKind::BeamRobot && e.d2 > 0 {
        Some((e.x + 1, e.y - e.d2 - 1, 1, e.d2))
    } else {
        None
    }
}

/// Whether an actor carries a beam.
pub fn has_beam(e: &Enemy) -> (r: bool)
    ensures
        r == (e.kind == EnemyKind::ForceField || e.kind == EnemyKind::BeamRobot),
{
    e.kind == EnemyKind::ForceField || e.kind == EnemyKind::BeamRobot
}

/// Actors drawn hidden this tick: the invisible markers and emitters, the
/// force field's own sprite, and a flame between pulses.
pub open spec fn hidden_spec(e: &Enemy) -> bool {
    e.kind == EnemyKind::SmokeEmitter || e.kind == EnemyKind::Transporter || e.kind == EnemyKind::TriggerLine
        || e.kind == EnemyKind::ForceField || e.kind == EnemyKind::PipeCorner
        || (e.kind == EnemyKind::FlamePulse && e.d1 != 0)
}

pub fn draws_hidden(e: &Enemy) -> (r: bool)
    ensures
        r == hidden_spec(e),
{
    match e.kind {
        EnemyKind::SmokeEmitter | EnemyKind::Transporter | EnemyKind::TriggerLine | EnemyKind::ForceField
        | EnemyKind::PipeCorner => true,
        EnemyKind::FlamePulse => e.d1 != 0,
        _ => false,
    }
}

/// Actors drawn upside down this tick (the only flip there is).
pub open spec fn flipped_spec(e: &Enemy) -> bool {
    (e.kind == EnemyKind::Prize && e.d1 != 0)
        || (e.kind == EnemyKind::ClamPlant && e.d5 == DRAW_MODE_FLIPPED)
        || (e.kind == EnemyKind::EyePlant && e.d5 == DRAW_MODE_FLIPPED)
        || (e.kind == EnemyKind::FlyingWisp && e.d1 > 50)
        || (e.kind == EnemyKind::Pyramid && e.d5 != 0)
        || (e.kind == EnemyKind::JumpPad && e.d5 != 0)
}

pub fn flips_vertically(e: &Enemy) -> (r: bool)
    ensures
        r == flipped_spec(e),
{
    match e.kind {
        EnemyKind::Prize => e.d1 != 0,
        EnemyKind::ClamPlant => e.d5 == DRAW_MODE_FLIPPED,
        EnemyKind::EyePlant => e.d5 == DRAW_MODE_FLIPPED,
        EnemyKind::FlyingWisp => e.d1 > 50,
        EnemyKind::Pyramid => e.d5 != 0,
        EnemyKind::JumpPad => e.d5 != 0,
        _ => false,
    }
}

} // verus!
