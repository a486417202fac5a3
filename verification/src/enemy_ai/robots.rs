//! The robots and the boss: pacers that fire, shove or carry a beam, and
//! the five-phase boss fight.
use vstd::prelude::*;
use crate::collide::{size_ok, Dir4};
use crate::data::{level_wf, GameData, LevelJson};
use crate::effects::{DIR8_NORTHEAST, DIR8_NORTHWEST};
use crate::enemy_ai::walkers::free;
use crate::enemy_ai::{
    adjust_xy, adjust_xy_exec, flip, quiet, rand_step, with_vals, Body, Enemy, Out, Queued, Vals,
    ACT_PROJECTILE_E, ACT_PROJECTILE_W, ACT_SPEECH_UMPH, ACT_SPEECH_WHOA, ACT_STAR_FLOAT, BOSS_HITS,
    DIR2_EAST, DIR2_WEST, SPR_BOSS, SPR_SMOKE,
};
use crate::player::{roll, xorshift, Player};
use crate::collide::{test_sprite_move, MoveResult};
use crate::sfx::snd;

verus! {

fn free_at(dir: Dir4, x: i32, y: i32, w: i32, h: i32, level: &LevelJson, data: &GameData) -> (r: bool)
    requires
        level_wf(level),
        -0x4000_0000 <= x <= 0x4000_0000,
        -0x4000_0000 <= y <= 0x4000_0000,
        size_ok(w as int),
        size_ok(h as int),
    ensures
        r == free(dir, x as int, y as int, w as int, h as int, level, data),
{
    test_sprite_move(dir, x, y, w, h, level, data) == MoveResult::Free
}

/// A blasted beam robot's column: an explosion and a star every four cells
/// up the beam it was casting, from cell `i` on.
pub open spec fn beam_blasts(o: Out, x: int, y: int, i: int, len: int) -> Out
    decreases (if i < len { len - i } else { 0 }),
{
    if i >= len {
        o
    } else {
        beam_blasts(o.explode(x, y - i).spawn(ACT_STAR_FLOAT, x, y - i), x, y, i + 4, len)
    }
}

/// The robot's beam: cells two to twenty above it, up to the first that
/// is blocked; the length counts from the third.
pub open spec fn robot_beam(x: int, y: int, w: int, h: int, i: int, len: int, level: &LevelJson, data: &GameData) -> int
    decreases 21 - i,
{
    if i >= 21 {
        len
    } else if !free(Dir4::North, x + 1, y - i, w, h, level, data) {
        len
    } else {
        robot_beam(x, y, w, h, i + 1, i - 1, level, data)
    }
}

/// `ActBeamRobot`: paces at half speed under its beam, turning where it
/// must, and measures the beam (`d2`); blasted (`d3`), it dies in a column
/// of explosions and stars.
pub open spec fn beam_robot_spec(b: Body, level: &LevelJson, data: &GameData) -> (Body, Out) {
    if b.d3 != 0 {
        (Body { dead: true, ..b }, beam_blasts(quiet(), b.x, b.y, 0, b.d3))
    } else {
        let d5 = flip(b.d5);
        let d4 = b.d4 + 1;
        let odd = d4 % 2 != 0;
        if b.d1 != 0 {
            let m = adjust_xy(if odd { b.x - 1 } else { b.x }, b.y, b.w, b.h, b.acrophile, Dir4::West, level, data);
            let d2 = robot_beam(m.0, m.1, b.w, b.h, 2, 0, level, data);
            (Body { d5, d4, d1: if !m.2 { 0 } else { b.d1 }, x: m.0, y: m.1, west_free: m.2, d2, ..b }, quiet())
        } else {
            let m = adjust_xy(if odd { b.x + 1 } else { b.x }, b.y, b.w, b.h, b.acrophile, Dir4::East, level, data);
            let d2 = robot_beam(m.0, m.1, b.w, b.h, 2, 0, level, data);
            (Body { d5, d4, d1: if !m.2 { 1 } else { b.d1 }, x: m.0, y: m.1, east_free: m.2, d2, ..b }, quiet())
        }
    }
}

fn robot_beam_exec(x: i32, y: i32, w: i32, h: i32, level: &LevelJson, data: &GameData) -> (r: i32)
    requires
        level_wf(level),
        -0x3fff_8000 <= x <= 0x3fff_8000,
        -0x3fff_8000 <= y <= 0x3fff_8000,
        size_ok(w as int),
        size_ok(h as int),
    ensures
        r as int == robot_beam(x as int, y as int, w as int, h as int, 2, 0, level, data),
{
    let mut i: i32 = 2;
    let mut len: i32 = 0;
    while i < 21
        invariant
            level_wf(level),
            -0x3fff_8000 <= x <= 0x3fff_8000,
            -0x3fff_8000 <= y <= 0x3fff_8000,
            size_ok(w as int),
            size_ok(h as int),
            2 <= i <= 21,
            robot_beam(x as int, y as int, w as int, h as int, 2, 0, level, data) == robot_beam(x as int, y as int, w as int, h as int, i as int, len as int, level, data),
        decreases 21 - i,
    {
        if !free_at(Dir4::North, x + 1, y - i, w, h, level, data) {
            return len;
        }
        len = i - 1;
        i = i + 1;
    }
    len
}

fn beam_robot_step(e: &Enemy, level: &LevelJson, data: &GameData) -> (r: (Vals, Queued))
    requires
        level_wf(level),
        e.bounded(),
    ensures
        with_vals(e.body(), r.0) == beam_robot_spec(e.body(), level, data).0,
        r.1@ == beam_robot_spec(e.body(), level, data).1,
        r.1.score == 0,
{
    let mut v = e.vals();
    let mut q = Queued::new();
    if v.d3 != 0 {
        let mut i: i32 = 0;
        while i < v.d3
            invariant
                -0x3fff_0000 <= v.x <= 0x3fff_0000,
                -0x3fff_0000 <= v.y <= 0x3fff_0000,
                -0x4000_0000 <= v.d3 <= 0x4000_0000,
                0 <= i <= 0x4000_0004,
                i < v.d3 || i >= v.d3,
                q.score == 0,
                q@.spawns.len() >= 0,
                beam_blasts(quiet(), v.x as int, v.y as int, 0, v.d3 as int) == beam_blasts(q@, v.x as int, v.y as int, i as int, v.d3 as int),
            decreases (if i < v.d3 { v.d3 - i } else { 0 }),
        {
            q.explosions.push((v.x, v.y - i));
            q.spawns.push((ACT_STAR_FLOAT, v.x, v.y - i));
            i = i + 4;
        }
        v.dead = true;
        return (v, q);
    }
    v.d5 = if v.d5 == 0 { 1 } else { 0 };
    v.d4 = v.d4 + 1;
    let odd = v.d4 % 2 != 0;
    if v.d1 != 0 {
        let m = adjust_xy_exec(if odd { v.x - 1 } else { v.x }, v.y, e.width_tiles, e.height_tiles, e.acrophile, Dir4::West, level, data);
        v.x = m.0;
        v.y = m.1;
        v.west_free = m.2;
        if !m.2 {
            v.d1 = 0;
        }
    } else {
        let m = adjust_xy_exec(if odd { v.x + 1 } else { v.x }, v.y, e.width_tiles, e.height_tiles, e.acrophile, Dir4::East, level, data);
        v.x = m.0;
        v.y = m.1;
        v.east_free = m.2;
        if !m.2 {
            v.d1 = 1;
        }
    }
    v.d2 = robot_beam_exec(v.x, v.y, e.width_tiles, e.height_tiles, level, data);
    (v, q)
}

pub fn tick_beam_robot(e: &mut Enemy, level: &LevelJson, data: &GameData)
    requires
        level_wf(level),
        old(e).bounded(),
    ensures
        final(e).stepped(old(e), beam_robot_spec(old(e).body(), level, data)),
{
    let (v, q) = beam_robot_step(e, level, data);
    e.finish(v, q);
}

/// `ActPusherRobot`: holds its shove pose for `d2` ticks; shoves a player
/// level with it and exactly in reach (three columns west, four east) for
/// five ticks at two cells a tick, then waits three ticks before it can
/// again; otherwise paces at half speed.
pub open spec fn pusher_robot_spec(b: Body, px: int, py: int, level: &LevelJson, data: &GameData) -> (Body, Out) {
    if b.d2 != 0 {
        (Body { d2: b.d2 - 1, ..b }, quiet())
    } else {
        let d4 = if b.d4 != 0 { b.d4 - 1 } else { b.d4 };
        let d3 = flip(b.d3);
        let west = b.d1 == DIR2_WEST;
        let in_reach = b.y == py && d4 == 0 && (if west { b.x - 3 == px } else { b.x + 4 == px });
        if in_reach {
            let dx: i32 = if west { -1i32 } else { 1i32 };
            (
                Body { d4: 3, d3, d2: 8, frame: if west { 2int } else { 5int }, ..b },
                quiet().shove((dx, 0, 5, 2)).sound(snd::PUSH_PLAYER).say(ACT_SPEECH_UMPH),
            )
        } else if d3 == 0 {
            (Body { d4, d3, ..b }, quiet())
        } else if west {
            let m = adjust_xy(b.x - 1, b.y, b.w, b.h, b.acrophile, Dir4::West, level, data);
            if !m.2 {
                (Body { d4, d3, d1: DIR2_EAST as int, x: m.0, y: m.1, west_free: m.2, frame: m.0 % 2 + 3, ..b }, quiet())
            } else {
                (Body { d4, d3, x: m.0, y: m.1, west_free: m.2, frame: flip(b.frame), ..b }, quiet())
            }
        } else {
            let m = adjust_xy(b.x + 1, b.y, b.w, b.h, b.acrophile, Dir4::East, level, data);
            if !m.2 {
                (Body { d4, d3, d1: DIR2_WEST as int, x: m.0, y: m.1, east_free: m.2, frame: flip(b.frame), ..b }, quiet())
            } else {
                (Body { d4, d3, x: m.0, y: m.1, east_free: m.2, frame: m.0 % 2 + 3, ..b }, quiet())
            }
        }
    }
}

fn pusher_robot_step(e: &Enemy, px: i32, py: i32, level: &LevelJson, data: &GameData) -> (r: (Vals, Queued))
    requires
        level_wf(level),
        e.bounded(),
        e.x >= 1,
    ensures
        with_vals(e.body(), r.0) == pusher_robot_spec(e.body(), px as int, py as int, level, data).0,
        r.1@ == pusher_robot_spec(e.body(), px as int, py as int, level, data).1,
        r.1.score == 0,
{
    let mut v = e.vals();
    let mut q = Queued::new();
    if v.d2 != 0 {
        v.d2 = v.d2 - 1;
        return (v, q);
    }
    if v.d4 != 0 {
        v.d4 = v.d4 - 1;
    }
    v.d3 = if v.d3 == 0 { 1 } else { 0 };
    let west = v.d1 == DIR2_WEST;
    let in_reach = v.y == py && v.d4 == 0 && (if west { v.x - 3 == px } else { v.x + 4 == px });
    if in_reach {
        v.frame = if west { 2 } else { 5 };
        v.d2 = 8;
        v.d4 = 3;
        q.push = Some((if west { -1 } else { 1 }, 0, 5, 2));
        q.sounds.push(snd::PUSH_PLAYER);
        q.bubble = Some(ACT_SPEECH_UMPH);
        return (v, q);
    }
    if v.d3 == 0 {
        return (v, q);
    }
    if west {
        let m = adjust_xy_exec(v.x - 1, v.y, e.width_tiles, e.height_tiles, e.acrophile, Dir4::West, level, data);
        v.x = m.0;
        v.y = m.1;
        v.west_free = m.2;
        if !m.2 {
            v.d1 = DIR2_EAST;
            v.frame = (v.x % 2) as usize + 3;
        } else {
            v.frame = if v.frame == 0 { 1 } else { 0 };
        }
    } else {
        let m = adjust_xy_exec(v.x + 1, v.y, e.width_tiles, e.height_tiles, e.acrophile, Dir4::East, level, data);
        v.x = m.0;
        v.y = m.1;
        v.east_free = m.2;
        if !m.2 {
            v.d1 = DIR2_WEST;
            v.frame = if v.frame == 0 { 1 } else { 0 };
        } else {
            v.frame = (v.x % 2) as usize + 3;
        }
    }
    (v, q)
}

/// `ActPusherRobot`. A pusher never stands west of the map's first column.
pub fn tick_pusher_robot(e: &mut Enemy, player: &Player, level: &LevelJson, data: &GameData)
    requires
        level_wf(level),
        old(e).bounded(),
        old(e).x >= 1,
    ensures
        final(e).stepped(old(e), pusher_robot_spec(old(e).body(), player.x as int, player.y as int, level, data)),
{
    let (v, q) = pusher_robot_step(e, player.x, player.y, level, data);
    e.finish(v, q);
}

/// `ActSentryRobot`: every other tick; while the lights are on it rolls one
/// in fifty to stop and aim (`d4` ten ticks), firing toward the player on
/// the ninth; otherwise it paces, turning where it must.
pub open spec fn sentry_robot_spec(b: Body, px: int, lights: bool, level: &LevelJson, data: &GameData) -> (Body, Out) {
    let d3 = flip(b.d3);
    if d3 != 0 {
        (Body { d3, ..b }, quiet())
    } else {
        let rng = if lights { xorshift(b.rng) } else { b.rng };
        let d4a = if lights && roll(rng, 50) > 48 && b.d4 == 0 { 10 } else { b.d4 };
        if d4a != 0 {
            let d2 = flip(b.d2);
            let d4 = d4a - 1;
            let fire = d4 == 1;
            let d1 = if fire { if b.x + 1 > px { DIR2_WEST as int } else { DIR2_EAST as int } } else { b.d1 };
            let o = if fire {
                if d1 != DIR2_WEST { quiet().spawn(ACT_PROJECTILE_E, b.x + 3, b.y - 1) } else { quiet().spawn(ACT_PROJECTILE_W, b.x - 1, b.y - 1) }
            } else {
                quiet()
            };
            let frame = if d1 != DIR2_WEST { if d2 != 0 { 5 } else { 0 } } else if d2 != 0 { 6 } else { 2 };
            (Body { d3, rng, d4, d2, d1, frame, ..b }, o)
        } else if b.d1 == DIR2_WEST {
            let m = adjust_xy(b.x - 1, b.y, b.w, b.h, b.acrophile, Dir4::West, level, data);
            let d1 = if !m.2 { DIR2_EAST as int } else { b.d1 };
            (Body { d3, rng, x: m.0, y: m.1, west_free: m.2, d1, frame: if d1 == DIR2_WEST { 2 } else { 0 }, ..b }, quiet())
        } else {
            let m = adjust_xy(b.x + 1, b.y, b.w, b.h, b.acrophile, Dir4::East, level, data);
            let d1 = if !m.2 { DIR2_WEST as int } else { b.d1 };
            (Body { d3, rng, x: m.0, y: m.1, east_free: m.2, d1, frame: if d1 == DIR2_WEST { 2 } else { 0 }, ..b }, quiet())
        }
    }
}

fn sentry_robot_step(e: &Enemy, px: i32, lights: bool, level: &LevelJson, data: &GameData) -> (r: (Vals, Queued))
    requires
        level_wf(level),
        e.bounded(),
    ensures
        with_vals(e.body(), r.0) == sentry_robot_spec(e.body(), px as int, lights, level, data).0,
        r.1@ == sentry_robot_spec(e.body(), px as int, lights, level, data).1,
        r.1.score == 0,
{
    let mut v = e.vals();
    let mut q = Queued::new();
    v.d3 = if v.d3 == 0 { 1 } else { 0 };
    if v.d3 != 0 {
        return (v, q);
    }
    let mut roll_v: u32 = 0;
    if lights {
        let (r, c) = rand_step(v.rng, 50);
        v.rng = r;
        roll_v = c;
    }
    if lights && roll_v > 48 && v.d4 == 0 {
        v.d4 = 10;
    }
    if v.d4 != 0 {
        v.d2 = if v.d2 == 0 { 1 } else { 0 };
        v.d4 = v.d4 - 1;
        if v.d4 == 1 {
            v.d1 = if v.x + 1 > px { DIR2_WEST } else { DIR2_EAST };
            if v.d1 != DIR2_WEST {
                q.spawns.push((ACT_PROJECTILE_E, v.x + 3, v.y - 1));
            } else {
                q.spawns.push((ACT_PROJECTILE_W, v.x - 1, v.y - 1));
            }
        }
        v.frame = if v.d1 != DIR2_WEST { if v.d2 != 0 { 5 } else { 0 } } else if v.d2 != 0 { 6 } else { 2 };
        return (v, q);
    }
    if v.d1 == DIR2_WEST {
        let m = adjust_xy_exec(v.x - 1, v.y, e.width_tiles, e.height_tiles, e.acrophile, Dir4::West, level, data);
        v.x = m.0;
        v.y = m.1;
        v.west_free = m.2;
        if !m.2 {
            v.d1 = DIR2_EAST;
        }
    } else {
        let m = adjust_xy_exec(v.x + 1, v.y, e.width_tiles, e.height_tiles, e.acrophile, Dir4::East, level, data);
        v.x = m.0;
        v.y = m.1;
        v.east_free = m.2;
        if !m.2 {
            v.d1 = DIR2_WEST;
        }
    }
    v.frame = if v.d1 == DIR2_WEST { 2 } else { 0 };
    (v, q)
}

pub fn tick_sentry_robot(e: &mut Enemy, player: &Player, switches: &crate::enemy_ai::SwitchState, level: &LevelJson, data: &GameData)
    requires
        level_wf(level),
        old(e).bounded(),
    ensures
        final(e).stepped(old(e), sentry_robot_spec(old(e).body(), player.x as int, switches.lights_active, level, data)),
{
    let (v, q) = sentry_robot_step(e, player.x, switches.lights_active, level, data);
    e.finish(v, q);
}


/// The boss's bob, as per-tick rows.
pub open spec fn boss_bob(i: int) -> int {
    if i == 0 || i == 1 || i == 12 || i == 13 {
        2
    } else if i == 2 || i == 11 {
        1
    } else if i == 3 || i == 10 {
        0
    } else if i == 4 || i == 9 {
        -1
    } else {
        -2
    }
}

fn boss_bob_exec(i: i32) -> (r: i32)
    requires
        0 <= i < 14,
    ensures
        r as int == boss_bob(i as int),
{
    if i == 0 || i == 1 || i == 12 || i == 13 {
        2
    } else if i == 2 || i == 11 {
        1
    } else if i == 3 || i == 10 {
        0
    } else if i == 4 || i == 9 {
        -1
    } else {
        -2
    }
}

/// The boss's bobbing phase (`d1` 2): a step of its bob (cut short by a
/// floor), then, after thirty ticks and until two hundred, a cell a tick
/// along its heading (`d4`, turning at walls); past two hundred it rises
/// to slam.
pub open spec fn boss_bobbing(b: Body, level: &LevelJson, data: &GameData) -> Body {
    let step = boss_bob(b.d3 % 14);
    let fb = free(Dir4::South, b.x, b.y + step, b.w, b.h, level, data);
    let y = if !fb && step == 2 { b.y - 2 } else if !fb && step == 1 { b.y - 1 } else { b.y + step };
    let d3 = b.d3 + 1;
    let d2 = b.d2 + 1;
    if d2 > 30 && d2 < 201 {
        if b.d4 != 0 {
            if !free(Dir4::East, b.x + 1, y, b.w, b.h, level, data) {
                Body { y, d3, d2, d4: 0, ..b }
            } else {
                Body { y, d3, d2, x: b.x + 1, ..b }
            }
        } else if free(Dir4::West, b.x - 1, y, b.w, b.h, level, data) {
            Body { y, d3, d2, x: b.x - 1, ..b }
        } else {
            Body { y, d3, d2, d4: 1, ..b }
        }
    } else if d2 > 199 {
        Body { y, d1: 3, d2: 0, d3: 8, ..b }
    } else {
        Body { y, d3, d2, ..b }
    }
}

/// The slam (`d1` 3): rises six ticks, then for up to a hundred ticks
/// hangs over the player (falling under gravity and closing on them);
/// after that, once on the floor, it peels off (`d1` 4).
pub open spec fn boss_slam(b: Body, px: int, level: &LevelJson, data: &GameData) -> Body {
    let d2 = b.d2 + 1;
    if b.d3 < 6 {
        Body { d2, d3: b.d3 + 1, y: b.y - 2, ..b }
    } else if d2 < 102 {
        if !free(Dir4::South, b.x, b.y + 1, b.w, b.h, level, data) {
            Body { d2, d3: 0, weighted: false, ..b }
        } else if b.x + 1 > px {
            Body { d2, weighted: true, x: if free(Dir4::West, b.x - 1, b.y, b.w, b.h, level, data) { b.x - 1 } else { b.x }, ..b }
        } else if b.x + 3 < px && free(Dir4::East, b.x + 1, b.y, b.w, b.h, level, data) {
            Body { d2, weighted: true, x: b.x + 1, ..b }
        } else {
            Body { d2, weighted: true, ..b }
        }
    } else if !free(Dir4::South, b.x, b.y + 1, b.w, b.h, level, data) || !free(Dir4::South, b.x, b.y, b.w, b.h, level, data) {
        Body { d1: 4, d2: 0, d3: 0, weighted: false, ..b }
    } else {
        Body { d2, y: b.y + 1, ..b }
    }
}

/// `ActBoss`: dying (`fall_time` counting down) it rises in smoke and wins
/// the level at the end (or at the top of the map); having taken its
/// twelve hits it falls to the floor first; otherwise its phase `d1`:
/// rising into view, hanging, bobbing across the room, slamming down on
/// the player, peeling back off the floor. The flag is the win.
pub open spec fn boss_spec(b: Body, px: int, level: &LevelJson, data: &GameData) -> (Body, Out, bool) {
    if b.fall_time > 0 {
        let ft = b.fall_time - 1;
        let y = if ft < 40 { b.y - 1 } else { b.y as int };
        let o = if ft < 40 && ft % 3 == 0 {
            quiet().decorate(SPR_SMOKE, 6, b.x, y, DIR8_NORTHWEST, 1).decorate(SPR_SMOKE, 6, b.x + 3, y, DIR8_NORTHEAST, 1)
        } else {
            quiet()
        };
        let won = ft == 1 || y <= 0;
        (Body { fall_time: ft, y, weighted: false, dead: if won { true } else { b.dead }, ..b }, o, won)
    } else if b.d5 == BOSS_HITS {
        if free(Dir4::South, b.x, b.y + 1, b.w, b.h, level, data) {
            (Body { y: b.y + 1, ..b }, quiet(), false)
        } else {
            (Body { fall_time: 80, ..b }, quiet(), false)
        }
    } else if b.d1 == 0 {
        let d2 = b.d2 + 1;
        (Body { y: b.y - 2, d2, d1: if d2 == 6 { 1 } else { b.d1 }, ..b }, quiet(), false)
    } else if b.d1 == 1 {
        if b.d2 != 0 {
            (Body { d2: b.d2 - 1, ..b }, quiet(), false)
        } else {
            (Body { d1: 2, ..b }, quiet(), false)
        }
    } else if b.d1 == 2 {
        (boss_bobbing(b, level, data), quiet(), false)
    } else if b.d1 == 3 {
        (boss_slam(b, px, level, data), quiet(), false)
    } else {
        let d2 = b.d2 + 1;
        if d2 == 6 {
            (Body { weighted: false, y: b.y - 1, d1: 2, d3: 0, d2: 0, ..b }, quiet(), false)
        } else {
            (Body { weighted: false, y: b.y - 1, d2, ..b }, quiet(), false)
        }
    }
}

fn mod14(v: i32) -> (r: i32)
    ensures
        r as int == (v as int) % 14,
        0 <= r < 14,
{
    let m = v % 14;
    if m < 0 { m + 14 } else { m }
}

fn boss_bobbing_exec(e: &Enemy, v: Vals, level: &LevelJson, data: &GameData) -> (r: Vals)
    requires
        level_wf(level),
        e.bounded(),
        v == e.vals_spec(),
    ensures
        with_vals(e.body(), r) == boss_bobbing(e.body(), level, data),
{
    let mut v = v;
    let (w, h) = (e.width_tiles, e.height_tiles);
    let step = boss_bob_exec(mod14(v.d3));
    let fb = free_at(Dir4::South, v.x, v.y + step, w, h, level, data);
    if !fb && step == 2 {
        v.y = v.y - 2;
    } else if !fb && step == 1 {
        v.y = v.y - 1;
    } else {
        v.y = v.y + step;
    }
    v.d3 = v.d3 + 1;
    v.d2 = v.d2 + 1;
    if v.d2 > 30 && v.d2 < 201 {
        if v.d4 != 0 {
            if !free_at(Dir4::East, v.x + 1, v.y, w, h, level, data) {
                v.d4 = 0;
            } else {
                v.x = v.x + 1;
            }
        } else if free_at(Dir4::West, v.x - 1, v.y, w, h, level, data) {
            v.x = v.x - 1;
        } else {
            v.d4 = 1;
        }
    } else if v.d2 > 199 {
        v.d1 = 3;
        v.d2 = 0;
        v.d3 = 8;
    }
    v
}

fn boss_slam_exec(e: &Enemy, v: Vals, px: i32, level: &LevelJson, data: &GameData) -> (r: Vals)
    requires
        level_wf(level),
        e.bounded(),
        v == e.vals_spec(),
    ensures
        with_vals(e.body(), r) == boss_slam(e.body(), px as int, level, data),
{
    let mut v = v;
    let (w, h) = (e.width_tiles, e.height_tiles);
    v.d2 = v.d2 + 1;
    if v.d3 < 6 {
        v.d3 = v.d3 + 1;
        v.y = v.y - 2;
    } else if v.d2 < 102 {
        v.weighted = true;
        if !free_at(Dir4::South, v.x, v.y + 1, w, h, level, data) {
            v.d3 = 0;
            v.weighted = false;
        } else if v.x + 1 > px {
            if free_at(Dir4::West, v.x - 1, v.y, w, h, level, data) {
                v.x = v.x - 1;
            }
        } else if v.x + 3 < px && free_at(Dir4::East, v.x + 1, v.y, w, h, level, data) {
            v.x = v.x + 1;
        }
    } else if !free_at(Dir4::South, v.x, v.y + 1, w, h, level, data) || !free_at(Dir4::South, v.x, v.y, w, h, level, data) {
        v.d1 = 4;
        v.d2 = 0;
        v.d3 = 0;
        v.weighted = false;
    } else {
        v.y = v.y + 1;
    }
    v
}

fn boss_step(e: &Enemy, px: i32, level: &LevelJson, data: &GameData) -> (r: (Vals, Queued, bool))
    requires
        level_wf(level),
        e.bounded(),
    ensures
        with_vals(e.body(), r.0) == boss_spec(e.body(), px as int, level, data).0,
        r.1@ == boss_spec(e.body(), px as int, level, data).1,
        r.2 == boss_spec(e.body(), px as int, level, data).2,
        r.1.score == 0,
{
    let mut v = e.vals();
    let mut q = Queued::new();
    if v.fall_time > 0 {
        v.fall_time = v.fall_time - 1;
        if v.fall_time < 40 {
            v.y = v.y - 1;
        }
        v.weighted = false;
        if v.fall_time < 40 && v.fall_time % 3 == 0 {
            q.decorations.push((SPR_SMOKE, 6, v.x, v.y, DIR8_NORTHWEST, 1));
            q.decorations.push((SPR_SMOKE, 6, v.x + 3, v.y, DIR8_NORTHEAST, 1));
        }
        if v.fall_time == 1 || v.y <= 0 {
            v.dead = true;
            return (v, q, true);
        }
        return (v, q, false);
    }
    if v.d5 == BOSS_HITS {
        if free_at(Dir4::South, v.x, v.y + 1, e.width_tiles, e.height_tiles, level, data) {
            v.y = v.y + 1;
        } else {
            v.fall_time = 80;
        }
        return (v, q, false);
    }
    if v.d1 == 0 {
        v.y = v.y - 2;
        v.d2 = v.d2 + 1;
        if v.d2 == 6 {
            v.d1 = 1;
        }
    } else if v.d1 == 1 {
        if v.d2 != 0 {
            v.d2 = v.d2 - 1;
        } else {
            v.d1 = 2;
        }
    } else if v.d1 == 2 {
        v = boss_bobbing_exec(e, v, level, data);
    } else if v.d1 == 3 {
        v = boss_slam_exec(e, v, px, level, data);
    } else {
        v.weighted = false;
        v.y = v.y - 1;
        v.d2 = v.d2 + 1;
        if v.d2 == 6 {
            v.d1 = 2;
            v.d3 = 0;
            v.d2 = 0;
        }
    }
    (v, q, false)
}

/// `ActBoss`, one tick; true when its death sequence has won the level.
pub fn tick_boss(e: &mut Enemy, player: &Player, level: &LevelJson, data: &GameData) -> (won: bool)
    requires
        level_wf(level),
        old(e).bounded(),
    ensures
        ({
            let s = boss_spec(old(e).body(), player.x as int, level, data);
            &&& final(e).stepped(old(e), (s.0, s.1))
            &&& won == s.2
        }),
{
    let (v, q, won) = boss_step(e, player.x, level, data);
    e.finish(v, q);
    won
}

/// A pounce landing on the boss: each hit (with its sound and a cry) knocks
/// it back into its bobbing phase, the fourth knocks a piece off, and none
/// counts while it is dying or already beaten.
pub open spec fn pounce_boss_spec(b: Body) -> (Body, Out) {
    if b.fall_time > 0 || b.d5 >= BOSS_HITS {
        (b, quiet())
    } else {
        let d5 = b.d5 + 1;
        let o = quiet().sound(snd::BOSS_DAMAGE).say(ACT_SPEECH_WHOA);
        let o2 = if d5 == 4 { o.shard(SPR_BOSS, 1, b.x, b.y - 4) } else { o };
        if b.d1 != 2 {
            (Body { d5, d1: 2, d2: 31, d3: 0, d4: 1, weighted: false, ..b }, o2)
        } else {
            (Body { d5, ..b }, o2)
        }
    }
}

fn pounce_boss_step(e: &Enemy) -> (r: (Vals, Queued))
    requires
        e.bounded(),
    ensures
        with_vals(e.body(), r.0) == pounce_boss_spec(e.body()).0,
        r.1@ == pounce_boss_spec(e.body()).1,
        r.1.score == 0,
{
    let mut v = e.vals();
    let mut q = Queued::new();
    if v.fall_time > 0 || v.d5 >= BOSS_HITS {
        return (v, q);
    }
    v.d5 = v.d5 + 1;
    q.sounds.push(snd::BOSS_DAMAGE);
    q.bubble = Some(ACT_SPEECH_WHOA);
    if v.d5 == 4 {
        q.shards.push((SPR_BOSS, 1, v.x, v.y - 4));
    }
    if v.d1 != 2 {
        v.d1 = 2;
        v.d2 = 31;
        v.d3 = 0;
        v.d4 = 1;
        v.weighted = false;
    }
    (v, q)
}

pub fn pounce_boss(e: &mut Enemy)
    requires
        old(e).bounded(),
    ensures
        final(e).stepped(old(e), pounce_boss_spec(old(e).body())),
{
    let (v, q) = pounce_boss_step(e);
    e.finish(v, q);
}

} // verus!
