//! The behaviours that need nothing but their own state (and at most where
//! the player stands): animations, timers and fixed paths.
use vstd::prelude::*;
use crate::effects::{DIR8_NORTH, DIR8_NORTHEAST, DIR8_NORTHWEST};
use crate::enemy_ai::{
    lemma_push_as_add, lemma_untouched_queues,
    flip, quiet, Body, Enemy, Out, ACT_PROJECTILE_E, ACT_PROJECTILE_W, DIR2_WEST, SPR_SMOKE,
};
use crate::player::Player;
use crate::sfx::snd;

verus! {


/// `ActJumpPad`: shows the pressed frame while `d1` counts down; a pad
/// that moves (`d5`) sits at `d3` released and `d4` pressed.
pub open spec fn jump_pad_spec(b: Body) -> (Body, Out) {
    let (frame, d1) = if b.d1 > 0 { (1int, b.d1 - 1) } else { (0int, b.d1) };
    let y = if b.d5 != 0 { if frame == 0 { b.d3 } else { b.d4 } } else { b.y };
    (Body { frame, d1, y, ..b }, quiet())
}

pub fn tick_jump_pad(e: &mut Enemy)
    requires
        old(e).bounded(),
    ensures
        final(e).stepped(old(e), jump_pad_spec(old(e).body())),
{
    proof {
        lemma_untouched_queues(old(e));
    }
    if e.d1 > 0 {
        e.frame = 1;
        e.d1 = e.d1 - 1;
    } else {
        e.frame = 0;
    }
    if e.d5 != 0 {
        e.y = if e.frame == 0 { e.d3 } else { e.d4 };
    }
}

/// `ActMoon`: on every second tick, steps a two-frame bob, using the pair
/// that faces the player.
pub open spec fn moon_spec(b: Body, px: int) -> (Body, Out) {
    let d3 = flip(b.d3);
    if d3 != 0 {
        (Body { d3, ..b }, quiet())
    } else {
        let d2 = b.d2 + 1;
        let frame = if b.x < px { d2 % 2 + 2 } else { d2 % 2 };
        (Body { d3, d2, frame, ..b }, quiet())
    }
}

pub fn tick_moon(e: &mut Enemy, player: &Player)
    requires
        old(e).bounded(),
    ensures
        final(e).stepped(old(e), moon_spec(old(e).body(), player.x as int)),
{
    proof {
        lemma_untouched_queues(old(e));
    }
    e.d3 = if e.d3 == 0 { 1 } else { 0 };
    if e.d3 != 0 {
        return;
    }
    e.d2 = e.d2 + 1;
    let m: i32 = if e.d2 % 2 == 0 { 0 } else { 1 };
    proof {
        assert(m as int == (e.d2 as int) % 2) by (nonlinear_arith)
            requires
                m == (if e.d2 % 2 == 0 { 0i32 } else { 1i32 }),
        {
        }
    }
    e.frame = if e.x < player.x { (m + 2) as usize } else { m as usize };
}

/// `ActSmallFlame`: a six-frame loop.
pub open spec fn small_flame_spec(b: Body) -> (Body, Out) {
    let f = b.frame + 1;
    (Body { frame: if f == 6 { 0 } else { f }, ..b }, quiet())
}

pub fn tick_small_flame(e: &mut Enemy)
    requires
        old(e).bounded(),
    ensures
        final(e).stepped(old(e), small_flame_spec(old(e).body())),
{
    proof {
        lemma_untouched_queues(old(e));
    }
    e.frame = e.frame + 1;
    if e.frame == 6 {
        e.frame = 0;
    }
}

/// The flame's sixteen-step burn, as frames.
pub open spec fn flame_frames(i: int) -> int {
    if i < 8 {
        i % 2
    } else if i < 14 {
        2 + i % 2
    } else if i == 14 {
        1
    } else {
        0
    }
}

/// `ActFlamePulse`: burns through sixteen frames (puffing smoke at its
/// peak), then hides for thirty ticks.
pub open spec fn flame_pulse_spec(b: Body) -> (Body, Out) {
    let out = if b.frame == 8 {
        quiet().decorate(SPR_SMOKE, 6, b.x, b.y - 2, DIR8_NORTH, 1)
    } else {
        quiet()
    };
    if b.d1 == 0 {
        let i = if b.d2 < 0 { 0 } else if b.d2 > 15 { 15 } else { b.d2 };
        let d2 = b.d2 + 1;
        let (d1, d2b) = if d2 == 16 { (30int, 0int) } else { (b.d1, d2) };
        (Body { frame: flame_frames(i), d1, d2: d2b, ..b }, out)
    } else {
        (Body { d1: b.d1 - 1, ..b }, out)
    }
}

fn flame_frame_exec(i: i32) -> (r: usize)
    requires
        0 <= i <= 15,
    ensures
        r == flame_frames(i as int),
{
    if i < 8 {
        (i % 2) as usize
    } else if i < 14 {
        (2 + i % 2) as usize
    } else if i == 14 {
        1
    } else {
        0
    }
}

pub fn tick_flame_pulse(e: &mut Enemy)
    requires
        old(e).bounded(),
    ensures
        final(e).stepped(old(e), flame_pulse_spec(old(e).body())),
{
    proof {
        lemma_untouched_queues(old(e));
        lemma_push_as_add(old(e).decorations@, (SPR_SMOKE, 6usize, old(e).x, (old(e).y - 2) as i32, DIR8_NORTH, 1u32));
    }
    if e.frame == 8 {
        e.decorations.push((SPR_SMOKE, 6, e.x, e.y - 2, DIR8_NORTH, 1));
    }
    if e.d1 == 0 {
        let i = if e.d2 < 0 { 0 } else if e.d2 > 15 { 15 } else { e.d2 };
        e.frame = flame_frame_exec(i);
        e.d2 = e.d2 + 1;
        if e.d2 == 16 {
            e.d1 = 30;
            e.d2 = 0;
        }
    } else {
        e.d1 = e.d1 - 1;
    }
}

/// `ActArrowPiston`: a 32-tick cycle; it punches out over 26..28 and pulls
/// back over 29..31, toward `d5`'s side, with a sound as each move starts.
pub open spec fn arrow_piston_spec(b: Body) -> (Body, Out) {
    let d1 = if b.d1 < 31 { b.d1 + 1 } else { 0 };
    let out = if d1 == 29 || d1 == 26 { quiet().sound(snd::SPIKES_MOVE) } else { quiet() };
    let step = if b.d5 == DIR2_WEST { -1int } else { 1int };
    let x = if d1 > 28 { b.x - step } else if d1 > 25 { b.x + step } else { b.x };
    (Body { d1, x, ..b }, out)
}

pub fn tick_arrow_piston(e: &mut Enemy)
    requires
        old(e).bounded(),
    ensures
        final(e).stepped(old(e), arrow_piston_spec(old(e).body())),
{
    proof {
        lemma_untouched_queues(old(e));
        lemma_push_as_add(old(e).sounds@, snd::SPIKES_MOVE);
    }
    if e.d1 < 31 {
        e.d1 = e.d1 + 1;
    } else {
        e.d1 = 0;
    }
    if e.d1 == 29 || e.d1 == 26 {
        e.sounds.push(snd::SPIKES_MOVE);
    }
    let step: i32 = if e.d5 == DIR2_WEST { -1 } else { 1 };
    if e.d1 > 28 {
        e.x = e.x - step;
    } else if e.d1 > 25 {
        e.x = e.x + step;
    }
}

/// The piston's body after `n` ticks.
pub open spec fn piston_after(b: Body, n: nat) -> Body
    decreases n,
{
    if n == 0 { b } else { piston_after(arrow_piston_spec(b).0, (n - 1) as nat) }
}

/// How far out (toward the side it faces) the piston stands at phase `d`.
pub open spec fn piston_reach(d: int) -> int {
    if d == 26 || d == 30 { 1 } else if d == 27 || d == 29 { 2 } else if d == 28 { 3 } else { 0 }
}

/// The tile the piston is anchored to, whatever its phase.
pub open spec fn piston_anchor(b: Body) -> int {
    b.x - (if b.d5 == DIR2_WEST { -1int } else { 1int }) * piston_reach(b.d1)
}

proof fn lemma_piston_after_n(b: Body, n: nat)
    requires
        0 <= b.d1 <= 31,
    ensures
        piston_after(b, n).d1 == (b.d1 + n) % 32,
        piston_anchor(piston_after(b, n)) == piston_anchor(b),
        piston_after(b, n).d5 == b.d5,
    decreases n,
{
    if n > 0 {
        let b1 = arrow_piston_spec(b).0;
        lemma_piston_after_n(b1, (n - 1) as nat);
        assert(b1.d1 == (b.d1 + 1) % 32);
        assert((b1.d1 + (n - 1)) % 32 == (b.d1 + n) % 32) by {
            vstd::arithmetic::div_mod::lemma_add_mod_noop(b.d1 + 1, n - 1, 32);
            vstd::arithmetic::div_mod::lemma_mod_twice(b.d1 + 1, 32);
            vstd::arithmetic::div_mod::lemma_add_mod_noop(b1.d1, n - 1, 32);
        }
    }
}

/// The piston's cycle is closed: from any phase, thirty-two ticks later it
/// is back on the same tile in the same phase, so it never walks off; and
/// it never stands more than three tiles from its anchor.
pub proof fn lemma_piston_cycle_is_closed(b: Body, n: nat)
    requires
        0 <= b.d1 <= 31,
    ensures
        piston_after(b, 32).x == b.x,
        piston_after(b, 32).d1 == b.d1,
        -3 <= piston_after(b, n).x - piston_anchor(b) <= 3,
{
    lemma_piston_after_n(b, 32);
    lemma_piston_after_n(b, n);
    assert((b.d1 + 32) % 32 == b.d1) by {
        vstd::arithmetic::div_mod::lemma_mod_add_multiples_vanish(b.d1, 32);
        vstd::arithmetic::div_mod::lemma_small_mod(b.d1 as nat, 32);
    }
}

/// `ActPipeEnd`: the outlet (`d2` zero) is inert; the inlet flickers.
pub open spec fn pipe_end_spec(b: Body) -> (Body, Out) {
    if b.d2 == 0 {
        (b, quiet())
    } else {
        let d1 = b.d1 + 1;
        let d3 = b.d3 + 1;
        let frame = if d3 % 2 != 0 { 4int } else { 0int };
        (Body { d1: if d1 == 4 { 1 } else { d1 }, d3, frame, ..b }, quiet())
    }
}

pub fn tick_pipe_end(e: &mut Enemy)
    requires
        old(e).bounded(),
    ensures
        final(e).stepped(old(e), pipe_end_spec(old(e).body())),
{
    proof {
        lemma_untouched_queues(old(e));
    }
    if e.d2 == 0 {
        return;
    }
    e.d1 = e.d1 + 1;
    e.d3 = e.d3 + 1;
    e.frame = if e.d3 % 2 != 0 { 4 } else { 0 };
    if e.d1 == 4 {
        e.d1 = 1;
    }
}

/// `ActHeartPlant`'s counters: it arms when the player stands right above
/// it, then every second tick steps a frame (lurching a column west on the
/// first, back on the second) and closes on the third.
pub open spec fn heart_core(d1: int, d2: int, frame: int, x: int, y: int, px: int, py: int) -> (int, int, int, int, bool) {
    let d1a = if d1 == 0 && y > py && x == px { 1 } else { d1 };
    let active = d1a == 1;
    let d2a = if active { d2 + 1 } else { d2 };
    let fire = active && d2a == 2;
    let f = frame + 1;
    let closing = fire && f == 3;
    let frame2 = if fire { if closing { 0 } else { f } } else { frame };
    let opens = fire && frame2 == 1;
    (
        if closing { 0 } else { d1a },
        if fire { 0 } else { d2a },
        frame2,
        if opens { x - 1 } else if fire && frame2 == 2 { x + 1 } else { x },
        opens,
    )
}

/// `ActHeartPlant`: snaps open when the player is directly above it, then
/// closes again, with a sound as it opens.
pub open spec fn heart_plant_spec(b: Body, px: int, py: int) -> (Body, Out) {
    let c = heart_core(b.d1, b.d2, b.frame, b.x, b.y, px, py);
    (
        Body { d1: c.0, d2: c.1, frame: c.2, x: c.3, ..b },
        if c.4 { quiet().sound(snd::PLANT_MOUTH_OPEN) } else { quiet() },
    )
}

fn heart_core_exec(d1: i32, d2: i32, frame: usize, x: i32, y: i32, px: i32, py: i32) -> (r: (i32, i32, usize, i32, bool))
    requires
        -0x4000_0000 <= d2 <= 0x4000_0000,
        frame <= 0x4000_0000,
        -0x4000_0000 <= x <= 0x4000_0000,
    ensures
        (r.0 as int, r.1 as int, r.2 as int, r.3 as int, r.4) == heart_core(d1 as int, d2 as int, frame as int, x as int, y as int, px as int, py as int),
{
    let d1a = if d1 == 0 && y > py && x == px { 1 } else { d1 };
    let active = d1a == 1;
    let d2a = if active { d2 + 1 } else { d2 };
    let fire = active && d2a == 2;
    let f = frame + 1;
    let closing = fire && f == 3;
    let frame2 = if fire { if closing { 0 } else { f } } else { frame };
    let opens = fire && frame2 == 1;
    (
        if closing { 0 } else { d1a },
        if fire { 0 } else { d2a },
        frame2,
        if opens { x - 1 } else if fire && frame2 == 2 { x + 1 } else { x },
        opens,
    )
}

/// The plant's body after a tick for each of the player positions in
/// `players`, in order.
pub open spec fn heart_after(b: Body, players: Seq<(int, int)>) -> Body
    decreases players.len(),
{
    if players.len() == 0 {
        b
    } else {
        let prev = heart_after(b, players.drop_last());
        heart_plant_spec(prev, players.last().0, players.last().1).0
    }
}

/// The plant's lurch cancels: wherever the player goes, it stays on its
/// three frames and its column is its home column, or one west of it on
/// the frame that lurches, so it never crawls across the level.
pub proof fn lemma_heart_plant_never_drifts(b: Body, players: Seq<(int, int)>)
    requires
        0 <= b.frame <= 2,
    ensures
        0 <= heart_after(b, players).frame <= 2,
        heart_after(b, players).x + (if heart_after(b, players).frame == 1 { 1int } else { 0int })
            == b.x + (if b.frame == 1 { 1int } else { 0int }),
    decreases players.len(),
{
    if players.len() > 0 {
        lemma_heart_plant_never_drifts(b, players.drop_last());
    }
}

pub fn tick_heart_plant(e: &mut Enemy, player: &Player)
    requires
        old(e).bounded(),
    ensures
        final(e).stepped(old(e), heart_plant_spec(old(e).body(), player.x as int, player.y as int)),
{
    proof {
        lemma_untouched_queues(old(e));
        lemma_push_as_add(old(e).sounds@, snd::PLANT_MOUTH_OPEN);
    }
    let c = heart_core_exec(e.d1, e.d2, e.frame, e.x, e.y, player.x, player.y);
    e.d1 = c.0;
    e.d2 = c.1;
    e.frame = c.2;
    e.x = c.3;
    if c.4 {
        e.sounds.push(snd::PLANT_MOUTH_OPEN);
    }
}

/// The crusher's step for a frame: one, two, then four rows.
pub open spec fn crusher_step(frame: int) -> int {
    if frame == 1 { 1 } else if frame == 2 { 2 } else { 4 }
}

/// `ActTwoTonsCrusher`'s counters: `d1` the timer (the drop starts at
/// nineteen), `d2` the phase (1 dropping, 2 climbing), `d3` the step. The
/// flag is the impact at the bottom.
pub open spec fn two_tons_core(d1: int, d2: int, d3: int, frame: int, y: int) -> (int, int, int, int, int, bool) {
    let d1a = if d1 < 20 { d1 + 1 } else { d1 };
    let d2a = if d1a == 19 { 1 } else { d2 };
    let dropping = d2a == 1 && frame < 3;
    let hit = d2a == 1 && frame >= 3;
    let f1 = if dropping { frame + 1 } else { frame };
    let d3a = if dropping { crusher_step(f1) } else { d3 };
    let y1 = if dropping { y + d3a } else { y };
    let d2b = if hit { 2 } else { d2a };
    let climbing = d2b == 2 && f1 > 0;
    let resting = d2b == 2 && f1 <= 0;
    let f2 = if climbing { f1 - 1 } else { f1 };
    let d3b = if climbing { if f2 == 0 { 1 } else if f2 == 1 { 2 } else { 4 } } else if resting { 0 } else { d3a };
    let y2 = if climbing { y1 - d3b } else { y1 };
    (
        if resting { 0 } else { d1a },
        if resting { 0 } else { d2b },
        d3b,
        f2,
        y2,
        hit,
    )
}

/// `ActTwoTonsCrusher`: drops on a twenty-tick timer, accelerating 1/2/4
/// rows over three frames, and climbs back the same way.
pub open spec fn two_tons_spec(b: Body) -> (Body, Out) {
    let c = two_tons_core(b.d1, b.d2, b.d3, b.frame, b.y);
    (
        Body { d1: c.0, d2: c.1, d3: c.2, frame: c.3, y: c.4, ..b },
        if c.5 { quiet().sound(snd::OBJECT_HIT) } else { quiet() },
    )
}

fn two_tons_core_exec(d1: i32, d2: i32, d3: i32, frame: usize, y: i32) -> (r: (i32, i32, i32, usize, i32, bool))
    requires
        -0x4000_0000 <= d1 <= 0x4000_0000,
        frame <= 0x4000_0000,
        -0x4000_0000 <= y <= 0x4000_0000,
    ensures
        (r.0 as int, r.1 as int, r.2 as int, r.3 as int, r.4 as int, r.5) == two_tons_core(d1 as int, d2 as int, d3 as int, frame as int, y as int),
{
    let d1a = if d1 < 20 { d1 + 1 } else { d1 };
    let d2a = if d1a == 19 { 1 } else { d2 };
    let dropping = d2a == 1 && frame < 3;
    let hit = d2a == 1 && frame >= 3;
    let f1 = if dropping { frame + 1 } else { frame };
    let d3a = if dropping { if f1 == 1 { 1 } else if f1 == 2 { 2 } else { 4 } } else { d3 };
    let y1 = if dropping { y + d3a } else { y };
    let d2b = if hit { 2 } else { d2a };
    let climbing = d2b == 2 && f1 > 0;
    let resting = d2b == 2 && f1 == 0;
    let f2 = if climbing { f1 - 1 } else { f1 };
    let d3b = if climbing { if f2 == 0 { 1 } else if f2 == 1 { 2 } else { 4 } } else if resting { 0 } else { d3a };
    let y2 = if climbing { y1 - d3b } else { y1 };
    (
        if resting { 0 } else { d1a },
        if resting { 0 } else { d2b },
        d3b,
        f2,
        y2,
        hit,
    )
}

pub fn tick_two_tons_crusher(e: &mut Enemy)
    requires
        old(e).bounded(),
    ensures
        final(e).stepped(old(e), two_tons_spec(old(e).body())),
{
    proof {
        lemma_untouched_queues(old(e));
        lemma_push_as_add(old(e).sounds@, snd::OBJECT_HIT);
    }
    let c = two_tons_core_exec(e.d1, e.d2, e.d3, e.frame, e.y);
    e.d1 = c.0;
    e.d2 = c.1;
    e.d3 = c.2;
    e.frame = c.3;
    e.y = c.4;
    if c.5 {
        e.sounds.push(snd::OBJECT_HIT);
    }
}

/// The crusher's body after `n` ticks.
pub open spec fn crusher_after(b: Body, n: nat) -> Body
    decreases n,
{
    if n == 0 { b } else { crusher_after(two_tons_spec(b).0, (n - 1) as nat) }
}

/// How far below its resting row the crusher hangs at animation frame `f`.
pub open spec fn crusher_depth(f: int) -> int {
    if f == 1 { 1 } else if f == 2 { 3 } else if f == 3 { 7 } else { 0 }
}

/// The crusher's drop and climb cancel: from any state on its four frames,
/// it stays on those frames and its resting row never changes, so it
/// hangs at most seven rows below it and never walks down the screen.
pub proof fn lemma_crusher_never_drifts(b: Body, n: nat)
    requires
        0 <= b.frame <= 3,
    ensures
        0 <= crusher_after(b, n).frame <= 3,
        crusher_after(b, n).y - crusher_depth(crusher_after(b, n).frame) == b.y - crusher_depth(b.frame),
        b.y - crusher_depth(b.frame) <= crusher_after(b, n).y <= b.y - crusher_depth(b.frame) + 7,
    decreases n,
{
    if n > 0 {
        lemma_crusher_never_drifts(two_tons_spec(b).0, (n - 1) as nat);
    }
}

/// `ActFlyingWisp`: a 64-tick loop: still, a slow climb, then a faster
/// drop back.
pub open spec fn wisp_spec(b: Body) -> (Body, Out) {
    let frame = flip(b.frame);
    let d1 = if b.d1 < 63 { b.d1 + 1 } else { 0 };
    let y = if d1 > 50 {
        if d1 < 55 { b.y + 1 } else { b.y + 2 }
    } else if d1 > 34 {
        b.y - (if d1 < 47 { 1int } else { 0int }) - (if d1 < 45 { 1int } else { 0int })
    } else {
        b.y
    };
    (Body { frame, d1, y, ..b }, quiet())
}

pub fn tick_flying_wisp(e: &mut Enemy)
    requires
        old(e).bounded(),
    ensures
        final(e).stepped(old(e), wisp_spec(old(e).body())),
{
    proof {
        lemma_untouched_queues(old(e));
    }
    let frame: usize = if e.frame == 0 { 1 } else { 0 };
    let d1 = if e.d1 < 63 { e.d1 + 1 } else { 0 };
    let y = if d1 > 50 {
        if d1 < 55 { e.y + 1 } else { e.y + 2 }
    } else if d1 > 34 {
        e.y - (if d1 < 47 { 1i32 } else { 0i32 }) - (if d1 < 45 { 1i32 } else { 0i32 })
    } else {
        e.y
    };
    e.frame = frame;
    e.d1 = d1;
    e.y = y;
}

/// The wisp's body after `n` ticks.
pub open spec fn wisp_after(b: Body, n: nat) -> Body
    decreases n,
{
    if n == 0 { b } else { wisp_after(wisp_spec(b).0, (n - 1) as nat) }
}

/// How far above its resting row the wisp flies at phase `d`.
pub open spec fn wisp_height(d: int) -> int {
    if d <= 34 {
        0
    } else if d <= 44 {
        2 * (d - 34)
    } else if d == 45 {
        21
    } else if d <= 50 {
        22
    } else if d <= 54 {
        22 - (d - 50)
    } else {
        18 - 2 * (d - 54)
    }
}

proof fn lemma_wisp_after_n(b: Body, n: nat)
    requires
        0 <= b.d1 <= 63,
    ensures
        wisp_after(b, n).d1 == (b.d1 + n) % 64,
        wisp_after(b, n).y + wisp_height(wisp_after(b, n).d1) == b.y + wisp_height(b.d1),
    decreases n,
{
    if n > 0 {
        let b1 = wisp_spec(b).0;
        lemma_wisp_after_n(b1, (n - 1) as nat);
        assert(b1.d1 == (b.d1 + 1) % 64);
        assert((b1.d1 + (n - 1)) % 64 == (b.d1 + n) % 64) by {
            vstd::arithmetic::div_mod::lemma_add_mod_noop(b.d1 + 1, n - 1, 64);
            vstd::arithmetic::div_mod::lemma_mod_twice(b.d1 + 1, 64);
            vstd::arithmetic::div_mod::lemma_add_mod_noop(b1.d1, n - 1, 64);
        }
    }
}

/// The wisp's flight is a closed loop: from any phase, sixty-four ticks
/// later it is back on the same row in the same phase, and it never
/// climbs more than twenty-two rows above where it rests.
pub proof fn lemma_wisp_loop_is_closed(b: Body, n: nat)
    requires
        0 <= b.d1 <= 63,
    ensures
        wisp_after(b, 64).y == b.y,
        wisp_after(b, 64).d1 == b.d1,
        0 <= b.y + wisp_height(b.d1) - wisp_after(b, n).y <= 22,
{
    lemma_wisp_after_n(b, 64);
    lemma_wisp_after_n(b, n);
    assert((b.d1 + 64) % 64 == b.d1) by {
        vstd::arithmetic::div_mod::lemma_mod_add_multiples_vanish(b.d1, 64);
        vstd::arithmetic::div_mod::lemma_small_mod(b.d1 as nat, 64);
    }
    let d = wisp_after(b, n).d1;
    assert(0 <= d < 64);
}

/// `ActSpittingWallPlant`: a fifty-tick cycle that opens at 42 and spits
/// at 45, clear of its own tiles on the side `d5` faces.
pub open spec fn wall_plant_spec(b: Body) -> (Body, Out) {
    let d4 = b.d4 + 1;
    let (d4b, f0) = if d4 == 50 { (0int, 0int) } else { (d4, b.frame) };
    let f1 = if d4b == 42 { 1int } else { f0 };
    if d4b == 45 {
        let out = if b.d5 == 0 {
            quiet().spawn(ACT_PROJECTILE_W, b.x - 1, b.y - 1)
        } else {
            quiet().spawn(ACT_PROJECTILE_E, b.x + 4, b.y - 1)
        };
        (Body { d4: d4b, frame: 2, ..b }, out)
    } else {
        (Body { d4: d4b, frame: f1, ..b }, quiet())
    }
}

pub fn tick_spitting_wall_plant(e: &mut Enemy)
    requires
        old(e).bounded(),
    ensures
        final(e).stepped(old(e), wall_plant_spec(old(e).body())),
{
    proof {
        lemma_untouched_queues(old(e));
        lemma_push_as_add(old(e).spawns@, (ACT_PROJECTILE_W, (old(e).x - 1) as i32, (old(e).y - 1) as i32));
        lemma_push_as_add(old(e).spawns@, (ACT_PROJECTILE_E, (old(e).x + 4) as i32, (old(e).y - 1) as i32));
    }
    e.d4 = e.d4 + 1;
    if e.d4 == 50 {
        e.d4 = 0;
        e.frame = 0;
    }
    if e.d4 == 42 {
        e.frame = 1;
    }
    if e.d4 == 45 {
        e.frame = 2;
        if e.d5 == 0 {
            e.spawns.push((ACT_PROJECTILE_W, e.x - 1, e.y - 1));
        } else {
            e.spawns.push((ACT_PROJECTILE_E, e.x + 4, e.y - 1));
        }
    }
}

/// The bullet's sixteen-step arc, as per-tick row offsets.
pub open spec fn bullet_arc(i: int) -> int {
    if i < 4 {
        -2
    } else if i < 7 {
        -1
    } else if i < 9 {
        0
    } else if i < 12 {
        1
    } else {
        2
    }
}

fn bullet_arc_exec(i: usize) -> (r: i32)
    requires
        i < 16,
    ensures
        r == bullet_arc(i as int),
{
    if i < 4 {
        -2
    } else if i < 7 {
        -1
    } else if i < 9 {
        0
    } else if i < 12 {
        1
    } else {
        2
    }
}

/// `ActJumpingBullet`: hops along a fixed arc, reversing at the end of
/// each one.
pub open spec fn jumping_bullet_spec(b: Body) -> (Body, Out) {
    let x = if b.d2 == DIR2_WEST { b.x - 1 } else { b.x + 1 };
    let y = b.y + bullet_arc(((b.d3 as usize) % 16) as int);
    let d3 = b.d3 + 1;
    if d3 == 16 {
        (Body { x, y, d2: flip(b.d2), d3: 0, ..b }, quiet())
    } else {
        (Body { x, y, d3, ..b }, quiet())
    }
}

/// The bullet's body after `n` ticks.
pub open spec fn bullet_after(b: Body, n: nat) -> Body
    decreases n,
{
    if n == 0 { b } else { jumping_bullet_spec(bullet_after(b, (n - 1) as nat)).0 }
}

/// How far the first `d` steps of the arc have moved the bullet down.
pub open spec fn bullet_rise(d: int) -> int {
    if d <= 4 {
        -2 * d
    } else if d <= 7 {
        -8 - (d - 4)
    } else if d <= 9 {
        -11
    } else if d <= 12 {
        -11 + (d - 9)
    } else {
        -8 + 2 * (d - 12)
    }
}

proof fn lemma_bullet_partway(b: Body, k: nat)
    requires
        b.d3 == 0,
        k < 16,
    ensures
        bullet_after(b, k).d3 == k,
        bullet_after(b, k).d2 == b.d2,
        bullet_after(b, k).x == (if b.d2 == DIR2_WEST { b.x - k } else { b.x + k }),
        bullet_after(b, k).y == b.y + bullet_rise(k as int),
    decreases k,
{
    if k > 0 {
        let j = (k - 1) as nat;
        lemma_bullet_partway(b, j);
        let prev = bullet_after(b, j);
        assert(((prev.d3 as usize) % 16) as int == j);
        assert(bullet_after(b, k) == jumping_bullet_spec(prev).0);
        let kk = k as int;
        assert(bullet_rise(kk) == bullet_rise(kk - 1) + bullet_arc(kk - 1)) by {
            if kk <= 4 {
            } else if kk <= 7 {
            } else if kk <= 9 {
            } else if kk <= 12 {
            } else {
            }
        }
    }
}

/// One hop is a closed arc: starting a hop, sixteen ticks later the
/// bullet is back on its row, sixteen columns along the way it was going,
/// and turned around.
pub proof fn lemma_bullet_hop_is_closed(b: Body)
    requires
        b.d3 == 0,
    ensures
        bullet_after(b, 16).y == b.y,
        bullet_after(b, 16).x == b.x + (if b.d2 == DIR2_WEST { -16int } else { 16int }),
        bullet_after(b, 16).d2 == flip(b.d2),
        bullet_after(b, 16).d3 == 0,
{
    lemma_bullet_partway(b, 15);
}

pub fn tick_jumping_bullet(e: &mut Enemy)
    requires
        old(e).bounded(),
    ensures
        final(e).stepped(old(e), jumping_bullet_spec(old(e).body())),
{
    proof {
        lemma_untouched_queues(old(e));
    }
    if e.d2 == DIR2_WEST {
        e.x = e.x - 1;
    } else {
        e.x = e.x + 1;
    }
    e.y = e.y + bullet_arc_exec((e.d3 as usize) % 16);
    e.d3 = e.d3 + 1;
    if e.d3 == 16 {
        e.d2 = if e.d2 == 0 { 1 } else { 0 };
        e.d3 = 0;
    }
}

/// `ActIvyPlant`'s counters: `d2` set means sinking after a blast, `d3`
/// the idle count up to `d1`, `d4` the rows left to climb. The flag is the
/// sound the climb starts with.
pub open spec fn ivy_core(d1: int, d2: int, d3: int, d4: int, d5: int, frame: int, y: int) -> (int, int, int, int, int, int, int, bool) {
    if d2 != 0 {
        let d4a = d4 + 1;
        if d4a == 7 {
            (12, 0, 0, d4a, d5, frame, y + 1, false)
        } else {
            (d1, d2, d3, d4a, d5, frame, y + 1, false)
        }
    } else if d3 < d1 {
        (d1, d2, d3 + 1, d4, d5, frame, y, false)
    } else {
        let f = frame + 1;
        let frame2 = if f == 4 { 0 } else { f };
        if d4 != 0 {
            (d1, d2, d3, d4 - 1, flip(d5), frame2, y - 1, d4 == 7)
        } else {
            (d1, d2, d3, d4, flip(d5), frame2, y, false)
        }
    }
}

/// `ActIvyPlant`: idles for `d1` ticks, then climbs its seven rows one a
/// tick, animating; after a blast (`d2`) it sinks back down.
pub open spec fn ivy_spec(b: Body) -> (Body, Out) {
    let c = ivy_core(b.d1, b.d2, b.d3, b.d4, b.d5, b.frame, b.y);
    (
        Body { d1: c.0, d2: c.1, d3: c.2, d4: c.3, d5: c.4, frame: c.5, y: c.6, ..b },
        if c.7 { quiet().sound(snd::IVY_PLANT_RISE) } else { quiet() },
    )
}

fn ivy_core_exec(d1: i32, d2: i32, d3: i32, d4: i32, d5: i32, frame: usize, y: i32) -> (r: (i32, i32, i32, i32, i32, usize, i32, bool))
    requires
        -0x4000_0000 <= d3 <= 0x4000_0000,
        -0x4000_0000 <= d4 <= 0x4000_0000,
        frame <= 0x4000_0000,
        -0x4000_0000 <= y <= 0x4000_0000,
    ensures
        (r.0 as int, r.1 as int, r.2 as int, r.3 as int, r.4 as int, r.5 as int, r.6 as int, r.7)
            == ivy_core(d1 as int, d2 as int, d3 as int, d4 as int, d5 as int, frame as int, y as int),
{
    if d2 != 0 {
        let d4a = d4 + 1;
        if d4a == 7 {
            (12, 0, 0, d4a, d5, frame, y + 1, false)
        } else {
            (d1, d2, d3, d4a, d5, frame, y + 1, false)
        }
    } else if d3 < d1 {
        (d1, d2, d3 + 1, d4, d5, frame, y, false)
    } else {
        let f = frame + 1;
        let frame2 = if f == 4 { 0 } else { f };
        let d5b = if d5 == 0 { 1 } else { 0 };
        if d4 != 0 {
            (d1, d2, d3, d4 - 1, d5b, frame2, y - 1, d4 == 7)
        } else {
            (d1, d2, d3, d4, d5b, frame2, y, false)
        }
    }
}

pub fn tick_ivy_plant(e: &mut Enemy)
    requires
        old(e).bounded(),
    ensures
        final(e).stepped(old(e), ivy_spec(old(e).body())),
{
    proof {
        lemma_untouched_queues(old(e));
        lemma_push_as_add(old(e).sounds@, snd::IVY_PLANT_RISE);
    }
    let c = ivy_core_exec(e.d1, e.d2, e.d3, e.d4, e.d5, e.frame, e.y);
    e.d1 = c.0;
    e.d2 = c.1;
    e.d3 = c.2;
    e.d4 = c.3;
    e.d5 = c.4;
    e.frame = c.5;
    e.y = c.6;
    if c.7 {
        e.sounds.push(snd::IVY_PLANT_RISE);
    }
}

/// `ActSmokeEmitter`: rolls one in thirty-two each tick, and on a zero
/// puffs smoke - small if `d5` says so, else large.
pub open spec fn smoke_emitter_spec(b: Body) -> (Body, Out) {
    let rng = crate::player::xorshift(b.rng);
    let d1 = crate::player::roll(rng, 32) as int;
    let out = if d1 != 0 {
        quiet()
    } else if b.d5 != 0 {
        quiet().decorate(SPR_SMOKE, 6, b.x - 1, b.y, DIR8_NORTH, 1)
    } else {
        quiet().decorate(crate::enemy_ai::SPR_SMOKE_LARGE, 6, b.x - 2, b.y, DIR8_NORTH, 1)
    };
    (Body { rng, d1, ..b }, out)
}

pub fn tick_smoke_emitter(e: &mut Enemy)
    requires
        old(e).bounded(),
    ensures
        final(e).stepped(old(e), smoke_emitter_spec(old(e).body())),
{
    proof {
        lemma_untouched_queues(old(e));
        lemma_push_as_add(old(e).decorations@, (SPR_SMOKE, 6usize, (old(e).x - 1) as i32, old(e).y, DIR8_NORTH, 1u32));
        lemma_push_as_add(old(e).decorations@, (crate::enemy_ai::SPR_SMOKE_LARGE, 6usize, (old(e).x - 2) as i32, old(e).y, DIR8_NORTH, 1u32));
    }
    e.d1 = e.next_rand(32) as i32;
    if e.d1 != 0 {
        return;
    }
    if e.d5 != 0 {
        e.decorations.push((SPR_SMOKE, 6, e.x - 1, e.y, DIR8_NORTH, 1));
    } else {
        e.decorations.push((crate::enemy_ai::SPR_SMOKE_LARGE, 6, e.x - 2, e.y, DIR8_NORTH, 1));
    }
}

} // verus!
