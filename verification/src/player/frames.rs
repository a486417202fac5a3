//! The tail of `MovePlayer`: this tick's sprite frame and the view nudges
//! of looking around; and the death sequence.
use vstd::prelude::*;
use crate::camera::{clamped, Scroll, SCROLL_H};
use crate::player::{roll, xorshift, FaceDir, Player, PlayerInput};
use crate::sfx::snd;

verus! {

/// Frame offsets within one facing's 23-frame block.
pub const WALK_1: usize = 0;
pub const WALK_4: usize = 3;
pub const STAND: usize = 4;
pub const LOOK_NORTH: usize = 5;
pub const LOOK_SOUTH: usize = 6;
pub const JUMP: usize = 7;
pub const FALL: usize = 8;
pub const CLING: usize = 9;
pub const CLING_OPPOSITE: usize = 10;
pub const CLING_NORTH: usize = 11;
pub const CLING_SOUTH: usize = 12;
pub const FALL_LONG: usize = 13;
pub const PAIN: usize = 15;
pub const FALL_SEVERE: usize = 16;
pub const STAND_BLINK: usize = 18;
pub const SHAKE_1: usize = 19;
pub const SHAKE_2: usize = 20;
pub const SHAKE_3: usize = 21;
pub const JUMP_LONG: usize = 22;
/// Shared by both facings: the two dead frames alternate from here.
pub const DEAD_1: usize = 46;

/// What the frame pass leaves for the view: follow the player, or stay
/// where looking around put it (already held inside the map).
#[derive(Clone, Copy, PartialEq, Eq, Debug, Structural)]
pub enum ViewAfter {
    Follow,
    Stay,
}

/// Looking around: up or down held while standing still on the ground.
pub open spec fn looking(p: Player, input: PlayerInput) -> bool {
    (input.look_up || input.look_down) && !input.west && !input.east && !p.is_falling && !input.jump
}

/// Looking up pans the view up a row while the player stays more than a
/// window's height minus one below its top; looking down pans it down a
/// row (two while sliding down a wall) while the player stays over three
/// rows below its top. Looking up at a hint globe reads it instead.
#[verifier::opaque]
pub open spec fn look_spec(p: Player, s: Scroll, input: PlayerInput, width: int, near_globe: bool) -> (Player, Scroll) {
    let clinging = p.cling_dir is Some;
    let p0 = Player { idle_count: 0, ..p };
    let (p1, s1) = if input.look_up && !near_globe {
        let y1 = if s.y > 0 && p.y - s.y < SCROLL_H - 1 { s.y - 1 } else { s.y as int };
        let y2 = if p.cling_slip { y1 + 1 } else { y1 };
        (Player { frame: if clinging { CLING_NORTH } else { LOOK_NORTH }, ..p0 }, Scroll { y: y2 as i32, ..s })
    } else if input.look_down {
        let y1 = if s.y + 3 < p.y {
            if p.cling_slip && s.y + 4 < p.y { s.y + 2 } else { s.y + 1 }
        } else {
            s.y as int
        };
        (Player { frame: if clinging { CLING_SOUTH } else { LOOK_SOUTH }, ..p0 }, Scroll { y: y1 as i32, ..s })
    } else {
        (p0, s)
    };
    (p1, clamped(s1, width))
}

/// The frame while airborne and not bouncing (or at the top of a jump).
pub open spec fn air_frame(p: Player) -> usize {
    if !p.is_recoiling && !p.is_falling && p.jump_time > 6 {
        FALL
    } else if p.fall_time >= 10 && p.fall_time < 25 {
        FALL_LONG
    } else if p.fall_time == 25 {
        FALL_SEVERE
    } else if !p.is_falling {
        JUMP
    } else {
        FALL
    }
}

/// The frame while bouncing or starting a jump.
pub open spec fn leap_frame(p: Player) -> usize {
    if p.is_recoiling && p.recoil_left < 3 {
        FALL
    } else if p.is_recoiling && p.recoil_left > 13 {
        JUMP_LONG
    } else {
        JUMP
    }
}

/// Idling: looking up after a hundred ticks, down after a hundred and
/// forty, a head-shake at a hundred and eighty, and the count starts over
/// at a hundred and eighty-five.
pub open spec fn idle_frame(count: u32) -> Option<usize> {
    if 101 <= count <= 109 {
        Some(LOOK_NORTH)
    } else if 140 <= count <= 149 {
        Some(LOOK_SOUTH)
    } else if count == 180 || count == 184 {
        Some(SHAKE_1)
    } else if count == 181 || count == 183 {
        Some(SHAKE_2)
    } else if count == 182 {
        Some(SHAKE_3)
    } else {
        None
    }
}

/// Standing around: the stand frame, the idle sequence while nothing is
/// held, and a blink on two rolls in fifty (never over a look).
#[verifier::opaque]
pub open spec fn stand_spec(p: Player, input: PlayerInput) -> Player {
    let rng = xorshift(p.rng);
    let rnd = roll(rng, 50);
    let idle = !input.west && !input.east && !p.is_falling;
    let count = if idle { (p.idle_count + 1) as u32 } else { p.idle_count };
    let f0 = if idle {
        match idle_frame(count) {
            Some(f) => f,
            None => STAND,
        }
    } else {
        STAND
    };
    let count2 = if idle && count == 185 { 0 } else { count };
    let f1 = if f0 != LOOK_NORTH && f0 != LOOK_SOUTH && (rnd == 0 || rnd == 31) { STAND_BLINK } else { f0 };
    Player { rng, frame: f1, idle_count: count2, ..p }
}

/// Walking: a frame every other tick, with a footstep on the odd frames,
/// cycling through the four walk frames.
#[verifier::opaque]
pub open spec fn walk_frame_spec(p: Player) -> (Player, Seq<u16>) {
    let (f, sounds) = if p.move_count % 2 != 0 {
        (p.frame + 1, if p.frame % 2 != 0 { seq![snd::PLAYER_FOOTSTEP] } else { Seq::<u16>::empty() })
    } else {
        (p.frame as int, Seq::<u16>::empty())
    };
    let f2 = if f > WALK_4 { WALK_1 as int } else { f };
    (Player { idle_count: 0, frame: f2 as usize, ..p }, sounds)
}

/// The frame chain of a tick and what the view does after it.
pub open spec fn frame_spec(p: Player, s: Scroll, input: PlayerInput, width: int, near_globe: bool) -> (Player, Scroll, Seq<u16>, ViewAfter) {
    if p.dead_timer != 0 {
        (Player { frame: (DEAD_1 + p.dead_timer % 2) as usize, ..p }, s, Seq::<u16>::empty(), ViewAfter::Stay)
    } else if looking(p, input) {
        let l = look_spec(p, s, input, width, near_globe);
        (l.0, l.1, Seq::<u16>::empty(), ViewAfter::Stay)
    } else if p.cling_dir is Some {
        let away = match p.cling_dir {
            Some(FaceDir::West) => input.east,
            _ => input.west,
        };
        (Player { idle_count: 0, frame: if away { CLING_OPPOSITE } else { CLING }, ..p }, s, Seq::<u16>::empty(), ViewAfter::Follow)
    } else if (p.is_falling && !p.is_recoiling) || (p.jump_time > 6 && !p.is_falling) {
        (Player { idle_count: 0, frame: air_frame(p), ..p }, s, Seq::<u16>::empty(), ViewAfter::Follow)
    } else if (input.jump && !p.cmd_jump_latch) || p.is_recoiling {
        (Player { idle_count: 0, frame: leap_frame(p), ..p }, s, Seq::<u16>::empty(), ViewAfter::Follow)
    } else if input.west == input.east {
        (stand_spec(p, input), s, Seq::<u16>::empty(), ViewAfter::Follow)
    } else if !p.is_falling {
        let w = walk_frame_spec(p);
        (w.0, s, w.1, ViewAfter::Follow)
    } else {
        (p, s, Seq::<u16>::empty(), ViewAfter::Follow)
    }
}

#[verifier::rlimit(30)]
fn look(p: Player, s: Scroll, input: PlayerInput, width: usize, near_globe: bool) -> (r: (Player, Scroll))
    requires
        0 < width <= 0x8000,
        -0x3000_0000 <= p.y <= 0x3000_0000,
        -0x3000_0000 <= s.y <= 0x3000_0000,
    ensures
        r == look_spec(p, s, input, width as int, near_globe),
{
    proof {
        reveal(look_spec);
    }
    let clinging = p.cling_dir.is_some();
    let p0 = Player { idle_count: 0, ..p };
    let (p1, mut s1) = if input.look_up && !near_globe {
        let y1 = if s.y > 0 && p.y - s.y < SCROLL_H - 1 { s.y - 1 } else { s.y };
        let y2 = if p.cling_slip { y1 + 1 } else { y1 };
        (Player { frame: if clinging { CLING_NORTH } else { LOOK_NORTH }, ..p0 }, Scroll { y: y2, ..s })
    } else if input.look_down {
        let y1 = if s.y + 3 < p.y {
            if p.cling_slip && s.y + 4 < p.y { s.y + 2 } else { s.y + 1 }
        } else {
            s.y
        };
        (Player { frame: if clinging { CLING_SOUTH } else { LOOK_SOUTH }, ..p0 }, Scroll { y: y1, ..s })
    } else {
        (p0, s)
    };
    s1.clamp_to(width);
    (p1, s1)
}

fn stand(p: Player, input: PlayerInput) -> (r: Player)
    requires
        p.idle_count < u32::MAX,
    ensures
        r == stand_spec(p, input),
{
    proof {
        reveal(stand_spec);
    }
    let mut q = p;
    let rnd = q.next_rand(50);
    let idle = !input.west && !input.east && !p.is_falling;
    let count = if idle { p.idle_count + 1 } else { p.idle_count };
    let f0 = if idle {
        if 101 <= count && count <= 109 {
            LOOK_NORTH
        } else if 140 <= count && count <= 149 {
            LOOK_SOUTH
        } else if count == 180 || count == 184 {
            SHAKE_1
        } else if count == 181 || count == 183 {
            SHAKE_2
        } else if count == 182 {
            SHAKE_3
        } else {
            STAND
        }
    } else {
        STAND
    };
    let count2 = if idle && count == 185 { 0 } else { count };
    let f1 = if f0 != LOOK_NORTH && f0 != LOOK_SOUTH && (rnd == 0 || rnd == 31) { STAND_BLINK } else { f0 };
    Player { frame: f1, idle_count: count2, ..q }
}

fn walk_frame(p: Player, sounds: &mut Vec<u16>) -> (r: Player)
    requires
        p.frame < usize::MAX,
    ensures
        r == walk_frame_spec(p).0,
        final(sounds)@ == old(sounds)@ + walk_frame_spec(p).1,
{
    proof {
        reveal(walk_frame_spec);
        assert(old(sounds)@ + Seq::<u16>::empty() =~= old(sounds)@);
    }
    let mut f = p.frame;
    if p.move_count % 2 != 0 {
        if p.frame % 2 != 0 {
            sounds.push(snd::PLAYER_FOOTSTEP);
        }
        f = f + 1;
    }
    if f > WALK_4 {
        f = WALK_1;
    }
    Player { idle_count: 0, frame: f, ..p }
}

fn air_frame_exec(p: &Player) -> (r: usize)
    ensures
        r == air_frame(*p),
{
    if !p.is_recoiling && !p.is_falling && p.jump_time > 6 {
        FALL
    } else if p.fall_time >= 10 && p.fall_time < 25 {
        FALL_LONG
    } else if p.fall_time == 25 {
        FALL_SEVERE
    } else if !p.is_falling {
        JUMP
    } else {
        FALL
    }
}

fn leap_frame_exec(p: &Player) -> (r: usize)
    ensures
        r == leap_frame(*p),
{
    if p.is_recoiling && p.recoil_left < 3 {
        FALL
    } else if p.is_recoiling && p.recoil_left > 13 {
        JUMP_LONG
    } else {
        JUMP
    }
}

fn frame_step(p: Player, s: Scroll, input: PlayerInput, width: usize, near_globe: bool, sounds: &mut Vec<u16>) -> (r: (Player, Scroll, ViewAfter))
    requires
        0 < width <= 0x8000,
        -0x3000_0000 <= p.y <= 0x3000_0000,
        -0x3000_0000 <= s.y <= 0x3000_0000,
        p.idle_count < u32::MAX,
        p.frame < usize::MAX,
    ensures
        ({
            let f = frame_spec(p, s, input, width as int, near_globe);
            &&& r.0 == f.0
            &&& r.1 == f.1
            &&& final(sounds)@ == old(sounds)@ + f.2
            &&& r.2 == f.3
        }),
{
    proof {
        assert(old(sounds)@ + Seq::<u16>::empty() =~= old(sounds)@);
    }
    if p.dead_timer != 0 {
        (Player { frame: DEAD_1 + (p.dead_timer % 2) as usize, ..p }, s, ViewAfter::Stay)
    } else if (input.look_up || input.look_down) && !input.west && !input.east && !p.is_falling && !input.jump {
        let l = look(p, s, input, width, near_globe);
        (l.0, l.1, ViewAfter::Stay)
    } else if p.cling_dir.is_some() {
        let away = match p.cling_dir {
            Some(FaceDir::West) => input.east,
            _ => input.west,
        };
        (Player { idle_count: 0, frame: if away { CLING_OPPOSITE } else { CLING }, ..p }, s, ViewAfter::Follow)
    } else if (p.is_falling && !p.is_recoiling) || (p.jump_time > 6 && !p.is_falling) {
        (Player { idle_count: 0, frame: air_frame_exec(&p), ..p }, s, ViewAfter::Follow)
    } else if (input.jump && !p.cmd_jump_latch) || p.is_recoiling {
        (Player { idle_count: 0, frame: leap_frame_exec(&p), ..p }, s, ViewAfter::Follow)
    } else if input.west == input.east {
        (stand(p, input), s, ViewAfter::Follow)
    } else if !p.is_falling {
        (walk_frame(p, sounds), s, ViewAfter::Follow)
    } else {
        (p, s, ViewAfter::Follow)
    }
}

/// `MovePlayer`'s frame chain for one tick: sets the frame, nudges the view
/// while looking around, and says whether the view then follows the player.
/// `near_globe` is whether the player stands at a hint globe.
pub fn update_frame_and_scroll(p: &mut Player, input: PlayerInput, width: usize, near_globe: bool, scroll: &mut Scroll, sounds: &mut Vec<u16>) -> (view: ViewAfter)
    requires
        0 < width <= 0x8000,
        -0x3000_0000 <= old(p).y <= 0x3000_0000,
        -0x3000_0000 <= old(scroll).y <= 0x3000_0000,
        old(p).idle_count < u32::MAX,
        old(p).frame < usize::MAX,
    ensures
        ({
            let f = frame_spec(*old(p), *old(scroll), input, width as int, near_globe);
            &&& *final(p) == f.0
            &&& *final(scroll) == f.1
            &&& final(sounds)@ == old(sounds)@ + f.2
            &&& view == f.3
        }),
{
    let r = frame_step(*p, *scroll, input, width, near_globe, sounds);
    *p = r.0;
    *scroll = r.1;
    r.2
}

/// The death sequence, a tick at a time. A fall out of the world holds for
/// thirty ticks with the jingle at thirteen; an ordinary death plays the
/// jingle at ten, then floats the body up (the view following for the
/// first two rows) until thirty-six. Either ends with a restart, which the
/// flag reports.
pub open spec fn death_spec(p: Player, s: Scroll) -> (Player, Scroll, Seq<u16>, bool) {
    if p.dead_timer == 0 {
        (p, s, Seq::<u16>::empty(), false)
    } else {
        let hurt = if p.dead_timer == 1 { seq![snd::PLAYER_HURT] } else { Seq::<u16>::empty() };
        let t = (p.dead_timer + 1) as u32;
        if p.fall_dead_time != 0 {
            let f = (p.fall_dead_time + 1) as u32;
            let jingle = if f == 13 { seq![snd::PLAYER_DEATH] } else { Seq::<u16>::empty() };
            if f > 30 {
                (Player { dead_timer: 0, fall_dead_time: 0, ..p }, s, hurt + jingle, true)
            } else {
                (Player { dead_timer: t, fall_dead_time: f, ..p }, s, hurt + jingle, false)
            }
        } else {
            let jingle = if t == 10 { seq![snd::PLAYER_DEATH] } else { Seq::<u16>::empty() };
            let y = if t > 10 { p.y - 1 } else { p.y as int };
            let sy = if t > 10 && s.y > 0 && t < 12 { s.y - 1 } else { s.y as int };
            let done = t > 36;
            (
                Player { dead_timer: if done { 0 } else { t }, y: y as i32, ..p },
                Scroll { y: sy as i32, ..s },
                hurt + jingle,
                done,
            )
        }
    }
}

/// Plays one tick of the death sequence; true when the level restarts.
#[verifier::rlimit(30)]
pub fn update_death(p: &mut Player, scroll: &mut Scroll, sounds: &mut Vec<u16>) -> (restart: bool)
    requires
        old(p).dead_timer < u32::MAX,
        old(p).fall_dead_time < u32::MAX,
        old(p).y > i32::MIN,
    ensures
        ({
            let d = death_spec(*old(p), *old(scroll));
            &&& *final(p) == d.0
            &&& *final(scroll) == d.1
            &&& final(sounds)@ == old(sounds)@ + d.2
            &&& restart == d.3
        }),
{
    let ghost s0 = old(sounds)@;
    proof {
        assert(s0 + Seq::<u16>::empty() =~= s0);
    }
    if p.dead_timer == 0 {
        return false;
    }
    let q = *p;
    if q.dead_timer == 1 {
        sounds.push(snd::PLAYER_HURT);
    }
    let ghost s1 = sounds@;
    let t = q.dead_timer + 1;
    if q.fall_dead_time != 0 {
        let f = q.fall_dead_time + 1;
        if f == 13 {
            sounds.push(snd::PLAYER_DEATH);
        }
        proof {
            assert(sounds@ =~= s0 + (s1.subrange(s0.len() as int, s1.len() as int) + sounds@.subrange(s1.len() as int, sounds@.len() as int)));
        }
        if f > 30 {
            *p = Player { dead_timer: 0, fall_dead_time: 0, ..q };
            return true;
        }
        *p = Player { dead_timer: t, fall_dead_time: f, ..q };
        return false;
    }
    if t == 10 {
        sounds.push(snd::PLAYER_DEATH);
    }
    proof {
        assert(sounds@ =~= s0 + (s1.subrange(s0.len() as int, s1.len() as int) + sounds@.subrange(s1.len() as int, sounds@.len() as int)));
    }
    let y = if t > 10 { q.y - 1 } else { q.y };
    let sy = if t > 10 && scroll.y > 0 && t < 12 { scroll.y - 1 } else { scroll.y };
    let done = t > 36;
    *p = Player { dead_timer: if done { 0 } else { t }, y, ..q };
    *scroll = Scroll { y: sy, ..*scroll };
    done
}

} // verus!
