//! `MovePlayer`'s movement half, one tick at a time: the head-shake, a
//! shove in progress, holding a wall, walking and sliding, the jump and
//! the recoil bounce, gravity, and falling out of the world.
//!
//! Each phase is a spec function from the state it is handed to the state
//! it leaves, and the tick is their composition.
use vstd::prelude::*;
use crate::camera::{max_scroll_y, max_scroll_y_spec, Scroll, SCROLL_H};
use crate::collide::{coord_ok, sprite_move_spec, test_sprite_move, Dir4, MoveResult};
use crate::data::{
    attr_at, attr_at_spec, flag_set, level_wf, GameData, LevelJson, TILE_ATTR_BLOCK_SOUTH,
    TILE_ATTR_CAN_CLING, TILE_ATTR_SLIPPERY, TILE_ATTR_SLOPED,
};
use crate::player::{dizzy_spec, FaceDir, Player, PlayerInput, Push, PLAYER_HEIGHT, PLAYER_WIDTH};
use crate::sfx::snd;

verus! {

/// `TestPlayerMove`: the player's 3x5 footprint, plus the rule that the
/// top rows of the map are a ceiling.
pub open spec fn pmove(dir: Dir4, x: int, y: int, level: &LevelJson, data: &GameData) -> MoveResult {
    if dir == Dir4::North && (y - 3 == 0 || y - 2 == 0) {
        MoveResult::Blocked
    } else {
        sprite_move_spec(dir, x, y, 3, 5, level, data)
    }
}

/// Whether the wall beside the player's chest, on the side `dir`, can be
/// grabbed (`canPlayerCling`).
pub open spec fn cling_at(dir: FaceDir, x: int, y: int, level: &LevelJson, data: &GameData) -> bool {
    match dir {
        FaceDir::West => flag_set(attr_at_spec(level, data, x, y - 2), TILE_ATTR_CAN_CLING),
        FaceDir::East => flag_set(attr_at_spec(level, data, x + 2, y - 2), TILE_ATTR_CAN_CLING),
    }
}

/// A position well inside the `i32` range.
pub open spec fn pos_in(x: int, y: int, k: int) -> bool {
    -k <= x <= k && -k <= y <= k
}

/// The player and view a tick can start from: positions and counters far
/// from the machine limits, and a shove of sane size.
pub open spec fn tick_ready(p: Player, s: Scroll) -> bool {
    &&& pos_in(p.x as int, p.y as int, 0x3000_0000)
    &&& pos_in(s.x as int, s.y as int, 0x3000_0000)
    &&& p.jump_time <= 0x1000_0000
    &&& match p.push {
        Some(pu) => -16 <= pu.dx <= 16 && -16 <= pu.dy <= 16 && pu.speed <= 64 && pu.time < u32::MAX,
        None => true,
    }
}

fn test_move(dir: Dir4, x: i32, y: i32, level: &LevelJson, data: &GameData) -> (r: MoveResult)
    requires
        level_wf(level),
        coord_ok(x as int),
        coord_ok(y as int),
    ensures
        r == pmove(dir, x as int, y as int, level, data),
{
    if dir == Dir4::North && (y - 3 == 0 || y - 2 == 0) {
        MoveResult::Blocked
    } else {
        test_sprite_move(dir, x, y, PLAYER_WIDTH, PLAYER_HEIGHT, level, data)
    }
}

fn can_cling(dir: FaceDir, x: i32, y: i32, level: &LevelJson, data: &GameData) -> (r: bool)
    requires
        level_wf(level),
        coord_ok(x as int),
        coord_ok(y as int),
    ensures
        r == cling_at(dir, x as int, y as int, level, data),
{
    let col = match dir {
        FaceDir::West => x,
        FaceDir::East => x + 2,
    };
    attr_at(level, data, col, y - 2) & TILE_ATTR_CAN_CLING != 0
}

/// A tile the player slides down: sloped and slippery, and not solid.
pub open spec fn slippery_slope(a: u8) -> bool {
    !flag_set(a, TILE_ATTR_BLOCK_SOUTH) && flag_set(a, TILE_ATTR_SLOPED) && flag_set(a, TILE_ATTR_SLIPPERY)
}

/// Which way a slippery slope under the player's outer columns pulls them;
/// slopes under both cancel out.
pub open spec fn slide_spec(x: int, y: int, level: &LevelJson, data: &GameData) -> Option<FaceDir> {
    let east = slippery_slope(attr_at_spec(level, data, x, y));
    let west = slippery_slope(attr_at_spec(level, data, x + 2, y));
    if east && !west {
        Some(FaceDir::East)
    } else if !east && west {
        Some(FaceDir::West)
    } else {
        None
    }
}

pub fn slide_dir(x: i32, y: i32, level: &LevelJson, data: &GameData) -> (r: Option<FaceDir>)
    requires
        level_wf(level),
        coord_ok(x as int),
        coord_ok(y as int),
    ensures
        r == slide_spec(x as int, y as int, level, data),
{
    let a = attr_at(level, data, x, y);
    let b = attr_at(level, data, x + PLAYER_WIDTH - 1, y);
    let east = a & TILE_ATTR_BLOCK_SOUTH == 0 && a & TILE_ATTR_SLOPED != 0 && a & TILE_ATTR_SLIPPERY != 0;
    let west = b & TILE_ATTR_BLOCK_SOUTH == 0 && b & TILE_ATTR_SLOPED != 0 && b & TILE_ATTR_SLIPPERY != 0;
    if east && !west {
        Some(FaceDir::East)
    } else if !east && west {
        Some(FaceDir::West)
    } else {
        None
    }
}

/// Whether the player touches anything in any direction.
pub open spec fn touching_any(x: int, y: int, level: &LevelJson, data: &GameData) -> bool {
    pmove(Dir4::West, x, y, level, data) != MoveResult::Free
        || pmove(Dir4::East, x, y, level, data) != MoveResult::Free
        || pmove(Dir4::North, x, y, level, data) != MoveResult::Free
        || pmove(Dir4::South, x, y, level, data) != MoveResult::Free
}

/// `n` more steps of a shove from `(x, y)` with the view at `(sx, sy)`:
/// the player is kept off the map's side edges, the view moves regardless,
/// and a blockable shove stops at the first step that touches anything.
/// Gives the end position and view, and whether it was stopped.
pub open spec fn push_steps(x: int, y: int, sx: int, sy: int, pu: Push, n: nat, width: int, level: &LevelJson, data: &GameData) -> (int, int, int, int, bool)
    decreases n,
{
    if n == 0 {
        (x, y, sx, sy, false)
    } else {
        let x1 = if x + pu.dx > 0 && x + pu.dx + 2 < width { x + pu.dx } else { x };
        let y1 = y + pu.dy;
        let sx1 = sx + pu.dx;
        let sy1 = sy + pu.dy;
        if pu.blockable && touching_any(x1, y1, level, data) {
            (x1, y1, sx1, sy1, true)
        } else {
            push_steps(x1, y1, sx1, sy1, pu, (n - 1) as nat, width, level, data)
        }
    }
}

/// `MovePlayerPush`: a shove in progress carries the player and the view.
/// Stopped, it backs off the last step and ends; otherwise it counts a tick
/// and ends at its time limit. Jumping cancels an abortable shove, and the
/// player then moves normally. The flag says whether the shove took the
/// tick.
#[verifier::opaque]
pub open spec fn push_spec(p: Player, s: Scroll, jump: bool, width: int, level: &LevelJson, data: &GameData) -> (Player, Scroll, bool) {
    match p.push {
        None => (p, s, false),
        Some(pu) => if jump && pu.abortable {
            (Player { push: None, ..p }, s, false)
        } else {
            let r = push_steps(p.x as int, p.y as int, s.x as int, s.y as int, pu, pu.speed as nat, width, level, data);
            if r.4 {
                (
                    Player { x: (r.0 - pu.dx) as i32, y: (r.1 - pu.dy) as i32, push: None, ..p },
                    Scroll { x: (r.2 - pu.dx) as i32, y: (r.3 - pu.dy) as i32 },
                    true,
                )
            } else {
                let t = (pu.time + 1) as u32;
                let np = if t >= pu.max_time { None } else { Some(Push { time: t, ..pu }) };
                (
                    Player { x: r.0 as i32, y: r.1 as i32, push: np, ..p },
                    Scroll { x: r.2 as i32, y: r.3 as i32 },
                    true,
                )
            }
        },
    }
}

proof fn lemma_push_steps_bounded(x: int, y: int, sx: int, sy: int, pu: Push, n: nat, width: int, level: &LevelJson, data: &GameData)
    requires
        -16 <= pu.dx <= 16,
        -16 <= pu.dy <= 16,
    ensures
        ({
            let r = push_steps(x, y, sx, sy, pu, n, width, level, data);
            &&& x - 16 * n <= r.0 <= x + 16 * n
            &&& y - 16 * n <= r.1 <= y + 16 * n
            &&& r.2 == sx + (r.2 - sx) && sx - 16 * n <= r.2 <= sx + 16 * n
            &&& sy - 16 * n <= r.3 <= sy + 16 * n
            &&& (r.4 ==> n > 0)
        }),
    decreases n,
{
    if n > 0 {
        let x1 = if x + pu.dx > 0 && x + pu.dx + 2 < width { x + pu.dx } else { x };
        lemma_push_steps_bounded(x1, y + pu.dy, sx + pu.dx, sy + pu.dy, pu, (n - 1) as nat, width, level, data);
    }
}

#[verifier::rlimit(40)]
fn move_player_push(p: &mut Player, scroll: &mut Scroll, level: &LevelJson, data: &GameData, jump: bool) -> (handled: bool)
    requires
        level_wf(level),
        tick_ready(*old(p), *old(scroll)),
    ensures
        (*final(p), *final(scroll), handled) == push_spec(*old(p), *old(scroll), jump, level.width as int, level, data),
{
    proof {
        reveal(push_spec);
    }
    let pu = match p.push {
        None => {
            return false;
        },
        Some(pu) => pu,
    };
    if jump && pu.abortable {
        p.push = None;
        return false;
    }
    let width = level.width as i32;
    proof {
        lemma_push_steps_bounded(p.x as int, p.y as int, scroll.x as int, scroll.y as int, pu, pu.speed as nat, width as int, level, data);
    }
    let ghost x0 = p.x as int;
    let ghost y0 = p.y as int;
    let ghost sx0 = scroll.x as int;
    let ghost sy0 = scroll.y as int;
    let mut x = p.x;
    let mut y = p.y;
    let mut sx = scroll.x;
    let mut sy = scroll.y;
    let mut blocked = false;
    let mut k: u32 = 0;
    while k < pu.speed
        invariant_except_break
            !blocked,
            push_steps(x0, y0, sx0, sy0, pu, pu.speed as nat, width as int, level, data)
                == push_steps(x as int, y as int, sx as int, sy as int, pu, (pu.speed - k) as nat, width as int, level, data),
        invariant
            level_wf(level),
            width as int == level.width as int,
            0 <= k <= pu.speed <= 64,
            -16 <= pu.dx <= 16,
            -16 <= pu.dy <= 16,
            pos_in(x0, y0, 0x3000_0000),
            pos_in(sx0, sy0, 0x3000_0000),
            x0 - 16 * k <= x <= x0 + 16 * k,
            y0 - 16 * k <= y <= y0 + 16 * k,
            sx0 - 16 * k <= sx <= sx0 + 16 * k,
            sy0 - 16 * k <= sy <= sy0 + 16 * k,
        ensures
            blocked ==> push_steps(x0, y0, sx0, sy0, pu, pu.speed as nat, width as int, level, data)
                == (x as int, y as int, sx as int, sy as int, true),
            !blocked ==> push_steps(x0, y0, sx0, sy0, pu, pu.speed as nat, width as int, level, data)
                == (x as int, y as int, sx as int, sy as int, false),
        decreases pu.speed - k,
    {
        if x + pu.dx > 0 && x + pu.dx + 2 < width {
            x = x + pu.dx;
        }
        y = y + pu.dy;
        sx = sx + pu.dx;
        sy = sy + pu.dy;
        k = k + 1;
        if pu.blockable {
            let hit = test_move(Dir4::West, x, y, level, data) != MoveResult::Free
                || test_move(Dir4::East, x, y, level, data) != MoveResult::Free
                || test_move(Dir4::North, x, y, level, data) != MoveResult::Free
                || test_move(Dir4::South, x, y, level, data) != MoveResult::Free;
            if hit {
                blocked = true;
                break;
            }
        }
    }
    if blocked {
        p.x = x - pu.dx;
        p.y = y - pu.dy;
        scroll.x = sx - pu.dx;
        scroll.y = sy - pu.dy;
        p.push = None;
    } else {
        p.x = x;
        p.y = y;
        scroll.x = sx;
        scroll.y = sy;
        let t = pu.time + 1;
        if t >= pu.max_time {
            p.push = None;
        } else {
            p.push = Some(Push { time: t, ..pu });
        }
    }
    true
}


/// The cell a wall-holding player grips: beside the chest, on the wall's side.
pub open spec fn grip_cell(dir: FaceDir, x: int, y: int) -> (int, int) {
    match dir {
        FaceDir::West => (x - 1, y - 2),
        FaceDir::East => (x + 3, y - 2),
    }
}

/// Holding a wall: a slippery clingable wall lets the player slide a row,
/// and they let go at the floor or when the wall stops being clingable.
#[verifier::opaque]
pub open spec fn cling_spec(p: Player, level: &LevelJson, data: &GameData) -> Player {
    match p.cling_dir {
        None => p,
        Some(dir) => {
            let c = grip_cell(dir, p.x as int, p.y as int);
            let t = attr_at_spec(level, data, c.0, c.1);
            if flag_set(t, TILE_ATTR_SLIPPERY) && flag_set(t, TILE_ATTR_CAN_CLING) {
                if pmove(Dir4::South, p.x as int, p.y + 1, level, data) != MoveResult::Free {
                    Player { cling_dir: None, ..p }
                } else {
                    let y = p.y + 1;
                    let c2 = grip_cell(dir, p.x as int, y);
                    let t2 = attr_at_spec(level, data, c2.0, c2.1);
                    if !flag_set(t2, TILE_ATTR_SLIPPERY) && !flag_set(t2, TILE_ATTR_CAN_CLING) {
                        Player { y: y as i32, cling_slip: false, cling_dir: None, ..p }
                    } else {
                        Player { y: y as i32, cling_slip: true, ..p }
                    }
                }
            } else if !flag_set(t, TILE_ATTR_CAN_CLING) {
                Player { cling_dir: None, ..p }
            } else {
                p
            }
        },
    }
}

#[verifier::spinoff_prover]
#[verifier::rlimit(40)]
fn cling_phase(p: Player, level: &LevelJson, data: &GameData) -> (r: Player)
    requires
        level_wf(level),
        pos_in(p.x as int, p.y as int, 0x3800_0000),
    ensures
        r == cling_spec(p, level, data),
{
    proof {
        reveal(cling_spec);
    }
    let mut p = p;
    if let Some(dir) = p.cling_dir {
        let (cx, cy) = match dir {
            FaceDir::West => (p.x - 1, p.y - 2),
            FaceDir::East => (p.x + 3, p.y - 2),
        };
        let target = attr_at(level, data, cx, cy);
        let slippery = target & TILE_ATTR_SLIPPERY != 0;
        let clingable = target & TILE_ATTR_CAN_CLING != 0;
        if slippery && clingable {
            if test_move(Dir4::South, p.x, p.y + 1, level, data) != MoveResult::Free {
                p.cling_dir = None;
            } else {
                p.y = p.y + 1;
                p.cling_slip = true;
                let (cx, cy) = match dir {
                    FaceDir::West => (p.x - 1, p.y - 2),
                    FaceDir::East => (p.x + 3, p.y - 2),
                };
                let target = attr_at(level, data, cx, cy);
                if target & TILE_ATTR_SLIPPERY == 0 && target & TILE_ATTR_CAN_CLING == 0 {
                    p.cling_dir = None;
                    p.cling_slip = false;
                }
            }
        } else if !clingable {
            p.cling_dir = None;
        }
    }
    p
}

/// Grabbing a wall the player walked into: stops any bounce and fall, and
/// a jump already held does not launch off it.
pub open spec fn grab_wall(p: Player, dir: FaceDir, jump: bool) -> Player {
    Player {
        cling_dir: Some(dir),
        is_recoiling: false,
        recoil_left: 0,
        is_falling: false,
        jump_time: 0,
        fall_time: 0,
        cmd_jump_latch: jump,
        ..p
    }
}

/// One step west, before any slope: turning costs the step; the map edge
/// refuses it; a wall refuses it, and is grabbed if the player is airborne
/// beside a clingable face. Also gives what the step met.
#[verifier::opaque]
pub open spec fn west_step_spec(p: Player, jump: bool, level: &LevelJson, data: &GameData) -> (Player, MoveResult, Seq<u16>) {
    let x0 = if p.face_dir == FaceDir::West { p.x - 1 } else { p.x as int };
    let p1 = Player { x: x0 as i32, face_dir: FaceDir::West, ..p };
    if x0 < 1 {
        (Player { x: (x0 + 1) as i32, ..p1 }, MoveResult::Free, Seq::<u16>::empty())
    } else {
        let cc = cling_at(FaceDir::West, x0, p.y as int, level, data);
        let hm = pmove(Dir4::West, x0, p.y as int, level, data);
        let q = Player { can_cling: cc, ..p1 };
        if hm == MoveResult::Blocked {
            let q2 = Player { x: (x0 + 1) as i32, ..q };
            if pmove(Dir4::South, x0 + 1, p.y + 1, level, data) == MoveResult::Free && cc {
                (grab_wall(q2, FaceDir::West, jump), hm, seq![snd::PLAYER_CLING])
            } else {
                (q2, hm, Seq::<u16>::empty())
            }
        } else {
            (q, hm, Seq::<u16>::empty())
        }
    }
}

/// One step east, before any slope: the mirror of `west_step_spec`, with
/// the map's east edge.
#[verifier::opaque]
pub open spec fn east_step_spec(p: Player, jump: bool, width: int, level: &LevelJson, data: &GameData) -> (Player, MoveResult, Seq<u16>) {
    let x0 = if p.face_dir == FaceDir::East { p.x + 1 } else { p.x as int };
    let p1 = Player { x: x0 as i32, face_dir: FaceDir::East, ..p };
    if width - 4 < x0 {
        (Player { x: (x0 - 1) as i32, ..p1 }, MoveResult::Free, Seq::<u16>::empty())
    } else {
        let cc = cling_at(FaceDir::East, x0, p.y as int, level, data);
        let hm = pmove(Dir4::East, x0, p.y as int, level, data);
        let q = Player { can_cling: cc, ..p1 };
        if hm == MoveResult::Blocked {
            let q2 = Player { x: (x0 - 1) as i32, ..q };
            if pmove(Dir4::South, x0 - 1, p.y + 1, level, data) == MoveResult::Free && cc {
                (grab_wall(q2, FaceDir::East, jump), hm, seq![snd::PLAYER_CLING])
            } else {
                (q2, hm, Seq::<u16>::empty())
            }
        } else {
            (q, hm, Seq::<u16>::empty())
        }
    }
}

/// A step never ends in a cell the move test refused: when a step east
/// (or west) meets `Blocked`, the player ends no further east (or west)
/// than where they stood, right beside the refused cell, and still on
/// their row; a step that goes ahead is one the move test allowed.
pub proof fn lemma_step_never_enters_a_refused_cell(p: Player, jump: bool, width: int, level: &LevelJson, data: &GameData)
    requires
        pos_in(p.x as int, p.y as int, 0x3800_0000),
    ensures
        ({
            let e = east_step_spec(p, jump, width, level, data);
            &&& e.1 == MoveResult::Blocked ==> e.0.x <= p.x && pmove(Dir4::East, e.0.x + 1, p.y as int, level, data)
                == MoveResult::Blocked
            &&& e.0.x > p.x ==> e.1 != MoveResult::Blocked && e.0.x == p.x + 1
                && pmove(Dir4::East, e.0.x as int, p.y as int, level, data) == e.1
            &&& e.0.y == p.y
        }),
        ({
            let w = west_step_spec(p, jump, level, data);
            &&& w.1 == MoveResult::Blocked ==> w.0.x >= p.x && pmove(Dir4::West, w.0.x - 1, p.y as int, level, data)
                == MoveResult::Blocked
            &&& w.0.x < p.x ==> w.1 != MoveResult::Blocked && w.0.x == p.x - 1
                && pmove(Dir4::West, w.0.x as int, p.y as int, level, data) == w.1
            &&& w.0.y == p.y
        }),
{
    reveal(east_step_spec);
    reveal(west_step_spec);
}

/// After a step: a slope ahead lifts the player a row; a slope underfoot
/// (`southmove`, probed before the step) with room below lowers them and
/// ends any fall - clearing the jump time walking west, the fall time
/// walking east.
#[verifier::opaque]
pub open spec fn slope_spec(p: Player, horiz: MoveResult, southmove: MoveResult, east: bool, level: &LevelJson, data: &GameData) -> Player {
    if horiz == MoveResult::Sloped {
        Player { y: (p.y - 1) as i32, ..p }
    } else if southmove == MoveResult::Sloped && pmove(Dir4::South, p.x as int, p.y + 1, level, data) == MoveResult::Free {
        if east {
            Player { is_falling: false, fall_time: 0, y: (p.y + 1) as i32, ..p }
        } else {
            Player { is_falling: false, jump_time: 0, y: (p.y + 1) as i32, ..p }
        }
    } else {
        p
    }
}

/// Walking west: the step, then the slope under and ahead of it.
#[verifier::opaque]
pub open spec fn west_spec(p: Player, jump: bool, level: &LevelJson, data: &GameData) -> (Player, Seq<u16>) {
    let southmove = pmove(Dir4::South, p.x as int, p.y + 1, level, data);
    let st = west_step_spec(p, jump, level, data);
    (slope_spec(st.0, st.1, southmove, false, level, data), st.2)
}

/// Walking east.
#[verifier::opaque]
pub open spec fn east_spec(p: Player, jump: bool, width: int, level: &LevelJson, data: &GameData) -> (Player, Seq<u16>) {
    let southmove = pmove(Dir4::South, p.x as int, p.y + 1, level, data);
    let st = east_step_spec(p, jump, width, level, data);
    (slope_spec(st.0, st.1, southmove, true, level, data), st.2)
}

/// Standing on a slippery slope slides the player a column down it (and a
/// row, if there is room); a wall-hold is dropped either way.
#[verifier::opaque]
pub open spec fn slide_phase_spec(p: Player, level: &LevelJson, data: &GameData) -> Player {
    match slide_spec(p.x as int, p.y + 1, level, data) {
        None => p,
        Some(dir) => if p.cling_dir is None {
            let x = if dir == FaceDir::East { p.x + 1 } else { p.x - 1 };
            let y = if pmove(Dir4::South, x, p.y + 1, level, data) == MoveResult::Free { p.y + 1 } else { p.y as int };
            Player { x: x as i32, y: y as i32, cling_dir: None, ..p }
        } else {
            Player { cling_dir: None, ..p }
        },
    }
}

/// Small moves: each phase shifts the player at most two cells each way
/// and counts the jump at most once.
pub open spec fn small_move(a: Player, b: Player) -> bool {
    &&& a.x - 2 <= b.x <= a.x + 2
    &&& a.y - 2 <= b.y <= a.y + 2
    &&& b.jump_time <= a.jump_time + 1
}

fn slope_phase(p: Player, horiz: MoveResult, southmove: MoveResult, east: bool, level: &LevelJson, data: &GameData) -> (r: Player)
    requires
        level_wf(level),
        pos_in(p.x as int, p.y as int, 0x3800_0000),
    ensures
        r == slope_spec(p, horiz, southmove, east, level, data),
        r.x == p.x,
        p.y - 1 <= r.y <= p.y + 1,
        r.jump_time <= p.jump_time,
{
    proof {
        reveal(slope_spec);
    }
    let mut p1 = p;
    if horiz == MoveResult::Sloped {
        p1.y = p1.y - 1;
    } else if southmove == MoveResult::Sloped && test_move(Dir4::South, p1.x, p1.y + 1, level, data) == MoveResult::Free {
        p1.is_falling = false;
        if east {
            p1.fall_time = 0;
        } else {
            p1.jump_time = 0;
        }
        p1.y = p1.y + 1;
    }
    p1
}

fn grab_wall_exec(p: Player, dir: FaceDir, jump: bool) -> (r: Player)
    ensures
        r == grab_wall(p, dir, jump),
{
    Player {
        cling_dir: Some(dir),
        is_recoiling: false,
        recoil_left: 0,
        is_falling: false,
        jump_time: 0,
        fall_time: 0,
        cmd_jump_latch: jump,
        ..p
    }
}

#[verifier::spinoff_prover]
#[verifier::rlimit(40)]
fn west_step(p: Player, jump: bool, level: &LevelJson, data: &GameData, sounds: &mut Vec<u16>) -> (r: (Player, MoveResult))
    requires
        level_wf(level),
        pos_in(p.x as int, p.y as int, 0x3800_0000),
    ensures
        ({
            let st = west_step_spec(p, jump, level, data);
            &&& r.0 == st.0
            &&& r.1 == st.1
            &&& final(sounds)@ == old(sounds)@ + st.2
        }),
        p.x - 1 <= r.0.x <= p.x + 1,
        r.0.y == p.y,
        r.0.jump_time <= p.jump_time,
{
    proof {
        reveal(west_step_spec);
    }
    proof {
        assert(old(sounds)@ + Seq::<u16>::empty() =~= old(sounds)@);
    }
    let x0 = if p.face_dir == FaceDir::West { p.x - 1 } else { p.x };
    let p1 = Player { x: x0, face_dir: FaceDir::West, ..p };
    if x0 < 1 {
        return (Player { x: x0 + 1, ..p1 }, MoveResult::Free);
    }
    let cc = can_cling(FaceDir::West, x0, p.y, level, data);
    let hm = test_move(Dir4::West, x0, p.y, level, data);
    let q = Player { can_cling: cc, ..p1 };
    if hm == MoveResult::Blocked {
        let q2 = Player { x: x0 + 1, ..q };
        if test_move(Dir4::South, x0 + 1, p.y + 1, level, data) == MoveResult::Free && cc {
            sounds.push(snd::PLAYER_CLING);
            (grab_wall_exec(q2, FaceDir::West, jump), hm)
        } else {
            (q2, hm)
        }
    } else {
        (q, hm)
    }
}

#[verifier::spinoff_prover]
fn east_step(p: Player, jump: bool, level: &LevelJson, data: &GameData, sounds: &mut Vec<u16>) -> (r: (Player, MoveResult))
    requires
        level_wf(level),
        pos_in(p.x as int, p.y as int, 0x3800_0000),
    ensures
        ({
            let st = east_step_spec(p, jump, level.width as int, level, data);
            &&& r.0 == st.0
            &&& r.1 == st.1
            &&& final(sounds)@ == old(sounds)@ + st.2
        }),
        p.x - 1 <= r.0.x <= p.x + 1,
        r.0.y == p.y,
        r.0.jump_time <= p.jump_time,
{
    proof {
        reveal(east_step_spec);
    }
    proof {
        assert(old(sounds)@ + Seq::<u16>::empty() =~= old(sounds)@);
    }
    let x0 = if p.face_dir == FaceDir::East { p.x + 1 } else { p.x };
    let p1 = Player { x: x0, face_dir: FaceDir::East, ..p };
    if level.width as i32 - 4 < x0 {
        return (Player { x: x0 - 1, ..p1 }, MoveResult::Free);
    }
    let cc = can_cling(FaceDir::East, x0, p.y, level, data);
    let hm = test_move(Dir4::East, x0, p.y, level, data);
    let q = Player { can_cling: cc, ..p1 };
    if hm == MoveResult::Blocked {
        let q2 = Player { x: x0 - 1, ..q };
        if test_move(Dir4::South, x0 - 1, p.y + 1, level, data) == MoveResult::Free && cc {
            sounds.push(snd::PLAYER_CLING);
            (grab_wall_exec(q2, FaceDir::East, jump), hm)
        } else {
            (q2, hm)
        }
    } else {
        (q, hm)
    }
}

#[verifier::spinoff_prover]
#[verifier::rlimit(40)]
fn west_phase(p: Player, jump: bool, level: &LevelJson, data: &GameData, sounds: &mut Vec<u16>) -> (r: Player)
    requires
        level_wf(level),
        pos_in(p.x as int, p.y as int, 0x3700_0000),
    ensures
        r == west_spec(p, jump, level, data).0,
        final(sounds)@ == old(sounds)@ + west_spec(p, jump, level, data).1,
        small_move(p, r),
{
    proof {
        reveal(west_spec);
    }
    let southmove = test_move(Dir4::South, p.x, p.y + 1, level, data);
    let (p1, horiz) = west_step(p, jump, level, data, sounds);
    slope_phase(p1, horiz, southmove, false, level, data)
}

#[verifier::spinoff_prover]
#[verifier::rlimit(40)]
fn east_phase(p: Player, jump: bool, level: &LevelJson, data: &GameData, sounds: &mut Vec<u16>) -> (r: Player)
    requires
        level_wf(level),
        pos_in(p.x as int, p.y as int, 0x3700_0000),
    ensures
        r == east_spec(p, jump, level.width as int, level, data).0,
        final(sounds)@ == old(sounds)@ + east_spec(p, jump, level.width as int, level, data).1,
        small_move(p, r),
{
    proof {
        reveal(east_spec);
    }
    let southmove = test_move(Dir4::South, p.x, p.y + 1, level, data);
    let (p1, horiz) = east_step(p, jump, level, data, sounds);
    slope_phase(p1, horiz, southmove, true, level, data)
}

fn slide_phase(p: Player, level: &LevelJson, data: &GameData) -> (r: Player)
    requires
        level_wf(level),
        pos_in(p.x as int, p.y as int, 0x3800_0000),
    ensures
        r == slide_phase_spec(p, level, data),
        small_move(p, r),
{
    proof {
        reveal(slide_phase_spec);
    }
    match slide_dir(p.x, p.y + 1, level, data) {
        None => p,
        Some(dir) => if p.cling_dir.is_none() {
            let x = if dir == FaceDir::East { p.x + 1 } else { p.x - 1 };
            let y = if test_move(Dir4::South, x, p.y + 1, level, data) == MoveResult::Free { p.y + 1 } else { p.y };
            Player { x, y, cling_dir: None, ..p }
        } else {
            Player { cling_dir: None, ..p }
        },
    }
}

/// A held wall lets go of a jump latch once the key is up.
pub open spec fn latch_spec(p: Player, jump: bool) -> Player {
    if p.cling_dir is Some && p.cmd_jump_latch && !jump {
        Player { cmd_jump_latch: false, ..p }
    } else {
        p
    }
}

/// `jumpTable`: the rise per tick of an ordinary jump.
pub open spec fn jump_rise(i: int) -> int {
    if i == 0 {
        -2
    } else if 1 <= i <= 6 {
        -1
    } else {
        0
    }
}

fn jump_rise_exec(i: u32) -> (r: i32)
    ensures
        r == jump_rise(if i > 9 { 9 } else { i as int }),
{
    if i == 0 {
        -2
    } else if i <= 6 {
        -1
    } else {
        0
    }
}

/// Whether the jump branch runs this tick: a bounce in progress, a fresh
/// press on the ground, or a fresh press while holding a wall.
pub open spec fn jumping_now(p: Player, input: PlayerInput) -> bool {
    p.recoil_left != 0 || (input.jump && !p.is_falling && !p.cmd_jump_latch)
        || (p.cling_dir is Some && input.jump && !p.cmd_jump_latch)
}

/// The recoil bounce: rises a row while the counter is above one, a second
/// row (room permitting) while it is above thirteen, and the long-jump flag
/// lasts only the fast part. Reaching zero ends the bounce.
#[verifier::opaque]
pub open spec fn recoil_spec(p: Player, level: &LevelJson, data: &GameData) -> Player {
    let r1 = p.recoil_left - 1;
    let lj1 = if r1 < 10 { false } else { p.long_jumping };
    let y1 = if r1 > 1 { p.y - 1 } else { p.y as int };
    let q = if r1 > 13 {
        if pmove(Dir4::North, p.x as int, y1, level, data) == MoveResult::Free {
            Player { recoil_left: (r1 - 1) as i32, y: (y1 - 1) as i32, long_jumping: lj1, ..p }
        } else {
            Player { recoil_left: (r1 - 1) as i32, y: y1 as i32, long_jumping: false, ..p }
        }
    } else {
        Player { recoil_left: r1 as i32, y: y1 as i32, long_jumping: lj1, ..p }
    };
    if q.recoil_left == 0 {
        Player { jump_time: 0, is_recoiling: false, fall_time: 0, long_jumping: false, cmd_jump_latch: true, ..q }
    } else {
        q
    }
}

/// A jump's own rise: pressing away from a held wall lets go of it, and
/// a free player rises by the jump table (never above the map's top row).
#[verifier::opaque]
pub open spec fn rise_spec(p: Player, input: PlayerInput) -> Player {
    let c1 = if p.cling_dir == Some(FaceDir::West) && input.west { None } else { p.cling_dir };
    let c2 = if c1 == Some(FaceDir::East) && input.east { None } else { c1 };
    let jt = if p.jump_time > 9 { 9 } else { p.jump_time as int };
    let y = if c2 is None {
        if p.y + jump_rise(jt) < 0 { 0 } else { p.y + jump_rise(jt) }
    } else {
        p.y as int
    };
    Player { cling_dir: c2, y: y as i32, is_recoiling: false, ..p }
}

/// A ceiling ends the rise and turns it into a fall (with a bump sound if
/// the player was under way); a fresh jump starts with its sound.
#[verifier::opaque]
pub open spec fn head_spec(p: Player, new_jump: bool, jump: bool, level: &LevelJson, data: &GameData) -> (Player, Seq<u16>) {
    if pmove(Dir4::North, p.x as int, p.y as int, level, data) != MoveResult::Free {
        let s = if p.jump_time > 0 || p.is_recoiling { seq![snd::PLAYER_HIT_HEAD] } else { Seq::<u16>::empty() };
        (
            Player {
                recoil_left: 0,
                is_recoiling: false,
                y: (p.y + 1) as i32,
                is_falling: true,
                cmd_jump_latch: if jump { true } else { p.cmd_jump_latch },
                fall_time: 0,
                ..p
            },
            s,
        )
    } else if new_jump && p.jump_time == 0 {
        (p, seq![snd::PLAYER_JUMP])
    } else {
        (p, Seq::<u16>::empty())
    }
}

/// The top of the arc, and the jump's tick count.
#[verifier::opaque]
pub open spec fn apex_spec(p: Player, new_jump: bool, jump: bool) -> Player {
    let q = if !p.is_recoiling && p.jump_time + 1 > 6 {
        Player { is_falling: true, cmd_jump_latch: if jump { true } else { p.cmd_jump_latch }, fall_time: 0, ..p }
    } else {
        p
    };
    if new_jump || !q.is_recoiling {
        Player { jump_time: (q.jump_time + 1) as u32, ..q }
    } else {
        q
    }
}

/// The jump and recoil branch of a tick.
#[verifier::opaque]
pub open spec fn jump_spec(p: Player, input: PlayerInput, level: &LevelJson, data: &GameData) -> (Player, Seq<u16>) {
    if !jumping_now(p, input) {
        (p, Seq::<u16>::empty())
    } else {
        let bouncing = p.is_recoiling && p.recoil_left > 0;
        let p1 = if bouncing { recoil_spec(p, level, data) } else { rise_spec(p, input) };
        let p2 = Player { cling_dir: None, ..p1 };
        let h = head_spec(p2, !bouncing, input.jump, level, data);
        (apex_spec(h.0, !bouncing, input.jump), h.1)
    }
}

fn recoil_phase(p: Player, level: &LevelJson, data: &GameData) -> (r: Player)
    requires
        level_wf(level),
        pos_in(p.x as int, p.y as int, 0x3800_0000),
        p.recoil_left > 0,
    ensures
        r == recoil_spec(p, level, data),
        small_move(p, r),
        r.jump_time <= p.jump_time,
{
    proof {
        reveal(recoil_spec);
    }
    let r1 = p.recoil_left - 1;
    let lj1 = if r1 < 10 { false } else { p.long_jumping };
    let y1 = if r1 > 1 { p.y - 1 } else { p.y };
    let q = if r1 > 13 {
        if test_move(Dir4::North, p.x, y1, level, data) == MoveResult::Free {
            Player { recoil_left: r1 - 1, y: y1 - 1, long_jumping: lj1, ..p }
        } else {
            Player { recoil_left: r1 - 1, y: y1, long_jumping: false, ..p }
        }
    } else {
        Player { recoil_left: r1, y: y1, long_jumping: lj1, ..p }
    };
    if q.recoil_left == 0 {
        Player { jump_time: 0, is_recoiling: false, fall_time: 0, long_jumping: false, cmd_jump_latch: true, ..q }
    } else {
        q
    }
}

fn rise_phase(p: Player, input: PlayerInput) -> (r: Player)
    requires
        pos_in(p.x as int, p.y as int, 0x3800_0000),
    ensures
        r == rise_spec(p, input),
        r.x == p.x,
        p.y - 2 <= r.y <= (if p.y > 0 { p.y as int } else { 0 }),
        r.jump_time == p.jump_time,
{
    proof {
        reveal(rise_spec);
    }
    let c1 = if p.cling_dir == Some(FaceDir::West) && input.west { None } else { p.cling_dir };
    let c2 = if c1 == Some(FaceDir::East) && input.east { None } else { c1 };
    let jt = if p.jump_time > 9 { 9 } else { p.jump_time };
    let y = if c2.is_none() {
        let d = jump_rise_exec(jt);
        if p.y + d < 0 { 0 } else { p.y + d }
    } else {
        p.y
    };
    Player { cling_dir: c2, y, is_recoiling: false, ..p }
}

fn head_phase(p: Player, new_jump: bool, jump: bool, level: &LevelJson, data: &GameData, sounds: &mut Vec<u16>) -> (r: Player)
    requires
        level_wf(level),
        pos_in(p.x as int, p.y as int, 0x3800_0000),
    ensures
        r == head_spec(p, new_jump, jump, level, data).0,
        final(sounds)@ == old(sounds)@ + head_spec(p, new_jump, jump, level, data).1,
        small_move(p, r),
        r.jump_time <= p.jump_time,
{
    proof {
        reveal(head_spec);
    }
    proof {
        assert(old(sounds)@ + Seq::<u16>::empty() =~= old(sounds)@);
    }
    if test_move(Dir4::North, p.x, p.y, level, data) != MoveResult::Free {
        if p.jump_time > 0 || p.is_recoiling {
            sounds.push(snd::PLAYER_HIT_HEAD);
        }
        Player {
            recoil_left: 0,
            is_recoiling: false,
            y: p.y + 1,
            is_falling: true,
            cmd_jump_latch: if jump { true } else { p.cmd_jump_latch },
            fall_time: 0,
            ..p
        }
    } else {
        if new_jump && p.jump_time == 0 {
            sounds.push(snd::PLAYER_JUMP);
        }
        p
    }
}

fn apex_phase(p: Player, new_jump: bool, jump: bool) -> (r: Player)
    requires
        p.jump_time <= 0x2000_0000,
    ensures
        r == apex_spec(p, new_jump, jump),
        r.x == p.x && r.y == p.y,
        r.jump_time <= p.jump_time + 1,
{
    proof {
        reveal(apex_spec);
    }
    let q = if !p.is_recoiling && p.jump_time + 1 > 6 {
        Player { is_falling: true, cmd_jump_latch: if jump { true } else { p.cmd_jump_latch }, fall_time: 0, ..p }
    } else {
        p
    };
    if new_jump || !q.is_recoiling {
        Player { jump_time: q.jump_time + 1, ..q }
    } else {
        q
    }
}

#[verifier::spinoff_prover]
#[verifier::rlimit(40)]
fn jump_phase(p: Player, input: PlayerInput, level: &LevelJson, data: &GameData, sounds: &mut Vec<u16>) -> (r: Player)
    requires
        level_wf(level),
        pos_in(p.x as int, p.y as int, 0x3700_0000),
        p.jump_time <= 0x1800_0000,
    ensures
        r == jump_spec(p, input, level, data).0,
        final(sounds)@ == old(sounds)@ + jump_spec(p, input, level, data).1,
        p.x - 6 <= r.x <= p.x + 6,
        p.y - 6 <= r.y <= (if p.y > 0 { p.y as int } else { 0 }) + 6,
        r.jump_time <= p.jump_time + 1,
{
    proof {
        reveal(jump_spec);
    }
    let now = p.recoil_left != 0 || (input.jump && !p.is_falling && !p.cmd_jump_latch)
        || (p.cling_dir.is_some() && input.jump && !p.cmd_jump_latch);
    if !now {
        proof {
            assert(old(sounds)@ + Seq::<u16>::empty() =~= old(sounds)@);
        }
        return p;
    }
    let bouncing = p.is_recoiling && p.recoil_left > 0;
    let p1 = if bouncing { recoil_phase(p, level, data) } else { rise_phase(p, input) };
    let p2 = Player { cling_dir: None, ..p1 };
    let p3 = head_phase(p2, !bouncing, input.jump, level, data, sounds);
    apex_phase(p3, !bouncing, input.jump)
}

/// Landing: the fall ends a row back up, the jump count and fall time are
/// cleared, and a held jump key stays latched.
pub open spec fn land(p: Player, jump: bool) -> Player {
    Player { is_falling: false, y: (p.y - 1) as i32, jump_time: 0, cmd_jump_latch: jump, fall_time: 0, ..p }
}

/// The sound of landing, if the player was falling for a tick or more.
pub open spec fn land_sound(p: Player) -> Seq<u16> {
    if p.fall_time != 0 { seq![snd::PLAYER_LAND] } else { Seq::<u16>::empty() }
}

/// A falling player drops a row and lands on anything solid.
#[verifier::opaque]
pub open spec fn drop_spec(p: Player, jump: bool, level: &LevelJson, data: &GameData) -> (Player, Seq<u16>) {
    let q = Player { y: (p.y + 1) as i32, ..p };
    if pmove(Dir4::South, q.x as int, q.y as int, level, data) != MoveResult::Free {
        (land(q, jump), land_sound(q))
    } else {
        (q, Seq::<u16>::empty())
    }
}

/// A falling player not bouncing drops a row, a second row (dragging the
/// view) after three ticks of falling, and counts the fall up to
/// twenty-five.
#[verifier::opaque]
pub open spec fn fall_spec(q2: Player, s: Scroll, jump: bool, level: &LevelJson, data: &GameData) -> (Player, Scroll, Seq<u16>) {
    let d1 = drop_spec(q2, jump, level, data);
    let q3 = d1.0;
    let (q4, s4, snd2) = if q3.is_falling && q3.fall_time > 3 {
        let d2 = drop_spec(q3, jump, level, data);
        let sy = if d2.0.is_falling { s.y + 1 } else { s.y as int };
        (d2.0, Scroll { y: sy as i32, ..s }, d2.1)
    } else {
        (q3, s, Seq::<u16>::empty())
    };
    let q5 = if q4.fall_time < 25 { Player { fall_time: (q4.fall_time + 1) as u32, ..q4 } } else { q4 };
    (q5, s4, d1.1 + snd2)
}

/// Gravity: a wall-holder is exempt; a jump key let go (or latched) on the
/// ground starts a fall; then a falling player not bouncing falls.
#[verifier::opaque]
pub open spec fn gravity_spec(p: Player, s: Scroll, jump: bool, level: &LevelJson, data: &GameData) -> (Player, Scroll, Seq<u16>) {
    if p.cling_dir is Some {
        (p, s, Seq::<u16>::empty())
    } else {
        let q1 = if p.is_falling && jump { Player { cmd_jump_latch: true, ..p } } else { p };
        let q2 = if (!jump || q1.cmd_jump_latch) && !q1.is_falling { Player { is_falling: true, fall_time: 0, ..q1 } } else { q1 };
        if q2.is_falling && !q2.is_recoiling {
            fall_spec(q2, s, jump, level, data)
        } else {
            (q2, s, Seq::<u16>::empty())
        }
    }
}

fn drop_phase(p: Player, jump: bool, level: &LevelJson, data: &GameData, sounds: &mut Vec<u16>) -> (r: Player)
    requires
        level_wf(level),
        pos_in(p.x as int, p.y as int, 0x3800_0000),
    ensures
        r == drop_spec(p, jump, level, data).0,
        final(sounds)@ == old(sounds)@ + drop_spec(p, jump, level, data).1,
        r.x == p.x,
        p.y <= r.y <= p.y + 1,
        r.jump_time <= p.jump_time,
        r.is_falling ==> r.fall_time == p.fall_time && r.y == p.y + 1,
{
    proof {
        reveal(drop_spec);
    }
    proof {
        assert(old(sounds)@ + Seq::<u16>::empty() =~= old(sounds)@);
    }
    let q = Player { y: p.y + 1, ..p };
    if test_move(Dir4::South, q.x, q.y, level, data) != MoveResult::Free {
        if q.fall_time != 0 {
            sounds.push(snd::PLAYER_LAND);
        }
        Player { is_falling: false, y: q.y - 1, jump_time: 0, cmd_jump_latch: jump, fall_time: 0, ..q }
    } else {
        q
    }
}

#[verifier::rlimit(40)]
fn fall_phase(q2: Player, s: Scroll, jump: bool, level: &LevelJson, data: &GameData, sounds: &mut Vec<u16>) -> (r: (Player, Scroll))
    requires
        level_wf(level),
        pos_in(q2.x as int, q2.y as int, 0x3600_0000),
        pos_in(s.x as int, s.y as int, 0x3600_0000),
    ensures
        ({
            let g = fall_spec(q2, s, jump, level, data);
            &&& r.0 == g.0
            &&& r.1 == g.1
            &&& final(sounds)@ == old(sounds)@ + g.2
        }),
        r.0.x == q2.x,
        q2.y <= r.0.y <= q2.y + 2,
        r.0.jump_time <= q2.jump_time,
        r.1.x == s.x,
        s.y <= r.1.y <= s.y + 1,
{
    proof {
        reveal(fall_spec);
    }
    let ghost before = old(sounds)@;
    let q3 = drop_phase(q2, jump, level, data, sounds);
    let ghost mid = sounds@;
    let mut s4 = s;
    let mut q4 = q3;
    if q3.is_falling && q3.fall_time > 3 {
        q4 = drop_phase(q3, jump, level, data, sounds);
        if q4.is_falling {
            s4 = Scroll { y: s.y + 1, ..s };
        }
        proof {
            assert(sounds@ =~= before + (drop_spec(q2, jump, level, data).1 + drop_spec(q3, jump, level, data).1));
        }
    } else {
        proof {
            assert(sounds@ =~= before + (drop_spec(q2, jump, level, data).1 + Seq::<u16>::empty()));
        }
    }
    let q5 = if q4.fall_time < 25 { Player { fall_time: q4.fall_time + 1, ..q4 } } else { q4 };
    (q5, s4)
}

#[verifier::spinoff_prover]
#[verifier::rlimit(40)]
fn gravity_phase(p: Player, s: Scroll, jump: bool, level: &LevelJson, data: &GameData, sounds: &mut Vec<u16>) -> (r: (Player, Scroll))
    requires
        level_wf(level),
        pos_in(p.x as int, p.y as int, 0x3600_0000),
        pos_in(s.x as int, s.y as int, 0x3600_0000),
    ensures
        ({
            let g = gravity_spec(p, s, jump, level, data);
            &&& r.0 == g.0
            &&& r.1 == g.1
            &&& final(sounds)@ == old(sounds)@ + g.2
        }),
        r.0.x == p.x,
        p.y <= r.0.y <= p.y + 2,
        r.0.jump_time <= p.jump_time,
        r.1.x == s.x,
        s.y <= r.1.y <= s.y + 1,
{
    proof {
        reveal(gravity_spec);
    }
    proof {
        assert(old(sounds)@ + Seq::<u16>::empty() =~= old(sounds)@);
    }
    if p.cling_dir.is_some() {
        return (p, s);
    }
    let q1 = if p.is_falling && jump { Player { cmd_jump_latch: true, ..p } } else { p };
    let q2 = if (!jump || q1.cmd_jump_latch) && !q1.is_falling { Player { is_falling: true, fall_time: 0, ..q1 } } else { q1 };
    if q2.is_falling && !q2.is_recoiling {
        fall_phase(q2, s, jump, level, data, sounds)
    } else {
        (q2, s)
    }
}


/// Falling below three rows past the lowest the view can reach is the
/// falling death, not a respawn.
pub open spec fn fall_death_spec(p: Player, width: int) -> Player {
    if p.y > max_scroll_y_spec(width) + SCROLL_H + 3 && p.dead_timer == 0 {
        Player { dead_timer: 1, fall_dead_time: 1, ..p }
    } else {
        p
    }
}

/// Holding, walking and sliding: a west step when only west is held, then
/// an east step when only east is held, and otherwise a slide on a slippery
/// slope.
#[verifier::opaque]
pub open spec fn horizontal_spec(p4: Player, input: PlayerInput, level: &LevelJson, data: &GameData) -> (Player, Seq<u16>) {
    let w = if input.west && p4.cling_dir is None && !input.east {
        west_spec(p4, input.jump, level, data)
    } else {
        (p4, Seq::<u16>::empty())
    };
    let e = if input.east && w.0.cling_dir is None && !input.west {
        east_spec(w.0, input.jump, level.width as int, level, data)
    } else {
        (slide_phase_spec(w.0, level, data), Seq::<u16>::empty())
    };
    (e.0, w.1 + e.1)
}

/// Rising and falling: the latch, the jump, gravity, the fall out of the
/// world.
#[verifier::opaque]
pub open spec fn vertical_spec(p6: Player, s: Scroll, input: PlayerInput, level: &LevelJson, data: &GameData) -> (Player, Scroll, Seq<u16>) {
    let p7 = latch_spec(p6, input.jump);
    let j = jump_spec(p7, input, level, data);
    let g = gravity_spec(j.0, s, input.jump, level, data);
    (fall_death_spec(g.0, level.width as int), g.1, j.1 + g.2)
}

/// The player's own movement, after the head-shake and any shove: the
/// walk counter, the wall hold, then the horizontal and vertical halves.
pub open spec fn walk_spec(p: Player, s: Scroll, input: PlayerInput, level: &LevelJson, data: &GameData) -> (Player, Scroll, Seq<u16>) {
    let p3 = Player {
        move_count: vstd::wrapping::u32_specs::wrapping_add(p.move_count, 1u32),
        cling_slip: false,
        ..p
    };
    let h = horizontal_spec(cling_spec(p3, level, data), input, level, data);
    let v = vertical_spec(h.0, s, input, level, data);
    (v.0, v.1, h.1 + v.2)
}

/// One tick of `MovePlayer`'s movement: nothing while dead; the head-shake
/// (which, like `block_action`, takes the whole tick); a trap's hold; a
/// shove; otherwise the player's own movement.
pub open spec fn move_spec(p: Player, s: Scroll, input: PlayerInput, level: &LevelJson, data: &GameData) -> (Player, Scroll, Seq<u16>) {
    if p.dead_timer != 0 {
        (p, s, Seq::<u16>::empty())
    } else {
        let p1 = if p.dizzy_queued || p.dizzy_left != 0 {
            dizzy_spec(p, pmove(Dir4::South, p.x as int, p.y + 1, level, data) != MoveResult::Free)
        } else {
            p
        };
        if p1.dizzy_left != 0 || p1.block_action {
            (p1, s, Seq::<u16>::empty())
        } else if p1.held_ticks > 0 {
            (Player { held_ticks: (p1.held_ticks - 1) as u32, ..p1 }, s, Seq::<u16>::empty())
        } else {
            let pu = push_spec(p1, s, input.jump, level.width as int, level, data);
            if pu.2 {
                (pu.0, pu.1, Seq::<u16>::empty())
            } else {
                walk_spec(pu.0, pu.1, input, level, data)
            }
        }
    }
}

#[verifier::spinoff_prover]
#[verifier::rlimit(40)]
fn horizontal(p4: Player, input: PlayerInput, level: &LevelJson, data: &GameData, sounds: &mut Vec<u16>) -> (r: Player)
    requires
        level_wf(level),
        pos_in(p4.x as int, p4.y as int, 0x3200_0000),
    ensures
        r == horizontal_spec(p4, input, level, data).0,
        final(sounds)@ == old(sounds)@ + horizontal_spec(p4, input, level, data).1,
        p4.x - 4 <= r.x <= p4.x + 4,
        p4.y - 4 <= r.y <= p4.y + 4,
        r.jump_time <= p4.jump_time + 2,
{
    proof {
        reveal(horizontal_spec);
    }
    let ghost s0 = old(sounds)@;
    let p5 = if input.west && p4.cling_dir.is_none() && !input.east {
        west_phase(p4, input.jump, level, data, sounds)
    } else {
        proof {
            assert(sounds@ + Seq::<u16>::empty() =~= sounds@);
        }
        p4
    };
    let ghost s1 = sounds@;
    let p6 = if input.east && p5.cling_dir.is_none() && !input.west {
        east_phase(p5, input.jump, level, data, sounds)
    } else {
        proof {
            assert(sounds@ + Seq::<u16>::empty() =~= sounds@);
        }
        slide_phase(p5, level, data)
    };
    proof {
        assert(sounds@ =~= s0 + (s1.subrange(s0.len() as int, s1.len() as int) + sounds@.subrange(s1.len() as int, sounds@.len() as int)));
    }
    p6
}

#[verifier::spinoff_prover]
#[verifier::rlimit(40)]
fn vertical(p6: Player, s: Scroll, input: PlayerInput, level: &LevelJson, data: &GameData, sounds: &mut Vec<u16>) -> (r: (Player, Scroll))
    requires
        level_wf(level),
        level.width > 0,
        pos_in(p6.x as int, p6.y as int, 0x3200_0000),
        pos_in(s.x as int, s.y as int, 0x3200_0000),
        p6.jump_time <= 0x1000_0010,
    ensures
        ({
            let v = vertical_spec(p6, s, input, level, data);
            &&& r.0 == v.0
            &&& r.1 == v.1
            &&& final(sounds)@ == old(sounds)@ + v.2
        }),
{
    proof {
        reveal(vertical_spec);
    }
    let ghost s0 = old(sounds)@;
    let p7 = if p6.cling_dir.is_some() && p6.cmd_jump_latch && !input.jump {
        Player { cmd_jump_latch: false, ..p6 }
    } else {
        p6
    };
    let p8 = jump_phase(p7, input, level, data, sounds);
    let ghost s1 = sounds@;
    let (p9, s9) = gravity_phase(p8, s, input.jump, level, data, sounds);
    let bottom = max_scroll_y(level.width) + SCROLL_H + 3;
    let p10 = if p9.y > bottom && p9.dead_timer == 0 {
        Player { dead_timer: 1, fall_dead_time: 1, ..p9 }
    } else {
        p9
    };
    proof {
        assert(sounds@ =~= s0 + (s1.subrange(s0.len() as int, s1.len() as int) + sounds@.subrange(s1.len() as int, sounds@.len() as int)));
    }
    (p10, s9)
}

#[verifier::spinoff_prover]
#[verifier::rlimit(40)]
fn walk(p: Player, s: Scroll, input: PlayerInput, level: &LevelJson, data: &GameData, sounds: &mut Vec<u16>) -> (r: (Player, Scroll))
    requires
        level_wf(level),
        level.width > 0,
        pos_in(p.x as int, p.y as int, 0x3100_0000),
        pos_in(s.x as int, s.y as int, 0x3100_0000),
        p.jump_time <= 0x1000_0000,
    ensures
        ({
            let m = walk_spec(p, s, input, level, data);
            &&& r.0 == m.0
            &&& r.1 == m.1
            &&& final(sounds)@ == old(sounds)@ + m.2
        }),
{
    let ghost s0 = old(sounds)@;
    let p3 = Player { move_count: p.move_count.wrapping_add(1), cling_slip: false, ..p };
    let p4 = cling_phase(p3, level, data);
    proof {
        reveal(cling_spec);
    }
    let p6 = horizontal(p4, input, level, data, sounds);
    let ghost s1 = sounds@;
    let r = vertical(p6, s, input, level, data, sounds);
    proof {
        assert(sounds@ =~= s0 + (s1.subrange(s0.len() as int, s1.len() as int) + sounds@.subrange(s1.len() as int, sounds@.len() as int)));
    }
    r
}

/// `MovePlayer`'s movement for one tick: moves the player (and the view,
/// when a shove or a long fall drags it), and appends the sounds it makes.
#[verifier::spinoff_prover]
#[verifier::rlimit(80)]
pub fn move_player_tick(p: &mut Player, input: PlayerInput, level: &LevelJson, data: &GameData, scroll: &mut Scroll, sounds: &mut Vec<u16>)
    requires
        level_wf(level),
        level.width > 0,
        tick_ready(*old(p), *old(scroll)),
    ensures
        ({
            let m = move_spec(*old(p), *old(scroll), input, level, data);
            &&& *final(p) == m.0
            &&& *final(scroll) == m.1
            &&& final(sounds)@ == old(sounds)@ + m.2
        }),
{
    proof {
        assert(old(sounds)@ + Seq::<u16>::empty() =~= old(sounds)@);
    }
    if p.dead_timer != 0 {
        return;
    }
    if p.dizzy_queued || p.dizzy_left != 0 {
        let grounded = test_move(Dir4::South, p.x, p.y + 1, level, data) != MoveResult::Free;
        p.process_dizzy(grounded);
    }
    if p.dizzy_left != 0 || p.block_action {
        return;
    }
    if p.held_ticks > 0 {
        p.held_ticks = p.held_ticks - 1;
        return;
    }
    proof {
        reveal(push_spec);
        if p.push is Some {
            lemma_push_steps_bounded(p.x as int, p.y as int, scroll.x as int, scroll.y as int,
                p.push.unwrap(), p.push.unwrap().speed as nat, level.width as int, level, data);
        }
    }
    if move_player_push(p, scroll, level, data, input.jump) {
        return;
    }
    let (np, ns) = walk(*p, *scroll, input, level, data, sounds);
    *p = np;
    *scroll = ns;
}

} // verus!
