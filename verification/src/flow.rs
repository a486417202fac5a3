//! Level progression and the counters that run across levels: the score,
//! the stars, the level-entry checkpoint a death rewinds to, what picking
//! up a prize does, the order levels come in (two main levels, then a
//! pair of bonus stages earned with stars), and the exits.
use vstd::prelude::*;
use vstd::string::StringExecFns;
use crate::actors::Collectible;
use crate::camera::{Scroll, SCROLL_H, SCROLL_W};
use crate::panel::TextFrame;
use crate::pickups::{pickup_for_sprite, pickup_table, Pickup};
use crate::player::Player;
use crate::sfx::snd;

verus! {

/// How long the invincibility bubble lasts.
pub const INVINCIBLE_TICKS: u32 = 240;

#[derive(Clone, Copy, PartialEq, Eq, Debug, Default, Structural)]
pub struct Score(pub u32);

/// The status bar's separate "Stars" counter.
#[derive(Clone, Copy, PartialEq, Eq, Debug, Default, Structural)]
pub struct Stars(pub u32);

/// The state captured on entering a level and restored when the player
/// dies: dying rewinds score, stars, bombs and health to what they were
/// when the level started.
#[derive(Clone, Copy, PartialEq, Eq, Debug, Default, Structural)]
pub struct Checkpoint {
    pub score: u32,
    pub stars: u32,
    pub health: i32,
    pub health_cells: u32,
    pub bombs: u32,
}

/// What a checkpoint keeps of the counters.
pub open spec fn captured(score: u32, stars: u32, p: Player) -> Checkpoint {
    Checkpoint { score, stars, health: p.health, health_cells: p.health_cells, bombs: p.bombs }
}

/// The player with a checkpoint's health, cells and bombs put back.
pub open spec fn restored(c: Checkpoint, p: Player) -> Player {
    Player { health: c.health, health_cells: c.health_cells, bombs: c.bombs, ..p }
}

impl Checkpoint {
    pub fn capture(score: &Score, stars: &Stars, player: &Player) -> (c: Self)
        ensures
            c == captured(score.0, stars.0, *player),
    {
        Checkpoint {
            score: score.0,
            stars: stars.0,
            health: player.health,
            health_cells: player.health_cells,
            bombs: player.bombs,
        }
    }

    pub fn restore(&self, score: &mut Score, stars: &mut Stars, player: &mut Player)
        ensures
            final(score).0 == self.score,
            final(stars).0 == self.stars,
            *final(player) == restored(*self, *old(player)),
    {
        score.0 = self.score;
        stars.0 = self.stars;
        *player = Player { health: self.health, health_cells: self.health_cells, bombs: self.bombs, ..*player };
    }
}

/// Rewinding to a checkpoint gives back the counters it was taken of:
/// whatever happened since, score, stars, health, cells and bombs return
/// to their values at capture, and the rest of the player is left as it
/// is now.
pub proof fn lemma_checkpoint_round_trip(score: u32, stars: u32, p: Player, later: Player)
    ensures
        captured(score, stars, p).score == score,
        captured(score, stars, p).stars == stars,
        restored(captured(score, stars, p), later) == (Player {
            health: p.health,
            health_cells: p.health_cells,
            bombs: p.bombs,
            ..later
        }),
{
}

/// One prize taken: which, the sound it makes, and the points its pop-up
/// shows (if it raises one).
#[derive(Clone, Copy, PartialEq, Eq, Debug, Structural)]
pub struct Collected {
    pub index: usize,
    pub sound: u16,
    pub popup: Option<u32>,
}

/// The counters a prize acts on.
pub struct Tally {
    pub player: Player,
    pub score: int,
    pub stars: int,
}

/// Within reach: two columns and three rows either way.
pub open spec fn in_reach(c: Collectible, p: Player) -> bool {
    -2 <= c.x - p.x <= 2 && -3 <= c.y - p.y <= 3
}

/// What a prize does: plain score pays its points; a star counts; a bomb
/// stocks one (up to nine) and pays 100; a hamburger widens the meter (up
/// to five cells) and pays 12800; the bubble makes the player untouchable
/// and shows 12800 without paying it; a power-up heals while hurt (paying
/// 100) and otherwise pays 12800. Stars, power-ups and bubbles get the
/// louder jingle.
pub open spec fn take_prize(t: Tally, k: Pickup) -> (Tally, u16, Option<u32>) {
    let sound = match k {
        Pickup::Star | Pickup::PowerUp | Pickup::Invincibility => snd::BIG_PRIZE,
        _ => snd::PRIZE,
    };
    let p = t.player;
    match k {
        Pickup::Score(points) => (Tally { score: t.score + points, ..t }, sound, Some(points)),
        Pickup::Star => (Tally { stars: t.stars + 1, ..t }, sound, None),
        Pickup::Bomb => (Tally { player: Player { bombs: if p.bombs <= 8 { (p.bombs + 1) as u32 } else { p.bombs }, ..p }, score: t.score + 100, ..t },
            sound, Some(100u32)),
        Pickup::Hamburger => (Tally {
            player: Player { health_cells: if p.health_cells < 5 { (p.health_cells + 1) as u32 } else { p.health_cells }, ..p },
            score: t.score + 12800,
            ..t
        }, sound, Some(12800u32)),
        Pickup::Invincibility => (Tally { player: Player { invincible_ticks: INVINCIBLE_TICKS, ..p }, ..t }, sound, Some(12800u32)),
        Pickup::PowerUp => if p.health <= p.health_cells as int {
            (Tally { player: Player { health: (p.health + 1) as i32, ..p }, score: t.score + 100, ..t }, sound, Some(100u32))
        } else {
            (Tally { score: t.score + 12800, ..t }, sound, Some(12800u32))
        },
    }
}

/// What each prize does to the counters, field by field: a score prize
/// pays its points; a star counts one; a bomb pays 100 and gives one more
/// bomb unless nine are held; a hamburger pays 12800 and widens the meter
/// by a cell unless it has five; the bubble pays nothing and makes the
/// player untouchable; a power-up heals one point and pays 100 while hurt
/// (health not above the cells), else pays 12800. Nothing else changes,
/// and only the star touches the star count.
pub proof fn lemma_prize_effects(t: Tally, k: Pickup)
    requires
        t.player.health < i32::MAX,
    ensures
        ({
            let r = take_prize(t, k).0;
            let p = t.player;
            let q = r.player;
            &&& k == Pickup::Star ==> r.stars == t.stars + 1
            &&& k != Pickup::Star ==> r.stars == t.stars
            &&& (k matches Pickup::Score(v) ==> r.score == t.score + v && q == p)
            &&& k == Pickup::Bomb ==> r.score == t.score + 100 && q.health == p.health && q.health_cells == p.health_cells
                && (p.bombs < 9 ==> q.bombs == p.bombs + 1) && (p.bombs >= 9 ==> q.bombs == p.bombs)
            &&& k != Pickup::Bomb ==> q.bombs == p.bombs
            &&& k == Pickup::Hamburger ==> r.score == t.score + 12800 && q.health == p.health
                && (p.health_cells < 5 ==> q.health_cells == p.health_cells + 1)
                && (p.health_cells >= 5 ==> q.health_cells == p.health_cells)
            &&& k != Pickup::Hamburger ==> q.health_cells == p.health_cells
            &&& k == Pickup::Invincibility ==> r.score == t.score && q.invincible_ticks == INVINCIBLE_TICKS
                && q.health == p.health
            &&& k == Pickup::PowerUp ==> (if p.health <= p.health_cells {
                q.health == p.health + 1 && r.score == t.score + 100
            } else {
                q.health == p.health && r.score == t.score + 12800
            })
            &&& k != Pickup::PowerUp ==> q.health == p.health
            &&& q.x == p.x && q.y == p.y && q.dead_timer == p.dead_timer && q.hurt_cooldown == p.hurt_cooldown
        }),
{
}

/// The counters and what was taken after the first `n` collectibles.
pub open spec fn collect_after(cs: Seq<Collectible>, t: Tally, n: int) -> (Tally, Seq<Collected>)
    decreases n,
{
    if n <= 0 {
        (t, Seq::empty())
    } else {
        let prev = collect_after(cs, t, n - 1);
        let c = cs[n - 1];
        match pickup_table(c.spr) {
            Some(k) => if in_reach(c, prev.0.player) {
                let r = take_prize(prev.0, k);
                (r.0, prev.1.push(Collected { index: (n - 1) as usize, sound: r.1, popup: r.2 }))
            } else {
                prev
            },
            None => prev,
        }
    }
}

/// One prize's effect on the counters.
fn take_one(player: &mut Player, score: &mut Score, stars: &mut Stars, k: Pickup) -> (r: (u16, Option<u32>))
    requires
        old(score).0 + 12800 <= u32::MAX,
        old(stars).0 + 1 <= u32::MAX,
        old(player).health < i32::MAX,
        k matches Pickup::Score(v) ==> v <= 12800,
    ensures
        ({
            let t = take_prize(Tally { player: *old(player), score: old(score).0 as int, stars: old(stars).0 as int }, k);
            &&& *final(player) == t.0.player
            &&& final(score).0 == t.0.score
            &&& final(stars).0 == t.0.stars
            &&& r == (t.1, t.2)
        }),
{
    let sound = match k {
        Pickup::Star | Pickup::PowerUp | Pickup::Invincibility => snd::BIG_PRIZE,
        _ => snd::PRIZE,
    };
    let popup: Option<u32> = match k {
        Pickup::Score(points) => {
            score.0 = score.0 + points;
            Some(points)
        },
        Pickup::Star => {
            stars.0 = stars.0 + 1;
            None
        },
        Pickup::Bomb => {
            if player.bombs <= 8 {
                *player = Player { bombs: player.bombs + 1, ..*player };
            }
            score.0 = score.0 + 100;
            Some(100)
        },
        Pickup::Hamburger => {
            if player.health_cells < 5 {
                *player = Player { health_cells: player.health_cells + 1, ..*player };
            }
            score.0 = score.0 + 12800;
            Some(12800)
        },
        Pickup::Invincibility => {
            *player = Player { invincible_ticks: INVINCIBLE_TICKS, ..*player };
            Some(12800)
        },
        Pickup::PowerUp => {
            if player.health as i64 <= player.health_cells as i64 {
                *player = Player { health: player.health + 1, ..*player };
                score.0 = score.0 + 100;
                Some(100)
            } else {
                score.0 = score.0 + 12800;
                Some(12800)
            }
        },
    };
    (sound, popup)
}

/// The most a prize pays.
pub open spec fn max_prize(cs: Seq<Collectible>) -> int {
    12800 * (cs.len() as int)
}

/// Touching prizes: each within reach is taken and acts on the counters,
/// in order. Nothing is taken while the player is dead.
#[verifier::spinoff_prover]
#[verifier::rlimit(40)]
pub fn collect_pickups(player: &mut Player, score: &mut Score, stars: &mut Stars, pickups: &Vec<Collectible>) -> (taken: Vec<Collected>)
    requires
        forall|i: int| 0 <= i < pickups@.len() ==> (pickup_table((#[trigger] pickups@[i]).spr) matches Some(Pickup::Score(v)) ==> v <= 12800),
        old(score).0 + max_prize(pickups@) <= u32::MAX,
        old(stars).0 + pickups@.len() <= u32::MAX,
        old(player).health + pickups@.len() < i32::MAX,
    ensures
        old(player).dead_timer != 0 ==> taken@.len() == 0 && *final(player) == *old(player) && *final(score) == *old(score)
            && *final(stars) == *old(stars),
        old(player).dead_timer == 0 ==> ({
            let r = collect_after(pickups@, Tally { player: *old(player), score: old(score).0 as int, stars: old(stars).0 as int }, pickups@.len() as int);
            &&& *final(player) == r.0.player
            &&& final(score).0 == r.0.score
            &&& final(stars).0 == r.0.stars
            &&& taken@ == r.1
        }),
{
    let mut taken: Vec<Collected> = Vec::new();
    if player.dead_timer != 0 {
        return taken;
    }
    let ghost t0 = Tally { player: *old(player), score: old(score).0 as int, stars: old(stars).0 as int };
    let mut i: usize = 0;
    while i < pickups.len()
        invariant
            i <= pickups@.len(),
            forall|j: int| 0 <= j < pickups@.len() ==> (pickup_table((#[trigger] pickups@[j]).spr) matches Some(Pickup::Score(v)) ==> v <= 12800),
            old(score).0 + max_prize(pickups@) <= u32::MAX,
            old(stars).0 + pickups@.len() <= u32::MAX,
            t0 == (Tally { player: *old(player), score: old(score).0 as int, stars: old(stars).0 as int }),
            old(score).0 <= score.0 <= old(score).0 + 12800 * i,
            old(stars).0 <= stars.0 <= old(stars).0 + i,
            player.health <= old(player).health + i,
            old(player).health + pickups@.len() < i32::MAX,
            ({
                let r = collect_after(pickups@, t0, i as int);
                &&& *player == r.0.player
                &&& score.0 == r.0.score
                &&& stars.0 == r.0.stars
                &&& taken@ == r.1
            }),
        decreases pickups@.len() - i,
    {
        let c = pickups[i];
        let kind = pickup_for_sprite(c.spr);
        assert(12800 * (i + 1) <= 12800 * pickups@.len()) by (nonlinear_arith)
            requires
                i < pickups@.len(),
        ;
        if let Some(k) = kind {
            let near = -2 <= c.x as i64 - player.x as i64 && c.x as i64 - player.x as i64 <= 2
                && -3 <= c.y as i64 - player.y as i64 && c.y as i64 - player.y as i64 <= 3;
            if near {
                let (sound, popup) = take_one(player, score, stars, k);
                taken.push(Collected { index: i, sound, popup });
            }
        }
        i = i + 1;
    }
    taken
}

/// The frame shown between levels.
#[derive(Clone, Copy, PartialEq, Eq, Debug, Structural)]
pub enum Intermission {
    SectionCompleted,
    BonusCompleted,
}

impl Intermission {
    pub fn title(self) -> (r: &'static str)
        ensures
            self == Intermission::SectionCompleted ==> r@ == "Section Completed!"@,
            self == Intermission::BonusCompleted ==> r@ == "Bonus Level Completed!!"@,
    {
        match self {
            Intermission::SectionCompleted => "Section Completed!",
            Intermission::BonusCompleted => "Bonus Level Completed!!",
        }
    }

    /// The frame over the finished level, waiting for a key.
    pub fn frame(self) -> (f: TextFrame)
        ensures
            f.top == 7 && f.height == 7 && f.width == 34,
            self == Intermission::SectionCompleted ==> f.title@ == "Section Completed!"@,
            self == Intermission::BonusCompleted ==> f.title@ == "Bonus Level Completed!!"@,
            f.bottom@ == "Press ANY key."@,
            f.lines_spec().len() == 0,
    {
        TextFrame::new(7, 7, 34, self.title(), "Press ANY key.")
    }
}

/// Where the level sequence goes from `index` with `stars` collected, and
/// the intermission shown on the way: levels come in fours, two main ones
/// then two bonus stages. The first leads straight to the second; the
/// second ends the section and leads to the better bonus stage with more
/// than 49 stars, the lesser with more than 24, otherwise past both; either
/// bonus stage leads to the next section. The index wraps to the order's
/// length.
pub open spec fn advance_spec(index: int, len: int, stars: u32) -> (int, Option<Intermission>) {
    let (next, i) = if index % 4 == 0 {
        (index + 1, None)
    } else if index % 4 == 1 {
        (if stars > 49 { index + 2 } else if stars > 24 { index + 1 } else { index + 3 }, Some(Intermission::SectionCompleted))
    } else if index % 4 == 2 {
        (index + 2, Some(Intermission::BonusCompleted))
    } else {
        (index + 1, Some(Intermission::BonusCompleted))
    };
    (next % (if len > 1 { len } else { 1 }), i)
}

/// The levels in play order, and which one is current.
pub struct LevelSequence {
    pub order: Vec<String>,
    pub index: usize,
}

impl LevelSequence {
    /// The episode's order (or just the starting level, if it has none),
    /// starting at `start_hint` where it appears, else at the first.
    pub fn build(order: Vec<String>, start_hint: &str) -> (s: Self)
        ensures
            order@.len() > 0 ==> s.order@ == order@,
            order@.len() == 0 ==> s.order@.len() == 1 && s.order@[0]@ == start_hint@,
            s.index < s.order@.len(),
            s.order@[s.index as int]@ == start_hint@ || (s.index == 0 && forall|j: int| 0 <= j < s.order@.len() ==> (#[trigger] s.order@[j])@ != start_hint@),
            forall|j: int| 0 <= j < s.index ==> (#[trigger] s.order@[j])@ != start_hint@,
    {
        let ghost o0 = order@;
        let mut order = order;
        if order.len() == 0 {
            order.push(String::from_str(start_hint));
        }
        let hint = String::from_str(start_hint);
        let mut index: usize = 0;
        let mut found = false;
        let mut i: usize = 0;
        while i < order.len()
            invariant
                i <= order@.len(),
                order@.len() > 0,
                hint@ == start_hint@,
                !found ==> index == 0 && forall|j: int| 0 <= j < i ==> (#[trigger] order@[j])@ != start_hint@,
                found ==> index < order@.len() && order@[index as int]@ == start_hint@
                    && forall|j: int| 0 <= j < index ==> (#[trigger] order@[j])@ != start_hint@,
            decreases order@.len() - i,
        {
            if !found && order[i] == hint {
                index = i;
                found = true;
            }
            i = i + 1;
        }
        LevelSequence { order, index }
    }

    /// The current level's name.
    pub fn current(&self) -> (r: &str)
        requires
            self.index < self.order@.len(),
        ensures
            r@ == self.order@[self.index as int]@,
    {
        self.order[self.index].as_str()
    }

    /// `NextLevel`: moves on and gives the intermission to show first.
    pub fn advance(&mut self, stars: u32) -> (r: Option<Intermission>)
        requires
            old(self).index + 3 <= usize::MAX,
        ensures
            (final(self).index as int, r) == advance_spec(old(self).index as int, old(self).order@.len() as int, stars),
            final(self).order@ == old(self).order@,
    {
        let len = self.order.len();
        let intermission = if self.index % 4 == 0 {
            self.index = self.index + 1;
            None
        } else if self.index % 4 == 1 {
            if stars > 49 {
                self.index = self.index + 2;
            } else if stars > 24 {
                self.index = self.index + 1;
            } else {
                self.index = self.index + 3;
            }
            Some(Intermission::SectionCompleted)
        } else if self.index % 4 == 2 {
            self.index = self.index + 2;
            Some(Intermission::BonusCompleted)
        } else {
            self.index = self.index + 1;
            Some(Intermission::BonusCompleted)
        };
        let m = if len > 1 { len } else { 1 };
        self.index = self.index % m;
        intermission
    }
}

/// Without stars a section never leads into a bonus stage: from a main
/// level of an order made of whole sections, advancing with at most 24
/// stars lands on a main level again.
pub proof fn lemma_starless_run_skips_bonus_stages(index: int, len: int, stars: u32)
    requires
        0 <= index,
        len > 0,
        len % 4 == 0,
        index % 4 < 2,
        stars <= 24,
    ensures
        advance_spec(index, len, stars).0 % 4 < 2,
{
    let next = if index % 4 == 0 { index + 1 } else { index + 3 };
    assert(next % 4 == 0 || next % 4 == 1);
    let q = len / 4;
    assert(len == 4 * q);
    vstd::arithmetic::div_mod::lemma_mod_mod(next, 4, q);
    assert((next % len) % 4 == next % 4);
}

/// Whether a level is won this tick: touching an exit (two columns and
/// three rows either way), or an exit sign coming into the view. A dead
/// player wins nothing.
pub open spec fn exit_reached(p: Player, exits: Seq<(i32, i32)>, signs: Seq<(i32, i32)>, scroll: Scroll) -> bool {
    p.dead_timer == 0 && (
        (exists|i: int| 0 <= i < exits.len() && -2 <= (#[trigger] exits[i]).0 - p.x <= 2 && -3 <= exits[i].1 - p.y <= 3)
        || (exists|i: int| 0 <= i < signs.len() && scroll.x <= (#[trigger] signs[i]).0 < scroll.x + SCROLL_W
            && scroll.y <= signs[i].1 < scroll.y + SCROLL_H))
}

pub fn check_level_exit(player: &Player, exits: &Vec<(i32, i32)>, signs: &Vec<(i32, i32)>, scroll: &Scroll) -> (r: bool)
    ensures
        r == exit_reached(*player, exits@, signs@, *scroll),
{
    if player.dead_timer != 0 {
        return false;
    }
    let mut i: usize = 0;
    while i < exits.len()
        invariant
            i <= exits@.len(),
            player.dead_timer == 0,
            forall|j: int| 0 <= j < i ==> !(-2 <= (#[trigger] exits@[j]).0 - player.x <= 2 && -3 <= exits@[j].1 - player.y <= 3),
        decreases exits@.len() - i,
    {
        let (ex, ey) = exits[i];
        let dx = ex as i64 - player.x as i64;
        let dy = ey as i64 - player.y as i64;
        if -2 <= dx && dx <= 2 && -3 <= dy && dy <= 3 {
            assert(-2 <= exits@[i as int].0 - player.x <= 2 && -3 <= exits@[i as int].1 - player.y <= 3);
            return true;
        }
        i = i + 1;
    }
    let mut k: usize = 0;
    while k < signs.len()
        invariant
            k <= signs@.len(),
            player.dead_timer == 0,
            forall|j: int| 0 <= j < exits@.len() ==> !(-2 <= (#[trigger] exits@[j]).0 - player.x <= 2 && -3 <= exits@[j].1 - player.y <= 3),
            forall|j: int| 0 <= j < k ==> !(scroll.x <= (#[trigger] signs@[j]).0 < scroll.x + SCROLL_W
                && scroll.y <= signs@[j].1 < scroll.y + SCROLL_H),
        decreases signs@.len() - k,
    {
        let (sx, sy) = signs[k];
        if scroll.x as i64 <= sx as i64 && (sx as i64) < scroll.x as i64 + SCROLL_W as i64 && scroll.y as i64 <= sy as i64
            && (sy as i64) < scroll.y as i64 + SCROLL_H as i64 {
            assert(scroll.x <= signs@[k as int].0 < scroll.x + SCROLL_W && scroll.y <= signs@[k as int].1 < scroll.y + SCROLL_H);
            return true;
        }
        k = k + 1;
    }
    false
}

/// The player set down at a level's start: falling in, nothing carried
/// over from the last attempt but the counters.
pub open spec fn placed(p: Player, x: i32, y: i32) -> Player {
    Player { x, y, is_falling: true, jump_time: 0, fall_time: 0, cling_dir: None, dead_timer: 0, ..p }
}

/// Entering a level: the player is placed at its start, and the checkpoint
/// is taken there, of the counters as they stand.
pub fn enter_level(player: &mut Player, start: (i32, i32), score: &Score, stars: &Stars) -> (c: Checkpoint)
    ensures
        *final(player) == placed(*old(player), start.0, start.1),
        c == (Checkpoint { score: score.0, stars: stars.0, health: old(player).health, health_cells: old(player).health_cells, bombs: old(player).bombs }),
{
    *player = Player { x: start.0, y: start.1, ..*player };
    let c = Checkpoint::capture(score, stars, player);
    *player = Player { is_falling: true, jump_time: 0, fall_time: 0, cling_dir: None, dead_timer: 0, ..*player };
    c
}

/// Restarting a level, by dying or from the menu: the player is placed at
/// its start with the hurt cooldown cleared, and the counters rewind to the
/// level's checkpoint.
pub fn restart_level(player: &mut Player, start: (i32, i32), checkpoint: &Checkpoint, score: &mut Score, stars: &mut Stars)
    ensures
        *final(player) == (Player {
            health: checkpoint.health,
            health_cells: checkpoint.health_cells,
            bombs: checkpoint.bombs,
            hurt_cooldown: 0,
            ..placed(*old(player), start.0, start.1)
        }),
        final(score).0 == checkpoint.score,
        final(stars).0 == checkpoint.stars,
{
    *player = Player { x: start.0, y: start.1, is_falling: true, jump_time: 0, fall_time: 0, cling_dir: None, dead_timer: 0, hurt_cooldown: 0, ..*player };
    checkpoint.restore(score, stars, player);
}

} // verus!
