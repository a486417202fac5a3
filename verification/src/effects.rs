//! Short-lived visual effects: decorations, explosions, score pop-ups and
//! flying debris, and the compass they move by.
//!
//! An explosion starts two tiles below the requested origin at age 1,
//! shows frame `(age - 1) % 4`, hurts the player on contact and expires
//! once its age reaches 9.
use vstd::prelude::*;
use crate::collide::rects_overlap;
use crate::collide::rects_overlap_spec;
use crate::player::{Player, PLAYER_HEIGHT, PLAYER_WIDTH};
use crate::sfx::snd;

verus! {

pub const SPR_POUNCE_DEBRIS: u16 = 21;
pub const SPR_BOMB_ARMED: u16 = 24;
pub const SPR_EXPLOSION: u16 = 26;
/// The score pop-ups for 100 to 12800 are consecutive sprites.
pub const SPR_SCORE_EFFECT_BASE: u16 = 177;

pub const EXPLOSION_MAX_AGE: u32 = 9;

/// `DIR8_*`: compass directions, clockwise from north; 0 is "stay put".
pub const DIR8_NONE: usize = 0;
pub const DIR8_NORTH: usize = 1;
pub const DIR8_NORTHEAST: usize = 2;
pub const DIR8_EAST: usize = 3;
pub const DIR8_SOUTHEAST: usize = 4;
pub const DIR8_SOUTH: usize = 5;
pub const DIR8_SOUTHWEST: usize = 6;
pub const DIR8_WEST: usize = 7;
pub const DIR8_NORTHWEST: usize = 8;

/// `dir8X` / `dir8Y`: the step each `DIR8_*` direction moves by.
pub open spec fn dir8(i: int) -> (i32, i32) {
    if i == 1 {
        (0i32, -1i32)
    } else if i == 2 {
        (1i32, -1i32)
    } else if i == 3 {
        (1i32, 0i32)
    } else if i == 4 {
        (1i32, 1i32)
    } else if i == 5 {
        (0i32, 1i32)
    } else if i == 6 {
        (-1i32, 1i32)
    } else if i == 7 {
        (-1i32, 0i32)
    } else if i == 8 {
        (-1i32, -1i32)
    } else {
        (0i32, 0i32)
    }
}

/// The step a `DIR8_*` direction moves by.
pub fn dir8_step(i: usize) -> (r: (i32, i32))
    requires
        i < 9,
    ensures
        r == dir8(i as int),
{
    let table: [(i32, i32); 9] = [(0, 0), (0, -1), (1, -1), (1, 0), (1, 1), (0, 1), (-1, 1), (-1, 0), (-1, -1)];
    table[i]
}

/// `floor(log2(n))` for a positive `n`.
pub open spec fn log2(n: nat) -> nat
    decreases n,
{
    if n <= 1 { 0 } else { 1 + log2(n / 2) }
}

/// The pop-up sprite for a score: one per doubling from 100.
pub open spec fn score_sprite(points: u32) -> int {
    let steps = if points / 100 >= 1 { (points / 100) as nat } else { 1 };
    SPR_SCORE_EFFECT_BASE + log2(steps)
}

/// Two to the `k`.
pub open spec fn two_to(k: nat) -> nat
    decreases k,
{
    if k == 0 { 1 } else { 2 * two_to((k - 1) as nat) }
}

proof fn lemma_log2_bound(n: nat, k: nat)
    requires
        1 <= k,
        n < two_to(k),
    ensures
        log2(n) < k,
    decreases k,
{
    if n > 1 {
        if k == 1 {
            assert(two_to(1) == 2) by {
                reveal_with_fuel(two_to, 2);
            }
        } else {
            lemma_log2_bound(n / 2, (k - 1) as nat);
        }
    }
}

proof fn lemma_log2_small(n: nat)
    requires
        n < 0x1_0000_0000,
    ensures
        log2(n) < 32,
{
    assert(two_to(32) == 0x1_0000_0000) by {
        reveal_with_fuel(two_to, 33);
    }
    lemma_log2_bound(n, 32);
}

/// `SPR_SCORE_EFFECT_BASE + log2(max(points / 100, 1))`.
pub fn score_effect_sprite(points: u32) -> (r: u16)
    ensures
        r == score_sprite(points),
{
    let mut n: u32 = points / 100;
    if n < 1 {
        n = 1;
    }
    let ghost n0 = n as nat;
    let mut steps: u16 = 0;
    proof {
        lemma_log2_small(n0);
    }
    while n > 1
        invariant
            1 <= n,
            steps + log2(n as nat) == log2(n0),
            log2(n0) < 32,
        decreases n,
    {
        n = n / 2;
        steps = steps + 1;
    }
    SPR_SCORE_EFFECT_BASE + steps
}

/// A bomb's or a behaviour's explosion.
#[derive(Clone, Copy, PartialEq, Eq, Debug, Structural)]
pub struct Explosion {
    pub x: i32,
    pub y: i32,
    pub age: u32,
}

impl Explosion {
    /// `NewExplosion`: two tiles below the requested origin, at age 1.
    pub fn new(x: i32, y: i32) -> (e: Self)
        requires
            y <= i32::MAX - 2,
        ensures
            e == (Explosion { x, y: (y + 2) as i32, age: 1 }),
    {
        Explosion { x, y: y + 2, age: 1 }
    }

    /// The frame shown at this age.
    pub fn frame(&self) -> (r: usize)
        requires
            self.age >= 1,
        ensures
            r == (self.age - 1) % 4,
    {
        ((self.age - 1) % 4) as usize
    }
}

/// One tick of an explosion: it ages, expires at nine, and otherwise hurts
/// a player in its blast the way contact does (not while dead, recovering
/// or invincible; the last unit of health starts the death, any other the
/// cooldown and the hurt sound).
pub open spec fn explosion_tick(e: Explosion, p: Player, blast_w: int, blast_h: int) -> (Explosion, bool, Player, Seq<u16>) {
    let e1 = Explosion { age: (e.age + 1) as u32, ..e };
    if e1.age >= EXPLOSION_MAX_AGE {
        (e1, false, p, Seq::empty())
    } else if p.dead_timer == 0 && p.hurt_cooldown == 0 && !(p.invincible_ticks > 0 || p.in_pipe)
        && rects_overlap_spec(e.x as int, e.y as int, blast_w, blast_h, p.x as int, p.y as int, 3, 5) {
        let health = p.health - 1;
        if health <= 0 {
            (e1, true, Player { health: health as i32, dead_timer: 1, ..p }, Seq::empty())
        } else {
            (e1, true, Player { health: health as i32, hurt_cooldown: 44, ..p }, seq![snd::PLAYER_HURT])
        }
    } else {
        (e1, true, p, Seq::empty())
    }
}

/// An explosion hurts only a player who can be hurt, and by one point: a
/// player in the invincibility bubble or riding a pipe, one still
/// recovering from a hit, or one already dying leaves every tick exactly as
/// they came; anyone else loses at most one point of health, and only
/// while the explosion lives and its blast covers them.
pub proof fn lemma_explosion_spares_the_invincible(e: Explosion, p: Player, blast_w: int, blast_h: int)
    requires
        e.age < u32::MAX,
        p.health > i32::MIN,
    ensures
        ({
            let t = explosion_tick(e, p, blast_w, blast_h);
            &&& (p.invincible_ticks > 0 || p.in_pipe || p.hurt_cooldown > 0 || p.dead_timer != 0) ==> t.2 == p && t.3.len() == 0
            &&& t.2 != p ==> t.1 && t.2.health == p.health - 1
                && rects_overlap_spec(e.x as int, e.y as int, blast_w, blast_h, p.x as int, p.y as int, 3, 5)
            &&& t.0.age == e.age + 1
        }),
{
}

/// Ticks an explosion; false once it has expired.
pub fn tick_explosion(e: &mut Explosion, player: &mut Player, blast_w: i32, blast_h: i32, sounds: &mut Vec<u16>) -> (alive: bool)
    requires
        old(e).age < u32::MAX,
        old(player).health > i32::MIN,
    ensures
        ({
            let t = explosion_tick(*old(e), *old(player), blast_w as int, blast_h as int);
            &&& *final(e) == t.0
            &&& alive == t.1
            &&& *final(player) == t.2
            &&& final(sounds)@ == old(sounds)@ + t.3
        }),
{
    e.age = e.age + 1;
    if e.age >= EXPLOSION_MAX_AGE {
        assert(sounds@ == old(sounds)@ + Seq::<u16>::empty());
        return false;
    }
    if player.dead_timer == 0 && player.hurt_cooldown == 0 && !player.is_invincible()
        && rects_overlap(e.x, e.y, blast_w, blast_h, player.x, player.y, PLAYER_WIDTH, PLAYER_HEIGHT) {
        let health = player.health - 1;
        if health <= 0 {
            *player = Player { health, dead_timer: 1, ..*player };
            assert(sounds@ == old(sounds)@ + Seq::<u16>::empty());
        } else {
            *player = Player { health, hurt_cooldown: 44, ..*player };
            sounds.push(snd::PLAYER_HURT);
            assert(sounds@ == old(sounds)@ + seq![snd::PLAYER_HURT]);
        }
    } else {
        assert(sounds@ == old(sounds)@ + Seq::<u16>::empty());
    }
    true
}

/// A short-lived animated sprite drifting in a straight line: smoke,
/// sparkles, splashes. It plays its frames `times_left` times and then
/// goes; `None` runs until it leaves the view.
#[derive(Clone, Copy, PartialEq, Eq, Debug, Structural)]
pub struct Decoration {
    pub x: i32,
    pub y: i32,
    pub dx: i32,
    pub dy: i32,
    pub frame: usize,
    pub times_left: Option<u32>,
    /// How many frames it cycles.
    pub frames: usize,
}

impl Decoration {
    /// `NewDecoration`: cycles the first `num_frames` of the sprite's
    /// `available` frames (at least one), drifting along `DIR8` direction
    /// `dir8` (past the last, the last); a zero repeat count runs until it
    /// leaves the view. `None` when the sprite has no frames.
    pub fn new(num_frames: usize, available: usize, x: i32, y: i32, dir: usize, num_times: u32) -> (d: Option<Self>)
        ensures
            available == 0 ==> d is None,
            available > 0 ==> d == Some(Decoration {
                x,
                y,
                dx: dir8(if dir > 8 { 8 } else { dir as int }).0,
                dy: dir8(if dir > 8 { 8 } else { dir as int }).1,
                frame: 0,
                times_left: if num_times != 0 { Some(num_times) } else { None },
                frames: (if num_frames < 1 { 1 } else if num_frames > available { available } else { num_frames }) as usize,
            }),
    {
        if available == 0 {
            return None;
        }
        let want = if num_frames < 1 { 1 } else { num_frames };
        let frames = if want > available { available } else { want };
        let (dx, dy) = dir8_step(if dir > 8 { 8 } else { dir });
        Some(Decoration { x, y, dx, dy, frame: 0, times_left: if num_times != 0 { Some(num_times) } else { None }, frames })
    }

    /// One tick: the next frame; after a full pass a counted decoration
    /// uses up a repeat, and goes with its last (an uncounted one goes
    /// after its first pass); then it drifts. False once it is gone.
    pub fn step(&mut self) -> (alive: bool)
        requires
            old(self).frames >= 1,
            old(self).frame < old(self).frames,
            old(self).times_left != Some(0u32),
            -0x3fff_0000 <= old(self).x <= 0x3fff_0000,
            -0x3fff_0000 <= old(self).y <= 0x3fff_0000,
            -1 <= old(self).dx <= 1,
            -1 <= old(self).dy <= 1,
        ensures
            ({
                let d = *old(self);
                let f = d.frame + 1;
                if f >= d.frames {
                    match d.times_left {
                        Some(n) => if n == 1 { !alive } else {
                            alive && *final(self) == (Decoration { frame: 0, times_left: Some((n - 1) as u32), x: (d.x + d.dx) as i32, y: (d.y + d.dy) as i32, ..d })
                        },
                        None => !alive,
                    }
                } else {
                    alive && *final(self) == (Decoration { frame: f as usize, x: (d.x + d.dx) as i32, y: (d.y + d.dy) as i32, ..d })
                }
            }),
    {
        self.frame = self.frame + 1;
        if self.frame >= self.frames {
            self.frame = 0;
            match self.times_left {
                Some(n) => {
                    if n == 1 {
                        return false;
                    }
                    self.times_left = Some(n - 1);
                },
                None => {
                    return false;
                },
            }
        }
        self.x = self.x + self.dx;
        self.y = self.y + self.dy;
        true
    }
}

/// `NewPounceDecoration`: six pieces of debris radiating outward, each as
/// `(x, y, dx, dy)`, playing once.
pub open spec fn debris_pieces(x: int, y: int) -> Seq<(int, int, int, int)> {
    seq![(x + 1, y, -1, 1), (x + 3, y, 1, 1), (x + 4, y - 2, 1, 0), (x + 3, y - 4, 1, -1), (x + 1, y - 4, -1, -1), (x, y - 2, -1, 0)]
}

pub fn pounce_debris(x: i32, y: i32, frames: usize) -> (r: Vec<Decoration>)
    requires
        -0x3fff_0000 <= x <= 0x3fff_0000,
        -0x3fff_0000 <= y <= 0x3fff_0000,
    ensures
        r@.len() == 6,
        forall|i: int| 0 <= i < 6 ==> ({
            let p = debris_pieces(x as int, y as int)[i];
            #[trigger] r@[i] == (Decoration { x: p.0 as i32, y: p.1 as i32, dx: p.2 as i32, dy: p.3 as i32, frame: 0, times_left: Some(1u32), frames })
        }),
{
    let pieces: [(i32, i32, i32, i32); 6] = [(1, 0, -1, 1), (3, 0, 1, 1), (4, -2, 1, 0), (3, -4, 1, -1), (1, -4, -1, -1), (0, -2, -1, 0)];
    let mut r: Vec<Decoration> = Vec::new();
    let mut i: usize = 0;
    while i < 6
        invariant
            i <= 6,
            pieces@ == seq![(1i32, 0i32, -1i32, 1i32), (3i32, 0i32, 1i32, 1i32), (4i32, -2i32, 1i32, 0i32), (3i32, -4i32, 1i32, -1i32), (1i32, -4i32, -1i32, -1i32), (0i32, -2i32, -1i32, 0i32)],
            -0x3fff_0000 <= x <= 0x3fff_0000,
            -0x3fff_0000 <= y <= 0x3fff_0000,
            r@.len() == i,
            forall|k: int| 0 <= k < i ==> ({
                let p = debris_pieces(x as int, y as int)[k];
                #[trigger] r@[k] == (Decoration { x: p.0 as i32, y: p.1 as i32, dx: p.2 as i32, dy: p.3 as i32, frame: 0, times_left: Some(1u32), frames })
            }),
        decreases 6 - i,
    {
        let (ox, oy, dx, dy) = pieces[i];
        r.push(Decoration { x: x + ox, y: y + oy, dx, dy, frame: 0, times_left: Some(1), frames });
        i = i + 1;
    }
    r
}

/// A score pop-up: it drifts up a row a tick and is gone after ten.
#[derive(Clone, Copy, PartialEq, Eq, Debug, Structural)]
pub struct ScoreEffect {
    pub x: i32,
    pub y: i32,
    pub age: u32,
}

impl ScoreEffect {
    pub fn step(&mut self) -> (alive: bool)
        requires
            old(self).age < 11,
            old(self).y > i32::MIN,
        ensures
            alive == (old(self).age + 1 <= 10),
            alive ==> *final(self) == (ScoreEffect { age: (old(self).age + 1) as u32, y: (old(self).y - 1) as i32, ..*old(self) }),
    {
        self.age = self.age + 1;
        if self.age > 10 {
            return false;
        }
        self.y = self.y - 1;
        true
    }
}

/// A piece of debris with physics: flung upward for four ticks, then
/// falling two rows a tick, bouncing once off the first floor it meets;
/// it dies at forty, or past sixteen once out of view. The drift is one of
/// five, 0 to 4: east, west, still, double east, double west.
#[derive(Clone, Copy, PartialEq, Eq, Debug, Structural)]
pub struct Shard {
    pub x: i32,
    pub y: i32,
    pub age: u32,
    pub xmode: u32,
    pub bounced: bool,
    pub width_tiles: i32,
    pub height_tiles: i32,
}

/// The drift a shard's mode gives per tick.
pub open spec fn drift(xmode: u32) -> int {
    if xmode == 0 { 1 } else if xmode == 3 { 2 } else if xmode == 1 { -1 } else if xmode == 4 { -2 } else { 0 }
}

/// One tick of a shard's arc, `solid(x, y)` telling whether the cell is
/// floor. A bounce sends it back up to the age-3 part of its arc; it
/// bounces off the first floor it meets, at the top of its arc or on the
/// way down, and only once. The new shard, and whether it lives on.
pub open spec fn shard_step(s: Shard, solid: spec_fn(int, int) -> bool, visible: bool) -> (Shard, bool) {
    let x = s.x + drift(s.xmode);
    let y = s.y as int;
    if s.age < 5 {
        let t = Shard { x: x as i32, y: (y - 2) as i32, age: (s.age + 1) as u32, ..s };
        (t, t.age <= 40)
    } else if s.age == 5 {
        (Shard { x: x as i32, y: (y - 1) as i32, age: 6, ..s }, true)
    } else if s.age == 8 {
        if !s.bounced && solid(x, y + 1) {
            (Shard { x: x as i32, age: 4, bounced: true, ..s }, true)
        } else {
            (Shard { x: x as i32, y: (y + 1) as i32, age: 9, ..s }, true)
        }
    } else if s.age >= 9 {
        if s.age > 16 && !visible {
            (Shard { x: x as i32, ..s }, false)
        } else if !s.bounced && solid(x, y + 1) {
            (Shard { x: x as i32, y: (y - 2) as i32, age: 4, bounced: true, ..s }, true)
        } else if !s.bounced && solid(x, y + 2) {
            (Shard { x: x as i32, y: (y - 1) as i32, age: 4, bounced: true, ..s }, true)
        } else {
            let t = Shard { x: x as i32, y: (y + 2) as i32, age: (s.age + 1) as u32, ..s };
            (t, t.age <= 40)
        }
    } else {
        (Shard { x: x as i32, age: (s.age + 1) as u32, ..s }, true)
    }
}

/// Whether a shard lives through a tick for each of the visibilities in
/// `visible`, in order.
pub open spec fn shard_lives(s: Shard, solid: spec_fn(int, int) -> bool, visible: Seq<bool>) -> bool
    decreases visible.len(),
{
    if visible.len() == 0 {
        true
    } else {
        let (t, alive) = shard_step(s, solid, visible[0]);
        alive && shard_lives(t, solid, visible.drop_first())
    }
}

/// How many more ticks a shard can live at most: up to forty, plus one
/// more climb from age four if its bounce is still to come.
pub open spec fn shard_budget(s: Shard) -> int {
    (if s.bounced { 0int } else { 37int }) + 40 - s.age
}

/// No shard lives for ever: whatever the floors and whatever it is seen
/// through, a shard not yet past forty is spent within `shard_budget + 1`
/// ticks, at most seventy-eight.
pub proof fn lemma_shard_dies(s: Shard, solid: spec_fn(int, int) -> bool, visible: Seq<bool>)
    requires
        s.age <= 40,
        visible.len() > shard_budget(s),
    ensures
        !shard_lives(s, solid, visible),
        shard_budget(s) <= 77,
    decreases visible.len(),
{
    let (t, alive) = shard_step(s, solid, visible[0]);
    if alive {
        assert(t.age <= 40);
        assert(shard_budget(t) < shard_budget(s));
        lemma_shard_dies(t, solid, visible.drop_first());
    }
}

/// A shard bounces at most once: a tick never clears `bounced`, and a tick
/// that sends the shard back up its arc (to age four from age eight or
/// more) is one on which it had not bounced yet and now has.
pub proof fn lemma_shard_bounces_once(s: Shard, solid: spec_fn(int, int) -> bool, visible: bool)
    requires
        s.age < 0x1000_0000,
    ensures
        s.bounced ==> shard_step(s, solid, visible).0.bounced,
        s.age >= 8 && shard_step(s, solid, visible).0.age == 4 ==> !s.bounced && shard_step(s, solid, visible).0.bounced,
{
}

/// What a floor probe answers, taken as a function of the cell.
pub open spec fn answer<F: Fn(i32, i32) -> bool>(f: F) -> spec_fn(int, int) -> bool {
    |x: int, y: int| choose|b: bool| #[trigger] f.ensures((x as i32, y as i32), b)
}

/// Moves a shard one tick; false when it is spent. `solid_below(x, y)`
/// tells whether the cell is floor.
pub fn step_shard<F: Fn(i32, i32) -> bool>(sh: &mut Shard, solid_below: F, visible: bool) -> (alive: bool)
    requires
        forall|x: i32, y: i32| solid_below.requires((x, y)),
        forall|x: i32, y: i32, a: bool, b: bool| solid_below.ensures((x, y), a) && solid_below.ensures((x, y), b) ==> a == b,
        -0x3fff_0000 <= old(sh).x <= 0x3fff_0000,
        -0x3fff_0000 <= old(sh).y <= 0x3fff_0000,
        old(sh).age < 0x1000_0000,
    ensures
        (*final(sh), alive) == shard_step(*old(sh), answer(solid_below), visible),
{
    let x = if sh.xmode == 0 {
        sh.x + 1
    } else if sh.xmode == 3 {
        sh.x + 2
    } else if sh.xmode == 1 {
        sh.x - 1
    } else if sh.xmode == 4 {
        sh.x - 2
    } else {
        sh.x
    };
    let y = sh.y;
    if sh.age < 5 {
        *sh = Shard { x, y: y - 2, age: sh.age + 1, ..*sh };
        sh.age <= 40
    } else if sh.age == 5 {
        *sh = Shard { x, y: y - 1, age: 6, ..*sh };
        true
    } else if sh.age == 8 {
        let below = if sh.bounced {
            false
        } else {
            let b = solid_below(x, y + 1);
            proof {
                assert(answer(solid_below)(x as int, y + 1) == b);
            }
            b
        };
        if below {
            *sh = Shard { x, age: 4, bounced: true, ..*sh };
        } else {
            *sh = Shard { x, y: y + 1, age: 9, ..*sh };
        }
        true
    } else if sh.age >= 9 {
        if sh.age > 16 && !visible {
            *sh = Shard { x, ..*sh };
            return false;
        }
        if !sh.bounced {
            let first = solid_below(x, y + 1);
            proof {
                assert(answer(solid_below)(x as int, y + 1) == first);
            }
            if first {
                *sh = Shard { x, y: y - 2, age: 4, bounced: true, ..*sh };
                return true;
            }
            let second = solid_below(x, y + 2);
            proof {
                assert(answer(solid_below)(x as int, y + 2) == second);
            }
            if second {
                *sh = Shard { x, y: y - 1, age: 4, bounced: true, ..*sh };
                return true;
            }
        }
        *sh = Shard { x, y: y + 2, age: sh.age + 1, ..*sh };
        sh.age <= 40
    } else {
        *sh = Shard { x, age: sh.age + 1, ..*sh };
        true
    }
}

/// `NewShard`'s drift: one counter shared by every shard and never reset,
/// so consecutive pieces fan out.
pub fn next_xmode(xmode: &mut u32) -> (r: u32)
    requires
        *old(xmode) < u32::MAX,
    ensures
        r == (*old(xmode) + 1) % 5,
        *final(xmode) == r,
{
    *xmode = (*xmode + 1) % 5;
    *xmode
}

} // verus!
