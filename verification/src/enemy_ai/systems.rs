//! The passes that run over all the actors at once after their turns:
//! handing what each turn queued to the world and the player, the force
//! field beams' damage, the transporters, the scooter, the pipes and the
//! boss's win.
use vstd::prelude::*;
use crate::collide::{rects_overlap, rects_overlap_spec};
use crate::effects::{dir8, dir8_step};
use crate::enemy_ai::fixtures::{beam_rect, beam_rect_spec, has_beam};
use crate::enemy_ai::{Enemy, EnemyKind, Queued, SeenBubbles, TransporterState};
use crate::flow::Score;
use crate::hints::{touching_player, touching_spec};
use crate::player::{FaceDir, Player, Push, PLAYER_HEIGHT, PLAYER_WIDTH};
use crate::sfx::snd;

verus! {

/// Everything the actors' turns queued, gathered in actor order.
pub struct Drained {
    pub spawns: Vec<(u16, i32, i32)>,
    pub tile_writes: Vec<(i32, i32, u16)>,
    pub decorations: Vec<(u16, usize, i32, i32, usize, u32)>,
    pub sounds: Vec<u16>,
    pub shards: Vec<(u16, usize, i32, i32)>,
    pub explosions: Vec<(i32, i32)>,
    pub score_effects: Vec<(i32, i32)>,
    /// Speech bubbles that passed their one-shot gate, as `(ACT_*, x, y)`.
    pub bubbles: Vec<(u16, i32, i32)>,
    /// The points earned.
    pub score: u64,
}

/// The first `n` actors' `f`, one after the other.
pub open spec fn gather<T>(es: Seq<Enemy>, f: spec_fn(Enemy) -> Seq<T>, n: int) -> Seq<T>
    decreases n,
{
    if n <= 0 {
        Seq::empty()
    } else {
        gather(es, f, n - 1) + f(es[n - 1])
    }
}

/// The points the first `n` actors earned.
pub open spec fn score_sum(es: Seq<Enemy>, n: int) -> int
    decreases n,
{
    if n <= 0 {
        0
    } else {
        score_sum(es, n - 1) + es[n - 1].score_award
    }
}

/// What an actor's requests do to the player: a rocket's lift pins them to
/// its nose, out of any fall and pulled up a row a tick; a trap holds them;
/// a shove starts (neither abortable nor blockable-free: as the pusher
/// robot sets it).
pub open spec fn hand_over(p: Player, e: Enemy) -> Player {
    let p1 = if e.carry_player {
        Player {
            is_falling: false,
            fall_time: 0,
            recoil_left: 16,
            is_recoiling: true,
            dizzy_queued: false,
            dizzy_left: 0,
            long_jumping: false,
            y: (e.y - 5) as i32,
            ..p
        }
    } else {
        p
    };
    let p2 = if e.hold_player > 0 { Player { held_ticks: e.hold_player, ..p1 } } else { p1 };
    match e.push_player {
        Some(s) => Player {
            push: Some(Push { dx: s.0, dy: s.1, speed: s.3, time: 0, max_time: s.2, abortable: false, blockable: true }),
            ..p2
        },
        None => p2,
    }
}

/// The player after the first `n` actors' requests.
pub open spec fn handed(es: Seq<Enemy>, p: Player, n: int) -> Player
    decreases n,
{
    if n <= 0 {
        p
    } else {
        hand_over(handed(es, p, n - 1), es[n - 1])
    }
}

/// A bubble's one-shot gate: the pusher robot's, the bear trap's, the
/// mystery wall's (raised by its foot switch) and the boss's fire once;
/// any other actor's always. The flags after, and whether it fires.
pub open spec fn bubble_gate(s: SeenBubbles, kind: EnemyKind) -> (SeenBubbles, bool) {
    match kind {
        EnemyKind::PusherRobot => if s.pusher_robot { (s, false) } else { (SeenBubbles { pusher_robot: true, ..s }, true) },
        EnemyKind::BearTrap => if s.bear_trap { (s, false) } else { (SeenBubbles { bear_trap: true, ..s }, true) },
        EnemyKind::FootSwitch => if s.mystery_wall { (s, false) } else { (SeenBubbles { mystery_wall: true, ..s }, true) },
        EnemyKind::Boss => if s.boss { (s, false) } else { (SeenBubbles { boss: true, ..s }, true) },
        _ => (s, true),
    }
}

/// The one-shot flags after the first `n` actors' bubbles.
pub open spec fn seen_after(es: Seq<Enemy>, s: SeenBubbles, n: int) -> SeenBubbles
    decreases n,
{
    if n <= 0 {
        s
    } else {
        let prev = seen_after(es, s, n - 1);
        if es[n - 1].bubble is Some { bubble_gate(prev, es[n - 1].kind).0 } else { prev }
    }
}

/// The bubbles raised among the first `n` actors, in order.
pub open spec fn bubbles_raised(es: Seq<Enemy>, s: SeenBubbles, n: int) -> Seq<(u16, i32, i32)>
    decreases n,
{
    if n <= 0 {
        Seq::empty()
    } else {
        let prev = bubbles_raised(es, s, n - 1);
        let e = es[n - 1];
        match e.bubble {
            Some(act) => if bubble_gate(seen_after(es, s, n - 1), e.kind).1 { prev.push((act, e.x, e.y)) } else { prev },
            None => prev,
        }
    }
}

impl Enemy {
    /// `self` is `before` with every request handed over.
    pub open spec fn emptied(&self, before: &Enemy) -> bool {
        &&& self.body() == before.body()
        &&& self.spawns@.len() == 0
        &&& self.tile_writes@.len() == 0
        &&& self.decorations@.len() == 0
        &&& self.sounds@.len() == 0
        &&& self.shards@.len() == 0
        &&& self.explosions@.len() == 0
        &&& self.score_effects@.len() == 0
        &&& self.score_award == 0
        &&& self.bubble is None
        &&& self.carry_player == false
        &&& self.hold_player == 0
        &&& self.push_player is None
        &&& self.won_level == before.won_level
    }

    /// Takes every request out of this actor's queues.
    pub fn take_requests(&mut self) -> (q: Queued)
        ensures
            final(self).emptied(old(self)),
            q.spawns@ == old(self).spawns@,
            q.tile_writes@ == old(self).tile_writes@,
            q.decorations@ == old(self).decorations@,
            q.sounds@ == old(self).sounds@,
            q.shards@ == old(self).shards@,
            q.explosions@ == old(self).explosions@,
            q.score_effects@ == old(self).score_effects@,
            q.score == old(self).score_award,
            q.bubble == old(self).bubble,
            q.push == old(self).push_player,
            q.carry == old(self).carry_player,
    {
        let mut q = Queued::new();
        std::mem::swap(&mut q.spawns, &mut self.spawns);
        std::mem::swap(&mut q.tile_writes, &mut self.tile_writes);
        std::mem::swap(&mut q.decorations, &mut self.decorations);
        std::mem::swap(&mut q.sounds, &mut self.sounds);
        std::mem::swap(&mut q.shards, &mut self.shards);
        std::mem::swap(&mut q.explosions, &mut self.explosions);
        std::mem::swap(&mut q.score_effects, &mut self.score_effects);
        q.score = self.score_award;
        self.score_award = 0;
        q.bubble = self.bubble;
        self.bubble = None;
        q.push = self.push_player;
        self.push_player = None;
        q.carry = self.carry_player;
        self.carry_player = false;
        self.hold_player = 0;
        q
    }
}

/// Applies one actor's requests to the player, from the actor as it was.
fn hand_over_exec(p: &mut Player, carry: bool, y: i32, hold: u32, push: Option<(i32, i32, u32, u32)>, Ghost(e): Ghost<Enemy>)
    requires
        carry == e.carry_player,
        y == e.y,
        hold == e.hold_player,
        push == e.push_player,
        carry ==> y >= i32::MIN + 5,
    ensures
        *final(p) == hand_over(*old(p), e),
{
    let p1 = if carry {
        Player {
            is_falling: false,
            fall_time: 0,
            recoil_left: 16,
            is_recoiling: true,
            dizzy_queued: false,
            dizzy_left: 0,
            long_jumping: false,
            y: y - 5,
            ..*p
        }
    } else {
        *p
    };
    let p2 = if hold > 0 { Player { held_ticks: hold, ..p1 } } else { p1 };
    let p3 = match push {
        Some(s) => Player {
            push: Some(Push { dx: s.0, dy: s.1, speed: s.3, time: 0, max_time: s.2, abortable: false, blockable: true }),
            ..p2
        },
        None => p2,
    };
    *p = p3;
}

/// A bubble's one-shot gate, on the flags.
fn gate_bubble(seen: &mut SeenBubbles, kind: EnemyKind) -> (fire: bool)
    ensures
        (*final(seen), fire) == bubble_gate(*old(seen), kind),
{
    match kind {
        EnemyKind::PusherRobot => {
            let fire = !seen.pusher_robot;
            seen.pusher_robot = true;
            fire
        },
        EnemyKind::BearTrap => {
            let fire = !seen.bear_trap;
            seen.bear_trap = true;
            fire
        },
        EnemyKind::FootSwitch => {
            let fire = !seen.mystery_wall;
            seen.mystery_wall = true;
            fire
        },
        EnemyKind::Boss => {
            let fire = !seen.boss;
            seen.boss = true;
            fire
        },
        _ => true,
    }
}

/// The first half of `spawn_queued_actors`: takes every request the
/// actors' turns queued, in actor order, handing the player theirs (a lift,
/// a hold, a shove) and passing each bubble through its one-shot gate. What
/// is left to build, write, play and show comes back together.
pub fn spawn_queued_actors(enemies: &mut Vec<Enemy>, player: &mut Player, seen: &mut SeenBubbles) -> (d: Drained)
    requires
        old(enemies)@.len() <= u32::MAX,
        forall|j: int| 0 <= j < old(enemies)@.len() && (#[trigger] old(enemies)@[j]).carry_player ==> old(enemies)@[j].y >= i32::MIN + 5,
    ensures
        final(enemies)@.len() == old(enemies)@.len(),
        forall|j: int| 0 <= j < old(enemies)@.len() ==> (#[trigger] final(enemies)@[j]).emptied(&old(enemies)@[j]),
        d.spawns@ == gather(old(enemies)@, |e: Enemy| e.spawns@, old(enemies)@.len() as int),
        d.tile_writes@ == gather(old(enemies)@, |e: Enemy| e.tile_writes@, old(enemies)@.len() as int),
        d.decorations@ == gather(old(enemies)@, |e: Enemy| e.decorations@, old(enemies)@.len() as int),
        d.sounds@ == gather(old(enemies)@, |e: Enemy| e.sounds@, old(enemies)@.len() as int),
        d.shards@ == gather(old(enemies)@, |e: Enemy| e.shards@, old(enemies)@.len() as int),
        d.explosions@ == gather(old(enemies)@, |e: Enemy| e.explosions@, old(enemies)@.len() as int),
        d.score_effects@ == gather(old(enemies)@, |e: Enemy| e.score_effects@, old(enemies)@.len() as int),
        d.score == score_sum(old(enemies)@, old(enemies)@.len() as int),
        d.bubbles@ == bubbles_raised(old(enemies)@, *old(seen), old(enemies)@.len() as int),
        *final(seen) == seen_after(old(enemies)@, *old(seen), old(enemies)@.len() as int),
        *final(player) == handed(old(enemies)@, *old(player), old(enemies)@.len() as int),
{
    let ghost es = enemies@;
    let ghost p0 = *player;
    let ghost s0 = *seen;
    let mut d = Drained {
        spawns: Vec::new(),
        tile_writes: Vec::new(),
        decorations: Vec::new(),
        sounds: Vec::new(),
        shards: Vec::new(),
        explosions: Vec::new(),
        score_effects: Vec::new(),
        bubbles: Vec::new(),
        score: 0,
    };
    let n = enemies.len();
    let mut i: usize = 0;
    while i < n
        invariant
            n == es.len(),
            n <= u32::MAX,
            enemies@.len() == n,
            0 <= i <= n,
            forall|j: int| 0 <= j < n && (#[trigger] es[j]).carry_player ==> es[j].y >= i32::MIN + 5,
            forall|j: int| 0 <= j < i ==> (#[trigger] enemies@[j]).emptied(&es[j]),
            forall|j: int| i <= j < n ==> #[trigger] enemies@[j] == es[j],
            d.spawns@ == gather(es, |e: Enemy| e.spawns@, i as int),
            d.tile_writes@ == gather(es, |e: Enemy| e.tile_writes@, i as int),
            d.decorations@ == gather(es, |e: Enemy| e.decorations@, i as int),
            d.sounds@ == gather(es, |e: Enemy| e.sounds@, i as int),
            d.shards@ == gather(es, |e: Enemy| e.shards@, i as int),
            d.explosions@ == gather(es, |e: Enemy| e.explosions@, i as int),
            d.score_effects@ == gather(es, |e: Enemy| e.score_effects@, i as int),
            d.score == score_sum(es, i as int),
            d.score <= i * 0xffff_ffff,
            d.bubbles@ == bubbles_raised(es, s0, i as int),
            *seen == seen_after(es, s0, i as int),
            *player == handed(es, p0, i as int),
        decreases n - i,
    {
        let ghost e = es[i as int];
        let kind = enemies[i].kind;
        let x = enemies[i].x;
        let y = enemies[i].y;
        let hold = enemies[i].hold_player;
        let ghost before = enemies@;
        let mut q = Enemy::take_requests(&mut enemies[i]);
        proof {
            assert(enemies@ == before.update(i as int, enemies@[i as int]));
        }
        d.spawns.append(&mut q.spawns);
        d.tile_writes.append(&mut q.tile_writes);
        d.decorations.append(&mut q.decorations);
        d.sounds.append(&mut q.sounds);
        d.shards.append(&mut q.shards);
        d.explosions.append(&mut q.explosions);
        d.score_effects.append(&mut q.score_effects);
        assert(d.score + q.score <= (i + 1) * 0xffff_ffff) by (nonlinear_arith)
            requires
                d.score <= i * 0xffff_ffff,
                q.score <= 0xffff_ffff,
        ;
        assert((i + 1) * 0xffff_ffff <= 0xffff_ffff * 0xffff_ffff) by (nonlinear_arith)
            requires
                i + 1 <= 0xffff_ffff,
        ;
        d.score = d.score + q.score as u64;
        hand_over_exec(player, q.carry, y, hold, q.push, Ghost(e));
        if let Some(act) = q.bubble {
            let fire = gate_bubble(seen, kind);
            if fire {
                d.bubbles.push((act, x, y));
            }
        }
        i = i + 1;
    }
    d
}

/// The second half's bookkeeping: the points the actors earned go onto the
/// score.
pub fn credit(score: &mut Score, d: &Drained)
    requires
        old(score).0 + d.score <= u32::MAX,
    ensures
        final(score).0 == old(score).0 + d.score,
{
    score.0 = score.0 + d.score as u32;
}

/// The first of `es` from `i` on that `pred` holds of.
pub open spec fn first_from(es: Seq<Enemy>, pred: spec_fn(Enemy) -> bool, i: int) -> Option<int>
    decreases es.len() - i,
{
    if i < 0 || i >= es.len() {
        None
    } else if pred(es[i]) {
        Some(i)
    } else {
        first_from(es, pred, i + 1)
    }
}

/// Whether an actor's beam covers any of the player's cells.
pub open spec fn beam_hits(e: Enemy, p: Player) -> bool {
    match beam_rect_spec(&e) {
        Some(r) => rects_overlap_spec(r.0 as int, r.1 + r.3 - 1, r.2 as int, r.3 as int, p.x as int, p.y as int, 3, 5),
        None => false,
    }
}

/// `HurtPlayer` from a beam: the player lets go of any wall and loses a
/// unit of health; the last one starts the death, any other the
/// invincibility cooldown and the hurt sound.
pub open spec fn beam_hurt(p: Player) -> (Player, Seq<u16>) {
    let health = p.health - 1;
    if health <= 0 {
        (Player { cling_dir: None, health: health as i32, dead_timer: 1, ..p }, Seq::empty())
    } else {
        (Player { cling_dir: None, health: health as i32, hurt_cooldown: 44, ..p }, seq![snd::PLAYER_HURT])
    }
}

/// The beams' damage: nothing while the player is dead, invincible or
/// recovering; otherwise standing anywhere in a beam hurts, once a tick.
pub open spec fn beam_damage_spec(es: Seq<Enemy>, p: Player) -> (Player, Seq<u16>) {
    if p.dead_timer != 0 || p.invincible_ticks > 0 || p.in_pipe || p.hurt_cooldown > 0 {
        (p, Seq::empty())
    } else if exists|j: int| 0 <= j < es.len() && beam_hits(#[trigger] es[j], p) {
        beam_hurt(p)
    } else {
        (p, Seq::empty())
    }
}

/// The cells a beam's rectangle is drawn as: a vertical one grows upward
/// from its bottom, a horizontal one rightward from its left end.
pub open spec fn beam_cells_spec(bx: int, by: int, bw: int, bh: int) -> Seq<(i32, i32)> {
    let want = if bw > bh { bw } else { bh };
    Seq::new(if want > 0 { want as nat } else { 0 }, |i: int| if bw == 1 { (bx as i32, (by + want - 1 - i) as i32) } else { ((bx + i) as i32, by as i32) })
}

/// The cells one beam covers, for drawing it.
pub fn beam_cells(bx: i32, by: i32, bw: i32, bh: i32) -> (r: Vec<(i32, i32)>)
    requires
        -0x3fff_0000 <= bx <= 0x3fff_0000,
        -0x3fff_0000 <= by <= 0x3fff_0000,
        bw <= 0x3fff_0000,
        bh <= 0x3fff_0000,
    ensures
        r@ == beam_cells_spec(bx as int, by as int, bw as int, bh as int),
{
    let want = if bw > bh { bw } else { bh };
    let mut cells: Vec<(i32, i32)> = Vec::new();
    let mut i: i32 = 0;
    while i < want
        invariant
            0 <= i,
            want <= 0x3fff_0000,
            want == (if bw > bh { bw } else { bh }),
            i <= (if want > 0 { want } else { 0 }),
            -0x3fff_0000 <= bx <= 0x3fff_0000,
            -0x3fff_0000 <= by <= 0x3fff_0000,
            cells@ == beam_cells_spec(bx as int, by as int, bw as int, bh as int).subrange(0, i as int),
        decreases want - i,
    {
        let cell = if bw == 1 { (bx, by + want - 1 - i) } else { (bx + i, by) };
        proof {
            let all = beam_cells_spec(bx as int, by as int, bw as int, bh as int);
            assert(all.subrange(0, i + 1) =~= all.subrange(0, i as int).push(all[i as int]));
        }
        cells.push(cell);
        i = i + 1;
    }
    proof {
        let all = beam_cells_spec(bx as int, by as int, bw as int, bh as int);
        assert(all.subrange(0, all.len() as int) =~= all);
    }
    cells
}

/// The damage half of `draw_force_field_beams`: standing in any live force
/// field's or beam robot's beam hurts the player as touching it would.
pub fn draw_force_field_beams(enemies: &Vec<Enemy>, player: &mut Player, sounds: &mut Vec<u16>)
    requires
        forall|j: int| 0 <= j < enemies@.len() ==> (#[trigger] enemies@[j]).bounded(),
        old(player).health > i32::MIN,
    ensures
        *final(player) == beam_damage_spec(enemies@, *old(player)).0,
        final(sounds)@ == old(sounds)@ + beam_damage_spec(enemies@, *old(player)).1,
{
    if player.dead_timer != 0 || player.is_invincible() || player.hurt_cooldown > 0 {
        assert(sounds@ == old(sounds)@ + Seq::<u16>::empty());
        return;
    }
    let mut i: usize = 0;
    while i < enemies.len()
        invariant
            i <= enemies@.len(),
            *player == *old(player),
            *sounds == *old(sounds),
            old(player).health > i32::MIN,
            old(player).dead_timer == 0 && old(player).invincible_ticks == 0 && !old(player).in_pipe && old(player).hurt_cooldown == 0,
            forall|j: int| 0 <= j < enemies@.len() ==> (#[trigger] enemies@[j]).bounded(),
            forall|j: int| 0 <= j < i ==> !beam_hits(#[trigger] enemies@[j], *player),
        decreases enemies@.len() - i,
    {
        let e = &enemies[i];
        if has_beam(e) {
            if let Some((bx, by, bw, bh)) = beam_rect(e) {
                if rects_overlap(bx, by + bh - 1, bw, bh, player.x, player.y, PLAYER_WIDTH, PLAYER_HEIGHT) {
                    assert(beam_hits(enemies@[i as int], *old(player)));
                    let health = player.health - 1;
                    if health <= 0 {
                        *player = Player { cling_dir: None, health, dead_timer: 1, ..*player };
                        assert(sounds@ == old(sounds)@ + Seq::<u16>::empty());
                    } else {
                        *player = Player { cling_dir: None, health, hurt_cooldown: 44, ..*player };
                        sounds.push(snd::PLAYER_HURT);
                        assert(sounds@ == old(sounds)@ + seq![snd::PLAYER_HURT]);
                    }
                    return;
                }
            }
        }
        i = i + 1;
    }
    assert(sounds@ == old(sounds)@ + Seq::<u16>::empty());
}

/// A live scooter right under a falling player.
pub open spec fn scooter_under(e: Enemy, p: Player) -> bool {
    e.kind == EnemyKind::Scooter && !e.dead && e.x == p.x && (e.y == p.y || e.y + 1 == p.y)
}

/// Landing on a scooter while falling mounts it: four ticks of forced lift,
/// then free flight.
pub open spec fn mount_spec(es: Seq<Enemy>, p: Player) -> (Player, Seq<u16>) {
    if p.scooter != 0 || p.dead_timer != 0 || !p.is_falling {
        (p, Seq::empty())
    } else if exists|j: int| 0 <= j < es.len() && scooter_under(#[trigger] es[j], p) {
        (Player { scooter: 4, is_falling: false, fall_time: 0, push: None, ..p }, seq![snd::PLAYER_LAND])
    } else {
        (p, Seq::empty())
    }
}

pub fn mount_scooter(enemies: &Vec<Enemy>, player: &mut Player, sounds: &mut Vec<u16>)
    ensures
        *final(player) == mount_spec(enemies@, *old(player)).0,
        final(sounds)@ == old(sounds)@ + mount_spec(enemies@, *old(player)).1,
{
    if player.scooter != 0 || player.dead_timer != 0 || !player.is_falling {
        assert(sounds@ == old(sounds)@ + Seq::<u16>::empty());
        return;
    }
    let mut i: usize = 0;
    while i < enemies.len()
        invariant
            i <= enemies@.len(),
            *player == *old(player),
            *sounds == *old(sounds),
            old(player).scooter == 0 && old(player).dead_timer == 0 && old(player).is_falling,
            forall|j: int| 0 <= j < i ==> !scooter_under(#[trigger] enemies@[j], *player),
        decreases enemies@.len() - i,
    {
        let e = &enemies[i];
        let under = e.kind == EnemyKind::Scooter && !e.dead && e.x == player.x
            && (e.y == player.y || e.y as i64 + 1 == player.y as i64);
        if under {
            assert(scooter_under(enemies@[i as int], *old(player)));
            *player = Player { scooter: 4, is_falling: false, fall_time: 0, push: None, ..*player };
            sounds.push(snd::PLAYER_LAND);
            assert(sounds@ == old(sounds)@ + seq![snd::PLAYER_LAND]);
            return;
        }
        i = i + 1;
    }
    assert(sounds@ == old(sounds)@ + Seq::<u16>::empty());
}

/// One pipe piece acting on the player: a corner shoves someone inside
/// the network along its leg (unabortable, unblockable, with a clank); an
/// end is an entrance while the player is outside and standing, and spits
/// a carried one out, dizzy.
pub open spec fn pipe_step(p: Player, e: Enemy) -> (Player, Seq<u16>) {
    if e.dead {
        (p, Seq::empty())
    } else if e.kind == EnemyKind::PipeCorner {
        if !p.in_pipe || !touching_spec(p, e.x as int, e.y as int, e.width_tiles as int, e.height_tiles as int) {
            (p, Seq::empty())
        } else {
            let d = dir8(((e.d5 as usize) % 9) as int);
            (Player { push: Some(Push { dx: d.0, dy: d.1, speed: 2, time: 0, max_time: 100, abortable: false, blockable: false }), ..p },
                seq![snd::PIPE_CORNER_HIT])
        }
    } else if e.kind == EnemyKind::PipeEnd {
        let at_mouth = e.x == p.x && (e.y + 3 == p.y || e.y + 2 == p.y);
        if !at_mouth {
            (p, Seq::empty())
        } else if p.in_pipe && p.push is Some {
            (Player { x: e.x, in_pipe: false, push: None, dizzy_queued: true, ..p }, Seq::empty())
        } else if !p.in_pipe && !p.is_falling {
            (Player { in_pipe: true, ..p }, Seq::empty())
        } else {
            (p, Seq::empty())
        }
    } else {
        (p, Seq::empty())
    }
}

/// The player and the sounds after the first `n` pipe pieces.
pub open spec fn pipes_after(es: Seq<Enemy>, p: Player, n: int) -> (Player, Seq<u16>)
    decreases n,
{
    if n <= 0 {
        (p, Seq::empty())
    } else {
        let prev = pipes_after(es, p, n - 1);
        let step = pipe_step(prev.0, es[n - 1]);
        (step.0, prev.1 + step.1)
    }
}

/// The pipe network, every piece in turn; nothing while the player is dead.
pub fn run_pipes(enemies: &Vec<Enemy>, player: &mut Player, sounds: &mut Vec<u16>)
    ensures
        old(player).dead_timer != 0 ==> *final(player) == *old(player) && final(sounds)@ == old(sounds)@,
        old(player).dead_timer == 0 ==> *final(player) == pipes_after(enemies@, *old(player), enemies@.len() as int).0
            && final(sounds)@ == old(sounds)@ + pipes_after(enemies@, *old(player), enemies@.len() as int).1,
{
    if player.dead_timer != 0 {
        return;
    }
    let ghost s0 = sounds@;
    let mut i: usize = 0;
    while i < enemies.len()
        invariant
            i <= enemies@.len(),
            *player == pipes_after(enemies@, *old(player), i as int).0,
            sounds@ == s0 + pipes_after(enemies@, *old(player), i as int).1,
        decreases enemies@.len() - i,
    {
        let ghost before = sounds@;
        let e = &enemies[i];
        if !e.dead {
            if e.kind == EnemyKind::PipeCorner {
                if player.in_pipe && touching_player(player, e.x, e.y, e.width_tiles, e.height_tiles) {
                    let (dx, dy) = dir8_step((e.d5 as usize) % 9);
                    player.push = Some(Push { dx, dy, speed: 2, time: 0, max_time: 100, abortable: false, blockable: false });
                    sounds.push(snd::PIPE_CORNER_HIT);
                }
            } else if e.kind == EnemyKind::PipeEnd {
                let at_mouth = e.x == player.x && (e.y as i64 + 3 == player.y as i64 || e.y as i64 + 2 == player.y as i64);
                if at_mouth {
                    if player.in_pipe && player.push.is_some() {
                        player.x = e.x;
                        player.in_pipe = false;
                        player.push = None;
                        player.dizzy_queued = true;
                    } else if !player.in_pipe && !player.is_falling {
                        player.in_pipe = true;
                    }
                }
            }
        }
        proof {
            let step = pipe_step(pipes_after(enemies@, *old(player), i as int).0, enemies@[i as int]);
            assert(sounds@ == before + step.1);
        }
        i = i + 1;
    }
}

/// What a transporter tick ended in.
#[derive(Clone, Copy, PartialEq, Eq, Debug, Structural)]
pub enum Transport {
    /// Nothing to do beyond the countdown.
    Idle,
    /// Pad 3 was used: the level is won.
    Won,
    /// The player was moved to the other pad; the view goes with them.
    Moved,
}

/// A live transporter pad the player stands on.
pub open spec fn pad_touched(e: Enemy, p: Player) -> bool {
    e.kind == EnemyKind::Transporter && !e.dead
        && touching_spec(p, e.x as int, e.y as int, e.width_tiles as int, e.height_tiles as int)
}

/// A live pad that is neither the one stepped into nor an exit.
pub open spec fn pad_dest(e: Enemy, active: i32) -> bool {
    e.kind == EnemyKind::Transporter && !e.dead && e.d5 != active && e.d5 != 3
}

/// `ActTransporter`: stepping onto a pad starts a fifteen-tick countdown;
/// at its end the player moves to the other pad (landing one column in),
/// or pad 3 wins the level instead of moving anyone.
pub open spec fn transport_spec(es: Seq<Enemy>, s: TransporterState, p: Player) -> (TransporterState, Player, Transport, Seq<u16>) {
    if s.active == 0 {
        match first_from(es, |e: Enemy| pad_touched(e, p), 0) {
            Some(j) => (TransporterState { active: es[j].d5, time_left: 15 }, p, Transport::Idle, seq![snd::TRANSPORTER_ON]),
            None => (s, p, Transport::Idle, Seq::empty()),
        }
    } else if s.time_left > 1 {
        (TransporterState { time_left: (s.time_left - 1) as i32, ..s }, p, Transport::Idle, Seq::empty())
    } else if s.active == 3 {
        (TransporterState { active: 0, time_left: 0 }, p, Transport::Won, seq![snd::WIN_LEVEL])
    } else {
        let done = TransporterState { active: 0, time_left: 0 };
        match first_from(es, |e: Enemy| pad_dest(e, s.active), 0) {
            Some(j) => (done, Player { x: (es[j].x + 1) as i32, y: es[j].y, is_recoiling: false, ..p }, Transport::Moved, Seq::empty()),
            None => (done, p, Transport::Idle, Seq::empty()),
        }
    }
}

pub fn run_transporters(enemies: &Vec<Enemy>, state: &mut TransporterState, player: &mut Player, sounds: &mut Vec<u16>) -> (r: Transport)
    requires
        forall|j: int| 0 <= j < enemies@.len() ==> (#[trigger] enemies@[j]).x < i32::MAX,
    ensures
        ({
            let t = transport_spec(enemies@, *old(state), *old(player));
            &&& *final(state) == t.0
            &&& *final(player) == t.1
            &&& r == t.2
            &&& final(sounds)@ == old(sounds)@ + t.3
        }),
{
    let ghost es = enemies@;
    let ghost p0 = *player;
    if state.active == 0 {
        let mut i: usize = 0;
        while i < enemies.len()
            invariant
                i <= es.len(),
                es == enemies@,
                *player == p0,
                p0 == *old(player),
                *state == *old(state),
                old(state).active == 0,
                sounds@ == old(sounds)@,
                first_from(es, |e: Enemy| pad_touched(e, p0), 0) == first_from(es, |e: Enemy| pad_touched(e, p0), i as int),
            decreases es.len() - i,
        {
            let e = &enemies[i];
            if e.kind == EnemyKind::Transporter && !e.dead && touching_player(player, e.x, e.y, e.width_tiles, e.height_tiles) {
                assert(first_from(es, |e: Enemy| pad_touched(e, p0), i as int) == Some(i as int));
                state.active = e.d5;
                state.time_left = 15;
                sounds.push(snd::TRANSPORTER_ON);
                assert(sounds@ == old(sounds)@ + seq![snd::TRANSPORTER_ON]);
                return Transport::Idle;
            }
            i = i + 1;
        }
        assert(sounds@ == old(sounds)@ + Seq::<u16>::empty());
        return Transport::Idle;
    }
    if state.time_left > 1 {
        state.time_left = state.time_left - 1;
        assert(sounds@ == old(sounds)@ + Seq::<u16>::empty());
        return Transport::Idle;
    }
    if state.active == 3 {
        sounds.push(snd::WIN_LEVEL);
        assert(sounds@ == old(sounds)@ + seq![snd::WIN_LEVEL]);
        state.active = 0;
        state.time_left = 0;
        return Transport::Won;
    }
    let active = state.active;
    state.active = 0;
    state.time_left = 0;
    assert(sounds@ == old(sounds)@ + Seq::<u16>::empty());
    let mut i: usize = 0;
    while i < enemies.len()
        invariant
            i <= es.len(),
            es == enemies@,
            *player == p0,
            p0 == *old(player),
            sounds@ == old(sounds)@,
            active == old(state).active,
            old(state).active != 0 && old(state).time_left <= 1 && old(state).active != 3,
            *state == (TransporterState { active: 0, time_left: 0 }),
            forall|j: int| 0 <= j < es.len() ==> (#[trigger] es[j]).x < i32::MAX,
            first_from(es, |e: Enemy| pad_dest(e, active), 0) == first_from(es, |e: Enemy| pad_dest(e, active), i as int),
        decreases es.len() - i,
    {
        let e = &enemies[i];
        if e.kind == EnemyKind::Transporter && !e.dead && e.d5 != active && e.d5 != 3 {
            assert(first_from(es, |e: Enemy| pad_dest(e, active), i as int) == Some(i as int));
            *player = Player { x: e.x + 1, y: e.y, is_recoiling: false, ..*player };
            return Transport::Moved;
        }
        i = i + 1;
    }
    Transport::Idle
}

/// How many of the first `n` actors finished a boss fight.
pub open spec fn wins_in(es: Seq<Enemy>, n: int) -> int
    decreases n,
{
    if n <= 0 {
        0
    } else {
        wins_in(es, n - 1) + if es[n - 1].won_level { 1int } else { 0int }
    }
}

/// Ends the level once the boss's death sequence finishes: each win is
/// taken, pays 100000 and plays the win sound. Gives how many there were.
pub fn finish_on_boss_defeat(enemies: &mut Vec<Enemy>, score: &mut u32, sounds: &mut Vec<u16>) -> (wins: u32)
    requires
        *old(score) + 100_000 * wins_in(old(enemies)@, old(enemies)@.len() as int) <= u32::MAX,
    ensures
        wins == wins_in(old(enemies)@, old(enemies)@.len() as int),
        *final(score) == *old(score) + 100_000 * wins,
        final(sounds)@ == old(sounds)@ + Seq::new(wins as nat, |i: int| snd::WIN_LEVEL),
        final(enemies)@.len() == old(enemies)@.len(),
        forall|j: int| 0 <= j < old(enemies)@.len() ==> (#[trigger] final(enemies)@[j]).body() == old(enemies)@[j].body()
            && !final(enemies)@[j].won_level,
{
    let ghost es = enemies@;
    proof {
        lemma_wins_monotone(es, 0, es.len() as int);
    }
    let mut wins: u32 = 0;
    let mut i: usize = 0;
    while i < enemies.len()
        invariant
            i <= es.len(),
            enemies@.len() == es.len(),
            wins == wins_in(es, i as int),
            0 <= wins_in(es, i as int) <= wins_in(es, es.len() as int),
            *old(score) + 100_000 * wins_in(es, es.len() as int) <= u32::MAX,
            *score == *old(score) + 100_000 * wins,
            sounds@ == old(sounds)@ + Seq::new(wins as nat, |k: int| snd::WIN_LEVEL),
            forall|j: int| 0 <= j < i ==> (#[trigger] enemies@[j]).body() == es[j].body() && !enemies@[j].won_level,
            forall|j: int| i <= j < es.len() ==> #[trigger] enemies@[j] == es[j],
        decreases es.len() - i,
    {
        proof {
            lemma_wins_monotone(es, i as int + 1, es.len() as int);
        }
        if enemies[i].won_level {
            let ghost before = enemies@;
            enemies[i].won_level = false;
            proof {
                assert(enemies@ =~= before.update(i as int, enemies@[i as int]));
            }
            *score = *score + 100_000;
            wins = wins + 1;
            let ghost s1 = sounds@;
            sounds.push(snd::WIN_LEVEL);
            proof {
                assert(sounds@ =~= old(sounds)@ + Seq::new(wins as nat, |k: int| snd::WIN_LEVEL));
            }
        }
        i = i + 1;
    }
    wins
}

proof fn lemma_wins_monotone(es: Seq<Enemy>, a: int, b: int)
    requires
        0 <= a <= b <= es.len(),
    ensures
        0 <= wins_in(es, a) <= wins_in(es, b),
    decreases b - a,
{
    if a < b {
        lemma_wins_monotone(es, a, b - 1);
    } else if a > 0 {
        lemma_wins_nonneg(es, a);
    }
}

proof fn lemma_wins_nonneg(es: Seq<Enemy>, a: int)
    ensures
        0 <= wins_in(es, a),
    decreases a,
{
    if a > 0 {
        lemma_wins_nonneg(es, a - 1);
    }
}

} // verus!
