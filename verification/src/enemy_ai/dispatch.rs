//! `ProcessActor` for every actor in turn: the fall out of the world, the
//! activation gate, the shared gravity pass, then the actor's own
//! behaviour; and the same over a whole level's actors, with the switches
//! threaded through in order.
use vstd::prelude::*;
use crate::camera::{max_scroll_y, max_scroll_y_spec, Scroll, SCROLL_H};
use crate::collide::coord_ok;
use crate::data::{level_wf, GameData, LevelJson};
use crate::enemy_ai::fixtures::{
    bear_trap_spec, bird_spec, bubble_spec, clam_spec, door_spec, egg_spec, eye_plant_spec,
    foot_switch_spec, foot_switch_throw, frozen_spec, ghost_spec, head_switch_spec,
    monument_spec, prize_spec, satellite_spec, spear_spec, spikes_spec, splitting_spec,
    tick_baby_ghost_egg, tick_bear_trap, tick_bird, tick_clam_plant, tick_door, tick_eye_plant,
    tick_foot_switch, tick_frozen_dn, tick_ghost, tick_head_switch, tick_monument, tick_prize,
    tick_reciprocating_spear, tick_reciprocating_spikes, tick_satellite, tick_speech_bubble,
    tick_spitting_turret, tick_splitting_platform, tick_trigger_line, tick_tulip_launcher,
    trigger_spec, tulip_spec, turret_spec,
};
use crate::enemy_ai::hoppers::{
    cabbage_spec, parachute_ball_spec, pink_worm_spec, red_chomper_spec, red_jumper_spec,
    roamer_slug_spec, tick_cabbage, tick_parachute_ball, tick_pink_worm, tick_red_chomper,
    tick_red_jumper, tick_roamer_slug,
};
use crate::enemy_ai::machines::{
    falling_floor_spec, fireball_spec, force_field_spec, mystery_wall_spec, projectile_spec,
    pyramid_spec, rocket_spec, scooter_spec, slime_spec, suction_walker_spec,
    tick_falling_floor, tick_fireball, tick_force_field, tick_mystery_wall, tick_projectile,
    tick_pyramid, tick_rocket, tick_scooter, tick_slime, tick_suction_walker, tick_worm_crate,
    worm_crate_spec,
};
use crate::enemy_ai::robots::{
    beam_robot_spec, boss_spec, pusher_robot_spec, sentry_robot_spec, tick_beam_robot,
    tick_boss, tick_pusher_robot, tick_sentry_robot,
};
use crate::enemy_ai::simple::{
    arrow_piston_spec, flame_pulse_spec, heart_plant_spec, ivy_spec, jump_pad_spec,
    jumping_bullet_spec, moon_spec, pipe_end_spec, small_flame_spec, smoke_emitter_spec,
    tick_arrow_piston, tick_flame_pulse, tick_flying_wisp, tick_heart_plant, tick_ivy_plant,
    tick_jump_pad, tick_jumping_bullet, tick_moon, tick_pipe_end, tick_small_flame,
    tick_smoke_emitter, tick_spitting_wall_plant, tick_two_tons_crusher, two_tons_spec,
    wall_plant_spec, wisp_spec,
};
use crate::enemy_ai::walkers::{
    baby_ghost_spec, dragonfly_spec, horizontal_mover_spec, jump_pad_robot_spec,
    sharp_robot_spec, spark_spec, stone_head_spec, tick_baby_ghost, tick_dragonfly,
    tick_horizontal_mover, tick_jump_pad_robot, tick_sharp_robot, tick_spark,
    tick_stone_head_crusher, tick_vertical_mover, vertical_mover_spec,
};
use crate::enemy_ai::{
    apply_gravity, gravity_spec, is_visible_at, quiet, visible_spec, Body, Enemy, EnemyKind, Out,
    SwitchState, SwitchView,
};
use crate::player::{FaceDir, Player};

verus! {

/// What one actor's turn does.
pub struct ActorStep {
    pub body: Body,
    pub out: Out,
    pub switches: SwitchView,
    /// The boss's death sequence finished.
    pub won: bool,
    /// A trap caught the player, for this many ticks.
    pub hold: u32,
    /// An invisible line was crossed.
    pub crossed: bool,
    /// The actor took its turn (it is live and in view, or always active).
    pub active: bool,
}

/// A behaviour's own step, by kind, from the state it is handed.
#[verifier::opaque]
pub open spec fn behaviour(b: Body, p: Player, level: &LevelJson, data: &GameData, sx: int, sy: int, sw: SwitchView) -> ActorStep {
    let px = p.x as int;
    let py = p.y as int;
    let plain = |r: (Body, Out)| ActorStep { body: r.0, out: r.1, switches: sw, won: false, hold: 0, crossed: false, active: true };
    match b.kind {
        EnemyKind::Prize => plain(prize_spec(b)),
        EnemyKind::RoamerSlug => plain(roamer_slug_spec(b, level, data)),
        EnemyKind::RedChomper => plain(red_chomper_spec(b, px, level, data)),
        EnemyKind::PinkWorm => plain(pink_worm_spec(b, level, data)),
        EnemyKind::Cabbage => plain(cabbage_spec(b, px, level, data)),
        EnemyKind::ParachuteBall => plain(parachute_ball_spec(b, px, py, level, data)),
        EnemyKind::GhostActor => plain(ghost_spec(b, px, py, p.face_dir == FaceDir::West)),
        EnemyKind::Bird => plain(bird_spec(b, px)),
        EnemyKind::ClamPlant => plain((clam_spec(b), quiet())),
        EnemyKind::ReciprocatingSpikes => plain(spikes_spec(b)),
        EnemyKind::ReciprocatingSpear => plain((spear_spec(b), quiet())),
        EnemyKind::SuctionWalker => plain(suction_walker_spec(b, level, data)),
        EnemyKind::FallingFloor => plain(falling_floor_spec(b, px, py, level, data)),
        EnemyKind::Pyramid => plain(pyramid_spec(b, px, py, level, data)),
        EnemyKind::JumpPad => plain(jump_pad_spec(b)),
        EnemyKind::Moon => plain(moon_spec(b, px)),
        EnemyKind::SmallFlame => plain(small_flame_spec(b)),
        EnemyKind::FlamePulse => plain(flame_pulse_spec(b)),
        EnemyKind::BabyGhost => plain(baby_ghost_spec(b, level, data)),
        EnemyKind::SpittingTurret => plain(turret_spec(b, px, py)),
        EnemyKind::RedJumper => plain(red_jumper_spec(b, px, level, data)),
        EnemyKind::SmokeEmitter => plain(smoke_emitter_spec(b)),
        EnemyKind::Dragonfly => plain(dragonfly_spec(b, level, data)),
        EnemyKind::EyePlant => plain(eye_plant_spec(b, px)),
        EnemyKind::ArrowPiston => plain(arrow_piston_spec(b)),
        EnemyKind::Fireball => plain(fireball_spec(b, sx, sy, level, data)),
        EnemyKind::Spark => plain(spark_spec(b, level, data)),
        EnemyKind::VerticalMover => plain(vertical_mover_spec(b, level, data)),
        EnemyKind::HorizontalMover => plain(horizontal_mover_spec(b, level, data)),
        EnemyKind::PipeEnd => plain(pipe_end_spec(b)),
        EnemyKind::HeartPlant => plain(heart_plant_spec(b, px, py)),
        EnemyKind::TwoTonsCrusher => plain(two_tons_spec(b)),
        EnemyKind::StoneHeadCrusher => plain(stone_head_spec(b, px, py, level, data)),
        EnemyKind::SharpRobot => plain(sharp_robot_spec(b, level, data)),
        EnemyKind::FlyingWisp => plain(wisp_spec(b)),
        EnemyKind::Projectile => plain(projectile_spec(b, sx, sy)),
        EnemyKind::SpittingWallPlant => plain(wall_plant_spec(b)),
        EnemyKind::SentryRobot => plain(sentry_robot_spec(b, px, sw.lights_active, level, data)),
        EnemyKind::BabyGhostEgg => plain(egg_spec(b, px, py)),
        EnemyKind::JumpingBullet => plain(jumping_bullet_spec(b)),
        EnemyKind::WormCrate => plain(worm_crate_spec(b, level, data)),
        EnemyKind::SplittingPlatform => plain(splitting_spec(b, px, py)),
        EnemyKind::Door => plain(door_spec(b, sw.doors_opened, level)),
        EnemyKind::Rocket => plain(rocket_spec(b, px, py, level, data)),
        EnemyKind::JumpPadRobot => plain(jump_pad_robot_spec(b, level, data)),
        EnemyKind::IvyPlant => plain(ivy_spec(b)),
        EnemyKind::HeadSwitch => {
            let r = head_switch_spec(b, sw.doors_opened);
            ActorStep { body: r.0, out: quiet(), switches: SwitchView { doors_opened: r.1, ..sw }, won: false, hold: 0, crossed: false, active: true }
        },
        EnemyKind::FootSwitch => {
            let r = foot_switch_spec(b);
            ActorStep { body: r.0, out: r.1, switches: foot_switch_throw(b, sw), won: false, hold: 0, crossed: false, active: true }
        },
        EnemyKind::MysteryWall => plain(mystery_wall_spec(b, sw.mystery_wall_time, level, data)),
        EnemyKind::ForceField => plain(force_field_spec(b, sw.force_fields_active, level, data)),
        EnemyKind::PusherRobot => plain(pusher_robot_spec(b, px, py, level, data)),
        EnemyKind::Monument => plain(monument_spec(b)),
        EnemyKind::Satellite => plain((satellite_spec(b), quiet())),
        EnemyKind::TulipLauncher => plain(tulip_spec(b)),
        EnemyKind::Scooter => plain(scooter_spec(b, p.scooter != 0, px, py, level, data)),
        EnemyKind::BearTrap => {
            let r = bear_trap_spec(b, px, py);
            ActorStep { body: r.0, out: r.1, switches: sw, won: false, hold: r.2, crossed: false, active: true }
        },
        EnemyKind::BeamRobot => plain(beam_robot_spec(b, level, data)),
        EnemyKind::Boss => {
            let r = boss_spec(b, px, level, data);
            ActorStep { body: r.0, out: r.1, switches: sw, won: r.2, hold: 0, crossed: false, active: true }
        },
        EnemyKind::FrozenDN => plain((frozen_spec(b), quiet())),
        EnemyKind::SpeechBubble => plain(bubble_spec(b, px, py)),
        EnemyKind::TriggerLine => {
            let r = trigger_spec(b, py);
            ActorStep { body: r.0, out: quiet(), switches: sw, won: false, hold: 0, crossed: r.1, active: true }
        },
        EnemyKind::Slime => plain(slime_spec(b, sx, sy)),
        _ => plain((b, quiet())),
    }
}

/// Every behaviour takes its turn.
proof fn lemma_behaviour_active(b: Body, p: Player, level: &LevelJson, data: &GameData, sx: int, sy: int, sw: SwitchView)
    ensures
        behaviour(b, p, level, data, sx, sy, sw).active,
{
    reveal(behaviour);
}

/// The row below which an actor has fallen out of the world.
pub open spec fn floor_row(width: int) -> int {
    max_scroll_y_spec(width) + SCROLL_H + 3
}

/// The activation gate: a dead actor is skipped; one below the floor row
/// dies; one out of view is skipped unless always active, and being seen
/// wakes a dormant one for good. The body it leaves, and whether the actor
/// goes on to take its turn.
pub open spec fn gate_spec(b: Body, width: int, sx: int, sy: int) -> (Body, bool) {
    if b.dead {
        (b, false)
    } else if b.y > floor_row(width) {
        (Body { dead: true, ..b }, false)
    } else {
        let vis = visible_spec(b.x, b.y, b.w, b.h, sx, sy);
        if !vis && !b.force_active {
            (b, false)
        } else if vis && b.stay_active {
            (Body { force_active: true, ..b }, true)
        } else {
            (b, true)
        }
    }
}

/// One actor's turn: the activation test, then a weighted one falls first,
/// then it behaves.
pub open spec fn actor_spec(b: Body, p: Player, level: &LevelJson, data: &GameData, sx: int, sy: int, sw: SwitchView) -> ActorStep {
    let g = gate_spec(b, level.width as int, sx, sy);
    if !g.1 {
        ActorStep { body: g.0, out: quiet(), switches: sw, won: false, hold: 0, crossed: false, active: false }
    } else {
        let b2 = if g.0.weighted { gravity_spec(g.0, level, data) } else { g.0 };
        behaviour(b2, p, level, data, sx, sy, sw)
    }
}

impl Enemy {
    /// `self` is `before` after a turn that produced `r`: its state and
    /// queues as the turn left them, a caught player held (and any shove on
    /// them dropped), and the win recorded.
    pub open spec fn ticked(&self, before: &Enemy, r: ActorStep) -> bool {
        &&& self.body() == r.body
        &&& self.spawns@ == before.spawns@ + r.out.spawns
        &&& self.tile_writes@ == before.tile_writes@ + r.out.tile_writes
        &&& self.decorations@ == before.decorations@ + r.out.decorations
        &&& self.sounds@ == before.sounds@ + r.out.sounds
        &&& self.shards@ == before.shards@ + r.out.shards
        &&& self.explosions@ == before.explosions@ + r.out.explosions
        &&& self.score_effects@ == before.score_effects@ + r.out.score_effects
        &&& self.score_award == before.score_award + r.out.score
        &&& self.bubble == (if r.out.bubble is Some { r.out.bubble } else { before.bubble })
        &&& self.push_player == (if r.hold > 0 { None } else if r.out.push is Some { r.out.push } else { before.push_player })
        &&& self.carry_player == (before.carry_player || r.out.carry)
        &&& self.hold_player == (if r.hold > 0 { r.hold } else { before.hold_player })
        &&& self.won_level == (before.won_level || r.won)
    }

    /// A state any turn may start from: coordinates with room for a fall,
    /// and a pusher east of the map's first column.
    pub open spec fn ready(&self) -> bool {
        &&& self.bounded()
        &&& -0x3ffe_0000 <= self.x <= 0x3ffe_0000
        &&& -0x3ffe_0000 <= self.y <= 0x3ffe_0000
        &&& (self.kind == EnemyKind::PusherRobot ==> self.x >= 3)
    }
}

/// The player as the actors see it: well inside the map's coordinates.
pub open spec fn player_ok(p: Player) -> bool {
    -0x3fff_0000 <= p.x <= 0x3fff_0000 && -0x3fff_0000 <= p.y <= 0x3fff_0000
}

/// Runs one behaviour on an actor that is awake and has had its fall.
#[verifier::rlimit(60)]
fn behave(e: &mut Enemy, player: &Player, level: &LevelJson, data: &GameData, scroll: &Scroll, switches: &mut SwitchState) -> (r: (bool, u32, bool))
    requires
        level_wf(level),
        old(e).bounded(),
        old(e).kind == EnemyKind::PusherRobot ==> old(e).x >= 1,
        player_ok(*player),
        coord_ok(scroll.x as int),
        coord_ok(scroll.y as int),
    ensures
        ({
            let s = behaviour(old(e).body(), *player, level, data, scroll.x as int, scroll.y as int, old(switches)@);
            &&& final(e).stepped(old(e), (s.body, s.out))
            &&& final(switches)@ == s.switches
            &&& r == (s.won, s.hold, s.crossed)
        }),
{
    proof {
        reveal(behaviour);
    }
    match e.kind {
        EnemyKind::Prize => tick_prize(e),
        EnemyKind::RoamerSlug => tick_roamer_slug(e, level, data),
        EnemyKind::RedChomper => tick_red_chomper(e, player, level, data),
        EnemyKind::PinkWorm => tick_pink_worm(e, level, data),
        EnemyKind::Cabbage => tick_cabbage(e, player, level, data),
        EnemyKind::ParachuteBall => tick_parachute_ball(e, player, level, data),
        EnemyKind::GhostActor => tick_ghost(e, player),
        EnemyKind::Bird => tick_bird(e, player),
        EnemyKind::ClamPlant => tick_clam_plant(e),
        EnemyKind::ReciprocatingSpikes => tick_reciprocating_spikes(e),
        EnemyKind::ReciprocatingSpear => tick_reciprocating_spear(e),
        EnemyKind::SuctionWalker => tick_suction_walker(e, level, data),
        EnemyKind::FallingFloor => tick_falling_floor(e, player, level, data),
        EnemyKind::Pyramid => tick_pyramid(e, player, level, data),
        EnemyKind::JumpPad => tick_jump_pad(e),
        EnemyKind::Moon => tick_moon(e, player),
        EnemyKind::SmallFlame => tick_small_flame(e),
        EnemyKind::FlamePulse => tick_flame_pulse(e),
        EnemyKind::BabyGhost => tick_baby_ghost(e, level, data),
        EnemyKind::SpittingTurret => tick_spitting_turret(e, player),
        EnemyKind::RedJumper => tick_red_jumper(e, player, level, data),
        EnemyKind::SmokeEmitter => tick_smoke_emitter(e),
        EnemyKind::Dragonfly => tick_dragonfly(e, level, data),
        EnemyKind::EyePlant => tick_eye_plant(e, player),
        EnemyKind::ArrowPiston => tick_arrow_piston(e),
        EnemyKind::Fireball => tick_fireball(e, level, data, scroll),
        EnemyKind::Spark => tick_spark(e, level, data),
        EnemyKind::VerticalMover => tick_vertical_mover(e, level, data),
        EnemyKind::HorizontalMover => tick_horizontal_mover(e, level, data),
        EnemyKind::PipeEnd => tick_pipe_end(e),
        EnemyKind::HeartPlant => tick_heart_plant(e, player),
        EnemyKind::TwoTonsCrusher => tick_two_tons_crusher(e),
        EnemyKind::StoneHeadCrusher => tick_stone_head_crusher(e, player, level, data),
        EnemyKind::SharpRobot => tick_sharp_robot(e, level, data),
        EnemyKind::FlyingWisp => tick_flying_wisp(e),
        EnemyKind::Projectile => tick_projectile(e, scroll),
        EnemyKind::SpittingWallPlant => tick_spitting_wall_plant(e),
        EnemyKind::SentryRobot => tick_sentry_robot(e, player, switches, level, data),
        EnemyKind::BabyGhostEgg => tick_baby_ghost_egg(e, player),
        EnemyKind::JumpingBullet => tick_jumping_bullet(e),
        EnemyKind::WormCrate => tick_worm_crate(e, level, data),
        EnemyKind::SplittingPlatform => tick_splitting_platform(e, player),
        EnemyKind::Door => tick_door(e, switches, level),
        EnemyKind::Rocket => tick_rocket(e, player, level, data),
        EnemyKind::JumpPadRobot => tick_jump_pad_robot(e, level, data),
        EnemyKind::IvyPlant => tick_ivy_plant(e),
        EnemyKind::HeadSwitch => tick_head_switch(e, switches),
        EnemyKind::FootSwitch => tick_foot_switch(e, switches),
        EnemyKind::MysteryWall => tick_mystery_wall(e, switches, level, data),
        EnemyKind::ForceField => tick_force_field(e, switches, level, data),
        EnemyKind::PusherRobot => tick_pusher_robot(e, player, level, data),
        EnemyKind::Monument => tick_monument(e),
        EnemyKind::Satellite => tick_satellite(e),
        EnemyKind::TulipLauncher => tick_tulip_launcher(e),
        EnemyKind::Scooter => tick_scooter(e, player, level, data),
        EnemyKind::BearTrap => {
            let hold = tick_bear_trap(e, player);
            return (false, hold, false);
        },
        EnemyKind::BeamRobot => tick_beam_robot(e, level, data),
        EnemyKind::Boss => {
            let won = tick_boss(e, player, level, data);
            return (won, 0, false);
        },
        EnemyKind::FrozenDN => tick_frozen_dn(e),
        EnemyKind::SpeechBubble => tick_speech_bubble(e, player),
        EnemyKind::TriggerLine => {
            let crossed = tick_trigger_line(e, player);
            return (false, 0, crossed);
        },
        EnemyKind::Slime => tick_slime(e, scroll),
        _ => {
            proof {
                crate::enemy_ai::lemma_untouched_queues(e);
            }
        },
    }
    (false, 0, false)
}


/// `ProcessActor` for one actor: skips a dead one, kills one that fell
/// below the map, skips one out of view unless it is always active, runs
/// the shared gravity pass on a weighted one and then its behaviour; a
/// trap that caught the player holds them (dropping any shove) and a
/// finished boss marks the level won. Returns whether the actor took its
/// turn and whether it was an invisible line the player just crossed.
#[verifier::rlimit(40)]
pub fn tick_actor(e: &mut Enemy, player: &Player, level: &LevelJson, data: &GameData, scroll: &Scroll, switches: &mut SwitchState) -> (r: (bool, bool))
    requires
        level_wf(level),
        level.width > 0,
        old(e).ready(),
        player_ok(*player),
        coord_ok(scroll.x as int),
        coord_ok(scroll.y as int),
    ensures
        ({
            let s = actor_spec(old(e).body(), *player, level, data, scroll.x as int, scroll.y as int, old(switches)@);
            &&& final(e).ticked(old(e), s)
            &&& final(switches)@ == s.switches
            &&& r == (s.active, s.crossed)
        }),
{
    let ghost e0 = *e;
    let ghost sw0 = switches@;
    let go = gate(e, level, scroll);
    if !go {
        return (false, false);
    }
    let ghost e1 = *e;
    assert(e1.x == e0.x && e1.y == e0.y && e1.fall_time == e0.fall_time && e1.kind == e0.kind);
    assert(e1.bounded());
    if e.weighted {
        apply_gravity(e, level, data);
    }
    let ghost e2 = *e;
    assert(e2.x == e1.x && e2.kind == e1.kind);
    assert(e2.bounded());
    assert(e2.same_queues(&e0));
    let ghost s = behaviour(e2.body(), *player, level, data, scroll.x as int, scroll.y as int, sw0);
    assert(actor_spec(e0.body(), *player, level, data, scroll.x as int, scroll.y as int, sw0) == s);
    proof {
        lemma_behaviour_active(e2.body(), *player, level, data, scroll.x as int, scroll.y as int, sw0);
    }
    let (won, hold, crossed) = behave(e, player, level, data, scroll, switches);
    if hold > 0 {
        e.push_player = None;
        e.hold_player = hold;
    }
    if won {
        e.won_level = true;
    }
    assert(e.body() == s.body);
    assert(e.ticked(&e0, s));
    assert(switches@ == s.switches);
    assert(s.active);
    (true, crossed)
}

/// Runs the activation gate on an actor.
fn gate(e: &mut Enemy, level: &LevelJson, scroll: &Scroll) -> (go: bool)
    requires
        level.width > 0,
        old(e).bounded(),
        coord_ok(scroll.x as int),
        coord_ok(scroll.y as int),
    ensures
        final(e).body() == gate_spec(old(e).body(), level.width as int, scroll.x as int, scroll.y as int).0,
        go == gate_spec(old(e).body(), level.width as int, scroll.x as int, scroll.y as int).1,
        final(e).same_queues(old(e)),
{
    let mut go = false;
    if !e.dead {
        let floor = max_scroll_y(level.width) + SCROLL_H + 3;
        if e.y > floor {
            e.dead = true;
        } else {
            let visible = is_visible_at(e.x, e.y, e.width_tiles, e.height_tiles, scroll.x, scroll.y);
            if visible || e.force_active {
                if visible && e.stay_active {
                    e.force_active = true;
                }
                go = true;
            }
        }
    }
    go
}

/// The switches after the first `n` actors of `es` have taken their turns,
/// each handing its successor the switches it left.
pub open spec fn switches_after(es: Seq<Enemy>, p: Player, level: &LevelJson, data: &GameData, sx: int, sy: int, sw: SwitchView, n: int) -> SwitchView
    decreases n, 0int,
{
    if n <= 0 {
        sw
    } else {
        turn(es, p, level, data, sx, sy, sw, n - 1).switches
    }
}

/// The turn of the `i`-th actor of `es`, on the switches the actors before
/// it left.
pub open spec fn turn(es: Seq<Enemy>, p: Player, level: &LevelJson, data: &GameData, sx: int, sy: int, sw: SwitchView, i: int) -> ActorStep
    decreases i, 1int,
{
    actor_spec(es[i].body(), p, level, data, sx, sy, switches_after(es, p, level, data, sx, sy, sw, i))
}

/// The `ACT_*` ids of the invisible lines crossed among the first `n`
/// actors, in order.
pub open spec fn crossed_ids(es: Seq<Enemy>, p: Player, level: &LevelJson, data: &GameData, sx: int, sy: int, sw: SwitchView, n: int) -> Seq<u16>
    decreases n,
{
    if n <= 0 {
        seq![]
    } else {
        let prev = crossed_ids(es, p, level, data, sx, sy, sw, n - 1);
        if turn(es, p, level, data, sx, sy, sw, n - 1).crossed {
            prev.push(es[n - 1].act_id)
        } else {
            prev
        }
    }
}

impl Enemy {
    /// Whether this actor is in a state a turn may start from.
    pub fn in_range(&self) -> (r: bool)
        ensures
            r == self.ready(),
    {
        -0x3ffe_0000 <= self.x && self.x <= 0x3ffe_0000 && -0x3ffe_0000 <= self.y && self.y <= 0x3ffe_0000
            && self.frame <= 0x4000_0000
            && -0x4000_0000 <= self.d1 && self.d1 <= 0x4000_0000
            && -0x4000_0000 <= self.d2 && self.d2 <= 0x4000_0000
            && -0x4000_0000 <= self.d3 && self.d3 <= 0x4000_0000
            && -0x4000_0000 <= self.d4 && self.d4 <= 0x4000_0000
            && -0x4000_0000 <= self.d5 && self.d5 <= 0x4000_0000
            && -0x4000_0000 <= self.fall_time && self.fall_time <= 0x4000_0000
            && 0 <= self.width_tiles && self.width_tiles <= 0x1000
            && 0 <= self.height_tiles && self.height_tiles <= 0x1000
            && self.score_award <= 0xf000_0000
            && (self.kind != EnemyKind::PusherRobot || self.x >= 3)
    }
}

/// `tick_enemies`: every actor takes its turn in order, the switches each
/// leaves handed to the next. Gives the `ACT_*` ids of the invisible lines
/// the player crossed, in order.
pub fn tick_enemies(enemies: &mut Vec<Enemy>, player: &Player, level: &LevelJson, data: &GameData, scroll: &Scroll, switches: &mut SwitchState) -> (crossed: Vec<u16>)
    requires
        level_wf(level),
        level.width > 0,
        forall|j: int| 0 <= j < old(enemies)@.len() ==> (#[trigger] old(enemies)@[j]).ready(),
        player_ok(*player),
        coord_ok(scroll.x as int),
        coord_ok(scroll.y as int),
    ensures
        final(enemies)@.len() == old(enemies)@.len(),
        forall|j: int| 0 <= j < old(enemies)@.len() ==> (#[trigger] final(enemies)@[j]).ticked(&old(enemies)@[j],
            turn(old(enemies)@, *player, level, data, scroll.x as int, scroll.y as int, old(switches)@, j)),
        final(switches)@ == switches_after(old(enemies)@, *player, level, data, scroll.x as int, scroll.y as int, old(switches)@, old(enemies)@.len() as int),
        crossed@ == crossed_ids(old(enemies)@, *player, level, data, scroll.x as int, scroll.y as int, old(switches)@, old(enemies)@.len() as int),
{
    let ghost es0 = enemies@;
    let ghost sw0 = switches@;
    let ghost sx = scroll.x as int;
    let ghost sy = scroll.y as int;
    let mut crossed: Vec<u16> = Vec::new();
    let n = enemies.len();
    let mut i: usize = 0;
    while i < n
        invariant
            n == es0.len(),
            enemies@.len() == n,
            0 <= i <= n,
            level_wf(level),
            level.width > 0,
            player_ok(*player),
            coord_ok(scroll.x as int),
            coord_ok(scroll.y as int),
            sx == scroll.x as int,
            sy == scroll.y as int,
            forall|j: int| 0 <= j < n ==> (#[trigger] es0[j]).ready(),
            forall|j: int| 0 <= j < i ==> (#[trigger] enemies@[j]).ticked(&es0[j], turn(es0, *player, level, data, sx, sy, sw0, j)),
            forall|j: int| i <= j < n ==> #[trigger] enemies@[j] == es0[j],
            switches@ == switches_after(es0, *player, level, data, sx, sy, sw0, i as int),
            crossed@ == crossed_ids(es0, *player, level, data, sx, sy, sw0, i as int),
        decreases n - i,
    {
        let ghost before = enemies@;
        let id = enemies[i].act_id;
        let (_, hit) = tick_actor(&mut enemies[i], player, level, data, scroll, switches);
        proof {
            assert(enemies@ == before.update(i as int, enemies@[i as int]));
        }
        if hit {
            crossed.push(id);
        }
        i = i + 1;
    }
    crossed
}

} // verus!
