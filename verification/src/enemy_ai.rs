//! Per-actor behaviour, one tick function per actor type, each keeping the
//! five generic scratch words `d1`..`d5` the game gives every actor.
//!
//! Actors move in whole tiles on the game tick, and `y` is the bottom row
//! of the sprite. A behaviour never reaches outside its own actor: what it
//! wants done to the world (new actors, map writes, sounds, debris, score)
//! it queues on the actor, and the caller drains the queues afterwards.
//!
//! Every tick function is stated as a function from the actor's plain
//! state (`Body`) to its next state plus what it queued (`Out`).
use vstd::prelude::*;
use crate::collide::{coord_ok, size_ok, sprite_move_spec, test_sprite_move, Dir4, MoveResult};
use crate::data::{level_wf, GameData, LevelJson, LevelActorJson};
use crate::camera::{SCROLL_H, SCROLL_W};
use crate::player::{roll, xorshift, xorshift_step};

pub mod simple;
pub mod walkers;
pub mod hoppers;
pub mod machines;
pub mod robots;
pub mod fixtures;
pub mod dispatch;
pub mod systems;
pub mod table;


verus! {

/// Which behaviour a given actor runs.
#[derive(Clone, Copy, PartialEq, Eq, Debug, Structural)]
pub enum EnemyKind {
    Prize,
    RoamerSlug,
    RedChomper,
    PinkWorm,
    Cabbage,
    ParachuteBall,
    GhostActor,
    Bird,
    ClamPlant,
    ReciprocatingSpikes,
    ReciprocatingSpear,
    SuctionWalker,
    FallingFloor,
    Pyramid,
    JumpPad,
    Moon,
    SmallFlame,
    FlamePulse,
    BabyGhost,
    SpittingTurret,
    RedJumper,
    SmokeEmitter,
    Dragonfly,
    EyePlant,
    PipeCorner,
    Slime,
    ArrowPiston,
    Fireball,
    Spark,
    VerticalMover,
    HorizontalMover,
    PipeEnd,
    HeartPlant,
    TwoTonsCrusher,
    StoneHeadCrusher,
    SharpRobot,
    FlyingWisp,
    Projectile,
    SpittingWallPlant,
    SentryRobot,
    BabyGhostEgg,
    JumpingBullet,
    WormCrate,
    SplittingPlatform,
    Door,
    Rocket,
    JumpPadRobot,
    IvyPlant,
    HeadSwitch,
    FootSwitch,
    MysteryWall,
    ForceField,
    PusherRobot,
    Monument,
    Satellite,
    TulipLauncher,
    TriggerLine,
    Scooter,
    BearTrap,
    BeamRobot,
    Transporter,
    Boss,
    FrozenDN,
    SpeechBubble,
    /// No behaviour of its own; only the shared gravity pass moves it.
    Inert,
}

/// `ACT_SPEECH_*`.
pub const ACT_SPEECH_OUCH: u16 = 235;

pub const ACT_SPEECH_WHOA: u16 = 244;

pub const ACT_SPEECH_UMPH: u16 = 245;

pub const ACT_SPEECH_WOW_50K: u16 = 246;

/// Pounces needed to finish the boss.
pub const BOSS_HITS: i32 = 12;

pub const TILE_SWITCH_BLOCK: u16 = 0x3d88;

pub const ACT_PARACHUTE_BALL: u16 = 86;

pub const ACT_HAMBURGER: u16 = 82;

pub const DIR8_NORTH_I: i32 = 1;

pub const DIR8_EAST_I: i32 = 3;

pub const DIR8_SOUTH_I: i32 = 5;

pub const DIR8_WEST_I: i32 = 7;

pub const SPR_SPARKLE_SHORT: u16 = 15;

pub const SPR_SMOKE: u16 = 97;

pub const SPR_SMOKE_LARGE: u16 = 98;

pub const SPR_MONUMENT: u16 = 64;

pub const SPR_WORM_CRATE_SHARDS: u16 = 131;

pub const SPR_SATELLITE_SHARDS: u16 = 144;

pub const SPR_FALLING_FLOOR: u16 = 163;

pub const SPR_PYRAMID: u16 = 49;

pub const SPR_ROCKET: u16 = 188;

pub const SPR_BOSS: u16 = 102;

pub const SPR_FROZEN_DN: u16 = 221;

pub const SPR_PARACHUTE_BALL_SPR: u16 = 86;

pub const ACT_STAR_FLOAT: u16 = 1;

pub const ACT_DOOR_BLUE: u16 = 11;

pub const ACT_DOOR_YELLOW: u16 = 14;

pub const ACT_SWITCH_PLATFORMS: i32 = 59;

pub const ACT_SWITCH_MYSTERY_WALL: i32 = 61;

pub const ACT_SWITCH_LIGHTS: i32 = 120;

pub const ACT_SWITCH_FORCE_FIELD: i32 = 121;

pub const TILE_DOOR_BLOCK: u16 = 0x3dc8;

pub const TILE_MYSTERY_BLOCK: u16 = 0x3d90;

pub const TILE_EMPTY: u16 = 0x0000;

pub const TILE_STRIPED_PLATFORM: u16 = 0x0050;

pub const TILE_BLUE_PLATFORM: u16 = 0x3dd0;

pub const ACT_PINK_WORM: u16 = 124;

pub const ACT_PROJECTILE_W: u16 = 109;

pub const ACT_PROJECTILE_E: u16 = 110;

pub const ACT_PROJECTILE_SW: u16 = 66;

pub const ACT_PROJECTILE_SE: u16 = 67;

pub const ACT_PROJECTILE_S: u16 = 68;

pub const ACT_BABY_GHOST: u16 = 65;

pub const DIRP_WEST: i32 = 0;

pub const DIRP_SOUTHWEST: i32 = 1;

pub const DIRP_SOUTH: i32 = 2;

pub const DIRP_SOUTHEAST: i32 = 3;

pub const DIRP_EAST: i32 = 4;

pub const DIR2_WEST: i32 = 0;

pub const DIR2_EAST: i32 = 1;

pub const DIR2_SOUTH: i32 = 0;

pub const DIR2_NORTH: i32 = 1;

/// `DRAW_MODE_FLIPPED`: a vertical flip.
pub const DRAW_MODE_FLIPPED: i32 = 4;

/// Recoil for pouncing a basket or barrel.
pub const CONTAINER_POUNCE_RECOIL: i32 = 5;

/// How an actor responds to being landed on.
#[derive(Clone, Copy, PartialEq, Eq, Debug, Structural)]
pub struct PounceSpec {
    pub recoil: i32,
    pub hits: i32,
}

/// The per-type `TryPounce` response: `(recoil, hits)`, or `None` where
/// landing on it does nothing.
pub open spec fn pounce_table(kind: EnemyKind) -> Option<(i32, i32)> {
    match kind {
        EnemyKind::Cabbage | EnemyKind::SuctionWalker | EnemyKind::Bird | EnemyKind::RedChomper
        | EnemyKind::PinkWorm => Some((7i32, 1i32)),
        EnemyKind::GhostActor => Some((7i32, 4i32)),
        EnemyKind::ParachuteBall => Some((7i32, 2i32)),
        EnemyKind::JumpPad => Some((40i32, i32::MAX)),
        EnemyKind::Moon => Some((7i32, 4i32)),
        EnemyKind::BabyGhost => Some((7i32, 1i32)),
        EnemyKind::RedJumper => Some((15i32, 7i32)),
        EnemyKind::HeadSwitch => Some((0i32, i32::MAX)),
        EnemyKind::Boss => Some((7i32, i32::MAX)),
        _ => None,
    }
}

impl EnemyKind {
    /// The recoil this kind kicks the player back with, and how many
    /// pounces it survives.
    pub fn pounce_spec(self) -> (r: Option<PounceSpec>)
        ensures
            r == match pounce_table(self) {
                Some((recoil, hits)) => Some(PounceSpec { recoil, hits }),
                None => None::<PounceSpec>,
            },
    {
        let (recoil, hits) = match self {
            EnemyKind::Cabbage | EnemyKind::SuctionWalker | EnemyKind::Bird | EnemyKind::RedChomper
            | EnemyKind::PinkWorm => (7, 1),
            EnemyKind::GhostActor => (7, 4),
            EnemyKind::ParachuteBall => (7, 2),
            EnemyKind::JumpPad => (40, i32::MAX),
            EnemyKind::Moon => (7, 4),
            EnemyKind::BabyGhost => (7, 1),
            EnemyKind::RedJumper => (15, 7),
            EnemyKind::HeadSwitch => (0, i32::MAX),
            EnemyKind::Boss => (7, i32::MAX),
            _ => return None,
        };
        Some(PounceSpec { recoil, hits })
    }
}

/// Which flags an actor type is constructed with (`ConstructActor`).
#[derive(Clone, Copy, PartialEq, Eq, Debug, Default, Structural)]
pub struct ActorFlags {
    pub acrophile: bool,
    pub weighted: bool,
    pub force_active: bool,
    pub stay_active: bool,
}

/// The level-wide flags the switches throw. Every one starts on at level
/// load; constructing the switch that governs it turns it off.
#[derive(Clone, Debug)]
pub struct SwitchState {
    pub platforms_active: bool,
    pub lights_active: bool,
    pub force_fields_active: bool,
    /// Counts down while the mystery wall rises; non-zero wakes it.
    pub mystery_wall_time: i32,
    /// `ACT_DOOR_*` ids whose head switch has been pounced.
    pub doors_opened: Vec<u16>,
}

/// A `SwitchState` as plain values.
pub struct SwitchView {
    pub platforms_active: bool,
    pub lights_active: bool,
    pub force_fields_active: bool,
    pub mystery_wall_time: int,
    pub doors_opened: Seq<u16>,
}

impl View for SwitchState {
    type V = SwitchView;

    open spec fn view(&self) -> SwitchView {
        SwitchView {
            platforms_active: self.platforms_active,
            lights_active: self.lights_active,
            force_fields_active: self.force_fields_active,
            mystery_wall_time: self.mystery_wall_time as int,
            doors_opened: self.doors_opened@,
        }
    }
}

/// Whether a level's actors include the switch with this `ACT_*` id.
pub open spec fn level_has_switch(actors: Seq<LevelActorJson>, act: int) -> bool {
    exists|i: int| 0 <= i < actors.len() && #[trigger] actors[i].map_type as int - 31 == act
}

impl SwitchState {
    pub fn default() -> (r: Self)
        ensures
            r.platforms_active,
            r.lights_active,
            r.force_fields_active,
            r.mystery_wall_time == 0,
            r.doors_opened@ == Seq::<u16>::empty(),
    {
        SwitchState {
            platforms_active: true,
            lights_active: true,
            force_fields_active: true,
            mystery_wall_time: 0,
            doors_opened: Vec::new(),
        }
    }

    /// Resets for a newly loaded level: every flag on, then each switch the
    /// level places turns its own flag off.
    pub fn reset_for_level(&mut self, level: &LevelJson)
        ensures
            final(self).platforms_active == !level_has_switch(level.actors@, ACT_SWITCH_PLATFORMS as int),
            final(self).lights_active == !level_has_switch(level.actors@, ACT_SWITCH_LIGHTS as int),
            final(self).force_fields_active,
            final(self).mystery_wall_time == 0,
            final(self).doors_opened@ == Seq::<u16>::empty(),
    {
        *self = SwitchState::default();
        let mut i: usize = 0;
        while i < level.actors.len()
            invariant
                0 <= i <= level.actors@.len(),
                self.platforms_active == !(exists|j: int| 0 <= j < i && #[trigger] level.actors@[j].map_type as int - 31 == ACT_SWITCH_PLATFORMS as int),
                self.lights_active == !(exists|j: int| 0 <= j < i && #[trigger] level.actors@[j].map_type as int - 31 == ACT_SWITCH_LIGHTS as int),
                self.force_fields_active,
                self.mystery_wall_time == 0,
                self.doors_opened@ == Seq::<u16>::empty(),
            decreases level.actors@.len() - i,
        {
            let t = level.actors[i].map_type as i32 - 31;
            if t == ACT_SWITCH_PLATFORMS {
                self.platforms_active = false;
            } else if t == ACT_SWITCH_MYSTERY_WALL {
                self.mystery_wall_time = 0;
            } else if t == ACT_SWITCH_LIGHTS {
                self.lights_active = false;
            }
            i += 1;
        }
    }
}

/// The speech-bubble one-shots, reset per episode.
#[derive(Clone, Copy, PartialEq, Eq, Debug, Default, Structural)]
pub struct SeenBubbles {
    pub pusher_robot: bool,
    pub bear_trap: bool,
    pub mystery_wall: bool,
    pub boss: bool,
    pub transporter: bool,
    pub pipe: bool,
}

/// The transporter pair's shared state.
#[derive(Clone, Copy, PartialEq, Eq, Debug, Default, Structural)]
pub struct TransporterState {
    /// Which pad the player stepped into (`data5`), or 0 for none.
    pub active: i32,
    /// Counts down from 15 while the effect plays.
    pub time_left: i32,
}

/// A live actor running one of the behaviours.
#[derive(Clone, Debug)]
pub struct Enemy {
    pub kind: EnemyKind,
    /// The `ACT_*` id this was built from.
    pub act_id: u16,
    pub x: i32,
    pub y: i32,
    pub frame: usize,
    pub d1: i32,
    pub d2: i32,
    pub d3: i32,
    pub d4: i32,
    pub d5: i32,
    /// `Actor.falltime`.
    pub fall_time: i32,
    /// `Actor.dead`; a dead actor stops ticking and hides.
    pub dead: bool,
    pub width_tiles: i32,
    pub height_tiles: i32,
    /// `Actor.westfree` / `Actor.eastfree`.
    pub west_free: bool,
    pub east_free: bool,
    /// Walks off ledges rather than turning at them.
    pub acrophile: bool,
    /// Ticks even while off screen.
    pub force_active: bool,
    /// Dormant until first seen, then always active.
    pub stay_active: bool,
    /// Pounces still needed to kill this actor, and the recoil each gives.
    pub pounce_hits: i32,
    pub pounce_recoil: i32,
    /// Gets the shared gravity pass before its own tick.
    pub weighted: bool,
    /// Per-actor jitter generator.
    pub rng: u32,
    /// New actors asked for this tick, as `(ACT_*, x, y)`.
    pub spawns: Vec<(u16, i32, i32)>,
    /// Map writes asked for this tick, as `(x, y, raw tile)`.
    pub tile_writes: Vec<(i32, i32, u16)>,
    /// A shove to give the player, as `(dx, dy, max_time, speed)`.
    pub push_player: Option<(i32, i32, u32, u32)>,
    /// Ticks to hold the player still.
    pub hold_player: u32,
    /// Set by the boss when its death sequence completes.
    pub won_level: bool,
    /// Decorations asked for, as `(SPR_*, frames, x, y, DIR8, repeats)`.
    pub decorations: Vec<(u16, usize, i32, i32, usize, u32)>,
    pub sounds: Vec<u16>,
    /// Debris asked for, as `(SPR_*, frame, x, y)`.
    pub shards: Vec<(u16, usize, i32, i32)>,
    /// Score earned and not yet handed over.
    pub score_award: u32,
    /// A speech bubble to raise, if its one-shot has not fired.
    pub bubble: Option<u16>,
    pub explosions: Vec<(i32, i32)>,
    /// Set by the rocket while it lifts a rider.
    pub carry_player: bool,
    /// Score pop-ups to raise, as `(x, y)`.
    pub score_effects: Vec<(i32, i32)>,
}

/// An actor's plain state: everything but its queues.
pub struct Body {
    pub kind: EnemyKind,
    pub act_id: u16,
    pub x: int,
    pub y: int,
    pub frame: int,
    pub d1: int,
    pub d2: int,
    pub d3: int,
    pub d4: int,
    pub d5: int,
    pub fall_time: int,
    pub dead: bool,
    pub w: int,
    pub h: int,
    pub west_free: bool,
    pub east_free: bool,
    pub acrophile: bool,
    pub force_active: bool,
    pub stay_active: bool,
    pub pounce_hits: int,
    pub pounce_recoil: int,
    pub weighted: bool,
    pub rng: u32,
}

/// What one tick queued.
pub struct Out {
    pub spawns: Seq<(u16, i32, i32)>,
    pub tile_writes: Seq<(i32, i32, u16)>,
    pub decorations: Seq<(u16, usize, i32, i32, usize, u32)>,
    pub sounds: Seq<u16>,
    pub shards: Seq<(u16, usize, i32, i32)>,
    pub explosions: Seq<(i32, i32)>,
    pub score_effects: Seq<(i32, i32)>,
    pub score: int,
    /// A bubble to set (`None`: leave as is).
    pub bubble: Option<u16>,
    /// A shove to set (`None`: leave as is).
    pub push: Option<(i32, i32, u32, u32)>,
    pub carry: bool,
}

/// Nothing queued.
pub open spec fn quiet() -> Out {
    Out {
        spawns: Seq::empty(),
        tile_writes: Seq::empty(),
        decorations: Seq::empty(),
        sounds: Seq::empty(),
        shards: Seq::empty(),
        explosions: Seq::empty(),
        score_effects: Seq::empty(),
        score: 0,
        bubble: None,
        push: None,
        carry: false,
    }
}

impl Out {
    pub open spec fn spawn(self, act: u16, x: int, y: int) -> Out {
        Out { spawns: self.spawns.push((act, x as i32, y as i32)), ..self }
    }

    pub open spec fn write(self, x: int, y: int, raw: u16) -> Out {
        Out { tile_writes: self.tile_writes.push((x as i32, y as i32, raw)), ..self }
    }

    pub open spec fn decorate(self, spr: u16, frames: usize, x: int, y: int, dir: usize, times: u32) -> Out {
        Out { decorations: self.decorations.push((spr, frames, x as i32, y as i32, dir, times)), ..self }
    }

    pub open spec fn sound(self, s: u16) -> Out {
        Out { sounds: self.sounds.push(s), ..self }
    }

    pub open spec fn shard(self, spr: u16, frame: usize, x: int, y: int) -> Out {
        Out { shards: self.shards.push((spr, frame, x as i32, y as i32)), ..self }
    }

    pub open spec fn explode(self, x: int, y: int) -> Out {
        Out { explosions: self.explosions.push((x as i32, y as i32)), ..self }
    }

    pub open spec fn pop_up(self, x: int, y: int) -> Out {
        Out { score_effects: self.score_effects.push((x as i32, y as i32)), ..self }
    }

    pub open spec fn award(self, points: int) -> Out {
        Out { score: self.score + points, ..self }
    }

    pub open spec fn say(self, act: u16) -> Out {
        Out { bubble: Some(act), ..self }
    }

    pub open spec fn shove(self, p: (i32, i32, u32, u32)) -> Out {
        Out { push: Some(p), ..self }
    }

    pub open spec fn lift(self) -> Out {
        Out { carry: true, ..self }
    }
}

/// `v == 0 ? 1 : 0`, the toggle most behaviours half their rate with.
pub open spec fn flip(v: int) -> int {
    if v == 0 { 1 } else { 0 }
}

/// Scratch words and counters stay far from the `i32` limits.
pub open spec fn word_ok(v: int) -> bool {
    -0x4000_0000 <= v <= 0x4000_0000
}

impl Enemy {
    pub open spec fn body(&self) -> Body {
        Body {
            kind: self.kind,
            act_id: self.act_id,
            x: self.x as int,
            y: self.y as int,
            frame: self.frame as int,
            d1: self.d1 as int,
            d2: self.d2 as int,
            d3: self.d3 as int,
            d4: self.d4 as int,
            d5: self.d5 as int,
            fall_time: self.fall_time as int,
            dead: self.dead,
            w: self.width_tiles as int,
            h: self.height_tiles as int,
            west_free: self.west_free,
            east_free: self.east_free,
            acrophile: self.acrophile,
            force_active: self.force_active,
            stay_active: self.stay_active,
            pounce_hits: self.pounce_hits as int,
            pounce_recoil: self.pounce_recoil as int,
            weighted: self.weighted,
            rng: self.rng,
        }
    }

    /// Every coordinate, scratch word and counter far enough from the
    /// machine limits that a tick's arithmetic cannot overflow.
    pub open spec fn bounded(&self) -> bool {
        &&& -0x3fff_0000 <= self.x <= 0x3fff_0000
        &&& -0x3fff_0000 <= self.y <= 0x3fff_0000
        &&& 0 <= self.frame <= 0x4000_0000
        &&& word_ok(self.d1 as int)
        &&& word_ok(self.d2 as int)
        &&& word_ok(self.d3 as int)
        &&& word_ok(self.d4 as int)
        &&& word_ok(self.d5 as int)
        &&& word_ok(self.fall_time as int)
        &&& size_ok(self.width_tiles as int)
        &&& size_ok(self.height_tiles as int)
        &&& self.score_award <= 0xf000_0000
    }

    /// `self` is `before` after one tick that produced `r`.
    pub open spec fn stepped(&self, before: &Enemy, r: (Body, Out)) -> bool {
        &&& self.body() == r.0
        &&& self.spawns@ == before.spawns@ + r.1.spawns
        &&& self.tile_writes@ == before.tile_writes@ + r.1.tile_writes
        &&& self.decorations@ == before.decorations@ + r.1.decorations
        &&& self.sounds@ == before.sounds@ + r.1.sounds
        &&& self.shards@ == before.shards@ + r.1.shards
        &&& self.explosions@ == before.explosions@ + r.1.explosions
        &&& self.score_effects@ == before.score_effects@ + r.1.score_effects
        &&& self.score_award == before.score_award + r.1.score
        &&& self.bubble == (if r.1.bubble is Some { r.1.bubble } else { before.bubble })
        &&& self.push_player == (if r.1.push is Some { r.1.push } else { before.push_player })
        &&& self.carry_player == (before.carry_player || r.1.carry)
        &&& self.hold_player == before.hold_player
        &&& self.won_level == before.won_level
    }

    /// Only the plain state changed; every queue is as it was.
    pub open spec fn same_queues(&self, before: &Enemy) -> bool {
        &&& self.spawns@ == before.spawns@
        &&& self.tile_writes@ == before.tile_writes@
        &&& self.decorations@ == before.decorations@
        &&& self.sounds@ == before.sounds@
        &&& self.shards@ == before.shards@
        &&& self.explosions@ == before.explosions@
        &&& self.score_effects@ == before.score_effects@
        &&& self.score_award == before.score_award
        &&& self.bubble == before.bubble
        &&& self.push_player == before.push_player
        &&& self.carry_player == before.carry_player
        &&& self.hold_player == before.hold_player
        &&& self.won_level == before.won_level
    }
}

/// What a tick asks of the world, gathered before it is handed to the
/// actor's own queues.
pub struct Queued {
    pub spawns: Vec<(u16, i32, i32)>,
    pub tile_writes: Vec<(i32, i32, u16)>,
    pub decorations: Vec<(u16, usize, i32, i32, usize, u32)>,
    pub sounds: Vec<u16>,
    pub shards: Vec<(u16, usize, i32, i32)>,
    pub explosions: Vec<(i32, i32)>,
    pub score_effects: Vec<(i32, i32)>,
    pub score: u32,
    pub bubble: Option<u16>,
    pub push: Option<(i32, i32, u32, u32)>,
    pub carry: bool,
}

impl View for Queued {
    type V = Out;

    open spec fn view(&self) -> Out {
        Out {
            spawns: self.spawns@,
            tile_writes: self.tile_writes@,
            decorations: self.decorations@,
            sounds: self.sounds@,
            shards: self.shards@,
            explosions: self.explosions@,
            score_effects: self.score_effects@,
            score: self.score as int,
            bubble: self.bubble,
            push: self.push,
            carry: self.carry,
        }
    }
}

impl Queued {
    /// Nothing asked for yet.
    pub fn new() -> (q: Self)
        ensures
            q@ == quiet(),
    {
        Queued {
            spawns: Vec::new(),
            tile_writes: Vec::new(),
            decorations: Vec::new(),
            sounds: Vec::new(),
            shards: Vec::new(),
            explosions: Vec::new(),
            score_effects: Vec::new(),
            score: 0,
            bubble: None,
            push: None,
            carry: false,
        }
    }
}

impl Enemy {
    /// Hands what a tick gathered to the actor's queues.
    pub fn absorb(&mut self, q: Queued)
        requires
            old(self).score_award + q.score <= u32::MAX,
        ensures
            final(self).body() == old(self).body(),
            final(self).stepped(old(self), (old(self).body(), q@)),
    {
        let mut q = q;
        self.spawns.append(&mut q.spawns);
        self.tile_writes.append(&mut q.tile_writes);
        self.decorations.append(&mut q.decorations);
        self.sounds.append(&mut q.sounds);
        self.shards.append(&mut q.shards);
        self.explosions.append(&mut q.explosions);
        self.score_effects.append(&mut q.score_effects);
        self.score_award = self.score_award + q.score;
        if q.bubble.is_some() {
            self.bubble = q.bubble;
        }
        if q.push.is_some() {
            self.push_player = q.push;
        }
        if q.carry {
            self.carry_player = true;
        }
    }
}

/// The words of an actor a tick may change, as a value to compute with.
#[derive(Clone, Copy)]
pub struct Vals {
    pub x: i32,
    pub y: i32,
    pub frame: usize,
    pub d1: i32,
    pub d2: i32,
    pub d3: i32,
    pub d4: i32,
    pub d5: i32,
    pub fall_time: i32,
    pub dead: bool,
    pub west_free: bool,
    pub east_free: bool,
    pub weighted: bool,
    pub force_active: bool,
    pub rng: u32,
}

/// An actor's plain state with the changeable words taken from `v`.
pub open spec fn with_vals(b: Body, v: Vals) -> Body {
    Body {
        x: v.x as int,
        y: v.y as int,
        frame: v.frame as int,
        d1: v.d1 as int,
        d2: v.d2 as int,
        d3: v.d3 as int,
        d4: v.d4 as int,
        d5: v.d5 as int,
        fall_time: v.fall_time as int,
        dead: v.dead,
        west_free: v.west_free,
        east_free: v.east_free,
        weighted: v.weighted,
        force_active: v.force_active,
        rng: v.rng,
        ..b
    }
}

impl Enemy {
    /// The changeable words as a value.
    pub open spec fn vals_spec(&self) -> Vals {
        Vals {
            x: self.x,
            y: self.y,
            frame: self.frame,
            d1: self.d1,
            d2: self.d2,
            d3: self.d3,
            d4: self.d4,
            d5: self.d5,
            fall_time: self.fall_time,
            dead: self.dead,
            west_free: self.west_free,
            east_free: self.east_free,
            weighted: self.weighted,
            force_active: self.force_active,
            rng: self.rng,
        }
    }

    /// The changeable words, as they stand.
    pub fn vals(&self) -> (v: Vals)
        ensures
            with_vals(self.body(), v) == self.body(),
            v == self.vals_spec(),
            v.x == self.x && v.y == self.y && v.frame == self.frame,
            v.d1 == self.d1 && v.d2 == self.d2 && v.d3 == self.d3 && v.d4 == self.d4 && v.d5 == self.d5,
            v.fall_time == self.fall_time && v.dead == self.dead,
            v.west_free == self.west_free && v.east_free == self.east_free,
            v.weighted == self.weighted && v.force_active == self.force_active && v.rng == self.rng,
    {
        Vals {
            x: self.x,
            y: self.y,
            frame: self.frame,
            d1: self.d1,
            d2: self.d2,
            d3: self.d3,
            d4: self.d4,
            d5: self.d5,
            fall_time: self.fall_time,
            dead: self.dead,
            west_free: self.west_free,
            east_free: self.east_free,
            weighted: self.weighted,
            force_active: self.force_active,
            rng: self.rng,
        }
    }

    /// Ends a tick: the new words, then what it gathered.
    pub fn finish(&mut self, v: Vals, q: Queued)
        requires
            old(self).score_award + q.score <= u32::MAX,
        ensures
            final(self).stepped(old(self), (with_vals(old(self).body(), v), q@)),
    {
        self.x = v.x;
        self.y = v.y;
        self.frame = v.frame;
        self.d1 = v.d1;
        self.d2 = v.d2;
        self.d3 = v.d3;
        self.d4 = v.d4;
        self.d5 = v.d5;
        self.fall_time = v.fall_time;
        self.dead = v.dead;
        self.west_free = v.west_free;
        self.east_free = v.east_free;
        self.weighted = v.weighted;
        self.force_active = v.force_active;
        self.rng = v.rng;
        self.absorb(q);
    }
}

/// Pushing onto a queue is appending a one-item queue.
pub broadcast proof fn lemma_push_as_add<A>(a: Seq<A>, x: A)
    ensures
        #[trigger] a.push(x) == a + seq![x],
{
    assert(a.push(x) =~= a + seq![x]);
}

/// The facts a tick's queues are proved with.
pub broadcast group group_queue_laws {
    lemma_push_as_add,
    vstd::seq::Seq::add_empty_right,
    vstd::seq::Seq::push_distributes_over_add,
}

/// Appending nothing leaves each of an actor's queues as it was.
pub proof fn lemma_untouched_queues(e: &Enemy)
    ensures
        e.spawns@ + Seq::empty() == e.spawns@,
        e.tile_writes@ + Seq::empty() == e.tile_writes@,
        e.decorations@ + Seq::empty() == e.decorations@,
        e.sounds@ + Seq::empty() == e.sounds@,
        e.shards@ + Seq::empty() == e.shards@,
        e.explosions@ + Seq::empty() == e.explosions@,
        e.score_effects@ + Seq::empty() == e.score_effects@,
{
    assert(e.spawns@ + Seq::empty() =~= e.spawns@);
    assert(e.tile_writes@ + Seq::empty() =~= e.tile_writes@);
    assert(e.decorations@ + Seq::empty() =~= e.decorations@);
    assert(e.sounds@ + Seq::empty() =~= e.sounds@);
    assert(e.shards@ + Seq::empty() =~= e.shards@);
    assert(e.explosions@ + Seq::empty() =~= e.explosions@);
    assert(e.score_effects@ + Seq::empty() =~= e.score_effects@);
}

/// The seed of an actor's jitter generator, from where it spawned.
pub open spec fn rng_seed(x: i32, y: i32) -> u32 {
    vstd::wrapping::u32_specs::wrapping_add(
        vstd::wrapping::u32_specs::wrapping_mul(x as u32, 1973u32),
        vstd::wrapping::u32_specs::wrapping_mul(y as u32, 9277u32),
    ) | 1u32
}

/// An actor as `ConstructActor` builds it: the table's words (with the
/// few kinds that seed them from the position), the flags, the pounce
/// table's figures, a seeded generator and nothing queued.
pub open spec fn constructed(e: Enemy, kind: EnemyKind, act_id: u16, data: Seq<i32>, x: i32, y: i32, width_tiles: i32, height_tiles: i32, flags: ActorFlags) -> bool {
    &&& e.kind == kind
    &&& e.act_id == act_id
    &&& e.x == x
    &&& e.y == y
    &&& e.frame == 0
    &&& e.d1 == data[0]
    &&& e.d2 == (if kind == EnemyKind::Slime && data[4] != 0 {
                    y
                } else if kind == EnemyKind::Fireball {
                    x
                } else {
                    data[1]
                })
    &&& e.d3 == (if kind == EnemyKind::JumpPad && data[4] != 0 {
                    (y + 1) as i32
                } else if kind == EnemyKind::SpittingTurret {
                    x
                } else if kind == EnemyKind::Fireball {
                    y
                } else {
                    data[2]
                })
    &&& e.d4 == (if kind == EnemyKind::JumpPad && data[4] != 0 { (y + 3) as i32 } else { data[3] })
    &&& e.d5 == data[4]
    &&& e.fall_time == 0
    &&& !e.dead
    &&& e.width_tiles == width_tiles
    &&& e.height_tiles == height_tiles
    &&& e.west_free
    &&& e.east_free
    &&& e.acrophile == flags.acrophile
    &&& e.weighted == flags.weighted
    &&& e.force_active == flags.force_active
    &&& e.stay_active == flags.stay_active
    &&& e.pounce_hits == (if kind == EnemyKind::JumpPad && data[4] != 0 {
                    0
                } else {
                    match pounce_table(kind) {
                        Some((_, hits)) => hits,
                        None => 0,
                    }
                })
    &&& e.pounce_recoil == (match pounce_table(kind) {
                    Some((recoil, _)) => recoil,
                    None => 0,
                })
    &&& e.rng == rng_seed(x, y)
    &&& e.spawns@.len() == 0
    &&& e.tile_writes@.len() == 0
    &&& e.push_player is None
    &&& e.hold_player == 0
    &&& !e.won_level
    &&& e.decorations@.len() == 0
    &&& e.sounds@.len() == 0
    &&& e.shards@.len() == 0
    &&& e.score_award == 0
    &&& e.bubble is None
    &&& e.explosions@.len() == 0
    &&& !e.carry_player
    &&& e.score_effects@.len() == 0
}

impl Enemy {
    /// `NewActor` for a behaviour: starting state from the type's table
    /// entry, flags and spawn position.
    #[allow(clippy::too_many_arguments)]
    pub fn new(
        kind: EnemyKind,
        act_id: u16,
        data: [i32; 5],
        x: i32,
        y: i32,
        width_tiles: i32,
        height_tiles: i32,
        flags: ActorFlags,
    ) -> (e: Self)
        requires
            -0x4000_0000 <= y <= 0x4000_0000,
        ensures
            constructed(e, kind, act_id, data@, x, y, width_tiles, height_tiles, flags),
    {
        let spec = kind.pounce_spec();
        let mut pounce_hits = match spec {
            Some(s) => s.hits,
            None => 0,
        };
        let pounce_recoil = match spec {
            Some(s) => s.recoil,
            None => 0,
        };
        let d1 = data[0];
        let mut d2 = data[1];
        let mut d3 = data[2];
        let mut d4 = data[3];
        let d5 = data[4];
        if kind == EnemyKind::JumpPad && d5 != 0 {
            d3 = y + 1;
            d4 = y + 3;
            pounce_hits = 0;
        }
        if kind == EnemyKind::SpittingTurret {
            d3 = x;
        }
        if kind == EnemyKind::Slime && d5 != 0 {
            d2 = y;
        }
        if kind == EnemyKind::Fireball {
            d2 = x;
            d3 = y;
        }
        let seed = (x as u32).wrapping_mul(1973).wrapping_add((y as u32).wrapping_mul(9277)) | 1;
        Enemy {
            kind,
            act_id,
            pounce_hits,
            pounce_recoil,
            weighted: flags.weighted,
            x,
            y,
            frame: 0,
            d1,
            d2,
            d3,
            d4,
            d5,
            fall_time: 0,
            dead: false,
            width_tiles,
            height_tiles,
            west_free: true,
            east_free: true,
            acrophile: flags.acrophile,
            force_active: flags.force_active,
            stay_active: flags.stay_active,
            rng: seed,
            spawns: Vec::new(),
            tile_writes: Vec::new(),
            push_player: None,
            hold_player: 0,
            won_level: false,
            decorations: Vec::new(),
            sounds: Vec::new(),
            shards: Vec::new(),
            score_award: 0,
            bubble: None,
            explosions: Vec::new(),
            carry_player: false,
            score_effects: Vec::new(),
        }
    }
}

impl Enemy {
    /// A bare actor for exercising a behaviour on its own.
    pub fn default_for_test(kind: EnemyKind) -> (e: Self)
        ensures
            e.kind == kind,
            e.act_id == 0,
            e.x == 10,
            e.y == 10,
            e.frame == 0,
            e.d1 == 0 && e.d2 == 0 && e.d3 == 0 && e.d4 == 0 && e.d5 == 0,
            e.fall_time == 0,
            !e.dead,
            e.width_tiles == 2,
            e.height_tiles == 2,
            !e.west_free && !e.east_free && !e.acrophile,
            e.force_active && !e.stay_active,
            e.pounce_hits == 0 && e.pounce_recoil == 0,
            !e.weighted,
            e.rng == 0x1234_5678,
            e.spawns@.len() == 0,
            e.tile_writes@.len() == 0,
            e.push_player is None,
            e.hold_player == 0,
            !e.won_level,
            e.decorations@.len() == 0,
            e.sounds@.len() == 0,
            e.shards@.len() == 0,
            e.score_award == 0,
            e.bubble is None,
            e.explosions@.len() == 0,
            !e.carry_player,
            e.score_effects@.len() == 0,
    {
        Enemy {
            kind,
            act_id: 0,
            x: 10,
            y: 10,
            frame: 0,
            d1: 0,
            d2: 0,
            d3: 0,
            d4: 0,
            d5: 0,
            fall_time: 0,
            dead: false,
            width_tiles: 2,
            height_tiles: 2,
            west_free: false,
            east_free: false,
            acrophile: false,
            force_active: true,
            stay_active: false,
            pounce_hits: 0,
            pounce_recoil: 0,
            weighted: false,
            rng: 0x1234_5678,
            spawns: Vec::new(),
            tile_writes: Vec::new(),
            push_player: None,
            hold_player: 0,
            won_level: false,
            decorations: Vec::new(),
            sounds: Vec::new(),
            shards: Vec::new(),
            score_award: 0,
            bubble: None,
            explosions: Vec::new(),
            carry_player: false,
            score_effects: Vec::new(),
        }
    }

    /// Advances the actor's jitter generator and rolls `0..modulo`.
    pub fn next_rand(&mut self, modulo: u32) -> (r: u32)
        ensures
            final(self).body() == (Body { rng: xorshift(old(self).rng), ..old(self).body() }),
            final(self).same_queues(old(self)),
            r == roll(xorshift(old(self).rng), modulo),
    {
        self.rng = xorshift_step(self.rng);
        if modulo == 0 {
            0
        } else {
            self.rng % modulo
        }
    }
}

/// Undoes a one-column step taken toward `dir`.
pub open spec fn undo_step(x: int, dir: Dir4) -> int {
    match dir {
        Dir4::West => x + 1,
        Dir4::East => x - 1,
        _ => x,
    }
}

/// `AdjustActorMove` on plain values: validates a step already taken
/// toward `dir`. A wall undoes it; a slope lifts the actor a row; a ledge
/// undoes it for an actor that is not an acrophile. Gives the position and
/// whether the step stood.
pub open spec fn adjust_xy(x: int, y: int, w: int, h: int, acrophile: bool, dir: Dir4, level: &LevelJson, data: &GameData) -> (int, int, bool) {
    let res = sprite_move_spec(dir, x, y, w, h, level, data);
    let x1 = if res == MoveResult::Blocked { undo_step(x, dir) } else { x };
    let y1 = if res == MoveResult::Sloped { y - 1 } else { y };
    let free1 = res != MoveResult::Blocked;
    let ledge = free1 && !acrophile && sprite_move_spec(Dir4::South, x1, y1 + 1, w, h, level, data) == MoveResult::Free;
    (if ledge { undo_step(x1, dir) } else { x1 }, y1, free1 && !ledge)
}

/// `AdjustActorMove` on an actor: the direction's `*_free` flag records
/// whether the step stood.
#[verifier::opaque]
pub open spec fn adjust_spec(b: Body, dir: Dir4, level: &LevelJson, data: &GameData) -> Body {
    let r = adjust_xy(b.x, b.y, b.w, b.h, b.acrophile, dir, level, data);
    match dir {
        Dir4::West => Body { x: r.0, y: r.1, west_free: r.2, ..b },
        Dir4::East => Body { x: r.0, y: r.1, east_free: r.2, ..b },
        _ => Body { x: r.0, y: r.1, ..b },
    }
}

/// `AdjustActorMove`'s test on plain values.
pub fn adjust_xy_exec(x: i32, y: i32, w: i32, h: i32, acrophile: bool, dir: Dir4, level: &LevelJson, data: &GameData) -> (r: (i32, i32, bool))
    requires
        level_wf(level),
        -0x3fff_fff0 <= x <= 0x3fff_fff0,
        -0x3fff_fff0 <= y <= 0x3fff_fff0,
        size_ok(w as int),
        size_ok(h as int),
    ensures
        (r.0 as int, r.1 as int, r.2) == adjust_xy(x as int, y as int, w as int, h as int, acrophile, dir, level, data),
        x - 2 <= r.0 <= x + 2,
        y - 1 <= r.1 <= y,
{
    let back: i32 = match dir {
        Dir4::West => 1,
        Dir4::East => -1,
        _ => 0,
    };
    let res = test_sprite_move(dir, x, y, w, h, level, data);
    let x1 = if res == MoveResult::Blocked { x + back } else { x };
    let y1 = if res == MoveResult::Sloped { y - 1 } else { y };
    let free1 = res != MoveResult::Blocked;
    let ledge = free1 && !acrophile && test_sprite_move(Dir4::South, x1, y1 + 1, w, h, level, data) == MoveResult::Free;
    (if ledge { x1 + back } else { x1 }, y1, free1 && !ledge)
}

/// One draw from a jitter generator: the advanced state and the roll in
/// `0..modulo`.
pub fn rand_step(rng: u32, modulo: u32) -> (r: (u32, u32))
    ensures
        r.0 == xorshift(rng),
        r.1 == roll(xorshift(rng), modulo),
{
    let s = xorshift_step(rng);
    (s, if modulo == 0 { 0 } else { s % modulo })
}

/// A body whose footprint arithmetic stays in range.
pub open spec fn body_ok(b: Body) -> bool {
    &&& -0x3fff_fff0 <= b.x <= 0x3fff_fff0
    &&& -0x3fff_fff0 <= b.y <= 0x3fff_fff0
    &&& size_ok(b.w)
    &&& size_ok(b.h)
}

pub fn adjust_actor_move(e: &mut Enemy, dir: Dir4, level: &LevelJson, data: &GameData)
    requires
        level_wf(level),
        body_ok(old(e).body()),
    ensures
        final(e).body() == adjust_spec(old(e).body(), dir, level, data),
        final(e).same_queues(old(e)),
{
    proof {
        reveal(adjust_spec);
    }
    let r = adjust_xy_exec(e.x, e.y, e.width_tiles, e.height_tiles, e.acrophile, dir, level, data);
    let (wf, ef) = match dir {
        Dir4::West => (r.2, e.east_free),
        Dir4::East => (e.west_free, r.2),
        _ => (e.west_free, e.east_free),
    };
    e.x = r.0;
    e.y = r.1;
    e.west_free = wf;
    e.east_free = ef;
}

/// The shared gravity pass weighted actors get before their own tick:
/// lift out of a floor it is embedded in, then fall, ramping up over five
/// ticks to two rows a tick.
#[verifier::opaque]
pub open spec fn gravity_spec(b: Body, level: &LevelJson, data: &GameData) -> Body {
    let south_free = |x: int, y: int| sprite_move_spec(Dir4::South, x, y, b.w, b.h, level, data) == MoveResult::Free;
    let b1 = if !south_free(b.x, b.y) { Body { y: b.y - 1, fall_time: 0, ..b } } else { b };
    if south_free(b1.x, b1.y + 1) {
        let ft = if b1.fall_time < 5 { b1.fall_time + 1 } else { b1.fall_time };
        let y2 = if ft > 1 && ft < 6 { b1.y + 1 } else { b1.y };
        if ft == 5 {
            if !south_free(b1.x, y2 + 1) {
                Body { y: y2, fall_time: 0, ..b1 }
            } else {
                Body { y: y2 + 1, fall_time: ft, ..b1 }
            }
        } else {
            Body { y: y2, fall_time: ft, ..b1 }
        }
    } else {
        Body { fall_time: 0, ..b1 }
    }
}

pub fn apply_gravity(e: &mut Enemy, level: &LevelJson, data: &GameData)
    requires
        level_wf(level),
        body_ok(old(e).body()),
        word_ok(old(e).fall_time as int),
    ensures
        final(e).body() == gravity_spec(old(e).body(), level, data),
        final(e).body() == (Body { y: final(e).y as int, fall_time: final(e).fall_time as int, ..old(e).body() }),
        final(e).same_queues(old(e)),
        old(e).y - 1 <= final(e).y <= old(e).y + 2,
        final(e).fall_time == 0 || final(e).fall_time == old(e).fall_time || (old(e).fall_time < 5 && final(e).fall_time == old(e).fall_time + 1),
{
    reveal(gravity_spec);
    let w = e.width_tiles;
    let h = e.height_tiles;
    if test_sprite_move(Dir4::South, e.x, e.y, w, h, level, data) != MoveResult::Free {
        e.y = e.y - 1;
        e.fall_time = 0;
    }
    if test_sprite_move(Dir4::South, e.x, e.y + 1, w, h, level, data) == MoveResult::Free {
        if e.fall_time < 5 {
            e.fall_time = e.fall_time + 1;
        }
        if e.fall_time > 1 && e.fall_time < 6 {
            e.y = e.y + 1;
        }
        if e.fall_time == 5 {
            if test_sprite_move(Dir4::South, e.x, e.y + 1, w, h, level, data) != MoveResult::Free {
                e.fall_time = 0;
            } else {
                e.y = e.y + 1;
            }
        }
    } else {
        e.fall_time = 0;
    }
}

/// `IsSpriteVisible`: does a `w` x `h` box at `(x, y)` overlap the window
/// whose top-left is `(sx, sy)`?
pub open spec fn visible_spec(x: int, y: int, w: int, h: int, sx: int, sy: int) -> bool {
    let horizontal = (sx <= x && sx + SCROLL_W > x) || (sx >= x && x + w > sx);
    let vertical = (sy + SCROLL_H > (y - h) + 1 && sy + SCROLL_H <= y) || (y >= sy && sy + SCROLL_H > y);
    horizontal && vertical
}

pub fn is_visible_at(x: i32, y: i32, w: i32, h: i32, sx: i32, sy: i32) -> (r: bool)
    requires
        coord_ok(x as int),
        coord_ok(y as int),
        size_ok(w as int),
        size_ok(h as int),
        coord_ok(sx as int),
        coord_ok(sy as int),
    ensures
        r == visible_spec(x as int, y as int, w as int, h as int, sx as int, sy as int),
{
    let horizontal = (sx <= x && sx + SCROLL_W > x) || (sx >= x && x + w > sx);
    let vertical = (sy + SCROLL_H > (y - h) + 1 && sy + SCROLL_H <= y) || (y >= sy && sy + SCROLL_H > y);
    horizontal && vertical
}

} // verus!
