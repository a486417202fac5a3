//! The cast of a level as it is placed: which map actors become what
//! (behaviours, exits, prizes, hint globes, pedestals, eye plants), the
//! pedestals' solid caps and their collapse, and the small animations the
//! static actors run.
//!
//! A map actor's `ACT_*` id is its map type minus 31; map types below 31
//! are the special placements (player start, platforms, lights).
use vstd::prelude::*;
use crate::collide::rects_overlap;
use crate::data::{level_wf, LevelJson};
use crate::enemy_ai::table::{behavior_for, behavior_table};
use crate::enemy_ai::{constructed, ActorFlags, Enemy, EnemyKind};
use crate::hints::{hint_number_for_actor, hint_number_spec, HintGlobe};
use crate::level::{written, write_tile};
use crate::pickups::{pickup_for_sprite, pickup_table};

verus! {

/// `ACT_*` ids that end the level on contact.
pub open spec fn exit_act(id: u16) -> bool {
    id == 149 || id == 186 || id == 203
}

pub fn is_exit_act(id: u16) -> (r: bool)
    ensures
        r == exit_act(id),
{
    id == 149 || id == 186 || id == 203
}

/// `ACT_EXIT_SIGN`: ends the level on coming into view, not on contact.
pub const ACT_EXIT_SIGN: u16 = 39;

pub const SPR_HINT_GLOBE: u16 = 125;
pub const SPR_PEDESTAL: u16 = 192;
pub const SPR_EYE_PLANT: u16 = 95;

/// The tile a pedestal's cap writes into the map: solid, never drawn.
pub const TILE_INVISIBLE_PLATFORM: u16 = 0x0048;

/// The small, medium and large pedestals and their column heights.
pub open spec fn pedestal_height_spec(act: u16) -> Option<i32> {
    if act == 190 { Some(13i32) } else if act == 191 { Some(19i32) } else if act == 192 { Some(25i32) } else { None }
}

pub fn pedestal_height(act: u16) -> (r: Option<i32>)
    ensures
        r == pedestal_height_spec(act),
{
    if act == 190 {
        Some(13)
    } else if act == 191 {
        Some(19)
    } else if act == 192 {
        Some(25)
    } else {
        None
    }
}

#[derive(Clone, Copy, PartialEq, Eq, Debug, Structural)]
pub struct ExitTrigger {
    pub x: i32,
    pub y: i32,
}

#[derive(Clone, Copy, PartialEq, Eq, Debug, Structural)]
pub struct ExitSign {
    pub x: i32,
    pub y: i32,
}

/// A collectible prize in the level, keyed by the sprite it draws as.
#[derive(Clone, Copy, PartialEq, Eq, Debug, Structural)]
pub struct Collectible {
    pub x: i32,
    pub y: i32,
    pub spr: u16,
}

/// A basket or barrel: breaks when landed on, giving up `contents`.
#[derive(Clone, Copy, PartialEq, Eq, Debug, Structural)]
pub struct Container {
    pub x: i32,
    pub y: i32,
    pub contents: u16,
}

/// The grid after writing `value` into the five cells of row `row`
/// centred on column `x`, where they lie on the grid.
pub open spec fn cap_written(t: Seq<u16>, w: int, h: int, x: int, row: int, value: u16, n: int) -> Seq<u16>
    decreases n,
{
    if n <= 0 {
        t
    } else {
        written(cap_written(t, w, h, x, row, value, n - 1), w, h, x - 2 + n - 1, row, value)
    }
}

/// Writes a pedestal's cap row into the map, or clears it.
pub fn set_cap_tiles(level: &mut LevelJson, x: i32, row: i32, value: u16)
    requires
        level_wf(old(level)),
        -0x4000_0000 <= x <= 0x4000_0000,
    ensures
        level_wf(final(level)),
        final(level).width == old(level).width && final(level).height == old(level).height,
        final(level).actors@ == old(level).actors@,
        final(level).tiles@ == cap_written(old(level).tiles@, old(level).width as int, old(level).height as int, x as int, row as int, value, 5),
{
    let ghost t0 = level.tiles@;
    let mut i: i32 = 0;
    while i < 5
        invariant
            0 <= i <= 5,
            level_wf(level),
            level.width == old(level).width && level.height == old(level).height,
            level.actors@ == old(level).actors@,
            -0x4000_0000 <= x <= 0x4000_0000,
            t0 == old(level).tiles@,
            level.tiles@ == cap_written(t0, level.width as int, level.height as int, x as int, row as int, value, i as int),
        decreases 5 - i,
    {
        write_tile(level, x - 2 + i, row, value);
        i = i + 1;
    }
}

/// The grid with every pedestal's cap stamped in as solid floor, actor by
/// actor (caps above the map's top are skipped).
pub open spec fn capped(level: &LevelJson, t: Seq<u16>, n: int) -> Seq<u16>
    decreases n,
{
    if n <= 0 {
        t
    } else {
        let prev = capped(level, t, n - 1);
        let a = level.actors@[n - 1];
        if a.map_type < 31 {
            prev
        } else {
            match pedestal_height_spec((a.map_type - 31) as u16) {
                Some(height) => {
                    let row = a.y - height;
                    if row < 0 {
                        prev
                    } else {
                        cap_written(prev, level.width as int, level.height as int, a.x as int, row, TILE_INVISIBLE_PLATFORM, 5)
                    }
                },
                None => prev,
            }
        }
    }
}

/// Stamps every pedestal's cap into the map as solid floor. Pedestals never
/// move, so doing it once as the level loads is the same as every frame.
pub fn apply_pedestal_platforms(level: &mut LevelJson)
    requires
        level_wf(old(level)),
    ensures
        level_wf(final(level)),
        final(level).width == old(level).width && final(level).height == old(level).height,
        final(level).actors@ == old(level).actors@,
        final(level).tiles@ == capped(old(level), old(level).tiles@, old(level).actors@.len() as int),
{
    let ghost t0 = level.tiles@;
    let ghost l0 = *level;
    let n = level.actors.len();
    let mut i: usize = 0;
    while i < n
        invariant
            i <= n,
            n == l0.actors@.len(),
            level_wf(level),
            level.width == l0.width && level.height == l0.height,
            level.actors@ == l0.actors@,
            l0 == *old(level),
            t0 == old(level).tiles@,
            level.tiles@ == capped(&l0, t0, i as int),
        decreases n - i,
    {
        let a = level.actors[i];
        if a.map_type >= 31 {
            if let Some(height) = pedestal_height(a.map_type - 31) {
                let row = a.y as i32 - height;
                if row >= 0 {
                    set_cap_tiles(level, a.x as i32, row, TILE_INVISIBLE_PLATFORM);
                }
            }
        }
        i = i + 1;
    }
}

/// A standing pedestal: inert until something explodes against its base,
/// then sinking a tile every three ticks, shedding debris each step, until
/// it is gone.
#[derive(Clone, Copy, PartialEq, Eq, Debug, Structural)]
pub struct Pedestal {
    pub x: i32,
    pub base_y: i32,
    pub height: i32,
    /// Counts 3, 2, 1 between steps.
    pub collapse: u32,
}

/// What a pedestal's tick did.
#[derive(Clone, Copy, PartialEq, Eq, Debug, Structural)]
pub enum PedestalStep {
    Still,
    /// It sank a tile: drop the top segment, throw debris at the base, and
    /// redraw the cap at the new row.
    Sank,
    /// It sank its last tile and is gone.
    Gone,
}

impl Pedestal {
    /// One tick: a blast at the base (`hit`) starts the collapse; while
    /// collapsing it counts down, then clears the cap row and sinks a tile,
    /// re-stamping the cap a row lower unless it is gone.
    pub fn step(&mut self, hit: bool, level: &mut LevelJson) -> (r: PedestalStep)
        requires
            level_wf(old(level)),
            old(self).collapse <= 3,
            -0x3fff_0000 <= old(self).x <= 0x3fff_0000,
            -0x3fff_0000 <= old(self).base_y <= 0x3fff_0000,
            0 <= old(self).height <= 0x1000,
        ensures
            level_wf(final(level)),
            final(level).width == old(level).width && final(level).height == old(level).height,
            final(level).actors@ == old(level).actors@,
            old(self).collapse == 0 ==> r == PedestalStep::Still && final(level).tiles@ == old(level).tiles@
                && *final(self) == (Pedestal { collapse: if hit { 3u32 } else { 0u32 }, ..*old(self) }),
            old(self).collapse > 1 ==> r == PedestalStep::Still && final(level).tiles@ == old(level).tiles@
                && *final(self) == (Pedestal { collapse: (old(self).collapse - 1) as u32, ..*old(self) }),
            old(self).collapse == 1 ==> ({
                let p = *old(self);
                let cleared = cap_written(old(level).tiles@, old(level).width as int, old(level).height as int,
                    p.x as int, p.base_y - p.height, 0, 5);
                let h = p.height - 1;
                &&& *final(self) == (Pedestal { collapse: 3, height: h as i32, ..p })
                &&& if h <= 1 {
                    r == PedestalStep::Gone && final(level).tiles@ == cleared
                } else {
                    r == PedestalStep::Sank && final(level).tiles@ == cap_written(cleared, old(level).width as int,
                        old(level).height as int, p.x as int, p.base_y - h, TILE_INVISIBLE_PLATFORM, 5)
                }
            }),
    {
        if self.collapse == 0 {
            if hit {
                self.collapse = 3;
            }
            return PedestalStep::Still;
        }
        if self.collapse > 1 {
            self.collapse = self.collapse - 1;
            return PedestalStep::Still;
        }
        self.collapse = 3;
        let old_row = self.base_y - self.height;
        set_cap_tiles(level, self.x, old_row, 0);
        self.height = self.height - 1;
        if self.height <= 1 {
            return PedestalStep::Gone;
        }
        let row = self.base_y - self.height;
        set_cap_tiles(level, self.x, row, TILE_INVISIBLE_PLATFORM);
        PedestalStep::Sank
    }
}

/// Whether any explosion's blast reaches a pedestal's base cell.
pub fn blast_at_base(explosions: &Vec<(i32, i32)>, blast_w: i32, blast_h: i32, ped: &Pedestal) -> (r: bool)
    ensures
        r == exists|i: int| 0 <= i < explosions@.len() && crate::collide::rects_overlap_spec(
            (#[trigger] explosions@[i]).0 as int, explosions@[i].1 as int, blast_w as int, blast_h as int,
            ped.x as int, ped.base_y as int, 1, 1),
{
    let mut i: usize = 0;
    while i < explosions.len()
        invariant
            i <= explosions@.len(),
            forall|j: int| 0 <= j < i ==> !crate::collide::rects_overlap_spec((#[trigger] explosions@[j]).0 as int,
                explosions@[j].1 as int, blast_w as int, blast_h as int, ped.x as int, ped.base_y as int, 1, 1),
        decreases explosions@.len() - i,
    {
        let (ex, ey) = explosions[i];
        if rects_overlap(ex, ey, blast_w, blast_h, ped.x, ped.base_y, 1, 1) {
            return true;
        }
        i = i + 1;
    }
    false
}

/// The next step of a looping frame sequence `len` long.
pub fn next_step(step: usize, len: usize) -> (r: usize)
    requires
        len > 0,
        step < usize::MAX,
    ensures
        r == (step + 1) % (len as int),
{
    (step + 1) % len
}

/// The touchable orb of a hint globe: it floats two tiles above the base.
pub fn globe_orb(x: i32, y: i32, width_tiles: i32, height_tiles: i32, hint: u16) -> (g: HintGlobe)
    requires
        y >= i32::MIN + 2,
    ensures
        g == (HintGlobe { x, y: (y - 2) as i32, width_tiles, height_tiles, hint }),
{
    HintGlobe { x, y: y - 2, width_tiles, height_tiles, hint }
}

/// The eye plant's frame: looking left when the player is well west of it,
/// right when well east, otherwise at them.
pub open spec fn eye_frame_spec(eye_x: int, player_x: int) -> usize {
    if eye_x - 2 > player_x { 0 } else if eye_x + 1 < player_x { 2 } else { 1 }
}

pub fn eye_frame(eye_x: i32, player_x: i32) -> (r: usize)
    ensures
        r == eye_frame_spec(eye_x as int, player_x as int),
{
    if eye_x as i64 - 2 > player_x as i64 {
        0
    } else if eye_x as i64 + 1 < player_x as i64 {
        2
    } else {
        1
    }
}

/// How a map actor is put in the level.
#[derive(Clone, Copy, PartialEq, Eq, Debug, Structural)]
pub enum Placement {
    /// A special placement (map type below 31), handled elsewhere.
    Special,
    /// A hint globe holding this hint.
    HintGlobe(u16),
    /// A pedestal of this height.
    Pedestal(i32),
    EyePlant,
    /// An ordinary actor.
    Actor,
}

/// Which kind of placement a map actor gets, given the sprite its id draws
/// as: every hint globe id draws the same sprite and carries its hint by
/// id (0 for one with none); pedestals are known by id, eye plants by
/// sprite.
pub open spec fn placement_spec(map_type: u16, sprite: u16) -> Placement {
    if map_type < 31 {
        Placement::Special
    } else {
        let act = (map_type - 31) as u16;
        if sprite == SPR_HINT_GLOBE {
            Placement::HintGlobe(match hint_number_spec(act) { Some(h) => h, None => 0u16 })
        } else {
            match pedestal_height_spec(act) {
                Some(h) => Placement::Pedestal(h),
                None => if sprite == SPR_EYE_PLANT { Placement::EyePlant } else { Placement::Actor },
            }
        }
    }
}

pub fn placement(map_type: u16, sprite: u16) -> (r: Placement)
    ensures
        r == placement_spec(map_type, sprite),
{
    if map_type < 31 {
        return Placement::Special;
    }
    let act = map_type - 31;
    if sprite == SPR_HINT_GLOBE {
        return Placement::HintGlobe(match hint_number_for_actor(act) {
            Some(h) => h,
            None => 0,
        });
    }
    match pedestal_height(act) {
        Some(h) => Placement::Pedestal(h),
        None => if sprite == SPR_EYE_PLANT { Placement::EyePlant } else { Placement::Actor },
    }
}

/// What an ordinary actor is made of, beyond its artwork.
pub struct ActorPlan {
    /// Its behaviour, if it has one, or inert gravity if it only falls.
    pub enemy: Option<Enemy>,
    pub exit_sign: Option<ExitSign>,
    pub exit_trigger: Option<ExitTrigger>,
    pub collectible: Option<Collectible>,
    pub container: Option<Container>,
}

/// The container marker for actor `act` at `(x, y)`, given what the actor
/// table says it holds: none when it holds nothing, or holds itself (an
/// empty basket's encoding).
pub open spec fn container_spec(act: u16, contents: Option<u16>, x: i32, y: i32) -> Option<Container> {
    match contents {
        Some(c) => if c != act { Some(Container { x, y, contents: c }) } else { None },
        None => None,
    }
}

pub fn container_for(act: u16, contents: Option<u16>, x: i32, y: i32) -> (r: Option<Container>)
    ensures
        r == container_spec(act, contents, x, y),
{
    match contents {
        Some(c) => if c != act { Some(Container { x, y, contents: c }) } else { None },
        None => None,
    }
}

/// `NewActor` for an ordinary actor at `(x, y)`: a behaviour from the
/// table (or, for one flagged weighted, an inert faller), the exit sign,
/// the contact exits, a prize if its sprite is one, and a container if the
/// actor table gives it `contents` other than itself.
pub fn plan_actor(act: u16, sprite: u16, flags: ActorFlags, x: i32, y: i32, width_tiles: i32, height_tiles: i32, contents: Option<u16>) -> (p: ActorPlan)
    requires
        -0x4000_0000 <= y <= 0x4000_0000,
    ensures
        p.enemy is Some <==> (behavior_table(act) is Some || flags.weighted),
        p.enemy matches Some(e) ==> constructed(e, match behavior_table(act) { Some(b) => b.0, None => EnemyKind::Inert },
            act, match behavior_table(act) { Some(b) => b.1, None => seq![0i32, 0i32, 0i32, 0i32, 0i32] },
            x, y, width_tiles, height_tiles, flags),
        p.exit_sign == (if act == ACT_EXIT_SIGN { Some(ExitSign { x, y }) } else { None }),
        p.exit_trigger == (if exit_act(act) { Some(ExitTrigger { x, y }) } else { None }),
        p.collectible == (if pickup_table(sprite) is Some { Some(Collectible { x, y, spr: sprite }) } else { None }),
        p.container == container_spec(act, contents, x, y),
{
    let behavior = match behavior_for(act) {
        Some(b) => Some(b),
        None => if flags.weighted { Some((EnemyKind::Inert, [0i32; 5])) } else { None },
    };
    let enemy = match behavior {
        Some((kind, init)) => Some(Enemy::new(kind, act, init, x, y, width_tiles, height_tiles, flags)),
        None => None,
    };
    ActorPlan {
        enemy,
        exit_sign: if act == ACT_EXIT_SIGN { Some(ExitSign { x, y }) } else { None },
        exit_trigger: if is_exit_act(act) { Some(ExitTrigger { x, y }) } else { None },
        collectible: if pickup_for_sprite(sprite).is_some() { Some(Collectible { x, y, spr: sprite }) } else { None },
        container: container_for(act, contents, x, y),
    }
}

} // verus!
