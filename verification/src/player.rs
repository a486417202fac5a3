//! The player: state, the per-tick movement (`MovePlayer`), the frame
//! chain and the view nudges, the pounce and the head-shake.
//!
//! Movement is tile-grid stepped on the ~18.2Hz game tick; `y` is the
//! player's bottom row and `x` the leftmost of their three columns.
use vstd::prelude::*;
pub mod frames;
pub mod movement;
pub mod script;

verus! {

pub const PLAYER_WIDTH: i32 = 3;

pub const PLAYER_HEIGHT: i32 = 5;

#[derive(Clone, Copy, PartialEq, Eq, Debug, Structural)]
pub enum FaceDir {
    West,
    East,
}

/// One shove in progress (`SetPlayerPush`).
#[derive(Clone, Copy, PartialEq, Eq, Debug, Structural)]
pub struct Push {
    pub dx: i32,
    pub dy: i32,
    /// Cells moved per tick.
    pub speed: u32,
    pub time: u32,
    pub max_time: u32,
    /// Whether jumping cancels it.
    pub abortable: bool,
    /// Whether hitting something stops it.
    pub blockable: bool,
}

#[derive(Clone, Copy, PartialEq, Eq, Debug, Structural)]
pub struct Player {
    pub x: i32,
    pub y: i32,
    pub face_dir: FaceDir,
    pub jump_time: u32,
    pub fall_time: u32,
    pub is_falling: bool,
    pub cling_dir: Option<FaceDir>,
    pub cmd_jump_latch: bool,
    pub can_cling: bool,
    pub frame: usize,
    /// Starts at 4; contact damage takes one, and 0 is death.
    pub health: i32,
    /// Invincibility ticks after taking damage (44 when hurt).
    pub hurt_cooldown: u32,
    /// 0 while alive; counts the ticks of the death animation.
    pub dead_timer: u32,
    pub bombs: u32,
    /// How many cells the health meter shows; starts at 3.
    pub health_cells: u32,
    /// The springy bounce a pounce launches the player into.
    pub recoil_left: i32,
    pub is_recoiling: bool,
    /// Set on ticks where the player slides down a slippery wall.
    pub cling_slip: bool,
    /// Drives the walk cycle at half the tick rate.
    pub move_count: u32,
    /// How long the player has stood still.
    pub idle_count: u32,
    /// The invincibility bubble, as a countdown.
    pub invincible_ticks: u32,
    /// A shove by something else; while it runs the player's own movement
    /// commands are ignored.
    pub push: Option<Push>,
    /// A head-shake waiting for the player to be back on the ground.
    pub dizzy_queued: bool,
    /// Ticks of head-shake left; the player cannot act meanwhile.
    pub dizzy_left: u32,
    /// Blocks the whole player tick.
    pub block_action: bool,
    /// A pounce or a shove gives a longer arc than an ordinary jump.
    pub long_jumping: bool,
    /// Ten plain pounces in a row earn a bonus; anything else breaks it.
    pub pounce_streak: u32,
    /// Set while the player is descending onto something.
    pub pounce_ready: bool,
    /// The separate death for falling off the bottom of the map.
    pub fall_dead_time: u32,
    /// Held in place by a trap.
    pub held_ticks: u32,
    /// Riding a scooter: non-zero while mounted.
    pub scooter: u32,
    /// Being carried through a pipe.
    pub in_pipe: bool,
    /// Stand-in for `random()`, used only for idle-animation jitter.
    pub rng: u32,
}

/// One step of the xorshift generator the idle jitter runs on.
pub open spec fn xorshift(s: u32) -> u32 {
    let a = s ^ (s << 13u32);
    let b = a ^ (a >> 17u32);
    b ^ (b << 5u32)
}

/// The roll a `next_rand(modulo)` hands back from the advanced state.
pub open spec fn roll(state: u32, modulo: u32) -> u32 {
    if modulo == 0 {
        0
    } else {
        state % modulo
    }
}

/// One tick of the xorshift generator.
pub fn xorshift_step(s: u32) -> (r: u32)
    ensures
        r == xorshift(s),
{
    let a = s ^ (s << 13u32);
    let b = a ^ (a >> 17u32);
    b ^ (b << 5u32)
}

/// The player's starting state at `(x, y)`: falling, facing east, four
/// health in three cells.
pub open spec fn spawn_spec(x: i32, y: i32) -> Player {
    Player {
        x,
        y,
        face_dir: FaceDir::East,
        jump_time: 0,
        fall_time: 0,
        is_falling: true,
        cling_dir: None,
        cmd_jump_latch: false,
        can_cling: false,
        frame: 0,
        health: 4,
        hurt_cooldown: 0,
        dead_timer: 0,
        bombs: 0,
        health_cells: 3,
        recoil_left: 0,
        is_recoiling: false,
        cling_slip: false,
        move_count: 0,
        idle_count: 0,
        invincible_ticks: 0,
        push: None,
        dizzy_queued: false,
        dizzy_left: 0,
        block_action: false,
        long_jumping: false,
        pounce_streak: 0,
        pounce_ready: false,
        fall_dead_time: 0,
        held_ticks: 0,
        scooter: 0,
        in_pipe: false,
        rng: 0x1337_beef,
    }
}

/// `TryPounce`'s outcome: whether it lands, and the player after it.
pub open spec fn pounce_succeeds(p: Player) -> bool {
    &&& p.dead_timer == 0
    &&& p.dizzy_left == 0
    &&& p.pounce_ready
    &&& !(p.is_recoiling && p.recoil_left >= 2)
    &&& (p.is_falling || p.jump_time > 6)
}

pub open spec fn pounce_spec(p: Player, recoil: i32) -> Player {
    let streak: u32 = if recoil == 7 {
        if p.pounce_streak + 1 == 10 { 0 } else { (p.pounce_streak + 1) as u32 }
    } else {
        0
    };
    Player {
        recoil_left: (recoil + 1) as i32,
        is_recoiling: true,
        is_falling: false,
        fall_time: 0,
        dizzy_queued: false,
        dizzy_left: 0,
        long_jumping: recoil > 18,
        pounce_streak: streak,
        ..p
    }
}

/// `ProcessPlayerDizzy`: clinging cancels the shake; a queued one starts
/// (eight ticks) on the ground; a running one counts down and holds the
/// player out of a fall.
pub open spec fn dizzy_spec(p: Player, grounded: bool) -> Player {
    if p.cling_dir is Some {
        Player { dizzy_queued: false, dizzy_left: 0, ..p }
    } else {
        let (q, left) = if p.dizzy_queued && grounded { (false, 8u32) } else { (p.dizzy_queued, p.dizzy_left) };
        if left != 0 {
            Player { dizzy_queued: q, dizzy_left: (left - 1) as u32, is_falling: false, ..p }
        } else {
            Player { dizzy_queued: q, dizzy_left: left, ..p }
        }
    }
}

impl Player {
    /// `SetPlayerPush`: starts a shove.
    pub fn set_push(&mut self, dx: i32, dy: i32, max_time: u32, speed: u32, abortable: bool, blockable: bool)
        ensures
            *final(self) == (Player {
                push: Some(Push { dx, dy, speed, time: 0, max_time, abortable, blockable }),
                ..*old(self)
            }),
    {
        self.push = Some(Push { dx, dy, speed, time: 0, max_time, abortable, blockable });
    }

    pub fn spawn_at(x: i32, y: i32) -> (p: Self)
        ensures
            p == spawn_spec(x, y),
    {
        Player {
            x,
            y,
            face_dir: FaceDir::East,
            jump_time: 0,
            fall_time: 0,
            is_falling: true,
            cling_dir: None,
            cmd_jump_latch: false,
            can_cling: false,
            frame: 0,
            health: 4,
            hurt_cooldown: 0,
            dead_timer: 0,
            bombs: 0,
            health_cells: 3,
            recoil_left: 0,
            is_recoiling: false,
            cling_slip: false,
            move_count: 0,
            idle_count: 0,
            invincible_ticks: 0,
            push: None,
            dizzy_queued: false,
            dizzy_left: 0,
            block_action: false,
            long_jumping: false,
            pounce_streak: 0,
            pounce_ready: false,
            fall_dead_time: 0,
            held_ticks: 0,
            scooter: 0,
            in_pipe: false,
            rng: 0x1337_beef,
        }
    }

    /// Advances the jitter generator and rolls `0..modulo` (0 for 0).
    pub fn next_rand(&mut self, modulo: u32) -> (r: u32)
        ensures
            *final(self) == (Player { rng: xorshift(old(self).rng), ..*old(self) }),
            r == roll(xorshift(old(self).rng), modulo),
    {
        self.rng = xorshift_step(self.rng);
        if modulo == 0 {
            0
        } else {
            self.rng % modulo
        }
    }

    /// `isPlayerInvincible`: the bubble, or riding inside a pipe.
    pub fn is_invincible(&self) -> (r: bool)
        ensures
            r == (self.invincible_ticks > 0 || self.in_pipe),
    {
        self.invincible_ticks > 0 || self.in_pipe
    }

    /// `playerBaseFrame`: which 23-frame facing block frames come from.
    pub fn base_frame(&self) -> (r: usize)
        ensures
            r == (if self.face_dir == FaceDir::West { 0usize } else { 23usize }),
    {
        match self.face_dir {
            FaceDir::West => 0,
            FaceDir::East => 23,
        }
    }

    /// `TryPounce`: lands only while descending, armed, not dizzy and not
    /// already mid-bounce; launches the recoil and keeps the streak.
    pub fn try_pounce(&mut self, recoil: i32) -> (r: bool)
        requires
            recoil < i32::MAX,
            old(self).pounce_streak < u32::MAX,
        ensures
            r == pounce_succeeds(*old(self)),
            *final(self) == if r { pounce_spec(*old(self), recoil) } else { *old(self) },
    {
        if self.dead_timer != 0 || self.dizzy_left != 0 {
            return false;
        }
        let descending = self.is_falling || self.jump_time > 6;
        if !self.pounce_ready {
            return false;
        }
        if (self.is_recoiling && self.recoil_left >= 2) || !descending {
            return false;
        }
        self.recoil_left = recoil + 1;
        self.is_recoiling = true;
        self.is_falling = false;
        self.fall_time = 0;
        self.clear_dizzy();
        self.long_jumping = recoil > 18;
        if recoil == 7 {
            self.pounce_streak = self.pounce_streak + 1;
            if self.pounce_streak == 10 {
                self.pounce_streak = 0;
            }
        } else {
            self.pounce_streak = 0;
        }
        true
    }

    /// `ProcessPlayerDizzy`.
    pub fn process_dizzy(&mut self, grounded: bool)
        ensures
            *final(self) == dizzy_spec(*old(self), grounded),
    {
        if self.cling_dir.is_some() {
            self.dizzy_queued = false;
            self.dizzy_left = 0;
            return;
        }
        if self.dizzy_queued && grounded {
            self.dizzy_queued = false;
            self.dizzy_left = 8;
        }
        if self.dizzy_left != 0 {
            self.dizzy_left = self.dizzy_left - 1;
            self.is_falling = false;
        }
    }

    /// `SET_PLAYER_DIZZY`.
    pub fn queue_dizzy(&mut self)
        ensures
            *final(self) == (Player { dizzy_queued: true, ..*old(self) }),
    {
        self.dizzy_queued = true;
    }

    /// `ClearPlayerDizzy`.
    pub fn clear_dizzy(&mut self)
        ensures
            *final(self) == (Player { dizzy_queued: false, dizzy_left: 0, ..*old(self) }),
    {
        self.dizzy_queued = false;
        self.dizzy_left = 0;
    }
}

/// The six movement commands plus "any key", for one tick.
#[derive(Clone, Copy, PartialEq, Eq, Debug, Default, Structural)]
pub struct PlayerInput {
    pub west: bool,
    pub east: bool,
    pub jump: bool,
    pub look_up: bool,
    pub look_down: bool,
    pub bomb: bool,
    /// "Any key", for dismissing a modal frame.
    pub dismiss: bool,
}

} // verus!
