//! Sound effect numbers.
use vstd::prelude::*;

verus! {

pub const BEAR_TRAP_CLOSE: u16 = 1;
pub const BGHOST_EGG_CRACK: u16 = 2;
pub const BGHOST_EGG_HATCH: u16 = 3;
pub const BIG_OBJECT_HIT: u16 = 4;
pub const BIG_PRIZE: u16 = 5;
pub const BOSS_DAMAGE: u16 = 6;
pub const DESTROY_SATELLITE: u16 = 7;
pub const DESTROY_SOLID: u16 = 8;
pub const DRIP: u16 = 9;
pub const EXPLOSION: u16 = 10;
pub const FIREBALL_LAUNCH: u16 = 11;
pub const FOOT_SWITCH_MOVE: u16 = 12;
pub const FOOT_SWITCH_ON: u16 = 13;
pub const HIGH_SCORE_SET: u16 = 14;
pub const HINT_DIALOG_ALERT: u16 = 15;
pub const IVY_PLANT_RISE: u16 = 16;
pub const JUMP_PAD_ROBOT: u16 = 17;
pub const OBJECT_HIT: u16 = 18;
pub const PAUSE_GAME: u16 = 19;
pub const PIPE_CORNER_HIT: u16 = 20;
pub const PLANT_MOUTH_OPEN: u16 = 21;
pub const PLAYER_CLING: u16 = 22;
pub const PLAYER_DEATH: u16 = 23;
pub const PLAYER_FOOTSTEP: u16 = 24;
pub const PLAYER_HIT_HEAD: u16 = 25;
pub const PLAYER_HURT: u16 = 26;
pub const PLAYER_JUMP: u16 = 27;
pub const PLAYER_LAND: u16 = 28;
pub const PRIZE: u16 = 29;
pub const PROJECTILE_LAUNCH: u16 = 30;
pub const PUSH_PLAYER: u16 = 31;
pub const SAW_BLADE_MOVE: u16 = 32;
pub const SMASH: u16 = 33;
pub const SPEECH_BUBBLE: u16 = 34;
pub const SPIKES_MOVE: u16 = 35;
pub const TRANSPORTER_ON: u16 = 36;
pub const TULIP_LAUNCH: u16 = 37;
pub const WIN_LEVEL: u16 = 38;

} // verus!
