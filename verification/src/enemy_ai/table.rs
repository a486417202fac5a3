//! Which behaviour each `ACT_*` type runs, and the `data1..data5` its
//! `ConstructActor` call starts it with. Types absent from the table are
//! inert scenery.
use vstd::prelude::*;
use crate::enemy_ai::{
    EnemyKind, ACT_SWITCH_FORCE_FIELD, ACT_SWITCH_LIGHTS, ACT_SWITCH_MYSTERY_WALL,
    ACT_SWITCH_PLATFORMS, DIR8_EAST_I, DIR8_NORTH_I, DIR8_SOUTH_I, DIR8_WEST_I, DIRP_EAST,
    DIRP_SOUTH, DIRP_SOUTHEAST, DIRP_SOUTHWEST, DIRP_WEST,
};

verus! {

/// The behaviour and starting words for an `ACT_*` id, if it has one.
pub open spec fn behavior_table(act_id: u16) -> Option<(EnemyKind, Seq<i32>)> {
    match act_id {
        1 => Some((EnemyKind::Prize, seq![0i32, 0i32, 0i32, 0i32, 4i32])),
        28 => Some((EnemyKind::Prize, seq![0i32, 0i32, 0i32, 1i32, 6i32])),
        94 => Some((EnemyKind::Prize, seq![0i32, 0i32, 0i32, 1i32, 2i32])),
        153 => Some((EnemyKind::Prize, seq![0i32, 0i32, 0i32, 0i32, 4i32])),
        154 => Some((EnemyKind::Prize, seq![0i32, 0i32, 0i32, 0i32, 5i32])),
        155 => Some((EnemyKind::Prize, seq![0i32, 0i32, 0i32, 0i32, 6i32])),
        174 => Some((EnemyKind::Prize, seq![0i32, 0i32, 0i32, 0i32, 5i32])),
        176 => Some((EnemyKind::Prize, seq![0i32, 0i32, 0i32, 0i32, 4i32])),
        189 => Some((EnemyKind::Prize, seq![0i32, 0i32, 0i32, 0i32, 4i32])),
        194 => Some((EnemyKind::Prize, seq![3i32, 2i32, 0i32, 0i32, 1i32])),
        196 => Some((EnemyKind::Prize, seq![2i32, 2i32, 0i32, 0i32, 1i32])),
        198 => Some((EnemyKind::Prize, seq![2i32, 2i32, 0i32, 0i32, 1i32])),
        200 => Some((EnemyKind::Prize, seq![2i32, 2i32, 0i32, 0i32, 1i32])),
        202 => Some((EnemyKind::Prize, seq![0i32, 0i32, 0i32, 0i32, 4i32])),
        213 => Some((EnemyKind::Prize, seq![3i32, 2i32, 0i32, 0i32, 1i32])),
        214 => Some((EnemyKind::Prize, seq![2i32, 2i32, 0i32, 0i32, 1i32])),
        215 => Some((EnemyKind::Prize, seq![2i32, 2i32, 0i32, 0i32, 1i32])),
        216 => Some((EnemyKind::Prize, seq![2i32, 2i32, 0i32, 0i32, 1i32])),
        252 => Some((EnemyKind::Prize, seq![1i32, 0i32, 0i32, 0i32, 6i32])),
        263 => Some((EnemyKind::Prize, seq![0i32, 0i32, 0i32, 1i32, 6i32])),
        264 => Some((EnemyKind::Prize, seq![0i32, 0i32, 0i32, 0i32, 4i32])),
        25 => Some((EnemyKind::Cabbage, seq![1i32, 0i32, 0i32, 0i32, 0i32])),
        51 => Some((EnemyKind::GhostActor, seq![0i32, 0i32, 0i32, 0i32, 4i32])),
        69 => Some((EnemyKind::RoamerSlug, seq![0i32, 3i32, 0i32, 0i32, 0i32])),
        86 => Some((EnemyKind::ParachuteBall, seq![0i32, 20i32, 0i32, 0i32, 2i32])),
        106 => Some((EnemyKind::SuctionWalker, seq![0i32, 0i32, 0i32, 0i32, 0i32])),
        118 => Some((EnemyKind::RedChomper, seq![0i32, 0i32, 0i32, 0i32, 0i32])),
        124 => Some((EnemyKind::PinkWorm, seq![0i32, 0i32, 0i32, 0i32, 0i32])),
        187 => Some((EnemyKind::Bird, seq![0i32, 0i32, 0i32, 0i32, 0i32])),
        18 => Some((EnemyKind::ReciprocatingSpikes, seq![1i32, 0i32, 0i32, 0i32, 0i32])),
        41 => Some((EnemyKind::ReciprocatingSpear, seq![0i32, 0i32, 0i32, 0i32, 0i32])),
        50 => Some((EnemyKind::Pyramid, seq![0i32, 0i32, 0i32, 0i32, 1i32])),
        83 => Some((EnemyKind::ClamPlant, seq![0i32, 0i32, 0i32, 0i32, 0i32])),
        84 => Some((EnemyKind::ClamPlant, seq![0i32, 0i32, 0i32, 0i32, 4i32])),
        163 => Some((EnemyKind::FallingFloor, seq![0i32, 0i32, 0i32, 0i32, 0i32])),
        2 => Some((EnemyKind::JumpPad, seq![0i32, 0i32, 0i32, 0i32, 0i32])),
        217 => Some((EnemyKind::JumpPad, seq![0i32, 0i32, 0i32, 0i32, 1i32])),
        54 => Some((EnemyKind::Moon, seq![0i32, 0i32, 0i32, 0i32, 4i32])),
        151 => Some((EnemyKind::SmallFlame, seq![0i32, 0i32, 0i32, 0i32, 0i32])),
        233 => Some((EnemyKind::FlamePulse, seq![0i32, 0i32, 0i32, 0i32, 1i32])),
        234 => Some((EnemyKind::FlamePulse, seq![0i32, 0i32, 0i32, 0i32, 0i32])),
        65 => Some((EnemyKind::BabyGhost, seq![0i32, 0i32, 0i32, 0i32, 0i32])),
        113 => Some((EnemyKind::SpittingTurret, seq![0i32, 10i32, 0i32, 0i32, 3i32])),
        101 => Some((EnemyKind::RedJumper, seq![0i32, 0i32, 0i32, 0i32, 7i32])),
        49 => Some((EnemyKind::Pyramid, seq![0i32, 0i32, 0i32, 0i32, 0i32])),
        95 => Some((EnemyKind::EyePlant, seq![0i32, 0i32, 0i32, 0i32, 0i32])),
        96 => Some((EnemyKind::EyePlant, seq![0i32, 0i32, 0i32, 0i32, 4i32])),
        70 => Some((EnemyKind::PipeCorner, seq![0i32, 0i32, 0i32, 0i32, DIR8_NORTH_I])),
        71 => Some((EnemyKind::PipeCorner, seq![0i32, 0i32, 0i32, 0i32, DIR8_SOUTH_I])),
        72 => Some((EnemyKind::PipeCorner, seq![0i32, 0i32, 0i32, 0i32, DIR8_WEST_I])),
        73 => Some((EnemyKind::PipeCorner, seq![0i32, 0i32, 0i32, 0i32, DIR8_EAST_I])),
        42 => Some((EnemyKind::Slime, seq![0i32, 0i32, 0i32, 0i32, 0i32])),
        43 => Some((EnemyKind::Slime, seq![0i32, 0i32, 0i32, 0i32, 1i32])),
        236 => Some((EnemyKind::Slime, seq![0i32, 0i32, 0i32, 0i32, 0i32])),
        237 => Some((EnemyKind::Slime, seq![0i32, 0i32, 0i32, 0i32, 1i32])),
        3 => Some((EnemyKind::ArrowPiston, seq![0i32, 0i32, 0i32, 0i32, 0i32])),
        4 => Some((EnemyKind::ArrowPiston, seq![0i32, 0i32, 0i32, 0i32, 1i32])),
        5 => Some((EnemyKind::Fireball, seq![0i32, 0i32, 0i32, 0i32, 0i32])),
        6 => Some((EnemyKind::Fireball, seq![0i32, 0i32, 0i32, 0i32, 1i32])),
        92 => Some((EnemyKind::Spark, seq![0i32, 0i32, 0i32, 0i32, 0i32])),
        20 => Some((EnemyKind::VerticalMover, seq![0i32, 0i32, 0i32, 0i32, 0i32])),
        78 => Some((EnemyKind::HorizontalMover, seq![8i32, 0i32, 0i32, 0i32, 1i32])),
        104 => Some((EnemyKind::PipeEnd, seq![0i32, 0i32, 0i32, 0i32, 0i32])),
        105 => Some((EnemyKind::PipeEnd, seq![0i32, 1i32, 0i32, 0i32, 0i32])),
        88 => Some((EnemyKind::ReciprocatingSpikes, seq![1i32, 0i32, 0i32, 0i32, 0i32])),
        55 => Some((EnemyKind::HeartPlant, seq![0i32, 0i32, 0i32, 0i32, 0i32])),
        45 => Some((EnemyKind::TwoTonsCrusher, seq![0i32, 0i32, 0i32, 0i32, 0i32])),
        47 => Some((EnemyKind::StoneHeadCrusher, seq![0i32, 0i32, 0i32, 0i32, 0i32])),
        80 => Some((EnemyKind::SharpRobot, seq![0i32, 0i32, 0i32, 0i32, 0i32])),
        44 => Some((EnemyKind::FlyingWisp, seq![0i32, 0i32, 0i32, 0i32, 0i32])),
        109 => Some((EnemyKind::Projectile, seq![0i32, 0i32, 0i32, 0i32, DIRP_WEST])),
        110 => Some((EnemyKind::Projectile, seq![0i32, 0i32, 0i32, 0i32, DIRP_EAST])),
        66 => Some((EnemyKind::Projectile, seq![0i32, 0i32, 0i32, 0i32, DIRP_SOUTHWEST])),
        67 => Some((EnemyKind::Projectile, seq![0i32, 0i32, 0i32, 0i32, DIRP_SOUTHEAST])),
        68 => Some((EnemyKind::Projectile, seq![0i32, 0i32, 0i32, 0i32, DIRP_SOUTH])),
        111 => Some((EnemyKind::SpittingWallPlant, seq![0i32, 0i32, 0i32, 0i32, 1i32])),
        112 => Some((EnemyKind::SpittingWallPlant, seq![0i32, 0i32, 0i32, 0i32, 0i32])),
        127 => Some((EnemyKind::SentryRobot, seq![0i32, 0i32, 0i32, 0i32, 4i32])),
        74 => Some((EnemyKind::BabyGhostEgg, seq![0i32, 0i32, 0i32, 0i32, 1i32])),
        75 => Some((EnemyKind::BabyGhostEgg, seq![0i32, 0i32, 0i32, 0i32, 0i32])),
        46 => Some((EnemyKind::JumpingBullet, seq![0i32, 0i32, 0i32, 0i32, 0i32])),
        130 => Some((EnemyKind::WormCrate, seq![0i32, 0i32, 0i32, 0i32, 0i32])),
        91 => Some((EnemyKind::SplittingPlatform, seq![0i32, 0i32, 0i32, 0i32, 0i32])),
        11 => Some((EnemyKind::Door, seq![0i32, 0i32, 0i32, 0i32, 0i32])),
        12 => Some((EnemyKind::Door, seq![0i32, 0i32, 0i32, 0i32, 0i32])),
        13 => Some((EnemyKind::Door, seq![0i32, 0i32, 0i32, 0i32, 0i32])),
        14 => Some((EnemyKind::Door, seq![0i32, 0i32, 0i32, 0i32, 0i32])),
        188 => Some((EnemyKind::Rocket, seq![60i32, 10i32, 0i32, 0i32, 0i32])),
        16 => Some((EnemyKind::JumpPadRobot, seq![0i32, 0i32, 0i32, 0i32, 0i32])),
        145 => Some((EnemyKind::IvyPlant, seq![5i32, 0i32, 0i32, 7i32, 0i32])),
        7 => Some((EnemyKind::HeadSwitch, seq![0i32, 0i32, 0i32, 0i32, 11i32])),
        8 => Some((EnemyKind::HeadSwitch, seq![0i32, 0i32, 0i32, 0i32, 12i32])),
        9 => Some((EnemyKind::HeadSwitch, seq![0i32, 0i32, 0i32, 0i32, 13i32])),
        10 => Some((EnemyKind::HeadSwitch, seq![0i32, 0i32, 0i32, 0i32, 14i32])),
        59 => Some((EnemyKind::FootSwitch, seq![0i32, 0i32, 0i32, 0i32, ACT_SWITCH_PLATFORMS])),
        61 => Some((EnemyKind::FootSwitch, seq![0i32, 0i32, 0i32, 0i32, ACT_SWITCH_MYSTERY_WALL])),
        120 => Some((EnemyKind::FootSwitch, seq![0i32, 0i32, 0i32, 0i32, ACT_SWITCH_LIGHTS])),
        121 => Some((EnemyKind::FootSwitch, seq![0i32, 0i32, 0i32, 0i32, ACT_SWITCH_FORCE_FIELD])),
        62 => Some((EnemyKind::MysteryWall, seq![0i32, 0i32, 0i32, 0i32, 0i32])),
        122 => Some((EnemyKind::ForceField, seq![0i32, 0i32, 0i32, 0i32, 0i32])),
        123 => Some((EnemyKind::ForceField, seq![0i32, 0i32, 0i32, 0i32, 1i32])),
        126 => Some((EnemyKind::PusherRobot, seq![0i32, 0i32, 0i32, 0i32, 4i32])),
        64 => Some((EnemyKind::Monument, seq![0i32, 0i32, 0i32, 0i32, 0i32])),
        143 => Some((EnemyKind::Satellite, seq![0i32, 0i32, 0i32, 0i32, 0i32])),
        152 => Some((EnemyKind::TulipLauncher, seq![0i32, 30i32, 0i32, 0i32, 0i32])),
        164 => Some((EnemyKind::TriggerLine, seq![0i32, 0i32, 0i32, 0i32, 0i32])),
        165 => Some((EnemyKind::TriggerLine, seq![0i32, 0i32, 0i32, 0i32, 0i32])),
        166 => Some((EnemyKind::TriggerLine, seq![0i32, 0i32, 0i32, 0i32, 0i32])),
        265 => Some((EnemyKind::TriggerLine, seq![1i32, 0i32, 0i32, 0i32, 0i32])),
        114 => Some((EnemyKind::Scooter, seq![0i32, 0i32, 0i32, 0i32, 0i32])),
        162 => Some((EnemyKind::BearTrap, seq![0i32, 0i32, 0i32, 0i32, 0i32])),
        90 => Some((EnemyKind::BeamRobot, seq![0i32, 0i32, 0i32, 0i32, 0i32])),
        107 => Some((EnemyKind::Transporter, seq![0i32, 0i32, 0i32, 0i32, 1i32])),
        108 => Some((EnemyKind::Transporter, seq![0i32, 0i32, 0i32, 0i32, 2i32])),
        102 => Some((EnemyKind::Boss, seq![0i32, 0i32, 0i32, 0i32, 0i32])),
        221 => Some((EnemyKind::FrozenDN, seq![0i32, 0i32, 0i32, 0i32, 0i32])),
        235 => Some((EnemyKind::SpeechBubble, seq![0i32, 0i32, 0i32, 0i32, 0i32])),
        244 => Some((EnemyKind::SpeechBubble, seq![0i32, 0i32, 0i32, 0i32, 0i32])),
        245 => Some((EnemyKind::SpeechBubble, seq![0i32, 0i32, 0i32, 0i32, 0i32])),
        246 => Some((EnemyKind::SpeechBubble, seq![0i32, 0i32, 0i32, 0i32, 1i32])),
        129 => Some((EnemyKind::Dragonfly, seq![0i32, 0i32, 0i32, 0i32, 0i32])),
        248 => Some((EnemyKind::SmokeEmitter, seq![0i32, 0i32, 0i32, 0i32, 1i32])),
        249 => Some((EnemyKind::SmokeEmitter, seq![1i32, 0i32, 0i32, 0i32, 0i32])),
        _ => None,
    }
}

/// Looks up the behaviour for an `ACT_*` id.
pub fn behavior_for(act_id: u16) -> (r: Option<(EnemyKind, [i32; 5])>)
    ensures
        r is Some <==> behavior_table(act_id) is Some,
        r matches Some((kind, data)) ==> behavior_table(act_id) == Some((kind, data@)),
{
    let r = match act_id {
        1 => Some((EnemyKind::Prize, [0, 0, 0, 0, 4])),
        28 => Some((EnemyKind::Prize, [0, 0, 0, 1, 6])),
        94 => Some((EnemyKind::Prize, [0, 0, 0, 1, 2])),
        153 => Some((EnemyKind::Prize, [0, 0, 0, 0, 4])),
        154 => Some((EnemyKind::Prize, [0, 0, 0, 0, 5])),
        155 => Some((EnemyKind::Prize, [0, 0, 0, 0, 6])),
        174 => Some((EnemyKind::Prize, [0, 0, 0, 0, 5])),
        176 => Some((EnemyKind::Prize, [0, 0, 0, 0, 4])),
        189 => Some((EnemyKind::Prize, [0, 0, 0, 0, 4])),
        194 => Some((EnemyKind::Prize, [3, 2, 0, 0, 1])),
        196 => Some((EnemyKind::Prize, [2, 2, 0, 0, 1])),
        198 => Some((EnemyKind::Prize, [2, 2, 0, 0, 1])),
        200 => Some((EnemyKind::Prize, [2, 2, 0, 0, 1])),
        202 => Some((EnemyKind::Prize, [0, 0, 0, 0, 4])),
        213 => Some((EnemyKind::Prize, [3, 2, 0, 0, 1])),
        214 => Some((EnemyKind::Prize, [2, 2, 0, 0, 1])),
        215 => Some((EnemyKind::Prize, [2, 2, 0, 0, 1])),
        216 => Some((EnemyKind::Prize, [2, 2, 0, 0, 1])),
        252 => Some((EnemyKind::Prize, [1, 0, 0, 0, 6])),
        263 => Some((EnemyKind::Prize, [0, 0, 0, 1, 6])),
        264 => Some((EnemyKind::Prize, [0, 0, 0, 0, 4])),
        25 => Some((EnemyKind::Cabbage, [1, 0, 0, 0, 0])),
        51 => Some((EnemyKind::GhostActor, [0, 0, 0, 0, 4])),
        69 => Some((EnemyKind::RoamerSlug, [0, 3, 0, 0, 0])),
        86 => Some((EnemyKind::ParachuteBall, [0, 20, 0, 0, 2])),
        106 => Some((EnemyKind::SuctionWalker, [0, 0, 0, 0, 0])),
        118 => Some((EnemyKind::RedChomper, [0, 0, 0, 0, 0])),
        124 => Some((EnemyKind::PinkWorm, [0, 0, 0, 0, 0])),
        187 => Some((EnemyKind::Bird, [0, 0, 0, 0, 0])),
        18 => Some((EnemyKind::ReciprocatingSpikes, [1, 0, 0, 0, 0])),
        41 => Some((EnemyKind::ReciprocatingSpear, [0, 0, 0, 0, 0])),
        50 => Some((EnemyKind::Pyramid, [0, 0, 0, 0, 1])),
        83 => Some((EnemyKind::ClamPlant, [0, 0, 0, 0, 0])),
        84 => Some((EnemyKind::ClamPlant, [0, 0, 0, 0, 4])),
        163 => Some((EnemyKind::FallingFloor, [0, 0, 0, 0, 0])),
        2 => Some((EnemyKind::JumpPad, [0, 0, 0, 0, 0])),
        217 => Some((EnemyKind::JumpPad, [0, 0, 0, 0, 1])),
        54 => Some((EnemyKind::Moon, [0, 0, 0, 0, 4])),
        151 => Some((EnemyKind::SmallFlame, [0, 0, 0, 0, 0])),
        233 => Some((EnemyKind::FlamePulse, [0, 0, 0, 0, 1])),
        234 => Some((EnemyKind::FlamePulse, [0, 0, 0, 0, 0])),
        65 => Some((EnemyKind::BabyGhost, [0, 0, 0, 0, 0])),
        113 => Some((EnemyKind::SpittingTurret, [0, 10, 0, 0, 3])),
        101 => Some((EnemyKind::RedJumper, [0, 0, 0, 0, 7])),
        49 => Some((EnemyKind::Pyramid, [0, 0, 0, 0, 0])),
        95 => Some((EnemyKind::EyePlant, [0, 0, 0, 0, 0])),
        96 => Some((EnemyKind::EyePlant, [0, 0, 0, 0, 4])),
        70 => Some((EnemyKind::PipeCorner, [0, 0, 0, 0, DIR8_NORTH_I])),
        71 => Some((EnemyKind::PipeCorner, [0, 0, 0, 0, DIR8_SOUTH_I])),
        72 => Some((EnemyKind::PipeCorner, [0, 0, 0, 0, DIR8_WEST_I])),
        73 => Some((EnemyKind::PipeCorner, [0, 0, 0, 0, DIR8_EAST_I])),
        42 => Some((EnemyKind::Slime, [0, 0, 0, 0, 0])),
        43 => Some((EnemyKind::Slime, [0, 0, 0, 0, 1])),
        236 => Some((EnemyKind::Slime, [0, 0, 0, 0, 0])),
        237 => Some((EnemyKind::Slime, [0, 0, 0, 0, 1])),
        3 => Some((EnemyKind::ArrowPiston, [0, 0, 0, 0, 0])),
        4 => Some((EnemyKind::ArrowPiston, [0, 0, 0, 0, 1])),
        5 => Some((EnemyKind::Fireball, [0, 0, 0, 0, 0])),
        6 => Some((EnemyKind::Fireball, [0, 0, 0, 0, 1])),
        92 => Some((EnemyKind::Spark, [0, 0, 0, 0, 0])),
        20 => Some((EnemyKind::VerticalMover, [0, 0, 0, 0, 0])),
        78 => Some((EnemyKind::HorizontalMover, [8, 0, 0, 0, 1])),
        104 => Some((EnemyKind::PipeEnd, [0, 0, 0, 0, 0])),
        105 => Some((EnemyKind::PipeEnd, [0, 1, 0, 0, 0])),
        88 => Some((EnemyKind::ReciprocatingSpikes, [1, 0, 0, 0, 0])),
        55 => Some((EnemyKind::HeartPlant, [0, 0, 0, 0, 0])),
        45 => Some((EnemyKind::TwoTonsCrusher, [0, 0, 0, 0, 0])),
        47 => Some((EnemyKind::StoneHeadCrusher, [0, 0, 0, 0, 0])),
        80 => Some((EnemyKind::SharpRobot, [0, 0, 0, 0, 0])),
        44 => Some((EnemyKind::FlyingWisp, [0, 0, 0, 0, 0])),
        109 => Some((EnemyKind::Projectile, [0, 0, 0, 0, DIRP_WEST])),
        110 => Some((EnemyKind::Projectile, [0, 0, 0, 0, DIRP_EAST])),
        66 => Some((EnemyKind::Projectile, [0, 0, 0, 0, DIRP_SOUTHWEST])),
        67 => Some((EnemyKind::Projectile, [0, 0, 0, 0, DIRP_SOUTHEAST])),
        68 => Some((EnemyKind::Projectile, [0, 0, 0, 0, DIRP_SOUTH])),
        111 => Some((EnemyKind::SpittingWallPlant, [0, 0, 0, 0, 1])),
        112 => Some((EnemyKind::SpittingWallPlant, [0, 0, 0, 0, 0])),
        127 => Some((EnemyKind::SentryRobot, [0, 0, 0, 0, 4])),
        74 => Some((EnemyKind::BabyGhostEgg, [0, 0, 0, 0, 1])),
        75 => Some((EnemyKind::BabyGhostEgg, [0, 0, 0, 0, 0])),
        46 => Some((EnemyKind::JumpingBullet, [0, 0, 0, 0, 0])),
        130 => Some((EnemyKind::WormCrate, [0, 0, 0, 0, 0])),
        91 => Some((EnemyKind::SplittingPlatform, [0, 0, 0, 0, 0])),
        11 => Some((EnemyKind::Door, [0, 0, 0, 0, 0])),
        12 => Some((EnemyKind::Door, [0, 0, 0, 0, 0])),
        13 => Some((EnemyKind::Door, [0, 0, 0, 0, 0])),
        14 => Some((EnemyKind::Door, [0, 0, 0, 0, 0])),
        188 => Some((EnemyKind::Rocket, [60, 10, 0, 0, 0])),
        16 => Some((EnemyKind::JumpPadRobot, [0, 0, 0, 0, 0])),
        145 => Some((EnemyKind::IvyPlant, [5, 0, 0, 7, 0])),
        7 => Some((EnemyKind::HeadSwitch, [0, 0, 0, 0, 11])),
        8 => Some((EnemyKind::HeadSwitch, [0, 0, 0, 0, 12])),
        9 => Some((EnemyKind::HeadSwitch, [0, 0, 0, 0, 13])),
        10 => Some((EnemyKind::HeadSwitch, [0, 0, 0, 0, 14])),
        59 => Some((EnemyKind::FootSwitch, [0, 0, 0, 0, ACT_SWITCH_PLATFORMS])),
        61 => Some((EnemyKind::FootSwitch, [0, 0, 0, 0, ACT_SWITCH_MYSTERY_WALL])),
        120 => Some((EnemyKind::FootSwitch, [0, 0, 0, 0, ACT_SWITCH_LIGHTS])),
        121 => Some((EnemyKind::FootSwitch, [0, 0, 0, 0, ACT_SWITCH_FORCE_FIELD])),
        62 => Some((EnemyKind::MysteryWall, [0, 0, 0, 0, 0])),
        122 => Some((EnemyKind::ForceField, [0, 0, 0, 0, 0])),
        123 => Some((EnemyKind::ForceField, [0, 0, 0, 0, 1])),
        126 => Some((EnemyKind::PusherRobot, [0, 0, 0, 0, 4])),
        64 => Some((EnemyKind::Monument, [0, 0, 0, 0, 0])),
        143 => Some((EnemyKind::Satellite, [0, 0, 0, 0, 0])),
        152 => Some((EnemyKind::TulipLauncher, [0, 30, 0, 0, 0])),
        164 => Some((EnemyKind::TriggerLine, [0, 0, 0, 0, 0])),
        165 => Some((EnemyKind::TriggerLine, [0, 0, 0, 0, 0])),
        166 => Some((EnemyKind::TriggerLine, [0, 0, 0, 0, 0])),
        265 => Some((EnemyKind::TriggerLine, [1, 0, 0, 0, 0])),
        114 => Some((EnemyKind::Scooter, [0, 0, 0, 0, 0])),
        162 => Some((EnemyKind::BearTrap, [0, 0, 0, 0, 0])),
        90 => Some((EnemyKind::BeamRobot, [0, 0, 0, 0, 0])),
        107 => Some((EnemyKind::Transporter, [0, 0, 0, 0, 1])),
        108 => Some((EnemyKind::Transporter, [0, 0, 0, 0, 2])),
        102 => Some((EnemyKind::Boss, [0, 0, 0, 0, 0])),
        221 => Some((EnemyKind::FrozenDN, [0, 0, 0, 0, 0])),
        235 => Some((EnemyKind::SpeechBubble, [0, 0, 0, 0, 0])),
        244 => Some((EnemyKind::SpeechBubble, [0, 0, 0, 0, 0])),
        245 => Some((EnemyKind::SpeechBubble, [0, 0, 0, 0, 0])),
        246 => Some((EnemyKind::SpeechBubble, [0, 0, 0, 0, 1])),
        129 => Some((EnemyKind::Dragonfly, [0, 0, 0, 0, 0])),
        248 => Some((EnemyKind::SmokeEmitter, [0, 0, 0, 0, 1])),
        249 => Some((EnemyKind::SmokeEmitter, [1, 0, 0, 0, 0])),
        _ => None,
    };
    proof {
        if let Some((kind, data)) = r {
            assert(data@ =~= behavior_table(act_id).unwrap().1);
        }
    }
    r
}

} // verus!
