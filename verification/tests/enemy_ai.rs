use opencosmo_game::camera::{Scroll, SCROLL_H, SCROLL_W};
use opencosmo_game::data::{
    GameData, LevelActorJson, LevelJson, TilesetJson, TILE_ATTR_BLOCK_EAST, TILE_ATTR_BLOCK_NORTH,
    TILE_ATTR_BLOCK_SOUTH, TILE_ATTR_BLOCK_WEST,
};
use opencosmo_game::effects::dir8_step;
use opencosmo_game::enemy_ai::fixtures::{
    beam_rect, blast_monument, blast_satellite, cliffhanger_lines, press_foot_switch, smash_frozen_dn,
    tick_baby_ghost_egg, tick_bear_trap, tick_door, tick_eye_plant, tick_foot_switch, tick_frozen_dn,
    tick_head_switch, tick_monument, tick_satellite, tick_speech_bubble, tick_spitting_turret,
    tick_splitting_platform, tick_trigger_line, tick_tulip_launcher,
};
use opencosmo_game::enemy_ai::machines::{
    burst_worm_crate, tick_falling_floor, tick_fireball, tick_force_field, tick_mystery_wall, tick_projectile,
    tick_pyramid, tick_rocket, tick_scooter, tick_slime, tick_worm_crate,
};
use opencosmo_game::enemy_ai::robots::{pounce_boss, tick_beam_robot, tick_boss, tick_pusher_robot, tick_sentry_robot};
use opencosmo_game::enemy_ai::simple::{
    tick_arrow_piston, tick_flying_wisp, tick_heart_plant, tick_ivy_plant, tick_jumping_bullet, tick_pipe_end,
    tick_smoke_emitter, tick_spitting_wall_plant, tick_two_tons_crusher,
};
use opencosmo_game::enemy_ai::table::behavior_for;
use opencosmo_game::enemy_ai::walkers::{tick_sharp_robot, tick_spark, tick_stone_head_crusher, tick_vertical_mover};
use opencosmo_game::enemy_ai::{
    is_visible_at, Enemy, EnemyKind, SwitchState, ACT_BABY_GHOST, ACT_HAMBURGER, ACT_PARACHUTE_BALL, ACT_PINK_WORM,
    ACT_PROJECTILE_E, ACT_PROJECTILE_S, ACT_PROJECTILE_SE, ACT_PROJECTILE_SW, ACT_PROJECTILE_W, ACT_SPEECH_OUCH,
    ACT_SPEECH_UMPH, ACT_SPEECH_WHOA, ACT_SPEECH_WOW_50K, ACT_STAR_FLOAT, ACT_SWITCH_FORCE_FIELD,
    ACT_SWITCH_PLATFORMS, BOSS_HITS, DIR2_EAST, DIR2_WEST, DIRP_EAST, DIRP_SOUTH, DIRP_SOUTHEAST, SPR_SMOKE,
    SPR_SMOKE_LARGE, TILE_BLUE_PLATFORM, TILE_DOOR_BLOCK, TILE_EMPTY, TILE_MYSTERY_BLOCK, TILE_STRIPED_PLATFORM,
    TILE_SWITCH_BLOCK,
};
use opencosmo_game::enemy_ai::systems::{credit, spawn_queued_actors};
use opencosmo_game::enemy_ai::SeenBubbles;
use opencosmo_game::flow::Score;
use opencosmo_game::player::{Player, Push};
use opencosmo_game::sfx::snd;

/// The raw value of a solid test tile (attribute index 8 / 8 = 1).
const SOLID: u16 = 8;

fn empty_level() -> LevelJson {
    LevelJson {
        name: String::new(),
        width: 0,
        height: 0,
        tiles: Vec::new(),
        actors: Vec::new(),
        backdrop: None,
        music: None,
        has_h_scroll_backdrop: false,
        has_v_scroll_backdrop: false,
    }
}

fn world(rows: &[&str]) -> (LevelJson, GameData) {
    let width = rows[0].len();
    let mut tiles = Vec::with_capacity(width * rows.len());
    for row in rows {
        assert_eq!(row.len(), width, "test world rows must be equal length");
        tiles.extend(row.chars().map(|c| if c == '#' { SOLID } else { 0 }));
    }
    let level = LevelJson {
        name: "test".into(),
        width,
        height: rows.len(),
        tiles,
        actors: Vec::new(),
        backdrop: None,
        music: None,
        has_h_scroll_backdrop: false,
        has_v_scroll_backdrop: false,
    };
    let mut tile_attrs = vec![0u8; 16];
    tile_attrs[1] = TILE_ATTR_BLOCK_SOUTH
        | TILE_ATTR_BLOCK_NORTH
        | TILE_ATTR_BLOCK_WEST
        | TILE_ATTR_BLOCK_EAST;
    let data = GameData {
        asset_prefix: String::new(),
        episode: 1,
        tileset: TilesetJson {
            tile_size: 8,
            atlas_cols: 1,
            solid_tile_count: 1,
            masked_tile_count: 0,
        },
        tile_attrs,
    };
    (level, data)
}

#[test]
fn the_arrow_piston_returns_to_where_it_started() {
    // A 32-tick cycle that punches out and pulls back must be a closed
    // loop - a piston that drifted a tile per cycle would walk off.
    for dir in [DIR2_WEST, DIR2_EAST] {
        let mut e = Enemy::default_for_test(EnemyKind::ArrowPiston);
        e.d5 = dir;
        let start = e.x;
        let mut extreme = e.x;
        for _ in 0..32 {
            tick_arrow_piston(&mut e);
            if (e.x - start).abs() > (extreme - start).abs() {
                extreme = e.x;
            }
        }
        assert_eq!(e.x, start, "dir {dir}: piston drifted over one cycle");
        assert_eq!(
            (extreme - start).abs(),
            3,
            "dir {dir}: it should reach three tiles out"
        );
    }
    // ...and it extends the way it is aimed.
    let mut w = Enemy::default_for_test(EnemyKind::ArrowPiston);
    w.d5 = DIR2_WEST;
    for _ in 0..28 {
        tick_arrow_piston(&mut w);
    }
    assert!(w.x < 10, "the west-facing piston must punch west");
}

#[test]
fn the_fireball_waits_then_flies_and_resets_on_impact() {
    // Open corridor with a wall to the west.
    let (level, data) = world(&[
        "..........",
        "#....o....",
        "##########",
    ]);
    let scroll = Scroll::default();
    let mut e = Enemy::default_for_test(EnemyKind::Fireball);
    e.x = 5;
    e.y = 1;
    e.d2 = 5;
    e.d3 = 1;
    e.d5 = DIR2_WEST;
    e.width_tiles = 1;
    e.height_tiles = 1;

    for _ in 0..30 {
        tick_fireball(&mut e, &level, &data, &scroll);
    }
    assert_eq!(e.x, 5, "it should still be waiting on its launcher");

    let mut min_x = e.x;
    for _ in 0..40 {
        tick_fireball(&mut e, &level, &data, &scroll);
        min_x = min_x.min(e.x);
    }
    assert!(min_x < 5, "it should have flown west");
    assert_eq!((e.x, e.y), (5, 1), "and snapped back to its launcher");
}

#[test]
fn the_saw_blade_bounces_between_floor_and_ceiling() {
    let (level, data) = world(&[
        "####",
        "....",
        "....",
        "....",
        "####",
    ]);
    let mut e = Enemy::default_for_test(EnemyKind::VerticalMover);
    e.x = 1;
    e.y = 2;
    e.width_tiles = 1;
    e.height_tiles = 1;
    let mut rows = std::collections::BTreeSet::new();
    for _ in 0..60 {
        tick_vertical_mover(&mut e, &level, &data);
        rows.insert(e.y);
    }
    assert_eq!(
        rows,
        [1, 2, 3].into_iter().collect(),
        "it should sweep the open rows and never enter a wall"
    );
}

#[test]
fn the_spark_crawls_around_a_block_instead_of_through_it() {
    let (level, data) = world(&[
        "........",
        "..####..",
        "..####..",
        "........",
    ]);
    let mut e = Enemy::default_for_test(EnemyKind::Spark);
    e.x = 2;
    e.y = 0;
    e.width_tiles = 1;
    e.height_tiles = 1;
    for _ in 0..200 {
        tick_spark(&mut e, &level, &data);
        let inside = (2..6).contains(&e.x) && (1..3).contains(&e.y);
        assert!(!inside, "the spark entered the solid at ({}, {})", e.x, e.y);
    }
}

#[test]
fn only_the_pipe_inlet_animates() {
    let mut outlet = Enemy::default_for_test(EnemyKind::PipeEnd);
    outlet.d2 = 0;
    let mut inlet = Enemy::default_for_test(EnemyKind::PipeEnd);
    inlet.d2 = 1;
    let mut inlet_frames = std::collections::BTreeSet::new();
    for _ in 0..10 {
        tick_pipe_end(&mut outlet);
        tick_pipe_end(&mut inlet);
        inlet_frames.insert(inlet.frame);
    }
    assert_eq!(outlet.frame, 0, "the outlet is inert");
    assert_eq!(inlet_frames, [0, 4].into_iter().collect());
}

#[test]
fn the_boss_takes_twelve_pounces_and_then_dies() {
    let (level, data) = world(&[
        "........",
        "........",
        "........",
        "........",
        "########",
    ]);
    let mut p = Player::spawn_at(4, 3);
    p.x = 4;
    p.y = 3;
    let mut e = Enemy::default_for_test(EnemyKind::Boss);
    e.x = 2;
    e.y = 3;
    e.width_tiles = 1;
    e.height_tiles = 1;

    // Pounced back to back so it stays on the floor; ticking between
    // hits would let it float up its bobbing arc, and with no map
    // below the test world it would then fall out of the bottom.
    for hit in 1..BOSS_HITS {
        pounce_boss(&mut e);
        assert_eq!(e.d5, hit, "hit {hit} should count");
        assert!(!e.dead, "it must survive hit {hit}");
    }
    pounce_boss(&mut e);
    assert_eq!(e.d5, BOSS_HITS);

    // The last hit starts a fall, then an eighty-tick death sequence.
    let mut won = false;
    for _ in 0..200 {
        won |= tick_boss(&mut e, &p, &level, &data);
        if e.dead {
            break;
        }
    }
    assert!(e.dead, "it should die after the final hit");
    assert!(won, "and report the win");
}

#[test]
fn pouncing_a_dying_boss_does_nothing() {
    let mut e = Enemy::default_for_test(EnemyKind::Boss);
    e.d5 = BOSS_HITS;
    pounce_boss(&mut e);
    assert_eq!(e.d5, BOSS_HITS, "hits must not climb past the limit");
}

#[test]
fn the_frozen_figure_rises_only_after_being_smashed() {
    let mut e = Enemy::default_for_test(EnemyKind::FrozenDN);
    let start = e.y;
    for _ in 0..50 {
        tick_frozen_dn(&mut e);
    }
    assert_eq!(e.y, start, "it stays put inside the ice");

    smash_frozen_dn(&mut e);
    for _ in 0..50 {
        tick_frozen_dn(&mut e);
    }
    assert!(e.y < start, "and rises once freed");
    assert_eq!(e.d1, 3, "ending in its final phase");
}

#[test]
fn the_bear_trap_holds_the_player_it_catches() {
    let mut e = Enemy::default_for_test(EnemyKind::BearTrap);
    e.x = 10;
    e.y = 10;

    let mut beside = Player::spawn_at(12, 10);
    beside.x = 12;
    beside.y = 10;
    assert_eq!(tick_bear_trap(&mut e, &beside), 0, "it only catches a direct step");

    let mut on_it = Player::spawn_at(10, 10);
    on_it.x = 10;
    on_it.y = 10;
    let hold = tick_bear_trap(&mut e, &on_it);
    assert_eq!(hold, 27, "held for the length of the frame table");

    // It runs its animation out and reopens rather than staying shut.
    for _ in 0..27 {
        tick_bear_trap(&mut e, &on_it);
    }
    assert_eq!(e.d2, 0, "the trap reopens");
    assert_eq!(e.frame, 0, "and ends up drawn open");
}

#[test]
fn the_beam_robot_carries_a_beam_that_stops_at_the_ceiling() {
    let (level, data) = world(&[
        "########",
        "........",
        "........",
        "........",
        "########",
    ]);
    let mut e = Enemy::default_for_test(EnemyKind::BeamRobot);
    e.x = 2;
    e.y = 3;
    e.width_tiles = 1;
    e.height_tiles = 1;
    tick_beam_robot(&mut e, &level, &data);
    let rect = beam_rect(&e).expect("it should have a beam");
    let (_, top, _, h) = rect;
    assert!(h > 0, "the beam should reach up the shaft");
    assert!(top >= 1, "but stop below the ceiling, got top row {top}");
}

#[test]
fn a_scooter_settles_onto_the_ground_under_it() {
    let (level, data) = world(&[
        "....",
        "....",
        "....",
        "####",
    ]);
    let mut e = Enemy::default_for_test(EnemyKind::Scooter);
    e.x = 1;
    e.y = 0;
    e.width_tiles = 1;
    e.height_tiles = 1;
    for _ in 0..200 {
        tick_scooter(&mut e, &Player::spawn_at(0, 0), &level, &data);
        assert!(e.y < 3, "it must not sink into the floor (y={})", e.y);
    }
    assert!(e.y >= 1, "and should have fallen toward it");
}

/// The pipe network is a system, not a tick, so these exercise the
/// player-state transitions it drives rather than calling it.
#[test]
fn a_pipe_ride_hides_the_player_and_keeps_them_safe() {
    let mut p = Player::spawn_at(10, 10);
    assert!(!p.is_invincible(), "ordinarily vulnerable");
    p.in_pipe = true;
    assert!(
        p.is_invincible(),
        "riding a pipe is as safe as the bubble"
    );
}

#[test]
fn leaving_a_pipe_leaves_the_player_dizzy() {
    // The exit queues a head-shake, which then waits for the ground.
    let mut p = Player::spawn_at(10, 10);
    p.in_pipe = true;
    p.set_push(1, 0, 100, 2, false, false);

    // What run_pipes does at the far end.
    p.in_pipe = false;
    p.push = None;
    p.queue_dizzy();

    assert!(!p.is_invincible(), "and vulnerable again");
    p.process_dizzy(true);
    assert_ne!(p.dizzy_left, 0, "spat out disoriented");
}

#[test]
fn a_pipe_corners_direction_comes_from_its_actor_id() {
    // Each corner turns the rider a different way; getting the DIR8
    // index wrong would send them through a wall.
    let dir_of = |act: u16| {
        let (_, data) = behavior_for(act).expect("corner should be in the table");
        dir8_step(data[4] as usize % 9)
    };
    assert_eq!(dir_of(70), (0, -1), "ACT_PIPE_CORNER_N goes north");
    assert_eq!(dir_of(71), (0, 1), "ACT_PIPE_CORNER_S goes south");
    assert_eq!(dir_of(72), (-1, 0), "ACT_PIPE_CORNER_W goes west");
    assert_eq!(dir_of(73), (1, 0), "ACT_PIPE_CORNER_E goes east");
}

#[test]
fn behaviours_ask_for_their_sounds() {
    // A spot check across the queue: each of these is heard.
    let mut piston = Enemy::default_for_test(EnemyKind::ArrowPiston);
    let mut heard = false;
    for _ in 0..64 {
        tick_arrow_piston(&mut piston);
        heard |= piston.sounds.drain(..).any(|s| s == snd::SPIKES_MOVE);
    }
    assert!(heard, "the piston should be audible when it moves");

    let mut plant = Enemy::default_for_test(EnemyKind::HeartPlant);
    plant.x = 10;
    plant.y = 10;
    let mut above = Player::spawn_at(10, 4);
    above.x = 10;
    above.y = 4;
    let mut opened = false;
    for _ in 0..20 {
        tick_heart_plant(&mut plant, &above);
        opened |= plant
            .sounds
            .drain(..)
            .any(|s| s == snd::PLANT_MOUTH_OPEN);
    }
    assert!(opened, "the plant should be audible when it opens");
}

#[test]
fn a_silent_behaviour_stays_silent() {
    // The eye plant makes no sound; the queue must not
    // become a place where every actor makes noise.
    let mut e = Enemy::default_for_test(EnemyKind::EyePlant);
    let p = Player::spawn_at(5, 10);
    for _ in 0..200 {
        tick_eye_plant(&mut e, &p);
    }
    assert!(e.sounds.is_empty());
}

#[test]
fn the_actor_ids_spawned_at_runtime_are_the_right_ones() {
    // The actor ids. These are easy to get wrong because they
    // are written once and never read back: ACT_PARACHUTE_BALL was 22
    // for a while, which is ACT_SAW_BLADE_HORIZ, so the tulip launcher
    // threw a saw blade that had no artwork and so drew nothing.
    assert_eq!(ACT_PARACHUTE_BALL, 86, "actor id");
    assert_eq!(ACT_BABY_GHOST, 65, "actor id");
    assert_eq!(ACT_HAMBURGER, 82, "actor id");
    assert_eq!(ACT_PINK_WORM, 124, "actor id");
    assert_eq!(ACT_PROJECTILE_W, 109, "actor id");
    assert_eq!(ACT_PROJECTILE_E, 110, "actor id");
    assert_eq!(ACT_PROJECTILE_SW, 66, "actor id");
    assert_eq!(ACT_PROJECTILE_SE, 67, "actor id");
    assert_eq!(ACT_PROJECTILE_S, 68, "actor id");
}

#[test]
fn only_the_first_two_end_lines_have_something_to_say() {
    // ACT_EP1_END_1 and _2 show a cliffhanger; _3 ends the episode
    // instead and has no message.
    assert!(cliffhanger_lines(164).is_some());
    assert!(cliffhanger_lines(165).is_some());
    assert!(cliffhanger_lines(166).is_none(), "the third wins the game");
    assert!(cliffhanger_lines(999).is_none());
    for act in [164, 165] {
        let lines = cliffhanger_lines(act).unwrap();
        assert!(!lines.is_empty());
        assert!(
            lines.iter().all(|l| l.len() <= 26),
            "a line would run through the frame edge"
        );
    }
}

#[test]
fn the_sentry_robot_holds_its_fire_in_the_dark() {
    // It is gated on the lights being on. Without that it
    // shot at the player through an unlit room.
    let (level, data) = world(&["................", "################"]);
    let fired_under = |lights_active: bool| {
        let mut switches = SwitchState::default();
        switches.lights_active = lights_active;
        let mut e = Enemy::default_for_test(EnemyKind::SentryRobot);
        e.x = 8;
        e.y = 0;
        e.width_tiles = 1;
        e.height_tiles = 1;
        let mut p = Player::spawn_at(1, 0);
        p.x = 1;
        p.y = 0;
        for _ in 0..4000 {
            tick_sentry_robot(&mut e, &p, &switches, &level, &data);
            if !e.spawns.is_empty() {
                return true;
            }
        }
        false
    };
    assert!(fired_under(true), "it should fire with the lights on");
    assert!(!fired_under(false), "and hold fire with them off");
}

#[test]
fn a_blasted_pyramid_pays_out_and_leaves_a_shard() {
    let (level, data) = world(&["....", "####"]);
    let p = Player::spawn_at(30, 0);
    let mut e = Enemy::default_for_test(EnemyKind::Pyramid);
    e.x = 1;
    e.y = 0;
    e.width_tiles = 1;
    e.height_tiles = 1;
    // What the blast code sets.
    e.d2 = 3;
    for _ in 0..4 {
        if e.dead {
            break;
        }
        tick_pyramid(&mut e, &p, &level, &data);
    }
    assert!(e.dead, "three ticks after the blast it goes");
    assert_eq!(e.score_award, 200, "the pyramid is worth two hundred");
    assert_eq!(e.shards.len(), 1);
    assert_eq!(e.explosions.len(), 1);
}

#[test]
fn a_blasted_beam_robot_goes_up_in_a_column() {
    let (level, data) = world(&["....", "####"]);
    let mut e = Enemy::default_for_test(EnemyKind::BeamRobot);
    e.x = 1;
    e.y = 20;
    e.width_tiles = 1;
    e.height_tiles = 1;
    e.d3 = 12; // the beam length the blast recorded
    tick_beam_robot(&mut e, &level, &data);
    assert!(e.dead);
    // One explosion and one star every four cells.
    assert_eq!(e.explosions.len(), 3);
    assert_eq!(e.spawns.len(), 3);
    assert!(e.spawns.iter().all(|(a, ..)| *a == ACT_STAR_FLOAT));
    let ys: Vec<i32> = e.explosions.iter().map(|(_, y)| *y).collect();
    assert_eq!(ys, vec![20, 16, 12], "spaced up its own beam");
}

#[test]
fn a_speech_bubble_follows_the_player_and_expires() {
    let mut e = Enemy::default_for_test(EnemyKind::SpeechBubble);
    let mut p = Player::spawn_at(40, 30);
    p.x = 40;
    p.y = 30;

    tick_speech_bubble(&mut e, &p);
    assert_eq!(
        e.sounds,
        vec![snd::SPEECH_BUBBLE],
        "it speaks once, on its first tick"
    );
    assert_eq!((e.x, e.y), (39, 25), "and sits above the player's head");

    // It tracks them rather than staying put.
    p.x = 100;
    p.y = 12;
    tick_speech_bubble(&mut e, &p);
    assert_eq!((e.x, e.y), (99, 7));

    let mut ticks = 2;
    while !e.dead {
        tick_speech_bubble(&mut e, &p);
        ticks += 1;
        assert!(ticks < 100, "a bubble that never expired would follow forever");
    }
    assert_eq!(ticks, 20, "twenty ticks");
}

#[test]
fn only_the_jackpot_bubble_pays_out() {
    let p = Player::spawn_at(10, 10);
    let mut plain = Enemy::default_for_test(EnemyKind::SpeechBubble);
    tick_speech_bubble(&mut plain, &p);
    assert_eq!(plain.score_award, 0, "'whoa' is not worth anything");

    let mut jackpot = Enemy::default_for_test(EnemyKind::SpeechBubble);
    jackpot.d5 = 1;
    tick_speech_bubble(&mut jackpot, &p);
    assert_eq!(jackpot.score_award, 50_000);

    // ...and only once, however long it lives.
    for _ in 0..18 {
        tick_speech_bubble(&mut jackpot, &p);
    }
    assert_eq!(jackpot.score_award, 50_000);
}

#[test]
fn the_bubble_actor_ids_are_right() {
    assert_eq!(ACT_SPEECH_OUCH, 235, "actor id");
    assert_eq!(ACT_SPEECH_WHOA, 244, "actor id");
    assert_eq!(ACT_SPEECH_UMPH, 245, "actor id");
    assert_eq!(ACT_SPEECH_WOW_50K, 246, "actor id");
}

#[test]
fn the_smoke_emitter_puffs_occasionally_rather_than_constantly() {
    // One tick in thirty-two. Over 3200 ticks that is ~100; wide
    // bounds, but they catch an emitter that never fires or fires
    // every tick - the two ways this actor can be wrong.
    let mut e = Enemy::default_for_test(EnemyKind::SmokeEmitter);
    let mut puffs = 0;
    for _ in 0..3200 {
        tick_smoke_emitter(&mut e);
        puffs += e.decorations.len();
        e.decorations.clear();
    }
    assert!(
        (20..400).contains(&puffs),
        "puffed {puffs} times in 3200 ticks, expected roughly 100"
    );
}

#[test]
fn the_smoke_emitter_picks_its_plume_from_data5() {
    let puff_for = |d5: i32| {
        let mut e = Enemy::default_for_test(EnemyKind::SmokeEmitter);
        e.d5 = d5;
        for _ in 0..3200 {
            tick_smoke_emitter(&mut e);
            if let Some(d) = e.decorations.first() {
                return (d.0, d.2);
            }
        }
        panic!("never puffed");
    };
    assert_eq!(puff_for(1).0, SPR_SMOKE, "the small plume");
    assert_eq!(puff_for(0).0, SPR_SMOKE_LARGE, "the large one");
    assert!(
        puff_for(0).1 < puff_for(1).1,
        "the large plume is offset further left to stay centred"
    );
}

#[test]
fn a_monument_needs_three_blasts_and_leaves_no_wall_behind() {
    let mut e = Enemy::default_for_test(EnemyKind::Monument);
    e.x = 5;
    e.y = 20;

    tick_monument(&mut e);
    assert_eq!(e.tile_writes.len(), 9, "it stands as nine tiles of solid");
    assert!(e.tile_writes.iter().all(|(_, _, r)| *r == TILE_SWITCH_BLOCK));
    e.tile_writes.clear();

    // Three blasts, and the flash has to run out before another counts.
    assert!(!blast_monument(&mut e), "one blast is not enough");
    assert!(!e.dead);
    for _ in 0..12 {
        tick_monument(&mut e);
    }
    assert!(!blast_monument(&mut e), "nor two");
    for _ in 0..12 {
        tick_monument(&mut e);
    }
    assert!(blast_monument(&mut e), "the third brings it down");
    tick_monument(&mut e);
    assert!(e.dead);
    assert_eq!(e.tile_writes.len(), 9, "and clears every tile it stood as");
    assert!(
        e.tile_writes.iter().all(|(_, _, r)| *r == TILE_EMPTY),
        "a monument that left its tiles behind would be an invisible wall"
    );
}

#[test]
fn a_satellite_drops_a_hamburger_when_destroyed() {
    let mut e = Enemy::default_for_test(EnemyKind::Satellite);
    blast_satellite(&mut e);
    assert!(!e.dead, "the first blast only stuns it");
    for _ in 0..16 {
        tick_satellite(&mut e);
    }
    blast_satellite(&mut e);
    assert!(e.dead);
    assert_eq!(e.spawns.len(), 1);
    assert_eq!(e.spawns[0].0, ACT_HAMBURGER);
}

#[test]
fn the_tulip_launcher_throws_one_ball_per_cycle() {
    let mut e = Enemy::default_for_test(EnemyKind::TulipLauncher);
    let mut at = Vec::new();
    for tick in 0..400 {
        tick_tulip_launcher(&mut e);
        if !e.spawns.is_empty() {
            assert_eq!(e.spawns.len(), 1, "one ball at a time");
            assert_eq!(e.spawns[0].0, ACT_PARACHUTE_BALL);
            at.push(tick);
            e.spawns.clear();
        }
    }
    // Five wind-up ticks then a hundred idle.
    let gaps: Vec<_> = at.windows(2).map(|w| w[1] - w[0]).collect();
    assert!(
        gaps.iter().all(|g| *g == 105),
        "throws should be 105 ticks apart, got {gaps:?}"
    );
    assert!(at.len() >= 3, "and it should keep launching");
}

#[test]
fn a_trigger_line_fires_once_and_only_once() {
    let mut e = Enemy::default_for_test(EnemyKind::TriggerLine);
    e.y = 10;
    let mut away = Player::spawn_at(0, 30);
    away.y = 30;
    assert!(!tick_trigger_line(&mut e, &away), "not crossed yet");

    let mut on_it = Player::spawn_at(0, 12);
    on_it.y = 12;
    assert!(tick_trigger_line(&mut e, &on_it), "crossing fires it");
    assert!(
        !tick_trigger_line(&mut e, &on_it),
        "but standing there must not fire it again"
    );
}

#[test]
fn the_pusher_robot_shoves_only_when_the_player_is_in_reach() {
    let (level, data) = world(&[
        "................",
        "................",
        "################",
    ]);
    let mut e = Enemy::default_for_test(EnemyKind::PusherRobot);
    e.x = 8;
    e.y = 1;
    e.width_tiles = 1;
    e.height_tiles = 1;
    e.d1 = DIR2_WEST;

    // Player on the wrong row: paces, never shoves.
    let mut wrong_row = Player::spawn_at(5, 0);
    wrong_row.x = 5;
    wrong_row.y = 0;
    for _ in 0..50 {
        tick_pusher_robot(&mut e, &wrong_row, &level, &data);
        assert!(e.push_player.is_none(), "it must not shove across rows");
    }

    // Exactly three columns west of it, same row.
    e.x = 8;
    e.d1 = DIR2_WEST;
    e.d2 = 0;
    e.d4 = 0;
    let mut in_reach = Player::spawn_at(5, 1);
    in_reach.x = 5;
    in_reach.y = 1;
    tick_pusher_robot(&mut e, &in_reach, &level, &data);
    assert_eq!(
        e.push_player,
        Some((-1, 0, 5, 2)),
        "it should shove the player west"
    );
}

#[test]
fn a_shove_carries_the_player_and_then_ends() {
    let mut p = Player::spawn_at(10, 5);
    p.x = 10;
    p.y = 5;
    p.set_push(1, 0, 5, 2, false, true);
    assert_eq!(
        p.push,
        Some(Push {
            dx: 1,
            dy: 0,
            speed: 2,
            time: 0,
            max_time: 5,
            abortable: false,
            blockable: true
        })
    );
}

#[test]
fn a_falling_floor_is_solid_until_someone_stands_on_it() {
    // Spanning a gap, with air below - which is how every one of the
    // 63 placements in the shipped episodes is positioned.
    let (level, data) = world(&[
        "........",
        "........",
        "........",
        "........",
        "........",
    ]);
    let mut e = Enemy::default_for_test(EnemyKind::FallingFloor);
    e.x = 2;
    e.y = 2;
    e.width_tiles = 2;
    e.height_tiles = 1;

    let mut away = Player::spawn_at(30, 0);
    away.x = 30;
    away.y = 0;
    tick_falling_floor(&mut e, &away, &level, &data);
    assert_eq!(
        e.tile_writes,
        vec![(2, 1, TILE_STRIPED_PLATFORM), (3, 1, TILE_STRIPED_PLATFORM)],
        "it lays a platform you can stand on"
    );
    e.tile_writes.clear();
    for _ in 0..30 {
        tick_falling_floor(&mut e, &away, &level, &data);
    }
    assert!(!e.weighted, "it must not fall with nobody on it");
    assert!(e.tile_writes.is_empty(), "and must not restamp every tick");

    // Standing on it: the player's row is two above the actor's. The
    // trigger re-arms every tick they stay, so it does not give way
    // underneath them - it gives way a few ticks after they step off,
    // which is what makes it collapse just behind you.
    let mut on = Player::spawn_at(2, 0);
    on.x = 2;
    on.y = 0;
    for _ in 0..20 {
        tick_falling_floor(&mut e, &on, &level, &data);
    }
    assert!(!e.weighted, "it holds while it is being stood on");

    for _ in 0..8 {
        tick_falling_floor(&mut e, &away, &level, &data);
    }
    assert!(e.weighted, "and lets go seven ticks after they leave");
    assert_eq!(
        e.tile_writes,
        vec![(2, 1, 0), (3, 1, 0)],
        "and put back exactly the tiles it covered, or it would leave \
         an invisible ledge in mid-air"
    );
}

#[test]
fn a_force_field_reaches_from_its_cell_to_the_wall() {
    // A vertical field in a four-high shaft should span the shaft and
    // stop at the ceiling, not run off the top of the map.
    let (level, data) = world(&[
        "####",
        "....",
        "....",
        "....",
        "####",
    ]);
    let switches = SwitchState::default();
    let mut e = Enemy::default_for_test(EnemyKind::ForceField);
    e.x = 1;
    e.y = 3;
    e.width_tiles = 1;
    e.height_tiles = 1;
    e.d5 = 0; // vertical

    tick_force_field(&mut e, &switches, &level, &data);
    assert_eq!(e.d1, 3, "three open rows between floor and ceiling");
    assert_eq!(beam_rect(&e), Some((1, 1, 1, 3)));
}

#[test]
fn a_horizontal_force_field_runs_along_its_row() {
    let (level, data) = world(&[
        "#......#",
        "########",
    ]);
    let switches = SwitchState::default();
    let mut e = Enemy::default_for_test(EnemyKind::ForceField);
    e.x = 1;
    e.y = 0;
    e.width_tiles = 1;
    e.height_tiles = 1;
    e.d5 = 1; // horizontal

    tick_force_field(&mut e, &switches, &level, &data);
    assert_eq!(e.d1, 6, "six open columns before the far wall");
}

#[test]
fn throwing_the_switch_removes_the_force_fields_for_good() {
    let (level, data) = world(&["....", "####"]);
    let mut switches = SwitchState::default();
    let mut e = Enemy::default_for_test(EnemyKind::ForceField);
    e.x = 1;
    e.y = 0;
    e.width_tiles = 1;
    e.height_tiles = 1;

    tick_force_field(&mut e, &switches, &level, &data);
    assert!(beam_rect(&e).is_some(), "on to begin with");

    switches.force_fields_active = false;
    tick_force_field(&mut e, &switches, &level, &data);
    assert!(e.dead, "the switch kills them outright");
    assert_eq!(beam_rect(&e), None, "and the beam goes with it");
}

#[test]
fn a_head_switch_unlocks_only_its_own_colour_of_door() {
    let mut switches = SwitchState::default();
    let mut sw = Enemy::default_for_test(EnemyKind::HeadSwitch);
    sw.d5 = 13; // ACT_DOOR_GREEN

    // Un-pounced, it does nothing.
    for _ in 0..10 {
        tick_head_switch(&mut sw, &mut switches);
    }
    assert!(switches.doors_opened.is_empty());

    sw.frame = 1; // what the pounce sets
    for _ in 0..10 {
        tick_head_switch(&mut sw, &mut switches);
    }
    assert_eq!(switches.doors_opened, vec![13], "only green, and only once");
}

#[test]
fn a_door_reopens_to_exactly_the_tiles_it_covered() {
    // The door remembers what it painted over; a blue door that
    // reopened to the wrong tiles would leave a hole or a wall.
    let (level, data) = world(&[
        "..##....",
        "..##....",
        "..##....",
        "..##....",
        "..##....",
        "########",
    ]);
    let _ = data;
    let mut switches = SwitchState::default();
    let mut e = Enemy::default_for_test(EnemyKind::Door);
    e.act_id = 11; // ACT_DOOR_BLUE
    e.x = 1;
    e.y = 4;

    tick_door(&mut e, &switches, &level);
    let stamped: Vec<_> = e.tile_writes.drain(..).collect();
    assert_eq!(stamped.len(), 5);
    assert!(
        stamped.iter().all(|(_, _, raw)| *raw == TILE_DOOR_BLOCK),
        "it should have made itself solid"
    );
    let covered: Vec<u16> = (0..5)
        .map(|r| level.tile_at(2, (4 - r) as usize))
        .collect();

    // Locked: nothing happens.
    for _ in 0..20 {
        tick_door(&mut e, &switches, &level);
    }
    assert!(e.tile_writes.is_empty() && !e.dead, "it stays shut");

    switches.doors_opened.push(11);
    tick_door(&mut e, &switches, &level);
    let restored: Vec<u16> = e.tile_writes.iter().map(|(_, _, raw)| *raw).collect();
    assert_eq!(restored, covered, "it must put back exactly what it covered");
    assert!(e.dead, "and remove itself");
}

#[test]
fn a_foot_switch_throws_on_the_fourth_blast() {
    let mut switches = SwitchState::default();
    switches.force_fields_active = true;
    let mut e = Enemy::default_for_test(EnemyKind::FootSwitch);
    e.d5 = ACT_SWITCH_FORCE_FIELD;

    for press in 1..4 {
        press_foot_switch(&mut e);
        tick_foot_switch(&mut e, &mut switches);
        assert!(
            switches.force_fields_active,
            "press {press} should not have thrown it yet"
        );
    }
    press_foot_switch(&mut e);
    tick_foot_switch(&mut e, &mut switches);
    assert!(!switches.force_fields_active, "the fourth press throws it");

    // Further blasts do nothing.
    for _ in 0..5 {
        press_foot_switch(&mut e);
        tick_foot_switch(&mut e, &mut switches);
    }
    assert_eq!(e.d1, 4, "the knob bottoms out at four");
}

#[test]
fn the_mystery_wall_sleeps_until_its_switch_is_thrown() {
    let (level, data) = world(&[
        "####",
        "....",
        "....",
        "....",
        "####",
    ]);
    let mut switches = SwitchState::default();
    let mut e = Enemy::default_for_test(EnemyKind::MysteryWall);
    e.x = 1;
    e.y = 3;
    e.width_tiles = 1;
    e.height_tiles = 1;

    for _ in 0..20 {
        tick_mystery_wall(&mut e, &mut switches, &level, &data);
    }
    assert_eq!(e.y, 3, "it should not move before the switch");
    assert!(e.tile_writes.is_empty());

    switches.mystery_wall_time = 4;
    for _ in 0..20 {
        if e.dead {
            break;
        }
        tick_mystery_wall(&mut e, &mut switches, &level, &data);
    }
    assert!(e.dead, "it should stop on reaching the ceiling");
    assert!(e.y < 3, "having climbed from row 3 to {}", e.y);
    assert!(
        e.tile_writes.iter().all(|(_, _, raw)| *raw == TILE_MYSTERY_BLOCK),
        "it leaves solid block behind it"
    );
}

#[test]
fn a_level_with_a_switch_starts_with_that_system_off() {
    let mut s = SwitchState::default();
    let mut level = empty_level();
    assert!(s.platforms_active && s.lights_active, "on by default");

    level.actors = vec![LevelActorJson {
        map_type: (ACT_SWITCH_PLATFORMS + 31) as u16,
        x: 0,
        y: 0,
    }];
    s.reset_for_level(&level);
    assert!(!s.platforms_active, "the switch's presence disables them");
    assert!(s.lights_active, "but not the unrelated ones");
}

#[test]
fn a_door_makes_itself_solid_once_and_only_once() {
    let (level, _) = world(&["........"; 12]);
    let switches = SwitchState::default();
    let mut e = Enemy::default_for_test(EnemyKind::Door);
    e.x = 4;
    e.y = 9;
    tick_door(&mut e, &switches, &level);
    assert_eq!(
        e.tile_writes,
        (0..5).map(|y| (5, 9 - y, TILE_DOOR_BLOCK)).collect::<Vec<_>>(),
        "a door is five rows of solid tile in the column beside it"
    );
    e.tile_writes.clear();
    for _ in 0..50 {
        tick_door(&mut e, &switches, &level);
    }
    assert!(
        e.tile_writes.is_empty(),
        "it must not rewrite the map every tick"
    );
}

#[test]
fn the_rocket_waits_out_its_fuse_then_climbs_until_it_hits_something() {
    let (level, data) = world(&[
        "####",
        "....",
        "....",
        "....",
        "....",
        "####",
    ]);
    let mut e = Enemy::default_for_test(EnemyKind::Rocket);
    e.x = 1;
    e.y = 4;
    e.width_tiles = 1;
    e.height_tiles = 1;
    e.d1 = 60;
    e.d2 = 10;

    for _ in 0..60 {
        tick_rocket(&mut e, &Player::spawn_at(0, 0), &level, &data);
    }
    assert_eq!(e.y, 4, "it should still be on the pad during the fuse");

    for _ in 0..40 {
        if e.dead {
            break;
        }
        tick_rocket(&mut e, &Player::spawn_at(0, 0), &level, &data);
    }
    assert!(e.dead, "it should destroy itself against the ceiling");
    assert!(e.y >= 1, "and not fly through it, ending at {}", e.y);
}

#[test]
fn the_ivy_plant_climbs_then_returns_after_a_blast() {
    let mut e = Enemy::default_for_test(EnemyKind::IvyPlant);
    e.y = 20;
    e.d1 = 5;
    e.d4 = 7; // seven rows to climb, as ConstructActor seeds it
    for _ in 0..40 {
        tick_ivy_plant(&mut e);
    }
    assert_eq!(e.y, 13, "it should have climbed its seven rows");

    e.d2 = 1; // blasted
    for _ in 0..10 {
        tick_ivy_plant(&mut e);
    }
    assert_eq!(e.y, 20, "and dropped all the way back");
}

#[test]
fn the_worm_crate_lays_a_platform_and_carries_it_down() {
    let (level, data) = world(&[
        "........",
        "........",
        "........",
        "........",
        "########",
    ]);
    let mut e = Enemy::default_for_test(EnemyKind::WormCrate);
    e.x = 1;
    e.y = 1;
    e.width_tiles = 1;
    e.height_tiles = 1;

    tick_worm_crate(&mut e, &level, &data);
    assert_eq!(
        e.tile_writes,
        (0..4)
            .map(|i| (1 + i, -1, TILE_STRIPED_PLATFORM))
            .collect::<Vec<_>>(),
        "first tick lays a four-tile platform across its top"
    );
    e.tile_writes.clear();

    // Falling: it clears the old row and re-lays on landing.
    for _ in 0..10 {
        tick_worm_crate(&mut e, &level, &data);
    }
    assert_eq!(e.y, 3, "it should come to rest on the floor");
    let last = e.tile_writes.last().expect("it should have written tiles");
    assert_eq!(last.2, TILE_STRIPED_PLATFORM, "and re-lay on landing");
}

#[test]
fn bursting_a_crate_clears_its_platform_and_frees_a_worm() {
    let mut e = Enemy::default_for_test(EnemyKind::WormCrate);
    e.x = 5;
    e.y = 9;
    burst_worm_crate(&mut e);
    assert!(e.dead);
    assert_eq!(e.spawns, vec![(ACT_PINK_WORM, 5, 9)]);
    assert!(
        e.tile_writes.iter().all(|(_, _, raw)| *raw == TILE_EMPTY),
        "the platform must be cleared, or it would hang in mid-air"
    );
    // Bursting twice must not release two worms.
    let spawned = e.spawns.len();
    burst_worm_crate(&mut e);
    assert_eq!(e.spawns.len(), spawned);
}

#[test]
fn the_splitting_platform_only_opens_under_the_player() {
    let mut e = Enemy::default_for_test(EnemyKind::SplittingPlatform);
    e.x = 10;
    e.y = 10;

    let mut away = Player::spawn_at(40, 8);
    away.x = 40;
    away.y = 8;
    for _ in 0..40 {
        tick_splitting_platform(&mut e, &away);
    }
    assert_eq!(e.d1, 1, "it should stay closed with nobody on it");

    // Standing on it: the player's row is two above the actor's.
    let mut on = Player::spawn_at(11, 8);
    on.x = 11;
    on.y = 8;
    let mut cleared = false;
    for _ in 0..40 {
        tick_splitting_platform(&mut e, &on);
        cleared |= e
            .tile_writes
            .iter()
            .any(|(_, _, raw)| *raw == TILE_EMPTY);
    }
    assert!(cleared, "it should drop the player through");
    // ...and eventually re-lay itself.
    let mut relaid = false;
    for _ in 0..40 {
        tick_splitting_platform(&mut e, &away);
        relaid |= e
            .tile_writes
            .iter()
            .any(|(_, _, raw)| *raw == TILE_BLUE_PLATFORM);
    }
    assert!(relaid, "the platform must come back");
}

#[test]
fn the_wall_plant_spits_once_per_cycle_on_the_side_it_faces() {
    for (facing, expect) in [(0u8, ACT_PROJECTILE_W), (1, ACT_PROJECTILE_E)] {
        let mut e = Enemy::default_for_test(EnemyKind::SpittingWallPlant);
        e.d5 = facing as i32;
        let mut fired = Vec::new();
        for _ in 0..150 {
            tick_spitting_wall_plant(&mut e);
            fired.append(&mut e.spawns);
        }
        assert_eq!(fired.len(), 3, "one shot per fifty-tick cycle");
        assert!(
            fired.iter().all(|(a, ..)| *a == expect),
            "facing {facing} fired the wrong way: {fired:?}"
        );
    }
}

#[test]
fn the_spitting_turret_fires_where_it_is_aimed() {
    // The turret picks a frame bank from where the player is, and each
    // bank fires one direction: level with it means west or east,
    // below it means one of the three downward shots.
    let aim = |px: i32, py: i32| -> Vec<u16> {
        let mut e = Enemy::default_for_test(EnemyKind::SpittingTurret);
        e.x = 10;
        e.y = 10;
        e.d3 = 10;
        // Start in the rest phase (d1 == 0), where the aiming happens;
        // dropping straight into a volley would fire the bank it
        // happened to be left on.
        e.d2 = 27;
        let mut p = Player::spawn_at(px, py);
        p.x = px;
        p.y = py;
        let mut fired = Vec::new();
        for _ in 0..200 {
            tick_spitting_turret(&mut e, &p);
            fired.extend(e.spawns.drain(..).map(|(a, ..)| a));
        }
        fired.sort_unstable();
        fired.dedup();
        fired
    };

    assert_eq!(aim(2, 10), vec![ACT_PROJECTILE_W], "player west -> west");
    assert_eq!(aim(40, 10), vec![ACT_PROJECTILE_E], "player east -> east");
    assert_eq!(aim(2, 20), vec![ACT_PROJECTILE_SW], "below and west -> south-west");
    assert_eq!(aim(40, 20), vec![ACT_PROJECTILE_SE], "below and east -> south-east");
    assert_eq!(aim(11, 20), vec![ACT_PROJECTILE_S], "directly below -> south");
}

#[test]
fn the_turrets_shots_clear_its_own_body() {
    // Starting a projectile inside the turret would have it collide
    // with its own launcher.
    let mut e = Enemy::default_for_test(EnemyKind::SpittingTurret);
    e.x = 10;
    e.y = 10;
    e.d3 = 10;
    e.d2 = 27;
    let mut p = Player::spawn_at(40, 10);
    p.x = 40;
    p.y = 10;
    let mut fired = Vec::new();
    for _ in 0..200 {
        tick_spitting_turret(&mut e, &p);
        fired.append(&mut e.spawns);
    }
    assert!(!fired.is_empty());
    for (act, x, _) in &fired {
        if *act == ACT_PROJECTILE_E {
            assert!(*x > e.d3 + 3, "an east shot must clear its width");
        }
    }
}

#[test]
fn a_diagonal_projectile_travels_on_both_axes() {
    let scroll = Scroll::default();
    let mut e = Enemy::default_for_test(EnemyKind::Projectile);
    e.d5 = DIRP_SOUTHEAST;
    let (x0, y0) = (e.x, e.y);
    for _ in 0..5 {
        tick_projectile(&mut e, &scroll);
    }
    assert_eq!((e.x - x0, e.y - y0), (5, 5), "south-east means both");

    let mut s = Enemy::default_for_test(EnemyKind::Projectile);
    s.d5 = DIRP_SOUTH;
    let (sx, sy) = (s.x, s.y);
    for _ in 0..5 {
        tick_projectile(&mut s, &scroll);
    }
    assert_eq!((s.x - sx, s.y - sy), (0, 5), "south means straight down");
}

#[test]
fn a_projectile_flies_straight_and_dies_off_screen() {
    let scroll = Scroll::default();
    let mut e = Enemy::default_for_test(EnemyKind::Projectile);
    e.d5 = DIRP_EAST;
    e.x = 5;
    let start_y = e.y;
    for _ in 0..10 {
        tick_projectile(&mut e, &scroll);
    }
    assert_eq!(e.x, 15, "it should have flown ten columns east");
    assert_eq!(e.y, start_y, "and not drifted vertically");
    assert!(!e.dead);

    // Carried past the edge of the view, it dies rather than flying on.
    for _ in 0..200 {
        tick_projectile(&mut e, &scroll);
    }
    assert!(e.dead, "a projectile must not outlive the screen");
}

#[test]
fn the_sentry_robot_fires_toward_the_player() {
    let (level, data) = world(&[
        "................",
        "................",
        "################",
    ]);
    let fire_dir = |player_x: i32| {
        let mut e = Enemy::default_for_test(EnemyKind::SentryRobot);
        e.x = 8;
        e.y = 1;
        e.width_tiles = 1;
        e.height_tiles = 1;
        let mut p = Player::spawn_at(player_x, 1);
        p.x = player_x;
        p.y = 1;
        for _ in 0..4000 {
            tick_sentry_robot(&mut e, &p, &SwitchState::default(), &level, &data);
            if let Some((act, ..)) = e.spawns.first() {
                return *act;
            }
        }
        panic!("the sentry never fired in 4000 ticks");
    };
    assert_eq!(fire_dir(1), ACT_PROJECTILE_W, "player west -> fire west");
    assert_eq!(fire_dir(15), ACT_PROJECTILE_E, "player east -> fire east");
}

#[test]
fn the_egg_hatches_into_a_baby_ghost_when_approached() {
    let mut e = Enemy::default_for_test(EnemyKind::BabyGhostEgg);
    e.x = 10;
    e.y = 10;

    // Nobody near: it sits there indefinitely.
    let mut away = Player::spawn_at(40, 10);
    away.x = 40;
    away.y = 10;
    for _ in 0..100 {
        tick_baby_ghost_egg(&mut e, &away);
    }
    assert!(!e.dead, "it should not hatch with nobody near");
    assert!(e.spawns.is_empty());

    let mut near = Player::spawn_at(8, 12);
    near.x = 8;
    near.y = 12;
    for _ in 0..40 {
        // `tick_enemies` skips dead actors, so stop when it dies -
        // otherwise this would hatch the same egg over and over.
        if e.dead {
            break;
        }
        tick_baby_ghost_egg(&mut e, &near);
    }
    assert!(e.dead, "it should have hatched");
    assert_eq!(e.spawns, vec![(ACT_BABY_GHOST, 10, 10)]);
}

#[test]
fn the_prox_egg_ignores_a_passing_player() {
    // data5 = 1 disables the proximity trigger entirely
    // - it is hatched by other means.
    let mut e = Enemy::default_for_test(EnemyKind::BabyGhostEgg);
    e.d5 = 1;
    let mut near = Player::spawn_at(8, 12);
    near.x = 8;
    near.y = 12;
    for _ in 0..200 {
        tick_baby_ghost_egg(&mut e, &near);
    }
    assert!(!e.dead, "the _PROX variant must not hatch on proximity");
}

#[test]
fn the_jumping_bullet_arcs_and_reverses() {
    let mut e = Enemy::default_for_test(EnemyKind::JumpingBullet);
    e.d2 = DIR2_WEST;
    e.x = 50;
    let start_y = e.y;
    for _ in 0..16 {
        tick_jumping_bullet(&mut e);
    }
    // The arc sums to zero, so one bounce returns to the start row.
    assert_eq!(e.y, start_y, "the arc must close");
    assert_eq!(e.x, 34, "and it travels sixteen columns per bounce");
    assert_eq!(e.d2, DIR2_EAST, "then turns around");
}

#[test]
fn the_two_tons_crusher_returns_to_its_rest_height() {
    // It accelerates 1/2/4 down and decelerates the same way up, so the
    // two halves must cancel exactly or it would walk down the screen.
    let mut e = Enemy::default_for_test(EnemyKind::TwoTonsCrusher);
    let rest = e.y;
    let mut lowest = e.y;
    for _ in 0..200 {
        tick_two_tons_crusher(&mut e);
        lowest = lowest.max(e.y);
    }
    assert_eq!(e.y % 7, rest % 7, "the cycle must be closed");
    assert_eq!(lowest - rest, 7, "it drops seven rows: 1 + 2 + 4");
}

#[test]
fn the_stone_head_waits_for_the_player_then_drops() {
    let (level, data) = world(&[
        "........",
        "........",
        "........",
        "........",
        "########",
    ]);
    let mut e = Enemy::default_for_test(EnemyKind::StoneHeadCrusher);
    e.x = 2;
    e.y = 0;
    e.width_tiles = 1;
    e.height_tiles = 1;

    // Player nowhere near: it stays put.
    let away = Player::spawn_at(40, 3);
    for _ in 0..20 {
        tick_stone_head_crusher(&mut e, &away, &level, &data);
    }
    assert_eq!(e.y, 0, "it should not drop with nobody underneath");

    // Player underneath: it falls to the floor, then climbs home.
    let mut under = Player::spawn_at(3, 3);
    under.x = 3;
    under.y = 3;
    let mut lowest = e.y;
    for _ in 0..10 {
        tick_stone_head_crusher(&mut e, &under, &level, &data);
        lowest = lowest.max(e.y);
    }
    assert!(lowest > 0, "it should have dropped");
    assert!(lowest < 4, "and stopped on the floor, not through it");
    for _ in 0..40 {
        tick_stone_head_crusher(&mut e, &away, &level, &data);
    }
    assert_eq!(e.y, 0, "it should climb back to where it started");
}

#[test]
fn the_heart_plant_only_opens_for_a_player_overhead() {
    let mut e = Enemy::default_for_test(EnemyKind::HeartPlant);
    e.x = 10;
    e.y = 10;
    let mut beside = Player::spawn_at(4, 4);
    beside.x = 4;
    beside.y = 4;
    for _ in 0..20 {
        tick_heart_plant(&mut e, &beside);
    }
    assert_eq!(e.frame, 0, "it stays shut for a player off to the side");

    let mut above = Player::spawn_at(10, 4);
    above.x = 10;
    above.y = 4;
    let mut opened = false;
    for _ in 0..240 {
        tick_heart_plant(&mut e, &above);
        opened |= e.frame > 0;
        // The lurch is a column left on frame 1 and back on frame 2.
        // Over many open/close cycles that must not accumulate - a
        // plant that drifted would crawl across the level.
        assert!(
            (9..=10).contains(&e.x),
            "the plant drifted to column {}",
            e.x
        );
    }
    assert!(opened, "it should open for a player directly above");
}

#[test]
fn the_sharp_robot_stays_under_its_ceiling() {
    // A ceiling that runs out: the robot must turn at the gap rather
    // than carry on into open air.
    let (level, data) = world(&[
        "#####...",
        "........",
        "........",
    ]);
    let mut e = Enemy::default_for_test(EnemyKind::SharpRobot);
    e.x = 1;
    e.y = 1;
    e.width_tiles = 1;
    e.height_tiles = 1;
    e.d2 = DIR2_EAST;
    for _ in 0..120 {
        tick_sharp_robot(&mut e, &level, &data);
        assert!(
            (0..5).contains(&e.x),
            "it ran out from under the ceiling to x={}",
            e.x
        );
    }
}

#[test]
fn the_flying_wisp_loops_back_to_its_start() {
    let mut e = Enemy::default_for_test(EnemyKind::FlyingWisp);
    let start = e.y;
    for _ in 0..64 {
        tick_flying_wisp(&mut e);
    }
    assert_eq!(e.y, start, "a 64-tick loop must close");
}

/// An eye plant far from any wall, so only the player's column matters.
fn eye_plant(x: i32) -> Enemy {
    let mut e = Enemy::default_for_test(EnemyKind::EyePlant);
    e.x = x;
    e
}

fn player_at(x: i32) -> Player {
    let mut p = Player::spawn_at(x, 10);
    p.x = x;
    p
}

#[test]
fn the_eye_plant_looks_toward_the_player() {
    // Frames are two banks of three: west / centre / east, then the
    // same again for the blink. Mask off the blink to test the aim.
    let aim = |plant_x: i32, player_x: i32| {
        let mut e = eye_plant(plant_x);
        tick_eye_plant(&mut e, &player_at(player_x));
        e.frame % 3
    };
    assert_eq!(aim(20, 5), 0, "player far west -> look west");
    assert_eq!(aim(20, 60), 2, "player far east -> look east");
    assert_eq!(aim(20, 20), 1, "player level with it -> look ahead");
}

#[test]
fn the_eye_plants_dead_zone_is_lopsided() {
    // Two tiles of slack to the west against one to the east
    // - not symmetric, and worth pinning because
    // it would be very easy to "tidy" into a symmetric test.
    let aim = |player_x: i32| {
        let mut e = eye_plant(20);
        tick_eye_plant(&mut e, &player_at(player_x));
        e.frame % 3
    };
    assert_eq!(aim(17), 0, "three west is outside the dead zone");
    assert_eq!(aim(18), 1, "two west is still centre");
    assert_eq!(aim(21), 1, "one east is still centre");
    assert_eq!(aim(22), 2, "two east is outside it");
}

#[test]
fn the_eye_plant_never_moves_or_dies() {
    let mut e = eye_plant(20);
    let (x, y) = (e.x, e.y);
    for _ in 0..200 {
        tick_eye_plant(&mut e, &player_at(5));
    }
    assert_eq!((e.x, e.y), (x, y), "it is rooted to the spot");
    assert!(!e.dead);
}

#[test]
fn the_eye_plant_blinks_sometimes_but_rarely() {
    // 2-in-40 per tick. Over 4000 ticks that is ~200; the bounds are
    // wide enough not to be flaky but tight enough to catch a blink
    // that never fires or fires constantly.
    let mut e = eye_plant(20);
    let p = player_at(5);
    let blinks = (0..4000)
        .filter(|_| {
            tick_eye_plant(&mut e, &p);
            e.frame >= 3
        })
        .count();
    assert!(
        (40..800).contains(&blinks),
        "blinked {blinks} times in 4000 ticks, expected roughly 200"
    );
}

#[test]
fn a_throbbing_slime_cycles_and_stays_put() {
    let mut e = Enemy::default_for_test(EnemyKind::Slime);
    e.d5 = 0;
    let scroll = Scroll::default();
    let home = e.y;
    let mut seen = std::collections::BTreeSet::new();
    for _ in 0..60 {
        tick_slime(&mut e, &scroll);
        seen.insert(e.frame);
    }
    assert_eq!(e.y, home, "a throb-only slime never falls");
    assert_eq!(seen, [0, 1, 2, 3].into_iter().collect());
}

#[test]
fn a_dripping_slime_falls_and_returns_home() {
    let mut e = Enemy::default_for_test(EnemyKind::Slime);
    e.d5 = 1;
    e.y = 8;
    e.d2 = 8; // home row, as ConstructActor seeds it
    let scroll = Scroll::default();
    let mut fell_below = false;
    for _ in 0..400 {
        tick_slime(&mut e, &scroll);
        if e.y > 8 {
            fell_below = true;
        }
    }
    assert!(fell_below, "it should detach and fall at some point");
    assert!(
        e.y >= 8,
        "it must never end up above the ceiling it hangs from"
    );
}

#[test]
fn an_actor_inside_the_window_is_visible() {
    assert!(is_visible_at(10, 10, 2, 2, 0, 0));
}

#[test]
fn an_actor_beyond_either_edge_is_not() {
    assert!(!is_visible_at(SCROLL_W + 5, 10, 2, 2, 0, 0));
    assert!(!is_visible_at(10, SCROLL_H + 5, 2, 2, 0, 0));
    assert!(!is_visible_at(-10, 10, 2, 2, 0, 0));
}

#[test]
fn an_actor_straddling_an_edge_still_counts() {
    // Half on screen is on screen - otherwise something would wake only
    // once fully inside, a tile late.
    assert!(is_visible_at(-1, 10, 3, 2, 0, 0));
    assert!(is_visible_at(SCROLL_W - 1, 10, 3, 2, 0, 0));
}

#[test]
fn scrolling_up_brings_a_perched_actor_into_view() {
    // The mechanic: a star at row 20 with the player's view starting at
    // row 26 is out of sight, and looking up to row 19 reveals it.
    let star = |sy| is_visible_at(19, 20, 2, 2, 4, sy);
    assert!(!star(26), "should be above the window");
    assert!(star(19), "looking up should reveal it");
}

#[test]
fn the_points_the_actors_earn_go_on_the_score() {
    let mut e = Enemy::default_for_test(EnemyKind::Pyramid);
    e.score_award = 200;
    let mut f = Enemy::default_for_test(EnemyKind::Pyramid);
    f.score_award = 50;
    let mut enemies = vec![e, f];
    let mut player = Player::spawn_at(10, 10);
    let mut seen = SeenBubbles::default();
    let d = spawn_queued_actors(&mut enemies, &mut player, &mut seen);
    assert_eq!(d.score, 250);
    assert!(enemies.iter().all(|e| e.score_award == 0));
    let mut score = Score(1000);
    credit(&mut score, &d);
    assert_eq!(score.0, 1250);
}
