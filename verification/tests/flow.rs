use opencosmo_game::actors::Collectible;
use opencosmo_game::camera::Scroll;
use opencosmo_game::flow::{
    check_level_exit, collect_pickups, enter_level, restart_level, Checkpoint, Collected, Intermission,
    LevelSequence, Score, Stars, INVINCIBLE_TICKS,
};
use opencosmo_game::player::Player;
use opencosmo_game::sfx::snd;

fn player_with(health: i32, cells: u32, bombs: u32) -> Player {
    let mut p = Player::spawn_at(0, 0);
    p.health = health;
    p.health_cells = cells;
    p.bombs = bombs;
    p
}

fn sequence() -> LevelSequence {
    LevelSequence { order: (0..12).map(|i| format!("L{i}")).collect(), index: 0 }
}

#[test]
fn a_first_level_leads_straight_to_the_second() {
    let mut s = sequence();
    assert_eq!(s.advance(0), None, "no ceremony mid-section");
    assert_eq!(s.index, 1);
}

#[test]
fn too_few_stars_skips_the_bonus_stages_entirely() {
    let mut s = sequence();
    s.index = 1;
    assert_eq!(s.advance(24), Some(Intermission::SectionCompleted));
    assert_eq!(s.index, 4, "should land on the next section's first level");
}

#[test]
fn twenty_five_stars_earns_the_lesser_bonus_stage() {
    let mut s = sequence();
    s.index = 1;
    assert_eq!(s.advance(25), Some(Intermission::SectionCompleted));
    assert_eq!(s.index, 2);
}

#[test]
fn fifty_stars_earns_the_better_one() {
    let mut s = sequence();
    s.index = 1;
    assert_eq!(s.advance(50), Some(Intermission::SectionCompleted));
    assert_eq!(s.index, 3);
}

#[test]
fn either_bonus_stage_leads_to_the_next_section() {
    for (from, stars) in [(2usize, 0u32), (3, 0)] {
        let mut s = sequence();
        s.index = from;
        assert_eq!(s.advance(stars), Some(Intermission::BonusCompleted));
        assert_eq!(s.index, 4, "from bonus slot {from}");
    }
}

#[test]
fn a_full_run_without_stars_never_visits_a_bonus_stage() {
    let mut s = sequence();
    let mut visited = vec![s.index];
    for _ in 0..5 {
        s.advance(0);
        visited.push(s.index);
    }
    assert!(
        !visited.iter().any(|i| i % 4 == 2 || i % 4 == 3),
        "starless run reached a bonus slot: {visited:?}"
    );
}

#[test]
fn restores_everything_banked_since_the_level_started() {
    let score = Score(1200);
    let stars = Stars(3);
    let player = player_with(4, 3, 2);
    let checkpoint = Checkpoint::capture(&score, &stars, &player);

    let mut score = Score(9900);
    let mut stars = Stars(7);
    let mut player = player_with(1, 4, 0);

    checkpoint.restore(&mut score, &mut stars, &mut player);
    assert_eq!(score.0, 1200, "points banked during the attempt are lost");
    assert_eq!(stars.0, 3);
    assert_eq!(player.health, 4);
    assert_eq!(player.health_cells, 3);
    assert_eq!(player.bombs, 2);
}

#[test]
fn a_fresh_checkpoint_round_trips() {
    let score = Score(0);
    let stars = Stars(0);
    let player = player_with(4, 3, 0);
    let checkpoint = Checkpoint::capture(&score, &stars, &player);

    let mut score = Score(500);
    let mut stars = Stars(1);
    let mut player = player_with(2, 3, 1);
    checkpoint.restore(&mut score, &mut stars, &mut player);
    assert_eq!((score.0, stars.0, player.health, player.bombs), (0, 0, 4, 0));
}

#[test]
fn the_sequence_starts_at_the_named_level() {
    let order: Vec<String> = (0..8).map(|i| format!("L{i}")).collect();
    let s = LevelSequence::build(order.clone(), "L5");
    assert_eq!(s.index, 5);
    assert_eq!(s.current(), "L5");
    let s = LevelSequence::build(order, "nowhere");
    assert_eq!(s.index, 0);
    let lone = LevelSequence::build(Vec::new(), "A1");
    assert_eq!(lone.order, vec!["A1".to_string()]);
    assert_eq!(lone.current(), "A1");
}

#[test]
fn the_last_level_wraps_to_the_first() {
    let mut s = sequence();
    s.index = 11;
    assert_eq!(s.advance(0), Some(Intermission::BonusCompleted));
    assert_eq!(s.index, 0);
}

#[test]
fn intermissions_have_their_titles() {
    assert_eq!(Intermission::SectionCompleted.title(), "Section Completed!");
    assert_eq!(Intermission::BonusCompleted.title(), "Bonus Level Completed!!");
    let f = Intermission::SectionCompleted.frame();
    assert_eq!((f.top, f.height, f.width), (7, 7, 34));
}

#[test]
fn prizes_within_reach_are_taken_in_order() {
    let mut p = player_with(3, 3, 0);
    p.x = 10;
    p.y = 10;
    let mut score = Score(0);
    let mut stars = Stars(0);
    let items = vec![
        Collectible { x: 11, y: 12, spr: 1 },   // a star
        Collectible { x: 30, y: 10, spr: 1 },   // out of reach
        Collectible { x: 9, y: 8, spr: 189 },   // the invincibility cube
        Collectible { x: 10, y: 10, spr: 32 },  // 200 points
    ];
    let taken = collect_pickups(&mut p, &mut score, &mut stars, &items);
    assert_eq!(
        taken,
        vec![
            Collected { index: 0, sound: snd::BIG_PRIZE, popup: None },
            Collected { index: 2, sound: snd::BIG_PRIZE, popup: Some(12800) },
            Collected { index: 3, sound: snd::PRIZE, popup: Some(200) },
        ]
    );
    assert_eq!(stars.0, 1);
    assert_eq!(score.0, 200, "the cube shows 12800 without paying it");
    assert_eq!(p.invincible_ticks, INVINCIBLE_TICKS);

    // A dead player takes nothing.
    p.dead_timer = 1;
    assert!(collect_pickups(&mut p, &mut score, &mut stars, &items).is_empty());
    assert_eq!(stars.0, 1);
}

#[test]
fn an_exit_is_reached_by_touch_or_by_sight() {
    let mut p = player_with(3, 3, 0);
    p.x = 10;
    p.y = 10;
    let scroll = Scroll { x: 0, y: 0 };
    assert!(check_level_exit(&p, &vec![(12, 13)], &vec![], &scroll));
    assert!(!check_level_exit(&p, &vec![(13, 13)], &vec![], &scroll));
    assert!(check_level_exit(&p, &vec![], &vec![(37, 17)], &scroll));
    assert!(!check_level_exit(&p, &vec![], &vec![(38, 17)], &scroll));
    p.dead_timer = 3;
    assert!(!check_level_exit(&p, &vec![(10, 10)], &vec![], &scroll));
}

#[test]
fn restarting_rewinds_to_the_level_start() {
    let mut p = player_with(4, 3, 2);
    let score = Score(700);
    let stars = Stars(2);
    let c = enter_level(&mut p, (5, 6), &score, &stars);
    assert_eq!((p.x, p.y), (5, 6));
    let mut score = Score(9000);
    let mut stars = Stars(9);
    p.health = 1;
    p.bombs = 0;
    p.hurt_cooldown = 7;
    p.x = 40;
    restart_level(&mut p, (5, 6), &c, &mut score, &mut stars);
    assert_eq!((p.x, p.y, p.health, p.bombs, p.hurt_cooldown), (5, 6, 4, 2, 0));
    assert_eq!((score.0, stars.0), (700, 2));
}
