use opencosmo_game::hints::{
    detect_hint_globe, hint_frame, hint_number_for_actor, one_shot_frame, read_hint_globe, touching_player, Hint,
    HintGlobe, PounceHint, SeenHints,
};
use opencosmo_game::player::Player;

#[test]
fn each_hint_fires_once_and_only_once() {
    let mut s = SeenHints::default();
    assert_eq!(s.on_bomb_refused(), Some(Hint::Bomb));
    assert_eq!(s.on_bomb_refused(), None, "not a second time");
    assert_eq!(s.on_power_up(), Some(Hint::Health));
    assert_eq!(s.on_power_up(), None);
}

#[test]
fn the_pounce_reminder_is_queued_by_a_hit_not_shown_by_it() {
    let mut s = SeenHints::default();
    s.on_first_hurt();
    assert_eq!(s.pounce, PounceHint::Queued);
    assert_eq!(s.take_queued_pounce(), Some(Hint::Pounce));
    assert_eq!(s.take_queued_pounce(), None, "drained");
}

#[test]
fn a_player_who_has_pounced_is_never_reminded() {
    let mut s = SeenHints::default();
    s.on_pounce();
    s.on_first_hurt();
    assert_eq!(s.pounce, PounceHint::Seen);
    assert_eq!(s.take_queued_pounce(), None);
}

#[test]
fn every_hint_has_something_to_say() {
    for hint in [Hint::Bomb, Hint::Pounce, Hint::Health] {
        let (_, _, lines) = hint.lines();
        assert!(!lines.is_empty(), "{hint:?} would open an empty frame");
        assert!(lines.iter().all(|l| l.len() <= 26), "{hint:?} overflows the frame");
    }
}

#[test]
fn every_hint_globe_actor_id_maps_to_a_hint() {
    let mut seen: Vec<u16> = (125..=125)
        .chain(204..=212)
        .chain(238..=243)
        .chain(253..=262)
        .filter_map(hint_number_for_actor)
        .collect();
    seen.sort_unstable();
    assert_eq!(seen, (0..=25).collect::<Vec<_>>());
}

#[test]
fn ordinary_actors_are_not_hint_globes() {
    assert_eq!(hint_number_for_actor(126), None);
    assert_eq!(hint_number_for_actor(203), None);
    assert_eq!(hint_number_for_actor(213), None);
}

#[test]
fn touching_needs_actual_overlap() {
    let mut player = Player::spawn_at(10, 10);
    assert!(touching_player(&player, 10, 10, 3, 3));
    assert!(!touching_player(&player, 40, 10, 3, 3));
    assert!(!touching_player(&player, 10, 2, 3, 3));
    player.dead_timer = 1;
    assert!(!touching_player(&player, 10, 10, 3, 3));
}

#[test]
fn no_hint_body_collides_with_the_frames_footer() {
    for episode in 1..=3u8 {
        for hint in 0..=25u16 {
            let f = hint_frame(episode, hint);
            let footer_row = f.top + f.height - 2;
            let title_row = f.top + 1;
            for (_, row, text) in f.lines_for_test() {
                assert_ne!(*row, footer_row, "ep{episode} hint {hint}: {text:?} lands on the footer row");
                assert_ne!(*row, title_row, "ep{episode} hint {hint}: {text:?} on the title");
                assert!(
                    *row > f.top && *row < f.top + f.height - 1,
                    "ep{episode} hint {hint}: {text:?} is outside the frame"
                );
            }
        }
    }
}

#[test]
fn hint_text_avoids_the_fonts_broken_slash_glyph() {
    for episode in 1..=3u8 {
        for hint in 0..=25u16 {
            for (_, _, text) in hint_frame(episode, hint).lines_for_test() {
                assert!(!text.contains('/'), "ep{episode} hint {hint}: {text:?}");
            }
        }
    }
}

#[test]
fn each_episode_gets_its_own_text_for_the_same_hint_number() {
    let ep1 = hint_frame(1, 5);
    let ep2 = hint_frame(2, 5);
    assert_ne!(format!("{:?}", ep1.width), String::new());
    assert_ne!(ep1.height, 0);
    assert_ne!(ep2.height, 0);
    assert_eq!(hint_frame(1, 18).width, 30, "the long hint gets the wider frame");
    assert_eq!(hint_frame(1, 5).width, 28);
}

#[test]
fn the_first_globe_opens_by_itself_and_later_ones_need_asking() {
    let mut latch = false;
    let mut saw_auto = false;
    assert_eq!(read_hint_globe(Some(3), false, false, &mut latch, &mut saw_auto), Some(3));
    assert!(saw_auto);
    assert_eq!(read_hint_globe(Some(4), false, false, &mut latch, &mut saw_auto), None);
    assert_eq!(read_hint_globe(Some(4), true, false, &mut latch, &mut saw_auto), Some(4));
    // Still held: it does not re-open what was just dismissed.
    assert_eq!(read_hint_globe(Some(4), true, false, &mut latch, &mut saw_auto), None);
    // Paused: nothing opens.
    assert_eq!(read_hint_globe(Some(4), false, true, &mut latch, &mut saw_auto), None);
    assert_eq!(read_hint_globe(Some(4), true, false, &mut latch, &mut saw_auto), Some(4));
}

#[test]
fn the_globe_the_player_stands_against_is_found() {
    let player = Player::spawn_at(10, 10);
    let far = HintGlobe { x: 30, y: 10, width_tiles: 3, height_tiles: 3, hint: 1 };
    let near = HintGlobe { x: 10, y: 10, width_tiles: 3, height_tiles: 3, hint: 7 };
    assert_eq!(detect_hint_globe(&player, &vec![far, near]), Some(7));
    assert_eq!(detect_hint_globe(&player, &vec![far]), None);
}

#[test]
fn a_one_shot_frame_fits_its_lines() {
    let f = one_shot_frame(Hint::Health);
    assert_eq!((f.top, f.width, f.height), (2, 28, 5));
    assert_eq!(f.lines_for_test()[2], (7, 5, " health.".to_string()));
}
