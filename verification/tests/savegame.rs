use opencosmo_game::flow::{Checkpoint, LevelSequence, Score, Stars};
use opencosmo_game::player::Player;
use opencosmo_game::input::Key;
use opencosmo_game::savegame::{apply_restored_game, prompt_frame, slot_file_name, slot_prompt_input, SaveGame, SlotKey, SlotPrompt};

fn sample() -> SaveGame {
    SaveGame { health: 3, score: 123_456, stars: 17, level: 5, bombs: 2, health_cells: 4, used_cheat: false }
}

fn get_u16(b: &[u8], at: usize) -> Option<u16> {
    if at + 2 > b.len() {
        return None;
    }
    Some(u16::from_le_bytes([b[at], b[at + 1]]))
}

#[test]
fn a_save_round_trips() {
    let s = sample();
    assert_eq!(SaveGame::from_bytes(&s.to_bytes()), Some(s));
}

#[test]
fn the_record_is_the_size_the_original_writes() {
    assert_eq!(sample().to_bytes().len(), 24);
}

#[test]
fn the_fields_sit_where_the_original_put_them() {
    let b = sample().to_bytes();
    assert_eq!(&b[0..2], &3u16.to_le_bytes(), "health first");
    assert_eq!(&b[2..6], &123_456u32.to_le_bytes(), "then the 32-bit score");
    assert_eq!(&b[6..8], &17u16.to_le_bytes(), "stars");
    assert_eq!(&b[8..10], &5u16.to_le_bytes(), "level");
}

#[test]
fn saving_marks_the_hints_as_already_seen() {
    let b = sample().to_bytes();
    assert_eq!(get_u16(&b, 16), Some(1), "bomb hint seen");
    assert_eq!(get_u16(&b, 18), Some(2), "POUNCE_HINT_SEEN");
}

#[test]
fn a_corrupt_save_is_refused() {
    let mut b = sample().to_bytes();
    b[8] ^= 0xFF;
    assert_eq!(SaveGame::from_bytes(&b), None);
}

#[test]
fn a_truncated_save_is_refused_rather_than_panicking() {
    let b = sample().to_bytes();
    for len in 0..b.len() {
        assert_eq!(SaveGame::from_bytes(&b[..len]), None, "len {len}");
    }
}

#[test]
fn the_checksum_ignores_the_score() {
    let a = sample();
    let mut b = sample();
    b.score = 999_999;
    assert_eq!(a.checksum(), b.checksum());
    assert_eq!(a.checksum(), 3 + 17 + 5 + 2 + 4);
    assert_eq!(get_u16(&a.to_bytes(), 22), Some(31));
}

#[test]
fn the_filename_matches_the_originals() {
    assert_eq!(slot_file_name(2, 7), "COSMO2.SV7");
}

#[test]
fn a_slot_is_written_from_the_level_entry_checkpoint() {
    let cp = Checkpoint { score: 5000, stars: 70_000, health: -1, health_cells: 4, bombs: 3 };
    let s = SaveGame::from_checkpoint(&cp, 9, true);
    assert_eq!(s, SaveGame { health: 0, score: 5000, stars: 70_000u32 as u16, level: 9, bombs: 3, health_cells: 4, used_cheat: true });
    let back = SaveGame::from_bytes(&s.to_bytes()).unwrap();
    assert!(back.used_cheat);
}

#[test]
fn the_slot_prompts_pick_a_number_or_close() {
    assert!(prompt_frame(SlotPrompt::Closed).is_none());
    assert_eq!(prompt_frame(SlotPrompt::Save).unwrap().title, "Save a game.");
    assert_eq!(slot_prompt_input(SlotPrompt::Save, &vec![Key::Digit4]), SlotKey::Save(4));
    assert_eq!(slot_prompt_input(SlotPrompt::Restore, &vec![Key::Digit9]), SlotKey::Restore(9));
    assert_eq!(slot_prompt_input(SlotPrompt::Restore, &vec![Key::Digit0]), SlotKey::Nothing);
    assert_eq!(slot_prompt_input(SlotPrompt::Save, &vec![Key::Escape, Key::Digit1]), SlotKey::Close);
    assert_eq!(slot_prompt_input(SlotPrompt::NotFound, &vec![Key::KeyX]), SlotKey::Close);
    assert_eq!(slot_prompt_input(SlotPrompt::Closed, &vec![Key::Digit1]), SlotKey::Nothing);
}

#[test]
fn a_restored_game_takes_the_saved_counters_and_level() {
    let save = sample();
    let mut score = Score(9);
    let mut stars = Stars(9);
    let mut cp = Checkpoint { score: 0, stars: 0, health: 1, health_cells: 1, bombs: 0 };
    let mut seq = LevelSequence { order: (0..12).map(|i| format!("L{i}")).collect(), index: 0 };
    let mut p = Player::spawn_at(7, 8);
    apply_restored_game(&save, &mut score, &mut stars, &mut cp, &mut seq, &mut p);
    assert_eq!((score.0, stars.0), (123_456, 17));
    assert_eq!(cp, Checkpoint { score: 123_456, stars: 17, health: 3, health_cells: 4, bombs: 2 });
    assert_eq!((p.health, p.health_cells, p.bombs, p.x), (3, 4, 2, 7));
    assert_eq!(seq.index, 5);
    assert_eq!(seq.current(), "L5");
    // A level past the end of the order lands on the last one.
    let far = SaveGame { level: 40, ..sample() };
    apply_restored_game(&far, &mut score, &mut stars, &mut cp, &mut seq, &mut p);
    assert_eq!(seq.index, 11);
}

#[test]
fn slot_file_names_take_any_episode_and_slot() {
    assert_eq!(slot_file_name(1, 0), "COSMO1.SV0");
    assert_eq!(slot_file_name(12, 255), "COSMO12.SV255");
}
