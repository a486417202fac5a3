use opencosmo_game::highscores::{
    decimal_string, key_char, name_prompt, table_frame, table_input, HighScore, HighScores, NameStep,
    PendingEntry, TableMode, TableStep, MAX_NAME, TABLE_SIZE,
};
use opencosmo_game::input::Key;

#[test]
fn the_default_table_is_the_one_the_game_ships() {
    let h = HighScores::default();
    assert_eq!(h.entries.len(), TABLE_SIZE);
    assert_eq!(h.entries[0].name, "BART");
    assert_eq!(h.entries[0].score, 1_000_000);
    assert_eq!(h.entries[8].name, "HOMER");
    assert_eq!(h.entries[9].score, 0);
    assert!(h.entries[9].name.is_empty());
}

#[test]
fn the_table_is_in_descending_order() {
    let h = HighScores::default();
    assert!(h.entries.windows(2).all(|w| w[0].score >= w[1].score));
}

#[test]
fn a_score_lands_where_it_beats_someone() {
    let h = HighScores::default();
    assert_eq!(h.rank_for(2_000_000), Some(0), "beating everyone is first");
    assert_eq!(h.rank_for(950_000), Some(1), "between Bart and Lisa");
    assert_eq!(h.rank_for(850_000), Some(2), "between Lisa and Marge");
    assert_eq!(h.rank_for(1), Some(9), "anything beats the empty slot");
    assert_eq!(h.rank_for(0), None, "and nothing beats nothing");
}

#[test]
fn an_equal_score_does_not_displace_the_holder() {
    let h = HighScores::default();
    assert_eq!(h.rank_for(1_000_000), Some(1));
}

#[test]
fn inserting_pushes_the_rest_down_and_drops_the_last() {
    let mut h = HighScores::default();
    let rank = h.rank_for(950_000).unwrap();
    h.insert_at(rank, "NISSE", 950_000);
    assert_eq!(h.entries.len(), TABLE_SIZE, "the table never grows");
    assert_eq!(h.entries[0].name, "BART");
    assert_eq!(h.entries[1].name, "NISSE");
    assert_eq!(h.entries[2].name, "LISA");
    assert_eq!(h.entries[9].name, "HOMER", "Homer moved down, nobody lost");
}

#[test]
fn a_long_name_is_cut_rather_than_overflowing_the_frame() {
    let mut h = HighScores::default();
    h.insert_at(0, "ABCDEFGHIJKLMNOPQRSTUVWXYZ", 9_999_999);
    assert_eq!(h.entries[0].name.chars().count(), MAX_NAME);
}

#[test]
fn erasing_clears_every_slot() {
    let mut h = HighScores::default();
    h.erase();
    assert_eq!(h.entries.len(), TABLE_SIZE);
    assert!(h.entries.iter().all(|e| e.score == 0 && e.name.is_empty()));
    assert_eq!(h.rank_for(1), Some(0), "and the table is open again");
}

#[test]
fn the_name_prompt_takes_the_characters_a_name_needs() {
    assert_eq!(key_char(Key::KeyA), Some('A'));
    assert_eq!(key_char(Key::Digit7), Some('7'));
    assert_eq!(key_char(Key::Space), Some(' '));
    assert_eq!(key_char(Key::Period), Some('.'));
    assert!("MR. BURNS".chars().all(|c| c == ' ' || c == '.' || ('A'..='Z').contains(&c)));
    assert_eq!(key_char(Key::F10), None, "not every key is a letter");
}

#[test]
fn a_short_table_read_back_is_replaced_by_the_shipped_one() {
    let mut h = HighScores::default();
    h.insert_at(0, "NISSE", 1_234_567);
    let kept = HighScores::accept_loaded(Some(h.clone()));
    assert_eq!(kept.entries[0].name, "NISSE");
    let short = HighScores { entries: vec![HighScore { name: "X".to_string(), score: 5 }] };
    let replaced = HighScores::accept_loaded(Some(short));
    assert_eq!(replaced.entries[0].name, "BART");
    assert_eq!(HighScores::accept_loaded(None).entries.len(), TABLE_SIZE);
}

#[test]
fn typing_a_name_then_enter_puts_it_in_the_table() {
    let mut h = HighScores::default();
    let mut p = PendingEntry::check(&h, 950_000);
    assert_eq!(p.rank, Some(1));
    assert_eq!(p.on_keys(&vec![Key::KeyN, Key::KeyE, Key::KeyD], &mut h), NameStep::Changed);
    assert_eq!(p.name, "NED");
    assert_eq!(p.on_keys(&vec![Key::Backspace], &mut h), NameStep::Changed);
    assert_eq!(p.name, "NE");
    assert_eq!(p.on_keys(&vec![Key::F10], &mut h), NameStep::Nothing);
    assert_eq!(p.on_keys(&vec![Key::Enter], &mut h), NameStep::Committed);
    assert_eq!(h.entries[1].name, "NE");
    assert_eq!(h.entries[1].score, 950_000);
    assert_eq!(p.rank, None);
    // A score that made nothing opens no prompt.
    let none = PendingEntry::check(&h, 0);
    assert_eq!(none.rank, None);
}

#[test]
fn the_prompt_shows_what_was_typed() {
    let f = name_prompt(None);
    assert_eq!(f.lines_for_test()[0].2, "Enter your name:");
    let f = name_prompt(Some("NED"));
    assert_eq!(f.lines_for_test()[0].2, "Enter your name: NED");
}

#[test]
fn numbers_are_written_in_decimal() {
    assert_eq!(decimal_string(0), "0");
    assert_eq!(decimal_string(7), "7");
    assert_eq!(decimal_string(1_000_000), "1000000");
    assert_eq!(decimal_string(u32::MAX), "4294967295");
}

#[test]
fn the_hall_of_fame_lines_up_its_columns() {
    let h = HighScores::default();
    let f = table_frame(&h, TableMode::Table);
    let lines = f.lines_for_test();
    assert_eq!(lines.len(), 3 * TABLE_SIZE + 1);
    assert_eq!(lines[0], (7, 5, " 1.".to_string()));
    assert_eq!(lines[1], (11, 5, "1000000".to_string()));
    assert_eq!(lines[2], (19, 5, "BART".to_string()));
    assert_eq!(lines[27].2, "10.");
    let confirm = table_frame(&h, TableMode::ConfirmErase);
    assert_eq!(confirm.lines_for_test()[0].2, "  Y / N");
}

#[test]
fn f10_then_y_erases_the_table() {
    let mut h = HighScores::default();
    let mut mode = TableMode::Table;
    assert_eq!(table_input(&mut mode, &vec![], &mut h), TableStep::Nothing);
    assert_eq!(table_input(&mut mode, &vec![Key::F10], &mut h), TableStep::Redraw);
    assert_eq!(mode, TableMode::ConfirmErase);
    assert_eq!(table_input(&mut mode, &vec![Key::KeyN], &mut h), TableStep::Redraw);
    assert_eq!(h.entries[0].name, "BART");
    assert_eq!(table_input(&mut mode, &vec![Key::F10], &mut h), TableStep::Redraw);
    assert_eq!(table_input(&mut mode, &vec![Key::KeyY], &mut h), TableStep::Erased);
    assert!(h.entries.iter().all(|e| e.score == 0));
    assert_eq!(table_input(&mut mode, &vec![Key::KeyQ], &mut h), TableStep::ToMenu);
}
