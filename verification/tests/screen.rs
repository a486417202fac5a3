use opencosmo_game::input::Key;
use opencosmo_game::screen::{
    episode_frame, episodes_input, font_tile_for_char, menu_choice, open_menu_action, EpisodeKey,
    GameState, MenuAction, PageStep, TextPages,
};
use opencosmo_game::textpages::{bbs, instructions, ordering, story};

#[test]
fn every_sequence_has_pages_with_something_on_them() {
    for (name, seq) in [
        ("story", story()),
        ("instructions", instructions()),
        ("ordering", ordering()),
        ("bbs", bbs()),
    ] {
        assert!(!seq.is_empty(), "{name} has no pages");
        for (i, page) in seq.iter().enumerate() {
            assert!(!page.lines.is_empty(), "{name} page {i} is blank");
            assert!(page.width > 0 && page.height > 0, "{name} page {i}");
        }
    }
}

#[test]
fn no_page_still_carries_a_sprite_glyph() {
    for seq in [story(), instructions(), ordering(), bbs()] {
        for page in seq {
            for (_, _, text) in page.lines {
                assert!(!text.contains("\\x"), "a glyph escape survived transcription: {text:?}");
            }
        }
    }
}

#[test]
fn paging_stops_at_the_end_rather_than_running_off_it() {
    let mut p = TextPages::default();
    let n = bbs().len();
    p.set(bbs());
    assert_eq!(p.index, 0);
    for i in 1..n {
        assert!(p.next_page(), "should reach page {i}");
        assert_eq!(p.index, i);
    }
    assert!(!p.next_page(), "the last page reports there is no next");
    assert_eq!(p.index, n - 1, "and does not step past it");
}

#[test]
fn paging_back_stops_at_the_first_page() {
    let mut p = TextPages::default();
    p.set(story());
    p.next_page();
    p.prev_page();
    assert_eq!(p.index, 0);
    p.prev_page();
    assert_eq!(p.index, 0, "and does not underflow");
}

#[test]
fn switching_sequences_starts_at_the_beginning() {
    let mut p = TextPages::default();
    p.set(ordering());
    p.next_page();
    p.set(bbs());
    assert_eq!(p.index, 0);
}

#[test]
fn keys_on_a_page_step_and_leave() {
    let mut p = TextPages::default();
    assert_eq!(p.on_key(false, false, true), PageStep::Redraw);
    assert_eq!(p.index, 1);
    assert_eq!(p.on_key(false, true, false), PageStep::Redraw);
    assert_eq!(p.index, 0);
    assert_eq!(p.on_key(false, false, false), PageStep::Stay);
    assert_eq!(p.on_key(true, false, true), PageStep::ToMenu);
    assert_eq!(p.index, 0);
    let f = p.page_frame().expect("a page is open");
    assert_eq!(f.width, story()[0].width);
}

#[test]
fn menu_entries_open_their_screens() {
    let mut p = TextPages::default();
    assert_eq!(open_menu_action(MenuAction::Bbs, &mut p), Some(GameState::TextPages));
    assert_eq!(p.pages.len(), bbs().len());
    assert_eq!(open_menu_action(MenuAction::Begin, &mut p), Some(GameState::Playing));
    assert_eq!(open_menu_action(MenuAction::Quit, &mut p), None);
    assert_eq!(menu_choice(&vec![Key::KeyB]), Some(MenuAction::Begin));
    assert_eq!(menu_choice(&vec![Key::KeyQ]), Some(MenuAction::Quit));
}

#[test]
fn the_episode_chooser_marks_the_current_one() {
    let f = episode_frame(2);
    let lines: Vec<String> = f.lines_for_test().iter().map(|l| l.2.clone()).collect();
    assert_eq!(lines, vec!["  1) Forbidden Planet", "> 2) Mad Scientist", "  3) Secret Sanctum"]);
    assert_eq!(episodes_input(&vec![Key::Digit3]), EpisodeKey::Pick(3));
    assert_eq!(episodes_input(&vec![Key::Escape]), EpisodeKey::Back);
    assert_eq!(episodes_input(&vec![Key::KeyZ]), EpisodeKey::Nothing);
}

#[test]
fn the_font_covers_letters_and_digits() {
    assert_eq!(font_tile_for_char('A'), Some(43));
    assert_eq!(font_tile_for_char('a'), Some(69));
    assert_eq!(font_tile_for_char('~'), None);
    assert!(font_tile_for_char('7').is_some());
}
