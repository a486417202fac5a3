use opencosmo_game::cheats::{
    cheat_chord_held, cheat_input, close_cheat_message, debug_chord_held, CheatState, CHEAT_BOMBS,
    CHEAT_HEALTH, CHEAT_HEALTH_CELLS,
};
use opencosmo_game::input::Key;
use opencosmo_game::player::Player;

fn held(pressed: &[Key]) -> Vec<Key> {
    pressed.to_vec()
}

#[test]
fn the_cheat_needs_all_three_keys_at_once() {
    assert!(cheat_chord_held(&held(&[Key::KeyC, Key::Digit0, Key::F10])));
    // Any two of them is not the code.
    assert!(!cheat_chord_held(&held(&[Key::KeyC, Key::Digit0])));
    assert!(!cheat_chord_held(&held(&[Key::KeyC, Key::F10])));
    assert!(!cheat_chord_held(&held(&[Key::Digit0, Key::F10])));
    assert!(!cheat_chord_held(&held(&[])));
}

#[test]
fn the_debug_chord_is_a_different_three() {
    assert!(debug_chord_held(&held(&[Key::Tab, Key::F12, Key::Delete])));
    assert!(!debug_chord_held(&held(&[Key::Tab, Key::F12])));
    // ...and the two chords cannot be confused for each other.
    assert!(!debug_chord_held(&held(&[Key::KeyC, Key::Digit0, Key::F10])));
    assert!(!cheat_chord_held(&held(&[Key::Tab, Key::F12, Key::Delete])));
}

#[test]
fn the_awards_are_the_ones_the_game_gives() {
    assert_eq!(CHEAT_HEALTH_CELLS, 5);
    assert_eq!(CHEAT_BOMBS, 9);
    assert_eq!(CHEAT_HEALTH, 6);
}

#[test]
fn the_cheat_fires_once_per_game() {
    let mut state = CheatState { used: false, debug: false, latched_cheat: false, latched_debug: false };
    let mut player = Player::spawn_at(4, 10);
    player.health = 1;
    player.bombs = 0;
    let mut sounds = Vec::new();
    let chord = held(&[Key::KeyC, Key::Digit0, Key::F10]);
    assert!(cheat_input(&mut state, &chord, &mut player, &mut sounds));
    assert_eq!((player.health_cells, player.bombs, player.health), (5, 9, 6));
    assert_eq!(sounds.len(), 1);
    assert!(state.used);
    // Still held: the message stays open and nothing fires again.
    assert!(!close_cheat_message(true, &chord, true));
    assert!(!cheat_input(&mut state, &chord, &mut player, &mut sounds));
    // Released, then pressed again: used up.
    assert!(!cheat_input(&mut state, &held(&[]), &mut player, &mut sounds));
    assert!(close_cheat_message(true, &held(&[]), true));
    assert!(!cheat_input(&mut state, &chord, &mut player, &mut sounds));
    assert_eq!(sounds.len(), 1);
}

#[test]
fn the_debug_chord_toggles_on_each_fresh_press() {
    let mut state = CheatState { used: false, debug: false, latched_cheat: false, latched_debug: false };
    let mut player = Player::spawn_at(4, 10);
    let mut sounds = Vec::new();
    let chord = held(&[Key::Tab, Key::F12, Key::Delete]);
    assert!(!cheat_input(&mut state, &chord, &mut player, &mut sounds));
    assert!(state.debug);
    cheat_input(&mut state, &chord, &mut player, &mut sounds);
    assert!(state.debug, "holding it does not toggle again");
    cheat_input(&mut state, &held(&[]), &mut player, &mut sounds);
    cheat_input(&mut state, &chord, &mut player, &mut sounds);
    assert!(!state.debug);
    assert_eq!(sounds.len(), 2);
}
