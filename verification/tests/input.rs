use opencosmo_game::input::{
    all_actions, first_pressed, AxisSign, PadAxis, button_label, first_free_key, is_reserved, key_label, merge, Action, Binding, Bindings,
    InputAccumulator, Key, PadButton, CONTROLS_VALUE_WIDTH,
};
use opencosmo_game::player::PlayerInput;

#[test]
fn the_defaults_are_the_originals_plus_modern_alternatives() {
    let b = Bindings::default();
    assert!(b.get(Action::Jump).contains(&Binding::Key(Key::ControlLeft)));
    assert!(b.get(Action::Bomb).contains(&Binding::Key(Key::AltLeft)));
    assert!(b.get(Action::Jump).contains(&Binding::Key(Key::Space)));
    assert!(!b.get(Action::Bomb).contains(&Binding::Key(Key::ControlLeft)));
}

#[test]
fn every_action_has_a_keyboard_and_a_gamepad_binding_out_of_the_box() {
    let b = Bindings::default();
    for action in all_actions() {
        let list = b.get(action);
        assert!(list.iter().any(|x| matches!(x, Binding::Key(_))), "{action:?} has no key");
        assert!(
            list.iter().any(|x| matches!(x, Binding::Button(_) | Binding::Axis(..))),
            "{action:?} has no pad binding"
        );
    }
}

#[test]
fn rebinding_takes_the_key_away_from_whoever_had_it() {
    let mut b = Bindings::default();
    b.rebind(Action::Bomb, Binding::Key(Key::Space));
    assert_eq!(b.get(Action::Bomb), [Binding::Key(Key::Space)]);
    assert!(!b.get(Action::Jump).contains(&Binding::Key(Key::Space)), "two actions must not share one binding");
    assert!(b.get(Action::Jump).contains(&Binding::Key(Key::ControlLeft)));
}

#[test]
fn a_tap_between_ticks_is_not_dropped() {
    let mut accum = InputAccumulator::new();
    let tap = PlayerInput { jump: true, ..Default::default() };
    merge(&mut accum.pending, &tap);
    accum.latest = tap;
    merge(&mut accum.pending, &PlayerInput::default());
    accum.latest = PlayerInput::default();

    assert!(accum.take().jump, "the tap must survive to the tick");
    assert!(!accum.take().jump, "and must not repeat on the next one");
}

#[test]
fn a_held_key_stays_held_across_ticks() {
    let mut accum = InputAccumulator::new();
    let held = PlayerInput { west: true, ..Default::default() };
    for _ in 0..3 {
        accum.record(held);
        assert!(accum.take().west);
    }
}

#[test]
fn key_labels_are_short_enough_for_the_config_screen() {
    assert_eq!(key_label(Key::KeyA), "A");
    assert_eq!(key_label(Key::Digit1), "1");
    assert_eq!(key_label(Key::Numpad4), "Num4");
    assert_eq!(key_label(Key::ControlLeft), "LCtrl");
}

#[test]
fn every_default_summary_fits_the_controls_screen() {
    let b = Bindings::default();
    for action in all_actions() {
        let summary = b.summary(action);
        assert!(
            summary.chars().count() <= CONTROLS_VALUE_WIDTH,
            "{action:?} renders as {summary:?} ({} chars), over the {CONTROLS_VALUE_WIDTH} available",
            summary.chars().count()
        );
    }
}

#[test]
fn a_summary_names_one_control_per_device() {
    let b = Bindings::default();
    assert_eq!(b.summary(Action::Jump), "Space, Pad Dn");
    assert!(b.get(Action::Jump).len() > 2);
}

#[test]
fn an_action_with_nothing_bound_says_so_rather_than_rendering_blank() {
    let mut b = Bindings::default();
    for (_, list) in b.entries.iter_mut() {
        list.clear();
    }
    assert_eq!(b.summary(Action::Jump), "-none-");
}

#[test]
fn rebinding_a_pad_button_replaces_the_actions_list() {
    let mut b = Bindings::default();
    b.rebind(Action::Jump, Binding::Button(PadButton::North));
    assert_eq!(b.get(Action::Jump), [Binding::Button(PadButton::North)]);
    assert_eq!(b.get(Action::West), Bindings::default().get(Action::West));
}

#[test]
fn a_held_binding_presses_its_action() {
    let b = Bindings::default();
    assert!(b.is_pressed(Action::West, &vec![Binding::Key(Key::KeyA)]));
    assert!(!b.is_pressed(Action::West, &vec![Binding::Key(Key::KeyD)]));
    assert!(!b.is_pressed(Action::West, &vec![]));
}

#[test]
fn the_screens_own_keys_cannot_be_bound() {
    assert!(is_reserved(Key::Escape));
    assert!(is_reserved(Key::KeyR));
    assert!(!is_reserved(Key::KeyK));
    assert_eq!(first_free_key(&vec![Key::Digit2, Key::KeyK, Key::KeyL]), Some(Key::KeyK));
    assert_eq!(first_free_key(&vec![Key::Escape]), None);
    assert_eq!(button_label(PadButton::South), "Pad Dn");
    assert_eq!(Binding::Key(Key::Space).label(), "Space");
    assert!(Binding::Key(Key::Space).is_key());
    assert!(!Binding::Button(PadButton::South).is_key());
}

#[test]
fn the_rebinding_screen_takes_the_first_free_control() {
    // A free key wins over everything on a pad.
    let pads = vec![(Some(PadButton::East), [None; 4])];
    assert_eq!(first_pressed(&vec![Key::Escape, Key::KeyJ], &pads), Some(Binding::Key(Key::KeyJ)));
    // Only the screen's own keys: the pad's button.
    assert_eq!(first_pressed(&vec![Key::Digit3], &pads), Some(Binding::Button(PadButton::East)));
    // No button: the first stick pushed, in stick order.
    let pushed = vec![
        (None, [None; 4]),
        (None, [None, Some(AxisSign::Negative), Some(AxisSign::Positive), None]),
    ];
    assert_eq!(
        first_pressed(&vec![], &pushed),
        Some(Binding::Axis(PadAxis::LeftStickY, AxisSign::Negative))
    );
    assert_eq!(first_pressed(&vec![], &vec![(None, [None; 4])]), None);
}

#[test]
fn a_tick_collects_every_sample_since_the_last_one() {
    let mut accum = InputAccumulator::new();
    let tap_jump = PlayerInput { jump: true, ..Default::default() };
    let hold_west = PlayerInput { west: true, ..Default::default() };
    let both = PlayerInput { west: true, bomb: true, ..Default::default() };
    accum.record(tap_jump);
    accum.record(hold_west);
    accum.record(both);
    let got = accum.take();
    assert!(got.jump && got.west && got.bomb && !got.east);
    // Nothing sampled since: the latest state only.
    assert_eq!(accum.take(), both);
}
