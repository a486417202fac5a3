use opencosmo_game::controls_screen::{controls_input, frame, ControlsStep, VALUE_COLUMN};
use opencosmo_game::input::{all_actions, Action, Binding, Bindings, Key, CONTROLS_VALUE_WIDTH};

#[test]
fn every_action_gets_a_numbered_row() {
    let f = frame(&Bindings::default(), None);
    // Six actions on rows 6..11.
    assert_eq!(all_actions().len(), 6);
    assert_eq!(f.top, 3);
    assert!(f.height >= 6 + 6, "frame too short for six rows plus footer");
}

#[test]
fn the_value_column_leaves_room_for_the_widest_binding() {
    let f = frame(&Bindings::default(), None);
    let available = (f.left() + f.width - 1) - (f.text_x() + VALUE_COLUMN);
    assert!(
        available as usize >= CONTROLS_VALUE_WIDTH,
        "value column has {available} tiles, needs {}",
        CONTROLS_VALUE_WIDTH
    );
}

#[test]
fn no_row_of_the_frame_overflows_its_border() {
    let bindings = Bindings::default();
    let f = frame(&bindings, None);
    let right = f.left() + f.width - 1;
    for (x, row, text) in f.lines_for_test() {
        assert!(
            x + text.chars().count() as i32 <= right,
            "row {row} ({text:?}) runs past the frame's right edge"
        );
    }
}

#[test]
fn the_pending_action_is_shown_as_waiting_rather_than_its_old_value() {
    let bindings = Bindings::default();
    let normal = format!("{:?}", frame(&bindings, None).lines_for_test());
    let waiting = format!("{:?}", frame(&bindings, Some(Action::Jump)).lines_for_test());
    assert!(waiting.contains("???"));
    assert!(!normal.contains("???"));
}

#[test]
fn a_digit_picks_the_row_and_the_next_control_is_bound() {
    let mut bindings = Bindings::default();
    let mut rebinding = None;
    let step = controls_input(&mut bindings, &mut rebinding, &vec![Key::Digit5], None);
    assert_eq!(step, ControlsStep::Redraw);
    assert_eq!(rebinding, Some(all_actions()[4]));
    let step = controls_input(&mut bindings, &mut rebinding, &vec![], Some(Binding::Key(Key::KeyK)));
    assert_eq!(step, ControlsStep::SaveAndRedraw);
    assert_eq!(rebinding, None);
    assert!(bindings.get(all_actions()[4]).contains(&Binding::Key(Key::KeyK)));
}

#[test]
fn escape_gives_up_a_rebind_and_then_leaves() {
    let mut bindings = Bindings::default();
    let mut rebinding = Some(Action::Jump);
    assert_eq!(
        controls_input(&mut bindings, &mut rebinding, &vec![Key::Escape], None),
        ControlsStep::Redraw
    );
    assert_eq!(rebinding, None);
    assert_eq!(
        controls_input(&mut bindings, &mut rebinding, &vec![Key::Escape], None),
        ControlsStep::ToMenu
    );
    assert_eq!(
        controls_input(&mut bindings, &mut rebinding, &vec![Key::KeyR], None),
        ControlsStep::SaveAndRedraw
    );
    assert_eq!(
        controls_input(&mut bindings, &mut rebinding, &vec![Key::KeyQ], None),
        ControlsStep::Nothing
    );
}
