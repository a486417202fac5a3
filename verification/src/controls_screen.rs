//! The controls screen, reached from the main menu: a numbered list of the
//! six actions with their current bindings to the right; pick a number to
//! change one, R to restore the defaults, Escape to leave. A binding can
//! be a key, a pad button or a stick direction, and rebinding takes
//! whatever is pressed next.
use vstd::prelude::*;
use vstd::string::StringExecFns;
use crate::input::{action_label, all_actions, default_bindings, lookup, rebound, summary_spec, Action, Binding, Bindings, Key};
use crate::panel::{frame_left, TextFrame};
use crate::screen::pressed;

verus! {

/// The frame's width, wide enough for gamepad names beside keyboard ones.
pub const FRAME_WIDTH: i32 = 34;

/// Where a binding is drawn, relative to the frame's text column.
pub const VALUE_COLUMN: i32 = 16;

/// The six actions in order.
pub open spec fn actions() -> Seq<Action> {
    seq![Action::North, Action::South, Action::West, Action::East, Action::Jump, Action::Bomb]
}

/// The digit character for `1..=6`.
pub open spec fn row_digit(n: int) -> char {
    if n == 1 { '1' } else if n == 2 { '2' } else if n == 3 { '3' } else if n == 4 { '4' } else if n == 5 { '5' } else { '6' }
}

/// An action's row label: ` #n) Label is:`.
pub open spec fn row_label(i: int) -> Seq<char> {
    " #"@ + seq![row_digit(i + 1)] + ") "@ + action_label(actions()[i]) + " is:"@
}

/// The lines of the frame: for each action its label, then its binding
/// summary (or `???` while it waits for a new one), then the footer.
pub open spec fn controls_lines(v: Seq<(Action, Seq<Binding>)>, rebinding: Option<Action>) -> Seq<(int, int, Seq<char>)> {
    let x = frame_left(FRAME_WIDTH as int) + 1;
    let rows = Seq::new(12, |k: int| {
        let i = k / 2;
        if k % 2 == 0 {
            (x, 6 + i, row_label(i))
        } else {
            (x + VALUE_COLUMN, 6 + i, if rebinding == Some(actions()[i]) { "???"@ } else { summary_spec(lookup(v, actions()[i], 0)) })
        }
    });
    rows + if rebinding is Some {
        seq![(x, 14int, "Press the new control"@)]
    } else {
        seq![(x, 14int, "Select # to change,"@), (x, 15int, "R) restore defaults"@)]
    }
}

fn digit_text(n: usize) -> (r: &'static str)
    requires
        1 <= n <= 6,
    ensures
        r@ == seq![row_digit(n as int)],
{
    proof {
        reveal_strlit("1"); reveal_strlit("2"); reveal_strlit("3"); reveal_strlit("4"); reveal_strlit("5"); reveal_strlit("6");
    }
    if n == 1 { "1" } else if n == 2 { "2" } else if n == 3 { "3" } else if n == 4 { "4" } else if n == 5 { "5" } else { "6" }
}

/// The controls frame.
pub fn frame(bindings: &Bindings, rebinding: Option<Action>) -> (f: TextFrame)
    ensures
        f.top == 3 && f.height == 16 && f.width == FRAME_WIDTH,
        f.title@ == "Controls"@ && f.bottom@ == "Press ESC to quit."@,
        f.lines_spec() == controls_lines(bindings@, rebinding),
{
    let mut f = TextFrame::new(3, 16, FRAME_WIDTH, "Controls", "Press ESC to quit.");
    let x = f.text_x();
    let all = all_actions();
    let ghost want = controls_lines(bindings@, rebinding);
    let mut i: usize = 0;
    while i < 6
        invariant
            i <= 6,
            all@ == actions(),
            x == frame_left(FRAME_WIDTH as int) + 1,
            f.top == 3 && f.height == 16 && f.width == FRAME_WIDTH,
            f.title@ == "Controls"@ && f.bottom@ == "Press ESC to quit."@,
            want == controls_lines(bindings@, rebinding),
            f.lines_spec() == want.subrange(0, 2 * i as int),
        decreases 6 - i,
    {
        let action = all[i];
        let mut label = String::from_str(" #");
        label.append(digit_text(i + 1));
        label.append(") ");
        label.append(action.label());
        label.append(" is:");
        let value = if rebinding == Some(action) { String::from_str("???") } else { bindings.summary(action) };
        f = f.line(x, 6 + i as i32, label.as_str());
        f = f.line(x + VALUE_COLUMN, 6 + i as i32, value.as_str());
        proof {
            let k0 = 2 * i as int;
            assert(k0 / 2 == i && k0 % 2 == 0);
            assert((k0 + 1) / 2 == i && (k0 + 1) % 2 == 1);
            assert(label@ =~= row_label(i as int));
            assert(want.subrange(0, k0 + 2) =~= want.subrange(0, k0).push(want[k0]).push(want[k0 + 1]));
        }
        i = i + 1;
    }
    let ghost rows = f.lines_spec();
    if rebinding.is_some() {
        f = f.line(x, 14, "Press the new control");
    } else {
        f = f.line(x, 14, "Select # to change,");
        f = f.line(x, 15, "R) restore defaults");
    }
    proof {
        assert(want.subrange(0, 12) =~= rows);
        assert(f.lines_spec() =~= want);
    }
    f
}

/// What a frame's keys on the controls screen lead to.
#[derive(Clone, Copy, PartialEq, Eq, Debug, Structural)]
pub enum ControlsStep {
    Nothing,
    Redraw,
    /// The bindings changed: save them, then redraw.
    SaveAndRedraw,
    ToMenu,
}

/// The first of the digits 1 to 6 just pressed, as a row.
pub open spec fn row_pressed(keys: Seq<Key>) -> Option<int> {
    if keys.contains(Key::Digit1) { Some(0int) } else if keys.contains(Key::Digit2) { Some(1int) }
    else if keys.contains(Key::Digit3) { Some(2int) } else if keys.contains(Key::Digit4) { Some(3int) }
    else if keys.contains(Key::Digit5) { Some(4int) } else if keys.contains(Key::Digit6) { Some(5int) } else { None }
}

/// Keys on the controls screen. While an action waits for a control,
/// Escape gives up and the first control pressed (`first`) is bound to it;
/// otherwise Escape leaves, R restores the defaults and a digit picks the
/// action to rebind.
pub fn controls_input(bindings: &mut Bindings, rebinding: &mut Option<Action>, keys: &Vec<Key>, first: Option<Binding>) -> (r: ControlsStep)
    ensures
        (*old(rebinding)) matches Some(action) ==> (if keys@.contains(Key::Escape) {
            r == ControlsStep::Redraw && (*final(rebinding)) is None && final(bindings)@ == old(bindings)@
        } else {
            match first {
                Some(b) => r == ControlsStep::SaveAndRedraw && (*final(rebinding)) is None
                    && final(bindings)@ == rebound(old(bindings)@, action, b),
                None => r == ControlsStep::Nothing && *final(rebinding) == *old(rebinding) && final(bindings)@ == old(bindings)@,
            }
        }),
        (*old(rebinding)) is None ==> (if keys@.contains(Key::Escape) {
            r == ControlsStep::ToMenu && (*final(rebinding)) is None && final(bindings)@ == old(bindings)@
        } else if keys@.contains(Key::KeyR) {
            r == ControlsStep::SaveAndRedraw && (*final(rebinding)) is None && final(bindings)@ == default_bindings()
        } else {
            match row_pressed(keys@) {
                Some(i) => r == ControlsStep::Redraw && *final(rebinding) == Some(actions()[i]) && final(bindings)@ == old(bindings)@,
                None => r == ControlsStep::Nothing && (*final(rebinding)) is None && final(bindings)@ == old(bindings)@,
            }
        }),
{
    if let Some(action) = *rebinding {
        if pressed(keys, Key::Escape) {
            *rebinding = None;
            return ControlsStep::Redraw;
        }
        if let Some(b) = first {
            bindings.rebind(action, b);
            *rebinding = None;
            return ControlsStep::SaveAndRedraw;
        }
        return ControlsStep::Nothing;
    }
    if pressed(keys, Key::Escape) {
        return ControlsStep::ToMenu;
    }
    if pressed(keys, Key::KeyR) {
        *bindings = Bindings::default();
        return ControlsStep::SaveAndRedraw;
    }
    let all = all_actions();
    let row = if pressed(keys, Key::Digit1) { Some(0usize) } else if pressed(keys, Key::Digit2) { Some(1usize) }
        else if pressed(keys, Key::Digit3) { Some(2usize) } else if pressed(keys, Key::Digit4) { Some(3usize) }
        else if pressed(keys, Key::Digit5) { Some(4usize) } else if pressed(keys, Key::Digit6) { Some(5usize) } else { None };
    match row {
        Some(i) => {
            *rebinding = Some(all[i]);
            ControlsStep::Redraw
        },
        None => ControlsStep::Nothing,
    }
}

} // verus!
