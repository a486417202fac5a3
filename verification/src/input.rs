//! Rebindable controls, for keyboard and gamepad.
//!
//! The game stores six bindings (north, south, west, east, jump,
//! bomb); here each of the six actions can carry several bindings at once,
//! so keyboard and pad work without a mode switch.
//!
//! The keyboard is sampled every frame and held until the 18.2Hz gameplay
//! tick collects it: a tap shorter than a tick is stretched to exactly one
//! tick, and a held key is unaffected.
use vstd::prelude::*;
use vstd::string::StringExecFns;
use crate::player::PlayerInput;

verus! {

/// The six configurable actions.
#[derive(Debug, Clone, Copy, PartialEq, Eq, Hash, Structural)]
pub enum Action {
    North,
    South,
    West,
    East,
    Jump,
    Bomb,
}

/// Every action, in the order the controls screen lists them.
pub fn all_actions() -> (r: [Action; 6])
    ensures
        r@ == seq![Action::North, Action::South, Action::West, Action::East, Action::Jump, Action::Bomb],
{
    let r = [Action::North, Action::South, Action::West, Action::East, Action::Jump, Action::Bomb];
    assert(r@ =~= seq![Action::North, Action::South, Action::West, Action::East, Action::Jump, Action::Bomb]);
    r
}

/// The label the keyboard config screen uses.
pub open spec fn action_label(a: Action) -> Seq<char> {
    match a {
        Action::North => "Up"@,
        Action::South => "Down"@,
        Action::West => "Left"@,
        Action::East => "Right"@,
        Action::Jump => "Jump"@,
        Action::Bomb => "Bomb"@,
    }
}

impl Action {
    pub fn label(self) -> (r: &'static str)
        ensures
            r@ == action_label(self),
    {
        match self {
            Action::North => "Up",
            Action::South => "Down",
            Action::West => "Left",
            Action::East => "Right",
            Action::Jump => "Jump",
            Action::Bomb => "Bomb",
        }
    }
}

/// Which way along an axis counts as pressed: a stick is a d-pad here.
#[derive(Debug, Clone, Copy, PartialEq, Eq, Hash, Structural)]
pub enum AxisSign {
    Positive,
    Negative,
}

/// A keyboard key, by its position name.
#[derive(Debug, Clone, Copy, PartialEq, Eq, Hash, Structural)]
pub enum Key {
    ArrowUp,
    ArrowDown,
    ArrowLeft,
    ArrowRight,
    ControlLeft,
    ControlRight,
    AltLeft,
    AltRight,
    ShiftLeft,
    ShiftRight,
    Space,
    Enter,
    Escape,
    Tab,
    Backspace,
    Period,
    Minus,
    NumpadEnter,
    Delete,
    PageUp,
    KeyA,
    KeyB,
    KeyC,
    KeyD,
    KeyE,
    KeyF,
    KeyG,
    KeyH,
    KeyI,
    KeyJ,
    KeyK,
    KeyL,
    KeyM,
    KeyN,
    KeyO,
    KeyP,
    KeyQ,
    KeyR,
    KeyS,
    KeyT,
    KeyU,
    KeyV,
    KeyW,
    KeyX,
    KeyY,
    KeyZ,
    Digit0,
    Digit1,
    Digit2,
    Digit3,
    Digit4,
    Digit5,
    Digit6,
    Digit7,
    Digit8,
    Digit9,
    Numpad0,
    Numpad1,
    Numpad2,
    Numpad3,
    Numpad4,
    Numpad5,
    Numpad6,
    Numpad7,
    Numpad8,
    Numpad9,
    F1,
    F2,
    F3,
    F4,
    F5,
    F6,
    F7,
    F8,
    F9,
    F10,
    F11,
    F12,
    Other,
}

/// A gamepad button, named by position.
#[derive(Debug, Clone, Copy, PartialEq, Eq, Hash, Structural)]
pub enum PadButton {
    South,
    East,
    North,
    West,
    DPadUp,
    DPadDown,
    DPadLeft,
    DPadRight,
    LeftTrigger,
    RightTrigger,
    LeftTrigger2,
    RightTrigger2,
    Select,
    Start,
    Mode,
    LeftThumb,
    RightThumb,
    C,
    Z,
    Other,
}

/// A gamepad axis.
#[derive(Debug, Clone, Copy, PartialEq, Eq, Hash, Structural)]
pub enum PadAxis {
    LeftStickX,
    LeftStickY,
    LeftZ,
    RightStickX,
    RightStickY,
    RightZ,
    Other,
}

#[derive(Debug, Clone, Copy, PartialEq, Eq, Hash, Structural)]
pub enum Binding {
    Key(Key),
    Button(PadButton),
    Axis(PadAxis, AxisSign),
}

/// A key's short name: the common ones get the game's short forms,
/// letters and digits lose their prefix, keypad digits read `Num4`.
pub open spec fn key_label_spec(k: Key) -> Seq<char> {
    match k {
        Key::ArrowUp => "Up"@,
        Key::ArrowDown => "Down"@,
        Key::ArrowLeft => "Left"@,
        Key::ArrowRight => "Right"@,
        Key::ControlLeft => "LCtrl"@,
        Key::ControlRight => "RCtrl"@,
        Key::AltLeft => "LAlt"@,
        Key::AltRight => "RAlt"@,
        Key::ShiftLeft => "LShift"@,
        Key::ShiftRight => "RShift"@,
        Key::Space => "Space"@,
        Key::Enter => "Enter"@,
        Key::Escape => "Escape"@,
        Key::Tab => "Tab"@,
        Key::Backspace => "Backspace"@,
        Key::Period => "Period"@,
        Key::Minus => "Minus"@,
        Key::NumpadEnter => "NumpadEnter"@,
        Key::Delete => "Delete"@,
        Key::PageUp => "PageUp"@,
        Key::KeyA => "A"@,
        Key::KeyB => "B"@,
        Key::KeyC => "C"@,
        Key::KeyD => "D"@,
        Key::KeyE => "E"@,
        Key::KeyF => "F"@,
        Key::KeyG => "G"@,
        Key::KeyH => "H"@,
        Key::KeyI => "I"@,
        Key::KeyJ => "J"@,
        Key::KeyK => "K"@,
        Key::KeyL => "L"@,
        Key::KeyM => "M"@,
        Key::KeyN => "N"@,
        Key::KeyO => "O"@,
        Key::KeyP => "P"@,
        Key::KeyQ => "Q"@,
        Key::KeyR => "R"@,
        Key::KeyS => "S"@,
        Key::KeyT => "T"@,
        Key::KeyU => "U"@,
        Key::KeyV => "V"@,
        Key::KeyW => "W"@,
        Key::KeyX => "X"@,
        Key::KeyY => "Y"@,
        Key::KeyZ => "Z"@,
        Key::Digit0 => "0"@,
        Key::Digit1 => "1"@,
        Key::Digit2 => "2"@,
        Key::Digit3 => "3"@,
        Key::Digit4 => "4"@,
        Key::Digit5 => "5"@,
        Key::Digit6 => "6"@,
        Key::Digit7 => "7"@,
        Key::Digit8 => "8"@,
        Key::Digit9 => "9"@,
        Key::Numpad0 => "Num0"@,
        Key::Numpad1 => "Num1"@,
        Key::Numpad2 => "Num2"@,
        Key::Numpad3 => "Num3"@,
        Key::Numpad4 => "Num4"@,
        Key::Numpad5 => "Num5"@,
        Key::Numpad6 => "Num6"@,
        Key::Numpad7 => "Num7"@,
        Key::Numpad8 => "Num8"@,
        Key::Numpad9 => "Num9"@,
        Key::F1 => "F1"@,
        Key::F2 => "F2"@,
        Key::F3 => "F3"@,
        Key::F4 => "F4"@,
        Key::F5 => "F5"@,
        Key::F6 => "F6"@,
        Key::F7 => "F7"@,
        Key::F8 => "F8"@,
        Key::F9 => "F9"@,
        Key::F10 => "F10"@,
        Key::F11 => "F11"@,
        Key::F12 => "F12"@,
        Key::Other => "Other"@,
    }
}

pub fn key_label(key: Key) -> (r: &'static str)
    ensures
        r@ == key_label_spec(key),
{
    match key {
        Key::ArrowUp => "Up",
        Key::ArrowDown => "Down",
        Key::ArrowLeft => "Left",
        Key::ArrowRight => "Right",
        Key::ControlLeft => "LCtrl",
        Key::ControlRight => "RCtrl",
        Key::AltLeft => "LAlt",
        Key::AltRight => "RAlt",
        Key::ShiftLeft => "LShift",
        Key::ShiftRight => "RShift",
        Key::Space => "Space",
        Key::Enter => "Enter",
        Key::Escape => "Escape",
        Key::Tab => "Tab",
        Key::Backspace => "Backspace",
        Key::Period => "Period",
        Key::Minus => "Minus",
        Key::NumpadEnter => "NumpadEnter",
        Key::Delete => "Delete",
        Key::PageUp => "PageUp",
        Key::KeyA => "A",
        Key::KeyB => "B",
        Key::KeyC => "C",
        Key::KeyD => "D",
        Key::KeyE => "E",
        Key::KeyF => "F",
        Key::KeyG => "G",
        Key::KeyH => "H",
        Key::KeyI => "I",
        Key::KeyJ => "J",
        Key::KeyK => "K",
        Key::KeyL => "L",
        Key::KeyM => "M",
        Key::KeyN => "N",
        Key::KeyO => "O",
        Key::KeyP => "P",
        Key::KeyQ => "Q",
        Key::KeyR => "R",
        Key::KeyS => "S",
        Key::KeyT => "T",
        Key::KeyU => "U",
        Key::KeyV => "V",
        Key::KeyW => "W",
        Key::KeyX => "X",
        Key::KeyY => "Y",
        Key::KeyZ => "Z",
        Key::Digit0 => "0",
        Key::Digit1 => "1",
        Key::Digit2 => "2",
        Key::Digit3 => "3",
        Key::Digit4 => "4",
        Key::Digit5 => "5",
        Key::Digit6 => "6",
        Key::Digit7 => "7",
        Key::Digit8 => "8",
        Key::Digit9 => "9",
        Key::Numpad0 => "Num0",
        Key::Numpad1 => "Num1",
        Key::Numpad2 => "Num2",
        Key::Numpad3 => "Num3",
        Key::Numpad4 => "Num4",
        Key::Numpad5 => "Num5",
        Key::Numpad6 => "Num6",
        Key::Numpad7 => "Num7",
        Key::Numpad8 => "Num8",
        Key::Numpad9 => "Num9",
        Key::F1 => "F1",
        Key::F2 => "F2",
        Key::F3 => "F3",
        Key::F4 => "F4",
        Key::F5 => "F5",
        Key::F6 => "F6",
        Key::F7 => "F7",
        Key::F8 => "F8",
        Key::F9 => "F9",
        Key::F10 => "F10",
        Key::F11 => "F11",
        Key::F12 => "F12",
        Key::Other => "Other",
    }
}

/// A button's name by position rather than by a vendor's letters.
pub open spec fn button_label_spec(b: PadButton) -> Seq<char> {
    match b {
        PadButton::South => "Pad Dn"@,
        PadButton::East => "Pad R"@,
        PadButton::North => "Pad Up"@,
        PadButton::West => "Pad L"@,
        PadButton::DPadUp => "DPad Up"@,
        PadButton::DPadDown => "DPad Dn"@,
        PadButton::DPadLeft => "DPad L"@,
        PadButton::DPadRight => "DPad R"@,
        PadButton::LeftTrigger => "L1"@,
        PadButton::RightTrigger => "R1"@,
        PadButton::LeftTrigger2 => "L2"@,
        PadButton::RightTrigger2 => "R2"@,
        PadButton::Select => "Select"@,
        PadButton::Start => "Start"@,
        PadButton::Mode => "Mode"@,
        PadButton::LeftThumb => "LeftThumb"@,
        PadButton::RightThumb => "RightThumb"@,
        PadButton::C => "C"@,
        PadButton::Z => "Z"@,
        PadButton::Other => "Other"@,
    }
}

pub fn button_label(button: PadButton) -> (r: &'static str)
    ensures
        r@ == button_label_spec(button),
{
    match button {
        PadButton::South => "Pad Dn",
        PadButton::East => "Pad R",
        PadButton::North => "Pad Up",
        PadButton::West => "Pad L",
        PadButton::DPadUp => "DPad Up",
        PadButton::DPadDown => "DPad Dn",
        PadButton::DPadLeft => "DPad L",
        PadButton::DPadRight => "DPad R",
        PadButton::LeftTrigger => "L1",
        PadButton::RightTrigger => "R1",
        PadButton::LeftTrigger2 => "L2",
        PadButton::RightTrigger2 => "R2",
        PadButton::Select => "Select",
        PadButton::Start => "Start",
        PadButton::Mode => "Mode",
        PadButton::LeftThumb => "LeftThumb",
        PadButton::RightThumb => "RightThumb",
        PadButton::C => "C",
        PadButton::Z => "Z",
        PadButton::Other => "Other",
    }
}

/// A stick direction: which stick, then up/down or left/right.
pub open spec fn axis_label_spec(a: PadAxis, s: AxisSign) -> Seq<char> {
    match (a, s) {
        (PadAxis::LeftStickX, AxisSign::Positive) => "LStkR"@,
        (PadAxis::LeftStickX, AxisSign::Negative) => "LStkL"@,
        (PadAxis::LeftStickY, AxisSign::Positive) => "LStkUp"@,
        (PadAxis::LeftStickY, AxisSign::Negative) => "LStkDn"@,
        (PadAxis::LeftZ, AxisSign::Positive) => "AxisR"@,
        (PadAxis::LeftZ, AxisSign::Negative) => "AxisL"@,
        (PadAxis::RightStickX, AxisSign::Positive) => "RStkR"@,
        (PadAxis::RightStickX, AxisSign::Negative) => "RStkL"@,
        (PadAxis::RightStickY, AxisSign::Positive) => "RStkUp"@,
        (PadAxis::RightStickY, AxisSign::Negative) => "RStkDn"@,
        (PadAxis::RightZ, AxisSign::Positive) => "AxisR"@,
        (PadAxis::RightZ, AxisSign::Negative) => "AxisL"@,
        (PadAxis::Other, AxisSign::Positive) => "AxisR"@,
        (PadAxis::Other, AxisSign::Negative) => "AxisL"@,
    }
}

fn axis_label(axis: PadAxis, sign: AxisSign) -> (r: &'static str)
    ensures
        r@ == axis_label_spec(axis, sign),
{
    match (axis, sign) {
        (PadAxis::LeftStickX, AxisSign::Positive) => "LStkR",
        (PadAxis::LeftStickX, AxisSign::Negative) => "LStkL",
        (PadAxis::LeftStickY, AxisSign::Positive) => "LStkUp",
        (PadAxis::LeftStickY, AxisSign::Negative) => "LStkDn",
        (PadAxis::LeftZ, AxisSign::Positive) => "AxisR",
        (PadAxis::LeftZ, AxisSign::Negative) => "AxisL",
        (PadAxis::RightStickX, AxisSign::Positive) => "RStkR",
        (PadAxis::RightStickX, AxisSign::Negative) => "RStkL",
        (PadAxis::RightStickY, AxisSign::Positive) => "RStkUp",
        (PadAxis::RightStickY, AxisSign::Negative) => "RStkDn",
        (PadAxis::RightZ, AxisSign::Positive) => "AxisR",
        (PadAxis::RightZ, AxisSign::Negative) => "AxisL",
        (PadAxis::Other, AxisSign::Positive) => "AxisR",
        (PadAxis::Other, AxisSign::Negative) => "AxisL",
    }
}

/// A binding's short name for the controls screen.
pub open spec fn binding_label(b: Binding) -> Seq<char> {
    match b {
        Binding::Key(k) => key_label_spec(k),
        Binding::Button(p) => button_label_spec(p),
        Binding::Axis(a, s) => axis_label_spec(a, s),
    }
}

impl Binding {
    pub fn label(self) -> (r: String)
        ensures
            r@ == binding_label(self),
    {
        let s = match self {
            Binding::Key(key) => key_label(key),
            Binding::Button(button) => button_label(button),
            Binding::Axis(axis, sign) => axis_label(axis, sign),
        };
        String::from_str(s)
    }

    pub fn is_key(self) -> (r: bool)
        ensures
            r == (self is Key),
    {
        match self {
            Binding::Key(_) => true,
            _ => false,
        }
    }
}

/// Tiles the controls screen has for a binding summary.
pub const CONTROLS_VALUE_WIDTH: usize = 16;

/// The list bound to `action`: the first entry for it, from `i` on.
pub open spec fn lookup(v: Seq<(Action, Seq<Binding>)>, action: Action, i: int) -> Seq<Binding>
    decreases v.len() - i,
{
    if i < 0 || i >= v.len() {
        Seq::empty()
    } else if v[i].0 == action {
        v[i].1
    } else {
        lookup(v, action, i + 1)
    }
}

/// `s` without `b`, order kept.
pub open spec fn without(s: Seq<Binding>, b: Binding, n: int) -> Seq<Binding>
    decreases n,
{
    if n <= 0 {
        Seq::empty()
    } else {
        let prev = without(s, b, n - 1);
        if s[n - 1] == b { prev } else { prev.push(s[n - 1]) }
    }
}

/// Every action's bindings after `action` is bound to `binding` alone.
pub open spec fn rebound(v: Seq<(Action, Seq<Binding>)>, action: Action, binding: Binding) -> Seq<(Action, Seq<Binding>)> {
    Seq::new(v.len(), |i: int| (v[i].0, if v[i].0 == action { seq![binding] } else { without(v[i].1, binding, v[i].1.len() as int) }))
}

proof fn lemma_without_drops(s: Seq<Binding>, b: Binding, n: int)
    requires
        0 <= n <= s.len(),
    ensures
        !without(s, b, n).contains(b),
    decreases n,
{
    if n > 0 {
        lemma_without_drops(s, b, n - 1);
        let prev = without(s, b, n - 1);
        if s[n - 1] != b {
            let next = prev.push(s[n - 1]);
            assert forall|k: int| 0 <= k < next.len() implies #[trigger] next[k] != b by {
                if k < prev.len() {
                    assert(prev[k] != b);
                }
            }
        }
    }
}

proof fn lemma_lookup_rebound(v: Seq<(Action, Seq<Binding>)>, action: Action, binding: Binding, other: Action, i: int)
    requires
        0 <= i <= v.len(),
    ensures
        other != action ==> !lookup(rebound(v, action, binding), other, i).contains(binding),
        (exists|j: int| i <= j < v.len() && v[j].0 == action) ==> lookup(rebound(v, action, binding), action, i) == seq![binding],
    decreases v.len() - i,
{
    let w = rebound(v, action, binding);
    if i < v.len() {
        lemma_lookup_rebound(v, action, binding, other, i + 1);
        lemma_without_drops(v[i].1, binding, v[i].1.len() as int);
        if exists|j: int| i <= j < v.len() && v[j].0 == action {
            if v[i].0 != action {
                let j = choose|j: int| i <= j < v.len() && v[j].0 == action;
                assert(i + 1 <= j);
            }
        }
    }
}

/// Rebinding takes the binding away from whoever had it: afterwards the
/// action holds exactly that one binding (if it has an entry), and no
/// other action holds it at all.
pub proof fn lemma_rebind_is_exclusive(v: Seq<(Action, Seq<Binding>)>, action: Action, binding: Binding, other: Action)
    ensures
        other != action ==> !lookup(rebound(v, action, binding), other, 0).contains(binding),
        (exists|j: int| 0 <= j < v.len() && v[j].0 == action) ==> lookup(rebound(v, action, binding), action, 0) == seq![binding],
{
    lemma_lookup_rebound(v, action, binding, other, 0);
}

/// The first binding of `s` from `i` on that is (or is not) a key.
pub open spec fn first_of(s: Seq<Binding>, key: bool, i: int) -> Option<Binding>
    decreases s.len() - i,
{
    if i < 0 || i >= s.len() {
        None
    } else if (s[i] is Key) == key {
        Some(s[i])
    } else {
        first_of(s, key, i + 1)
    }
}

/// What the controls screen shows for a list: its first key and its first
/// pad control, a comma between.
pub open spec fn summary_spec(s: Seq<Binding>) -> Seq<char> {
    match (first_of(s, true, 0), first_of(s, false, 0)) {
        (Some(k), Some(p)) => binding_label(k) + ", "@ + binding_label(p),
        (Some(k), None) => binding_label(k),
        (None, Some(p)) => binding_label(p),
        (None, None) => "-none-"@,
    }
}

/// The defaults: the DOS game's (Ctrl to jump, Alt to bomb, arrows to move)
/// plus WASD and Space, and a gamepad that works unconfigured.
pub open spec fn default_bindings() -> Seq<(Action, Seq<Binding>)> {
    seq![
        (Action::North, seq![Binding::Key(Key::ArrowUp), Binding::Key(Key::KeyW), Binding::Button(PadButton::DPadUp), Binding::Axis(PadAxis::LeftStickY, AxisSign::Positive)]),
        (Action::South, seq![Binding::Key(Key::ArrowDown), Binding::Key(Key::KeyS), Binding::Button(PadButton::DPadDown), Binding::Axis(PadAxis::LeftStickY, AxisSign::Negative)]),
        (Action::West, seq![Binding::Key(Key::ArrowLeft), Binding::Key(Key::KeyA), Binding::Button(PadButton::DPadLeft), Binding::Axis(PadAxis::LeftStickX, AxisSign::Negative)]),
        (Action::East, seq![Binding::Key(Key::ArrowRight), Binding::Key(Key::KeyD), Binding::Button(PadButton::DPadRight), Binding::Axis(PadAxis::LeftStickX, AxisSign::Positive)]),
        (Action::Jump, seq![Binding::Key(Key::Space), Binding::Key(Key::ControlLeft), Binding::Key(Key::ControlRight), Binding::Button(PadButton::South)]),
        (Action::Bomb, seq![Binding::Key(Key::AltLeft), Binding::Key(Key::AltRight), Binding::Button(PadButton::West)]),
    ]
}

/// Every action's bindings.
#[derive(Debug, Clone)]
pub struct Bindings {
    pub entries: Vec<(Action, Vec<Binding>)>,
}

impl View for Bindings {
    type V = Seq<(Action, Seq<Binding>)>;

    open spec fn view(&self) -> Seq<(Action, Seq<Binding>)> {
        self.entries@.map_values(|e: (Action, Vec<Binding>)| (e.0, e.1@))
    }
}

impl Bindings {
    pub fn default() -> (b: Self)
        ensures
            b@ == default_bindings(),
    {
        let b = Bindings {
            entries: vec![
                (Action::North, vec![Binding::Key(Key::ArrowUp), Binding::Key(Key::KeyW), Binding::Button(PadButton::DPadUp), Binding::Axis(PadAxis::LeftStickY, AxisSign::Positive)]),
                (Action::South, vec![Binding::Key(Key::ArrowDown), Binding::Key(Key::KeyS), Binding::Button(PadButton::DPadDown), Binding::Axis(PadAxis::LeftStickY, AxisSign::Negative)]),
                (Action::West, vec![Binding::Key(Key::ArrowLeft), Binding::Key(Key::KeyA), Binding::Button(PadButton::DPadLeft), Binding::Axis(PadAxis::LeftStickX, AxisSign::Negative)]),
                (Action::East, vec![Binding::Key(Key::ArrowRight), Binding::Key(Key::KeyD), Binding::Button(PadButton::DPadRight), Binding::Axis(PadAxis::LeftStickX, AxisSign::Positive)]),
                (Action::Jump, vec![Binding::Key(Key::Space), Binding::Key(Key::ControlLeft), Binding::Key(Key::ControlRight), Binding::Button(PadButton::South)]),
                (Action::Bomb, vec![Binding::Key(Key::AltLeft), Binding::Key(Key::AltRight), Binding::Button(PadButton::West)]),
            ],
        };
        assert(b@ =~= default_bindings());
        b
    }

    /// The bindings of `action`; none if it has no entry.
    pub fn get(&self, action: Action) -> (r: &[Binding])
        ensures
            r@ == lookup(self@, action, 0),
    {
        let mut i: usize = 0;
        while i < self.entries.len()
            invariant
                i <= self.entries@.len(),
                lookup(self@, action, 0) == lookup(self@, action, i as int),
            decreases self.entries@.len() - i,
        {
            if self.entries[i].0 == action {
                return self.entries[i].1.as_slice();
            }
            i = i + 1;
        }
        &[]
    }

    /// Replaces every binding of `action` with the one given, and takes
    /// that binding away from every other action.
    pub fn rebind(&mut self, action: Action, binding: Binding)
        ensures
            final(self)@ == rebound(old(self)@, action, binding),
    {
        let ghost v0 = self@;
        let n = self.entries.len();
        let mut i: usize = 0;
        while i < n
            invariant
                n == v0.len(),
                self@.len() == n,
                i <= n,
                forall|j: int| 0 <= j < i ==> (#[trigger] self@[j]).0 == v0[j].0
                    && self@[j].1 == (if v0[j].0 == action { seq![binding] } else { without(v0[j].1, binding, v0[j].1.len() as int) }),
                forall|j: int| i <= j < n ==> #[trigger] self@[j] == v0[j],
            decreases n - i,
        {
            let a = self.entries[i].0;
            assert(self@[i as int] == (self.entries@[i as int].0, self.entries@[i as int].1@));
            assert(a == v0[i as int].0);
            let mut fresh: Vec<Binding> = Vec::new();
            if a == action {
                fresh.push(binding);
            } else {
                let list = &self.entries[i].1;
                assert(self@[i as int] == (self.entries@[i as int].0, self.entries@[i as int].1@));
                assert(list@ == v0[i as int].1);
                let mut k: usize = 0;
                while k < list.len()
                    invariant
                        k <= list@.len(),
                        fresh@ == without(list@, binding, k as int),
                    decreases list@.len() - k,
                {
                    if list[k] != binding {
                        fresh.push(list[k]);
                    }
                    k = k + 1;
                }
            }
            let ghost vb = self@;
            let ghost fv = fresh@;
            assert(a == action ==> fv == seq![binding]);
            assert(a != action ==> fv == without(v0[i as int].1, binding, v0[i as int].1.len() as int));
            self.entries.set(i, (a, fresh));
            proof {
                assert(self@ =~= vb.update(i as int, (a, fv)));
            }
            i = i + 1;
        }
        assert(self@ =~= rebound(v0, action, binding));
    }

    /// What the controls screen shows for an action: its first keyboard
    /// binding and its first gamepad one, or `-none-`.
    pub fn summary(&self, action: Action) -> (r: String)
        ensures
            r@ == summary_spec(lookup(self@, action, 0)),
    {
        let list = self.get(action);
        let mut key: Option<Binding> = None;
        let mut pad: Option<Binding> = None;
        let mut i: usize = 0;
        while i < list.len()
            invariant
                i <= list@.len(),
                first_of(list@, true, 0) == (if key is Some { key } else { first_of(list@, true, i as int) }),
                first_of(list@, false, 0) == (if pad is Some { pad } else { first_of(list@, false, i as int) }),
            decreases list@.len() - i,
        {
            let b = list[i];
            if key.is_none() && b.is_key() {
                key = Some(b);
            }
            if pad.is_none() && !b.is_key() {
                pad = Some(b);
            }
            i = i + 1;
        }
        match (key, pad) {
            (Some(k), Some(p)) => {
                let mut s = k.label();
                s.append(", ");
                let pl = p.label();
                s.append(pl.as_str());
                s
            },
            (Some(k), None) => k.label(),
            (None, Some(p)) => p.label(),
            (None, None) => String::from_str("-none-"),
        }
    }

    /// Whether anything bound to `action` is held, given what is held on
    /// every device (a stick held past its deadzone counts as held).
    pub fn is_pressed(&self, action: Action, held: &Vec<Binding>) -> (r: bool)
        ensures
            r == exists|i: int| 0 <= i < lookup(self@, action, 0).len() && held@.contains(#[trigger] lookup(self@, action, 0)[i]),
    {
        let list = self.get(action);
        let mut i: usize = 0;
        while i < list.len()
            invariant
                i <= list@.len(),
                list@ == lookup(self@, action, 0),
                forall|j: int| 0 <= j < i ==> !held@.contains(#[trigger] list@[j]),
            decreases list@.len() - i,
        {
            let b = list[i];
            let mut k: usize = 0;
            while k < held.len()
                invariant
                    k <= held@.len(),
                    i < list@.len(),
                    list@ == lookup(self@, action, 0),
                    b == list@[i as int],
                    forall|j: int| 0 <= j < k ==> held@[j] != b,
                decreases held@.len() - k,
            {
                if held[k] == b {
                    assert(held@.contains(list@[i as int]));
                    return true;
                }
                k = k + 1;
            }
            i = i + 1;
        }
        false
    }
}

/// Escape, the digits 1 to 6 and R drive the rebinding screen itself, so
/// they cannot be bound from it.
pub open spec fn reserved(k: Key) -> bool {
    k == Key::Escape || k == Key::Digit1 || k == Key::Digit2 || k == Key::Digit3 || k == Key::Digit4
        || k == Key::Digit5 || k == Key::Digit6 || k == Key::KeyR
}

pub fn is_reserved(key: Key) -> (r: bool)
    ensures
        r == reserved(key),
{
    match key {
        Key::Escape | Key::Digit1 | Key::Digit2 | Key::Digit3 | Key::Digit4 | Key::Digit5 | Key::Digit6 | Key::KeyR => true,
        _ => false,
    }
}

/// The first key just pressed that may be bound, for the rebinding screen.
pub fn first_free_key(just_pressed: &Vec<Key>) -> (r: Option<Key>)
    ensures
        r matches Some(k) ==> just_pressed@.contains(k) && !reserved(k),
        r is None ==> forall|i: int| 0 <= i < just_pressed@.len() ==> reserved(#[trigger] just_pressed@[i]),
        r matches Some(k) ==> exists|i: int| 0 <= i < just_pressed@.len() && just_pressed@[i] == k
            && forall|j: int| 0 <= j < i ==> reserved(#[trigger] just_pressed@[j]),
{
    let mut i: usize = 0;
    while i < just_pressed.len()
        invariant
            i <= just_pressed@.len(),
            forall|j: int| 0 <= j < i ==> reserved(#[trigger] just_pressed@[j]),
        decreases just_pressed@.len() - i,
    {
        let k = just_pressed[i];
        if !is_reserved(k) {
            return Some(k);
        }
        i = i + 1;
    }
    None
}

/// The first key just pressed that may be bound, from position `i` on.
pub open spec fn first_free(keys: Seq<Key>, i: int) -> Option<Key>
    decreases keys.len() - i,
{
    if i < 0 || i >= keys.len() {
        None
    } else if !reserved(keys[i]) {
        Some(keys[i])
    } else {
        first_free(keys, i + 1)
    }
}

/// The sticks a rebind listens to, in the order they are checked.
pub open spec fn sticks() -> Seq<PadAxis> {
    seq![PadAxis::LeftStickX, PadAxis::LeftStickY, PadAxis::RightStickX, PadAxis::RightStickY]
}

/// The first stick from `j` on that is pushed past the dead zone, and
/// which way.
pub open spec fn first_stick(deflected: Seq<Option<AxisSign>>, j: int) -> Option<Binding>
    decreases 4 - j,
{
    if j < 0 || j >= 4 || j >= deflected.len() {
        None
    } else {
        match deflected[j] {
            Some(sign) => Some(Binding::Axis(sticks()[j], sign)),
            None => first_stick(deflected, j + 1),
        }
    }
}

/// The first pad from `i` on with a button just pressed (that button) or
/// a stick pushed (that stick).
pub open spec fn first_pad(pads: Seq<(Option<PadButton>, [Option<AxisSign>; 4])>, i: int) -> Option<Binding>
    decreases pads.len() - i,
{
    if i < 0 || i >= pads.len() {
        None
    } else {
        match pads[i].0 {
            Some(b) => Some(Binding::Button(b)),
            None => match first_stick(pads[i].1@, 0) {
                Some(a) => Some(a),
                None => first_pad(pads, i + 1),
            },
        }
    }
}

/// The control to bind on the rebinding screen: the first key just pressed
/// that the screen does not use itself; else, pad by pad, a button just
/// pressed or a stick pushed past the dead zone. Each pad is given as its
/// first button just pressed and, for the two sticks' four axes, which way
/// each is pushed past the dead zone, if at all.
pub fn first_pressed(keys: &Vec<Key>, pads: &Vec<(Option<PadButton>, [Option<AxisSign>; 4])>) -> (r: Option<Binding>)
    ensures
        r == (match first_free(keys@, 0) {
            Some(k) => Some(Binding::Key(k)),
            None => first_pad(pads@, 0),
        }),
{
    let mut i: usize = 0;
    while i < keys.len()
        invariant
            i <= keys@.len(),
            first_free(keys@, 0) == first_free(keys@, i as int),
        decreases keys@.len() - i,
    {
        let k = keys[i];
        if !is_reserved(k) {
            return Some(Binding::Key(k));
        }
        i = i + 1;
    }
    let axes: [PadAxis; 4] = [PadAxis::LeftStickX, PadAxis::LeftStickY, PadAxis::RightStickX, PadAxis::RightStickY];
    let mut p: usize = 0;
    while p < pads.len()
        invariant
            p <= pads@.len(),
            first_free(keys@, 0) is None,
            axes@ == sticks(),
            first_pad(pads@, 0) == first_pad(pads@, p as int),
        decreases pads@.len() - p,
    {
        let (button, deflected) = pads[p];
        if let Some(b) = button {
            return Some(Binding::Button(b));
        }
        let mut j: usize = 0;
        while j < 4
            invariant
                j <= 4,
                p < pads@.len(),
                axes@ == sticks(),
                pads@[p as int].0 is None,
                first_free(keys@, 0) is None,
                first_pad(pads@, 0) == first_pad(pads@, p as int),
                deflected@ == pads@[p as int].1@,
                first_stick(deflected@, 0) == first_stick(deflected@, j as int),
            decreases 4 - j,
        {
            if let Some(sign) = deflected[j] {
                return Some(Binding::Axis(axes[j], sign));
            }
            j = j + 1;
        }
        p = p + 1;
    }
    None
}

/// Both inputs' commands, either pressed.
pub open spec fn merged(a: PlayerInput, b: PlayerInput) -> PlayerInput {
    PlayerInput {
        west: a.west || b.west,
        east: a.east || b.east,
        jump: a.jump || b.jump,
        look_up: a.look_up || b.look_up,
        look_down: a.look_down || b.look_down,
        bomb: a.bomb || b.bomb,
        dismiss: a.dismiss || b.dismiss,
    }
}

/// Adds what `from` holds to `into`.
pub fn merge(into: &mut PlayerInput, from: &PlayerInput)
    ensures
        *final(into) == merged(*old(into), *from),
{
    into.west = into.west || from.west;
    into.east = into.east || from.east;
    into.jump = into.jump || from.jump;
    into.look_up = into.look_up || from.look_up;
    into.look_down = into.look_down || from.look_down;
    into.bomb = into.bomb || from.bomb;
    into.dismiss = into.dismiss || from.dismiss;
}

/// Nothing held.
pub open spec fn idle_input() -> PlayerInput {
    PlayerInput { west: false, east: false, jump: false, look_up: false, look_down: false, bomb: false, dismiss: false }
}

/// Every command held in `a` is held in `b` too.
pub open spec fn covers(a: PlayerInput, b: PlayerInput) -> bool {
    &&& a.west ==> b.west
    &&& a.east ==> b.east
    &&& a.jump ==> b.jump
    &&& a.look_up ==> b.look_up
    &&& a.look_down ==> b.look_down
    &&& a.bomb ==> b.bomb
    &&& a.dismiss ==> b.dismiss
}

/// What is pending after recording each of `samples`, in order.
pub open spec fn pending_after(start: PlayerInput, samples: Seq<PlayerInput>) -> PlayerInput
    decreases samples.len(),
{
    if samples.len() == 0 {
        start
    } else {
        merged(pending_after(start, samples.drop_last()), samples.last())
    }
}

proof fn lemma_start_is_kept(start: PlayerInput, samples: Seq<PlayerInput>)
    ensures
        covers(start, pending_after(start, samples)),
    decreases samples.len(),
{
    if samples.len() > 0 {
        lemma_start_is_kept(start, samples.drop_last());
    }
}

/// No tap is dropped: whatever was pending at the last tick, and whatever
/// any frame's sample held since, however briefly, is in what the next
/// tick collects.
pub proof fn lemma_no_tap_is_dropped(start: PlayerInput, samples: Seq<PlayerInput>, i: int)
    requires
        0 <= i < samples.len(),
    ensures
        covers(start, pending_after(start, samples)),
        covers(samples[i], pending_after(start, samples)),
    decreases samples.len(),
{
    lemma_start_is_kept(start, samples);
    if i < samples.len() - 1 {
        lemma_no_tap_is_dropped(start, samples.drop_last(), i);
        assert(samples.drop_last()[i] == samples[i]);
    }
}

/// The accumulator after one frame's sample.
pub open spec fn recorded(a: InputAccumulator, now: PlayerInput) -> InputAccumulator {
    InputAccumulator { pending: merged(a.pending, now), latest: now }
}

/// What a tick collects, and the accumulator it leaves.
pub open spec fn taken(a: InputAccumulator) -> (PlayerInput, InputAccumulator) {
    (a.pending, InputAccumulator { pending: a.latest, latest: a.latest })
}

/// The accumulator after recording each of `samples`, in order.
pub open spec fn record_all(a: InputAccumulator, samples: Seq<PlayerInput>) -> InputAccumulator
    decreases samples.len(),
{
    if samples.len() == 0 {
        a
    } else {
        recorded(record_all(a, samples.drop_last()), samples.last())
    }
}

proof fn lemma_record_all(a: InputAccumulator, samples: Seq<PlayerInput>)
    ensures
        record_all(a, samples).pending == pending_after(a.pending, samples),
        samples.len() > 0 ==> record_all(a, samples).latest == samples.last(),
    decreases samples.len(),
{
    if samples.len() > 0 {
        lemma_record_all(a, samples.drop_last());
    }
}

/// A tick collects everything since the last one: after any run of frame
/// samples, the tick's commands are the state the last tick left pending
/// with every sample merged in, so each command held in any sample, however
/// briefly, reaches the tick; the next tick, with no samples between,
/// collects just the latest state, so a tap is delivered to one tick only
/// and a key held throughout to every tick.
pub proof fn lemma_take_collects_every_sample(a: InputAccumulator, samples: Seq<PlayerInput>)
    requires
        samples.len() >= 1,
    ensures
        taken(record_all(a, samples)).0 == pending_after(a.pending, samples),
        covers(a.pending, taken(record_all(a, samples)).0),
        forall|i: int| 0 <= i < samples.len() ==> covers(#[trigger] samples[i], taken(record_all(a, samples)).0),
        taken(taken(record_all(a, samples)).1).0 == samples.last(),
{
    lemma_record_all(a, samples);
    assert forall|i: int| 0 <= i < samples.len() implies covers(#[trigger] samples[i], taken(record_all(a, samples)).0) by {
        lemma_no_tap_is_dropped(a.pending, samples, i);
    }
    lemma_no_tap_is_dropped(a.pending, samples, 0);
}

/// Every-frame samples, held until the gameplay tick collects them:
/// `pending` is everything pressed since the last tick, `latest` the
/// state right now.
#[derive(Clone, Copy, Debug)]
pub struct InputAccumulator {
    pub pending: PlayerInput,
    pub latest: PlayerInput,
}

impl InputAccumulator {
    pub fn new() -> (a: Self)
        ensures
            a.pending == idle_input(),
            a.latest == idle_input(),
    {
        let none = PlayerInput { west: false, east: false, jump: false, look_up: false, look_down: false, bomb: false, dismiss: false };
        InputAccumulator { pending: none, latest: none }
    }

    /// One frame's sample: added to what is pending, and kept as the
    /// latest state.
    pub fn record(&mut self, now: PlayerInput)
        ensures
            final(self).pending == merged(old(self).pending, now),
            final(self).latest == now,
            *final(self) == recorded(*old(self), now),
    {
        merge(&mut self.pending, &now);
        self.latest = now;
    }

    /// On the gameplay tick: everything seen since the last one, and the
    /// next window starts from the state right now.
    pub fn take(&mut self) -> (r: PlayerInput)
        ensures
            r == old(self).pending,
            final(self).pending == old(self).latest,
            final(self).latest == old(self).latest,
            (r, *final(self)) == taken(*old(self)),
    {
        let collected = self.pending;
        self.pending = self.latest;
        collected
    }
}

} // verus!
