//! The shipped cheat code and the debug-mode key chord. Both are chords:
//! keys held together, not typed in sequence.
use vstd::prelude::*;
use crate::input::Key;
use crate::panel::{frame_left, TextFrame};
use crate::player::Player;
use crate::screen::pressed;
use crate::sfx::snd;

verus! {

/// The cheat fires once per game, and the flag travels into a save file;
/// debug mode is toggled by its own chord. A chord held down does not
/// retrigger every tick it is held.
#[derive(Clone, Copy, PartialEq, Eq, Debug, Default, Structural)]
pub struct CheatState {
    pub used: bool,
    pub debug: bool,
    pub latched_cheat: bool,
    pub latched_debug: bool,
}

/// What the cheat awards.
pub const CHEAT_HEALTH_CELLS: u32 = 5;
pub const CHEAT_BOMBS: u32 = 9;
pub const CHEAT_HEALTH: i32 = 6;

/// `C` + `0` + `F10` held together.
pub open spec fn cheat_chord(held: Seq<Key>) -> bool {
    held.contains(Key::KeyC) && held.contains(Key::Digit0) && held.contains(Key::F10)
}

/// `Tab` + `F12` + `Del` held together.
pub open spec fn debug_chord(held: Seq<Key>) -> bool {
    held.contains(Key::Tab) && held.contains(Key::F12) && held.contains(Key::Delete)
}

pub fn cheat_chord_held(held: &Vec<Key>) -> (r: bool)
    ensures
        r == cheat_chord(held@),
{
    pressed(held, Key::KeyC) && pressed(held, Key::Digit0) && pressed(held, Key::F10)
}

pub fn debug_chord_held(held: &Vec<Key>) -> (r: bool)
    ensures
        r == debug_chord(held@),
{
    pressed(held, Key::Tab) && pressed(held, Key::F12) && pressed(held, Key::Delete)
}

/// The message the cheat opens.
pub fn cheat_frame() -> (f: TextFrame)
    ensures
        f.top == 3 && f.height == 9 && f.width == 32,
        f.title@ == "You are now cheating!"@ && f.bottom@ == "Press ANY key."@,
        f.lines_spec() == seq![(frame_left(32) + 1, 6int, "  You have been awarded full"@),
            (frame_left(32) + 1, 7int, " health and maximum amount of"@), (frame_left(32) + 1, 8int, "            bombs!"@)],
{
    TextFrame::new(3, 9, 32, "You are now cheating!", "Press ANY key.")
        .text(6, "  You have been awarded full")
        .text(7, " health and maximum amount of")
        .text(8, "            bombs!")
}

/// The chords, one tick: the debug chord toggles debug mode (with a
/// sound) on the tick it is first held; the cheat chord, on the tick it is
/// first held and only once per game, fills the health meter and the bomb
/// stock, plays a sound and opens its message (the result: true when it
/// does, which pauses the game).
pub fn cheat_input(state: &mut CheatState, held: &Vec<Key>, player: &mut Player, sounds: &mut Vec<u16>) -> (opened: bool)
    ensures
        ({
            let s0 = *old(state);
            let dbg = debug_chord(held@);
            let toggled = dbg && !s0.latched_debug;
            let fire = cheat_chord(held@) && !s0.latched_cheat && !s0.used;
            &&& final(state).debug == (if toggled { !s0.debug } else { s0.debug })
            &&& final(state).latched_debug == dbg
            &&& final(state).latched_cheat == (if cheat_chord(held@) { s0.latched_cheat || fire } else { false })
            &&& final(state).used == (s0.used || fire)
            &&& opened == fire
            &&& *final(player) == (if fire {
                Player { health_cells: CHEAT_HEALTH_CELLS, bombs: CHEAT_BOMBS, health: CHEAT_HEALTH, ..*old(player) }
            } else {
                *old(player)
            })
            &&& final(sounds)@ == old(sounds)@ + (if toggled { seq![snd::PAUSE_GAME] } else { Seq::empty() })
                + (if fire { seq![snd::PAUSE_GAME] } else { Seq::empty() })
        }),
{
    let ghost s0 = old(sounds)@;
    let toggled = if debug_chord_held(held) {
        if !state.latched_debug {
            state.latched_debug = true;
            state.debug = !state.debug;
            sounds.push(snd::PAUSE_GAME);
            true
        } else {
            false
        }
    } else {
        state.latched_debug = false;
        false
    };
    let ghost s1 = sounds@;
    assert(s1 == s0 + (if toggled { seq![snd::PAUSE_GAME] } else { Seq::<u16>::empty() }));
    if !cheat_chord_held(held) {
        state.latched_cheat = false;
        assert(sounds@ == s1 + Seq::<u16>::empty());
        return false;
    }
    if state.latched_cheat || state.used {
        assert(sounds@ == s1 + Seq::<u16>::empty());
        return false;
    }
    state.latched_cheat = true;
    state.used = true;
    *player = Player { health_cells: CHEAT_HEALTH_CELLS, bombs: CHEAT_BOMBS, health: CHEAT_HEALTH, ..*player };
    sounds.push(snd::PAUSE_GAME);
    true
}

/// Any key closes the message, but not while the chord that opened it is
/// still held, or it would close itself on the same press.
pub fn close_cheat_message(open: bool, held: &Vec<Key>, any_just_pressed: bool) -> (r: bool)
    ensures
        r == (open && !cheat_chord(held@) && any_just_pressed),
{
    open && !cheat_chord_held(held) && any_just_pressed
}

} // verus!
