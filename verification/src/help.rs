//! The in-game F1 help menu: a frame over the paused game offering save,
//! restore, the high scores, a retry, the level warp and quitting. It
//! pauses rather than leaving play, which would tear the level down.
use vstd::prelude::*;
use crate::input::Key;
use crate::panel::{frame_left, TextFrame};
use crate::screen::pressed;

verus! {

/// The menu's frame.
pub fn menu_frame() -> (f: TextFrame)
    ensures
        f.top == 2 && f.height == 14 && f.width == 22,
        f.title@ == "HELP MENU"@ && f.bottom@ == "Press ESC to quit."@,
        f.lines_spec() == seq![
            (frame_left(22) + 1, 5int, " S)ave your game"@),
            (frame_left(22) + 1, 6int, " R)estore a game"@),
            (frame_left(22) + 1, 7int, " V)iew High Scores"@),
            (frame_left(22) + 1, 8int, " T)ry level again"@),
            (frame_left(22) + 1, 9int, " L)evel Warp"@),
            (frame_left(22) + 1, 10int, " Q)uit Game"@),
        ],
{
    TextFrame::new(2, 14, 22, "HELP MENU", "Press ESC to quit.")
        .text(5, " S)ave your game")
        .text(6, " R)estore a game")
        .text(7, " V)iew High Scores")
        .text(8, " T)ry level again")
        .text(9, " L)evel Warp")
        .text(10, " Q)uit Game")
}

/// What the help menu's keys lead to.
#[derive(Clone, Copy, PartialEq, Eq, Debug, Structural)]
pub enum HelpAction {
    Nothing,
    /// F1 during play: open the menu (and pause).
    Open,
    /// The menu closed (and play resumes), to do this.
    Closed(HelpChoice),
}

#[derive(Clone, Copy, PartialEq, Eq, Debug, Structural)]
pub enum HelpChoice {
    /// Escape or F1: back to the game.
    Resume,
    /// Q: to the main menu.
    QuitToMenu,
    /// T: restart the level.
    Restart,
    /// S: the save prompt.
    Save,
    /// R: the restore prompt.
    Restore,
    /// V: the high score table.
    HighScores,
    /// L: the level warp.
    LevelWarp,
}

/// The menu's choice among the keys just pressed, by priority: Q, T, S, R,
/// V, L, and otherwise Escape or F1 just closes it.
pub open spec fn help_choice(keys: Seq<Key>) -> Option<HelpChoice> {
    if !(keys.contains(Key::Escape) || keys.contains(Key::F1) || keys.contains(Key::KeyQ) || keys.contains(Key::KeyS)
        || keys.contains(Key::KeyR) || keys.contains(Key::KeyV) || keys.contains(Key::KeyT) || keys.contains(Key::KeyL)) {
        None
    } else if keys.contains(Key::KeyQ) {
        Some(HelpChoice::QuitToMenu)
    } else if keys.contains(Key::KeyT) {
        Some(HelpChoice::Restart)
    } else if keys.contains(Key::KeyS) {
        Some(HelpChoice::Save)
    } else if keys.contains(Key::KeyR) {
        Some(HelpChoice::Restore)
    } else if keys.contains(Key::KeyV) {
        Some(HelpChoice::HighScores)
    } else if keys.contains(Key::KeyL) {
        Some(HelpChoice::LevelWarp)
    } else {
        Some(HelpChoice::Resume)
    }
}

/// F1 opens the menu during play; while it is open its keys close it with
/// a choice. Another frame that pauses the game (a hint) is left alone.
pub fn help_menu_input(paused: &mut bool, menu_open: bool, keys: &Vec<Key>) -> (r: HelpAction)
    ensures
        !*old(paused) ==> (if keys@.contains(Key::F1) { r == HelpAction::Open && *final(paused) } else {
            r == HelpAction::Nothing && !*final(paused)
        }),
        *old(paused) && !menu_open ==> r == HelpAction::Nothing && *final(paused),
        *old(paused) && menu_open ==> match help_choice(keys@) {
            Some(c) => r == HelpAction::Closed(c) && !*final(paused),
            None => r == HelpAction::Nothing && *final(paused),
        },
{
    if !*paused {
        if pressed(keys, Key::F1) {
            *paused = true;
            return HelpAction::Open;
        }
        return HelpAction::Nothing;
    }
    if !menu_open {
        return HelpAction::Nothing;
    }
    let q = pressed(keys, Key::KeyQ);
    let t = pressed(keys, Key::KeyT);
    let s = pressed(keys, Key::KeyS);
    let r = pressed(keys, Key::KeyR);
    let v = pressed(keys, Key::KeyV);
    let l = pressed(keys, Key::KeyL);
    let chosen = pressed(keys, Key::Escape) || pressed(keys, Key::F1) || q || s || r || v || t || l;
    if !chosen {
        return HelpAction::Nothing;
    }
    *paused = false;
    let c = if q {
        HelpChoice::QuitToMenu
    } else if t {
        HelpChoice::Restart
    } else if s {
        HelpChoice::Save
    } else if r {
        HelpChoice::Restore
    } else if v {
        HelpChoice::HighScores
    } else if l {
        HelpChoice::LevelWarp
    } else {
        HelpChoice::Resume
    };
    HelpAction::Closed(c)
}

} // verus!
