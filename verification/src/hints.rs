//! Hint globes, the flickering orbs on pedestals that dispense advice, and
//! the three one-shot hints the game volunteers.
//!
//! Standing against a globe makes it the near one; its message opens when
//! the player presses up at it, or unprompted for the first globe touched
//! in a level. Pressing up at a globe reads it instead of panning the view.
use vstd::prelude::*;
use crate::panel::{frame_left, TextFrame};
use crate::player::{Player, PLAYER_HEIGHT};

verus! {

/// The orb the player can touch, and the hint it holds.
#[derive(Clone, Copy, PartialEq, Eq, Debug, Structural)]
pub struct HintGlobe {
    pub x: i32,
    pub y: i32,
    pub width_tiles: i32,
    pub height_tiles: i32,
    pub hint: u16,
}

/// The hint number each `ACT_HINT_GLOBE_*` id carries: the ids sit in
/// four blocks of the actor table.
pub open spec fn hint_number_spec(act_id: u16) -> Option<u16> {
    if act_id == 125 {
        Some(0u16)
    } else if 204 <= act_id <= 212 {
        Some((act_id - 203) as u16)
    } else if 238 <= act_id <= 243 {
        Some((act_id - 228) as u16)
    } else if 253 <= act_id <= 262 {
        Some((act_id - 237) as u16)
    } else {
        None
    }
}

pub fn hint_number_for_actor(act_id: u16) -> (r: Option<u16>)
    ensures
        r == hint_number_spec(act_id),
{
    if act_id == 125 {
        Some(0)
    } else if 204 <= act_id && act_id <= 212 {
        Some(act_id - 203)
    } else if 238 <= act_id && act_id <= 243 {
        Some(act_id - 228)
    } else if 253 <= act_id && act_id <= 262 {
        Some(act_id - 237)
    } else {
        None
    }
}

/// `IsTouchingPlayer` for a sprite whose origin is its bottom-left tile:
/// a dead player touches nothing.
pub open spec fn touching_spec(p: Player, x: int, y: int, w: int, h: int) -> bool {
    let px = p.x as int;
    let py = p.y as int;
    let horizontal = (px <= x && px + 3 > x) || (px >= x && x + w > px);
    let vertical = (y - h < py && py <= y) || (py - (PLAYER_HEIGHT - 1) <= y && y <= py);
    p.dead_timer == 0 && horizontal && vertical
}

pub fn touching_player(player: &Player, x: i32, y: i32, width_tiles: i32, height_tiles: i32) -> (r: bool)
    ensures
        r == touching_spec(*player, x as int, y as int, width_tiles as int, height_tiles as int),
{
    if player.dead_timer != 0 {
        return false;
    }
    let (px, py) = (player.x as i64, player.y as i64);
    let (x, y, w, h) = (x as i64, y as i64, width_tiles as i64, height_tiles as i64);
    let horizontal = (px <= x && px + 3 > x) || (px >= x && x + w > px);
    let vertical = (y - h < py && py <= y) || (py - (PLAYER_HEIGHT as i64 - 1) <= y && y <= py);
    horizontal && vertical
}

/// The hint of the first globe in `globes` the player touches.
pub open spec fn near_globe(p: Player, globes: Seq<HintGlobe>, n: int) -> Option<u16>
    decreases n,
{
    if n <= 0 {
        None
    } else {
        let g = globes[globes.len() - n];
        if touching_spec(p, g.x as int, g.y as int, g.width_tiles as int, g.height_tiles as int) {
            Some(g.hint)
        } else {
            near_globe(p, globes, n - 1)
        }
    }
}

/// Which globe, if any, the player stands against.
pub fn detect_hint_globe(player: &Player, globes: &Vec<HintGlobe>) -> (r: Option<u16>)
    ensures
        r == near_globe(*player, globes@, globes@.len() as int),
{
    let mut i: usize = 0;
    while i < globes.len()
        invariant
            i <= globes@.len(),
            near_globe(*player, globes@, globes@.len() as int) == near_globe(*player, globes@, globes@.len() - i),
        decreases globes@.len() - i,
    {
        let g = globes[i];
        if touching_player(player, g.x, g.y, g.width_tiles, g.height_tiles) {
            return Some(g.hint);
        }
        i = i + 1;
    }
    None
}

/// What reading a globe decides: the latch and the first-globe flag after,
/// and the hint to open (which also pauses the game with an alert).
pub open spec fn read_globe_spec(near: Option<u16>, look_up: bool, paused: bool, latch: bool, saw_auto: bool) -> (bool, bool, Option<u16>) {
    let latch1 = if !look_up { false } else { latch };
    if paused {
        (latch1, saw_auto, None)
    } else {
        match near {
            None => (latch1, saw_auto, None),
            Some(hint) => {
                let asked = look_up && !latch1;
                if !asked && saw_auto {
                    (latch1, saw_auto, None)
                } else {
                    (if look_up { true } else { latch1 }, true, Some(hint))
                }
            },
        }
    }
}

/// Opens the near globe's message when the player asks for it (a fresh
/// up-press), or unprompted for the level's first globe. A held up-key
/// cannot re-open the message it just dismissed.
pub fn read_hint_globe(near: Option<u16>, look_up: bool, paused: bool, latch: &mut bool, saw_auto: &mut bool) -> (r: Option<u16>)
    ensures
        (*final(latch), *final(saw_auto), r) == read_globe_spec(near, look_up, paused, *old(latch), *old(saw_auto)),
{
    if !look_up {
        *latch = false;
    }
    if paused {
        return None;
    }
    let hint = match near {
        Some(h) => h,
        None => {
            return None;
        },
    };
    let asked = look_up && !*latch;
    if !asked && *saw_auto {
        return None;
    }
    if look_up {
        *latch = true;
    }
    *saw_auto = true;
    Some(hint)
}

/// A globe's message, by episode and hint number; episodes reuse numbers
/// for different text.
pub open spec fn hint_body(episode: u8, hint: u16) -> Seq<Seq<char>> {
    match (episode, hint) {
        (1, 0) => seq!["These hint globes will"@, "help you along your"@, "journey.  Press the up"@, "key to reread them."@],
        (1, 1) => seq!["Bump head into switch"@, "above!"@],
        (1, 2) => seq!["The ice in this cave is"@, "very, very slippery."@],
        (1, 3) => seq!["Use this shield for"@, "temporary invincibility."@],
        (1, 4) => seq!["You found a secret"@, "area!!!  Good job!"@],
        (1, 5) => seq!["In high places look up"@, "to find bonus objects."@],
        (1, 6) => seq!["     Out of Order..."@],
        (1, 7) => seq!["This might be a good"@, "time to save your game!"@],
        (1, 8) => seq!["Press your up key to"@, "use the transporter."@],
        (1, 9) => seq![" (1) FOR..."@],
        (1, 10) => seq![" (2) EXTRA..."@],
        (1, 11) => seq![" (3) POINTS,..."@],
        (1, 12) => seq![" (4) DESTROY..."@],
        (1, 13) => seq![" (5) HINT..."@],
        (1, 14) => seq![" (6) GLOBES!!!"@],
        (1, 15) => seq![" The Clam Plants won't"@, " hurt you if their"@, " mouths are closed."@],
        (1, 16) => seq![" Collect the STARS to"@, " advance to BONUS"@, " STAGES."@],
        (1, 17) => seq![" Some creatures require"@, " more than one pounce"@, " to defeat!"@],
        (1, 18) => seq!["Cosmo can climb wall's"@, "with his suction hands."@],
        (2, 0) => seq!["Look out for enemies"@, "from above!"@],
        (2, 1) => seq!["   Don't..."@],
        (2, 2) => seq!["   step..."@],
        (2, 3) => seq!["   on..."@],
        (2, 4) => seq!["   worms..."@],
        (2, 5) => seq!["There is a secret area"@, "in this level!"@],
        (2, 6) => seq!["You found the secret"@, "area.  Well done."@],
        (2, 7) => seq!["   Out of order."@],
        (3, 0) => seq!["Did you find the"@, "hamburger in this level?"@],
        (3, 1) => seq!["This hint globe being"@, "upgraded to a 80986."@],
        (3, 2) => seq!["WARNING:  Robots shoot"@, "when the lights are on!"@],
        (3, 3) => seq!["There is a hidden scooter"@, "in this level."@],
        (3, 4) => seq!["Did you find the"@, "hamburger in level 8!"@],
        (3, 5) => seq!["  Out of order...!"@],
        _ => seq!["   Out of order..."@],
    }
}

fn hint_body_lines(episode: u8, hint: u16) -> (r: Vec<&'static str>)
    ensures
        r@.len() == hint_body(episode, hint).len(),
        forall|i: int| 0 <= i < r@.len() ==> (#[trigger] r@[i])@ == hint_body(episode, hint)[i],
{
    let r = match (episode, hint) {
        (1, 0) => vec!["These hint globes will", "help you along your", "journey.  Press the up", "key to reread them."],
        (1, 1) => vec!["Bump head into switch", "above!"],
        (1, 2) => vec!["The ice in this cave is", "very, very slippery."],
        (1, 3) => vec!["Use this shield for", "temporary invincibility."],
        (1, 4) => vec!["You found a secret", "area!!!  Good job!"],
        (1, 5) => vec!["In high places look up", "to find bonus objects."],
        (1, 6) => vec!["     Out of Order..."],
        (1, 7) => vec!["This might be a good", "time to save your game!"],
        (1, 8) => vec!["Press your up key to", "use the transporter."],
        (1, 9) => vec![" (1) FOR..."],
        (1, 10) => vec![" (2) EXTRA..."],
        (1, 11) => vec![" (3) POINTS,..."],
        (1, 12) => vec![" (4) DESTROY..."],
        (1, 13) => vec![" (5) HINT..."],
        (1, 14) => vec![" (6) GLOBES!!!"],
        (1, 15) => vec![" The Clam Plants won't", " hurt you if their", " mouths are closed."],
        (1, 16) => vec![" Collect the STARS to", " advance to BONUS", " STAGES."],
        (1, 17) => vec![" Some creatures require", " more than one pounce", " to defeat!"],
        (1, 18) => vec!["Cosmo can climb wall's", "with his suction hands."],
        (2, 0) => vec!["Look out for enemies", "from above!"],
        (2, 1) => vec!["   Don't..."],
        (2, 2) => vec!["   step..."],
        (2, 3) => vec!["   on..."],
        (2, 4) => vec!["   worms..."],
        (2, 5) => vec!["There is a secret area", "in this level!"],
        (2, 6) => vec!["You found the secret", "area.  Well done."],
        (2, 7) => vec!["   Out of order."],
        (3, 0) => vec!["Did you find the", "hamburger in this level?"],
        (3, 1) => vec!["This hint globe being", "upgraded to a 80986."],
        (3, 2) => vec!["WARNING:  Robots shoot", "when the lights are on!"],
        (3, 3) => vec!["There is a hidden scooter", "in this level."],
        (3, 4) => vec!["Did you find the", "hamburger in level 8!"],
        (3, 5) => vec!["  Out of order...!"],
        _ => vec!["   Out of order..."],
    };
    r
}

/// The frame's width: episode 1's longest hint gets a wider one.
pub open spec fn hint_width(episode: u8, hint: u16) -> int {
    if episode == 1 && hint == 18 { 30 } else { 28 }
}

/// `ShowHintGlobeMessage`: the body starts at row 5 and the footer sits at
/// `top + height - 2`, so the frame is the body plus six rows.
pub fn hint_frame(episode: u8, hint: u16) -> (f: TextFrame)
    ensures
        f.top == 2,
        f.width == hint_width(episode, hint),
        f.height == hint_body(episode, hint).len() + 6,
        f.title@ == "COSMIC HINT!"@,
        f.bottom@ == "Press any key to exit."@,
        f.lines_spec() == Seq::new(hint_body(episode, hint).len(), |i: int| (frame_left(hint_width(episode, hint)) + 1, 5 + i, hint_body(episode, hint)[i])),
{
    let body = hint_body_lines(episode, hint);
    let width: i32 = if episode == 1 && hint == 18 { 30 } else { 28 };
    let n = body.len();
    assert(n <= 4);
    let height = n as i32 + 6;
    let mut frame = TextFrame::new(2, height, width, "COSMIC HINT!", "Press any key to exit.");
    let ghost want = Seq::new(n as nat, |i: int| (frame_left(width as int) + 1, 5 + i, hint_body(episode, hint)[i]));
    let mut i: usize = 0;
    while i < n
        invariant
            n == body@.len(),
            n <= 4,
            i <= n,
            frame.top == 2 && frame.height == height && frame.width == width,
            height == n + 6,
            width == hint_width(episode, hint),
            frame.title@ == "COSMIC HINT!"@,
            frame.bottom@ == "Press any key to exit."@,
            body@.len() == hint_body(episode, hint).len(),
            forall|k: int| 0 <= k < body@.len() ==> (#[trigger] body@[k])@ == hint_body(episode, hint)[k],
            want == Seq::new(n as nat, |k: int| (frame_left(width as int) + 1, 5 + k, hint_body(episode, hint)[k])),
            frame.lines_spec() == want.subrange(0, i as int),
        decreases n - i,
    {
        frame = frame.text(5 + i as i32, body[i]);
        proof {
            assert(want.subrange(0, i + 1) =~= want.subrange(0, i as int).push(want[i as int]));
        }
        i = i + 1;
    }
    proof {
        assert(want.subrange(0, n as int) =~= want);
    }
    frame
}

/// A hint's body sits strictly between its frame's title and its footer:
/// no line of any episode's hints overprints either, or runs outside the
/// frame.
pub proof fn lemma_hint_body_clear_of_title_and_footer(episode: u8, hint: u16, i: int)
    requires
        0 <= i < hint_body(episode, hint).len(),
    ensures
        ({
            let top = 2int;
            let height = hint_body(episode, hint).len() + 6;
            let row = 5 + i;
            &&& top + 1 < row
            &&& row < top + height - 2
        }),
{
}

/// `POUNCE_HINT_*`.
#[derive(Clone, Copy, PartialEq, Eq, Debug, Default, Structural)]
pub enum PounceHint {
    #[default]
    Unseen,
    Queued,
    Seen,
}

/// Which one-shot hint to raise.
#[derive(Clone, Copy, PartialEq, Eq, Debug, Structural)]
pub enum Hint {
    Bomb,
    Pounce,
    Health,
}

impl Hint {
    /// The frame's title, footer and lines.
    pub fn lines(self) -> (r: (&'static str, &'static str, Vec<&'static str>))
        ensures
            self == Hint::Bomb ==> r.0@ == ""@ && r.1@ == ""@ && r.2@.len() == 2
                && r.2@[0]@ == "You haven't found any"@ && r.2@[1]@ == "bombs to use yet!"@,
            self == Hint::Pounce ==> r.0@ == "REMINDER:  Jump on"@ && r.1@ == "defend yourself."@
                && r.2@.len() == 1 && r.2@[0]@ == " top of creatures to"@,
            self == Hint::Health ==> r.0@ == ""@ && r.1@ == ""@ && r.2@.len() == 3
                && r.2@[0]@ == " Power Up modules"@ && r.2@[1]@ == " increase Cosmo's"@ && r.2@[2]@ == " health."@,
    {
        match self {
            Hint::Bomb => ("", "", vec!["You haven't found any", "bombs to use yet!"]),
            Hint::Pounce => ("REMINDER:  Jump on", "defend yourself.", vec![" top of creatures to"]),
            Hint::Health => ("", "", vec![" Power Up modules", " increase Cosmo's", " health."]),
        }
    }
}

/// Builds the frame a one-shot hint opens: its lines from row 3, two rows
/// taller than its body.
pub fn one_shot_frame(hint: Hint) -> (f: TextFrame)
    ensures
        f.top == 2,
        f.width == 28,
        f.height == f.lines_spec().len() + 2,
        forall|i: int| 0 <= i < f.lines_spec().len() ==> (#[trigger] f.lines_spec()[i]).0 == frame_left(28) + 1
            && f.lines_spec()[i].1 == 3 + i,
{
    let (title, bottom, lines) = hint.lines();
    let n = lines.len();
    assert(n <= 3);
    let mut frame = TextFrame::new(2, n as i32 + 2, 28, title, bottom);
    let mut i: usize = 0;
    while i < n
        invariant
            n == lines@.len(),
            n <= 3,
            i <= n,
            frame.top == 2 && frame.width == 28 && frame.height == n + 2,
            frame.lines_spec().len() == i,
            forall|k: int| 0 <= k < i ==> (#[trigger] frame.lines_spec()[k]).0 == frame_left(28) + 1
                && frame.lines_spec()[k].1 == 3 + k,
        decreases n - i,
    {
        frame = frame.text(3 + i as i32, lines[i]);
        i = i + 1;
    }
    frame
}

/// The one-shot hints seen this episode.
#[derive(Clone, Copy, PartialEq, Eq, Debug, Default, Structural)]
pub struct SeenHints {
    pub bomb: bool,
    pub health: bool,
    pub pounce: PounceHint,
}

impl SeenHints {
    /// Trying to place a bomb without any: the bomb hint, the first time.
    pub fn on_bomb_refused(&mut self) -> (r: Option<Hint>)
        ensures
            r == (if old(self).bomb { None } else { Some(Hint::Bomb) }),
            *final(self) == (SeenHints { bomb: true, ..*old(self) }),
    {
        if self.bomb {
            return None;
        }
        self.bomb = true;
        Some(Hint::Bomb)
    }

    /// Collecting a power-up: the health hint, the first time.
    pub fn on_power_up(&mut self) -> (r: Option<Hint>)
        ensures
            r == (if old(self).health { None } else { Some(Hint::Health) }),
            *final(self) == (SeenHints { health: true, ..*old(self) }),
    {
        if self.health {
            return None;
        }
        self.health = true;
        Some(Hint::Health)
    }

    /// A first hit queues the pounce reminder rather than showing it
    /// there and then.
    pub fn on_first_hurt(&mut self)
        ensures
            *final(self) == (if old(self).pounce == PounceHint::Unseen {
                SeenHints { pounce: PounceHint::Queued, ..*old(self) }
            } else {
                *old(self)
            }),
    {
        if self.pounce == PounceHint::Unseen {
            self.pounce = PounceHint::Queued;
        }
    }

    /// Pouncing anything means the player already knows.
    pub fn on_pounce(&mut self)
        ensures
            *final(self) == (SeenHints { pounce: PounceHint::Seen, ..*old(self) }),
    {
        self.pounce = PounceHint::Seen;
    }

    /// Drained where showing a frame is safe: the queued reminder, once.
    pub fn take_queued_pounce(&mut self) -> (r: Option<Hint>)
        ensures
            old(self).pounce == PounceHint::Queued ==> r == Some(Hint::Pounce)
                && *final(self) == (SeenHints { pounce: PounceHint::Seen, ..*old(self) }),
            old(self).pounce != PounceHint::Queued ==> r is None && *final(self) == *old(self),
    {
        if self.pounce != PounceHint::Queued {
            return None;
        }
        self.pounce = PounceHint::Seen;
        Some(Hint::Pounce)
    }
}

} // verus!
