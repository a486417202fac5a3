//! Saving and restoring a game, in the DOS game's own file format.
//!
//! A save slot is a fixed 24-byte record: little-endian 16-bit words with
//! a 32-bit score after the first, ending in a checksum of five of the
//! words. A save written by the DOS game loads here, and one written
//! here loads there.
//!
//! What gets saved is the state at the start of the current level, not the
//! live state: the level-entry checkpoint.
use vstd::prelude::*;
use crate::flow::{Checkpoint, LevelSequence, Score, Stars};
use crate::highscores::{decimal, decimal_string};
use crate::player::Player;
use crate::input::Key;
use crate::panel::{frame_left, TextFrame};
use crate::screen::pressed;

verus! {

/// A save slot's contents.
#[derive(Clone, Copy, PartialEq, Eq, Debug, Structural)]
pub struct SaveGame {
    pub health: u16,
    pub score: u32,
    pub stars: u16,
    pub level: u16,
    pub bombs: u16,
    pub health_cells: u16,
    pub used_cheat: bool,
}

/// `v` as two little-endian bytes.
pub open spec fn le16(v: u16) -> Seq<u8> {
    seq![(v % 256) as u8, (v / 256) as u8]
}

/// `v` as four little-endian bytes.
pub open spec fn le32(v: u32) -> Seq<u8> {
    seq![(v % 256) as u8, ((v / 256) % 256) as u8, ((v / 65536) % 256) as u8, (v / 16777216) as u8]
}

/// The word at `at`, read little-endian.
pub open spec fn word_at(b: Seq<u8>, at: int) -> u16 {
    (b[at] + 256 * b[at + 1]) as u16
}

/// The dword at `at`, read little-endian.
pub open spec fn dword_at(b: Seq<u8>, at: int) -> u32 {
    (b[at] + 256 * b[at + 1] + 65536 * b[at + 2] + 16777216 * b[at + 3]) as u32
}

/// The wrapping sum of five of the words, deliberately leaving out the
/// score.
pub open spec fn checksum_spec(s: SaveGame) -> u16 {
    ((s.health + s.stars + s.level + s.bombs + s.health_cells) % 65536) as u16
}

/// The record: health, score, stars, level, bombs, health cells, the cheat
/// flag, the three one-shot hints marked seen (bomb 1, pounce 2, health
/// 1, so a restored game never explains the basics again), and the
/// checksum.
pub open spec fn encode(s: SaveGame) -> Seq<u8> {
    le16(s.health) + le32(s.score) + le16(s.stars) + le16(s.level) + le16(s.bombs) + le16(s.health_cells)
        + le16(if s.used_cheat { 1u16 } else { 0u16 }) + le16(1) + le16(2) + le16(1) + le16(checksum_spec(s))
}

/// What a record reads back as: `None` when it is too short to hold the
/// checksum, or the checksum does not match.
pub open spec fn decode(b: Seq<u8>) -> Option<SaveGame> {
    if b.len() < 24 {
        None
    } else {
        let s = SaveGame {
            health: word_at(b, 0),
            score: dword_at(b, 2),
            stars: word_at(b, 6),
            level: word_at(b, 8),
            bombs: word_at(b, 10),
            health_cells: word_at(b, 12),
            used_cheat: word_at(b, 14) != 0,
        };
        if word_at(b, 22) == checksum_spec(s) { Some(s) } else { None }
    }
}

fn put_u16(out: &mut Vec<u8>, v: u16)
    ensures
        final(out)@ == old(out)@ + le16(v),
{
    out.push((v % 256) as u8);
    out.push((v / 256) as u8);
    assert(final(out)@ =~= old(out)@ + le16(v));
}

fn get_u16(b: &[u8], at: usize) -> (r: Option<u16>)
    ensures
        r is Some <==> at + 2 <= b@.len(),
        r matches Some(v) ==> v == word_at(b@, at as int),
{
    if at >= b.len() || b.len() - at < 2 {
        return None;
    }
    let lo = b[at] as u16;
    let hi = b[at + 1] as u16;
    Some(lo + 256 * hi)
}

impl SaveGame {
    /// The slot record for the level-entry checkpoint: health, stars,
    /// bombs and cells as their low 16 bits (a negative health as 0).
    pub fn from_checkpoint(cp: &Checkpoint, level: usize, used_cheat: bool) -> (s: Self)
        ensures
            s.health == (if cp.health < 0 { 0u16 } else { cp.health as u16 }),
            s.score == cp.score,
            s.stars == cp.stars as u16,
            s.level == level as u16,
            s.bombs == cp.bombs as u16,
            s.health_cells == cp.health_cells as u16,
            s.used_cheat == used_cheat,
    {
        SaveGame {
            health: if cp.health < 0 { 0 } else { cp.health as u16 },
            score: cp.score,
            stars: cp.stars as u16,
            level: level as u16,
            bombs: cp.bombs as u16,
            health_cells: cp.health_cells as u16,
            used_cheat,
        }
    }

    /// The checksum written with a save and checked on restoring it.
    pub fn checksum(&self) -> (r: u16)
        ensures
            r == checksum_spec(*self),
    {
        let sum: u32 = self.health as u32 + self.stars as u32 + self.level as u32 + self.bombs as u32 + self.health_cells as u32;
        (sum % 65536) as u16
    }

    pub fn to_bytes(&self) -> (r: Vec<u8>)
        ensures
            r@ == encode(*self),
    {
        let mut out: Vec<u8> = Vec::new();
        put_u16(&mut out, self.health);
        let sc = self.score;
        out.push((sc % 256) as u8);
        out.push(((sc / 256) % 256) as u8);
        out.push(((sc / 65536) % 256) as u8);
        out.push((sc / 16777216) as u8);
        assert(out@ =~= le16(self.health) + le32(sc));
        put_u16(&mut out, self.stars);
        put_u16(&mut out, self.level);
        put_u16(&mut out, self.bombs);
        put_u16(&mut out, self.health_cells);
        put_u16(&mut out, if self.used_cheat { 1 } else { 0 });
        put_u16(&mut out, 1);
        put_u16(&mut out, 2);
        put_u16(&mut out, 1);
        put_u16(&mut out, self.checksum());
        out
    }

    /// `None` for a record that is too short or fails its checksum, which
    /// is reported as a game that cannot be found.
    pub fn from_bytes(b: &[u8]) -> (r: Option<Self>)
        ensures
            r == decode(b@),
    {
        if b.len() < 24 {
            return None;
        }
        let health = get_u16(b, 0).unwrap();
        let score: u32 = b[2] as u32 + 256 * (b[3] as u32) + 65536 * (b[4] as u32) + 16777216 * (b[5] as u32);
        let stars = get_u16(b, 6).unwrap();
        let level = get_u16(b, 8).unwrap();
        let bombs = get_u16(b, 10).unwrap();
        let health_cells = get_u16(b, 12).unwrap();
        let cheat = get_u16(b, 14).unwrap();
        let save = SaveGame { health, score, stars, level, bombs, health_cells, used_cheat: cheat != 0 };
        let stored = get_u16(b, 22).unwrap();
        if stored != save.checksum() {
            return None;
        }
        Some(save)
    }
}

proof fn lemma_le16(v: u16)
    ensures
        word_at(le16(v), 0) == v,
{
    assert(((v % 256) as u8) + 256 * ((v / 256) as u8) == v) by (nonlinear_arith);
}

proof fn lemma_le32(v: u32)
    ensures
        dword_at(le32(v), 0) == v,
{
    let b0 = v % 256;
    let b1 = (v / 256) % 256;
    let b2 = (v / 65536) % 256;
    let b3 = v / 16777216;
    assert(b0 + 256 * b1 + 65536 * b2 + 16777216 * b3 == v) by (nonlinear_arith)
        requires
            b0 == v % 256,
            b1 == (v / 256) % 256,
            b2 == (v / 65536) % 256,
            b3 == v / 16777216,
    ;
    assert(b3 < 256) by (nonlinear_arith)
        requires
            b3 == v / 16777216,
            v <= u32::MAX,
    ;
}

/// A saved game reads back as the game that was saved.
pub proof fn lemma_save_round_trip(s: SaveGame)
    ensures
        decode(encode(s)) == Some(s),
        encode(s).len() == 24,
{
    let b = encode(s);
    lemma_le16(s.health);
    lemma_le32(s.score);
    lemma_le16(s.stars);
    lemma_le16(s.level);
    lemma_le16(s.bombs);
    lemma_le16(s.health_cells);
    lemma_le16(if s.used_cheat { 1u16 } else { 0u16 });
    lemma_le16(checksum_spec(s));
    assert(b.subrange(0, 2) =~= le16(s.health));
    assert(b.subrange(2, 6) =~= le32(s.score));
    assert(b.subrange(6, 8) =~= le16(s.stars));
    assert(b.subrange(8, 10) =~= le16(s.level));
    assert(b.subrange(10, 12) =~= le16(s.bombs));
    assert(b.subrange(12, 14) =~= le16(s.health_cells));
    assert(b.subrange(14, 16) =~= le16(if s.used_cheat { 1u16 } else { 0u16 }));
    assert(b.subrange(22, 24) =~= le16(checksum_spec(s)));
    assert(word_at(b, 0) == word_at(b.subrange(0, 2), 0));
    assert(dword_at(b, 2) == dword_at(b.subrange(2, 6), 0));
    assert(word_at(b, 6) == word_at(b.subrange(6, 8), 0));
    assert(word_at(b, 8) == word_at(b.subrange(8, 10), 0));
    assert(word_at(b, 10) == word_at(b.subrange(10, 12), 0));
    assert(word_at(b, 12) == word_at(b.subrange(12, 14), 0));
    assert(word_at(b, 14) == word_at(b.subrange(14, 16), 0));
    assert(word_at(b, 22) == word_at(b.subrange(22, 24), 0));
}

/// The slot record's layout, byte by byte, each word low byte first:
/// health at 0, the score's four bytes at 2, stars at 6, level at 8, bombs
/// at 10, health cells at 12, the cheat flag at 14, the three hints seen
/// (1, 2, 1) at 16, 18 and 20, and the checksum at 22. Reading a record
/// takes each field back from the same place.
pub proof fn lemma_save_layout(s: SaveGame, b: Seq<u8>)
    ensures
        encode(s).len() == 24,
        encode(s)[0] == s.health % 256 && encode(s)[1] == s.health / 256,
        encode(s)[2] == s.score % 256 && encode(s)[3] == (s.score / 256) % 256
            && encode(s)[4] == (s.score / 65536) % 256 && encode(s)[5] == s.score / 16777216,
        encode(s)[6] == s.stars % 256 && encode(s)[7] == s.stars / 256,
        encode(s)[8] == s.level % 256 && encode(s)[9] == s.level / 256,
        encode(s)[10] == s.bombs % 256 && encode(s)[11] == s.bombs / 256,
        encode(s)[12] == s.health_cells % 256 && encode(s)[13] == s.health_cells / 256,
        encode(s)[14] == (if s.used_cheat { 1u8 } else { 0u8 }) && encode(s)[15] == 0,
        encode(s)[16] == 1 && encode(s)[17] == 0,
        encode(s)[18] == 2 && encode(s)[19] == 0,
        encode(s)[20] == 1 && encode(s)[21] == 0,
        encode(s)[22] == checksum_spec(s) % 256 && encode(s)[23] == checksum_spec(s) / 256,
        decode(b) matches Some(t) ==> {
            &&& t.health == b[0] + 256 * b[1]
            &&& t.score == b[2] + 256 * b[3] + 65536 * b[4] + 16777216 * b[5]
            &&& t.stars == b[6] + 256 * b[7]
            &&& t.level == b[8] + 256 * b[9]
            &&& t.bombs == b[10] + 256 * b[11]
            &&& t.health_cells == b[12] + 256 * b[13]
            &&& t.used_cheat == (b[14] + 256 * b[15] != 0)
        },
{
    let e = encode(s);
    assert(e.subrange(0, 2) =~= le16(s.health));
    assert(e.subrange(2, 6) =~= le32(s.score));
    assert(e.subrange(6, 8) =~= le16(s.stars));
    assert(e.subrange(8, 10) =~= le16(s.level));
    assert(e.subrange(10, 12) =~= le16(s.bombs));
    assert(e.subrange(12, 14) =~= le16(s.health_cells));
    assert(e.subrange(14, 16) =~= le16(if s.used_cheat { 1u16 } else { 0u16 }));
    assert(e.subrange(16, 18) =~= le16(1));
    assert(e.subrange(18, 20) =~= le16(2));
    assert(e.subrange(20, 22) =~= le16(1));
    assert(e.subrange(22, 24) =~= le16(checksum_spec(s)));
    if decode(b) is Some {
        lemma_word_value(b, 0);
        lemma_word_value(b, 6);
        lemma_word_value(b, 8);
        lemma_word_value(b, 10);
        lemma_word_value(b, 12);
        lemma_word_value(b, 14);
        lemma_dword_value(b, 2);
    }
}

proof fn lemma_word_value(b: Seq<u8>, at: int)
    requires
        0 <= at,
        at + 2 <= b.len(),
    ensures
        word_at(b, at) == b[at] + 256 * b[at + 1],
{
    assert(0 <= b[at] + 256 * b[at + 1] <= 65535) by (nonlinear_arith)
        requires
            0 <= b[at] < 256,
            0 <= b[at + 1] < 256,
    ;
}

proof fn lemma_dword_value(b: Seq<u8>, at: int)
    requires
        0 <= at,
        at + 4 <= b.len(),
    ensures
        dword_at(b, at) == b[at] + 256 * b[at + 1] + 65536 * b[at + 2] + 16777216 * b[at + 3],
{
    assert(0 <= b[at] + 256 * b[at + 1] + 65536 * b[at + 2] + 16777216 * b[at + 3] <= 0xffff_ffff) by (nonlinear_arith)
        requires
            0 <= b[at] < 256,
            0 <= b[at + 1] < 256,
            0 <= b[at + 2] < 256,
            0 <= b[at + 3] < 256,
    ;
}

/// The checksum leaves the score out: two saves differing only in score
/// share one.
pub proof fn lemma_checksum_ignores_score(s: SaveGame, score: u32)
    ensures
        checksum_spec(SaveGame { score, ..s }) == checksum_spec(s),
{
}

/// Carries a restored save into the game: the counters, the level-entry
/// checkpoint and the player's health, cells and bombs take the saved
/// values, and the sequence moves to the saved level (the last one, if the
/// save names a level past the end), which is then entered.
pub fn apply_restored_game(
    save: &SaveGame,
    score: &mut Score,
    stars: &mut Stars,
    checkpoint: &mut Checkpoint,
    sequence: &mut LevelSequence,
    player: &mut Player,
)
    ensures
        final(score).0 == save.score,
        final(stars).0 == save.stars as u32,
        *final(checkpoint) == (Checkpoint {
            score: save.score,
            stars: save.stars as u32,
            health: save.health as i32,
            health_cells: save.health_cells as u32,
            bombs: save.bombs as u32,
        }),
        *final(player) == (Player {
            health: save.health as i32,
            health_cells: save.health_cells as u32,
            bombs: save.bombs as u32,
            ..*old(player)
        }),
        final(sequence).order@ == old(sequence).order@,
        final(sequence).index == (if old(sequence).order@.len() == 0 { 0 } else if save.level < old(sequence).order@.len() {
            save.level as int
        } else {
            old(sequence).order@.len() - 1
        }),
{
    score.0 = save.score;
    stars.0 = save.stars as u32;
    *checkpoint = Checkpoint {
        score: save.score,
        stars: save.stars as u32,
        health: save.health as i32,
        health_cells: save.health_cells as u32,
        bombs: save.bombs as u32,
    };
    *player = Player { health: save.health as i32, health_cells: save.health_cells as u32, bombs: save.bombs as u32, ..*player };
    let len = sequence.order.len();
    let last = if len == 0 { 0 } else { len - 1 };
    let wanted = save.level as usize;
    sequence.index = if wanted < last { wanted } else { last };
}

/// `COSMO<episode>.SV<slot>`, the DOS game's file name for a slot, each
/// number written out in decimal.
pub fn slot_file_name(episode: u8, slot: u8) -> (r: String)
    ensures
        r@ == "COSMO"@ + decimal(episode as nat) + ".SV"@ + decimal(slot as nat),
{
    let mut name = String::from_str("COSMO");
    let e = decimal_string(episode as u32);
    name.append(e.as_str());
    name.append(".SV");
    let n = decimal_string(slot as u32);
    name.append(n.as_str());
    name
}

/// Which slot prompt is open, if either.
#[derive(Clone, Copy, PartialEq, Eq, Debug, Structural)]
pub enum SlotPrompt {
    Closed,
    Save,
    Restore,
    /// A restore that found nothing in that slot.
    NotFound,
}

/// The prompt's frame.
pub fn prompt_frame(prompt: SlotPrompt) -> (r: Option<TextFrame>)
    ensures
        prompt == SlotPrompt::Closed <==> r is None,
        prompt == SlotPrompt::Save ==> (r matches Some(f) && f.top == 8 && f.height == 10 && f.width == 28
            && f.title@ == "Save a game."@ && f.bottom@ == "Press ESC to quit."@
            && f.lines_spec() == seq![(frame_left(28) + 1, 11int, " What game number (1-9)?"@),
                (frame_left(28) + 1, 13int, " NOTE: Game is saved at"@), (frame_left(28) + 1, 14int, " BEGINNING of level."@)]),
        prompt == SlotPrompt::Restore ==> (r matches Some(f) && f.top == 11 && f.height == 7 && f.width == 28
            && f.title@ == "Restore a game."@ && f.bottom@ == "Press ESC to quit."@
            && f.lines_spec() == seq![(frame_left(28) + 1, 14int, " What game number (1-9)?"@)]),
        prompt == SlotPrompt::NotFound ==> (r matches Some(f) && f.top == 11 && f.height == 4 && f.width == 28
            && f.title@ == "Can not find that game!"@ && f.bottom@ == "Press ANY key."@
            && f.lines_spec().len() == 0),
{
    match prompt {
        SlotPrompt::Closed => None,
        SlotPrompt::Save => Some(
            TextFrame::new(8, 10, 28, "Save a game.", "Press ESC to quit.")
                .text(11, " What game number (1-9)?")
                .text(13, " NOTE: Game is saved at")
                .text(14, " BEGINNING of level."),
        ),
        SlotPrompt::Restore => Some(
            TextFrame::new(11, 7, 28, "Restore a game.", "Press ESC to quit.").text(14, " What game number (1-9)?"),
        ),
        SlotPrompt::NotFound => Some(TextFrame::new(11, 4, 28, "Can not find that game!", "Press ANY key.")),
    }
}

/// What a key on an open slot prompt asks for.
#[derive(Clone, Copy, PartialEq, Eq, Debug, Structural)]
pub enum SlotKey {
    /// Close the prompt and unpause.
    Close,
    /// Save the level-entry checkpoint to this slot, then close.
    Save(u8),
    /// Try to restore this slot.
    Restore(u8),
    Nothing,
}

/// The first of the digits 1 to 9 among the keys, as a slot number.
pub open spec fn slot_pressed(keys: Seq<Key>) -> Option<u8> {
    if keys.contains(Key::Digit1) { Some(1u8) } else if keys.contains(Key::Digit2) { Some(2u8) }
    else if keys.contains(Key::Digit3) { Some(3u8) } else if keys.contains(Key::Digit4) { Some(4u8) }
    else if keys.contains(Key::Digit5) { Some(5u8) } else if keys.contains(Key::Digit6) { Some(6u8) }
    else if keys.contains(Key::Digit7) { Some(7u8) } else if keys.contains(Key::Digit8) { Some(8u8) }
    else if keys.contains(Key::Digit9) { Some(9u8) } else { None }
}

fn slot_key(keys: &Vec<Key>) -> (r: Option<u8>)
    ensures
        r == slot_pressed(keys@),
{
    if pressed(keys, Key::Digit1) { Some(1) } else if pressed(keys, Key::Digit2) { Some(2) }
    else if pressed(keys, Key::Digit3) { Some(3) } else if pressed(keys, Key::Digit4) { Some(4) }
    else if pressed(keys, Key::Digit5) { Some(5) } else if pressed(keys, Key::Digit6) { Some(6) }
    else if pressed(keys, Key::Digit7) { Some(7) } else if pressed(keys, Key::Digit8) { Some(8) }
    else if pressed(keys, Key::Digit9) { Some(9) } else { None }
}

/// Keys on the slot prompt: on "not found" any key closes it; otherwise
/// Escape, Space and Enter back out and a digit 1 to 9 picks the slot.
pub fn slot_prompt_input(prompt: SlotPrompt, keys: &Vec<Key>) -> (r: SlotKey)
    ensures
        prompt == SlotPrompt::Closed ==> r == SlotKey::Nothing,
        prompt == SlotPrompt::NotFound ==> r == (if keys@.len() > 0 { SlotKey::Close } else { SlotKey::Nothing }),
        (prompt == SlotPrompt::Save || prompt == SlotPrompt::Restore) ==> r == (
            if keys@.contains(Key::Escape) || keys@.contains(Key::Space) || keys@.contains(Key::Enter) {
                SlotKey::Close
            } else {
                match slot_pressed(keys@) {
                    Some(n) => if prompt == SlotPrompt::Save { SlotKey::Save(n) } else { SlotKey::Restore(n) },
                    None => SlotKey::Nothing,
                }
            }),
{
    match prompt {
        SlotPrompt::Closed => SlotKey::Nothing,
        SlotPrompt::NotFound => if keys.len() > 0 { SlotKey::Close } else { SlotKey::Nothing },
        _ => {
            if pressed(keys, Key::Escape) || pressed(keys, Key::Space) || pressed(keys, Key::Enter) {
                return SlotKey::Close;
            }
            match slot_key(keys) {
                Some(n) => if prompt == SlotPrompt::Save { SlotKey::Save(n) } else { SlotKey::Restore(n) },
                None => SlotKey::Nothing,
            }
        },
    }
}

} // verus!
