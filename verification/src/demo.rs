//! Demo recording and playback: one byte per tick holds the six movement
//! commands plus a win flag, and the file is a 16-bit length followed by
//! that many bytes.
use vstd::prelude::*;
use crate::player::PlayerInput;

verus! {

/// A demo is at most 4999 frames, a shade over four and a half minutes.
pub const MAX_FRAMES: usize = 4999;

/// Bit values in a demo byte.
pub const WEST: u8 = 0x01;
pub const EAST: u8 = 0x02;
pub const NORTH: u8 = 0x04;
pub const SOUTH: u8 = 0x08;
pub const JUMP: u8 = 0x10;
pub const BOMB: u8 = 0x20;
pub const WIN: u8 = 0x40;

#[derive(Clone, Copy, PartialEq, Eq, Debug, Structural)]
pub enum DemoState {
    Off,
    Record,
    Play,
}

/// `b` if `on`, else nothing.
pub open spec fn bit(on: bool, b: u8) -> int {
    if on { b as int } else { 0 }
}

/// The byte a tick's commands and win flag pack into.
pub open spec fn pack_spec(i: PlayerInput, win: bool) -> u8 {
    (bit(i.west, WEST) + bit(i.east, EAST) + bit(i.look_up, NORTH) + bit(i.look_down, SOUTH) + bit(i.jump, JUMP)
        + bit(i.bomb, BOMB) + bit(win, WIN)) as u8
}

/// Whether the bit of value `2^k` is set in `b`.
pub open spec fn has_bit(b: u8, k: nat) -> bool {
    (b as nat / vstd::arithmetic::power2::pow2(k)) % 2 == 1
}

/// The commands a byte holds (leaving "any key" as it was), and its win
/// flag.
pub open spec fn unpack_spec(b: u8, input: PlayerInput) -> (PlayerInput, bool) {
    (PlayerInput {
        west: has_bit(b, 0),
        east: has_bit(b, 1),
        look_up: has_bit(b, 2),
        look_down: has_bit(b, 3),
        jump: has_bit(b, 4),
        bomb: has_bit(b, 5),
        ..input
    }, has_bit(b, 6))
}

/// Packs a tick's input into its byte in the demo file.
pub fn pack(input: &PlayerInput, win: bool) -> (r: u8)
    ensures
        r == pack_spec(*input, win),
{
    let mut b: u8 = 0;
    if input.west {
        b = b + WEST;
    }
    if input.east {
        b = b + EAST;
    }
    if input.look_up {
        b = b + NORTH;
    }
    if input.look_down {
        b = b + SOUTH;
    }
    if input.jump {
        b = b + JUMP;
    }
    if input.bomb {
        b = b + BOMB;
    }
    if win {
        b = b + WIN;
    }
    b
}

proof fn lemma_pow2_small()
    ensures
        vstd::arithmetic::power2::pow2(0) == 1,
        vstd::arithmetic::power2::pow2(1) == 2,
        vstd::arithmetic::power2::pow2(2) == 4,
        vstd::arithmetic::power2::pow2(3) == 8,
        vstd::arithmetic::power2::pow2(4) == 16,
        vstd::arithmetic::power2::pow2(5) == 32,
        vstd::arithmetic::power2::pow2(6) == 64,
{
    vstd::arithmetic::power2::lemma2_to64();
}

/// Unpacks a byte into an input, giving the win bit separately.
pub fn unpack(b: u8, input: &mut PlayerInput) -> (win: bool)
    ensures
        (*final(input), win) == unpack_spec(b, *old(input)),
{
    proof {
        lemma_pow2_small();
    }
    input.west = b % 2 == 1;
    input.east = (b / 2) % 2 == 1;
    input.look_up = (b / 4) % 2 == 1;
    input.look_down = (b / 8) % 2 == 1;
    input.jump = (b / 16) % 2 == 1;
    input.bomb = (b / 32) % 2 == 1;
    (b / 64) % 2 == 1
}

/// A tick's commands come back out of their byte, and so does the win
/// flag; only "any key", which a demo does not record, is left as it was.
pub proof fn lemma_pack_round_trip(i: PlayerInput, win: bool, before: PlayerInput)
    ensures
        unpack_spec(pack_spec(i, win), before) == (PlayerInput { dismiss: before.dismiss, ..i }, win),
{
    lemma_pow2_small();
    let b = pack_spec(i, win);
    let w = if i.west { 1int } else { 0 };
    let e = if i.east { 1int } else { 0 };
    let n = if i.look_up { 1int } else { 0 };
    let s = if i.look_down { 1int } else { 0 };
    let j = if i.jump { 1int } else { 0 };
    let m = if i.bomb { 1int } else { 0 };
    let v = if win { 1int } else { 0 };
    assert(b as int == w + 2 * e + 4 * n + 8 * s + 16 * j + 32 * m + 64 * v);
    assert((b as int) % 2 == w && (b as int / 2) % 2 == e && (b as int / 4) % 2 == n && (b as int / 8) % 2 == s
        && (b as int / 16) % 2 == j && (b as int / 32) % 2 == m && (b as int / 64) % 2 == v) by (nonlinear_arith)
        requires
            b as int == w + 2 * e + 4 * n + 8 * s + 16 * j + 32 * m + 64 * v,
            0 <= w <= 1, 0 <= e <= 1, 0 <= n <= 1, 0 <= s <= 1, 0 <= j <= 1, 0 <= m <= 1, 0 <= v <= 1,
    ;
}

/// The demo file: the frame count (capped at the maximum) as a
/// little-endian word, then that many frames.
pub open spec fn demo_file(frames: Seq<u8>) -> Seq<u8> {
    let len = if frames.len() > MAX_FRAMES { MAX_FRAMES as int } else { frames.len() as int };
    seq![(len % 256) as u8, (len / 256) as u8] + frames.subrange(0, len)
}

/// The frames a demo file holds: `None` if it is too short for its own
/// length word or for the frames that word promises.
pub open spec fn demo_frames(b: Seq<u8>) -> Option<Seq<u8>> {
    if b.len() < 2 {
        None
    } else {
        let len = b[0] + 256 * b[1];
        if 2 + len <= b.len() { Some(b.subrange(2, 2 + len)) } else { None }
    }
}

/// A recorded demo, and where playback is.
pub struct Demo {
    pub state: DemoState,
    pub frames: Vec<u8>,
    pub pos: usize,
    /// Set by a replayed frame's win bit.
    pub win: bool,
}

/// What a tick of the demo machinery asks of the outside world.
#[derive(Clone, Copy, PartialEq, Eq, Debug, Structural)]
pub enum DemoTick {
    Nothing,
    /// Recording stopped: write the file.
    Save,
}

impl Demo {
    pub fn new() -> (d: Self)
        ensures
            d.state == DemoState::Off && d.frames@.len() == 0 && d.pos == 0 && !d.win,
    {
        Demo { state: DemoState::Off, frames: Vec::new(), pos: 0, win: false }
    }

    /// The file to write for the frames recorded.
    pub fn to_bytes(&self) -> (r: Vec<u8>)
        ensures
            r@ == demo_file(self.frames@),
    {
        let len: usize = if self.frames.len() > MAX_FRAMES { MAX_FRAMES } else { self.frames.len() };
        let mut out: Vec<u8> = Vec::new();
        out.push((len % 256) as u8);
        out.push((len / 256) as u8);
        let mut i: usize = 0;
        while i < len
            invariant
                len <= self.frames@.len(),
                len <= MAX_FRAMES,
                i <= len,
                out@ == seq![(len % 256) as u8, (len / 256) as u8] + self.frames@.subrange(0, i as int),
            decreases len - i,
        {
            out.push(self.frames[i]);
            proof {
                assert(self.frames@.subrange(0, i + 1) =~= self.frames@.subrange(0, i as int).push(self.frames@[i as int]));
            }
            i = i + 1;
        }
        proof {
            assert(out@ =~= demo_file(self.frames@));
        }
        out
    }

    /// The frames in a demo file, or `None` for a truncated or corrupt one.
    pub fn from_bytes(b: &[u8]) -> (r: Option<Vec<u8>>)
        ensures
            r matches Some(f) ==> demo_frames(b@) == Some(f@),
            r is None ==> demo_frames(b@) is None,
    {
        if b.len() < 2 {
            return None;
        }
        let len: usize = b[0] as usize + 256 * (b[1] as usize);
        if b.len() - 2 < len {
            return None;
        }
        let mut out: Vec<u8> = Vec::new();
        let mut i: usize = 0;
        while i < len
            invariant
                2 + len <= b.len(),
                b.len() == b@.len(),
                i <= len,
                out@ == b@.subrange(2, 2 + i),
            decreases len - i,
        {
            out.push(b[2 + i]);
            proof {
                assert(b@.subrange(2, 2 + i + 1) =~= b@.subrange(2, 2 + i).push(b@[2 + i]));
            }
            i = i + 1;
        }
        Some(out)
    }

    /// F9 on: recording starts from nothing.
    pub fn start_recording(&mut self)
        ensures
            final(self).state == DemoState::Record,
            final(self).frames@.len() == 0,
            final(self).pos == 0,
            final(self).win == old(self).win,
    {
        self.state = DemoState::Record;
        self.frames.clear();
        self.pos = 0;
    }

    /// Stops whatever is running; a recording is saved.
    pub fn stop(&mut self) -> (r: DemoTick)
        ensures
            r == (if old(self).state == DemoState::Record { DemoTick::Save } else { DemoTick::Nothing }),
            final(self).state == DemoState::Off,
            final(self).frames@ == old(self).frames@,
            final(self).pos == old(self).pos,
            final(self).win == old(self).win,
    {
        let r = if self.state == DemoState::Record { DemoTick::Save } else { DemoTick::Nothing };
        self.state = DemoState::Off;
        r
    }

    /// Starts replaying the demo read from disk; nothing happens without
    /// one, or with an empty one.
    pub fn start_playback(&mut self, loaded: Option<Vec<u8>>) -> (r: bool)
        ensures
            r == (loaded matches Some(f) && f@.len() > 0),
            r ==> final(self).frames@ == loaded.unwrap()@ && final(self).pos == 0 && final(self).state == DemoState::Play
                && final(self).win == old(self).win,
            !r ==> final(self).state == old(self).state && final(self).frames@ == old(self).frames@
                && final(self).pos == old(self).pos && final(self).win == old(self).win,
    {
        match loaded {
            Some(frames) => {
                if frames.len() > 0 {
                    self.frames = frames;
                    self.pos = 0;
                    self.state = DemoState::Play;
                    true
                } else {
                    false
                }
            },
            None => false,
        }
    }

    /// One tick, before the gameplay tick reads the input: a recording
    /// appends the tick's commands (stopping and saving once full); a
    /// playback replaces them with the next recorded frame, noting its win
    /// bit, and stops at the end.
    pub fn drive(&mut self, input: &mut PlayerInput) -> (r: DemoTick)
        ensures
            old(self).state == DemoState::Off ==> r == DemoTick::Nothing && *final(input) == *old(input)
                && final(self).frames@ == old(self).frames@ && final(self).state == old(self).state,
            old(self).state == DemoState::Record && old(self).frames@.len() >= MAX_FRAMES ==> r == DemoTick::Save
                && final(self).state == DemoState::Off && final(self).frames@ == old(self).frames@ && *final(input) == *old(input),
            old(self).state == DemoState::Record && old(self).frames@.len() < MAX_FRAMES ==> r == DemoTick::Nothing
                && final(self).state == DemoState::Record && final(self).frames@ == old(self).frames@.push(pack_spec(*old(input), false))
                && *final(input) == *old(input),
            old(self).state == DemoState::Play && old(self).pos >= old(self).frames@.len() ==> r == DemoTick::Nothing
                && final(self).state == DemoState::Off && *final(input) == *old(input),
            old(self).state == DemoState::Play && old(self).pos < old(self).frames@.len() ==> ({
                let u = unpack_spec(old(self).frames@[old(self).pos as int], *old(input));
                &&& r == DemoTick::Nothing
                &&& *final(input) == u.0
                &&& final(self).win == u.1
                &&& final(self).pos == old(self).pos + 1
                &&& final(self).state == (if old(self).pos + 1 >= old(self).frames@.len() { DemoState::Off } else { DemoState::Play })
                &&& final(self).frames@ == old(self).frames@
            }),
    {
        match self.state {
            DemoState::Off => DemoTick::Nothing,
            DemoState::Record => {
                if self.frames.len() >= MAX_FRAMES {
                    return self.stop();
                }
                let byte = pack(input, false);
                self.frames.push(byte);
                DemoTick::Nothing
            },
            DemoState::Play => {
                if self.pos >= self.frames.len() {
                    self.state = DemoState::Off;
                    return DemoTick::Nothing;
                }
                let byte = self.frames[self.pos];
                self.pos = self.pos + 1;
                self.win = unpack(byte, input);
                if self.pos >= self.frames.len() {
                    self.state = DemoState::Off;
                }
                DemoTick::Nothing
            },
        }
    }

    /// F9 starts recording, or stops (and saves) one running.
    pub fn hotkey(&mut self) -> (r: DemoTick)
        ensures
            old(self).state == DemoState::Record ==> r == DemoTick::Save && final(self).state == DemoState::Off,
            old(self).state != DemoState::Record ==> r == DemoTick::Nothing && final(self).state == DemoState::Record
                && final(self).frames@.len() == 0 && final(self).pos == 0,
    {
        if self.state == DemoState::Record {
            self.stop()
        } else {
            self.start_recording();
            DemoTick::Nothing
        }
    }
}

/// A recorded demo reads back from its file frame for frame.
pub proof fn lemma_demo_round_trip(frames: Seq<u8>)
    requires
        frames.len() <= MAX_FRAMES,
    ensures
        demo_frames(demo_file(frames)) == Some(frames),
{
    let b = demo_file(frames);
    let len = frames.len() as int;
    assert(((len % 256) as u8) + 256 * ((len / 256) as u8) == len) by (nonlinear_arith)
        requires
            0 <= len <= 4999,
    ;
    assert(b.subrange(2, 2 + len) =~= frames);
}

} // verus!
