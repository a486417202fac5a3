//! The Hall of Fame: ten names and scores, and the "you made it" prompt at
//! the end of a game.
//!
//! A score lands in the first slot whose score is strictly less than it,
//! so matching an existing score does not displace its holder; the table
//! never grows past ten.
use vstd::prelude::*;
use vstd::string::{StrSliceExecFns, StringExecFns};
use crate::input::Key;
use crate::panel::{frame_left, TextFrame};
use crate::screen::pressed;

verus! {

/// A name is at most fourteen characters.
pub const MAX_NAME: usize = 14;

pub const TABLE_SIZE: usize = 10;

#[derive(Clone, Debug)]
pub struct HighScore {
    pub name: String,
    pub score: u32,
}

#[derive(Clone, Debug)]
pub struct HighScores {
    pub entries: Vec<HighScore>,
}

impl View for HighScores {
    type V = Seq<(Seq<char>, u32)>;

    open spec fn view(&self) -> Seq<(Seq<char>, u32)> {
        self.entries@.map_values(|e: HighScore| (e.name@, e.score))
    }
}

/// The table a fresh install starts with: nine names, as shipped, and an
/// empty tenth slot.
pub open spec fn shipped_table() -> Seq<(Seq<char>, u32)> {
    seq![
        ("BART"@, 1_000_000u32),
        ("LISA"@, 900_000u32),
        ("MARGE"@, 800_000u32),
        ("ITCHY"@, 700_000u32),
        ("SCRATCHY"@, 600_000u32),
        ("MR. BURNS"@, 500_000u32),
        ("MAGGIE"@, 400_000u32),
        ("KRUSTY"@, 300_000u32),
        ("HOMER"@, 200_000u32),
        (Seq::<char>::empty(), 0u32),
    ]
}

/// Highest first: no entry outscores one above it.
pub open spec fn descending(v: Seq<(Seq<char>, u32)>) -> bool {
    forall|i: int, j: int| 0 <= i < j < v.len() ==> v[i].1 >= v[j].1
}

/// The first slot from `i` on whose score is strictly below `score`.
pub open spec fn rank_spec(v: Seq<(Seq<char>, u32)>, score: u32, i: int) -> Option<int>
    decreases v.len() - i,
{
    if i < 0 || i >= v.len() {
        None
    } else if v[i].1 < score {
        Some(i)
    } else {
        rank_spec(v, score, i + 1)
    }
}

/// A name cut to the fourteen characters a slot holds.
pub open spec fn cut_name(name: Seq<char>) -> Seq<char> {
    if name.len() > MAX_NAME { name.subrange(0, MAX_NAME as int) } else { name }
}

/// The table with `(name, score)` put in at `rank` and whatever fell off
/// the end dropped.
pub open spec fn inserted(v: Seq<(Seq<char>, u32)>, rank: int, name: Seq<char>, score: u32) -> Seq<(Seq<char>, u32)> {
    let w = v.insert(rank, (cut_name(name), score));
    if w.len() > TABLE_SIZE { w.subrange(0, TABLE_SIZE as int) } else { w }
}

impl HighScores {
    pub fn default() -> (h: Self)
        ensures
            h@ == shipped_table(),
    {
        let h = HighScores {
            entries: vec![
                HighScore { name: String::from_str("BART"), score: 1_000_000 },
                HighScore { name: String::from_str("LISA"), score: 900_000 },
                HighScore { name: String::from_str("MARGE"), score: 800_000 },
                HighScore { name: String::from_str("ITCHY"), score: 700_000 },
                HighScore { name: String::from_str("SCRATCHY"), score: 600_000 },
                HighScore { name: String::from_str("MR. BURNS"), score: 500_000 },
                HighScore { name: String::from_str("MAGGIE"), score: 400_000 },
                HighScore { name: String::from_str("KRUSTY"), score: 300_000 },
                HighScore { name: String::from_str("HOMER"), score: 200_000 },
                HighScore { name: String::new(), score: 0 },
            ],
        };
        assert(h@ =~= shipped_table());
        h
    }

    /// Where a score would land, or `None` if it does not make the table.
    pub fn rank_for(&self, score: u32) -> (r: Option<usize>)
        ensures
            r matches Some(i) ==> rank_spec(self@, score, 0) == Some(i as int),
            r is None ==> rank_spec(self@, score, 0) is None,
    {
        let mut i: usize = 0;
        while i < self.entries.len()
            invariant
                i <= self.entries@.len(),
                rank_spec(self@, score, 0) == rank_spec(self@, score, i as int),
            decreases self.entries@.len() - i,
        {
            if self.entries[i].score < score {
                return Some(i);
            }
            i = i + 1;
        }
        None
    }

    /// Inserts at `rank`, pushing everything below it down and dropping
    /// whatever falls off the end; the name is cut to fit.
    pub fn insert_at(&mut self, rank: usize, name: &str, score: u32)
        requires
            rank <= old(self).entries@.len(),
        ensures
            final(self)@ == inserted(old(self)@, rank as int, name@, score),
    {
        let n = name.unicode_len();
        let keep = if n > MAX_NAME { MAX_NAME } else { n };
        let cut = name.substring_char(0, keep).to_owned();
        let ghost v0 = self@;
        let ghost cv = cut@;
        assert(cv =~= cut_name(name@));
        let ghost e0 = self.entries@;
        self.entries.insert(rank, HighScore { name: cut, score });
        assert(self@ =~= v0.insert(rank as int, (cv, score))) by {
            assert forall|k: int| 0 <= k < self@.len() implies #[trigger] self@[k] == v0.insert(rank as int, (cv, score))[k] by {
                if k < rank {
                    assert(self.entries@[k] == e0[k]);
                } else if k > rank {
                    assert(self.entries@[k] == e0[k - 1]);
                }
            }
        }
        let ghost v1 = self@;
        let ghost e1 = self.entries@;
        self.entries.truncate(TABLE_SIZE);
        assert(self@ =~= inserted(v0, rank as int, name@, score)) by {
            if e1.len() > TABLE_SIZE {
                assert forall|k: int| 0 <= k < self@.len() implies #[trigger] self@[k] == v1[k] by {
                    assert(self.entries@[k] == e1[k]);
                }
            }
        }
    }

    /// Empties every slot.
    pub fn erase(&mut self)
        ensures
            final(self)@ == Seq::new(TABLE_SIZE as nat, |i: int| (Seq::<char>::empty(), 0u32)),
    {
        let mut entries: Vec<HighScore> = Vec::new();
        let mut i: usize = 0;
        while i < TABLE_SIZE
            invariant
                i <= TABLE_SIZE,
                entries@.len() == i,
                forall|j: int| 0 <= j < i ==> (#[trigger] entries@[j]).name@.len() == 0 && entries@[j].score == 0,
            decreases TABLE_SIZE - i,
        {
            entries.push(HighScore { name: String::new(), score: 0 });
            i = i + 1;
        }
        self.entries = entries;
        assert(self@ =~= Seq::new(TABLE_SIZE as nat, |i: int| (Seq::<char>::empty(), 0u32))) by {
            assert forall|k: int| 0 <= k < TABLE_SIZE implies #[trigger] self@[k] == (Seq::<char>::empty(), 0u32) by {
                assert(self.entries@[k].name@ =~= Seq::<char>::empty());
            }
        }
    }

    /// A table read back from disk, kept only if it has all ten slots.
    pub fn accept_loaded(loaded: Option<HighScores>) -> (h: HighScores)
        ensures
            (loaded matches Some(l) && l.entries@.len() == TABLE_SIZE) ==> h@ == loaded.unwrap()@,
            !(loaded matches Some(l) && l.entries@.len() == TABLE_SIZE) ==> h@ == shipped_table(),
    {
        match loaded {
            Some(l) => {
                if l.entries.len() == TABLE_SIZE {
                    l
                } else {
                    HighScores::default()
                }
            },
            None => HighScores::default(),
        }
    }
}

/// Putting a score in where it ranks keeps the table highest first.
pub proof fn lemma_insert_keeps_order(v: Seq<(Seq<char>, u32)>, name: Seq<char>, score: u32, rank: int)
    requires
        descending(v),
        rank_spec(v, score, 0) == Some(rank),
    ensures
        descending(inserted(v, rank, name, score)),
{
    lemma_rank_bounds(v, score, 0);
    let w = v.insert(rank, (cut_name(name), score));
    assert(descending(w)) by {
        assert forall|i: int, j: int| 0 <= i < j < w.len() implies w[i].1 >= w[j].1 by {
            if i < rank && j == rank {
                assert(v[i].1 >= score);
            } else if i == rank && j > rank {
                assert(v[j - 1].1 <= v[rank].1);
            } else if i < rank && j > rank {
                assert(v[i].1 >= v[j - 1].1);
            } else if i > rank {
                assert(v[i - 1].1 >= v[j - 1].1);
            }
        }
    }
}

proof fn lemma_rank_bounds(v: Seq<(Seq<char>, u32)>, score: u32, i: int)
    requires
        0 <= i <= v.len(),
        rank_spec(v, score, i) is Some,
    ensures
        i <= rank_spec(v, score, i).unwrap() < v.len(),
        v[rank_spec(v, score, i).unwrap()].1 < score,
        forall|k: int| i <= k < rank_spec(v, score, i).unwrap() ==> v[k].1 >= score,
    decreases v.len() - i,
{
    if i < v.len() && v[i].1 >= score {
        lemma_rank_bounds(v, score, i + 1);
    }
}

/// The character a key types into a name, if any: letters, digits, space,
/// period and minus.
pub open spec fn key_char_spec(k: Key) -> Option<char> {
    match k {
        Key::KeyA => Some('A'), Key::KeyB => Some('B'), Key::KeyC => Some('C'), Key::KeyD => Some('D'),
        Key::KeyE => Some('E'), Key::KeyF => Some('F'), Key::KeyG => Some('G'), Key::KeyH => Some('H'),
        Key::KeyI => Some('I'), Key::KeyJ => Some('J'), Key::KeyK => Some('K'), Key::KeyL => Some('L'),
        Key::KeyM => Some('M'), Key::KeyN => Some('N'), Key::KeyO => Some('O'), Key::KeyP => Some('P'),
        Key::KeyQ => Some('Q'), Key::KeyR => Some('R'), Key::KeyS => Some('S'), Key::KeyT => Some('T'),
        Key::KeyU => Some('U'), Key::KeyV => Some('V'), Key::KeyW => Some('W'), Key::KeyX => Some('X'),
        Key::KeyY => Some('Y'), Key::KeyZ => Some('Z'),
        Key::Digit0 => Some('0'), Key::Digit1 => Some('1'), Key::Digit2 => Some('2'), Key::Digit3 => Some('3'),
        Key::Digit4 => Some('4'), Key::Digit5 => Some('5'), Key::Digit6 => Some('6'), Key::Digit7 => Some('7'),
        Key::Digit8 => Some('8'), Key::Digit9 => Some('9'),
        Key::Space => Some(' '),
        Key::Period => Some('.'),
        Key::Minus => Some('-'),
        _ => None,
    }
}

pub fn key_char(key: Key) -> (r: Option<char>)
    ensures
        r == key_char_spec(key),
{
    match key {
        Key::KeyA => Some('A'), Key::KeyB => Some('B'), Key::KeyC => Some('C'), Key::KeyD => Some('D'),
        Key::KeyE => Some('E'), Key::KeyF => Some('F'), Key::KeyG => Some('G'), Key::KeyH => Some('H'),
        Key::KeyI => Some('I'), Key::KeyJ => Some('J'), Key::KeyK => Some('K'), Key::KeyL => Some('L'),
        Key::KeyM => Some('M'), Key::KeyN => Some('N'), Key::KeyO => Some('O'), Key::KeyP => Some('P'),
        Key::KeyQ => Some('Q'), Key::KeyR => Some('R'), Key::KeyS => Some('S'), Key::KeyT => Some('T'),
        Key::KeyU => Some('U'), Key::KeyV => Some('V'), Key::KeyW => Some('W'), Key::KeyX => Some('X'),
        Key::KeyY => Some('Y'), Key::KeyZ => Some('Z'),
        Key::Digit0 => Some('0'), Key::Digit1 => Some('1'), Key::Digit2 => Some('2'), Key::Digit3 => Some('3'),
        Key::Digit4 => Some('4'), Key::Digit5 => Some('5'), Key::Digit6 => Some('6'), Key::Digit7 => Some('7'),
        Key::Digit8 => Some('8'), Key::Digit9 => Some('9'),
        Key::Space => Some(' '),
        Key::Period => Some('.'),
        Key::Minus => Some('-'),
        _ => None,
    }
}

/// The same character, as text to append.
fn key_text(key: Key) -> (r: Option<&'static str>)
    ensures
        r is Some <==> key_char_spec(key) is Some,
        r matches Some(t) ==> t@ == seq![key_char_spec(key).unwrap()],
{
    let r = match key {
        Key::KeyA => Some("A"), Key::KeyB => Some("B"), Key::KeyC => Some("C"), Key::KeyD => Some("D"),
        Key::KeyE => Some("E"), Key::KeyF => Some("F"), Key::KeyG => Some("G"), Key::KeyH => Some("H"),
        Key::KeyI => Some("I"), Key::KeyJ => Some("J"), Key::KeyK => Some("K"), Key::KeyL => Some("L"),
        Key::KeyM => Some("M"), Key::KeyN => Some("N"), Key::KeyO => Some("O"), Key::KeyP => Some("P"),
        Key::KeyQ => Some("Q"), Key::KeyR => Some("R"), Key::KeyS => Some("S"), Key::KeyT => Some("T"),
        Key::KeyU => Some("U"), Key::KeyV => Some("V"), Key::KeyW => Some("W"), Key::KeyX => Some("X"),
        Key::KeyY => Some("Y"), Key::KeyZ => Some("Z"),
        Key::Digit0 => Some("0"), Key::Digit1 => Some("1"), Key::Digit2 => Some("2"), Key::Digit3 => Some("3"),
        Key::Digit4 => Some("4"), Key::Digit5 => Some("5"), Key::Digit6 => Some("6"), Key::Digit7 => Some("7"),
        Key::Digit8 => Some("8"), Key::Digit9 => Some("9"),
        Key::Space => Some(" "),
        Key::Period => Some("."),
        Key::Minus => Some("-"),
        _ => None,
    };
    proof {
        reveal_strlit("A"); reveal_strlit("B"); reveal_strlit("C"); reveal_strlit("D"); reveal_strlit("E");
        reveal_strlit("F"); reveal_strlit("G"); reveal_strlit("H"); reveal_strlit("I"); reveal_strlit("J");
        reveal_strlit("K"); reveal_strlit("L"); reveal_strlit("M"); reveal_strlit("N"); reveal_strlit("O");
        reveal_strlit("P"); reveal_strlit("Q"); reveal_strlit("R"); reveal_strlit("S"); reveal_strlit("T");
        reveal_strlit("U"); reveal_strlit("V"); reveal_strlit("W"); reveal_strlit("X"); reveal_strlit("Y");
        reveal_strlit("Z"); reveal_strlit("0"); reveal_strlit("1"); reveal_strlit("2"); reveal_strlit("3");
        reveal_strlit("4"); reveal_strlit("5"); reveal_strlit("6"); reveal_strlit("7"); reveal_strlit("8");
        reveal_strlit("9"); reveal_strlit(" "); reveal_strlit("."); reveal_strlit("-");
    }
    r
}

/// The name after typing `keys[..n]`: a typed character goes on while
/// there is room, backspace takes the last one off.
pub open spec fn name_after(name: Seq<char>, keys: Seq<Key>, n: int) -> Seq<char>
    decreases n,
{
    if n <= 0 {
        name
    } else {
        let prev = name_after(name, keys, n - 1);
        let k = keys[n - 1];
        if k == Key::Backspace {
            if prev.len() > 0 { prev.drop_last() } else { prev }
        } else {
            match key_char_spec(k) {
                Some(c) => if prev.len() < MAX_NAME { prev.push(c) } else { prev },
                None => prev,
            }
        }
    }
}

/// Whether typing `keys[..n]` changed what the prompt shows.
pub open spec fn typing_changed(name: Seq<char>, keys: Seq<Key>, n: int) -> bool
    decreases n,
{
    if n <= 0 {
        false
    } else {
        let k = keys[n - 1];
        typing_changed(name, keys, n - 1) || k == Key::Backspace
            || (key_char_spec(k) is Some && name_after(name, keys, n - 1).len() < MAX_NAME)
    }
}

/// A key that commits the name.
pub open spec fn commits(k: Key) -> bool {
    k == Key::Enter || k == Key::NumpadEnter || k == Key::Escape
}

/// The first committing key from `i` on.
pub open spec fn commit_at(keys: Seq<Key>, i: int) -> Option<int>
    decreases keys.len() - i,
{
    if i < 0 || i >= keys.len() {
        None
    } else if commits(keys[i]) {
        Some(i)
    } else {
        commit_at(keys, i + 1)
    }
}

/// The name being typed into the "you made it" prompt.
#[derive(Clone, Debug)]
pub struct PendingEntry {
    pub rank: Option<usize>,
    pub score: u32,
    pub name: String,
}

/// What the keys did to the prompt.
#[derive(Clone, Copy, PartialEq, Eq, Debug, Structural)]
pub enum NameStep {
    /// The name went into the table (which wants saving) and the prompt
    /// closed.
    Committed,
    /// The prompt shows a different name now.
    Changed,
    Nothing,
}

impl PendingEntry {
    /// `CheckHighScoreAndShow` on leaving a game: a score that made the
    /// table opens the prompt, with an empty name.
    pub fn check(scores: &HighScores, score: u32) -> (p: PendingEntry)
        ensures
            p.rank matches Some(r) ==> rank_spec(scores@, score, 0) == Some(r as int),
            p.rank is None ==> rank_spec(scores@, score, 0) is None,
            p.score == (if p.rank is Some { score } else { 0 }),
            p.name@.len() == 0,
    {
        match scores.rank_for(score) {
            Some(rank) => PendingEntry { rank: Some(rank), score, name: String::new() },
            None => PendingEntry { rank: None, score: 0, name: String::new() },
        }
    }

    /// One frame's keys on the prompt: letters, digits, space, period and
    /// minus type while there is room; backspace deletes; Enter or Escape
    /// commits what is there.
    pub fn on_keys(&mut self, keys: &Vec<Key>, scores: &mut HighScores) -> (r: NameStep)
        requires
            old(self).rank matches Some(rank) ==> rank <= old(scores).entries@.len(),
        ensures
            old(self).rank is None ==> r == NameStep::Nothing && final(self).name@ == old(self).name@
                && final(self).rank == old(self).rank && final(scores)@ == old(scores)@,
            old(self).rank matches Some(rank) ==> match commit_at(keys@, 0) {
                Some(j) => {
                    &&& r == NameStep::Committed
                    &&& final(self).rank is None
                    &&& final(scores)@ == inserted(old(scores)@, rank as int, name_after(old(self).name@, keys@, j), old(self).score)
                },
                None => {
                    &&& r == (if typing_changed(old(self).name@, keys@, keys@.len() as int) { NameStep::Changed } else { NameStep::Nothing })
                    &&& final(self).rank == old(self).rank
                    &&& final(self).name@ == name_after(old(self).name@, keys@, keys@.len() as int)
                    &&& final(scores)@ == old(scores)@
                },
            },
            final(self).score == old(self).score,
    {
        let rank = match self.rank {
            Some(r) => r,
            None => {
                return NameStep::Nothing;
            },
        };
        let ghost name0 = self.name@;
        let mut changed = false;
        let mut i: usize = 0;
        while i < keys.len()
            invariant
                i <= keys@.len(),
                self.rank == Some(rank),
                self.score == old(self).score,
                old(self).rank == Some(rank),
                name0 == old(self).name@,
                rank <= scores.entries@.len(),
                *scores == *old(scores),
                self.name@ == name_after(name0, keys@, i as int),
                changed == typing_changed(name0, keys@, i as int),
                commit_at(keys@, 0) == commit_at(keys@, i as int),
            decreases keys@.len() - i,
        {
            let key = keys[i];
            if key == Key::Enter || key == Key::NumpadEnter || key == Key::Escape {
                let typed = self.name.clone();
                scores.insert_at(rank, typed.as_str(), self.score);
                self.rank = None;
                return NameStep::Committed;
            } else if key == Key::Backspace {
                let n = self.name.as_str().unicode_len();
                if n > 0 {
                    let shorter = self.name.as_str().substring_char(0, n - 1).to_owned();
                    self.name = shorter;
                }
                changed = true;
            } else {
                match key_text(key) {
                    Some(t) => {
                        if self.name.as_str().unicode_len() < MAX_NAME {
                            self.name.append(t);
                            changed = true;
                        }
                    },
                    None => {},
                }
            }
            i = i + 1;
        }
        if changed {
            NameStep::Changed
        } else {
            NameStep::Nothing
        }
    }
}

/// The prompt's frame: the heading, and the name typed so far (before any
/// typing, just the request).
pub fn name_prompt(typed: Option<&str>) -> (f: TextFrame)
    ensures
        f.top == 5 && f.height == 7 && f.width == 36,
        f.title@ == "You made it into the hall of fame!"@,
        f.bottom@ == ""@,
        f.lines_spec() == seq![(frame_left(36) + 1, 8int, match typed {
            Some(t) => "Enter your name: "@ + t@,
            None => "Enter your name:"@,
        })],
{
    let frame = TextFrame::new(5, 7, 36, "You made it into the hall of fame!", "");
    match typed {
        Some(t) => {
            let mut line = String::from_str("Enter your name: ");
            line.append(t);
            frame.text(8, line.as_str())
        },
        None => frame.text(8, "Enter your name:"),
    }
}

/// `n` in decimal.
pub open spec fn decimal(n: nat) -> Seq<char>
    decreases n,
{
    if n < 10 {
        seq![digit_char(n)]
    } else {
        decimal(n / 10).push(digit_char(n % 10))
    }
}

/// The digit character for `d`.
pub open spec fn digit_char(d: nat) -> char {
    if d == 0 { '0' } else if d == 1 { '1' } else if d == 2 { '2' } else if d == 3 { '3' } else if d == 4 { '4' }
    else if d == 5 { '5' } else if d == 6 { '6' } else if d == 7 { '7' } else if d == 8 { '8' } else { '9' }
}

fn digit_text(d: u32) -> (r: &'static str)
    requires
        d < 10,
    ensures
        r@ == seq![digit_char(d as nat)],
{
    proof {
        reveal_strlit("0"); reveal_strlit("1"); reveal_strlit("2"); reveal_strlit("3"); reveal_strlit("4");
        reveal_strlit("5"); reveal_strlit("6"); reveal_strlit("7"); reveal_strlit("8"); reveal_strlit("9");
    }
    if d == 0 { "0" } else if d == 1 { "1" } else if d == 2 { "2" } else if d == 3 { "3" } else if d == 4 { "4" }
    else if d == 5 { "5" } else if d == 6 { "6" } else if d == 7 { "7" } else if d == 8 { "8" } else { "9" }
}

/// Ten to the `k`.
pub open spec fn pow10(k: nat) -> nat
    decreases k,
{
    if k == 0 { 1 } else { 10 * pow10((k - 1) as nat) }
}

proof fn lemma_decimal_len(n: nat, k: nat)
    requires
        1 <= k,
        n < pow10(k),
    ensures
        1 <= decimal(n).len() <= k,
    decreases n,
{
    if n >= 10 {
        if k == 1 {
            assert(pow10(1) == 10) by {
                reveal_with_fuel(pow10, 2);
            }
        }
        let p = pow10((k - 1) as nat);
        assert(n / 10 < p) by (nonlinear_arith)
            requires
                n < 10 * p,
        ;
        lemma_decimal_len(n / 10, (k - 1) as nat);
    }
}

proof fn lemma_u32_decimal_len(n: u32)
    ensures
        1 <= decimal(n as nat).len() <= 10,
{
    assert(pow10(10) == 10_000_000_000) by {
        reveal_with_fuel(pow10, 11);
    }
    lemma_decimal_len(n as nat, 10);
}

/// `n` written out in decimal.
pub fn decimal_string(n: u32) -> (r: String)
    ensures
        r@ == decimal(n as nat),
    decreases n,
{
    if n < 10 {
        String::from_str(digit_text(n))
    } else {
        let mut s = decimal_string(n / 10);
        s.append(digit_text(n % 10));
        s
    }
}

/// Where the table screen is.
#[derive(Clone, Copy, PartialEq, Eq, Debug, Structural)]
pub enum TableMode {
    Table,
    /// F10 asks before erasing.
    ConfirmErase,
}

/// The rank column's text: two places, then a period.
pub open spec fn rank_label(i: nat) -> Seq<char> {
    if i + 1 < 10 { seq![' '] + decimal(i + 1) + "."@ } else { decimal(i + 1) + "."@ }
}

/// The Hall of Fame frame, or the erase confirmation.
pub fn table_frame(scores: &HighScores, mode: TableMode) -> (f: TextFrame)
    requires
        scores.entries@.len() <= TABLE_SIZE,
    ensures
        mode == TableMode::ConfirmErase ==> f.top == 5 && f.height == 4 && f.width == 28
            && f.title@ == "Are you sure you want to"@ && f.bottom@ == "ERASE High Scores?"@
            && f.lines_spec() == seq![(frame_left(28) + 1, 7int, "  Y / N"@)],
        mode == TableMode::Table ==> f.top == 2 && f.height == 17 && f.width == 30
            && f.title@ == "Hall of Fame"@ && f.bottom@ == "any other key to exit."@
            && f.lines_spec().len() == 3 * scores@.len() + 1
            && (forall|i: int| 0 <= i < scores@.len() ==> {
                let x = frame_left(30) + 1;
                let value = decimal(scores@[i].1 as nat);
                &&& #[trigger] f.lines_spec()[3 * i] == (x + 1, i + 5, rank_label(i as nat))
                &&& f.lines_spec()[3 * i + 1] == (x + 12 - value.len(), i + 5, value)
                &&& f.lines_spec()[3 * i + 2] == (x + 13, i + 5, scores@[i].0)
            })
            && f.lines_spec()[3 * scores@.len() as int] == (frame_left(30) + 1 + 3, 16int, "Press 'F10' to erase or"@),
{
    if mode == TableMode::ConfirmErase {
        let frame = TextFrame::new(5, 4, 28, "Are you sure you want to", "ERASE High Scores?");
        return frame.text(7, "  Y / N");
    }
    let mut frame = TextFrame::new(2, 17, 30, "Hall of Fame", "any other key to exit.");
    let x = frame.text_x();
    let n = scores.entries.len();
    let mut i: usize = 0;
    while i < n
        invariant
            n == scores@.len(),
            n <= TABLE_SIZE,
            i <= n,
            x == frame_left(30) + 1,
            frame.top == 2 && frame.height == 17 && frame.width == 30,
            frame.title@ == "Hall of Fame"@ && frame.bottom@ == "any other key to exit."@,
            frame.lines_spec().len() == 3 * i,
            forall|k: int| 0 <= k < i ==> {
                let value = decimal(scores@[k].1 as nat);
                &&& #[trigger] frame.lines_spec()[3 * k] == (x + 1, k + 5, rank_label(k as nat))
                &&& frame.lines_spec()[3 * k + 1] == (x + 12 - value.len(), k + 5, value)
                &&& frame.lines_spec()[3 * k + 2] == (x + 13, k + 5, scores@[k].0)
            },
        decreases n - i,
    {
        let row = i as i32 + 5;
        let mut label = if i + 1 < 10 { String::from_str(" ") } else { String::new() };
        let number = decimal_string(i as u32 + 1);
        label.append(number.as_str());
        label.append(".");
        proof {
            reveal_strlit(" ");
            assert(label@ =~= rank_label(i as nat));
        }
        let entry = &scores.entries[i];
        assert(scores@[i as int] == (entry.name@, entry.score));
        let value = decimal_string(entry.score);
        proof {
            lemma_u32_decimal_len(entry.score);
        }
        let len = value.as_str().unicode_len();
        let ghost before = frame.lines_spec();
        frame = frame.line(x + 1, row, label.as_str());
        frame = frame.line(x + 12 - len as i32, row, value.as_str());
        frame = frame.line(x + 13, row, entry.name.as_str());
        proof {
            assert(frame.lines_spec()[3 * i] == (x + 1, i + 5, rank_label(i as nat)));
            assert(frame.lines_spec()[3 * i + 1] == (x + 12 - decimal(scores@[i as int].1 as nat).len(), i + 5, decimal(scores@[i as int].1 as nat)));
            assert(frame.lines_spec()[3 * i + 2] == (x + 13, i + 5, scores@[i as int].0));
            assert forall|k: int| 0 <= k < i + 1 implies {
                let v = decimal(scores@[k].1 as nat);
                &&& #[trigger] frame.lines_spec()[3 * k] == (x + 1, k + 5, rank_label(k as nat))
                &&& frame.lines_spec()[3 * k + 1] == (x + 12 - v.len(), k + 5, v)
                &&& frame.lines_spec()[3 * k + 2] == (x + 13, k + 5, scores@[k].0)
            } by {
                if k < i {
                    assert(frame.lines_spec()[3 * k] == before[3 * k]);
                    assert(frame.lines_spec()[3 * k + 1] == before[3 * k + 1]);
                    assert(frame.lines_spec()[3 * k + 2] == before[3 * k + 2]);
                }
            }
        }
        i = i + 1;
    }
    let ghost before = frame.lines_spec();
    let f = frame.line(x + 3, 16, "Press 'F10' to erase or");
    assert forall|i: int| 0 <= i < scores@.len() implies {
        let x = frame_left(30) + 1;
        let value = decimal(scores@[i].1 as nat);
        &&& #[trigger] f.lines_spec()[3 * i] == (x + 1, i + 5, rank_label(i as nat))
        &&& f.lines_spec()[3 * i + 1] == (x + 12 - value.len(), i + 5, value)
        &&& f.lines_spec()[3 * i + 2] == (x + 13, i + 5, scores@[i].0)
    } by {
        assert(f.lines_spec()[3 * i] == before[3 * i]);
        assert(f.lines_spec()[3 * i + 1] == before[3 * i + 1]);
        assert(f.lines_spec()[3 * i + 2] == before[3 * i + 2]);
    }
    f
}

/// What a key on the table screen did.
#[derive(Clone, Copy, PartialEq, Eq, Debug, Structural)]
pub enum TableStep {
    /// The table was erased: save it and redraw.
    Erased,
    /// Redraw in the new mode.
    Redraw,
    /// Back to the main menu.
    ToMenu,
    Nothing,
}

/// Keys on the table screen: F10 asks to erase, and Y then erases while
/// any other key backs out; on the table any other key leaves.
pub fn table_input(mode: &mut TableMode, keys: &Vec<Key>, scores: &mut HighScores) -> (r: TableStep)
    ensures
        *old(mode) == TableMode::ConfirmErase && keys@.contains(Key::KeyY) ==> r == TableStep::Erased
            && *final(mode) == TableMode::Table
            && final(scores)@ == Seq::new(TABLE_SIZE as nat, |i: int| (Seq::<char>::empty(), 0u32)),
        *old(mode) == TableMode::ConfirmErase && !keys@.contains(Key::KeyY) && keys@.len() > 0 ==> r == TableStep::Redraw
            && *final(mode) == TableMode::Table && final(scores)@ == old(scores)@,
        *old(mode) == TableMode::Table && keys@.contains(Key::F10) ==> r == TableStep::Redraw
            && *final(mode) == TableMode::ConfirmErase && final(scores)@ == old(scores)@,
        *old(mode) == TableMode::Table && !keys@.contains(Key::F10) && keys@.len() > 0 ==> r == TableStep::ToMenu
            && *final(mode) == TableMode::Table && final(scores)@ == old(scores)@,
        keys@.len() == 0 ==> r == TableStep::Nothing && *final(mode) == *old(mode) && final(scores)@ == old(scores)@,
{
    match *mode {
        TableMode::ConfirmErase => {
            if pressed(keys, Key::KeyY) {
                scores.erase();
                *mode = TableMode::Table;
                TableStep::Erased
            } else if keys.len() > 0 {
                *mode = TableMode::Table;
                TableStep::Redraw
            } else {
                TableStep::Nothing
            }
        },
        TableMode::Table => {
            if pressed(keys, Key::F10) {
                *mode = TableMode::ConfirmErase;
                TableStep::Redraw
            } else if keys.len() > 0 {
                TableStep::ToMenu
            } else {
                TableStep::Nothing
            }
        },
    }
}

} // verus!
