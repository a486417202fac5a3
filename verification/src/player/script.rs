//! Scripted input for unattended runs: comma-separated `<keys><ticks>`
//! steps, each key one of `w`/`e` (west/east), `u`/`d` (look up/down), `j`
//! (jump), `b` (bomb), `k` (dismiss a frame) or `.` (nothing). `e40,.10,u60`
//! walks east, stands still, then looks up.
use vstd::prelude::*;
use vstd::string::StrSliceExecFns;
use crate::input::InputAccumulator;
use crate::player::PlayerInput;

verus! {

/// `char::is_whitespace`: the Unicode `White_Space` characters.
pub open spec fn is_ws(c: char) -> bool {
    let v = c as u32;
    (0x9 <= v <= 0xd) || v == 0x20 || v == 0x85 || v == 0xa0 || v == 0x1680 || (0x2000 <= v <= 0x200a)
        || v == 0x2028 || v == 0x2029 || v == 0x202f || v == 0x205f || v == 0x3000
}

fn ws(c: char) -> (r: bool)
    ensures
        r == is_ws(c),
{
    let v = c as u32;
    (0x9 <= v && v <= 0xd) || v == 0x20 || v == 0x85 || v == 0xa0 || v == 0x1680 || (0x2000 <= v && v <= 0x200a)
        || v == 0x2028 || v == 0x2029 || v == 0x202f || v == 0x205f || v == 0x3000
}

/// `s` without its leading whitespace.
pub open spec fn trim_start(s: Seq<char>) -> Seq<char>
    decreases s.len(),
{
    if s.len() > 0 && is_ws(s[0]) { trim_start(s.drop_first()) } else { s }
}

/// `s` without its trailing whitespace.
pub open spec fn trim_end(s: Seq<char>) -> Seq<char>
    decreases s.len(),
{
    if s.len() > 0 && is_ws(s.last()) { trim_end(s.drop_last()) } else { s }
}

pub open spec fn trim(s: Seq<char>) -> Seq<char> {
    trim_end(trim_start(s))
}

/// `s` split at every comma.
pub open spec fn split_commas(s: Seq<char>) -> Seq<Seq<char>>
    decreases s.len(),
{
    if s.len() == 0 {
        seq![Seq::<char>::empty()]
    } else {
        let prev = split_commas(s.drop_last());
        if s.last() == ',' {
            prev.push(Seq::empty())
        } else {
            prev.update(prev.len() - 1, prev.last().push(s.last()))
        }
    }
}

pub open spec fn is_digit(c: char) -> bool {
    '0' <= c <= '9'
}

/// Where the first ASCII digit of `s` is, from `i` on (the length if none).
pub open spec fn first_digit(s: Seq<char>, i: int) -> int
    decreases s.len() - i,
{
    if i < 0 || i >= s.len() {
        s.len() as int
    } else if is_digit(s[i]) {
        i
    } else {
        first_digit(s, i + 1)
    }
}

/// The number a run of decimal digits spells.
pub open spec fn digits_value(d: Seq<char>) -> int
    decreases d.len(),
{
    if d.len() == 0 { 0 } else { 10 * digits_value(d.drop_last()) + (d.last() as int - '0' as int) }
}

/// A step's tick count: the digits as a `u32`, or 1 if they are missing,
/// not all digits, or too large.
pub open spec fn count_of(d: Seq<char>) -> u32 {
    if d.len() > 0 && (forall|i: int| 0 <= i < d.len() ==> is_digit(#[trigger] d[i])) && digits_value(d) <= u32::MAX {
        digits_value(d) as u32
    } else {
        1
    }
}

/// One step of the script: nothing for a blank one; otherwise the keys
/// before the first digit, held for the count after it.
pub open spec fn step_of(seg: Seq<char>) -> Option<(PlayerInput, u32)> {
    let t = trim(seg);
    if t.len() == 0 {
        None
    } else {
        let k = first_digit(t, 0);
        let keys = t.subrange(0, k);
        Some((PlayerInput {
            west: keys.contains('w'),
            east: keys.contains('e'),
            jump: keys.contains('j'),
            look_up: keys.contains('u'),
            look_down: keys.contains('d'),
            bomb: keys.contains('b'),
            dismiss: keys.contains('k'),
        }, count_of(t.subrange(k, t.len() as int))))
    }
}

/// The steps of the first `n` segments.
pub open spec fn steps_of(segs: Seq<Seq<char>>, n: int) -> Seq<(PlayerInput, u32)>
    decreases n,
{
    if n <= 0 {
        Seq::empty()
    } else {
        match step_of(segs[n - 1]) {
            Some(st) => steps_of(segs, n - 1).push(st),
            None => steps_of(segs, n - 1),
        }
    }
}

/// What the script holds at tick `t`: each step for its count, then the
/// last step for good; nothing held for an empty script.
pub open spec fn held_at(steps: Seq<(PlayerInput, u32)>, t: int, i: int) -> PlayerInput
    decreases steps.len() - i,
{
    if i < 0 || i >= steps.len() {
        if steps.len() > 0 {
            steps.last().0
        } else {
            PlayerInput { west: false, east: false, jump: false, look_up: false, look_down: false, bomb: false, dismiss: false }
        }
    } else if t < steps[i].1 {
        steps[i].0
    } else {
        held_at(steps, t - steps[i].1, i + 1)
    }
}

proof fn lemma_trim_start_from(s: Seq<char>, lo: int)
    requires
        0 <= lo <= s.len(),
        forall|j: int| 0 <= j < lo ==> is_ws(#[trigger] s[j]),
    ensures
        trim_start(s) == trim_start(s.subrange(lo, s.len() as int)),
    decreases lo,
{
    if lo > 0 {
        assert(is_ws(s[0]));
        assert(trim_start(s) == trim_start(s.drop_first()));
        lemma_trim_start_from(s.drop_first(), lo - 1);
        assert(s.drop_first().subrange(lo - 1, s.drop_first().len() as int) =~= s.subrange(lo, s.len() as int));
    } else {
        assert(s.subrange(0, s.len() as int) =~= s);
    }
}

proof fn lemma_trim_end_to(s: Seq<char>, hi: int)
    requires
        0 <= hi <= s.len(),
        forall|j: int| hi <= j < s.len() ==> is_ws(#[trigger] s[j]),
    ensures
        trim_end(s) == trim_end(s.subrange(0, hi)),
    decreases s.len() - hi,
{
    if hi < s.len() {
        lemma_trim_end_to(s.drop_last(), hi);
        assert(s.drop_last().subrange(0, hi) =~= s.subrange(0, hi));
    } else {
        assert(s.subrange(0, hi) =~= s);
    }
}

proof fn lemma_first_digit_range(s: Seq<char>, i: int)
    requires
        0 <= i <= s.len(),
    ensures
        i <= first_digit(s, i) <= s.len(),
    decreases s.len() - i,
{
    if i < s.len() && !is_digit(s[i]) {
        lemma_first_digit_range(s, i + 1);
    }
}

/// Whether `c` occurs in `s[lo..hi]`.
fn has(s: &Vec<char>, lo: usize, hi: usize, c: char) -> (r: bool)
    requires
        lo <= hi <= s@.len(),
    ensures
        r == s@.subrange(lo as int, hi as int).contains(c),
{
    let mut i = lo;
    while i < hi
        invariant
            lo <= i <= hi,
            hi <= s@.len(),
            forall|j: int| lo <= j < i ==> s@[j] != c,
        decreases hi - i,
    {
        if s[i] == c {
            assert(s@.subrange(lo as int, hi as int)[i - lo] == c);
            return true;
        }
        i = i + 1;
    }
    assert forall|j: int| 0 <= j < s@.subrange(lo as int, hi as int).len() implies s@.subrange(lo as int, hi as int)[j] != c by {
        assert(s@.subrange(lo as int, hi as int)[j] == s@[lo + j]);
    }
    false
}

/// The count in `s[lo..hi]`.
fn count_in(s: &Vec<char>, lo: usize, hi: usize) -> (r: u32)
    requires
        lo <= hi <= s@.len(),
    ensures
        r == count_of(s@.subrange(lo as int, hi as int)),
{
    let ghost d = s@.subrange(lo as int, hi as int);
    if lo == hi {
        return 1;
    }
    let mut value: u64 = 0;
    let mut too_big = false;
    let mut i = lo;
    while i < hi
        invariant
            lo <= i <= hi,
            hi <= s@.len(),
            d == s@.subrange(lo as int, hi as int),
            forall|j: int| lo <= j < i ==> is_digit(#[trigger] s@[j]),
            !too_big ==> value == digits_value(s@.subrange(lo as int, i as int)) && value <= u32::MAX,
            too_big ==> digits_value(s@.subrange(lo as int, i as int)) > u32::MAX,
        decreases hi - i,
    {
        let c = s[i];
        if !('0' <= c && c <= '9') {
            assert(!is_digit(d[i - lo]));
            return 1;
        }
        let ghost prev = s@.subrange(lo as int, i as int);
        assert(s@.subrange(lo as int, i + 1).drop_last() =~= prev);
        proof {
            let dv = digits_value(prev);
            assert(digits_value(s@.subrange(lo as int, i + 1)) == 10 * dv + (c as int - '0' as int));
        }
        if !too_big {
            let next = value * 10 + (c as u64 - '0' as u64);
            if next > 0xffff_ffff {
                too_big = true;
            } else {
                value = next;
            }
        } else {
            proof {
                assert(digits_value(s@.subrange(lo as int, i + 1)) >= 10 * digits_value(prev));
            }
        }
        i = i + 1;
    }
    proof {
        assert(s@.subrange(lo as int, hi as int) =~= d);
        assert forall|j: int| 0 <= j < d.len() implies is_digit(#[trigger] d[j]) by {
            assert(d[j] == s@[lo + j]);
        }
    }
    if too_big {
        1
    } else {
        value as u32
    }
}

/// One segment's step.
fn step_from(seg: &Vec<char>) -> (r: Option<(PlayerInput, u32)>)
    ensures
        r == step_of(seg@),
{
    let n = seg.len();
    let mut lo: usize = 0;
    while lo < n && ws(seg[lo])
        invariant
            lo <= n,
            n == seg@.len(),
            forall|j: int| 0 <= j < lo ==> is_ws(#[trigger] seg@[j]),
        decreases n - lo,
    {
        lo = lo + 1;
    }
    proof {
        lemma_trim_start_from(seg@, lo as int);
        let u = seg@.subrange(lo as int, n as int);
        if lo < n {
            assert(!is_ws(u[0]));
        }
        assert(trim_start(u) == u);
    }
    let mut hi: usize = n;
    while hi > lo && ws(seg[hi - 1])
        invariant
            lo <= hi <= n,
            n == seg@.len(),
            forall|j: int| hi <= j < n ==> is_ws(#[trigger] seg@[j]),
        decreases hi,
    {
        hi = hi - 1;
    }
    let ghost u = seg@.subrange(lo as int, n as int);
    let ghost t = seg@.subrange(lo as int, hi as int);
    proof {
        assert forall|j: int| hi - lo <= j < u.len() implies is_ws(#[trigger] u[j]) by {
            assert(u[j] == seg@[lo + j]);
        }
        lemma_trim_end_to(u, hi - lo);
        assert(u.subrange(0, hi - lo) =~= t);
        if hi > lo {
            assert(!is_ws(t.last()));
        }
        assert(trim_end(t) == t);
        assert(trim(seg@) == t);
    }
    if lo == hi {
        return None;
    }
    let mut k = lo;
    while k < hi && !('0' <= seg[k] && seg[k] <= '9')
        invariant
            lo <= k <= hi,
            hi <= n,
            n == seg@.len(),
            t == seg@.subrange(lo as int, hi as int),
            first_digit(t, 0) == first_digit(t, k - lo),
        decreases hi - k,
    {
        k = k + 1;
    }
    proof {
        assert(first_digit(t, k - lo) == k - lo);
        assert(t.subrange(0, k - lo) =~= seg@.subrange(lo as int, k as int));
        assert(t.subrange(k - lo, t.len() as int) =~= seg@.subrange(k as int, hi as int));
    }
    let input = PlayerInput {
        west: has(seg, lo, k, 'w'),
        east: has(seg, lo, k, 'e'),
        jump: has(seg, lo, k, 'j'),
        look_up: has(seg, lo, k, 'u'),
        look_down: has(seg, lo, k, 'd'),
        bomb: has(seg, lo, k, 'b'),
        dismiss: has(seg, lo, k, 'k'),
    };
    let count = count_in(seg, k, hi);
    Some((input, count))
}

/// A parsed script: each step's commands and how many ticks they hold.
pub struct InputScript(pub Vec<(PlayerInput, u32)>);

impl InputScript {
    pub fn parse(spec: &str) -> (r: Self)
        ensures
            r.0@ == steps_of(split_commas(spec@), split_commas(spec@).len() as int),
    {
        let n = spec.unicode_len();
        proof {
            assert(spec@.subrange(0, 0) =~= Seq::<char>::empty());
        }
        let mut steps: Vec<(PlayerInput, u32)> = Vec::new();
        let mut seg: Vec<char> = Vec::new();
        let ghost mut done: int = 0;
        let mut i: usize = 0;
        while i < n
            invariant
                i <= n,
                n == spec@.len(),
                done >= 0,
                split_commas(spec@.subrange(0, i as int)).len() == done + 1,
                split_commas(spec@.subrange(0, i as int)).last() == seg@,
                steps@ == steps_of(split_commas(spec@.subrange(0, i as int)), done),
            decreases n - i,
        {
            let c = spec.get_char(i);
            let ghost before = split_commas(spec@.subrange(0, i as int));
            assert(spec@.subrange(0, i + 1).drop_last() =~= spec@.subrange(0, i as int));
            assert(spec@.subrange(0, i + 1).last() == c);
            if c == ',' {
                if let Some(st) = step_from(&seg) {
                    steps.push(st);
                }
                proof {
                    let after = split_commas(spec@.subrange(0, i + 1));
                    assert(after == before.push(Seq::empty()));
                    lemma_steps_prefix(after, before, done);
                    assert(after[done] == seg@);
                    assert(steps_of(after, done + 1) == (match step_of(seg@) {
                        Some(st) => steps_of(before, done).push(st),
                        None => steps_of(before, done),
                    }));
                    done = done + 1;
                }
                seg = Vec::new();
            } else {
                seg.push(c);
                proof {
                    let after = split_commas(spec@.subrange(0, i + 1));
                    assert(after == before.update(before.len() - 1, before.last().push(c)));
                    lemma_steps_prefix(after, before, done);
                }
            }
            i = i + 1;
        }
        let ghost all = split_commas(spec@);
        assert(spec@.subrange(0, n as int) =~= spec@);
        assert(all.last() == seg@);
        if let Some(st) = step_from(&seg) {
            steps.push(st);
        }
        assert(all[done] == seg@);
        InputScript(steps)
    }

    /// The commands held at tick `t`: each step for its count, then the
    /// last step for good; nothing for an empty script.
    pub fn at(&self, t: u32) -> (r: PlayerInput)
        ensures
            r == held_at(self.0@, t as int, 0),
    {
        let mut remaining = t;
        let mut i: usize = 0;
        while i < self.0.len()
            invariant
                i <= self.0@.len(),
                held_at(self.0@, t as int, 0) == held_at(self.0@, remaining as int, i as int),
            decreases self.0@.len() - i,
        {
            let (state, count) = self.0[i];
            if remaining < count {
                return state;
            }
            remaining = remaining - count;
            i = i + 1;
        }
        if self.0.len() > 0 {
            self.0[self.0.len() - 1].0
        } else {
            PlayerInput { west: false, east: false, jump: false, look_up: false, look_down: false, bomb: false, dismiss: false }
        }
    }
}

/// Where each tick's commands come from.
pub enum InputSource {
    /// A script, stepped once per tick.
    Script(InputScript),
    /// Walks east, tapping jump every twelfth tick and bomb every fortieth.
    Autoplay,
    /// The keyboard and pads, as the accumulator collected them.
    Live,
}

/// The unattended player's commands at tick `t`.
pub open spec fn autoplay_at(t: u32) -> PlayerInput {
    PlayerInput {
        west: false,
        east: true,
        jump: t % 12 == 0,
        look_up: false,
        look_down: false,
        bomb: t % 40 == 0,
        dismiss: false,
    }
}

/// The tick's commands: a script's or the unattended player's at the tick
/// count (which then advances), else what the devices collected since the
/// last tick.
pub fn read_input(source: &InputSource, tick: &mut u32, accum: &mut InputAccumulator) -> (r: PlayerInput)
    requires
        *old(tick) < u32::MAX,
    ensures
        match source {
            InputSource::Script(s) => r == held_at(s.0@, *old(tick) as int, 0) && *final(tick) == *old(tick) + 1
                && *final(accum) == *old(accum),
            InputSource::Autoplay => r == autoplay_at(*old(tick)) && *final(tick) == *old(tick) + 1
                && *final(accum) == *old(accum),
            InputSource::Live => r == old(accum).pending && final(accum).pending == old(accum).latest
                && final(accum).latest == old(accum).latest && *final(tick) == *old(tick),
        },
{
    match source {
        InputSource::Script(script) => {
            let r = script.at(*tick);
            *tick = *tick + 1;
            r
        },
        InputSource::Autoplay => {
            let t = *tick;
            *tick = t + 1;
            PlayerInput {
                west: false,
                east: true,
                jump: t % 12 == 0,
                look_up: false,
                look_down: false,
                bomb: t % 40 == 0,
                dismiss: false,
            }
        },
        InputSource::Live => accum.take(),
    }
}

proof fn lemma_split_nonempty(s: Seq<char>)
    ensures
        split_commas(s).len() >= 1,
    decreases s.len(),
{
    if s.len() > 0 {
        lemma_split_nonempty(s.drop_last());
    }
}

proof fn lemma_steps_prefix(a: Seq<Seq<char>>, b: Seq<Seq<char>>, m: int)
    requires
        0 <= m <= b.len(),
        m <= a.len(),
        forall|j: int| 0 <= j < m ==> a[j] == b[j],
    ensures
        steps_of(a, m) == steps_of(b, m),
    decreases m,
{
    if m > 0 {
        lemma_steps_prefix(a, b, m - 1);
    }
}

} // verus!
