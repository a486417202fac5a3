//! The game's text frames: the bordered gray boxes opened over the paused
//! game for hints, the help menu and so on.
//!
//! Geometry is in the DOS game's own terms: `UnfoldTextFrame(top, height,
//! width, title, bottom)` centres a `width`-tile frame on the 40x25 tile
//! screen at row `top` and hands back `left + 1` as the column for the
//! lines that fill it. Rows are absolute screen rows.
use vstd::prelude::*;
use vstd::string::StrSliceExecFns;

verus! {

/// A frame and the text drawn in it.
pub struct TextFrame {
    pub top: i32,
    pub height: i32,
    pub width: i32,
    /// Drawn centred on the screen at `top + 1`.
    pub title: String,
    /// Drawn centred at `top + height - 2`.
    pub bottom: String,
    /// `(x, absolute_row, text)`, as passed to `DrawTextLine`.
    pub lines: Vec<(i32, i32, String)>,
}

/// The column a frame `width` tiles wide starts at.
pub open spec fn frame_left(width: int) -> int {
    20 - width / 2
}

/// The column a centred text of `len` characters starts at.
pub open spec fn centred_x(len: int) -> int {
    20 - len / 2
}

/// A frame's lines as `(x, row, text)`.
pub open spec fn lines_view(lines: Seq<(i32, i32, String)>) -> Seq<(int, int, Seq<char>)> {
    lines.map_values(|l: (i32, i32, String)| (l.0 as int, l.1 as int, l.2@))
}

impl TextFrame {
    /// Its lines, as `(x, row, text)`.
    pub open spec fn lines_spec(&self) -> Seq<(int, int, Seq<char>)> {
        lines_view(self.lines@)
    }

    /// A frame's size fits the screen it is drawn on.
    pub open spec fn sized(&self) -> bool {
        0 <= self.width <= 0x1000 && -0x1000 <= self.top <= 0x1000 && -0x1000 <= self.height <= 0x1000
    }

    /// `UnfoldTextFrame`: an empty frame.
    pub fn new(top: i32, height: i32, width: i32, title: &str, bottom: &str) -> (f: Self)
        ensures
            f.top == top,
            f.height == height,
            f.width == width,
            f.title@ == title@,
            f.bottom@ == bottom@,
            f.lines_spec() == Seq::<(int, int, Seq<char>)>::empty(),
    {
        let f = TextFrame { top, height, width, title: title.to_owned(), bottom: bottom.to_owned(), lines: Vec::new() };
        proof {
            assert(lines_view(f.lines@) =~= Seq::<(int, int, Seq<char>)>::empty());
        }
        f
    }

    /// `left`: the column the frame starts at. The centred title ignores
    /// it and centres on column 20.
    pub fn left(&self) -> (r: i32)
        ensures
            r == frame_left(self.width as int),
    {
        let w = self.width;
        let half = w >> 1;
        assert(-0x4000_0000 <= half <= 0x3fff_ffff) by (bit_vector)
            requires
                half == w >> 1,
        ;
        assert(0 <= w - 2 * half <= 1) by (bit_vector)
            requires
                half == w >> 1,
        ;
        assert(half == (w as int) / 2) by (nonlinear_arith)
            requires
                0 <= w - 2 * half <= 1,
        ;
        20 - half
    }

    /// The column `UnfoldTextFrame` hands back for the lines.
    pub fn text_x(&self) -> (r: i32)
        ensures
            r == frame_left(self.width as int) + 1,
    {
        self.left() + 1
    }

    /// The lines drawn so far, as `(x, row, text)`.
    pub fn lines_for_test(&self) -> (r: &Vec<(i32, i32, String)>)
        ensures
            lines_view(r@) == self.lines_spec(),
    {
        &self.lines
    }

    /// Adds a line at `(x, row)`.
    pub fn line(self, x: i32, row: i32, text: &str) -> (f: Self)
        ensures
            f.top == self.top && f.height == self.height && f.width == self.width,
            f.title@ == self.title@ && f.bottom@ == self.bottom@,
            f.lines_spec() == self.lines_spec().push((x as int, row as int, text@)),
    {
        let mut f = self;
        let ghost before = f.lines@;
        f.lines.push((x, row, text.to_owned()));
        proof {
            assert(lines_view(f.lines@) =~= lines_view(before).push((x as int, row as int, text@)));
        }
        f
    }

    /// Adds a line at the frame's own text column.
    pub fn text(self, row: i32, text: &str) -> (f: Self)
        ensures
            f.top == self.top && f.height == self.height && f.width == self.width,
            f.title@ == self.title@ && f.bottom@ == self.bottom@,
            f.lines_spec() == self.lines_spec().push((frame_left(self.width as int) + 1, row as int, text@)),
    {
        let x = self.text_x();
        self.line(x, row, text)
    }

    /// Everything drawn in the frame, as `(x, row, text)`: the title
    /// centred on the screen at `top + 1` and the footer at `top + height -
    /// 2` (each only if it has text), then the lines.
    pub fn placements(&self) -> (r: Vec<(i32, i32, String)>)
        requires
            self.sized(),
            self.title@.len() <= 0x1000,
            self.bottom@.len() <= 0x1000,
        ensures
            lines_view(r@) == (if self.title@.len() == 0 { Seq::empty() } else {
                seq![(centred_x(self.title@.len() as int), self.top + 1, self.title@)]
            }) + (if self.bottom@.len() == 0 { Seq::empty() } else {
                seq![(centred_x(self.bottom@.len() as int), self.top + self.height - 2, self.bottom@)]
            }) + self.lines_spec(),
    {
        let mut all: Vec<(i32, i32, String)> = Vec::new();
        let tl = self.title.as_str().unicode_len();
        if tl > 0 {
            all.push((20 - (tl as i32) / 2, self.top + 1, self.title.clone()));
        }
        let bl = self.bottom.as_str().unicode_len();
        if bl > 0 {
            all.push((20 - (bl as i32) / 2, self.top + self.height - 2, self.bottom.clone()));
        }
        let ghost head = all@;
        let mut i: usize = 0;
        while i < self.lines.len()
            invariant
                i <= self.lines@.len(),
                all@ == head + self.lines@.subrange(0, i as int),
            decreases self.lines@.len() - i,
        {
            let item = &self.lines[i];
            all.push((item.0, item.1, item.2.clone()));
            proof {
                assert(self.lines@.subrange(0, i + 1) =~= self.lines@.subrange(0, i as int).push(self.lines@[i as int]));
            }
            i = i + 1;
        }
        proof {
            assert(self.lines@.subrange(0, self.lines@.len() as int) =~= self.lines@);
            assert(lines_view(all@) =~= lines_view(head) + lines_view(self.lines@));
        }
        all
    }
}

} // verus!
