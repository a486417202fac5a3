//! The scroll window over the map: its size in tiles, how far down it can
//! go, and where it stands.
use vstd::prelude::*;

verus! {

/// `SCROLLW`: the game window is 38 tiles wide.
pub const SCROLL_W: i32 = 38;

/// `SCROLLH`: and 18 tiles tall.
pub const SCROLL_H: i32 = 18;

/// A map always holds 32768 cells, so its height is `32768 / width`.
pub open spec fn max_scroll_y_spec(width: int) -> int {
    32768int / width - (SCROLL_H + 1)
}

/// `maxScrollY`: the lowest row the top of the window can reach.
pub fn max_scroll_y(width: usize) -> (r: i32)
    requires
        width > 0,
    ensures
        r == max_scroll_y_spec(width as int),
{
    let h = (32768 / width) as i32;
    h - (SCROLL_H + 1)
}

/// The window's top-left tile.
#[derive(Clone, Copy, PartialEq, Eq, Debug, Default)]
pub struct Scroll {
    pub x: i32,
    pub y: i32,
}


/// The window held inside the map: no further west or north than the
/// first column and row, no further east than the last full window, no
/// lower than `max_scroll_y`.
pub open spec fn clamped(s: Scroll, width: int) -> Scroll {
    let max_x = width - SCROLL_W;
    let max_y = max_scroll_y_spec(width);
    let x = if s.x > max_x { max_x } else { s.x as int };
    let y = if s.y > max_y { max_y } else { s.y as int };
    Scroll {
        x: (if x < 0 { 0 } else { x }) as i32,
        y: (if y < 0 { 0 } else { y }) as i32,
    }
}

impl Scroll {
    /// Keeps the window inside a map `width` tiles wide.
    pub fn clamp_to(&mut self, width: usize)
        requires
            0 < width <= 0x8000,
        ensures
            *final(self) == clamped(*old(self), width as int),
    {
        let max_x = width as i32 - SCROLL_W;
        let max_y = max_scroll_y(width);
        let mut x = if self.x > max_x { max_x } else { self.x };
        let mut y = if self.y > max_y { max_y } else { self.y };
        if x < 0 {
            x = 0;
        }
        if y < 0 {
            y = 0;
        }
        self.x = x;
        self.y = y;
    }
}

} // verus!
