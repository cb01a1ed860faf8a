//! A two-cell marker that stays inside the area it is drawn in.

use vstd::prelude::*;

verus! {

/// A marker two cells wide and one cell high, with the cell of its left
/// half.
#[derive(Clone, Copy, Debug, PartialEq, Eq, Structural)]
pub struct Player {
    pub x: u16,
    pub y: u16,
}

/// `a - b`, or 0 where `b` is the larger.
pub open spec fn minus_or_zero(a: int, b: int) -> int {
    if a >= b {
        a - b
    } else {
        0
    }
}

/// The smaller of two numbers.
pub open spec fn lesser(a: int, b: int) -> int {
    if a <= b {
        a
    } else {
        b
    }
}

/// `a + b`, or the largest `u16` where the sum is larger.
pub open spec fn plus_capped(a: int, b: int) -> int {
    lesser(a + b, u16::MAX as int)
}

impl Player {
    /// The cell of the marker's left half in an area of `width` by `height`
    /// cells: its own cell, moved left and up as far as it takes to keep
    /// both halves inside.
    pub open spec fn anchor(self, width: u16, height: u16) -> (int, int) {
        (
            lesser(self.x as int, minus_or_zero(width as int, 2)),
            lesser(self.y as int, minus_or_zero(height as int, 1)),
        )
    }

    /// The cells that the marker colours in an area of `width` by `height`
    /// cells, the left one first.
    pub fn render(&self, width: u16, height: u16) -> (cells: Vec<(u16, u16)>)
        ensures
            cells@.len() == 2,
            cells@[0] == (
                self.anchor(width, height).0 as u16,
                self.anchor(width, height).1 as u16,
            ),
            cells@[1] == (
                plus_capped(self.anchor(width, height).0, 1) as u16,
                self.anchor(width, height).1 as u16,
            ),
    {
        let right_limit: u16 = if width >= 2 {
            width - 2
        } else {
            0
        };
        let low_limit: u16 = if height >= 1 {
            height - 1
        } else {
            0
        };
        let x: u16 = if self.x <= right_limit {
            self.x
        } else {
            right_limit
        };
        let y: u16 = if self.y <= low_limit {
            self.y
        } else {
            low_limit
        };
        let mut cells: Vec<(u16, u16)> = Vec::new();
        let mut dx: u16 = 0;
        while dx < 2
            invariant
                dx <= 2,
                cells@.len() == dx,
                forall|k: int| 0 <= k < dx ==> cells@[k] == (plus_capped(x as int, k) as u16, y),
            decreases 2 - dx,
        {
            let cx: u16 = if x <= u16::MAX - dx {
                x + dx
            } else {
                u16::MAX
            };
            cells.push((cx, y));
            dx = dx + 1;
        }
        cells
    }
}

/// In an area at least two cells wide and one cell high, both cells of the
/// marker lie inside it.
pub proof fn lemma_marker_stays_inside(player: Player, width: u16, height: u16)
    requires
        width >= 2,
        height >= 1,
    ensures
        0 <= player.anchor(width, height).0,
        player.anchor(width, height).0 + 1 < width,
        0 <= player.anchor(width, height).1 < height,
{
}

} // verus!
