//! The terminal window and the arithmetic that keeps a caret inside it.

use vstd::prelude::*;

verus! {

/// Dimensions of the terminal in character cells. The last row is reserved
/// for the status bar; the rows above it show the document.
///
/// Any dimensions are taken. A screen without a content row or without a
/// column counts as having one where a caret has to be kept on it.
#[derive(Clone, Copy, Debug, PartialEq, Eq)]
pub struct Screen {
    pub width: u16,
    pub height: u16,
}

impl Screen {
    /// Number of rows that show document content.
    pub open spec fn content_rows(self) -> int {
        if self.height >= 1 {
            self.height - 1
        } else {
            0
        }
    }

    /// Largest distance between the caret row and the first visible row.
    pub open spec fn row_span(self) -> int {
        if self.height >= 2 {
            self.height - 2
        } else {
            0
        }
    }

    /// Largest distance between the caret column and the first visible column.
    pub open spec fn col_span(self) -> int {
        if self.width >= 1 {
            self.width - 1
        } else {
            0
        }
    }

    /// A screen with at least one content row and one column.
    pub open spec fn usable(self) -> bool {
        self.width >= 1 && self.height >= 2
    }

    /// A screen of `width` columns and `height` rows.
    pub fn new(width: u16, height: u16) -> (s: Screen)
        ensures
            s.width == width,
            s.height == height,
    {
        Screen { width, height }
    }

    /// Number of rows that show document content.
    pub fn rows(&self) -> (n: usize)
        ensures
            n == self.content_rows(),
    {
        if self.height >= 1 {
            (self.height - 1) as usize
        } else {
            0
        }
    }

    /// Largest distance between the caret row and the first visible row.
    pub fn max_row_distance(&self) -> (n: usize)
        ensures
            n == self.row_span(),
    {
        if self.height >= 2 {
            (self.height - 2) as usize
        } else {
            0
        }
    }

    /// Largest distance between the caret column and the first visible
    /// column.
    pub fn max_col_distance(&self) -> (n: usize)
        ensures
            n == self.col_span(),
    {
        if self.width >= 1 {
            (self.width - 1) as usize
        } else {
            0
        }
    }
}

/// `v` limited to the range `[lo, hi]`.
pub open spec fn clamp(v: int, lo: int, hi: int) -> int {
    if v < lo {
        lo
    } else if v > hi {
        hi
    } else {
        v
    }
}

/// The window offset that keeps `pos` visible: unchanged while `pos` lies in
/// `[offset, offset + span]`, otherwise moved by the least amount that brings
/// `pos` back to the nearest edge.
pub open spec fn follow(offset: int, pos: int, span: int) -> int {
    if pos < offset {
        pos
    } else if pos > offset + span {
        pos - span
    } else {
        offset
    }
}

/// Adds a signed delta to a position and clamps the sum into `[0, max]`.
pub fn clamp_move(pos: usize, delta: i32, max: usize) -> (r: usize)
    ensures
        r == clamp(pos + delta, 0, max as int),
{
    if delta >= 0 {
        let d = delta as usize;
        if pos >= max {
            max
        } else if d >= max - pos {
            max
        } else {
            pos + d
        }
    } else {
        let d = (-(delta as i64)) as usize;
        if d >= pos {
            0
        } else if pos - d > max {
            max
        } else {
            pos - d
        }
    }
}

/// Executable form of [`follow`].
pub fn follow_caret(offset: usize, pos: usize, span: usize) -> (r: usize)
    ensures
        r == follow(offset as int, pos as int, span as int),
{
    if pos < offset {
        pos
    } else if pos - offset > span {
        pos - span
    } else {
        offset
    }
}

} // verus!
