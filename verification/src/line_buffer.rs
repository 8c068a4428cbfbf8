//! The single-line buffer behind the command prompt.

use vstd::prelude::*;
use crate::buffer::Buffer;
use crate::screen::{clamp, clamp_move, Screen};

verus! {

/// One line of text with a caret column.
pub struct Line {
    pub text: Seq<char>,
    pub col: int,
}

impl Line {
    /// The caret is at a character of the text or directly after the last.
    pub open spec fn wf(self) -> bool {
        0 <= self.col <= self.text.len()
    }

    /// The empty line.
    pub open spec fn empty() -> Line {
        Line { text: Seq::empty(), col: 0 }
    }

    /// A line holding `text` with the caret after its last character.
    pub open spec fn at_end(text: Seq<char>) -> Line {
        Line { text, col: text.len() as int }
    }

    /// `c` inserted at the caret, the caret after it. A line feed is ignored.
    pub open spec fn insert(self, c: char) -> Line {
        if c == '\n' {
            self
        } else {
            Line { text: self.text.insert(self.col, c), col: self.col + 1 }
        }
    }

    /// The character before the caret removed, if there is one.
    pub open spec fn backspace(self) -> Line {
        if self.col > 0 {
            Line { text: self.text.remove(self.col - 1), col: self.col - 1 }
        } else {
            self
        }
    }

    /// The character at the caret removed, if there is one.
    pub open spec fn delete(self) -> Line {
        if self.col < self.text.len() {
            Line { text: self.text.remove(self.col), col: self.col }
        } else {
            self
        }
    }

    /// The caret moved by `delta` columns, clamped to the text.
    pub open spec fn moved(self, delta: int) -> Line {
        Line { text: self.text, col: clamp(self.col + delta, 0, self.text.len() as int) }
    }
}

/// A line of input and the column of its caret.
pub struct LineBuffer {
    col: usize,
    line: Vec<char>,
}

impl View for LineBuffer {
    type V = Line;

    closed spec fn view(&self) -> Line {
        Line { text: self.line@, col: self.col as int }
    }
}

impl Default for LineBuffer {
    fn default() -> (r: Self)
        ensures
            r@ == Line::empty(),
            r@.wf(),
    {
        LineBuffer { col: 0, line: Vec::new() }
    }
}

impl LineBuffer {
    /// A buffer holding `line` with the caret after its last character.
    pub fn filled(line: Vec<char>) -> (r: Self)
        ensures
            r@ == Line::at_end(line@),
            r@.wf(),
    {
        let col = line.len();
        LineBuffer { col, line }
    }

    /// The text of the line.
    pub fn line(&self) -> (r: &Vec<char>)
        ensures
            r@ == self@.text,
    {
        &self.line
    }

    /// The caret column.
    pub fn col(&self) -> (r: usize)
        ensures
            r == self@.col,
    {
        self.col
    }
}

impl Buffer for LineBuffer {
    open spec fn valid(&self) -> bool {
        self@.wf()
    }

    open spec fn line_at_caret(&self) -> Seq<char> {
        self@.text
    }

    open spec fn caret_col(&self) -> int {
        self@.col
    }

    proof fn lemma_caret_in_line(&self) {
    }

    fn push(&mut self, c: char, _screen: Screen)
        ensures
            final(self)@ == old(self)@.insert(c),
    {
        if c != '\n' {
            self.line.insert(self.col, c);
            assert(self.col < self.line.len());
            self.col = self.col + 1;
        }
    }

    fn backspace(&mut self, _screen: Screen)
        ensures
            final(self)@ == old(self)@.backspace(),
    {
        if self.col != 0 {
            self.line.remove(self.col - 1);
            self.col = self.col - 1;
        }
    }

    fn delete(&mut self)
        ensures
            final(self)@ == old(self)@.delete(),
    {
        if self.col != self.line.len() {
            self.line.remove(self.col);
        }
    }

    fn move_caret(&mut self, _row: i32, col: i32, _screen: Screen)
        ensures
            final(self)@ == old(self)@.moved(col as int),
    {
        self.col = clamp_move(self.col, col, self.line.len());
    }
}

} // verus!
