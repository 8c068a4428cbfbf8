//! The caret-editing interface shared by the document and the prompt line.

use vstd::prelude::*;
use crate::screen::{clamp, Screen};

verus! {

/// A text with a caret that can be edited at the caret.
///
/// The operations take the screen that the buffer is shown on: a buffer
/// with a viewport scrolls it so that the caret stays on the screen.
pub trait Buffer {
    /// The text is well formed and the caret lies inside it.
    spec fn valid(&self) -> bool;

    /// The line that the caret is on.
    spec fn line_at_caret(&self) -> Seq<char>;

    /// The column of the caret in its line.
    spec fn caret_col(&self) -> int;

    /// In a valid buffer the caret is at a character of its line or directly
    /// after the last.
    proof fn lemma_caret_in_line(&self)
        requires
            self.valid(),
        ensures
            0 <= self.caret_col() <= self.line_at_caret().len(),
    ;

    /// Inserts `c` at the caret. Any character but a line feed goes into the
    /// line of the caret, and the caret moves past it.
    fn push(&mut self, c: char, screen: Screen)
        requires
            old(self).valid(),
        ensures
            final(self).valid(),
            c != '\n' ==> {
                &&& final(self).line_at_caret() == old(self).line_at_caret().insert(
                    old(self).caret_col(),
                    c,
                )
                &&& final(self).caret_col() == old(self).caret_col() + 1
            },
    ;

    /// Removes what stands before the caret. Inside a line that is the
    /// character before the caret, and the caret moves back by one.
    fn backspace(&mut self, screen: Screen)
        requires
            old(self).valid(),
        ensures
            final(self).valid(),
            old(self).caret_col() > 0 ==> {
                &&& final(self).line_at_caret() == old(self).line_at_caret().remove(
                    old(self).caret_col() - 1,
                )
                &&& final(self).caret_col() == old(self).caret_col() - 1
            },
    ;

    /// Removes what stands at the caret. Inside a line that is the character
    /// at the caret. The caret column stays.
    fn delete(&mut self)
        requires
            old(self).valid(),
        ensures
            final(self).valid(),
            final(self).caret_col() == old(self).caret_col(),
            old(self).caret_col() < old(self).line_at_caret().len() ==> final(self).line_at_caret()
                == old(self).line_at_caret().remove(old(self).caret_col()),
    ;

    /// Moves the caret by the given row and column deltas, clamped to the
    /// text. Without a row delta the caret stays in its line, which stays
    /// as it is.
    fn move_caret(&mut self, row: i32, col: i32, screen: Screen)
        requires
            old(self).valid(),
        ensures
            final(self).valid(),
            row == 0 ==> {
                &&& final(self).line_at_caret() == old(self).line_at_caret()
                &&& final(self).caret_col() == clamp(
                    old(self).caret_col() + col,
                    0,
                    old(self).line_at_caret().len() as int,
                )
            },
    ;
}

} // verus!
