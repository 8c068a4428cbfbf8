//! The document buffer: the lines of a file, a caret and a viewport.

use vstd::prelude::*;
use crate::buffer::Buffer;
use crate::chars::views;
use crate::laws::{
    backspace_keeps_document_valid, delete_keeps_document_valid, insert_keeps_document_valid,
    loaded_document_is_valid, motion_keeps_document_valid,
};
use crate::lines::{all_single_lines, document_lines, document_text, join_lines, split_lines};
use crate::screen::{clamp, clamp_move, follow, follow_caret, Screen};

verus! {

/// A document: its lines, the caret, the top-left visible cell and the path
/// of the file it was loaded from or last saved to.
pub struct Document {
    pub lines: Seq<Seq<char>>,
    pub row: int,
    pub col: int,
    pub row_offset: int,
    pub col_offset: int,
    pub path: Seq<char>,
}

impl Document {
    /// There is at least one line, no line holds a line feed, the caret is on
    /// a line and at one of its characters or directly after the last, and
    /// the viewport does not start past the caret.
    pub open spec fn wf(self) -> bool {
        &&& 0 <= self.row < self.lines.len()
        &&& 0 <= self.col <= self.lines[self.row].len()
        &&& 0 <= self.row_offset <= self.row
        &&& 0 <= self.col_offset <= self.col
        &&& all_single_lines(self.lines)
    }

    /// The caret is inside the part of the document that `screen` shows.
    pub open spec fn in_view(self, screen: Screen) -> bool {
        &&& self.row_offset <= self.row <= self.row_offset + screen.row_span()
        &&& self.col_offset <= self.col <= self.col_offset + screen.col_span()
    }

    /// The line the caret is on.
    pub open spec fn current(self) -> Seq<char> {
        self.lines[self.row]
    }

    /// An empty, unnamed document.
    pub open spec fn empty() -> Document {
        Document {
            lines: seq![Seq::<char>::empty()],
            row: 0,
            col: 0,
            row_offset: 0,
            col_offset: 0,
            path: Seq::empty(),
        }
    }

    /// The viewport moved by the least amount that shows the caret.
    pub open spec fn scrolled(self, screen: Screen) -> Document {
        Document {
            row_offset: follow(self.row_offset, self.row, screen.row_span()),
            col_offset: follow(self.col_offset, self.col, screen.col_span()),
            ..self
        }
    }

    /// The caret moved by the given deltas: first the row, clamped to the
    /// lines, then the column, clamped to the line of the new row; then the
    /// viewport follows.
    pub open spec fn moved(self, row_delta: int, col_delta: int, screen: Screen) -> Document {
        let row = clamp(self.row + row_delta, 0, self.lines.len() - 1);
        let col = clamp(self.col + col_delta, 0, self.lines[row].len() as int);
        Document { row, col, ..self }.scrolled(screen)
    }

    /// `c` inserted at the caret. A line feed splits the line at the caret
    /// and puts the caret at the start of the new line; any other character
    /// is put into the line and the caret after it.
    pub open spec fn insert(self, c: char, screen: Screen) -> Document {
        if c == '\n' {
            Document {
                lines: self.lines.update(self.row, self.current().take(self.col)).insert(
                    self.row + 1,
                    self.current().skip(self.col),
                ),
                row: self.row + 1,
                col: 0,
                ..self
            }.scrolled(screen)
        } else {
            Document {
                lines: self.lines.update(self.row, self.current().insert(self.col, c)),
                col: self.col + 1,
                ..self
            }.scrolled(screen)
        }
    }

    /// What stands before the caret removed: the character before it, or at
    /// the start of a line the break to the previous line, which puts the
    /// caret where the previous line ended. Nothing at the start of the
    /// document.
    pub open spec fn backspace(self, screen: Screen) -> Document {
        if self.col > 0 {
            Document {
                lines: self.lines.update(self.row, self.current().remove(self.col - 1)),
                col: self.col - 1,
                ..self
            }.scrolled(screen)
        } else if self.row > 0 {
            let previous = self.lines[self.row - 1];
            Document {
                lines: self.lines.update(self.row - 1, previous + self.current()).remove(self.row),
                row: self.row - 1,
                col: previous.len() as int,
                ..self
            }.scrolled(screen)
        } else {
            self
        }
    }

    /// What stands at the caret removed: the character at it, or at the end
    /// of a line the break to the next line. Nothing at the end of the
    /// document. The caret stays.
    pub open spec fn delete(self) -> Document {
        if self.col < self.current().len() {
            Document { lines: self.lines.update(self.row, self.current().remove(self.col)), ..self }
        } else if self.row + 1 < self.lines.len() {
            Document {
                lines: self.lines.update(self.row, self.current() + self.lines[self.row + 1]).remove(
                    self.row + 1,
                ),
                ..self
            }
        } else {
            self
        }
    }

    /// The document read from the text of the file at `path`, caret and
    /// viewport at the origin.
    pub open spec fn loaded(path: Seq<char>, text: Seq<char>) -> Document {
        Document {
            lines: document_lines(text),
            row: 0,
            col: 0,
            row_offset: 0,
            col_offset: 0,
            path,
        }
    }

    /// The document under the path of the file it was saved to, which the
    /// next prompt for where to save starts with.
    pub open spec fn saved_to(self, path: Seq<char>) -> Document {
        Document { path, ..self }
    }

    /// The text that stores the document in a file.
    pub open spec fn text(self) -> Seq<char> {
        document_text(self.lines)
    }

    /// The current line replaced by `line`.
    pub open spec fn with_current(self, line: Seq<char>) -> Document {
        Document { lines: self.lines.update(self.row, line), ..self }
    }
}

/// The document being edited.
pub struct FileBuffer {
    row_offset: usize,
    col_offset: usize,
    row: usize,
    col: usize,
    path: String,
    lines: Vec<Vec<char>>,
}

impl View for FileBuffer {
    type V = Document;

    closed spec fn view(&self) -> Document {
        Document {
            lines: views(self.lines@),
            row: self.row as int,
            col: self.col as int,
            row_offset: self.row_offset as int,
            col_offset: self.col_offset as int,
            path: self.path@,
        }
    }
}

impl FileBuffer {
    /// An empty, unnamed document.
    pub fn new() -> (r: Self)
        ensures
            r@ == Document::empty(),
            r@.wf(),
    {
        let mut lines: Vec<Vec<char>> = Vec::new();
        lines.push(Vec::new());
        let r = FileBuffer {
            row_offset: 0,
            col_offset: 0,
            row: 0,
            col: 0,
            path: String::new(),
            lines,
        };
        proof {
            assert(r@.lines =~= Document::empty().lines);
        }
        r
    }

    /// The line the caret is on, for editing in place.
    pub fn line(&mut self) -> (r: &mut Vec<char>)
        requires
            old(self)@.wf(),
        ensures
            r@ == old(self)@.current(),
            final(self)@ == old(self)@.with_current(final(r)@),
    {
        let ghost before = self.lines@;
        let ghost row = self.row as int;
        let r = &mut self.lines[self.row];
        proof {
            assert(views(before.update(row, *final(r))) =~= views(before).update(row, final(r)@));
        }
        r
    }

    /// Replaces the document by the one read from `text`, the content of
    /// the file at `path`.
    pub fn load(&mut self, path: String, text: &str)
        ensures
            final(self)@ == Document::loaded(path@, text@),
            final(self)@.wf(),
    {
        self.lines = split_lines(text);
        self.path = path;
        self.row = 0;
        self.col = 0;
        self.row_offset = 0;
        self.col_offset = 0;
        proof {
            loaded_document_is_valid(path@, text@);
        }
    }

    /// The text that saving the document writes: every line followed by a
    /// line feed.
    pub fn save(&self) -> (text: String)
        ensures
            text@ == self@.text(),
    {
        proof {
            reveal_strlit("\n");
            assert("\n"@ =~= seq!['\n']);
        }
        join_lines(&self.lines, "\n")
    }

    /// Records `path` as the file that the document was saved to. The
    /// document itself stays as it is.
    pub fn saved_to(&mut self, path: String)
        ensures
            final(self)@ == old(self)@.saved_to(path@),
            old(self)@.wf() ==> final(self)@.wf(),
    {
        self.path = path;
    }

    /// The lines of the document.
    pub fn lines(&self) -> (r: &Vec<Vec<char>>)
        ensures
            views(r@) == self@.lines,
            r@.len() == self@.lines.len(),
    {
        &self.lines
    }

    /// Row and column of the caret.
    pub fn caret(&self) -> (r: (usize, usize))
        ensures
            r.0 == self@.row,
            r.1 == self@.col,
    {
        (self.row, self.col)
    }

    /// Row and column of the top-left visible cell.
    pub fn viewport(&self) -> (r: (usize, usize))
        ensures
            r.0 == self@.row_offset,
            r.1 == self@.col_offset,
    {
        (self.row_offset, self.col_offset)
    }

    /// The path of the file the document was loaded from or last saved to.
    pub fn path(&self) -> (r: &String)
        ensures
            r@ == self@.path,
    {
        &self.path
    }

    /// Moves the viewport so that it shows the caret.
    fn scroll(&mut self, screen: Screen)
        ensures
            final(self)@ == old(self)@.scrolled(screen),
    {
        self.row_offset = follow_caret(self.row_offset, self.row, screen.max_row_distance());
        self.col_offset = follow_caret(self.col_offset, self.col, screen.max_col_distance());
    }
}

impl Buffer for FileBuffer {
    open spec fn valid(&self) -> bool {
        self@.wf()
    }

    open spec fn line_at_caret(&self) -> Seq<char> {
        self@.current()
    }

    open spec fn caret_col(&self) -> int {
        self@.col
    }

    proof fn lemma_caret_in_line(&self) {
    }

    fn push(&mut self, c: char, screen: Screen)
        ensures
            final(self)@ == old(self)@.insert(c, screen),
            final(self)@.in_view(screen),
    {
        let (col, row) = (self.col, self.row);
        let ghost before = self.lines@;
        proof {
            insert_keeps_document_valid(old(self)@, c, screen);
        }
        if c == '\n' {
            let tail = self.lines[row].split_off(col);
            assert(row < self.lines.len());
            self.lines.insert(row + 1, tail);
            self.row = row + 1;
            self.col = 0;
            proof {
                assert(views(self.lines@) =~= views(before).update(
                    row as int,
                    before[row as int]@.take(col as int),
                ).insert(row + 1, before[row as int]@.skip(col as int)));
            }
        } else {
            self.lines[row].insert(col, c);
            assert(col < self.lines[row as int].len());
            self.col = col + 1;
            proof {
                assert(views(self.lines@) =~= views(before).update(
                    row as int,
                    before[row as int]@.insert(col as int, c),
                ));
            }
        }
        self.scroll(screen);
    }

    fn backspace(&mut self, screen: Screen)
        ensures
            final(self)@ == old(self)@.backspace(screen),
            old(self)@.col > 0 || old(self)@.row > 0 ==> final(self)@.in_view(screen),
    {
        let (col, row) = (self.col, self.row);
        let ghost before = self.lines@;
        proof {
            backspace_keeps_document_valid(old(self)@, screen);
        }
        if col == 0 && row != 0 {
            let mut line = self.lines.remove(row);
            let joined_at = self.lines[row - 1].len();
            self.lines[row - 1].append(&mut line);
            self.row = row - 1;
            self.col = joined_at;
            proof {
                assert(views(self.lines@) =~= views(before).update(
                    row - 1,
                    before[row - 1]@ + before[row as int]@,
                ).remove(row as int));
            }
            self.scroll(screen);
        } else if col != 0 {
            self.lines[row].remove(col - 1);
            self.col = col - 1;
            proof {
                assert(views(self.lines@) =~= views(before).update(
                    row as int,
                    before[row as int]@.remove(col - 1),
                ));
            }
            self.scroll(screen);
        }
    }

    fn delete(&mut self)
        ensures
            final(self)@ == old(self)@.delete(),
    {
        let (col, row) = (self.col, self.row);
        let ghost before = self.lines@;
        proof {
            delete_keeps_document_valid(old(self)@);
        }
        let len = self.lines[row].len();
        if col == len && row != self.lines.len() - 1 {
            let mut line = self.lines.remove(row + 1);
            self.lines[row].append(&mut line);
            proof {
                assert(views(self.lines@) =~= views(before).update(
                    row as int,
                    before[row as int]@ + before[row + 1]@,
                ).remove(row + 1));
            }
        } else if col != len {
            self.lines[row].remove(col);
            proof {
                assert(views(self.lines@) =~= views(before).update(
                    row as int,
                    before[row as int]@.remove(col as int),
                ));
            }
        }
    }

    fn move_caret(&mut self, row: i32, col: i32, screen: Screen)
        ensures
            final(self)@ == old(self)@.moved(row as int, col as int, screen),
            final(self)@.in_view(screen),
    {
        proof {
            motion_keeps_document_valid(old(self)@, row as int, col as int, screen);
        }
        self.row = clamp_move(self.row, row, self.lines.len() - 1);
        self.col = clamp_move(self.col, col, self.lines[self.row].len());
        self.scroll(screen);
    }
}

} // verus!
