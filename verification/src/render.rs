//! The picture of an editor on a screen: the visible part of the document,
//! the status bar and the place of the terminal caret.

use vstd::prelude::*;
use crate::chars::{decimal, decimal_digits, extend, slice, to_vec, views};
use crate::editor::{lemma_label_lengths, Editor, EditorState, Mode, State};
use crate::file_buffer::{Document, FileBuffer};
use crate::screen::Screen;

verus! {

/// The smaller of two numbers.
pub open spec fn least(a: int, b: int) -> int {
    if a <= b {
        a
    } else {
        b
    }
}

/// What a screen shows: the content rows from top to bottom, the status bar
/// below them, and the one-based column and row of the terminal caret.
pub struct Picture {
    pub rows: Seq<Seq<char>>,
    pub bar: Seq<char>,
    pub caret: (int, int),
}

/// A rendered screen.
#[derive(Debug, PartialEq, Eq)]
pub struct Frame {
    pub rows: Vec<Vec<char>>,
    pub bar: Vec<char>,
    pub caret: (u16, u16),
}

impl View for Frame {
    type V = Picture;

    open spec fn view(&self) -> Picture {
        Picture {
            rows: views(self.rows@),
            bar: self.bar@,
            caret: (self.caret.0 as int, self.caret.1 as int),
        }
    }
}

/// The part of a line that a window of `width` columns starting at column
/// `from` shows; empty if the line ends before the window.
pub open spec fn visible_part(line: Seq<char>, from: int, width: int) -> Seq<char> {
    line.subrange(least(from, line.len() as int), least(from + width, line.len() as int))
}

/// What a content row shows below the last line of the document.
pub open spec fn filler() -> Seq<char> {
    seq!['~']
}

/// The `k`-th content row: the visible part of the line `k` rows below the
/// first visible one, or the filler where the document has no such line.
pub open spec fn content_row(document: Document, k: int, screen: Screen) -> Seq<char> {
    if document.row_offset + k < document.lines.len() {
        visible_part(
            document.lines[document.row_offset + k],
            document.col_offset,
            screen.width as int,
        )
    } else {
        filler()
    }
}

/// The content rows of a screen.
pub open spec fn content(document: Document, screen: Screen) -> Seq<Seq<char>> {
    Seq::new(screen.content_rows() as nat, |k: int| content_row(document, k, screen))
}

/// The right end of the status bar: the one-based place of the caret.
pub open spec fn position_label(document: Document) -> Seq<char> {
    " row: "@ + decimal((document.row + 1) as nat) + ", col: "@ + decimal(
        (document.col + 1) as nat,
    )
}

/// The columns of the status bar that are left for the text between the
/// label and the place of the caret.
pub open spec fn room(width: int, label_len: int, position_len: int) -> int {
    if width >= label_len + position_len {
        width - label_len - position_len
    } else {
        0
    }
}

/// The first character of a text that a window of `room` columns shows when
/// the caret of the text is at `caret`: the caret itself, but no later than
/// where the window ends with the text. Zero if the text fits.
pub open spec fn window_start(len: int, caret: int, room: int) -> int {
    if len > room {
        least(caret, len - room)
    } else {
        0
    }
}

/// `n` spaces.
pub open spec fn spaces(n: int) -> Seq<char> {
    Seq::new(n as nat, |i: int| ' ')
}

/// What a window of `room` columns shows of a text: the `room` characters
/// from the window's start if the text is longer, else the text padded
/// with spaces to `room` columns.
pub open spec fn window(text: Seq<char>, caret: int, room: int) -> Seq<char> {
    if text.len() > room {
        text.subrange(
            window_start(text.len() as int, caret, room),
            window_start(text.len() as int, caret, room) + room,
        )
    } else {
        text + spaces(room - text.len())
    }
}

/// The columns left for the command text in the status bar of `state`.
pub open spec fn command_room(state: EditorState, screen: Screen) -> int {
    room(
        screen.width as int,
        state.label().len() as int,
        position_label(state.document).len() as int,
    )
}

/// The first character of the command text that the status bar shows.
pub open spec fn command_start(state: EditorState, screen: Screen) -> int {
    window_start(
        state.command_text().len() as int,
        state.command_col(),
        command_room(state, screen),
    )
}

/// The status bar: the label, the window on the command text and the place
/// of the caret.
pub open spec fn status_bar(state: EditorState, screen: Screen) -> Seq<char> {
    state.label() + window(state.command_text(), state.command_col(), command_room(state, screen))
        + position_label(state.document)
}

/// The one-based column and row of the terminal caret. In normal mode it
/// stands where the document caret is shown, kept on the content rows; in
/// a prompt it stands on the status bar, behind the label, at the caret of
/// the command text inside its window.
pub open spec fn caret_cell(state: EditorState, screen: Screen) -> (int, int) {
    match state.mode {
        Mode::Normal => (
            least(state.document.col - state.document.col_offset, screen.col_span()) + 1,
            least(state.document.row - state.document.row_offset, screen.row_span()) + 1,
        ),
        Mode::Prompt(_, _) => (
            state.label().len() + state.command_col() - command_start(state, screen) + 1,
            if screen.height >= 1 {
                screen.height as int
            } else {
                1
            },
        ),
    }
}

/// The picture of an editor on a screen.
pub open spec fn picture(state: EditorState, screen: Screen) -> Picture {
    Picture {
        rows: content(state.document, screen),
        bar: status_bar(state, screen),
        caret: caret_cell(state, screen),
    }
}

/// The content rows of the document on a screen.
pub fn visible_rows(buffer: &FileBuffer, screen: Screen) -> (rows: Vec<Vec<char>>)
    ensures
        views(rows@) == content(buffer@, screen),
        rows@.len() == screen.content_rows(),
{
    let lines = buffer.lines();
    let (row_offset, col_offset) = buffer.viewport();
    let width = screen.width as usize;
    let count = screen.rows();
    let below = if row_offset < lines.len() {
        lines.len() - row_offset
    } else {
        0
    };
    let mut rows: Vec<Vec<char>> = Vec::new();
    let mut k: usize = 0;
    while k < count
        invariant
            k <= count,
            count == screen.content_rows(),
            width == screen.width,
            views(lines@) == buffer@.lines,
            row_offset == buffer@.row_offset,
            col_offset == buffer@.col_offset,
            below <= lines.len(),
            below == if row_offset < lines.len() {
                lines.len() - row_offset
            } else {
                0
            },
            rows@.len() == k,
            forall|j: int| 0 <= j < k ==> (#[trigger] rows@[j])@ == content_row(buffer@, j, screen),
        decreases count - k,
    {
        if k < below {
            let line = &lines[row_offset + k];
            let len = line.len();
            let from = if col_offset < len {
                col_offset
            } else {
                len
            };
            let to = if len - from <= width {
                len
            } else {
                from + width
            };
            rows.push(slice(line, from, to));
        } else {
            let mut row: Vec<char> = Vec::new();
            row.push('~');
            rows.push(row);
        }
        k = k + 1;
    }
    rows
}

/// The right end of the status bar for the document.
pub fn position(buffer: &FileBuffer) -> (label: Vec<char>)
    ensures
        label@ == position_label(buffer@),
{
    let (row, col) = buffer.caret();
    let mut label = to_vec(" row: ");
    let row_digits = decimal_digits(row as u128 + 1);
    extend(&mut label, &row_digits);
    let middle = to_vec(", col: ");
    extend(&mut label, &middle);
    let col_digits = decimal_digits(col as u128 + 1);
    extend(&mut label, &col_digits);
    label
}

/// The window of `room` columns on a text with its caret at `caret`, and
/// the index of the first character it shows.
pub fn window_on(text: &Vec<char>, caret: usize, room: usize) -> (r: (Vec<char>, usize))
    ensures
        r.0@ == window(text@, caret as int, room as int),
        r.1 == window_start(text@.len() as int, caret as int, room as int),
{
    if text.len() > room {
        let latest = text.len() - room;
        let start = if caret < latest {
            caret
        } else {
            latest
        };
        (slice(text, start, start + room), start)
    } else {
        let mut shown = slice(text, 0, text.len());
        let pad = room - text.len();
        let mut i: usize = 0;
        while i < pad
            invariant
                i <= pad,
                shown@ == text@ + spaces(i as int),
            decreases pad - i,
        {
            shown.push(' ');
            i = i + 1;
        }
        (shown, 0)
    }
}

/// The status bar of the editor on a screen, and the index of the first
/// character of the command text that it shows.
pub fn status(editor: &Editor, screen: Screen) -> (r: (Vec<char>, usize))
    ensures
        r.0@ == status_bar(editor@, screen),
        r.1 == command_start(editor@, screen),
{
    let (label, command, command_col) = editor.prompt();
    let mut bar = to_vec(label);
    let text = to_vec(command.as_str());
    let place = position(editor.file_buffer());
    let width = screen.width as usize;
    let room = if place.len() <= width && bar.len() <= width - place.len() {
        width - place.len() - bar.len()
    } else {
        0
    };
    let (shown, start) = window_on(&text, command_col, room);
    extend(&mut bar, &shown);
    extend(&mut bar, &place);
    (bar, start)
}

/// Renders the editor on a screen and drops the pending status message,
/// which has now been shown.
pub fn render(editor: &mut Editor, screen: Screen) -> (frame: Frame)
    requires
        old(editor)@.wf(),
    ensures
        frame@ == picture(old(editor)@, screen),
        frame.caret.0 >= 1,
        frame.caret.1 >= 1,
        final(editor)@ == (EditorState { message: None, ..old(editor)@ }),
        final(editor)@.wf(),
{
    let rows = visible_rows(editor.file_buffer(), screen);
    let (bar, start) = status(editor, screen);
    let caret = match editor.state() {
        State::Femto => {
            let (row, col) = editor.file_buffer().caret();
            let (row_offset, col_offset) = editor.file_buffer().viewport();
            let across = if col - col_offset < screen.max_col_distance() {
                col - col_offset
            } else {
                screen.max_col_distance()
            };
            let down = if row - row_offset < screen.max_row_distance() {
                row - row_offset
            } else {
                screen.max_row_distance()
            };
            ((across + 1) as u16, (down + 1) as u16)
        },
        State::Cmd(_) => {
            let (label, _, command_col) = editor.prompt();
            let label_len = label.unicode_len();
            proof {
                lemma_label_lengths();
            }
            (
                (label_len + (command_col - start) + 1) as u16,
                if screen.height >= 1 {
                    screen.height
                } else {
                    1
                },
            )
        },
    };
    editor.clear_message();
    Frame { rows, bar, caret }
}

} // verus!
