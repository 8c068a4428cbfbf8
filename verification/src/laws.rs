//! What holds of every document, prompt line and editor under the editing
//! operations, proved from the definitions of the operations.

use vstd::prelude::*;
use crate::editor::{
    moves_document_caret, Command, EditorState, Key, Mode, TO_LINE_END, TO_LINE_START,
};
use crate::file_buffer::Document;
use crate::line_buffer::Line;
use crate::lines::{
    keeps_last_char, lemma_records_of_text, lemma_records_single_lines, stripped,
};
use crate::render::{
    caret_cell, command_room, command_start, content, position_label, status_bar, visible_part,
    window_start,
};
use crate::screen::Screen;

verus! {

/// Every caret motion in a document leaves the caret on one of its lines,
/// at one of the line's characters or directly after the last, and leaves
/// the lines as they are.
pub proof fn motion_keeps_document_valid(
    document: Document,
    row_delta: int,
    col_delta: int,
    screen: Screen,
)
    requires
        document.wf(),
    ensures
        ({
            let after = document.moved(row_delta, col_delta, screen);
            &&& after.wf()
            &&& 0 <= after.row < after.lines.len()
            &&& 0 <= after.col <= after.lines[after.row].len()
            &&& after.lines == document.lines
        }),
{
}

/// Every caret motion in a single line leaves the caret at one of its
/// characters or directly after the last, and leaves the text as it is.
pub proof fn motion_keeps_line_valid(line: Line, col_delta: int)
    requires
        line.wf(),
    ensures
        line.moved(col_delta).wf(),
        0 <= line.moved(col_delta).col <= line.moved(col_delta).text.len(),
        line.moved(col_delta).text == line.text,
{
}

/// An insertion keeps a document well formed.
pub proof fn insert_keeps_document_valid(document: Document, c: char, screen: Screen)
    requires
        document.wf(),
    ensures
        document.insert(c, screen).wf(),
{
}

/// A backspace keeps a document well formed.
pub proof fn backspace_keeps_document_valid(document: Document, screen: Screen)
    requires
        document.wf(),
    ensures
        document.backspace(screen).wf(),
{
}

/// A forward delete keeps a document well formed, and keeps the caret and
/// the viewport where they are.
pub proof fn delete_keeps_document_valid(document: Document)
    requires
        document.wf(),
    ensures
        document.delete().wf(),
        document.delete().row == document.row,
        document.delete().col == document.col,
        document.delete().row_offset == document.row_offset,
        document.delete().col_offset == document.col_offset,
{
}

/// A document read from a file is well formed, whatever the file holds.
pub proof fn loaded_document_is_valid(path: Seq<char>, text: Seq<char>)
    ensures
        Document::loaded(path, text).wf(),
{
    lemma_records_single_lines(text);
}

/// Every editing operation on a single line keeps it well formed.
pub proof fn edits_keep_line_valid(line: Line, c: char)
    requires
        line.wf(),
    ensures
        line.insert(c).wf(),
        line.backspace().wf(),
        line.delete().wf(),
{
}

/// Every key keeps an editor well formed.
pub proof fn keys_keep_editor_valid(state: EditorState, key: Key, screen: Screen)
    requires
        state.wf(),
    ensures
        state.step(key, screen).wf(),
{
    match key {
        Key::Char(c) => insert_keeps_document_valid(state.document, c, screen),
        Key::Backspace => backspace_keeps_document_valid(state.document, screen),
        Key::Delete => delete_keeps_document_valid(state.document),
        Key::Left => motion_keeps_document_valid(state.document, 0, -1, screen),
        Key::Right => motion_keeps_document_valid(state.document, 0, 1, screen),
        Key::Up => motion_keeps_document_valid(state.document, -1, 0, screen),
        Key::Down => motion_keeps_document_valid(state.document, 1, 0, screen),
        Key::Home => motion_keeps_document_valid(state.document, 0, TO_LINE_START as int, screen),
        Key::End => motion_keeps_document_valid(state.document, 0, TO_LINE_END as int, screen),
        _ => {},
    }
}

/// A column delta of extreme magnitude moves the caret to the start of its
/// line, or to its end if the line has at most 1073741823 characters.
pub proof fn extreme_deltas_reach_line_ends(document: Document, screen: Screen)
    requires
        document.wf(),
    ensures
        document.col <= 1073741824 ==> document.moved(0, TO_LINE_START as int, screen).col == 0,
        document.current().len() <= 1073741823 ==> document.moved(
            0,
            TO_LINE_END as int,
            screen,
        ).col == document.current().len(),
        document.moved(0, TO_LINE_START as int, screen).row == document.row,
        document.moved(0, TO_LINE_END as int, screen).row == document.row,
{
}

/// After every caret motion on a screen with at least one content row and
/// one column, the caret is inside the visible part of the document: its
/// row among the content rows, its column among the columns.
pub proof fn motion_keeps_caret_in_view(
    document: Document,
    row_delta: int,
    col_delta: int,
    screen: Screen,
)
    requires
        document.wf(),
        screen.usable(),
    ensures
        ({
            let after = document.moved(row_delta, col_delta, screen);
            &&& after.row_offset <= after.row < after.row_offset + (screen.height - 1)
            &&& after.col_offset <= after.col < after.col_offset + screen.width
        }),
{
}

/// The same holds after an insertion, and after a backspace that moves the
/// caret.
pub proof fn edits_keep_caret_in_view(document: Document, c: char, screen: Screen)
    requires
        document.wf(),
        screen.usable(),
    ensures
        ({
            let after = document.insert(c, screen);
            &&& after.row_offset <= after.row < after.row_offset + (screen.height - 1)
            &&& after.col_offset <= after.col < after.col_offset + screen.width
        }),
        document.col > 0 || document.row > 0 ==> ({
            let after = document.backspace(screen);
            &&& after.row_offset <= after.row < after.row_offset + (screen.height - 1)
            &&& after.col_offset <= after.col < after.col_offset + screen.width
        }),
{
}

/// A forward delete moves neither the caret nor the viewport, so a caret
/// in view stays in view.
pub proof fn delete_keeps_caret_in_view(document: Document, screen: Screen)
    requires
        document.wf(),
        document.in_view(screen),
    ensures
        document.delete().in_view(screen),
{
}

/// Inserting a character other than a line feed into a document and then
/// pressing backspace restores the lines and the caret.
pub proof fn insert_then_backspace_in_document(
    document: Document,
    c: char,
    first: Screen,
    second: Screen,
)
    requires
        document.wf(),
        c != '\n',
    ensures
        ({
            let after = document.insert(c, first).backspace(second);
            &&& after.lines == document.lines
            &&& after.row == document.row
            &&& after.col == document.col
        }),
{
    let line = document.current();
    assert(line.insert(document.col, c).remove(document.col) =~= line);
}

/// Inserting a character other than a line feed into a single line and then
/// pressing backspace restores the text and the caret.
pub proof fn insert_then_backspace_in_line(line: Line, c: char)
    requires
        line.wf(),
        c != '\n',
    ensures
        line.insert(c).backspace() == line,
{
    assert(line.text.insert(line.col, c).remove(line.col) =~= line.text);
}

/// Inserting a line feed into a document and then pressing backspace
/// restores the lines and the caret: the split and the merge undo each
/// other.
pub proof fn split_then_merge(document: Document, first: Screen, second: Screen)
    requires
        document.wf(),
    ensures
        ({
            let after = document.insert('\n', first).backspace(second);
            &&& after.lines == document.lines
            &&& after.row == document.row
            &&& after.col == document.col
        }),
{
    let line = document.current();
    assert(line.take(document.col) + line.skip(document.col) =~= line);
}

/// A forward delete at the end of a line that is not the last appends the
/// next line to it, removes the next line from the document and leaves the
/// caret where it is.
pub proof fn delete_at_line_end_merges(document: Document)
    requires
        document.wf(),
        document.col == document.current().len(),
        document.row + 1 < document.lines.len(),
    ensures
        ({
            let after = document.delete();
            &&& after.lines.len() == document.lines.len() - 1
            &&& after.lines[document.row] == document.current() + document.lines[document.row + 1]
            &&& forall|i: int| 0 <= i < document.row ==> after.lines[i] == document.lines[i]
            &&& forall|i: int|
                document.row < i < after.lines.len() ==> after.lines[i] == document.lines[i + 1]
            &&& after.row == document.row
            &&& after.col == document.col
        }),
{
}

/// Loading the text that saving a document writes yields the lines of the
/// document again, provided that none of them ends in a carriage return.
pub proof fn save_then_load(document: Document, path: Seq<char>)
    requires
        document.wf(),
        forall|i: int| 0 <= i < document.lines.len() ==> keeps_last_char(#[trigger] document.lines[i]),
    ensures
        Document::loaded(path, document.text()).lines == document.lines,
{
    lemma_records_of_text(document.lines);
}

/// Whatever the lines of a document end in, loading the text that saving
/// writes yields them without the carriage return that a line may end in.
pub proof fn save_then_load_strips_carriage_returns(document: Document, path: Seq<char>)
    requires
        document.wf(),
    ensures
        Document::loaded(path, document.text()).lines == stripped(document.lines),
{
    lemma_records_of_text(document.lines);
}

/// A successful save leaves lines, caret, viewport and message as they
/// are, and the next prompt for where to save starts with the path that
/// was saved to, the caret after it. A failed save leaves the whole
/// document as it is, path included.
pub proof fn save_records_path(state: EditorState, path: Seq<char>, description: Seq<char>)
    ensures
        ({
            let after = state.saved(path, Ok(()));
            &&& after.document.lines == state.document.lines
            &&& after.document.row == state.document.row
            &&& after.document.col == state.document.col
            &&& after.document.row_offset == state.document.row_offset
            &&& after.document.col_offset == state.document.col_offset
            &&& after.document.path == path
            &&& after.message == state.message
            &&& after.prompt_save().mode == Mode::Prompt(Command::Save, Line::at_end(path))
        }),
        state.saved(path, Err(description)).document == state.document,
        state.saved(path, Err(description)).message == Some(description),
{
}

/// While the document caret is in view, the terminal caret stands exactly
/// where the document caret is shown.
pub proof fn caret_cell_in_view(state: EditorState, screen: Screen)
    requires
        state.mode is Normal,
        state.document.in_view(screen),
    ensures
        caret_cell(state, screen) == (
            state.document.col - state.document.col_offset + 1,
            state.document.row - state.document.row_offset + 1,
        ),
{
}

/// A content row never shows more characters of a line than the screen has
/// columns, and shows the line from the first visible column on.
pub proof fn visible_part_fits(line: Seq<char>, from: int, width: int)
    requires
        0 <= from,
        0 <= width,
    ensures
        visible_part(line, from, width).len() <= width,
        visible_part(line, from, width).len() == if line.len() <= from {
            0
        } else if line.len() - from <= width {
            line.len() - from
        } else {
            width
        },
        forall|i: int|
            0 <= i < visible_part(line, from, width).len() ==> visible_part(line, from, width)[i]
                == line[from + i],
{
}

/// The screen shows as many content rows as it has rows above the status
/// bar.
pub proof fn content_has_one_row_less_than_screen(document: Document, screen: Screen)
    ensures
        content(document, screen).len() == if screen.height >= 1 {
            screen.height - 1
        } else {
            0
        },
{
}

/// On a screen that is wide enough for the label and the place of the
/// caret, the status bar fills the width exactly.
pub proof fn status_bar_fills_width(state: EditorState, screen: Screen)
    requires
        state.wf(),
        screen.width >= state.label().len() + position_label(state.document).len(),
    ensures
        status_bar(state, screen).len() == screen.width,
{
}

/// The caret of a text lies inside the window on it: not before the first
/// shown character and at most `room` columns after it. A window on a
/// longer text ends inside the text.
pub proof fn window_holds_caret(len: int, caret: int, room: int)
    requires
        0 <= caret <= len,
        0 <= room,
    ensures
        0 <= window_start(len, caret, room) <= caret <= window_start(len, caret, room) + room,
        len > room ==> window_start(len, caret, room) + room <= len,
{
}

/// In a prompt the caret of the command text is always inside the part of
/// the text that the status bar shows, and the terminal caret stands on the
/// bar behind the label, at most as many columns further as the bar has
/// room for the text.
pub proof fn prompt_caret_in_window(state: EditorState, screen: Screen)
    requires
        state.wf(),
        state.mode is Prompt,
    ensures
        command_start(state, screen) <= state.command_col() <= command_start(state, screen)
            + command_room(state, screen),
        state.label().len() + 1 <= caret_cell(state, screen).0 <= state.label().len()
            + command_room(state, screen) + 1,
{
}

/// A key that does not move the caret of the document does the same on
/// every screen: the shortcuts, the cancel key, the forward delete, a key
/// without use, and every key while a prompt is open.
pub proof fn step_without_screen(state: EditorState, key: Key, first: Screen, second: Screen)
    requires
        !moves_document_caret(state, key),
    ensures
        state.step(key, first) == state.step(key, second),
{
}

/// The mode changes in these ways only: the shortcuts for the two prompts
/// lead from normal mode into a prompt, the cancel key leads from a prompt
/// back to normal mode, and so does every outcome of a committed command.
/// No key changes what a prompt asks for, and only the quit shortcut in
/// normal mode asks to leave.
pub proof fn mode_transitions(state: EditorState, key: Key, screen: Screen)
    ensures
        state.mode is Normal && state.step(key, screen).mode is Prompt ==> key == Key::Ctrl('o')
            || key == Key::Ctrl('s'),
        state.mode is Prompt && state.step(key, screen).mode is Normal ==> key == Key::Esc,
        state.mode matches Mode::Prompt(before, _) ==> (state.step(key, screen).mode matches Mode::Prompt(
            after,
            _,
        ) ==> before == after),
        state.request(key) is Quit ==> state.mode is Normal && key == Key::Ctrl('q'),
        state.request(key) is Load || state.request(key) is Store ==> state.mode is Prompt && key
            == Key::Char('\n'),
        forall|path: Seq<char>, outcome: Result<Seq<char>, Seq<char>>|
            (#[trigger] state.opened(path, outcome)).mode is Normal,
        forall|path: Seq<char>, outcome: Result<(), Seq<char>>|
            (#[trigger] state.saved(path, outcome)).mode is Normal,
{
}

} // verus!
