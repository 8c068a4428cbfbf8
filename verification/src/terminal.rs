//! The terminal: its size, the escape sequences that draw a frame on it,
//! and the two steps of the editor's loop that depend on them.

use vstd::prelude::*;
use crate::chars::{decimal, to_str};
use crate::editor::{moves_document_caret, Action, Editor, EditorState, Key};
use crate::laws::step_without_screen;
use crate::error::Error;
use crate::lines::{join_lines, joined};
use crate::render::{picture, render, Frame, Picture};
use crate::screen::Screen;

verus! {

/// `std::io::Error`, the error of a request to the operating system. It is
/// carried through and never looked into.
#[verifier::external_type_specification]
#[verifier::external_body]
pub struct ExIoError(std::io::Error);

/// The sequence that clears the whole screen.
pub open spec fn clear_text() -> Seq<char> {
    seq!['\u{1b}', '[', '2', 'J']
}

/// The sequence that switches to inverted colours.
pub open spec fn invert_text() -> Seq<char> {
    seq!['\u{1b}', '[', '7', 'm']
}

/// The sequence that resets all text attributes.
pub open spec fn reset_text() -> Seq<char> {
    seq!['\u{1b}', '[', 'm']
}

/// The sequence that puts the terminal caret at a one-based column and row:
/// the row comes first, both are written as decimal numerals.
pub open spec fn goto_text(col: int, row: int) -> Seq<char> {
    seq!['\u{1b}', '['] + decimal(row as nat) + seq![';'] + decimal(col as nat) + seq!['H']
}

/// The end of a content row on a terminal in raw mode.
pub open spec fn row_end() -> Seq<char> {
    seq!['\n', '\r']
}

/// The text that draws a picture on the terminal: the screen is cleared,
/// the content rows are written from the top-left cell, the status bar
/// follows in inverted colours, and the caret is put in its place.
pub open spec fn encoded(picture: Picture) -> Seq<char> {
    blank_text() + joined(picture.rows, row_end()) + invert_text() + picture.bar + reset_text()
        + goto_text(picture.caret.0, picture.caret.1)
}

/// The text that leaves the terminal blank, the caret in the top-left cell.
pub open spec fn blank_text() -> Seq<char> {
    clear_text() + goto_text(1, 1)
}

/// Calls `termion::terminal_size`, which asks the terminal on standard
/// output for its size and yields columns and rows, or the error of the
/// request. Nothing is claimed of the outcome.
#[verifier::external_body]
fn terminal_size() -> (r: Result<(u16, u16), std::io::Error>) {
    termion::terminal_size()
}

/// Formats `termion::clear::All`, whose text is the control sequence
/// introducer followed by `2J`.
#[verifier::external_body]
fn clear_all() -> (r: String)
    ensures
        r@ == clear_text(),
{
    format!("{}", termion::clear::All)
}

/// Formats `termion::style::Invert`, whose text is the control sequence
/// introducer followed by `7m`.
#[verifier::external_body]
fn invert() -> (r: String)
    ensures
        r@ == invert_text(),
{
    format!("{}", termion::style::Invert)
}

/// Formats `termion::style::Reset`, whose text is the control sequence
/// introducer followed by `m`.
#[verifier::external_body]
fn reset() -> (r: String)
    ensures
        r@ == reset_text(),
{
    format!("{}", termion::style::Reset)
}

/// Formats `termion::cursor::Goto`, whose text is the control sequence
/// introducer, the row, a semicolon, the column and `H`, with the two
/// numbers as `u16` is displayed. The position with both numbers zero is
/// left out: formatting it fails an assertion in debug builds.
#[verifier::external_body]
fn goto(col: u16, row: u16) -> (r: String)
    requires
        col != 0 || row != 0,
    ensures
        r@ == goto_text(col as int, row as int),
{
    format!("{}", termion::cursor::Goto(col, row))
}

/// The text that leaves the terminal blank, the caret in the top-left cell.
pub fn clear_screen() -> (text: String)
    ensures
        text@ == blank_text(),
{
    let mut text = clear_all();
    text.append(goto(1, 1).as_str());
    text
}

impl Frame {
    /// The text that draws the frame on the terminal.
    pub fn encode(&self) -> (text: String)
        requires
            self.caret.0 != 0 || self.caret.1 != 0,
        ensures
            text@ == encoded(self@),
    {
        proof {
            reveal_strlit("\n\r");
            assert("\n\r"@ =~= row_end());
        }
        let mut text = clear_screen();
        text.append(join_lines(&self.rows, "\n\r").as_str());
        text.append(invert().as_str());
        text.append(to_str(&self.bar).as_str());
        text.append(reset().as_str());
        text.append(goto(self.caret.0, self.caret.1).as_str());
        text
    }
}

/// The size of the terminal: what [`screen_of`] makes of the terminal's
/// answer. Whether the terminal answers is not in the editor's hands.
pub fn screen() -> (r: Result<Screen, Error>)
    ensures
        r matches Err(error) ==> error is UnsupportedTerminal,
{
    screen_of(terminal_size())
}

/// What the answer of a terminal to the request for its size means: columns
/// and rows are the width and height of the screen, and any failure of the
/// request means that the terminal is not supported.
pub open spec fn reading(outcome: Result<(u16, u16), std::io::Error>) -> Result<Screen, Error> {
    match outcome {
        Ok(size) => Ok(Screen { width: size.0, height: size.1 }),
        Err(_) => Err(Error::UnsupportedTerminal),
    }
}

/// The screen that a terminal reports, from its answer to the request for
/// its size.
pub fn screen_of(outcome: Result<(u16, u16), std::io::Error>) -> (r: Result<Screen, Error>)
    ensures
        r == reading(outcome),
{
    match outcome {
        Ok((width, height)) => Ok(Screen::new(width, height)),
        Err(_) => Err(Error::UnsupportedTerminal),
    }
}

/// Draws the editor for the terminal as it is now: the text to write to
/// it. The pending status message is dropped, having been drawn. Fails,
/// and leaves the editor as it is, if the terminal does not tell its size.
pub fn print_screen(editor: &mut Editor) -> (r: Result<String, Error>)
    requires
        old(editor)@.wf(),
    ensures
        match r {
            Ok(text) => {
                &&& exists|screen: Screen| text@ == #[trigger] encoded(picture(old(editor)@, screen))
                &&& final(editor)@ == (EditorState { message: None, ..old(editor)@ })
            },
            Err(error) => error is UnsupportedTerminal && final(editor)@ == old(editor)@,
        },
        final(editor)@.wf(),
{
    match screen() {
        Ok(screen) => {
            let text = render(editor, screen).encode();
            Ok(text)
        },
        Err(error) => Err(error),
    }
}

/// Applies one key to the editor and says what is left for the caller to
/// do. The terminal is asked for its size only where the key moves the
/// caret of the document, which the viewport then follows on the screen as
/// it is now; there the call fails, and leaves the editor as it is, if the
/// terminal does not tell its size. Every other key is always taken.
pub fn handle_keys(editor: &mut Editor, key: Key) -> (r: Result<Action, Error>)
    requires
        old(editor)@.wf(),
    ensures
        match r {
            Ok(action) => {
                &&& exists|screen: Screen| final(editor)@ == #[trigger] old(editor)@.step(key, screen)
                &&& action@ == old(editor)@.request(key)
            },
            Err(error) => error is UnsupportedTerminal && final(editor)@ == old(editor)@,
        },
        !moves_document_caret(old(editor)@, key) ==> {
            &&& r is Ok
            &&& forall|screen: Screen| final(editor)@ == #[trigger] old(editor)@.step(key, screen)
        },
        final(editor)@.wf(),
{
    if editor.moves_document_caret(key) {
        match screen() {
            Ok(screen) => Ok(editor.handle_key(key, screen)),
            Err(error) => Err(error),
        }
    } else {
        let unread = Screen::new(0, 0);
        let action = editor.handle_key(key, unread);
        proof {
            assert forall|screen: Screen| editor@ == #[trigger] old(editor)@.step(key, screen) by {
                step_without_screen(old(editor)@, key, unread, screen);
            }
        }
        Ok(action)
    }
}

} // verus!
