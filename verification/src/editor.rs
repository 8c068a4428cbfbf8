//! The editor: a document, the mode it is in and a pending status message.

use vstd::prelude::*;
use crate::buffer::Buffer;
use crate::chars::{to_str, to_vec};
use crate::error::Error;
use crate::file_buffer::{Document, FileBuffer};
use crate::laws::keys_keep_editor_valid;
use crate::line_buffer::{Line, LineBuffer};
use crate::screen::Screen;

verus! {

/// What a command prompt asks a path for.
#[derive(Clone, Copy, Debug, PartialEq, Eq)]
pub enum Command {
    /// The file to load into the editor.
    Open,
    /// The file to store the document in.
    Save,
}

/// The mode of the editor.
pub enum State {
    /// Normal editing: keys go to the document.
    Femto,
    /// A command prompt, which owns the line being typed into it.
    Cmd((Command, LineBuffer)),
}

/// The mode of an editor with the prompt line as a value.
pub enum Mode {
    Normal,
    Prompt(Command, Line),
}

impl View for State {
    type V = Mode;

    open spec fn view(&self) -> Mode {
        match self {
            State::Femto => Mode::Normal,
            State::Cmd((command, buffer)) => Mode::Prompt(*command, buffer@),
        }
    }
}

/// A logical key event.
#[derive(Clone, Copy, Debug, PartialEq, Eq)]
pub enum Key {
    /// A typed character; the enter key types a line feed.
    Char(char),
    /// A character typed with the control key held: `q` quits, `o` asks
    /// for a file to open, `s` asks where to save.
    Ctrl(char),
    Backspace,
    Delete,
    /// Cancels a prompt.
    Esc,
    Left,
    Right,
    Up,
    Down,
    /// Moves the caret to the start of its line.
    Home,
    /// Moves the caret to the end of its line.
    End,
    /// Any key that the editor has no use for.
    Other,
}

/// What is left for the caller to do after the editor has taken a key.
#[derive(Debug, PartialEq, Eq)]
pub enum Action {
    /// Nothing; wait for the next key.
    Continue,
    /// Read the file at this path and hand the outcome to [`Editor::open`].
    Load(String),
    /// Write the text (second) to the file at this path (first) and hand
    /// the outcome to [`Editor::save`].
    Store(String, String),
    /// Leave the editor.
    Quit,
}

/// An [`Action`] with its strings as values.
pub enum Request {
    Continue,
    Load(Seq<char>),
    Store(Seq<char>, Seq<char>),
    Quit,
}

impl View for Action {
    type V = Request;

    open spec fn view(&self) -> Request {
        match self {
            Action::Continue => Request::Continue,
            Action::Load(path) => Request::Load(path@),
            Action::Store(path, text) => Request::Store(path@, text@),
            Action::Quit => Request::Quit,
        }
    }
}

/// The column delta that moves the caret to the start of any line.
pub const TO_LINE_START: i32 = -1073741824;

/// The column delta that moves the caret to the end of a line.
pub const TO_LINE_END: i32 = 1073741823;

/// The label of the status bar while nothing is pending.
pub open spec fn idle_label() -> Seq<char> {
    "femto"@
}

/// The label of the prompt that asks for a file to open.
pub open spec fn open_label() -> Seq<char> {
    "Open file at: "@
}

/// The label of the prompt that asks where to save.
pub open spec fn save_label() -> Seq<char> {
    "Save file at: "@
}

/// The lengths of the labels of the status bar.
pub proof fn lemma_label_lengths()
    ensures
        idle_label().len() == 5,
        open_label().len() == 14,
        save_label().len() == 14,
{
    reveal_strlit("femto");
    reveal_strlit("Open file at: ");
    reveal_strlit("Save file at: ");
}

/// Whether a key moves the caret of the document. Only then does the
/// screen matter to the editor: the viewport follows the caret.
pub open spec fn moves_document_caret(state: EditorState, key: Key) -> bool {
    state.mode is Normal && (key is Char || key is Backspace || key is Left || key is Right
        || key is Up || key is Down || key is Home || key is End)
}

/// The state of an editor as a value.
pub struct EditorState {
    pub document: Document,
    pub mode: Mode,
    pub message: Option<Seq<char>>,
}

impl EditorState {
    /// The document is well formed, and so is the prompt line if there is one.
    pub open spec fn wf(self) -> bool {
        &&& self.document.wf()
        &&& self.mode matches Mode::Prompt(_, line) ==> line.wf()
    }

    /// An editor on an empty document, in normal mode, with no message.
    pub open spec fn initial() -> EditorState {
        EditorState { document: Document::empty(), mode: Mode::Normal, message: None }
    }

    /// The state after the character `c` was typed. In normal mode it goes
    /// into the document. In a prompt a line feed commits the command and
    /// leaves the state as it is until the outcome is known; any other
    /// character goes into the prompt line.
    pub open spec fn typed(self, c: char, screen: Screen) -> EditorState {
        match self.mode {
            Mode::Normal => EditorState { document: self.document.insert(c, screen), ..self },
            Mode::Prompt(command, line) => EditorState {
                mode: Mode::Prompt(command, line.insert(c)),
                ..self
            },
        }
    }

    /// What typing `c` asks of the caller: a line feed in a prompt commits
    /// the line as the path of the file to load, or to store the document in.
    pub open spec fn typing_request(self, c: char) -> Request {
        match self.mode {
            Mode::Prompt(Command::Open, line) if c == '\n' => Request::Load(line.text),
            Mode::Prompt(Command::Save, line) if c == '\n' => Request::Store(
                line.text,
                self.document.text(),
            ),
            _ => Request::Continue,
        }
    }

    /// The state after a backspace in the active buffer.
    pub open spec fn backspace(self, screen: Screen) -> EditorState {
        match self.mode {
            Mode::Normal => EditorState { document: self.document.backspace(screen), ..self },
            Mode::Prompt(command, line) => EditorState {
                mode: Mode::Prompt(command, line.backspace()),
                ..self
            },
        }
    }

    /// The state after a forward delete in the active buffer.
    pub open spec fn delete(self) -> EditorState {
        match self.mode {
            Mode::Normal => EditorState { document: self.document.delete(), ..self },
            Mode::Prompt(command, line) => EditorState {
                mode: Mode::Prompt(command, line.delete()),
                ..self
            },
        }
    }

    /// The state after a caret motion in the active buffer. The prompt line
    /// has no rows.
    pub open spec fn moved(self, row_delta: int, col_delta: int, screen: Screen) -> EditorState {
        match self.mode {
            Mode::Normal => EditorState {
                document: self.document.moved(row_delta, col_delta, screen),
                ..self
            },
            Mode::Prompt(command, line) => EditorState {
                mode: Mode::Prompt(command, line.moved(col_delta)),
                ..self
            },
        }
    }

    /// The state in a fresh prompt for a file to open.
    pub open spec fn prompt_open(self) -> EditorState {
        EditorState { mode: Mode::Prompt(Command::Open, Line::empty()), ..self }
    }

    /// The state in a prompt for where to save, which starts with the path
    /// of the document and the caret after it.
    pub open spec fn prompt_save(self) -> EditorState {
        EditorState { mode: Mode::Prompt(Command::Save, Line::at_end(self.document.path)), ..self }
    }

    /// The state back in normal mode.
    pub open spec fn cancelled(self) -> EditorState {
        EditorState { mode: Mode::Normal, ..self }
    }

    /// The state back in normal mode with `message` pending.
    pub open spec fn notified(self, message: Seq<char>) -> EditorState {
        EditorState { mode: Mode::Normal, message: Some(message), ..self }
    }

    /// The state after the file at `path` was read with the given outcome:
    /// its text, or the description of the failure.
    pub open spec fn opened(self, path: Seq<char>, outcome: Result<Seq<char>, Seq<char>>) -> EditorState {
        match outcome {
            Ok(text) => EditorState {
                document: Document::loaded(path, text),
                mode: Mode::Normal,
                ..self
            },
            Err(description) => self.notified(description),
        }
    }

    /// The state after the document was written to the file at `path` with
    /// the given outcome: nothing, or the description of the failure. After
    /// a success the document is known under that path; it is not changed
    /// otherwise.
    pub open spec fn saved(self, path: Seq<char>, outcome: Result<(), Seq<char>>) -> EditorState {
        match outcome {
            Ok(_) => EditorState {
                document: self.document.saved_to(path),
                mode: Mode::Normal,
                ..self
            },
            Err(description) => self.notified(description),
        }
    }

    /// The state after a key. The shortcuts to quit and to start a prompt
    /// act in normal mode only.
    pub open spec fn step(self, key: Key, screen: Screen) -> EditorState {
        match key {
            Key::Char(c) => self.typed(c, screen),
            Key::Ctrl(c) => if self.mode is Normal && c == 'o' {
                self.prompt_open()
            } else if self.mode is Normal && c == 's' {
                self.prompt_save()
            } else {
                self
            },
            Key::Backspace => self.backspace(screen),
            Key::Delete => self.delete(),
            Key::Esc => self.cancelled(),
            Key::Left => self.moved(0, -1, screen),
            Key::Right => self.moved(0, 1, screen),
            Key::Up => self.moved(-1, 0, screen),
            Key::Down => self.moved(1, 0, screen),
            Key::Home => self.moved(0, TO_LINE_START as int, screen),
            Key::End => self.moved(0, TO_LINE_END as int, screen),
            Key::Other => self,
        }
    }

    /// What a key asks of the caller.
    pub open spec fn request(self, key: Key) -> Request {
        match key {
            Key::Char(c) => self.typing_request(c),
            Key::Ctrl(c) => if self.mode is Normal && c == 'q' {
                Request::Quit
            } else {
                Request::Continue
            },
            _ => Request::Continue,
        }
    }

    /// The label at the left of the status bar.
    pub open spec fn label(self) -> Seq<char> {
        match self.mode {
            Mode::Normal => if self.message is Some {
                Seq::empty()
            } else {
                idle_label()
            },
            Mode::Prompt(Command::Open, _) => open_label(),
            Mode::Prompt(Command::Save, _) => save_label(),
        }
    }

    /// The text after the label: the pending message in normal mode, the
    /// line being typed in a prompt.
    pub open spec fn command_text(self) -> Seq<char> {
        match self.mode {
            Mode::Normal => match self.message {
                Some(message) => message,
                None => Seq::empty(),
            },
            Mode::Prompt(_, line) => line.text,
        }
    }

    /// The caret column inside the text after the label.
    pub open spec fn command_col(self) -> int {
        match self.mode {
            Mode::Normal => 0,
            Mode::Prompt(_, line) => line.col,
        }
    }
}

/// The buffer that takes the editing keys: the document in normal mode, the
/// prompt line in a command prompt. It borrows that buffer from the editor
/// and edits it in place.
pub enum ActiveBuffer<'a> {
    Document(&'a mut FileBuffer),
    Prompt(&'a mut LineBuffer),
}

impl<'a> Buffer for ActiveBuffer<'a> {
    open spec fn valid(&self) -> bool {
        match self {
            ActiveBuffer::Document(buffer) => buffer.valid(),
            ActiveBuffer::Prompt(buffer) => buffer.valid(),
        }
    }

    open spec fn line_at_caret(&self) -> Seq<char> {
        match self {
            ActiveBuffer::Document(buffer) => buffer.line_at_caret(),
            ActiveBuffer::Prompt(buffer) => buffer.line_at_caret(),
        }
    }

    open spec fn caret_col(&self) -> int {
        match self {
            ActiveBuffer::Document(buffer) => buffer.caret_col(),
            ActiveBuffer::Prompt(buffer) => buffer.caret_col(),
        }
    }

    proof fn lemma_caret_in_line(&self) {
    }

    /// Inserts `c` at the caret of the borrowed buffer.
    fn push(&mut self, c: char, screen: Screen)
        ensures
            match (*old(self), *final(self)) {
                (ActiveBuffer::Document(before), ActiveBuffer::Document(after)) => {
                    &&& after@ == before@.insert(c, screen)
                    &&& *final(after) == *final(before)
                },
                (ActiveBuffer::Prompt(before), ActiveBuffer::Prompt(after)) => {
                    &&& after@ == before@.insert(c)
                    &&& *final(after) == *final(before)
                },
                _ => false,
            },
    {
        match self {
            ActiveBuffer::Document(buffer) => buffer.push(c, screen),
            ActiveBuffer::Prompt(buffer) => buffer.push(c, screen),
        }
    }

    /// Removes what stands before the caret of the borrowed buffer.
    fn backspace(&mut self, screen: Screen)
        ensures
            match (*old(self), *final(self)) {
                (ActiveBuffer::Document(before), ActiveBuffer::Document(after)) => {
                    &&& after@ == before@.backspace(screen)
                    &&& *final(after) == *final(before)
                },
                (ActiveBuffer::Prompt(before), ActiveBuffer::Prompt(after)) => {
                    &&& after@ == before@.backspace()
                    &&& *final(after) == *final(before)
                },
                _ => false,
            },
    {
        match self {
            ActiveBuffer::Document(buffer) => buffer.backspace(screen),
            ActiveBuffer::Prompt(buffer) => buffer.backspace(screen),
        }
    }

    /// Removes what stands at the caret of the borrowed buffer.
    fn delete(&mut self)
        ensures
            match (*old(self), *final(self)) {
                (ActiveBuffer::Document(before), ActiveBuffer::Document(after)) => {
                    &&& after@ == before@.delete()
                    &&& *final(after) == *final(before)
                },
                (ActiveBuffer::Prompt(before), ActiveBuffer::Prompt(after)) => {
                    &&& after@ == before@.delete()
                    &&& *final(after) == *final(before)
                },
                _ => false,
            },
    {
        match self {
            ActiveBuffer::Document(buffer) => buffer.delete(),
            ActiveBuffer::Prompt(buffer) => buffer.delete(),
        }
    }

    /// Moves the caret of the borrowed buffer.
    fn move_caret(&mut self, row: i32, col: i32, screen: Screen)
        ensures
            match (*old(self), *final(self)) {
                (ActiveBuffer::Document(before), ActiveBuffer::Document(after)) => {
                    &&& after@ == before@.moved(row as int, col as int, screen)
                    &&& *final(after) == *final(before)
                },
                (ActiveBuffer::Prompt(before), ActiveBuffer::Prompt(after)) => {
                    &&& after@ == before@.moved(col as int)
                    &&& *final(after) == *final(before)
                },
                _ => false,
            },
    {
        match self {
            ActiveBuffer::Document(buffer) => buffer.move_caret(row, col, screen),
            ActiveBuffer::Prompt(buffer) => buffer.move_caret(row, col, screen),
        }
    }
}

/// The editor.
pub struct Editor {
    file_buffer: FileBuffer,
    state: State,
    message: Option<String>,
}

impl View for Editor {
    type V = EditorState;

    closed spec fn view(&self) -> EditorState {
        EditorState {
            document: self.file_buffer@,
            mode: self.state@,
            message: match self.message {
                Some(message) => Some(message@),
                None => None,
            },
        }
    }
}

impl Editor {
    /// An editor on an empty document.
    pub fn new() -> (r: Self)
        ensures
            r@ == EditorState::initial(),
            r@.wf(),
    {
        Self { file_buffer: FileBuffer::new(), state: State::Femto, message: None }
    }

    /// The document.
    pub fn file_buffer(&self) -> (r: &FileBuffer)
        ensures
            r@ == self@.document,
    {
        &self.file_buffer
    }

    /// The mode.
    pub fn state(&self) -> (r: &State)
        ensures
            r@ == self@.mode,
    {
        &self.state
    }

    /// The pending status message.
    pub fn message(&self) -> (r: &Option<String>)
        ensures
            match *r {
                Some(message) => self@.message == Some(message@),
                None => self@.message is None,
            },
    {
        &self.message
    }

    /// The buffer that takes the editing keys in the current mode.
    pub fn buffer(&mut self) -> (active: ActiveBuffer<'_>)
        ensures
            match old(self)@.mode {
                Mode::Normal => {
                    &&& active matches ActiveBuffer::Document(buffer)
                    &&& buffer@ == old(self)@.document
                    &&& final(self)@ == (EditorState { document: final(buffer)@, ..old(self)@ })
                },
                Mode::Prompt(command, line) => {
                    &&& active matches ActiveBuffer::Prompt(buffer)
                    &&& buffer@ == line
                    &&& final(self)@ == (EditorState {
                        mode: Mode::Prompt(command, final(buffer)@),
                        ..old(self)@
                    })
                },
            },
    {
        match &mut self.state {
            State::Femto => ActiveBuffer::Document(&mut self.file_buffer),
            State::Cmd((_, buffer)) => ActiveBuffer::Prompt(buffer),
        }
    }

    /// Takes a typed character. In a prompt a line feed commits the line:
    /// the result says what is to be read or written, and the editor stays
    /// in the prompt until [`Editor::open`] or [`Editor::save`] is told the
    /// outcome.
    pub fn push(&mut self, c: char, screen: Screen) -> (action: Action)
        requires
            old(self)@.wf(),
        ensures
            final(self)@ == old(self)@.typed(c, screen),
            action@ == old(self)@.typing_request(c),
            final(self)@.wf(),
    {
        proof {
            keys_keep_editor_valid(old(self)@, Key::Char(c), screen);
        }
        if c == '\n' {
            match &self.state {
                State::Femto => {
                    self.buffer().push(c, screen);
                    Action::Continue
                },
                State::Cmd((command, buffer)) => {
                    let path = to_str(buffer.line());
                    match command {
                        Command::Open => Action::Load(path),
                        Command::Save => Action::Store(path, self.file_buffer.save()),
                    }
                },
            }
        } else {
            self.buffer().push(c, screen);
            Action::Continue
        }
    }

    /// Enters the prompt for a file to open.
    pub fn start_open(&mut self)
        ensures
            final(self)@ == old(self)@.prompt_open(),
            old(self)@.wf() ==> final(self)@.wf(),
    {
        self.state = State::Cmd((Command::Open, LineBuffer::default()));
    }

    /// Takes the outcome of reading the file at `path`: on success the
    /// document is replaced by the file's, on failure the description of the
    /// failure becomes the status message. Either way the editor is in
    /// normal mode afterwards.
    pub fn open(&mut self, path: String, outcome: Result<String, Error>)
        ensures
            final(self)@ == old(self)@.opened(
                path@,
                match outcome {
                    Ok(text) => Ok(text@),
                    Err(error) => Err(error.text()),
                },
            ),
            old(self)@.wf() ==> final(self)@.wf(),
    {
        match outcome {
            Ok(text) => {
                self.file_buffer.load(path, text.as_str());
                self.exit_command();
            },
            Err(error) => self.show_message(error.description()),
        }
    }

    /// Enters the prompt for where to save, filled with the document's path.
    pub fn start_save(&mut self)
        ensures
            final(self)@ == old(self)@.prompt_save(),
            old(self)@.wf() ==> final(self)@.wf(),
    {
        let buffer = LineBuffer::filled(to_vec(self.file_buffer.path().as_str()));
        self.state = State::Cmd((Command::Save, buffer));
    }

    /// Takes the outcome of writing the document to the file at `path`: on
    /// success the path becomes the document's, on failure the description
    /// of the failure becomes the status message. Either way the editor is
    /// in normal mode afterwards.
    pub fn save(&mut self, path: String, outcome: Result<(), Error>)
        ensures
            final(self)@ == old(self)@.saved(
                path@,
                match outcome {
                    Ok(_) => Ok(()),
                    Err(error) => Err(error.text()),
                },
            ),
            old(self)@.wf() ==> final(self)@.wf(),
    {
        match outcome {
            Ok(_) => {
                self.file_buffer.saved_to(path);
                self.exit_command();
            },
            Err(error) => self.show_message(error.description()),
        }
    }

    /// Label, text and caret column of the status bar.
    pub fn prompt(&self) -> (r: (&'static str, String, usize))
        ensures
            r.0@ == self@.label(),
            r.1@ == self@.command_text(),
            r.2 == self@.command_col(),
    {
        proof {
            reveal_strlit("");
        }
        match &self.state {
            State::Femto => match &self.message {
                Some(message) => ("", message.clone(), 0),
                None => ("femto", String::new(), 0),
            },
            State::Cmd((state, buf)) => match state {
                Command::Open => ("Open file at: ", to_str(buf.line()), buf.col()),
                Command::Save => ("Save file at: ", to_str(buf.line()), buf.col()),
            },
        }
    }

    /// Leaves a prompt and makes `message` the pending status message.
    pub fn show_message(&mut self, message: String)
        ensures
            final(self)@ == old(self)@.notified(message@),
            old(self)@.wf() ==> final(self)@.wf(),
    {
        self.exit_command();
        self.message = Some(message);
    }

    /// Returns to normal mode.
    pub fn exit_command(&mut self)
        ensures
            final(self)@ == old(self)@.cancelled(),
            old(self)@.wf() ==> final(self)@.wf(),
    {
        self.state = State::Femto;
    }

    /// Drops the pending status message.
    pub fn clear_message(&mut self)
        ensures
            final(self)@ == (EditorState { message: None, ..old(self)@ }),
            old(self)@.wf() ==> final(self)@.wf(),
    {
        self.message = None;
    }

    /// Whether `key` moves the caret of the document in the current mode.
    pub fn moves_document_caret(&self, key: Key) -> (r: bool)
        ensures
            r == moves_document_caret(self@, key),
    {
        match &self.state {
            State::Femto => match key {
                Key::Char(_) | Key::Backspace | Key::Left | Key::Right | Key::Up | Key::Down
                | Key::Home | Key::End => true,
                Key::Ctrl(_) | Key::Delete | Key::Esc | Key::Other => false,
            },
            State::Cmd(_) => false,
        }
    }

    /// Applies one key to the editor and says what is left for the caller
    /// to do.
    pub fn handle_key(&mut self, key: Key, screen: Screen) -> (action: Action)
        requires
            old(self)@.wf(),
        ensures
            final(self)@ == old(self)@.step(key, screen),
            action@ == old(self)@.request(key),
            final(self)@.wf(),
    {
        proof {
            keys_keep_editor_valid(old(self)@, key, screen);
        }
        match key {
            Key::Char(c) => self.push(c, screen),
            Key::Ctrl(c) => {
                let normal = match &self.state {
                    State::Femto => true,
                    State::Cmd(_) => false,
                };
                if normal && c == 'q' {
                    Action::Quit
                } else {
                    if normal && c == 'o' {
                        self.start_open();
                    } else if normal && c == 's' {
                        self.start_save();
                    }
                    Action::Continue
                }
            },
            Key::Backspace => {
                self.buffer().backspace(screen);
                Action::Continue
            },
            Key::Delete => {
                self.buffer().delete();
                Action::Continue
            },
            Key::Esc => {
                self.exit_command();
                Action::Continue
            },
            Key::Left => {
                self.buffer().move_caret(0, -1, screen);
                Action::Continue
            },
            Key::Right => {
                self.buffer().move_caret(0, 1, screen);
                Action::Continue
            },
            Key::Up => {
                self.buffer().move_caret(-1, 0, screen);
                Action::Continue
            },
            Key::Down => {
                self.buffer().move_caret(1, 0, screen);
                Action::Continue
            },
            Key::Home => {
                self.buffer().move_caret(0, TO_LINE_START, screen);
                Action::Continue
            },
            Key::End => {
                self.buffer().move_caret(0, TO_LINE_END, screen);
                Action::Continue
            },
            Key::Other => Action::Continue,
        }
    }
}

} // verus!
