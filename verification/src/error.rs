//! What can go wrong around the editor.

use vstd::prelude::*;

verus! {

/// A failure reported by the surroundings of the editor.
#[derive(Debug, PartialEq, Eq)]
pub enum Error {
    /// A file could not be opened, read, created or written. Holds the
    /// description of the failure.
    Io(String),
    /// The terminal does not tell its size.
    UnsupportedTerminal,
}

/// What is said of a terminal that does not tell its size.
pub open spec fn unsupported_terminal_text() -> Seq<char> {
    "Unsupported terminal."@
}

impl Error {
    /// The description of the failure, as shown to the user.
    pub open spec fn text(self) -> Seq<char> {
        match self {
            Error::Io(description) => description@,
            Error::UnsupportedTerminal => unsupported_terminal_text(),
        }
    }

    /// The description of the failure, as shown to the user.
    pub fn description(&self) -> (r: String)
        ensures
            r@ == self.text(),
    {
        match self {
            Error::Io(description) => description.clone(),
            Error::UnsupportedTerminal => "Unsupported terminal.".to_string(),
        }
    }
}

} // verus!
