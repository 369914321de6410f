use vstd::prelude::*;

verus! {

/// What can go wrong in a session.
#[derive(Clone, Copy, Debug, PartialEq, Eq, Structural)]
pub enum Error {
    /// The store file could not be opened or read, or its text is not a list
    /// of task records. A blank file is no such error: it is the empty list.
    StoreRead,
    /// The store file could not be written.
    StoreWrite,
    /// A lifecycle token or index names none of the four states.
    InvalidState,
    /// The input device or the event channel failed.
    EventSource,
    /// The terminal could not be put into, or taken out of, raw mode.
    TerminalSession,
}

impl Error {
    /// A short description, for the program's last message.
    pub open spec fn message(self) -> Seq<char> {
        match self {
            Error::StoreRead => "error reading the task store"@,
            Error::StoreWrite => "error writing the task store"@,
            Error::InvalidState => "input was not a valid TaskState"@,
            Error::EventSource => "the event source failed"@,
            Error::TerminalSession => "the terminal session failed"@,
        }
    }

    pub fn to_string(&self) -> (text: String)
        ensures
            text@ == self.message(),
    {
        let text: &str = match self {
            Error::StoreRead => "error reading the task store",
            Error::StoreWrite => "error writing the task store",
            Error::InvalidState => "input was not a valid TaskState",
            Error::EventSource => "the event source failed",
            Error::TerminalSession => "the terminal session failed",
        };
        text.to_owned()
    }
}

} // verus!
