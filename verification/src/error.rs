//! Error taxonomy of the session multiplexer.

use vstd::prelude::*;

verus! {

/// Everything a registry or process operation can fail with.
#[derive(Debug, PartialEq, Eq)]
pub enum TerminalError {
    /// Pseudo-terminal allocation or process spawn failed.
    Pty(String),
    /// No live session has this id.
    SessionNotFound(u64),
    /// No live session has this name.
    SessionNameNotFound(String),
    /// Reading from or writing to an existing process failed.
    Io(String),
    /// A live session already holds this name.
    SessionExists(String),
    /// The configured session capacity is reached.
    MaxSessions,
    /// Waiting for output ran out of time.
    Timeout,
}

/// The text of each error, as `message` renders it.
pub open spec fn message_spec(e: &TerminalError) -> Seq<char> {
    match e {
        TerminalError::Pty(s) => "PTY error: "@ + s@,
        TerminalError::SessionNotFound(_) => "Session not found"@,
        TerminalError::SessionNameNotFound(s) => "Session name not found: "@ + s@,
        TerminalError::Io(s) => "IO error: "@ + s@,
        TerminalError::SessionExists(s) => "Session already exists: "@ + s@,
        TerminalError::MaxSessions => "Max sessions reached"@,
        TerminalError::Timeout => "Timeout waiting for output"@,
    }
}

impl TerminalError {
    /// Human-readable description of the failure.
    pub fn message(&self) -> (r: String)
        ensures
            r@ == message_spec(self),
    {
        match self {
            TerminalError::Pty(s) => String::from_str("PTY error: ").concat(s.as_str()),
            TerminalError::SessionNotFound(_) => String::from_str("Session not found"),
            TerminalError::SessionNameNotFound(s) => String::from_str(
                "Session name not found: ",
            ).concat(s.as_str()),
            TerminalError::Io(s) => String::from_str("IO error: ").concat(s.as_str()),
            TerminalError::SessionExists(s) => String::from_str(
                "Session already exists: ",
            ).concat(s.as_str()),
            TerminalError::MaxSessions => String::from_str("Max sessions reached"),
            TerminalError::Timeout => String::from_str("Timeout waiting for output"),
        }
    }
}

impl Clone for TerminalError {
    fn clone(&self) -> (r: Self)
        ensures
            r == *self,
    {
        match self {
            TerminalError::Pty(s) => TerminalError::Pty(s.clone()),
            TerminalError::SessionNotFound(id) => TerminalError::SessionNotFound(*id),
            TerminalError::SessionNameNotFound(s) => TerminalError::SessionNameNotFound(s.clone()),
            TerminalError::Io(s) => TerminalError::Io(s.clone()),
            TerminalError::SessionExists(s) => TerminalError::SessionExists(s.clone()),
            TerminalError::MaxSessions => TerminalError::MaxSessions,
            TerminalError::Timeout => TerminalError::Timeout,
        }
    }
}

} // verus!
