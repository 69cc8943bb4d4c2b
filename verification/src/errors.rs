use vstd::prelude::*;

verus! {

use vstd::string::StringExecFns;

/// Why a session configuration was rejected before any process was spawned.
#[derive(Debug, Clone, Copy, PartialEq, Eq, Structural)]
pub enum ValidationError {
    /// The display name is empty once surrounding whitespace is ignored.
    EmptyName,
    /// The display name has more than the permitted number of characters.
    NameTooLong,
    /// The working directory is empty once surrounding whitespace is ignored.
    EmptyDirectory,
    /// The working directory does not exist on disk.
    MissingDirectory,
    /// The working directory path exists but is not a directory.
    NotADirectory,
}

/// The failure taxonomy of the session core.
///
/// Validation, policy and capacity failures happen before a process is
/// spawned; `Spawn` reports a PTY or process start failure; `NotFound` is the
/// answer for an unknown session id; `Read` and `Write` report PTY I/O
/// failures on a session that exists; `Backpressure` reports a full control
/// queue; `Internal` is the dispatcher's catch-all.
#[derive(Debug)]
pub enum SessionError {
    Validation(ValidationError),
    Policy,
    Capacity,
    Spawn(String),
    NotFound,
    Read(String),
    Write(String),
    Backpressure,
    Internal,
}

impl SessionError {
    /// A human-readable description of the failure.
    pub fn message(&self) -> (m: String)
        ensures
            self matches SessionError::Validation(ValidationError::EmptyName) ==> m@
                == "Session name cannot be empty"@,
            self matches SessionError::Validation(ValidationError::NameTooLong) ==> m@
                == "Session name too long (max 100 characters)"@,
            self matches SessionError::Validation(ValidationError::EmptyDirectory) ==> m@
                == "Directory cannot be empty"@,
            self matches SessionError::Validation(ValidationError::MissingDirectory) ==> m@
                == "Directory does not exist"@,
            self matches SessionError::Validation(ValidationError::NotADirectory) ==> m@
                == "Path is not a directory"@,
            self matches SessionError::Policy ==> m@ == "Directory not allowed"@,
            self matches SessionError::Capacity ==> m@ == "Maximum session limit reached"@,
            self matches SessionError::Spawn(d) ==> m@ == "Failed to spawn process: "@ + d@,
            self matches SessionError::NotFound ==> m@ == "Session not found"@,
            self matches SessionError::Read(d) ==> m@ == "Read error: "@ + d@,
            self matches SessionError::Write(d) ==> m@ == "Write error: "@ + d@,
            self matches SessionError::Backpressure ==> m@ == "Control queue is full"@,
            self matches SessionError::Internal ==> m@ == "Internal error"@,
    {
        match self {
            SessionError::Validation(ValidationError::EmptyName) => String::from_str(
                "Session name cannot be empty",
            ),
            SessionError::Validation(ValidationError::NameTooLong) => String::from_str(
                "Session name too long (max 100 characters)",
            ),
            SessionError::Validation(ValidationError::EmptyDirectory) => String::from_str(
                "Directory cannot be empty",
            ),
            SessionError::Validation(ValidationError::MissingDirectory) => String::from_str(
                "Directory does not exist",
            ),
            SessionError::Validation(ValidationError::NotADirectory) => String::from_str(
                "Path is not a directory",
            ),
            SessionError::Policy => String::from_str("Directory not allowed"),
            SessionError::Capacity => String::from_str("Maximum session limit reached"),
            SessionError::Spawn(d) => {
                let mut m = String::from_str("Failed to spawn process: ");
                m.append(d.as_str());
                m
            },
            SessionError::NotFound => String::from_str("Session not found"),
            SessionError::Read(d) => {
                let mut m = String::from_str("Read error: ");
                m.append(d.as_str());
                m
            },
            SessionError::Write(d) => {
                let mut m = String::from_str("Write error: ");
                m.append(d.as_str());
                m
            },
            SessionError::Backpressure => String::from_str("Control queue is full"),
            SessionError::Internal => String::from_str("Internal error"),
        }
    }
}

} // verus!
