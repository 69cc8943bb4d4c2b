use vstd::prelude::*;

verus! {

use crate::session::SessionInfo;

/// Events sent from client to server on the streaming plane.
#[derive(Debug, Clone, PartialEq)]
pub enum ClientEvent {
    /// Create a new terminal session. Always rejected on this plane:
    /// session management belongs to the control API.
    CreateSession { name: String, directory: String },
    /// Send input to a terminal session.
    SendInput { session_id: String, input: String },
    /// Request a session's buffered scrollback.
    RequestHistory { session_id: String },
    /// Close a session. Always rejected on this plane, like `CreateSession`.
    CloseSession { session_id: String },
}

/// Events sent from server to client on the streaming plane.
#[derive(Debug, Clone, PartialEq)]
pub enum ServerEvent {
    /// A session was created successfully.
    SessionCreated { session_id: String, name: String, directory: String },
    /// The list of all active sessions.
    SessionList { sessions: Vec<SessionInfo> },
    /// Terminal output data for one session.
    TerminalOutput { session_id: String, data: String },
    /// A session was closed, with an optional reason.
    SessionClosed { session_id: String, reason: Option<String> },
    /// An error, delivered without dropping the connection.
    Error { message: String },
}

/// `e` is the terminal-output event of session `id` carrying `data`.
pub open spec fn is_output_event(e: ServerEvent, id: Seq<char>, data: Seq<char>) -> bool {
    e matches ServerEvent::TerminalOutput { session_id, data: d } && session_id@ == id && d@
        == data
}

/// `e` is an error event carrying exactly `msg`.
pub open spec fn is_error_event(e: ServerEvent, msg: Seq<char>) -> bool {
    e matches ServerEvent::Error { message } && message@ == msg
}

} // verus!
