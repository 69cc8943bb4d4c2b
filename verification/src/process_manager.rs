use vstd::prelude::*;

verus! {

use crate::errors::SessionError;
use crate::pty::{build_command, open_pty, spawn_in_pty};

/// Rows of the default terminal size given to a fresh PTY.
pub const DEFAULT_ROWS: u16 = 24;

/// Columns of the default terminal size given to a fresh PTY.
pub const DEFAULT_COLS: u16 = 80;

/// The process adapter: spawns one PTY-backed child process per session.
/// Reading from and writing to a live pair go through the borrows the
/// registry hands out.
#[derive(Debug)]
pub struct ProcessManager {}

impl ProcessManager {
    pub fn new() -> ProcessManager {
        ProcessManager {}
    }

    /// Allocate a PTY of the default size and start `executable_path` in
    /// `directory` inside it. Whether the allocation and the start succeed is
    /// the operating system's answer; any failure is reported as a spawn
    /// error and never swallowed.
    pub fn spawn_process(&self, directory: &str, executable_path: &str) -> (r: Result<
        portable_pty::PtyPair,
        SessionError,
    >)
        ensures
            r matches Err(e) ==> e matches SessionError::Spawn(m),
    {
        let pair = match open_pty(DEFAULT_ROWS, DEFAULT_COLS) {
            Ok(p) => p,
            Err(m) => return Err(SessionError::Spawn(m)),
        };
        let cmd = build_command(executable_path, directory);
        match spawn_in_pty(&pair, cmd) {
            Ok(u) => Ok(pair),
            Err(m) => Err(SessionError::Spawn(m)),
        }
    }
}

impl Default for ProcessManager {
    fn default() -> ProcessManager {
        ProcessManager::new()
    }
}

} // verus!
