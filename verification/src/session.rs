use vstd::prelude::*;

verus! {

use vstd::string::StrSliceExecFns;
use vstd::string::StringExecFns;
use crate::errors::{SessionError, ValidationError};
use crate::pty::{now_rfc3339, path_exists, path_is_dir};
use crate::text::is_blank;

/// Full per-session state held by the registry: identity and metadata, the
/// scrollback buffer, and — while the session is running — the PTY pair that
/// owns the child process.
pub struct Session {
    pub id: String,
    pub name: String,
    pub directory: String,
    pub created_at: String,
    pub pty_pair: Option<portable_pty::PtyPair>,
    pub output_buffer: Vec<String>,
}

/// The shareable projection of a session: identity and metadata only, no
/// process handle.
#[derive(Debug)]
pub struct SessionMetadata {
    pub id: String,
    pub name: String,
    pub directory: String,
    pub created_at: String,
}

/// Lightweight session information sent to clients; the creation time is an
/// RFC 3339 timestamp.
#[derive(Debug, Clone, PartialEq, Eq)]
pub struct SessionInfo {
    pub id: String,
    pub name: String,
    pub directory: String,
    pub created_at: String,
}

/// Configuration for creating new sessions: the display name and the working
/// directory the process starts in.
#[derive(Debug, Clone, PartialEq, Eq)]
pub struct SessionConfig {
    pub name: String,
    pub directory: String,
}

/// Character-count bound on a session's display name.
pub open spec fn max_name_len() -> nat {
    100
}

/// The shape checks on a session configuration that need no file system: the
/// name is non-blank and within the length bound, and the directory is
/// non-blank.
pub open spec fn valid_shape(c: SessionConfig) -> bool {
    &&& !is_blank(c.name@)
    &&& c.name@.len() <= max_name_len()
    &&& !is_blank(c.directory@)
}

impl Session {
    /// A fresh session: no process handle yet, an empty scrollback buffer,
    /// and the creation time captured once, now.
    pub fn new(id: String, name: String, directory: String) -> (s: Session)
        ensures
            s.id@ == id@,
            s.name@ == name@,
            s.directory@ == directory@,
            s.pty_pair is None,
            s.output_buffer@.len() == 0,
    {
        Session {
            id,
            name,
            directory,
            created_at: now_rfc3339(),
            pty_pair: None,
            output_buffer: Vec::new(),
        }
    }

    /// The client-facing projection of this session.
    pub fn to_info(&self) -> (info: SessionInfo)
        ensures
            info.id@ == self.id@,
            info.name@ == self.name@,
            info.directory@ == self.directory@,
            info.created_at@ == self.created_at@,
    {
        SessionInfo {
            id: self.id.clone(),
            name: self.name.clone(),
            directory: self.directory.clone(),
            created_at: self.created_at.clone(),
        }
    }

    /// The shareable metadata projection of this session.
    pub fn metadata(&self) -> (m: SessionMetadata)
        ensures
            m.id@ == self.id@,
            m.name@ == self.name@,
            m.directory@ == self.directory@,
            m.created_at@ == self.created_at@,
    {
        SessionMetadata {
            id: self.id.clone(),
            name: self.name.clone(),
            directory: self.directory.clone(),
            created_at: self.created_at.clone(),
        }
    }

    /// Append one chunk to the scrollback buffer; nothing else changes.
    pub fn add_output(&mut self, output: String)
        ensures
            final(self).output_buffer@ == old(self).output_buffer@.push(output),
            final(self).id == old(self).id,
            final(self).name == old(self).name,
            final(self).directory == old(self).directory,
            final(self).created_at == old(self).created_at,
            final(self).pty_pair == old(self).pty_pair,
    {
        self.output_buffer.push(output);
    }

    /// A full copy of the scrollback buffer as of this call.
    pub fn get_all_output(&self) -> (out: Vec<String>)
        ensures
            out.deep_view() == self.output_buffer.deep_view(),
    {
        let n = self.output_buffer.len();
        let mut out: Vec<String> = Vec::new();
        let mut i: usize = 0;
        while i < n
            invariant
                i <= n,
                n == self.output_buffer@.len(),
                out@.len() == i,
                forall|j: int| 0 <= j < i ==> out@[j]@ == self.output_buffer@[j]@,
            decreases n - i,
        {
            out.push(self.output_buffer[i].clone());
            i = i + 1;
        }
        proof {
            assert(out.deep_view() =~= self.output_buffer.deep_view());
        }
        out
    }
}

impl SessionMetadata {
    /// An independent copy, field by field.
    pub fn duplicate(&self) -> (m: SessionMetadata)
        ensures
            m.id@ == self.id@,
            m.name@ == self.name@,
            m.directory@ == self.directory@,
            m.created_at@ == self.created_at@,
    {
        SessionMetadata {
            id: self.id.clone(),
            name: self.name.clone(),
            directory: self.directory.clone(),
            created_at: self.created_at.clone(),
        }
    }
}

impl SessionConfig {
    /// Check a configuration before a session is built from it. The shape
    /// checks (blank or over-long fields) are decided here exactly, in the
    /// order given; whether the directory exists and is a directory is the
    /// file system's answer at the time of the call, so success is never
    /// promised, but any `Ok` means the shape was valid.
    pub fn validate(&self) -> (r: Result<(), SessionError>)
        ensures
            is_blank(self.name@) <==> r matches Err(SessionError::Validation(
                ValidationError::EmptyName,
            )),
            !is_blank(self.name@) && self.name@.len() > max_name_len() <==> r matches Err(
                SessionError::Validation(ValidationError::NameTooLong),
            ),
            !is_blank(self.name@) && self.name@.len() <= max_name_len() && is_blank(
                self.directory@,
            ) <==> r matches Err(SessionError::Validation(ValidationError::EmptyDirectory)),
            r matches Ok(u) ==> valid_shape(*self),
            r matches Err(e) ==> e matches SessionError::Validation(f),
            valid_shape(*self) ==> (r matches Ok(u) || r matches Err(SessionError::Validation(
                ValidationError::MissingDirectory,
            )) || r matches Err(SessionError::Validation(ValidationError::NotADirectory))),
    {
        if crate::text::check_blank(self.name.as_str()) {
            return Err(SessionError::Validation(ValidationError::EmptyName));
        }
        if self.name.as_str().unicode_len() > 100 {
            return Err(SessionError::Validation(ValidationError::NameTooLong));
        }
        if crate::text::check_blank(self.directory.as_str()) {
            return Err(SessionError::Validation(ValidationError::EmptyDirectory));
        }
        if !path_exists(self.directory.as_str()) {
            return Err(SessionError::Validation(ValidationError::MissingDirectory));
        }
        if !path_is_dir(self.directory.as_str()) {
            return Err(SessionError::Validation(ValidationError::NotADirectory));
        }
        Ok(())
    }
}

} // verus!
