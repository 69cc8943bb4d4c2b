use vstd::prelude::*;

verus! {

use crate::session::SessionMetadata;
use crate::text::str_eq;

/// Some entry carries the given id.
pub open spec fn meta_has_id(s: Seq<SessionMetadata>, id: Seq<char>) -> bool {
    exists|i: int| 0 <= i < s.len() && (#[trigger] s[i]).id@ == id
}

/// The read-mostly mirror of the registry: the metadata of every running
/// session, used by the streaming plane for existence and metadata lookups.
/// The registry is its only writer and keeps it in step with every mutation
/// that changes session existence.
#[derive(Debug)]
pub struct SessionMetadataStore {
    pub entries: Vec<SessionMetadata>,
}

impl SessionMetadataStore {
    /// No two entries carry the same id.
    pub open spec fn wf(self) -> bool {
        forall|i: int, j: int|
            0 <= i < j < self.entries@.len() ==> (#[trigger] self.entries@[i]).id@ != (
            #[trigger] self.entries@[j]).id@
    }

    /// An empty mirror.
    pub fn new() -> (s: SessionMetadataStore)
        ensures
            s.entries@.len() == 0,
            s.wf(),
    {
        SessionMetadataStore { entries: Vec::new() }
    }

    /// The index of the entry carrying `session_id`, if any.
    fn find(&self, session_id: &str) -> (r: Option<usize>)
        ensures
            r matches Some(i) ==> i < self.entries@.len() && self.entries@[i as int].id@
                == session_id@,
            r is None ==> !meta_has_id(self.entries@, session_id@),
    {
        let n = self.entries.len();
        let mut i: usize = 0;
        while i < n
            invariant
                i <= n,
                n == self.entries@.len(),
                forall|j: int| 0 <= j < i ==> (#[trigger] self.entries@[j]).id@ != session_id@,
            decreases n - i,
        {
            if str_eq(self.entries[i].id.as_str(), session_id) {
                return Some(i);
            }
            i = i + 1;
        }
        None
    }

    /// Whether a session with this id is currently mirrored.
    pub fn session_exists(&self, session_id: &str) -> (r: bool)
        ensures
            r == meta_has_id(self.entries@, session_id@),
    {
        self.find(session_id).is_some()
    }

    /// Insert the metadata, or replace the entry already carrying the id.
    pub fn update_metadata(&mut self, session_id: &str, metadata: SessionMetadata)
        requires
            old(self).wf(),
            metadata.id@ == session_id@,
        ensures
            final(self).wf(),
            !meta_has_id(old(self).entries@, session_id@) ==> final(self).entries@ == old(
                self,
            ).entries@.push(metadata),
            meta_has_id(old(self).entries@, session_id@) ==> exists|i: int|
                0 <= i < old(self).entries@.len() && (#[trigger] old(self).entries@[i]).id@
                    == session_id@ && final(self).entries@ == old(self).entries@.update(
                    i,
                    metadata,
                ),
    {
        match self.find(session_id) {
            Some(i) => {
                self.entries.remove(i);
                self.entries.insert(i, metadata);
                proof {
                    assert(self.entries@ =~= old(self).entries@.update(i as int, metadata));
                }
            },
            None => {
                self.entries.push(metadata);
            },
        }
    }

    /// Remove the entry carrying the id; absent ids leave the mirror as it
    /// was.
    pub fn remove_metadata(&mut self, session_id: &str)
        requires
            old(self).wf(),
        ensures
            final(self).wf(),
            !meta_has_id(old(self).entries@, session_id@) ==> *final(self) == *old(self),
            meta_has_id(old(self).entries@, session_id@) ==> exists|i: int|
                0 <= i < old(self).entries@.len() && (#[trigger] old(self).entries@[i]).id@
                    == session_id@ && final(self).entries@ == old(self).entries@.remove(i),
    {
        match self.find(session_id) {
            Some(i) => {
                self.entries.remove(i);
            },
            None => {},
        }
    }
}

} // verus!
