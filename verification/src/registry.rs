use vstd::prelude::*;

verus! {

use crate::config::Config;
use crate::errors::{SessionError, ValidationError};
use crate::mirror::{meta_has_id, SessionMetadataStore};
use crate::process_manager::ProcessManager;
use crate::pty::new_session_id;
use crate::session::{max_name_len, valid_shape, Session, SessionConfig, SessionInfo, SessionMetadata};
use crate::text::{is_blank, str_eq};

/// Some session in the sequence carries the given id.
pub open spec fn has_id(s: Seq<Session>, id: Seq<char>) -> bool {
    exists|i: int| 0 <= i < s.len() && (#[trigger] s[i]).id@ == id
}

/// No two sessions carry the same id.
pub open spec fn unique_ids(s: Seq<Session>) -> bool {
    forall|i: int, j: int|
        0 <= i < j < s.len() ==> (#[trigger] s[i]).id@ != (#[trigger] s[j]).id@
}

/// What a freshly created session looks like: the given identity and
/// configuration, a live process handle, and an empty scrollback buffer.
pub open spec fn created_ok(s: Session, id: Seq<char>, cfg: SessionConfig) -> bool {
    &&& s.id@ == id
    &&& s.name@ == cfg.name@
    &&& s.directory@ == cfg.directory@
    &&& s.pty_pair is Some
    &&& s.output_buffer@.len() == 0
}

/// The info projection reflects the session field by field.
pub open spec fn info_matches(s: Session, info: SessionInfo) -> bool {
    &&& info.id@ == s.id@
    &&& info.name@ == s.name@
    &&& info.directory@ == s.directory@
    &&& info.created_at@ == s.created_at@
}

/// The metadata projection reflects the session field by field.
pub open spec fn meta_matches(s: Session, m: SessionMetadata) -> bool {
    &&& m.id@ == s.id@
    &&& m.name@ == s.name@
    &&& m.directory@ == s.directory@
    &&& m.created_at@ == s.created_at@
}

/// The single source of truth for which sessions exist. Creation is
/// linearized against the policy and capacity checks; every mutation that
/// changes session existence updates the attached metadata mirror before it
/// returns.
pub struct SessionManager {
    pub sessions: Vec<Session>,
    pub process_manager: ProcessManager,
    pub config: Config,
    pub metadata_store: Option<SessionMetadataStore>,
}

impl SessionManager {
    /// The registry invariant: ids are unique, the session count never
    /// exceeds the configured maximum, every stored session is running (it
    /// has a process handle), and the attached mirror holds exactly the
    /// metadata of the stored sessions.
    pub open spec fn wf(self) -> bool {
        &&& unique_ids(self.sessions@)
        &&& self.sessions@.len() <= self.config.max_sessions
        &&& forall|i: int|
            0 <= i < self.sessions@.len() ==> (#[trigger] self.sessions@[i]).pty_pair is Some
        &&& self.mirror_ok()
    }

    /// The attached mirror, if any, matches the sessions entry for entry.
    pub open spec fn mirror_ok(self) -> bool {
        match self.metadata_store {
            Some(st) => st.entries@.len() == self.sessions@.len() && forall|i: int|
                0 <= i < self.sessions@.len() ==> meta_matches(
                    #[trigger] self.sessions@[i],
                    st.entries@[i],
                ),
            None => true,
        }
    }

    /// An empty registry over the given configuration, with no mirror
    /// attached yet.
    pub fn new(config: Config) -> (m: SessionManager)
        ensures
            m.wf(),
            m.sessions@.len() == 0,
            m.config == config,
            m.metadata_store is None,
    {
        SessionManager {
            sessions: Vec::new(),
            process_manager: ProcessManager::new(),
            config,
            metadata_store: None,
        }
    }

    /// Attach the mirror the streaming plane will read. Done once at
    /// startup, before any session exists.
    pub fn set_metadata_store(&mut self, store: SessionMetadataStore)
        requires
            old(self).wf(),
            old(self).sessions@.len() == 0,
            store.entries@.len() == 0,
        ensures
            final(self).wf(),
            final(self).sessions == old(self).sessions,
            final(self).config == old(self).config,
            final(self).metadata_store matches Some(st) && st.entries@.len() == 0,
    {
        self.metadata_store = Some(store);
    }

    /// The index of the session carrying `session_id`, if any.
    pub fn find_index(&self, session_id: &str) -> (r: Option<usize>)
        ensures
            r matches Some(i) ==> i < self.sessions@.len() && self.sessions@[i as int].id@
                == session_id@,
            r is None ==> !has_id(self.sessions@, session_id@),
    {
        let n = self.sessions.len();
        let mut i: usize = 0;
        while i < n
            invariant
                i <= n,
                n == self.sessions@.len(),
                forall|j: int| 0 <= j < i ==> (#[trigger] self.sessions@[j]).id@ != session_id@,
            decreases n - i,
        {
            if str_eq(self.sessions[i].id.as_str(), session_id) {
                return Some(i);
            }
            i = i + 1;
        }
        None
    }

    /// The attached mirror of a well-formed registry is itself well-formed.
    proof fn lemma_store_wf(self)
        requires
            self.wf(),
            self.metadata_store is Some,
        ensures
            self.metadata_store matches Some(st) && st.wf(),
    {
        let st = self.metadata_store->Some_0;
        assert forall|i: int, j: int| 0 <= i < j < st.entries@.len() implies (
        #[trigger] st.entries@[i]).id@ != (#[trigger] st.entries@[j]).id@ by {
            assert(meta_matches(self.sessions@[i], st.entries@[i]));
            assert(meta_matches(self.sessions@[j], st.entries@[j]));
        }
    }

    /// Create a session: validate the configuration, gate the directory
    /// against the allow-list, gate the count against the capacity, spawn
    /// the configured executable in a fresh PTY, and only then insert the
    /// session and publish its metadata. A failure at any step leaves the
    /// registry exactly as it was; in the (vanishingly unlikely) case that
    /// the generated id collides with a live session, the older session is
    /// replaced, as a keyed insert would do.
    pub fn create_session(&mut self, session_config: SessionConfig) -> (r: Result<
        String,
        SessionError,
    >)
        requires
            old(self).wf(),
        ensures
            final(self).wf(),
            final(self).config == old(self).config,
            (final(self).metadata_store is Some) == (old(self).metadata_store is Some),
            r matches Err(e) ==> *final(self) == *old(self),
            r matches Err(e) ==> (e matches SessionError::Validation(f) || e matches
                SessionError::Policy || e matches SessionError::Capacity || e matches
                SessionError::Spawn(m)),
            r matches Err(SessionError::Spawn(m)) ==> valid_shape(session_config) && old(
                self,
            ).config.spec_dir_allowed(session_config.directory@) && old(self).sessions@.len() < old(
                self,
            ).config.max_sessions,
            is_blank(session_config.name@) <==> r matches Err(SessionError::Validation(
                ValidationError::EmptyName,
            )),
            !is_blank(session_config.name@) && session_config.name@.len() > max_name_len() <==> r
                matches Err(SessionError::Validation(ValidationError::NameTooLong)),
            !is_blank(session_config.name@) && session_config.name@.len() <= max_name_len()
                && is_blank(session_config.directory@) <==> r matches Err(SessionError::Validation(
                ValidationError::EmptyDirectory,
            )),
            r matches Err(SessionError::Policy) ==> valid_shape(session_config) && !old(
                self,
            ).config.spec_dir_allowed(session_config.directory@),
            !old(self).config.spec_dir_allowed(session_config.directory@) ==> r is Err,
            r matches Err(SessionError::Capacity) ==> valid_shape(session_config) && old(
                self,
            ).config.spec_dir_allowed(session_config.directory@) && old(self).sessions@.len() >= old(
                self,
            ).config.max_sessions,
            valid_shape(session_config) && old(self).config.spec_dir_allowed(
                session_config.directory@,
            ) && old(self).sessions@.len() >= old(self).config.max_sessions ==> r is Err,
            r matches Ok(id) ==> valid_shape(session_config) && old(self).config.spec_dir_allowed(
                session_config.directory@,
            ) && old(self).sessions@.len() < old(self).config.max_sessions,
            r matches Ok(id) ==> (!has_id(old(self).sessions@, id@)
                ==> final(self).sessions@.len() == old(self).sessions@.len() + 1
                && final(self).sessions@.drop_last() == old(self).sessions@
                && created_ok(final(self).sessions@.last(), id@, session_config)),
            r matches Ok(id) ==> (has_id(old(self).sessions@, id@) ==> exists|i: int|
                0 <= i < old(self).sessions@.len() && (#[trigger] old(self).sessions@[i]).id@ == id@
                    && final(self).sessions@ == old(self).sessions@.remove(i).push(
                    final(self).sessions@.last(),
                ) && created_ok(final(self).sessions@.last(), id@, session_config)),
            r matches Ok(id) ==> has_id(final(self).sessions@, id@),
    {
        match session_config.validate() {
            Err(e) => {
                return Err(e);
            },
            Ok(u) => {},
        }
        if !self.config.is_directory_allowed(session_config.directory.as_str()) {
            return Err(SessionError::Policy);
        }
        if self.sessions.len() >= self.config.max_sessions {
            return Err(SessionError::Capacity);
        }
        let session_id = new_session_id();
        let pair = match self.process_manager.spawn_process(
            session_config.directory.as_str(),
            self.config.executable_path.as_str(),
        ) {
            Ok(p) => p,
            Err(e) => {
                return Err(e);
            },
        };
        let mut session = Session::new(
            session_id.clone(),
            session_config.name,
            session_config.directory,
        );
        session.pty_pair = Some(pair);
        let ghost pre = *self;
        match self.find_index(session_id.as_str()) {
            Some(i) => {
                self.sessions.remove(i);
                proof {
                    pre.lemma_removed_id_gone(i as int, session_id@);
                }
                match &mut self.metadata_store {
                    Some(store) => {
                        proof {
                            pre.lemma_store_wf();
                        }
                        store.remove_metadata(session_id.as_str());
                        proof {
                            let j = choose|j: int|
                                0 <= j < pre.metadata_store->Some_0.entries@.len() && (
                                #[trigger] pre.metadata_store->Some_0.entries@[j]).id@
                                    == session_id@ && store.entries@
                                    == pre.metadata_store->Some_0.entries@.remove(j);
                            assert(meta_matches(pre.sessions@[j], pre.metadata_store->Some_0.entries@[j]));
                            assert(j == i as int);
                        }
                    },
                    None => {},
                }
            },
            None => {},
        }
        let ghost mid = *self;
        let meta = session.metadata();
        self.sessions.push(session);
        match &mut self.metadata_store {
            Some(store) => {
                proof {
                    mid.lemma_store_wf();
                    if meta_has_id(mid.metadata_store->Some_0.entries@, session_id@) {
                        let j = choose|j: int|
                            0 <= j < mid.metadata_store->Some_0.entries@.len() && (
                            #[trigger] mid.metadata_store->Some_0.entries@[j]).id@ == session_id@;
                        assert(meta_matches(mid.sessions@[j], mid.metadata_store->Some_0.entries@[j]));
                        assert(has_id(mid.sessions@, session_id@));
                        assert(false);
                    }
                }
                store.update_metadata(session_id.as_str(), meta);
            },
            None => {},
        }
        Ok(session_id)
    }

    /// After removing the only session with `id`, no session carries it.
    proof fn lemma_removed_id_gone(self, i: int, id: Seq<char>)
        requires
            unique_ids(self.sessions@),
            0 <= i < self.sessions@.len(),
            self.sessions@[i].id@ == id,
        ensures
            !has_id(self.sessions@.remove(i), id),
            unique_ids(self.sessions@.remove(i)),
    {
        let removed = self.sessions@.remove(i);
        assert forall|k: int| 0 <= k < removed.len() implies (#[trigger] removed[k]).id@ != id by {
            if k < i {
                assert(removed[k] == self.sessions@[k]);
            } else {
                assert(removed[k] == self.sessions@[k + 1]);
            }
        }
        assert forall|k: int, l: int| 0 <= k < l < removed.len() implies (
        #[trigger] removed[k]).id@ != (#[trigger] removed[l]).id@ by {
            if l < i {
            } else if k < i {
                assert(removed[l] == self.sessions@[l + 1]);
            } else {
                assert(removed[k] == self.sessions@[k + 1]);
                assert(removed[l] == self.sessions@[l + 1]);
            }
        }
    }

    /// A snapshot of every running session's client-facing info, in registry
    /// order.
    pub fn list_sessions(&self) -> (r: Result<Vec<SessionInfo>, SessionError>)
        ensures
            r is Ok,
            r matches Ok(v) ==> v@.len() == self.sessions@.len() && forall|i: int|
                0 <= i < self.sessions@.len() ==> info_matches(
                    #[trigger] self.sessions@[i],
                    v@[i],
                ),
    {
        let n = self.sessions.len();
        let mut v: Vec<SessionInfo> = Vec::new();
        let mut i: usize = 0;
        while i < n
            invariant
                i <= n,
                n == self.sessions@.len(),
                v@.len() == i,
                forall|j: int|
                    0 <= j < i ==> info_matches(#[trigger] self.sessions@[j], v@[j]),
            decreases n - i,
        {
            let s = &self.sessions[i];
            v.push(s.to_info());
            i = i + 1;
        }
        Ok(v)
    }

    /// Close a session: remove it from the registry and the mirror; dropping
    /// the removed entry releases its PTY pair and with it the child
    /// process. Unknown ids are reported, and a closed id is gone: a second
    /// close of the same id finds nothing.
    pub fn close_session(&mut self, session_id: &str) -> (r: Result<(), SessionError>)
        requires
            old(self).wf(),
        ensures
            final(self).wf(),
            final(self).config == old(self).config,
            (final(self).metadata_store is Some) == (old(self).metadata_store is Some),
            !has_id(old(self).sessions@, session_id@) ==> (r matches Err(SessionError::NotFound)
                && *final(self) == *old(self)),
            has_id(old(self).sessions@, session_id@) ==> (r matches Ok(u) && exists|i: int|
                0 <= i < old(self).sessions@.len() && (#[trigger] old(self).sessions@[i]).id@
                    == session_id@ && final(self).sessions@ == old(self).sessions@.remove(i)),
            r matches Ok(u) ==> !has_id(final(self).sessions@, session_id@),
    {
        let ghost pre = *self;
        match self.find_index(session_id) {
            None => Err(SessionError::NotFound),
            Some(i) => {
                self.sessions.remove(i);
                proof {
                    pre.lemma_removed_id_gone(i as int, session_id@);
                }
                match &mut self.metadata_store {
                    Some(store) => {
                        proof {
                            pre.lemma_store_wf();
                            assert(meta_matches(pre.sessions@[i as int], pre.metadata_store->Some_0.entries@[i as int]));
                        }
                        store.remove_metadata(session_id);
                        proof {
                            let j = choose|j: int|
                                0 <= j < pre.metadata_store->Some_0.entries@.len() && (
                                #[trigger] pre.metadata_store->Some_0.entries@[j]).id@
                                    == session_id@ && store.entries@
                                    == pre.metadata_store->Some_0.entries@.remove(j);
                            assert(meta_matches(pre.sessions@[j], pre.metadata_store->Some_0.entries@[j]));
                            assert(j == i as int);
                        }
                    },
                    None => {},
                }
                Ok(())
            },
        }
    }

    /// Whether a session with this id is currently registered.
    pub fn session_exists(&self, session_id: &str) -> (r: bool)
        ensures
            r == has_id(self.sessions@, session_id@),
    {
        self.find_index(session_id).is_some()
    }

    /// The metadata of the session carrying this id, if it exists.
    pub fn get_session_metadata(&self, session_id: &str) -> (r: Option<SessionMetadata>)
        ensures
            r is None <==> !has_id(self.sessions@, session_id@),
            r matches Some(m) ==> exists|i: int|
                0 <= i < self.sessions@.len() && (#[trigger] self.sessions@[i]).id@ == session_id@
                    && meta_matches(self.sessions@[i], m),
    {
        match self.find_index(session_id) {
            None => None,
            Some(i) => {
                let s = &self.sessions[i];
                Some(s.metadata())
            },
        }
    }

    /// Append one chunk to the scrollback buffer of the session carrying
    /// this id; scrollback is append-only and nothing else changes.
    pub fn add_session_output(&mut self, session_id: &str, output: String) -> (r: Result<
        (),
        SessionError,
    >)
        requires
            old(self).wf(),
        ensures
            final(self).wf(),
            final(self).config == old(self).config,
            !has_id(old(self).sessions@, session_id@) ==> (r matches Err(SessionError::NotFound)
                && *final(self) == *old(self)),
            has_id(old(self).sessions@, session_id@) ==> (r matches Ok(u) && exists|i: int|
                {
                    &&& 0 <= i < old(self).sessions@.len()
                    &&& (#[trigger] old(self).sessions@[i]).id@ == session_id@
                    &&& final(self).sessions@ == old(self).sessions@.update(
                        i,
                        final(self).sessions@[i],
                    )
                    &&& final(self).sessions@[i].output_buffer@ == old(
                        self,
                    ).sessions@[i].output_buffer@.push(output)
                    &&& final(self).sessions@[i].id == old(self).sessions@[i].id
                    &&& final(self).sessions@[i].name == old(self).sessions@[i].name
                    &&& final(self).sessions@[i].directory == old(self).sessions@[i].directory
                    &&& final(self).sessions@[i].created_at == old(self).sessions@[i].created_at
                    &&& final(self).sessions@[i].pty_pair == old(self).sessions@[i].pty_pair
                }),
            final(self).metadata_store == old(self).metadata_store,
    {
        match self.find_index(session_id) {
            None => Err(SessionError::NotFound),
            Some(i) => {
                let mut s = self.sessions.remove(i);
                s.add_output(output);
                self.sessions.insert(i, s);
                proof {
                    assert(self.sessions@ =~= old(self).sessions@.update(
                        i as int,
                        self.sessions@[i as int],
                    ));
                }
                Ok(())
            },
        }
    }

    /// A full copy of the scrollback buffer of the session carrying this id,
    /// as of this call, oldest chunk first.
    pub fn get_session_output(&self, session_id: &str) -> (r: Result<Vec<String>, SessionError>)
        ensures
            r is Ok <==> has_id(self.sessions@, session_id@),
            !has_id(self.sessions@, session_id@) <==> r matches Err(SessionError::NotFound),
            r matches Ok(v) ==> exists|i: int|
                0 <= i < self.sessions@.len() && (#[trigger] self.sessions@[i]).id@ == session_id@
                    && v.deep_view() == self.sessions@[i].output_buffer.deep_view(),
    {
        match self.find_index(session_id) {
            None => Err(SessionError::NotFound),
            Some(i) => {
                let s = &self.sessions[i];
                Ok(s.get_all_output())
            },
        }
    }

    /// Borrow the PTY pair of the session carrying this id, for the duration
    /// of one operation; under the registry invariant every stored session
    /// has one.
    pub fn get_pty_pair(&self, session_id: &str) -> (r: Result<&portable_pty::PtyPair, SessionError>)
        requires
            self.wf(),
        ensures
            r is Ok <==> has_id(self.sessions@, session_id@),
            r matches Err(e) ==> e matches SessionError::NotFound,
    {
        match self.find_index(session_id) {
            None => Err(SessionError::NotFound),
            Some(i) => {
                let s = &self.sessions[i];
                match s.pty_pair.as_ref() {
                    Some(p) => Ok(p),
                    None => Err(SessionError::NotFound),
                }
            },
        }
    }
}

} // verus!
