use vstd::prelude::*;

verus! {

use crate::errors::SessionError;
use crate::registry::{has_id, SessionManager};
use crate::session::{SessionConfig, SessionInfo};

/// Queue depth used when the environment does not configure one.
pub const DEFAULT_QUEUE_DEPTH: usize = 100;

/// A control-plane request, as carried by the dispatcher queue.
#[derive(Debug, Clone, PartialEq)]
pub enum SessionRequest {
    CreateSession { name: String, directory: String },
    GetSessions,
    DeleteSession { session_id: String },
}

/// The one response owed for each control-plane request.
#[derive(Debug)]
pub enum SessionResponse {
    Created(Result<String, SessionError>),
    Sessions(Result<Vec<SessionInfo>, SessionError>),
    Deleted(Result<(), SessionError>),
}

/// The response answers the request's kind.
pub open spec fn response_matches(req: SessionRequest, resp: SessionResponse) -> bool {
    match req {
        SessionRequest::CreateSession { name, directory } => resp is Created,
        SessionRequest::GetSessions => resp is Sessions,
        SessionRequest::DeleteSession { session_id } => resp is Deleted,
    }
}

/// The control-plane dispatcher: a bounded queue of requests processed one
/// at a time against the registry, so that session creation and its quota
/// check are linearized even when callers submit concurrently. Every dequeued
/// request yields exactly one response.
#[derive(Debug)]
pub struct SessionProcessor {
    pub queue: Vec<SessionRequest>,
    pub depth: usize,
}

impl SessionProcessor {
    /// The queue never holds more than `depth` requests.
    pub open spec fn wf(self) -> bool {
        self.queue@.len() <= self.depth
    }

    /// An empty dispatcher with the given queue bound.
    pub fn new(depth: usize) -> (p: SessionProcessor)
        ensures
            p.wf(),
            p.queue@.len() == 0,
            p.depth == depth,
    {
        SessionProcessor { queue: Vec::new(), depth }
    }

    /// Enqueue one request. When the queue is full the submission fails fast
    /// with a backpressure error instead of blocking.
    pub fn submit(&mut self, request: SessionRequest) -> (r: Result<(), SessionError>)
        requires
            old(self).wf(),
        ensures
            final(self).wf(),
            final(self).depth == old(self).depth,
            old(self).queue@.len() >= old(self).depth ==> (r matches Err(
                SessionError::Backpressure,
            ) && *final(self) == *old(self)),
            old(self).queue@.len() < old(self).depth ==> (r matches Ok(u) && final(self).queue@
                == old(self).queue@.push(request)),
    {
        if self.queue.len() >= self.depth {
            Err(SessionError::Backpressure)
        } else {
            self.queue.push(request);
            Ok(())
        }
    }

    /// Dequeue and serve one request against the registry. An empty queue
    /// serves nothing; otherwise the oldest request is served and exactly
    /// one response of the matching kind comes back.
    pub fn step(&mut self, manager: &mut SessionManager) -> (r: Option<SessionResponse>)
        requires
            old(self).wf(),
            old(manager).wf(),
        ensures
            final(self).wf(),
            final(manager).wf(),
            final(self).depth == old(self).depth,
            old(self).queue@.len() == 0 ==> (r is None && *final(self) == *old(self)
                && *final(manager) == *old(manager)),
            old(self).queue@.len() > 0 ==> (r matches Some(resp) && response_matches(
                old(self).queue@[0],
                resp,
            ) && final(self).queue@ == old(self).queue@.drop_first()),
            r matches Some(SessionResponse::Created(Err(e))) ==> *final(manager) == *old(manager),
            r matches Some(SessionResponse::Created(Ok(id))) ==> has_id(
                final(manager).sessions@,
                id@,
            ),
            r matches Some(SessionResponse::Created(d)) ==> (old(self).queue@[0] matches
                SessionRequest::CreateSession { name, directory } ==> ((d is Ok ==> old(
                manager,
            ).config.spec_dir_allowed(directory@) && old(manager).sessions@.len() < old(
                manager,
            ).config.max_sessions) && (!old(manager).config.spec_dir_allowed(directory@) ==> d
                is Err))),
            r matches Some(SessionResponse::Sessions(v)) ==> *final(manager) == *old(manager),
            r matches Some(SessionResponse::Deleted(d)) ==> (old(self).queue@[0] matches
                SessionRequest::DeleteSession { session_id } ==> ((d is Ok <==> has_id(
                old(manager).sessions@,
                session_id@,
            )) && (d is Ok ==> !has_id(final(manager).sessions@, session_id@)))),
    {
        if self.queue.len() == 0 {
            return None;
        }
        let request = self.queue.remove(0);
        proof {
            assert(self.queue@ =~= old(self).queue@.drop_first());
        }
        match request {
            SessionRequest::CreateSession { name, directory } => {
                let result = manager.create_session(SessionConfig { name, directory });
                Some(SessionResponse::Created(result))
            },
            SessionRequest::GetSessions => {
                let result = manager.list_sessions();
                Some(SessionResponse::Sessions(result))
            },
            SessionRequest::DeleteSession { session_id } => {
                let result = manager.close_session(session_id.as_str());
                Some(SessionResponse::Deleted(result))
            },
        }
    }

    /// Drain the queue in submission order, serving each request against the
    /// registry: exactly one response per queued request, oldest first.
    pub fn run(&mut self, manager: &mut SessionManager) -> (responses: Vec<SessionResponse>)
        requires
            old(self).wf(),
            old(manager).wf(),
        ensures
            final(self).wf(),
            final(manager).wf(),
            final(self).queue@.len() == 0,
            responses@.len() == old(self).queue@.len(),
            forall|k: int|
                0 <= k < responses@.len() ==> response_matches(
                    old(self).queue@[k],
                    #[trigger] responses@[k],
                ),
    {
        let mut responses: Vec<SessionResponse> = Vec::new();
        loop
            invariant
                self.wf(),
                manager.wf(),
                responses@.len() + self.queue@.len() == old(self).queue@.len(),
                self.queue@ == old(self).queue@.skip(responses@.len() as int),
                forall|k: int|
                    0 <= k < responses@.len() ==> response_matches(
                        old(self).queue@[k],
                        #[trigger] responses@[k],
                    ),
            decreases self.queue@.len(),
        {
            if self.queue.len() == 0 {
                return responses;
            }
            proof {
                assert(self.queue@[0] == old(self).queue@[responses@.len() as int]);
            }
            match self.step(manager) {
                Some(resp) => {
                    responses.push(resp);
                },
                None => {
                    return responses;
                },
            }
            proof {
                assert(self.queue@ =~= old(self).queue@.skip(responses@.len() as int));
            }
        }
    }
}

} // verus!
