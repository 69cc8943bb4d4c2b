use vstd::prelude::*;

verus! {

use vstd::string::StringExecFns;
use crate::events::{is_error_event, is_output_event, ClientEvent, ServerEvent};
use crate::laws::lemma_mirror_tracks_registry;
use crate::registry::{has_id, SessionManager};

/// An input chunk the connection loop must forward to a session's PTY
/// writer. The handler only decides; the caller performs the write and
/// reports any failure as an error event.
pub struct InputForward {
    pub session_id: String,
    pub input: String,
}

/// What the streaming plane answers to one client event: the events to emit
/// now, and at most one input chunk to forward to a PTY.
pub struct StreamReply {
    pub events: Vec<ServerEvent>,
    pub forward: Option<InputForward>,
}

/// The message of the error event for an unknown session id.
pub fn not_found_message(session_id: &str) -> (m: String)
    ensures
        m@ == "session "@ + session_id@ + " not found"@,
{
    let mut m = String::from_str("session ");
    m.append(session_id);
    m.append(" not found");
    m
}

/// The message rejecting session management on the streaming plane.
pub fn management_rejected_message() -> (m: String)
    ensures
        m@ == "session management must use the control API"@,
{
    String::from_str("session management must use the control API")
}

/// One error event and nothing else.
fn error_reply(message: String) -> (r: StreamReply)
    ensures
        r.events@.len() == 1,
        is_error_event(r.events@[0], message@),
        r.forward is None,
{
    let mut events: Vec<ServerEvent> = Vec::new();
    events.push(ServerEvent::Error { message });
    StreamReply { events, forward: None }
}

/// The streaming plane's dispatch: validate one client event against session
/// existence and the channel policy, and decide what to emit and what to
/// forward. Session management events are always rejected here; an unknown
/// session id yields an error event and nothing else; input to a live
/// session is forwarded; a history request replays the scrollback, oldest
/// chunk first, one output event per chunk.
pub fn handle_client_event(event: ClientEvent, manager: &SessionManager) -> (r: StreamReply)
    requires
        manager.wf(),
    ensures
        event matches ClientEvent::CreateSession { name, directory } ==> (r.events@.len() == 1
            && is_error_event(r.events@[0], "session management must use the control API"@)
            && r.forward is None),
        event matches ClientEvent::CloseSession { session_id } ==> (r.events@.len() == 1
            && is_error_event(r.events@[0], "session management must use the control API"@)
            && r.forward is None),
        event matches ClientEvent::SendInput { session_id, input } ==> ((!has_id(
            manager.sessions@,
            session_id@,
        ) ==> r.events@.len() == 1 && is_error_event(
            r.events@[0],
            "session "@ + session_id@ + " not found"@,
        ) && r.forward is None) && (has_id(manager.sessions@, session_id@) ==> (r.forward matches
            Some(f) && f.session_id@ == session_id@ && f.input@ == input@ && r.events@.len()
            == 0))),
        event matches ClientEvent::RequestHistory { session_id } ==> ((!has_id(
            manager.sessions@,
            session_id@,
        ) ==> r.events@.len() == 1 && is_error_event(
            r.events@[0],
            "session "@ + session_id@ + " not found"@,
        )) && (has_id(manager.sessions@, session_id@) ==> exists|i: int|
            0 <= i < manager.sessions@.len() && (#[trigger] manager.sessions@[i]).id@
                == session_id@ && r.events@.len() == manager.sessions@[i].output_buffer@.len()
                && forall|k: int|
                0 <= k < r.events@.len() ==> is_output_event(
                    #[trigger] r.events@[k],
                    session_id@,
                    manager.sessions@[i].output_buffer@[k]@,
                )) && r.forward is None),
{
    match event {
        ClientEvent::SendInput { session_id, input } => handle_send_input(
            session_id,
            input,
            manager,
        ),
        ClientEvent::RequestHistory { session_id } => StreamReply {
            events: handle_request_history(session_id, manager),
            forward: None,
        },
        ClientEvent::CreateSession { name: _, directory: _ } => error_reply(
            management_rejected_message(),
        ),
        ClientEvent::CloseSession { session_id: _ } => error_reply(management_rejected_message()),
    }
}

/// Decide what to do with one input chunk: an unknown id yields an error
/// event and the loop continues; a known id has the chunk forwarded to the
/// session's writer.
pub fn handle_send_input(session_id: String, input: String, manager: &SessionManager) -> (r:
    StreamReply)
    requires
        manager.wf(),
    ensures
        !has_id(manager.sessions@, session_id@) ==> (r.events@.len() == 1 && is_error_event(
            r.events@[0],
            "session "@ + session_id@ + " not found"@,
        ) && r.forward is None),
        has_id(manager.sessions@, session_id@) ==> (r.forward matches Some(f) && f.session_id@
            == session_id@ && f.input@ == input@ && r.events@.len() == 0),
{
    let exists = match &manager.metadata_store {
        Some(store) => {
            proof {
                lemma_mirror_tracks_registry(*manager, session_id@);
            }
            store.session_exists(session_id.as_str())
        },
        None => manager.session_exists(session_id.as_str()),
    };
    if !exists {
        error_reply(not_found_message(session_id.as_str()))
    } else {
        StreamReply { events: Vec::new(), forward: Some(InputForward { session_id, input }) }
    }
}

/// Replay a session's buffered scrollback: one `TerminalOutput` event per
/// buffered chunk, oldest first, all of them before any later live output;
/// an unknown id yields an error event instead.
pub fn handle_request_history(session_id: String, manager: &SessionManager) -> (events: Vec<
    ServerEvent,
>)
    ensures
        !has_id(manager.sessions@, session_id@) ==> events@.len() == 1 && is_error_event(
            events@[0],
            "session "@ + session_id@ + " not found"@,
        ),
        has_id(manager.sessions@, session_id@) ==> exists|i: int|
            0 <= i < manager.sessions@.len() && (#[trigger] manager.sessions@[i]).id@
                == session_id@ && events@.len() == manager.sessions@[i].output_buffer@.len()
                && forall|k: int|
                0 <= k < events@.len() ==> is_output_event(
                    #[trigger] events@[k],
                    session_id@,
                    manager.sessions@[i].output_buffer@[k]@,
                ),
{
    match manager.find_index(session_id.as_str()) {
        None => {
            let mut events: Vec<ServerEvent> = Vec::new();
            events.push(ServerEvent::Error { message: not_found_message(session_id.as_str()) });
            events
        },
        Some(i) => {
            let s = &manager.sessions[i];
            let n = s.output_buffer.len();
            let mut events: Vec<ServerEvent> = Vec::new();
            let mut k: usize = 0;
            while k < n
                invariant
                    k <= n,
                    n == s.output_buffer@.len(),
                    events@.len() == k,
                    forall|j: int|
                        0 <= j < k ==> is_output_event(
                            #[trigger] events@[j],
                            session_id@,
                            s.output_buffer@[j]@,
                        ),
                decreases n - k,
            {
                events.push(
                    ServerEvent::TerminalOutput {
                        session_id: session_id.clone(),
                        data: s.output_buffer[k].clone(),
                    },
                );
                k = k + 1;
            }
            proof {
                assert(0 <= i < manager.sessions@.len() && (#[trigger] manager.sessions@[
                i as int]).id@ == session_id@ && events@.len()
                    == manager.sessions@[i as int].output_buffer@.len() && forall|j: int|
                    0 <= j < events@.len() ==> is_output_event(
                        #[trigger] events@[j],
                        session_id@,
                        manager.sessions@[i as int].output_buffer@[j]@,
                    ));
            }
            events
        },
    }
}

} // verus!
