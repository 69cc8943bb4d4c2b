use vstd::prelude::*;

verus! {

use crate::mirror::meta_has_id;
use crate::registry::{has_id, info_matches, meta_matches, unique_ids, SessionManager};
use crate::session::{Session, SessionInfo};

/// Law: the mirror is exactly consistent with the registry. The registry is
/// the mirror's only writer and updates it before returning from every
/// mutation that changes session existence, so under the registry invariant
/// the mirror answers an existence question exactly as the registry would.
pub proof fn lemma_mirror_tracks_registry(m: SessionManager, id: Seq<char>)
    requires
        m.wf(),
        m.metadata_store is Some,
    ensures
        meta_has_id(m.metadata_store->Some_0.entries@, id) == has_id(m.sessions@, id),
{
    let st = m.metadata_store->Some_0;
    if meta_has_id(st.entries@, id) {
        let i = choose|i: int| 0 <= i < st.entries@.len() && (#[trigger] st.entries@[i]).id@ == id;
        assert(meta_matches(m.sessions@[i], st.entries@[i]));
        assert(has_id(m.sessions@, id));
    }
    if has_id(m.sessions@, id) {
        let i = choose|i: int| 0 <= i < m.sessions@.len() && (#[trigger] m.sessions@[i]).id@ == id;
        assert(meta_matches(m.sessions@[i], st.entries@[i]));
        assert(meta_has_id(st.entries@, id));
    }
}

/// Law: a session list taken after a successful create holds exactly one
/// entry whose id is the one the create returned. `create_session` ensures
/// that the new id is present and that the registry keeps ids unique;
/// `list_sessions` ensures the list mirrors the registry entry for entry;
/// together they give exactly one matching entry.
pub proof fn lemma_list_has_unique_entry(
    sessions: Seq<Session>,
    id: Seq<char>,
    infos: Seq<SessionInfo>,
)
    requires
        unique_ids(sessions),
        has_id(sessions, id),
        infos.len() == sessions.len(),
        forall|i: int| 0 <= i < sessions.len() ==> info_matches(#[trigger] sessions[i], infos[i]),
    ensures
        exists|j: int|
            0 <= j < infos.len() && (#[trigger] infos[j]).id@ == id && (forall|k: int|
                0 <= k < infos.len() && k != j ==> (#[trigger] infos[k]).id@ != id),
{
    let j = choose|j: int| 0 <= j < sessions.len() && (#[trigger] sessions[j]).id@ == id;
    assert(infos[j].id@ == id);
    assert forall|k: int| 0 <= k < infos.len() && k != j implies (#[trigger] infos[k]).id@
        != id by {
        assert(info_matches(sessions[k], infos[k]));
    }
}

/// Law: the registry never holds more sessions than the configured maximum.
/// Creation checks the count against the capacity in the same exclusive step
/// as the insert, so no interleaving of creations can exceed the limit: with
/// capacity K, at most K creations succeed and the rest fail with the
/// capacity error, as `create_session` ensures.
pub proof fn lemma_capacity_never_exceeded(m: SessionManager)
    requires
        m.wf(),
    ensures
        m.sessions@.len() <= m.config.max_sessions,
{
}

/// Law: closing a session removes its id for good: after the removal that a
/// successful close performs, no session carries the id, so a second close
/// of the same id is answered with the not-found error by `close_session`'s
/// contract.
pub proof fn lemma_closed_id_gone(sessions: Seq<Session>, i: int, id: Seq<char>)
    requires
        unique_ids(sessions),
        0 <= i < sessions.len(),
        sessions[i].id@ == id,
    ensures
        !has_id(sessions.remove(i), id),
{
    let removed = sessions.remove(i);
    assert forall|k: int| 0 <= k < removed.len() implies (#[trigger] removed[k]).id@ != id by {
        if k < i {
            assert(removed[k] == sessions[k]);
        } else {
            assert(removed[k] == sessions[k + 1]);
        }
    }
}

/// The scrollback buffer after appending `chunks` to `buf`, one at a time,
/// oldest first.
pub open spec fn append_all(buf: Seq<Seq<char>>, chunks: Seq<Seq<char>>) -> Seq<Seq<char>>
    decreases chunks.len(),
{
    if chunks.len() == 0 {
        buf
    } else {
        append_all(buf.push(chunks[0]), chunks.skip(1))
    }
}

/// Appending one chunk at a time concatenates them, in order.
pub proof fn lemma_append_all(buf: Seq<Seq<char>>, chunks: Seq<Seq<char>>)
    ensures
        append_all(buf, chunks) == buf + chunks,
    decreases chunks.len(),
{
    if chunks.len() == 0 {
        assert(append_all(buf, chunks) =~= buf + chunks);
    } else {
        lemma_append_all(buf.push(chunks[0]), chunks.skip(1));
        assert(buf.push(chunks[0]) + chunks.skip(1) =~= buf + chunks);
    }
}

/// Law: append followed by read round-trips. Starting from an empty
/// scrollback, appending any chunks in order and then reading gives back
/// exactly that sequence of chunks: `add_session_output` ensures each append
/// pushes one chunk and changes nothing else, and `get_session_output`
/// ensures the read copies the buffer whole.
pub proof fn lemma_output_round_trip(chunks: Seq<Seq<char>>)
    ensures
        append_all(Seq::empty(), chunks) == chunks,
{
    lemma_append_all(Seq::empty(), chunks);
    assert(Seq::empty() + chunks =~= chunks);
}

} // verus!
