use vstd::prelude::*;

use crate::error::ErrorView;
use crate::native::NativeError;
use crate::session::{
    attach_model, detach_model, load_model, model_wf, post_model, unload_model, Script,
    TableModel,
};

verus! {

/// A session identifier that is not in the table is refused by `detach`, `load_script`,
/// `unload_script` and `post_message` with `SessionNotFound`, and none of them changes the table.
pub proof fn lemma_unknown_session_refused(
    m: TableModel,
    id: u64,
    load: Result<u64, NativeError>,
    post: Result<(), NativeError>,
)
    requires
        !m.sessions.contains_key(id),
    ensures
        detach_model(m, id) == (m, Err::<crate::session::Session, ErrorView>(ErrorView::SessionNotFound(id))),
        load_model(m, id, load) == (m, Err::<u64, ErrorView>(ErrorView::SessionNotFound(id))),
        unload_model(m, id) == (m, Err::<Option<Script>, ErrorView>(ErrorView::SessionNotFound(id))),
        post_model(m, id, post) == Err::<(), ErrorView>(ErrorView::SessionNotFound(id)),
{
}

/// Detaching the session that an attach just created leaves the same sessions as before the
/// attach, and so the same number of them.
pub proof fn lemma_attach_then_detach(m: TableModel, device_id: String, pid: u32, handle: u64)
    requires
        model_wf(m),
        m.next_session_id < u64::MAX,
    ensures
        ({
            let (m1, r) = attach_model(m, true, device_id, pid, Ok(handle));
            &&& r == Ok::<u64, ErrorView>(m.next_session_id)
            &&& detach_model(m1, m.next_session_id).0.sessions == m.sessions
            &&& detach_model(m1, m.next_session_id).0.sessions.len() == m.sessions.len()
        }),
{
    let (m1, r) = attach_model(m, true, device_id, pid, Ok(handle));
    let id = m.next_session_id;
    assert(!m.sessions.contains_key(id));
    assert(detach_model(m1, id).0.sessions =~= m.sessions);
}

/// Two loads into one session leave one live script, the second, whose identifier differs from
/// the first's; no session holds the first script any more.
pub proof fn lemma_load_twice(m: TableModel, id: u64, first: u64, second: u64)
    requires
        model_wf(m),
        m.sessions.contains_key(id),
        m.next_script_id < u64::MAX - 1,
    ensures
        ({
            let (m1, r1) = load_model(m, id, Ok(first));
            let (m2, r2) = load_model(m1, id, Ok(second));
            &&& r1 matches Ok(a)
            &&& r2 matches Ok(b)
            &&& a != b
            &&& m2.sessions[id].script == Some(Script { id: b, handle: second })
            &&& forall|k: u64| #[trigger] m2.sessions.contains_key(k) && m2.sessions[k].script is Some
                ==> m2.sessions[k].script->0.id != a
        }),
{
    let (m1, r1) = load_model(m, id, Ok(first));
    let (m2, r2) = load_model(m1, id, Ok(second));
    let a = m.next_script_id;
    assert forall|k: u64| #[trigger] m2.sessions.contains_key(k) && m2.sessions[k].script is Some
        implies m2.sessions[k].script->0.id != a by {
        if k != id {
            assert(m.sessions.contains_key(k));
            assert(m2.sessions[k] == m.sessions[k]);
        }
    }
}

/// Unloading the script of a session that has none succeeds, gives nothing back, and leaves the
/// table as it was.
pub proof fn lemma_unload_without_script(m: TableModel, id: u64)
    requires
        m.sessions.contains_key(id),
        m.sessions[id].script is None,
    ensures
        unload_model(m, id) == (m, Ok::<Option<Script>, ErrorView>(None)),
{
    assert(unload_model(m, id).0.sessions =~= m.sessions);
}

/// Of two detaches of one live session, the first hands out the session, and with it its native
/// handles, and the second is refused with `SessionNotFound` and changes nothing.
pub proof fn lemma_detach_twice(m: TableModel, id: u64)
    requires
        m.sessions.contains_key(id),
    ensures
        ({
            let (m1, r1) = detach_model(m, id);
            let (m2, r2) = detach_model(m1, id);
            &&& r1 == Ok::<crate::session::Session, ErrorView>(m.sessions[id])
            &&& r2 == Err::<crate::session::Session, ErrorView>(ErrorView::SessionNotFound(id))
            &&& m2 == m1
            &&& !m1.sessions.contains_key(id)
        }),
{
}

} // verus!
