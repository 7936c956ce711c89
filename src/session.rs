use vstd::prelude::*;

use std::collections::HashMap;

use crate::error::{result_view, ErrorView, FridaError};
use crate::native::{failure_of, native_failure, unit_outcome, NativeError, NativeOp};
use crate::registry::{device_known, resolve_device, Device};

verus! {

broadcast use vstd::std_specs::hash::group_hash_axioms;

/// A script loaded into a session: the service's identifier and the runtime's handle.
#[derive(Debug, Clone, Copy)]
pub struct Script {
    pub id: u64,
    pub handle: u64,
}

/// A live attachment to a process of a device.
#[derive(Debug)]
pub struct Session {
    pub id: u64,
    pub device_id: String,
    pub pid: u32,
    pub handle: u64,
    pub script: Option<Script>,
}

/// Where a session stands: attached, or attached with a live script.
#[derive(Debug)]
pub enum SessionState {
    Attached,
    ScriptLoaded,
}

/// What a spawn gave: the new process, and the runtime's session handle where it attached too.
#[derive(Debug)]
pub struct Spawned {
    pub pid: u32,
    pub session: Option<u64>,
}

/// The session table as a value: the live sessions by identifier and the next free identifiers.
pub struct TableModel {
    pub sessions: Map<u64, Session>,
    pub next_session_id: u64,
    pub next_script_id: u64,
}

/// Message of the internal error when no session or script identifier is left.
pub open spec fn exhausted_message() -> Seq<char> {
    "identifiers exhausted"@
}

/// Every session is filed under its own identifier, every identifier in use is below the next
/// free one, and no two live scripts share an identifier.
pub open spec fn model_wf(m: TableModel) -> bool {
    &&& m.sessions.dom().finite()
    &&& m.next_session_id >= 1
    &&& m.next_script_id >= 1
    &&& forall|k: u64| #[trigger] m.sessions.contains_key(k) ==> m.sessions[k].id == k && 1 <= k < m.next_session_id
    &&& forall|k: u64| #[trigger] m.sessions.contains_key(k) && m.sessions[k].script is Some ==> 1 <= m.sessions[k].script->0.id < m.next_script_id
    &&& forall|k1: u64, k2: u64|
        #[trigger] m.sessions.contains_key(k1) && #[trigger] m.sessions.contains_key(k2) && k1 != k2
            && m.sessions[k1].script is Some && m.sessions[k2].script is Some
            ==> m.sessions[k1].script->0.id != m.sessions[k2].script->0.id
}

/// The table with a new session for `device_id`, `pid` and the native handle `h`.
pub open spec fn insert_model(m: TableModel, device_id: String, pid: u32, h: u64) -> TableModel {
    TableModel {
        sessions: m.sessions.insert(
            m.next_session_id,
            Session { id: m.next_session_id, device_id, pid, handle: h, script: None },
        ),
        next_session_id: (m.next_session_id + 1) as u64,
        next_script_id: m.next_script_id,
    }
}

/// The table with the script of session `id` set to `script`.
pub open spec fn with_script(m: TableModel, id: u64, script: Option<Script>) -> TableModel {
    let s = m.sessions[id];
    TableModel {
        sessions: m.sessions.insert(id, Session { script, ..s }),
        next_session_id: m.next_session_id,
        next_script_id: m.next_script_id,
    }
}

/// `attach`: the new table and the result.
pub open spec fn attach_model(
    m: TableModel,
    known: bool,
    device_id: String,
    pid: u32,
    outcome: Result<u64, NativeError>,
) -> (TableModel, Result<u64, ErrorView>) {
    if !known {
        (m, Err(ErrorView::DeviceNotFound(device_id@)))
    } else {
        match outcome {
            Err(e) => (m, Err(failure_of(NativeOp::Attach, e))),
            Ok(h) => if m.next_session_id == u64::MAX {
                (m, Err(ErrorView::Internal(exhausted_message())))
            } else {
                (insert_model(m, device_id, pid, h), Ok(m.next_session_id))
            },
        }
    }
}

/// `spawn`: the new table and the result.
pub open spec fn spawn_model(
    m: TableModel,
    known: bool,
    device_id: String,
    outcome: Result<Spawned, NativeError>,
) -> (TableModel, Result<(u32, Option<u64>), ErrorView>) {
    if !known {
        (m, Err(ErrorView::DeviceNotFound(device_id@)))
    } else {
        match outcome {
            Err(e) => (m, Err(failure_of(NativeOp::Spawn, e))),
            Ok(sp) => match sp.session {
                None => (m, Ok((sp.pid, None))),
                Some(h) => if m.next_session_id == u64::MAX {
                    (m, Err(ErrorView::Internal(exhausted_message())))
                } else {
                    (insert_model(m, device_id, sp.pid, h), Ok((sp.pid, Some(m.next_session_id))))
                },
            },
        }
    }
}

/// `detach`: the new table and the result, the removed session on success.
pub open spec fn detach_model(m: TableModel, id: u64) -> (TableModel, Result<Session, ErrorView>) {
    if m.sessions.contains_key(id) {
        (
            TableModel {
                sessions: m.sessions.remove(id),
                next_session_id: m.next_session_id,
                next_script_id: m.next_script_id,
            },
            Ok(m.sessions[id]),
        )
    } else {
        (m, Err(ErrorView::SessionNotFound(id)))
    }
}

/// `load_script`: the new table and the result. The session's earlier script is gone
/// whatever the load gave.
pub open spec fn load_model(m: TableModel, id: u64, outcome: Result<u64, NativeError>) -> (TableModel, Result<u64, ErrorView>) {
    if !m.sessions.contains_key(id) {
        (m, Err(ErrorView::SessionNotFound(id)))
    } else {
        match outcome {
            Err(e) => (with_script(m, id, None), Err(failure_of(NativeOp::LoadScript, e))),
            Ok(h) => if m.next_script_id == u64::MAX {
                (with_script(m, id, None), Err(ErrorView::Internal(exhausted_message())))
            } else {
                let loaded = with_script(m, id, Some(Script { id: m.next_script_id, handle: h }));
                (
                    TableModel { next_script_id: (m.next_script_id + 1) as u64, ..loaded },
                    Ok(m.next_script_id),
                )
            },
        }
    }
}

/// `unload_script`: the new table and the result, the script that was removed if there was one.
pub open spec fn unload_model(m: TableModel, id: u64) -> (TableModel, Result<Option<Script>, ErrorView>) {
    if !m.sessions.contains_key(id) {
        (m, Err(ErrorView::SessionNotFound(id)))
    } else {
        (with_script(m, id, None), Ok(m.sessions[id].script))
    }
}

/// The script that a message to session `id` goes to.
pub open spec fn post_target_model(m: TableModel, id: u64) -> Result<Script, ErrorView> {
    if !m.sessions.contains_key(id) {
        Err(ErrorView::SessionNotFound(id))
    } else {
        match m.sessions[id].script {
            None => Err(ErrorView::ScriptNotFound(id)),
            Some(s) => Ok(s),
        }
    }
}

/// `post_message`: the result. The table does not change.
pub open spec fn post_model(m: TableModel, id: u64, outcome: Result<(), NativeError>) -> Result<(), ErrorView> {
    match post_target_model(m, id) {
        Err(e) => Err(e),
        Ok(_) => unit_outcome(NativeOp::Post, outcome),
    }
}

/// The registry of live sessions. It owns the native handles of its sessions and scripts, and
/// hands each out once, when the session or script leaves it.
pub struct SessionTable {
    sessions: HashMap<u64, Session>,
    next_session_id: u64,
    next_script_id: u64,
}

impl View for SessionTable {
    type V = TableModel;

    closed spec fn view(&self) -> TableModel {
        TableModel {
            sessions: self.sessions@,
            next_session_id: self.next_session_id,
            next_script_id: self.next_script_id,
        }
    }
}

impl SessionTable {
    /// The table's invariant.
    pub open spec fn wf(&self) -> bool {
        model_wf(self@)
    }

    /// An empty table; the first session and the first script get identifier 1.
    pub fn new() -> (r: SessionTable)
        ensures
            r.wf(),
            r@.sessions == Map::<u64, Session>::empty(),
            r@.next_session_id == 1,
            r@.next_script_id == 1,
    {
        SessionTable { sessions: HashMap::new(), next_session_id: 1, next_script_id: 1 }
    }

    /// The number of live sessions.
    pub fn len(&self) -> (r: usize)
        requires
            self.wf(),
        ensures
            r == self@.sessions.len(),
    {
        self.sessions.len()
    }

    /// Whether session `id` is live.
    pub fn contains(&self, id: u64) -> (r: bool)
        ensures
            r == self@.sessions.contains_key(id),
    {
        self.sessions.contains_key(&id)
    }

    /// The live session `id`, if there is one.
    pub fn get(&self, id: u64) -> (r: Option<&Session>)
        ensures
            r matches Some(s) ==> self@.sessions.contains_key(id) && *s == self@.sessions[id],
            r is None ==> !self@.sessions.contains_key(id),
    {
        self.sessions.get(&id)
    }

    /// Where session `id` stands, if it is live.
    pub fn state(&self, id: u64) -> (r: Option<SessionState>)
        ensures
            !self@.sessions.contains_key(id) ==> r is None,
            self@.sessions.contains_key(id) && self@.sessions[id].script is None ==> r == Some(SessionState::Attached),
            self@.sessions.contains_key(id) && self@.sessions[id].script is Some ==> r == Some(SessionState::ScriptLoaded),
    {
        match self.sessions.get(&id) {
            None => None,
            Some(s) => match s.script {
                None => Some(SessionState::Attached),
                Some(_) => Some(SessionState::ScriptLoaded),
            },
        }
    }

    /// Files a new session under the next free identifier.
    fn insert_session(&mut self, device_id: String, pid: u32, handle: u64) -> (r: Result<u64, FridaError>)
        requires
            old(self).wf(),
        ensures
            final(self).wf(),
            old(self)@.next_session_id == u64::MAX ==> final(self)@ == old(self)@
                && result_view(r) == Err::<u64, ErrorView>(ErrorView::Internal(exhausted_message())),
            old(self)@.next_session_id < u64::MAX ==> final(self)@ == insert_model(old(self)@, device_id, pid, handle)
                && r == Ok::<u64, FridaError>(old(self)@.next_session_id),
    {
        if self.next_session_id == u64::MAX {
            return Err(FridaError::Internal(String::from_str("identifiers exhausted")));
        }
        let id = self.next_session_id;
        let session = Session { id, device_id, pid, handle, script: None };
        self.sessions.insert(id, session);
        self.next_session_id = id + 1;
        Ok(id)
    }

    /// Sets the script of the live session `id`, and gives back the one it replaces.
    fn set_script(&mut self, id: u64, script: Option<Script>) -> (r: Option<Script>)
        requires
            old(self).wf(),
            old(self)@.sessions.contains_key(id),
            script matches Some(sc) ==> 1 <= sc.id < old(self)@.next_script_id
                && forall|k: u64| #[trigger] old(self)@.sessions.contains_key(k) && k != id
                    && old(self)@.sessions[k].script is Some ==> old(self)@.sessions[k].script->0.id != sc.id,
        ensures
            final(self).wf(),
            final(self)@ == with_script(old(self)@, id, script),
            r == old(self)@.sessions[id].script,
    {
        let old_session = self.sessions.remove(&id);
        match old_session {
            Some(s) => {
                let Session { id: sid, device_id, pid, handle, script: previous } = s;
                self.sessions.insert(id, Session { id: sid, device_id, pid, handle, script });
                proof {
                    assert(self@.sessions =~= with_script(old(self)@, id, script).sessions);
                }
                previous
            },
            None => None,
        }
    }

    /// Attaches to process `pid` of device `device_id`. `outcome` is the runtime's answer to the
    /// attach, made once the device was resolved. On success the session gets a fresh identifier.
    pub fn attach(
        &mut self,
        devices: &Vec<Device>,
        device_id: &String,
        pid: u32,
        outcome: Result<u64, NativeError>,
    ) -> (r: Result<u64, FridaError>)
        requires
            old(self).wf(),
        ensures
            final(self).wf(),
            (final(self)@, result_view(r)) == attach_model(old(self)@, device_known(devices@, device_id@), *device_id, pid, outcome),
    {
        let _ = resolve_device(devices, device_id)?;
        match outcome {
            Err(e) => Err(native_failure(NativeOp::Attach, e)),
            Ok(h) => self.insert_session(device_id.clone(), pid, h),
        }
    }

    /// Spawns a suspended program on device `device_id`. `outcome` is the runtime's answer; where
    /// it attached to the new process too, the session is filed in the same step.
    pub fn spawn(&mut self, devices: &Vec<Device>, device_id: &String, outcome: Result<Spawned, NativeError>) -> (r:
        Result<(u32, Option<u64>), FridaError>)
        requires
            old(self).wf(),
        ensures
            final(self).wf(),
            (final(self)@, result_view(r)) == spawn_model(old(self)@, device_known(devices@, device_id@), *device_id, outcome),
    {
        let _ = resolve_device(devices, device_id)?;
        match outcome {
            Err(e) => Err(native_failure(NativeOp::Spawn, e)),
            Ok(sp) => match sp.session {
                None => Ok((sp.pid, None)),
                Some(h) => {
                    let id = self.insert_session(device_id.clone(), sp.pid, h)?;
                    Ok((sp.pid, Some(id)))
                },
            },
        }
    }

    /// Removes session `id` and hands back its entry, whose native handles the caller then
    /// releases: first the script's, if any, then the session's.
    pub fn detach(&mut self, id: u64) -> (r: Result<Session, FridaError>)
        requires
            old(self).wf(),
        ensures
            final(self).wf(),
            (final(self)@, result_view(r)) == detach_model(old(self)@, id),
    {
        match self.sessions.remove(&id) {
            Some(s) => {
                proof {
                    assert(self@.sessions =~= old(self)@.sessions.remove(id));
                }
                Ok(s)
            },
            None => {
                proof {
                    assert(self@.sessions =~= old(self)@.sessions);
                }
                Err(FridaError::SessionNotFound(id))
            },
        }
    }

    /// Takes the script out of session `id`, which goes back to `Attached`, and hands the script
    /// back for release. A session without a script is left as it is.
    pub fn unload_script(&mut self, id: u64) -> (r: Result<Option<Script>, FridaError>)
        requires
            old(self).wf(),
        ensures
            final(self).wf(),
            (final(self)@, result_view(r)) == unload_model(old(self)@, id),
    {
        if !self.sessions.contains_key(&id) {
            return Err(FridaError::SessionNotFound(id));
        }
        let previous = self.set_script(id, None);
        Ok(previous)
    }

    /// Files the script that the runtime loaded into session `id` (`outcome`), in place of any
    /// script the session held, under a fresh identifier.
    pub fn load_script(&mut self, id: u64, outcome: Result<u64, NativeError>) -> (r: Result<u64, FridaError>)
        requires
            old(self).wf(),
        ensures
            final(self).wf(),
            (final(self)@, result_view(r)) == load_model(old(self)@, id, outcome),
    {
        if !self.sessions.contains_key(&id) {
            return Err(FridaError::SessionNotFound(id));
        }
        match outcome {
            Err(e) => {
                let _ = self.set_script(id, None);
                Err(native_failure(NativeOp::LoadScript, e))
            },
            Ok(h) => {
                if self.next_script_id == u64::MAX {
                    let _ = self.set_script(id, None);
                    return Err(FridaError::Internal(String::from_str("identifiers exhausted")));
                }
                let script_id = self.next_script_id;
                proof {
                    assert forall|k: u64| #[trigger] self@.sessions.contains_key(k) && k != id
                        && self@.sessions[k].script is Some implies self@.sessions[k].script->0.id != script_id by {
                        assert(self@.sessions[k].script->0.id < self@.next_script_id);
                    }
                }
                self.next_script_id = script_id + 1;
                let _ = self.set_script(id, Some(Script { id: script_id, handle: h }));
                Ok(script_id)
            },
        }
    }

    /// The script that a message to session `id` is posted to.
    pub fn post_target(&self, id: u64) -> (r: Result<&Script, FridaError>)
        ensures
            match post_target_model(self@, id) {
                Ok(s) => r matches Ok(t) && *t == s,
                Err(e) => r matches Err(f) && f@ == e,
            },
    {
        match self.sessions.get(&id) {
            None => Err(FridaError::SessionNotFound(id)),
            Some(s) => match &s.script {
                None => Err(FridaError::ScriptNotFound(id)),
                Some(sc) => Ok(sc),
            },
        }
    }

    /// The result of posting a message to session `id`: an error where it has no script, else
    /// the runtime's answer to the post (`outcome`).
    pub fn post_message(&self, id: u64, outcome: Result<(), NativeError>) -> (r: Result<(), FridaError>)
        ensures
            result_view(r) == post_model(self@, id, outcome),
    {
        let _ = self.post_target(id)?;
        match outcome {
            Ok(()) => Ok(()),
            Err(e) => Err(native_failure(NativeOp::Post, e)),
        }
    }
}

} // verus!
