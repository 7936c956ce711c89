use vstd::prelude::*;

use std::collections::VecDeque;

use crate::session::SessionTable;

verus! {

/// What a script emitted.
#[derive(Debug)]
pub enum MessageKind {
    Event,
    RpcReply,
    Log,
}

/// A message of a script, tagged with the session and the script it came from.
#[derive(Debug)]
pub struct Envelope {
    pub session_id: u64,
    pub script_id: u64,
    pub kind: MessageKind,
    pub payload: String,
}

/// Whether a message from script `script_id` of session `session_id` comes from a live script.
pub open spec fn from_live_script(table: crate::session::TableModel, session_id: u64, script_id: u64) -> bool {
    &&& table.sessions.contains_key(session_id)
    &&& table.sessions[session_id].script matches Some(s)
    &&& s.id == script_id
}

/// Tags a message that the runtime delivered for script `script_id` of session `session_id`.
/// A message of a script that has since been unloaded or replaced, or of a detached session,
/// is dropped.
pub fn tag_message(
    table: &SessionTable,
    session_id: u64,
    script_id: u64,
    kind: MessageKind,
    payload: String,
) -> (r: Option<Envelope>)
    ensures
        r is Some <==> from_live_script(table@, session_id, script_id),
        r matches Some(env) ==> env == (Envelope { session_id, script_id, kind, payload }),
{
    match table.get(session_id) {
        Some(s) => match &s.script {
            Some(sc) => {
                if sc.id == script_id {
                    Some(Envelope { session_id, script_id, kind, payload })
                } else {
                    None
                }
            },
            None => None,
        },
        None => None,
    }
}

/// A bounded first-in first-out queue between the runtime's callbacks, which push, and the
/// consumer that delivers notifications, which pops.
pub struct MessageQueue {
    items: VecDeque<Envelope>,
    capacity: usize,
}

impl View for MessageQueue {
    type V = Seq<Envelope>;

    closed spec fn view(&self) -> Seq<Envelope> {
        self.items@
    }
}

impl MessageQueue {
    /// The most messages the queue holds at once.
    pub closed spec fn bound(&self) -> nat {
        self.capacity as nat
    }

    /// The queue never holds more than its bound.
    pub open spec fn wf(&self) -> bool {
        self@.len() <= self.bound()
    }

    /// An empty queue that holds at most `capacity` messages.
    pub fn new(capacity: usize) -> (r: MessageQueue)
        ensures
            r.wf(),
            r@ == Seq::<Envelope>::empty(),
            r.bound() == capacity,
    {
        MessageQueue { items: VecDeque::new(), capacity }
    }

    /// The number of messages waiting.
    pub fn len(&self) -> (r: usize)
        ensures
            r == self@.len(),
    {
        self.items.len()
    }

    /// Appends `env` behind the waiting messages; where the queue is full it is left as it is
    /// and `false` comes back.
    pub fn push(&mut self, env: Envelope) -> (r: bool)
        requires
            old(self).wf(),
        ensures
            final(self).wf(),
            final(self).bound() == old(self).bound(),
            r == (old(self)@.len() < old(self).bound()),
            r ==> final(self)@ == old(self)@.push(env),
            !r ==> final(self)@ == old(self)@,
    {
        if self.items.len() < self.capacity {
            self.items.push_back(env);
            true
        } else {
            false
        }
    }

    /// Takes the oldest waiting message.
    pub fn pop(&mut self) -> (r: Option<Envelope>)
        requires
            old(self).wf(),
        ensures
            final(self).wf(),
            final(self).bound() == old(self).bound(),
            old(self)@.len() == 0 ==> r is None && final(self)@ == old(self)@,
            old(self)@.len() > 0 ==> r == Some(old(self)@[0]) && final(self)@ == old(self)@.drop_first(),
    {
        self.items.pop_front()
    }
}

} // verus!
