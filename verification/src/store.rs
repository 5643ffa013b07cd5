//! The session store: one session per conversation identifier, created
//! lazily on the first event for an unseen identifier and kept for the
//! process lifetime. The caller serializes access (one lock around the
//! store); the operations here are short and perform no I/O.

use vstd::prelude::*;
use crate::message::{ChatMessage, MessageView};
use crate::session::{Batch, NameOutcome, Session, SessionView};

verus! {

broadcast use vstd::std_specs::hash::group_hash_axioms;

/// The text a message contributes when a name reply is expected: its text,
/// or empty when it has none.
pub open spec fn content_text(m: MessageView) -> Seq<u8> {
    match m.text {
        Some(t) => t,
        None => Seq::empty(),
    }
}

/// What became of one piece of regular content.
pub enum ContentOutcome {
    /// Buffered into the collecting session.
    Buffered,
    /// Treated as a name reply, with the reply's outcome.
    Name(NameOutcome),
    /// Neither mode active: ignored.
    Ignored,
}

/// All sessions, keyed by conversation identifier.
pub struct SessionStore {
    pub sessions: std::collections::HashMap<i64, Session>,
}

impl SessionStore {
    /// The state of one conversation: its stored session, or the initial
    /// state for a conversation never seen.
    pub open spec fn session(&self, id: i64) -> SessionView {
        if self.sessions@.contains_key(id) {
            self.sessions@[id]@
        } else {
            SessionView::initial()
        }
    }

    /// An empty store: every conversation is in the initial state.
    pub fn new() -> (s: SessionStore)
        ensures
            forall|id: i64| s.session(id) == SessionView::initial(),
    {
        SessionStore { sessions: std::collections::HashMap::new() }
    }

    /// Removes and returns the session of `id`, materializing a fresh one
    /// for a conversation seen for the first time.
    fn take_session(&mut self, id: i64) -> (s: Session)
        ensures
            s@ == old(self).session(id),
            !final(self).sessions@.contains_key(id),
            forall|j: i64| j != id ==> final(self).session(j) == old(self).session(j),
    {
        match self.sessions.remove(&id) {
            Some(s) => s,
            None => Session::new(),
        }
    }

    /// Puts a session back under `id`.
    fn put_session(&mut self, id: i64, s: Session)
        ensures
            final(self).session(id) == s@,
            forall|j: i64| j != id ==> final(self).session(j) == old(self).session(j),
    {
        self.sessions.insert(id, s);
    }

    /// Is the session of `id` collecting?
    pub fn is_collecting(&self, id: i64) -> (r: bool)
        ensures
            r == self.session(id).collecting,
    {
        match self.sessions.get(&id) {
            Some(s) => s.collecting,
            None => false,
        }
    }

    /// Is the session of `id` awaiting an archive base name?
    pub fn is_awaiting_name(&self, id: i64) -> (r: bool)
        ensures
            r == self.session(id).awaiting_name,
    {
        match self.sessions.get(&id) {
            Some(s) => s.awaiting_name,
            None => false,
        }
    }

    /// Start signal for `id`: its session enters collecting mode with a
    /// cleared buffer; no other conversation is touched.
    pub fn start_collecting(&mut self, id: i64)
        ensures
            final(self).session(id) == old(self).session(id).started(),
            forall|j: i64| j != id ==> final(self).session(j) == old(self).session(j),
    {
        let mut s = self.take_session(id);
        s.start_collecting();
        self.put_session(id, s);
    }

    /// Appends one inbound message to the buffer of `id`, only while that
    /// session is collecting.
    pub fn append_if_collecting(&mut self, id: i64, m: ChatMessage)
        ensures
            final(self).session(id) == old(self).session(id).appended(m@),
            forall|j: i64| j != id ==> final(self).session(j) == old(self).session(j),
    {
        let mut s = self.take_session(id);
        s.append_if_collecting(m);
        self.put_session(id, s);
    }

    /// Stop signal for `id`: drains the buffer and the pending name into
    /// the returned batch in one step, so nothing appended afterwards can
    /// reach this batch; `None` (and no state change) while not collecting.
    pub fn stop(&mut self, id: i64) -> (r: Option<Batch>)
        ensures
            final(self).session(id) == old(self).session(id).stopped(),
            forall|j: i64| j != id ==> final(self).session(j) == old(self).session(j),
            match r {
                Some(b) => old(self).session(id).stop_batch() == Some(b@),
                None => old(self).session(id).stop_batch() is None,
            },
    {
        let mut s = self.take_session(id);
        let r = s.stop();
        self.put_session(id, s);
        r
    }

    /// Filename-set signal for `id`: that session starts awaiting a name.
    pub fn request_name(&mut self, id: i64)
        ensures
            final(self).session(id) == old(self).session(id).name_requested(),
            forall|j: i64| j != id ==> final(self).session(j) == old(self).session(j),
    {
        let mut s = self.take_session(id);
        s.request_name();
        self.put_session(id, s);
    }

    /// What became of one piece of regular (non-command) content.
    /// While collecting, the whole message is buffered; otherwise, while a
    /// name is awaited, its text is treated as the name reply; with neither
    /// mode active it is silently ignored — not an error.
    pub fn handle_content(&mut self, id: i64, m: ChatMessage) -> (r: ContentOutcome)
        ensures
            forall|j: i64| j != id ==> final(self).session(j) == old(self).session(j),
            old(self).session(id).collecting ==> {
                &&& r is Buffered
                &&& final(self).session(id) == old(self).session(id).appended(m@)
            },
            !old(self).session(id).collecting && old(self).session(id).awaiting_name ==> {
                &&& r matches ContentOutcome::Name(o) && (o is Rejected <==> crate::session::is_blank(
                    content_text(m@),
                ))
                &&& final(self).session(id) == old(self).session(id).name_received(
                    content_text(m@),
                )
            },
            !old(self).session(id).collecting && !old(self).session(id).awaiting_name ==> {
                &&& r is Ignored
                &&& final(self).session(id) == old(self).session(id)
            },
    {
        if self.is_collecting(id) {
            self.append_if_collecting(id, m);
            ContentOutcome::Buffered
        } else if self.is_awaiting_name(id) {
            let text = match m.text {
                Some(t) => t,
                None => Vec::new(),
            };
            proof {
                assert(text@ =~= content_text(m@));
            }
            ContentOutcome::Name(self.receive_name(id, text))
        } else {
            ContentOutcome::Ignored
        }
    }

    /// Text reply for `id` while a name may be pending.
    pub fn receive_name(&mut self, id: i64, text: Vec<u8>) -> (r: NameOutcome)
        ensures
            final(self).session(id) == old(self).session(id).name_received(text@),
            forall|j: i64| j != id ==> final(self).session(j) == old(self).session(j),
            r is NotAwaiting <==> !old(self).session(id).awaiting_name,
            r is Rejected <==> old(self).session(id).awaiting_name && crate::session::is_blank(
                text@,
            ),
            r is Accepted <==> old(self).session(id).awaiting_name && !crate::session::is_blank(
                text@,
            ),
    {
        let mut s = self.take_session(id);
        let r = s.receive_name(text);
        self.put_session(id, s);
        r
    }
}

} // verus!
