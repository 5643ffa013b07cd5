//! Per-conversation session state: a collecting flag, an
//! awaiting-file-name flag (orthogonal to collecting), the buffer of
//! messages received while collecting, and the optional user-chosen
//! archive base name. The stored name is consumed by the stop that uses
//! it (one-shot policy), mirroring the take-on-stop behaviour.

use vstd::prelude::*;
use crate::message::{ChatMessage, MessageView};

verus! {

/// Mathematical image of a `Session`.
#[verifier::ext_equal]
pub struct SessionView {
    pub collecting: bool,
    pub awaiting_name: bool,
    pub messages: Seq<MessageView>,
    pub archive_name: Option<Seq<u8>>,
}

/// Mathematical image of a `Batch`.
#[verifier::ext_equal]
pub struct BatchView {
    pub messages: Seq<MessageView>,
    pub archive_name: Option<Seq<u8>>,
}

impl SessionView {
    /// The state a conversation is in before any event reached it.
    pub open spec fn initial() -> SessionView {
        SessionView {
            collecting: false,
            awaiting_name: false,
            messages: Seq::empty(),
            archive_name: None,
        }
    }

    /// Effect of a start signal: collecting begins and the buffer is
    /// cleared unconditionally, discarding any unfinished batch.
    pub open spec fn started(self) -> SessionView {
        SessionView { collecting: true, messages: Seq::empty(), ..self }
    }

    /// Effect of appending one message: buffered only while collecting,
    /// discarded otherwise.
    pub open spec fn appended(self, m: MessageView) -> SessionView {
        if self.collecting {
            SessionView { messages: self.messages.push(m), ..self }
        } else {
            self
        }
    }

    /// The batch a stop signal hands off: the whole buffer and the pending
    /// name, or nothing when the session is not collecting.
    pub open spec fn stop_batch(self) -> Option<BatchView> {
        if self.collecting {
            Some(BatchView { messages: self.messages, archive_name: self.archive_name })
        } else {
            None
        }
    }

    /// Effect of a stop signal on the session itself: collecting ends, the
    /// buffer is drained and the pending name is consumed; a stop while not
    /// collecting changes nothing.
    pub open spec fn stopped(self) -> SessionView {
        if self.collecting {
            SessionView {
                collecting: false,
                messages: Seq::empty(),
                archive_name: None,
                ..self
            }
        } else {
            self
        }
    }

    /// Effect of a filename-set signal: the session starts awaiting a name.
    pub open spec fn name_requested(self) -> SessionView {
        SessionView { awaiting_name: true, ..self }
    }

    /// Effect of a text reply while a name may be pending: ignored unless
    /// awaiting one; rejected without any state change when blank;
    /// otherwise stored, and the awaiting flag drops.
    pub open spec fn name_received(self, text: Seq<u8>) -> SessionView {
        if !self.awaiting_name {
            self
        } else if is_blank(text) {
            self
        } else {
            SessionView { awaiting_name: false, archive_name: Some(text), ..self }
        }
    }
}

/// Folding a sequence of appends into a session, oldest message first.
pub open spec fn appended_all(s: SessionView, ms: Seq<MessageView>) -> SessionView
    decreases ms.len(),
{
    if ms.len() == 0 {
        s
    } else {
        appended_all(s, ms.drop_last()).appended(ms.last())
    }
}

/// A stop immediately after a start with nothing appended hands off a
/// batch with zero messages — the no-content case, never an absent batch
/// or a crash.
pub proof fn lemma_stop_right_after_start_is_no_content(s: SessionView)
    ensures
        s.started().stop_batch() matches Some(b) && b.messages.len() == 0,
{
}

/// Any sequence of appends while idle changes nothing: messages before a
/// start are discarded and the buffer stays empty.
pub proof fn lemma_appends_while_idle_discarded(s: SessionView, ms: Seq<MessageView>)
    requires
        !s.collecting,
    ensures
        appended_all(s, ms) == s,
    decreases ms.len(),
{
    if ms.len() > 0 {
        lemma_appends_while_idle_discarded(s, ms.drop_last());
    }
}

/// A start is idempotent-safe: starting twice equals starting once, and
/// either way the buffer is reset to length zero, the prior messages
/// unrecoverable from the session.
pub proof fn lemma_start_idempotent(s: SessionView)
    ensures
        s.started().started() == s.started(),
        s.started().messages.len() == 0,
{
    assert(s.started().started() =~= s.started());
}

/// A stop followed back-to-back by a start and an append never leaks the
/// later message into the batch the stop handed off: the batch holds
/// exactly the buffer as it was at the stop, and the append lands in the
/// fresh buffer alone.
pub proof fn lemma_stop_start_append_isolated(s: SessionView, m: MessageView)
    requires
        s.collecting,
    ensures
        s.stop_batch() matches Some(b) && b.messages == s.messages,
        s.stopped().started().appended(m).messages =~= seq![m],
{
}

/// A byte that counts as whitespace when deciding whether a proposed file
/// name is empty.
pub open spec fn is_space(b: u8) -> bool {
    b == 32 || b == 9 || b == 10 || b == 13
}

/// A text is blank when nothing but whitespace remains after trimming.
pub open spec fn is_blank(text: Seq<u8>) -> bool {
    forall|i: int| 0 <= i < text.len() ==> is_space(#[trigger] text[i])
}

/// Checks whether a proposed file name is blank (empty after trimming).
pub fn check_blank(text: &Vec<u8>) -> (r: bool)
    ensures
        r == is_blank(text@),
{
    let mut i: usize = 0;
    while i < text.len()
        invariant
            0 <= i <= text.len(),
            forall|j: int| 0 <= j < i ==> is_space(#[trigger] text@[j]),
        decreases text.len() - i,
    {
        let b = text[i];
        if !(b == 32 || b == 9 || b == 10 || b == 13) {
            return false;
        }
        i = i + 1;
    }
    true
}

/// One conversation's state.
pub struct Session {
    pub collecting: bool,
    pub awaiting_name: bool,
    pub messages: Vec<ChatMessage>,
    pub archive_name: Option<Vec<u8>>,
}

impl View for Session {
    type V = SessionView;

    open spec fn view(&self) -> SessionView {
        SessionView {
            collecting: self.collecting,
            awaiting_name: self.awaiting_name,
            messages: self.messages@.map_values(|m: ChatMessage| m@),
            archive_name: match self.archive_name {
                Some(n) => Some(n@),
                None => None,
            },
        }
    }
}

/// The immutable snapshot a stop signal hands to the archive pipeline:
/// the drained buffer plus the consumed archive name.
pub struct Batch {
    pub messages: Vec<ChatMessage>,
    pub archive_name: Option<Vec<u8>>,
}

impl View for Batch {
    type V = BatchView;

    open spec fn view(&self) -> BatchView {
        BatchView {
            messages: self.messages@.map_values(|m: ChatMessage| m@),
            archive_name: match self.archive_name {
                Some(n) => Some(n@),
                None => None,
            },
        }
    }
}

/// Outcome of handing a text reply to a session, mirrored to the user.
pub enum NameOutcome {
    /// The session was not awaiting a name; the reply is ignored.
    NotAwaiting,
    /// The proposed name was blank; rejected, nothing changed.
    Rejected,
    /// The name was stored.
    Accepted,
}

impl Session {
    /// A fresh session: idle, empty buffer, no name.
    pub fn new() -> (s: Session)
        ensures
            s@ == SessionView::initial(),
    {
        let s = Session {
            collecting: false,
            awaiting_name: false,
            messages: Vec::new(),
            archive_name: None,
        };
        proof {
            assert(s@ =~= SessionView::initial());
        }
        s
    }

    /// Start signal: enter collecting mode and clear the buffer, whatever
    /// was in it.
    pub fn start_collecting(&mut self)
        ensures
            final(self)@ == old(self)@.started(),
    {
        self.collecting = true;
        self.messages = Vec::new();
        proof {
            assert(self@ =~= old(self)@.started());
        }
    }

    /// Append one inbound message; kept only while collecting.
    pub fn append_if_collecting(&mut self, m: ChatMessage)
        ensures
            final(self)@ == old(self)@.appended(m@),
    {
        if self.collecting {
            let ghost before = self@;
            self.messages.push(m);
            proof {
                assert(self@.messages =~= before.messages.push(m@));
                assert(self@ =~= old(self)@.appended(m@));
            }
        }
    }

    /// Stop signal: while collecting, atomically drain the buffer and
    /// consume the pending name into the returned batch; otherwise report
    /// `None` and change nothing.
    pub fn stop(&mut self) -> (r: Option<Batch>)
        ensures
            final(self)@ == old(self)@.stopped(),
            match r {
                Some(b) => old(self)@.stop_batch() == Some(b@),
                None => old(self)@.stop_batch() is None,
            },
    {
        if self.collecting {
            self.collecting = false;
            let mut msgs: Vec<ChatMessage> = Vec::new();
            core::mem::swap(&mut msgs, &mut self.messages);
            let mut name: Option<Vec<u8>> = None;
            core::mem::swap(&mut name, &mut self.archive_name);
            let b = Batch { messages: msgs, archive_name: name };
            proof {
                assert(self@ =~= old(self)@.stopped());
                assert(b@ =~= BatchView {
                    messages: old(self)@.messages,
                    archive_name: old(self)@.archive_name,
                });
            }
            Some(b)
        } else {
            None
        }
    }

    /// Filename-set signal: the session starts awaiting a name.
    pub fn request_name(&mut self)
        ensures
            final(self)@ == old(self)@.name_requested(),
    {
        self.awaiting_name = true;
        proof {
            assert(self@ =~= old(self)@.name_requested());
        }
    }

    /// A text reply while a name may be pending: stores it unless the
    /// session is not awaiting one or the text is blank.
    pub fn receive_name(&mut self, text: Vec<u8>) -> (r: NameOutcome)
        ensures
            final(self)@ == old(self)@.name_received(text@),
            r is NotAwaiting <==> !old(self)@.awaiting_name,
            r is Rejected <==> old(self)@.awaiting_name && is_blank(text@),
            r is Accepted <==> old(self)@.awaiting_name && !is_blank(text@),
            r is Accepted ==> final(self)@.archive_name == Some(text@),
    {
        if !self.awaiting_name {
            NameOutcome::NotAwaiting
        } else if check_blank(&text) {
            NameOutcome::Rejected
        } else {
            self.awaiting_name = false;
            self.archive_name = Some(text);
            proof {
                assert(self@ =~= old(self)@.name_received(self.archive_name->Some_0@));
            }
            NameOutcome::Accepted
        }
    }
}

} // verus!
