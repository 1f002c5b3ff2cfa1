//! One conversation session: its transcript and its cancellation state.

use crate::seqs::first_index;
use crate::transcript::{distinct_ids, has_id, Message, MessageView, Role};
use vstd::prelude::*;

verus! {

/// One open conversation. All of its state is plain data; the functions of
/// the reconciler, the cancellation controller and the permission router are
/// its only writers.
#[derive(Clone, Debug)]
pub struct Session {
    pub title: String,
    /// The conversation on the server that backs this session, once created.
    pub session_id: Option<String>,
    pub session_version: Option<String>,
    pub directory: Option<String>,
    /// The chosen model, as provider and model id.
    pub selected_model: Option<(String, String)>,
    pub selected_agent: Option<String>,
    /// The transcript, in the order in which the messages arrived.
    pub messages: Vec<Message>,
    /// The assistant message that is streaming now, if any.
    pub active_response_id: Option<String>,
    pub cancelled_message_ids: Vec<String>,
    pub cancelled_call_ids: Vec<String>,
    /// When the user last cancelled a response, in milliseconds.
    pub cancel_cutoff: Option<i64>,
    /// Whether the window after a cancellation is still open.
    pub suppress_incoming: bool,
    /// When the user last sent a message, in milliseconds.
    pub last_send_at: i64,
}

/// A session as a mathematical value.
pub struct SessionView {
    pub title: Seq<char>,
    pub session_id: Option<Seq<char>>,
    pub session_version: Option<Seq<char>>,
    pub directory: Option<Seq<char>>,
    pub selected_model: Option<(Seq<char>, Seq<char>)>,
    pub selected_agent: Option<Seq<char>>,
    pub messages: Seq<MessageView>,
    pub active_response_id: Option<Seq<char>>,
    pub cancelled_message_ids: Seq<Seq<char>>,
    pub cancelled_call_ids: Seq<Seq<char>>,
    pub cancel_cutoff: Option<i64>,
    pub suppress_incoming: bool,
    pub last_send_at: i64,
}

impl View for Session {
    type V = SessionView;

    open spec fn view(&self) -> SessionView {
        SessionView {
            title: self.title@,
            session_id: self.session_id.deep_view(),
            session_version: self.session_version.deep_view(),
            directory: self.directory.deep_view(),
            selected_model: self.selected_model.deep_view(),
            selected_agent: self.selected_agent.deep_view(),
            messages: self.messages.deep_view(),
            active_response_id: self.active_response_id.deep_view(),
            cancelled_message_ids: self.cancelled_message_ids.deep_view(),
            cancelled_call_ids: self.cancelled_call_ids.deep_view(),
            cancel_cutoff: self.cancel_cutoff,
            suppress_incoming: self.suppress_incoming,
            last_send_at: self.last_send_at,
        }
    }
}

impl DeepView for Session {
    type V = SessionView;

    open spec fn deep_view(&self) -> SessionView {
        self@
    }
}

impl SessionView {
    /// A session without a title, that nothing has happened to.
    pub open spec fn empty() -> SessionView {
        SessionView {
            title: Seq::empty(),
            session_id: None,
            session_version: None,
            directory: None,
            selected_model: None,
            selected_agent: None,
            messages: Seq::empty(),
            active_response_id: None,
            cancelled_message_ids: Seq::empty(),
            cancelled_call_ids: Seq::empty(),
            cancel_cutoff: None,
            suppress_incoming: false,
            last_send_at: 0,
        }
    }

    /// What every operation keeps: no message id occurs twice in the
    /// transcript, and neither set of cancelled ids lists an id twice.
    pub open spec fn wf(self) -> bool {
        &&& distinct_ids(self.messages)
        &&& self.cancelled_message_ids.no_duplicates()
        &&& self.cancelled_call_ids.no_duplicates()
    }

    /// Where the message with id `id` stands in the transcript, or the
    /// transcript's length where there is none.
    pub open spec fn position(self, id: Seq<char>) -> int {
        first_index(self.messages, has_id(id))
    }

    /// Whether the transcript holds a message with id `id`.
    pub open spec fn has_message(self, id: Seq<char>) -> bool {
        self.position(id) < self.messages.len()
    }

    /// The message with id `id`; meaningful where `has_message(id)`.
    pub open spec fn message(self, id: Seq<char>) -> MessageView {
        self.messages[self.position(id)]
    }

    /// The role of the message with id `id`, `Other` where there is none.
    pub open spec fn role_of(self, id: Seq<char>) -> Role {
        if self.has_message(id) {
            self.message(id).role
        } else {
            Role::Other
        }
    }
}

impl Session {
    /// A session with the given title, that nothing has happened to.
    pub fn new(title: String) -> (r: Session)
        ensures
            r@ == (SessionView { title: title@, ..SessionView::empty() }),
            r@.wf(),
    {
        let r = Session {
            title,
            session_id: None,
            session_version: None,
            directory: None,
            selected_model: None,
            selected_agent: None,
            messages: Vec::new(),
            active_response_id: None,
            cancelled_message_ids: Vec::new(),
            cancelled_call_ids: Vec::new(),
            cancel_cutoff: None,
            suppress_incoming: false,
            last_send_at: 0,
        };
        assert(r@.messages =~= Seq::empty());
        assert(r@.cancelled_message_ids =~= Seq::empty());
        assert(r@.cancelled_call_ids =~= Seq::empty());
        r
    }

    /// The index of the message with id `id`, or the transcript's length.
    pub fn position(&self, id: &str) -> (r: usize)
        ensures
            r == self@.position(id@),
            r <= self.messages.len(),
    {
        find_message(&self.messages, id)
    }
}

/// The session after the user sent a message at `now`: the time of the last
/// send moves forward to `now`, and never back.
pub open spec fn sent(s: SessionView, now: i64) -> SessionView {
    SessionView {
        last_send_at: if now > s.last_send_at {
            now
        } else {
            s.last_send_at
        },
        ..s
    }
}

/// Records that the user sent a message at `now`.
pub fn record_send_at(session: &mut Session, now: i64)
    ensures
        final(session)@ == sent(old(session)@, now),
        final(session)@.last_send_at >= old(session)@.last_send_at,
        old(session)@.wf() ==> final(session)@.wf(),
{
    if now > session.last_send_at {
        session.last_send_at = now;
    }
}

/// Records that the user sent a message at the wall clock's present reading.
/// The session afterwards differs from the one before in the time of the last
/// send alone, which has not moved back.
pub fn record_send(session: &mut Session)
    ensures
        final(session)@ == sent(old(session)@, final(session)@.last_send_at),
        final(session)@.last_send_at >= old(session)@.last_send_at,
        old(session)@.wf() ==> final(session)@.wf(),
{
    record_send_at(session, crate::clock::now_millis());
}

impl Default for Session {
    fn default() -> (r: Session)
        ensures
            r@ == SessionView::empty(),
    {
        Session::new(String::new())
    }
}

/// The index of the first message with id `id`, or the length where there is
/// none.
pub fn find_message(messages: &Vec<Message>, id: &str) -> (r: usize)
    ensures
        r == first_index(messages.deep_view(), has_id(id@)),
        r <= messages.len(),
{
    let mut i: usize = 0;
    while i < messages.len()
        invariant
            0 <= i <= messages.len(),
            forall|j: int| 0 <= j < i ==> !has_id(id@)(#[trigger] messages.deep_view()[j]),
        decreases messages.len() - i,
    {
        if crate::text::same(messages[i].message_id.as_str(), id) {
            proof {
                assert(has_id(id@)(messages.deep_view()[i as int]));
                crate::seqs::lemma_first_index_is(messages.deep_view(), has_id(id@), i as int);
            }
            return i;
        }
        i = i + 1;
    }
    proof {
        crate::seqs::lemma_first_index_is(messages.deep_view(), has_id(id@), i as int);
    }
    i
}

} // verus!
