//! Composing what the user sends: when sending is possible, which parts a
//! message has, and what sending does to the session.

use crate::session::{record_send_at, sent, Session, SessionView};
use crate::text::{trim, trimmed};
use crate::types::models::{MessagePart, MessagePartView};
use vstd::prelude::*;

verus! {

/// What `base64`'s standard engine gives for a run of bytes: their encoding
/// in the standard alphabet, with padding.
pub uninterp spec fn base64_of(data: Seq<u8>) -> Seq<char>;

/// `base64::Engine::encode` of `base64::engine::general_purpose::STANDARD`.
#[verifier::external_body]
pub(crate) fn encode_base64(data: &[u8]) -> (r: String)
    ensures
        r@ == base64_of(data@),
{
    base64::Engine::encode(&base64::engine::general_purpose::STANDARD, data)
}

/// A file that waits to be sent with the next message.
#[derive(Debug, Clone, PartialEq, Eq)]
pub struct PendingAttachment {
    pub data: Vec<u8>,
    pub mime: String,
}

/// An attachment as a mathematical value.
pub struct PendingAttachmentView {
    pub data: Seq<u8>,
    pub mime: Seq<char>,
}

impl View for PendingAttachment {
    type V = PendingAttachmentView;

    open spec fn view(&self) -> PendingAttachmentView {
        PendingAttachmentView { data: self.data@, mime: self.mime@ }
    }
}

impl DeepView for PendingAttachment {
    type V = PendingAttachmentView;

    open spec fn deep_view(&self) -> PendingAttachmentView {
        self@
    }
}

/// What the user has typed and attached, and not sent yet.
#[derive(Debug, Clone, PartialEq, Eq)]
pub struct Draft {
    pub input: String,
    pub pending_attachments: Vec<PendingAttachment>,
}

/// A draft as a mathematical value.
pub struct DraftView {
    pub input: Seq<char>,
    pub pending_attachments: Seq<PendingAttachmentView>,
}

impl View for Draft {
    type V = DraftView;

    open spec fn view(&self) -> DraftView {
        DraftView {
            input: self.input@,
            pending_attachments: self.pending_attachments.deep_view(),
        }
    }
}

/// The data URI for content of the type `mime` whose encoding is
/// `encoded`.
pub open spec fn data_uri_of(mime: Seq<char>, encoded: Seq<char>) -> Seq<char> {
    "data:"@ + mime + ";base64,"@ + encoded
}

/// The data URI that carries a file.
pub open spec fn data_uri(a: PendingAttachmentView) -> Seq<char> {
    data_uri_of(a.mime, base64_of(a.data))
}

/// Writes the data URI for content of the type `mime` whose encoding is
/// `encoded`.
pub fn data_url(mime: &str, encoded: &str) -> (r: String)
    ensures
        r@ == data_uri_of(mime@, encoded@),
{
    let mut url = "data:".to_string();
    url.append(mime);
    url.append(";base64,");
    url.append(encoded);
    url
}

/// The part that carries a file.
pub open spec fn file_part(a: PendingAttachmentView) -> MessagePartView {
    MessagePartView::File { mime: a.mime, filename: None, url: data_uri(a) }
}

/// The parts of the message that a draft makes: its text, unless empty, then
/// its files in order.
pub open spec fn parts_of(d: DraftView) -> Seq<MessagePartView> {
    let files = d.pending_attachments.map_values(|a: PendingAttachmentView| file_part(a));
    if d.input.len() == 0 {
        files
    } else {
        seq![MessagePartView::Text { text: d.input }] + files
    }
}

/// Whether a draft has something to send: text that is not blank, or a file.
pub open spec fn has_content(d: DraftView) -> bool {
    trimmed(d.input).len() != 0 || d.pending_attachments.len() != 0
}

/// Whether the user may send now: the session is created, no permission
/// request of it waits, no response is streaming, and the draft has content.
pub open spec fn sendable(s: SessionView, blocked: bool, d: DraftView) -> bool {
    s.session_id is Some && !blocked && s.active_response_id is None && has_content(d)
}

/// What leaves for the server when the user sends.
#[derive(Debug, Clone, PartialEq, Eq)]
pub struct Outgoing {
    pub session_id: String,
    pub parts: Vec<MessagePart>,
    pub model: Option<(String, String)>,
    pub agent: String,
}

/// An outgoing message as a mathematical value.
pub struct OutgoingView {
    pub session_id: Seq<char>,
    pub parts: Seq<MessagePartView>,
    pub model: Option<(Seq<char>, Seq<char>)>,
    pub agent: Seq<char>,
}

impl View for Outgoing {
    type V = OutgoingView;

    open spec fn view(&self) -> OutgoingView {
        OutgoingView {
            session_id: self.session_id@,
            parts: self.parts.deep_view(),
            model: self.model.deep_view(),
            agent: self.agent@,
        }
    }
}

impl DeepView for Outgoing {
    type V = OutgoingView;

    open spec fn deep_view(&self) -> OutgoingView {
        self@
    }
}

/// The message that sending makes of a session and a draft; meaningful where
/// the session is created.
pub open spec fn outgoing(s: SessionView, d: DraftView, default_agent: Seq<char>) -> OutgoingView {
    OutgoingView {
        session_id: s.session_id->0,
        parts: parts_of(d),
        model: s.selected_model,
        agent: match s.selected_agent {
            Some(a) => a,
            None => default_agent,
        },
    }
}

/// A draft after it was sent.
pub open spec fn emptied() -> DraftView {
    DraftView { input: Seq::empty(), pending_attachments: Seq::empty() }
}

impl Draft {
    /// A draft without text or files.
    pub fn new() -> (r: Draft)
        ensures
            r@ == emptied(),
    {
        let r = Draft { input: String::new(), pending_attachments: Vec::new() };
        assert(r@.pending_attachments =~= Seq::empty());
        r
    }

    /// Whether the draft has something to send.
    pub fn has_content(&self) -> (r: bool)
        ensures
            r == has_content(self@),
    {
        !trim(self.input.as_str()).is_empty() || self.pending_attachments.len() != 0
    }

    /// Adds what the user dictated to the text, after a space where there is
    /// text already.
    pub fn add_transcription(&mut self, text: &str)
        ensures
            final(self)@ == (DraftView {
                input: if old(self)@.input.len() == 0 {
                    text@
                } else {
                    old(self)@.input + " "@ + text@
                },
                ..old(self)@
            }),
    {
        if !self.input.as_str().is_empty() {
            self.input.append(" ");
        } else {
            assert(self.input@ + text@ =~= text@);
        }
        self.input.append(text);
    }

    /// Adds a file to the draft.
    pub fn attach(&mut self, data: Vec<u8>, mime: String)
        ensures
            final(self)@ == (DraftView {
                pending_attachments: old(self)@.pending_attachments.push(
                    PendingAttachmentView { data: data@, mime: mime@ },
                ),
                ..old(self)@
            }),
    {
        self.pending_attachments.push(PendingAttachment { data, mime });
        assert(self@.pending_attachments =~= old(self)@.pending_attachments.push(
            PendingAttachmentView { data: data@, mime: mime@ },
        ));
    }

    /// Takes a file off the draft; nothing happens where there is none at
    /// `index`.
    pub fn detach(&mut self, index: usize)
        ensures
            final(self)@ == (if index < old(self)@.pending_attachments.len() {
                DraftView {
                    pending_attachments: old(self)@.pending_attachments.remove(index as int),
                    ..old(self)@
                }
            } else {
                old(self)@
            }),
    {
        if index < self.pending_attachments.len() {
            self.pending_attachments.remove(index);
            assert(self@.pending_attachments =~= old(self)@.pending_attachments.remove(
                index as int,
            ));
        }
    }
}

/// The parts of the message that a draft makes.
pub fn build_parts(draft: &Draft) -> (r: Vec<MessagePart>)
    ensures
        r.deep_view() == parts_of(draft@),
{
    let ghost files = draft@.pending_attachments.map_values(
        |a: PendingAttachmentView| file_part(a),
    );
    let mut parts: Vec<MessagePart> = Vec::new();
    assert(parts.deep_view() =~= Seq::empty());
    if !draft.input.as_str().is_empty() {
        parts.push(MessagePart::Text { text: draft.input.clone() });
        assert(parts.deep_view() =~= seq![MessagePartView::Text { text: draft@.input }]);
    }
    let ghost first = parts.deep_view();
    let mut i: usize = 0;
    assert(first + files.take(0) =~= first);
    while i < draft.pending_attachments.len()
        invariant
            0 <= i <= draft.pending_attachments.len(),
            files == draft@.pending_attachments.map_values(
                |a: PendingAttachmentView| file_part(a),
            ),
            parts.deep_view() == first + files.take(i as int),
        decreases draft.pending_attachments.len() - i,
    {
        let ghost held = parts.deep_view();
        let a = &draft.pending_attachments[i];
        let url = data_url(a.mime.as_str(), encode_base64(a.data.as_slice()).as_str());
        let part = MessagePart::File { mime: a.mime.clone(), filename: None, url };
        assert(part@ == files[i as int]);
        parts.push(part);
        assert(parts.deep_view() =~= held.push(files[i as int]));
        assert(parts.deep_view() =~= first + files.take(i as int + 1));
        i = i + 1;
    }
    assert(files.take(draft.pending_attachments.len() as int) =~= files);
    assert(Seq::<MessagePartView>::empty() + files =~= files);
    parts
}

/// Whether the user may send now.
pub fn can_send(session: &Session, blocked: bool, draft: &Draft) -> (r: bool)
    ensures
        r == sendable(session@, blocked, draft@),
{
    session.session_id.is_some() && !blocked && session.active_response_id.is_none()
        && draft.has_content()
}

/// Sends the draft at `now`: where the session is created, the time of the
/// send is recorded, the draft is emptied, and the message for the server
/// is returned. Where the session is not created yet, nothing happens.
pub fn send_at(session: &mut Session, draft: &mut Draft, default_agent: &str, now: i64) -> (r:
    Option<Outgoing>)
    ensures
        old(session)@.session_id is None ==> r is None && final(session)@ == old(session)@
            && final(draft)@ == old(draft)@,
        old(session)@.session_id is Some ==> r is Some && r->Some_0@ == outgoing(
            old(session)@,
            old(draft)@,
            default_agent@,
        ) && final(session)@ == sent(old(session)@, now) && final(draft)@ == emptied(),
{
    let session_id = match &session.session_id {
        Some(id) => id.clone(),
        None => {
            return None;
        },
    };
    record_send_at(session, now);
    let parts = build_parts(draft);
    let model = match &session.selected_model {
        Some((provider, model_id)) => Some((provider.clone(), model_id.clone())),
        None => None,
    };
    let agent = match &session.selected_agent {
        Some(a) => a.clone(),
        None => default_agent.to_string(),
    };
    draft.input = String::new();
    draft.pending_attachments = Vec::new();
    assert(draft@.pending_attachments =~= Seq::empty());
    Some(Outgoing { session_id, parts, model, agent })
}

/// Sends the draft at the wall clock's present reading. As [`send_at`], for
/// the time that the session then holds as that of its last send, where that
/// time has moved.
pub fn send(session: &mut Session, draft: &mut Draft, default_agent: &str) -> (r: Option<Outgoing>)
    ensures
        old(session)@.session_id is None ==> r is None && final(session)@ == old(session)@
            && final(draft)@ == old(draft)@,
        old(session)@.session_id is Some ==> r is Some && r->Some_0@ == outgoing(
            old(session)@,
            old(draft)@,
            default_agent@,
        ) && final(session)@ == sent(old(session)@, final(session)@.last_send_at)
            && final(draft)@ == emptied(),
{
    send_at(session, draft, default_agent, crate::clock::now_millis())
}

} // verus!
