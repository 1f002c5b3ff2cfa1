//! The events that the server pushes, as plain values.

use crate::json::{entries_of, json_of, Json, Object};
use crate::transcript::{Role, TokenCounts};
use vstd::prelude::*;

verus! {

/// The `info` of a `message.updated` event.
#[derive(Clone, Debug)]
pub struct MessageInfo {
    pub id: String,
    pub role: Role,
    /// When the server created the message, in milliseconds.
    pub created: i64,
    /// Whether the event carries a `finish` marker.
    pub finished: bool,
    /// The counters that the event carries; none unless the role is assistant.
    pub tokens: TokenCounts,
}

/// A `message.updated` event as a mathematical value.
pub struct MessageInfoView {
    pub id: Seq<char>,
    pub role: Role,
    pub created: i64,
    pub finished: bool,
    pub tokens: TokenCounts,
}

impl View for MessageInfo {
    type V = MessageInfoView;

    open spec fn view(&self) -> MessageInfoView {
        MessageInfoView {
            id: self.id@,
            role: self.role,
            created: self.created,
            finished: self.finished,
            tokens: self.tokens,
        }
    }
}

/// What a part of type `tool` says about a tool call. A field that the event
/// leaves out is `None`, `null` or empty here.
#[derive(Clone, Debug)]
pub struct ToolUpdate {
    pub id: String,
    pub name: Option<String>,
    pub status: Option<String>,
    pub input: serde_json::Value,
    pub output: Option<String>,
    pub error: Option<String>,
    pub metadata: Object,
    pub started_at: Option<i64>,
    pub finished_at: Option<i64>,
    pub logs: Vec<String>,
}

/// A tool update as a mathematical value.
pub struct ToolUpdateView {
    pub id: Seq<char>,
    pub name: Option<Seq<char>>,
    pub status: Option<Seq<char>>,
    pub input: Json,
    pub output: Option<Seq<char>>,
    pub error: Option<Seq<char>>,
    pub metadata: Map<Seq<char>, Json>,
    pub started_at: Option<i64>,
    pub finished_at: Option<i64>,
    pub logs: Seq<Seq<char>>,
}

impl View for ToolUpdate {
    type V = ToolUpdateView;

    open spec fn view(&self) -> ToolUpdateView {
        ToolUpdateView {
            id: self.id@,
            name: self.name.deep_view(),
            status: self.status.deep_view(),
            input: json_of(self.input),
            output: self.output.deep_view(),
            error: self.error.deep_view(),
            metadata: entries_of(self.metadata),
            started_at: self.started_at,
            finished_at: self.finished_at,
            logs: self.logs.deep_view(),
        }
    }
}

/// The content of a part, by its declared type.
#[derive(Clone, Debug)]
pub enum PartKind {
    /// The full current text of the message.
    Text(String),
    /// The full current reasoning of the message.
    Reasoning(String),
    Tool(ToolUpdate),
    /// A part of a type that the transcript does not record.
    Other,
}

/// The content of a part as a mathematical value.
pub enum PartKindView {
    Text(Seq<char>),
    Reasoning(Seq<char>),
    Tool(ToolUpdateView),
    Other,
}

impl View for PartKind {
    type V = PartKindView;

    open spec fn view(&self) -> PartKindView {
        match self {
            PartKind::Text(t) => PartKindView::Text(t@),
            PartKind::Reasoning(t) => PartKindView::Reasoning(t@),
            PartKind::Tool(u) => PartKindView::Tool(u@),
            PartKind::Other => PartKindView::Other,
        }
    }
}

/// The `part` of a `message.part.updated` event.
#[derive(Clone, Debug)]
pub struct Part {
    pub message_id: Option<String>,
    pub call_id: Option<String>,
    pub kind: PartKind,
}

/// A `message.part.updated` event as a mathematical value.
pub struct PartView {
    pub message_id: Option<Seq<char>>,
    pub call_id: Option<Seq<char>>,
    pub kind: PartKindView,
}

impl View for Part {
    type V = PartView;

    open spec fn view(&self) -> PartView {
        PartView {
            message_id: self.message_id.deep_view(),
            call_id: self.call_id.deep_view(),
            kind: self.kind@,
        }
    }
}

/// A request for the user's approval of a tool call.
#[derive(Clone, Debug)]
pub struct PermissionRequest {
    pub id: String,
    pub perm_type: String,
    pub pattern: Option<Vec<String>>,
    pub session_id: String,
    pub message_id: String,
    pub call_id: Option<String>,
    pub title: String,
    pub metadata: serde_json::Value,
    /// When the server created the request, in milliseconds.
    pub created: u64,
}

/// A permission request as a mathematical value.
pub struct PermissionRequestView {
    pub id: Seq<char>,
    pub perm_type: Seq<char>,
    pub pattern: Option<Seq<Seq<char>>>,
    pub session_id: Seq<char>,
    pub message_id: Seq<char>,
    pub call_id: Option<Seq<char>>,
    pub title: Seq<char>,
    pub metadata: Json,
    pub created: u64,
}

impl View for PermissionRequest {
    type V = PermissionRequestView;

    open spec fn view(&self) -> PermissionRequestView {
        PermissionRequestView {
            id: self.id@,
            perm_type: self.perm_type@,
            pattern: self.pattern.deep_view(),
            session_id: self.session_id@,
            message_id: self.message_id@,
            call_id: self.call_id.deep_view(),
            title: self.title@,
            metadata: json_of(self.metadata),
            created: self.created,
        }
    }
}

impl DeepView for PermissionRequest {
    type V = PermissionRequestView;

    open spec fn deep_view(&self) -> PermissionRequestView {
        self@
    }
}

/// One event of the stream.
#[derive(Clone, Debug)]
pub enum Event {
    MessageUpdated(MessageInfo),
    PartUpdated(Part),
    PermissionUpdated(PermissionRequest),
    PermissionReplied { permission_id: String, session_id: String },
    /// An event of another type, or one that lacks what its type requires.
    Ignored,
}

/// An event as a mathematical value.
pub enum EventView {
    MessageUpdated(MessageInfoView),
    PartUpdated(PartView),
    PermissionUpdated(PermissionRequestView),
    PermissionReplied { permission_id: Seq<char>, session_id: Seq<char> },
    Ignored,
}

impl View for Event {
    type V = EventView;

    open spec fn view(&self) -> EventView {
        match self {
            Event::MessageUpdated(info) => EventView::MessageUpdated(info@),
            Event::PartUpdated(part) => EventView::PartUpdated(part@),
            Event::PermissionUpdated(req) => EventView::PermissionUpdated(req@),
            Event::PermissionReplied { permission_id, session_id } => EventView::PermissionReplied {
                permission_id: permission_id@,
                session_id: session_id@,
            },
            Event::Ignored => EventView::Ignored,
        }
    }
}

/// An event together with the session that the server addressed it to.
#[derive(Clone, Debug)]
pub struct Envelope {
    pub session_id: Option<String>,
    pub event: Event,
}

/// An envelope as a mathematical value.
pub struct EnvelopeView {
    pub session_id: Option<Seq<char>>,
    pub event: EventView,
}

impl View for Envelope {
    type V = EnvelopeView;

    open spec fn view(&self) -> EnvelopeView {
        EnvelopeView { session_id: self.session_id.deep_view(), event: self.event@ }
    }
}

impl DeepView for Envelope {
    type V = EnvelopeView;

    open spec fn deep_view(&self) -> EnvelopeView {
        self@
    }
}

} // verus!
