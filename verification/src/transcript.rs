//! The transcript of one conversation: messages and the tool calls they made.

use crate::json::{entries_of, json_of, Json, Object};
use vstd::prelude::*;

verus! {

/// Who wrote a message.
#[derive(Clone, Copy, Debug, PartialEq, Eq, Structural)]
pub enum Role {
    User,
    Assistant,
    System,
    /// Any role that the server names and this client does not know.
    Other,
}

/// Token counters of an assistant message.
#[derive(Clone, Copy, Debug, PartialEq, Eq, Structural)]
pub struct TokenCounts {
    pub input: Option<u64>,
    pub output: Option<u64>,
    pub reasoning: Option<u64>,
}

impl TokenCounts {
    /// No counter known.
    pub open spec fn spec_none() -> TokenCounts {
        TokenCounts { input: None, output: None, reasoning: None }
    }

    /// No counter known.
    #[verifier::when_used_as_spec(spec_none)]
    pub fn none() -> (r: TokenCounts)
        ensures
            r == Self::spec_none(),
    {
        TokenCounts { input: None, output: None, reasoning: None }
    }
}

/// One invocation of a tool by the assistant.
#[derive(Clone, Debug)]
pub struct ToolCall {
    pub id: String,
    pub name: String,
    pub status: String,
    pub call_id: Option<String>,
    pub input: serde_json::Value,
    pub output: Option<String>,
    pub error: Option<String>,
    pub metadata: Object,
    pub started_at: Option<i64>,
    pub finished_at: Option<i64>,
    pub logs: Vec<String>,
}

/// A tool call as a mathematical value.
pub struct ToolCallView {
    pub id: Seq<char>,
    pub name: Seq<char>,
    pub status: Seq<char>,
    pub call_id: Option<Seq<char>>,
    pub input: Json,
    pub output: Option<Seq<char>>,
    pub error: Option<Seq<char>>,
    pub metadata: Map<Seq<char>, Json>,
    pub started_at: Option<i64>,
    pub finished_at: Option<i64>,
    pub logs: Seq<Seq<char>>,
}

impl View for ToolCall {
    type V = ToolCallView;

    open spec fn view(&self) -> ToolCallView {
        ToolCallView {
            id: self.id@,
            name: self.name@,
            status: self.status@,
            call_id: self.call_id.deep_view(),
            input: json_of(self.input),
            output: self.output.deep_view(),
            error: self.error.deep_view(),
            metadata: entries_of(self.metadata),
            started_at: self.started_at,
            finished_at: self.finished_at,
            logs: self.logs.deep_view(),
        }
    }
}

impl DeepView for ToolCall {
    type V = ToolCallView;

    open spec fn deep_view(&self) -> ToolCallView {
        self@
    }
}

/// One message of the transcript. `text` and `reasoning` are snapshots: each
/// holds the latest full value received.
#[derive(Clone, Debug)]
pub struct Message {
    pub message_id: String,
    pub role: Role,
    pub text: String,
    pub reasoning: String,
    pub tokens: TokenCounts,
    pub tool_calls: Vec<ToolCall>,
}

/// A message as a mathematical value.
pub struct MessageView {
    pub message_id: Seq<char>,
    pub role: Role,
    pub text: Seq<char>,
    pub reasoning: Seq<char>,
    pub tokens: TokenCounts,
    pub tool_calls: Seq<ToolCallView>,
}

impl View for Message {
    type V = MessageView;

    open spec fn view(&self) -> MessageView {
        MessageView {
            message_id: self.message_id@,
            role: self.role,
            text: self.text@,
            reasoning: self.reasoning@,
            tokens: self.tokens,
            tool_calls: self.tool_calls.deep_view(),
        }
    }
}

impl DeepView for Message {
    type V = MessageView;

    open spec fn deep_view(&self) -> MessageView {
        self@
    }
}

/// The status that a tool call gets when its response is cancelled.
pub open spec fn cancelled_status() -> Seq<char> {
    "cancelled"@
}

/// Whether a status says that the tool call has ended. "completed" counts as
/// "success".
pub open spec fn is_terminal(status: Seq<char>) -> bool {
    status == "success"@ || status == "error"@ || status == "completed"@ || status
        == cancelled_status()
}

/// The condition "this message has the id `id`".
pub open spec fn has_id(id: Seq<char>) -> spec_fn(MessageView) -> bool {
    |m: MessageView| m.message_id == id
}

/// The condition "this tool call answers to `id` or to the correlation key
/// `call_id`": its id is `id`, or the key is there and is the call's own. An
/// absent key answers to nothing.
pub open spec fn answers_to(id: Seq<char>, call_id: Option<Seq<char>>) -> spec_fn(
    ToolCallView,
) -> bool {
    |t: ToolCallView| t.id == id || (call_id is Some && t.call_id == call_id)
}

/// No two messages share an id.
pub open spec fn distinct_ids(ms: Seq<MessageView>) -> bool {
    forall|i: int, j: int|
        0 <= i < j < ms.len() ==> (#[trigger] ms[i]).message_id != (#[trigger] ms[j]).message_id
}

} // verus!
