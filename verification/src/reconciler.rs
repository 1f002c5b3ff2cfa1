//! The reconciler: applies one event at a time to a session's transcript.
//!
//! The stream may deliver events late, twice or out of order. Every event is
//! therefore held against the session's cancellation state before it may
//! change anything, and every content event replaces what is stored: the last
//! accepted snapshot wins.

use crate::event::{
    Event, EventView, MessageInfo, MessageInfoView, Part, PartKind, PartKindView, PartView,
    ToolUpdate, ToolUpdateView,
};
use crate::json::Json;
use crate::seqs::{first_index, lemma_first_index_is};
use crate::session::{find_message, Session, SessionView};
use crate::text::{contains_text, same, same_optional};
use crate::transcript::{
    answers_to, has_id, Message, MessageView, Role, TokenCounts, ToolCall, ToolCallView,
};
use vstd::prelude::*;

verus! {

/// The name and the status of a tool call whose first update gives none.
pub open spec fn unknown() -> Seq<char> {
    "unknown"@
}

/// Whether a creation time lies in the part of the past that the session has
/// closed: at or before the last cancellation, or before the last send.
pub open spec fn is_stale(s: SessionView, created: int) -> bool {
    (s.cancel_cutoff is Some && created <= s.cancel_cutoff->0) || created < s.last_send_at
}

/// Whether the session drops a `message.updated` event.
pub open spec fn message_dropped(s: SessionView, info: MessageInfoView) -> bool {
    s.cancelled_message_ids.contains(info.id) || is_stale(s, info.created as int)
}

/// The counters that an event of this role may set.
pub open spec fn counters_of(info: MessageInfoView) -> TokenCounts {
    if info.role == Role::Assistant {
        info.tokens
    } else {
        TokenCounts::spec_none()
    }
}

/// The message that the first event for an id creates.
pub open spec fn fresh_message(info: MessageInfoView) -> MessageView {
    MessageView {
        message_id: info.id,
        role: info.role,
        text: Seq::empty(),
        reasoning: Seq::empty(),
        tokens: counters_of(info),
        tool_calls: Seq::empty(),
    }
}

/// The transcript after an accepted `message.updated` event: a known message
/// gets the event's counters if the event's role is assistant, an unknown one
/// is created at the end.
pub open spec fn with_message(ms: Seq<MessageView>, info: MessageInfoView) -> Seq<MessageView> {
    let i = first_index(ms, has_id(info.id));
    if i < ms.len() {
        if info.role == Role::Assistant {
            ms.update(i, MessageView { tokens: info.tokens, ..ms[i] })
        } else {
            ms
        }
    } else {
        ms.push(fresh_message(info))
    }
}

/// The active response after an accepted `message.updated` event.
pub open spec fn active_after(active: Option<Seq<char>>, info: MessageInfoView) -> Option<
    Seq<char>,
> {
    if info.role == Role::Assistant {
        if info.finished {
            if active == Some(info.id) {
                None
            } else {
                active
            }
        } else {
            Some(info.id)
        }
    } else {
        active
    }
}

/// The session after a `message.updated` event.
pub open spec fn message_applied(s: SessionView, info: MessageInfoView) -> SessionView {
    if message_dropped(s, info) {
        s
    } else {
        SessionView {
            messages: with_message(s.messages, info),
            active_response_id: active_after(s.active_response_id, info),
            suppress_incoming: s.suppress_incoming && info.role != Role::User,
            ..s
        }
    }
}

/// Whether a part is the one kind that the window after a cancellation lets
/// through: text for a message that the transcript knows as the assistant's.
pub open spec fn is_assistant_text(s: SessionView, part: PartView) -> bool {
    part.message_id is Some && s.role_of(part.message_id->0) == Role::Assistant && part.kind is Text
}

/// Whether the session drops a `message.part.updated` event: it names no
/// message, or a cancelled one, or a cancelled call, or one that the
/// transcript does not hold; or the window after a cancellation is open and
/// the part is not the kind that it lets through.
pub open spec fn part_dropped(s: SessionView, part: PartView) -> bool {
    ||| part.message_id is None
    ||| s.cancelled_message_ids.contains(part.message_id->0)
    ||| (part.call_id is Some && s.cancelled_call_ids.contains(part.call_id->0))
    ||| !s.has_message(part.message_id->0)
    ||| (s.suppress_incoming && !is_assistant_text(s, part))
}

/// The tool call that the first update for an identity creates.
pub open spec fn fresh_tool(call_id: Option<Seq<char>>, u: ToolUpdateView) -> ToolCallView {
    ToolCallView {
        id: u.id,
        name: if u.name is Some {
            u.name->0
        } else {
            unknown()
        },
        status: if u.status is Some {
            u.status->0
        } else {
            unknown()
        },
        call_id,
        input: u.input,
        output: u.output,
        error: u.error,
        metadata: u.metadata,
        started_at: u.started_at,
        finished_at: u.finished_at,
        logs: u.logs,
    }
}

/// A stored tool call after an update: what the update gives replaces what is
/// stored, what it leaves out stays. The identity stays, and the correlation
/// key is taken only where none is stored.
pub open spec fn merged_tool(t: ToolCallView, call_id: Option<Seq<char>>, u: ToolUpdateView)
    -> ToolCallView {
    ToolCallView {
        id: t.id,
        name: if u.name is Some {
            u.name->0
        } else {
            t.name
        },
        status: if u.status is Some {
            u.status->0
        } else {
            t.status
        },
        call_id: if t.call_id is None {
            call_id
        } else {
            t.call_id
        },
        input: if u.input is Null {
            t.input
        } else {
            u.input
        },
        output: if u.output is Some {
            u.output
        } else {
            t.output
        },
        error: if u.error is Some {
            u.error
        } else {
            t.error
        },
        metadata: if u.metadata == Map::<Seq<char>, Json>::empty() {
            t.metadata
        } else {
            u.metadata
        },
        started_at: if u.started_at is Some {
            u.started_at
        } else {
            t.started_at
        },
        finished_at: if u.finished_at is Some {
            u.finished_at
        } else {
            t.finished_at
        },
        logs: if u.logs.len() == 0 {
            t.logs
        } else {
            u.logs
        },
    }
}

/// The tool calls of a message after an update: the first call that has the
/// update's id, or the update's correlation key where the update has one, is
/// merged with it; where none does, a new call is added at the end.
pub open spec fn with_tool(ts: Seq<ToolCallView>, call_id: Option<Seq<char>>, u: ToolUpdateView)
    -> Seq<ToolCallView> {
    let j = first_index(ts, answers_to(u.id, call_id));
    if j < ts.len() {
        ts.update(j, merged_tool(ts[j], call_id, u))
    } else {
        ts.push(fresh_tool(call_id, u))
    }
}

/// A message after a part for it was accepted.
pub open spec fn with_part(m: MessageView, call_id: Option<Seq<char>>, kind: PartKindView)
    -> MessageView {
    match kind {
        PartKindView::Text(t) => MessageView { text: t, ..m },
        PartKindView::Reasoning(t) => MessageView { reasoning: t, ..m },
        PartKindView::Tool(u) => MessageView { tool_calls: with_tool(m.tool_calls, call_id, u), ..m },
        PartKindView::Other => m,
    }
}

/// The session after a `message.part.updated` event. A part that is not
/// dropped changes the message it names, and closes the window after a
/// cancellation.
pub open spec fn part_applied(s: SessionView, part: PartView) -> SessionView {
    if part_dropped(s, part) {
        s
    } else {
        let id = part.message_id->0;
        SessionView {
            messages: s.messages.update(
                s.position(id),
                with_part(s.message(id), part.call_id, part.kind),
            ),
            suppress_incoming: false,
            ..s
        }
    }
}

/// The session after one event. Events that are not about messages leave it
/// as it is.
pub open spec fn applied(s: SessionView, e: EventView) -> SessionView {
    match e {
        EventView::MessageUpdated(info) => message_applied(s, info),
        EventView::PartUpdated(part) => part_applied(s, part),
        _ => s,
    }
}

/// Whether the session drops the event: a message event or a part that the
/// cancellation state rules out. (Events of other kinds are not dropped; they
/// are not the session's to apply.)
pub open spec fn dropped(s: SessionView, e: EventView) -> bool {
    match e {
        EventView::MessageUpdated(info) => message_dropped(s, info),
        EventView::PartUpdated(part) => part_dropped(s, part),
        _ => false,
    }
}

/// The index of the first tool call that answers to `id` or `call_id`, or
/// the length where none does.
pub fn find_tool(tools: &Vec<ToolCall>, id: &str, call_id: &Option<String>) -> (r: usize)
    ensures
        r == first_index(tools.deep_view(), answers_to(id@, call_id.deep_view())),
        r <= tools.len(),
{
    let ghost p = answers_to(id@, call_id.deep_view());
    let mut j: usize = 0;
    while j < tools.len()
        invariant
            0 <= j <= tools.len(),
            p == answers_to(id@, call_id.deep_view()),
            forall|k: int| 0 <= k < j ==> !p(#[trigger] tools.deep_view()[k]),
        decreases tools.len() - j,
    {
        if same(tools[j].id.as_str(), id) || (call_id.is_some() && same_optional(
            &tools[j].call_id,
            call_id,
        )) {
            proof {
                assert(p(tools.deep_view()[j as int]));
                lemma_first_index_is(tools.deep_view(), p, j as int);
            }
            return j;
        }
        assert(!p(tools.deep_view()[j as int]));
        j = j + 1;
    }
    proof {
        lemma_first_index_is(tools.deep_view(), p, j as int);
    }
    j
}

/// Merges an update into a stored tool call.
pub fn merge_tool(tool: &mut ToolCall, call_id: Option<String>, update: ToolUpdate)
    ensures
        final(tool)@ == merged_tool(old(tool)@, call_id.deep_view(), update@),
{
    if let Some(name) = update.name {
        tool.name = name;
    }
    if let Some(status) = update.status {
        tool.status = status;
    }
    if tool.call_id.is_none() {
        tool.call_id = call_id;
    }
    if !crate::json::is_null(&update.input) {
        tool.input = update.input;
    }
    if update.output.is_some() {
        tool.output = update.output;
    }
    if update.error.is_some() {
        tool.error = update.error;
    }
    if !crate::json::has_no_entries(&update.metadata) {
        tool.metadata = update.metadata;
    }
    if update.started_at.is_some() {
        tool.started_at = update.started_at;
    }
    if update.finished_at.is_some() {
        tool.finished_at = update.finished_at;
    }
    if update.logs.len() > 0 {
        tool.logs = update.logs;
    }
}

/// Builds the tool call that an update's first sighting creates.
pub fn new_tool(call_id: Option<String>, update: ToolUpdate) -> (r: ToolCall)
    ensures
        r@ == fresh_tool(call_id.deep_view(), update@),
{
    let name = match update.name {
        Some(n) => n,
        None => "unknown".to_string(),
    };
    let status = match update.status {
        Some(s) => s,
        None => "unknown".to_string(),
    };
    ToolCall {
        id: update.id,
        name,
        status,
        call_id,
        input: update.input,
        output: update.output,
        error: update.error,
        metadata: update.metadata,
        started_at: update.started_at,
        finished_at: update.finished_at,
        logs: update.logs,
    }
}

/// Resolves the tool call that an update is about, by id or by correlation
/// key, and merges the update into it; creates the call where there is none.
pub fn upsert_tool(tools: &mut Vec<ToolCall>, call_id: Option<String>, update: ToolUpdate)
    ensures
        final(tools).deep_view() == with_tool(old(tools).deep_view(), call_id.deep_view(), update@),
{
    let j = find_tool(tools, update.id.as_str(), &call_id);
    if j < tools.len() {
        merge_tool(&mut tools[j], call_id, update);
        assert(tools.deep_view() =~= with_tool(
            old(tools).deep_view(),
            call_id.deep_view(),
            update@,
        ));
    } else {
        let ghost c = call_id.deep_view();
        let ghost u = update@;
        tools.push(new_tool(call_id, update));
        assert(tools.deep_view() =~= with_tool(old(tools).deep_view(), c, u));
    }
}

/// Applies a `message.updated` event.
pub fn apply_message(session: &mut Session, info: MessageInfo)
    ensures
        final(session)@ == message_applied(old(session)@, info@),
{
    if contains_text(&session.cancelled_message_ids, info.id.as_str()) {
        return ;
    }
    if let Some(cutoff) = session.cancel_cutoff {
        if info.created <= cutoff {
            return ;
        }
    }
    if info.created < session.last_send_at {
        return ;
    }
    let assistant = info.role == Role::Assistant;
    if assistant {
        if info.finished {
            if same_optional(&session.active_response_id, &Some(info.id.clone())) {
                session.active_response_id = None;
            }
        } else {
            session.active_response_id = Some(info.id.clone());
        }
    }
    if info.role == Role::User {
        session.suppress_incoming = false;
    }
    let i = find_message(&session.messages, info.id.as_str());
    if i < session.messages.len() {
        if assistant {
            session.messages[i].tokens = info.tokens;
        }
        assert(session.messages.deep_view() =~= with_message(old(session)@.messages, info@));
    } else {
        let tokens = if assistant {
            info.tokens
        } else {
            TokenCounts::none()
        };
        let message = Message {
            message_id: info.id,
            role: info.role,
            text: String::new(),
            reasoning: String::new(),
            tokens,
            tool_calls: Vec::new(),
        };
        assert(message@.tool_calls =~= Seq::empty());
        assert(message@ == fresh_message(info@));
        session.messages.push(message);
        assert(session.messages.deep_view() =~= with_message(old(session)@.messages, info@));
    }
}

/// Applies a `message.part.updated` event.
pub fn apply_part(session: &mut Session, part: Part)
    ensures
        final(session)@ == part_applied(old(session)@, part@),
{
    let ghost p = part@;
    let Part { message_id, call_id, kind } = part;
    let id = match message_id {
        Some(id) => id,
        None => {
            return ;
        },
    };
    if contains_text(&session.cancelled_message_ids, id.as_str()) {
        return ;
    }
    if let Some(call) = &call_id {
        if contains_text(&session.cancelled_call_ids, call.as_str()) {
            return ;
        }
    }
    let i = find_message(&session.messages, id.as_str());
    if i == session.messages.len() {
        return ;
    }
    if session.suppress_incoming {
        let is_text = match &kind {
            PartKind::Text(_) => true,
            _ => false,
        };
        if !(session.messages[i].role == Role::Assistant && is_text) {
            return ;
        }
        session.suppress_incoming = false;
    }
    assert(!part_dropped(old(session)@, p));
    match kind {
        PartKind::Text(t) => {
            session.messages[i].text = t;
        },
        PartKind::Reasoning(t) => {
            session.messages[i].reasoning = t;
        },
        PartKind::Tool(update) => {
            upsert_tool(&mut session.messages[i].tool_calls, call_id, update);
        },
        PartKind::Other => {},
    }
    assert(session.messages.deep_view() =~= part_applied(old(session)@, p).messages);
}

/// Applies one event to the session, in place. Nothing fails: an event that
/// the cancellation state rules out, a part for a message that the
/// transcript does not hold, and an event that is not about messages leave
/// the session as it was.
pub fn apply(session: &mut Session, event: Event)
    ensures
        final(session)@ == applied(old(session)@, event@),
        old(session)@.wf() ==> final(session)@.wf(),
{
    proof {
        if session@.wf() {
            crate::laws::law_events_keep_wf(session@, event@);
        }
    }
    match event {
        Event::MessageUpdated(info) => apply_message(session, info),
        Event::PartUpdated(part) => apply_part(session, part),
        _ => {},
    }
}

} // verus!
