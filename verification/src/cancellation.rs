//! The cancellation controller: turns the user's "stop" into one local state
//! transition. It marks the active response and its running tool calls as
//! cancelled and opens the window in which late events for them are dropped.
//! It does not talk to the server; the caller sends the abort.

use crate::clock::now_millis;
use crate::session::{find_message, Session, SessionView};
use crate::text::{contains_text, same};
use crate::transcript::{
    cancelled_status, is_terminal, MessageView, ToolCall, ToolCallView,
};
use vstd::prelude::*;

verus! {

/// The text that a cancelled response shows where it had none yet.
pub open spec fn cancel_marker() -> Seq<char> {
    "\u{2716} Cancelled"@
}

/// A tool call after its response was cancelled at `now`: one that had not
/// ended is cancelled, and gets `now` as its end unless it has one.
pub open spec fn cancelled_tool(t: ToolCallView, now: i64) -> ToolCallView {
    if is_terminal(t.status) {
        t
    } else {
        ToolCallView {
            status: cancelled_status(),
            finished_at: if t.finished_at is None {
                Some(now)
            } else {
                t.finished_at
            },
            ..t
        }
    }
}

/// A message after it was cancelled at `now`.
pub open spec fn cancelled_message(m: MessageView, now: i64) -> MessageView {
    MessageView {
        text: if m.text.len() == 0 {
            cancel_marker()
        } else {
            m.text
        },
        tool_calls: m.tool_calls.map_values(|t: ToolCallView| cancelled_tool(t, now)),
        ..m
    }
}

/// A list of ids with `id` in it: added at the end unless it is there.
pub open spec fn with_id(ids: Seq<Seq<char>>, id: Seq<char>) -> Seq<Seq<char>> {
    if ids.contains(id) {
        ids
    } else {
        ids.push(id)
    }
}

/// Whether cancelling the response of this tool call cancels the call: it
/// had not ended.
pub open spec fn is_cancellable(t: ToolCallView) -> bool {
    !is_terminal(t.status)
}

/// A list of ids with the correlation keys of those of `tools` that had not
/// ended, each added once, in the order of the calls.
pub open spec fn with_calls_of(ids: Seq<Seq<char>>, tools: Seq<ToolCallView>) -> Seq<Seq<char>>
    decreases tools.len(),
{
    if tools.len() == 0 {
        ids
    } else {
        let before = with_calls_of(ids, tools.drop_last());
        let t = tools.last();
        if is_cancellable(t) && t.call_id is Some {
            with_id(before, t.call_id->0)
        } else {
            before
        }
    }
}

/// The session after the user cancelled at `now`. Without an active response
/// nothing changes. With one: its message, where the transcript holds it,
/// and its running tool calls are marked; the message and those calls are
/// recorded as cancelled; the cutoff is `now`, the window is open, and no
/// response is active.
pub open spec fn cancelled(s: SessionView, now: i64) -> SessionView {
    match s.active_response_id {
        None => s,
        Some(id) => SessionView {
            messages: if s.has_message(id) {
                s.messages.update(s.position(id), cancelled_message(s.message(id), now))
            } else {
                s.messages
            },
            cancelled_call_ids: if s.has_message(id) {
                with_calls_of(s.cancelled_call_ids, s.message(id).tool_calls)
            } else {
                s.cancelled_call_ids
            },
            cancelled_message_ids: with_id(s.cancelled_message_ids, id),
            cancel_cutoff: Some(now),
            suppress_incoming: true,
            active_response_id: None,
            ..s
        },
    }
}

/// Whether a status says that the tool call has ended.
pub fn status_is_terminal(status: &str) -> (r: bool)
    ensures
        r == is_terminal(status@),
{
    same(status, "success") || same(status, "error") || same(status, "completed") || same(
        status,
        "cancelled",
    )
}

/// Adds `id` to the list unless it is there.
pub fn add_id(ids: &mut Vec<String>, id: &str)
    ensures
        final(ids).deep_view() == with_id(old(ids).deep_view(), id@),
{
    if !contains_text(ids, id) {
        ids.push(id.to_string());
        assert(ids.deep_view() =~= old(ids).deep_view().push(id@));
    }
}

/// Cancels every tool call of a message that had not ended, and records
/// their correlation keys in `ids`.
pub fn cancel_tools(tools: &mut Vec<ToolCall>, ids: &mut Vec<String>, now: i64)
    ensures
        final(tools).deep_view() == old(tools).deep_view().map_values(
            |t: ToolCallView| cancelled_tool(t, now),
        ),
        final(ids).deep_view() == with_calls_of(old(ids).deep_view(), old(tools).deep_view()),
{
    let ghost before = tools.deep_view();
    let ghost ids_before = ids.deep_view();
    let n = tools.len();
    let mut k: usize = 0;
    while k < n
        invariant
            0 <= k <= n,
            n == tools.len(),
            before.len() == n,
            forall|j: int| 0 <= j < k ==> #[trigger] tools.deep_view()[j] == cancelled_tool(before[j], now),
            forall|j: int| k <= j < n ==> #[trigger] tools.deep_view()[j] == before[j],
            ids.deep_view() == with_calls_of(ids_before, before.take(k as int)),
        decreases n - k,
    {
        let ghost held = tools@;
        let ghost held_view = tools.deep_view();
        proof {
            assert(before.take(k as int + 1).drop_last() =~= before.take(k as int));
            assert(before.take(k as int + 1).last() == before[k as int]);
            assert(held_view[k as int] == before[k as int]);
        }
        if !status_is_terminal(tools[k].status.as_str()) {
            tools[k].status = "cancelled".to_string();
            if tools[k].finished_at.is_none() {
                tools[k].finished_at = Some(now);
            }
            if let Some(call_id) = &tools[k].call_id {
                add_id(ids, call_id.as_str());
            }
        }
        proof {
            assert(tools.deep_view()[k as int] == cancelled_tool(before[k as int], now));
            assert forall|j: int| 0 <= j < k implies #[trigger] tools.deep_view()[j]
                == cancelled_tool(before[j], now) by {
                assert(tools@[j] == held[j]);
                assert(held_view[j] == cancelled_tool(before[j], now));
            }
            assert forall|j: int| k + 1 <= j < n implies #[trigger] tools.deep_view()[j]
                == before[j] by {
                assert(tools@[j] == held[j]);
                assert(held_view[j] == before[j]);
            }
        }
        k = k + 1;
    }
    proof {
        assert(before.take(n as int) =~= before);
        assert(tools.deep_view() =~= before.map_values(|t: ToolCallView| cancelled_tool(t, now)));
    }
}

/// Cancels the active response as of `now`. See [`cancelled`] for what the
/// session is afterwards; without an active response it is what it was.
pub fn cancel_active_response_at(session: &mut Session, now: i64)
    ensures
        final(session)@ == cancelled(old(session)@, now),
        old(session)@.active_response_id is None ==> final(session)@ == old(session)@,
        old(session)@.wf() ==> final(session)@.wf(),
{
    proof {
        if session@.wf() {
            crate::laws::law_cancel_keeps_wf(session@, now);
        }
    }
    let active = match session.active_response_id.take() {
        Some(id) => id,
        None => {
            return ;
        },
    };
    let i = find_message(&session.messages, active.as_str());
    if i < session.messages.len() {
        if session.messages[i].text.as_str().is_empty() {
            session.messages[i].text = "\u{2716} Cancelled".to_string();
        }
        cancel_tools(&mut session.messages[i].tool_calls, &mut session.cancelled_call_ids, now);
        assert(session.messages.deep_view() =~= cancelled(old(session)@, now).messages);
    }
    add_id(&mut session.cancelled_message_ids, active.as_str());
    session.cancel_cutoff = Some(now);
    session.suppress_incoming = true;
}

/// Cancels the active response as of the wall clock's present reading. The
/// session afterwards is what [`cancelled`] gives for the cutoff that it then
/// holds; without an active response it is what it was.
pub fn cancel_active_response(session: &mut Session)
    ensures
        old(session)@.active_response_id is None ==> final(session)@ == old(session)@,
        old(session)@.active_response_id is Some ==> final(session)@.cancel_cutoff is Some
            && final(session)@ == cancelled(old(session)@, final(session)@.cancel_cutoff->0),
        old(session)@.wf() ==> final(session)@.wf(),
{
    if session.active_response_id.is_some() {
        let now = now_millis();
        cancel_active_response_at(session, now);
    }
}

/// How long the caller waits between its two requests to abort, in
/// milliseconds.
pub const ABORT_RETRY_DELAY_MS: u64 = 200;

/// One step of telling the server to stop.
#[derive(Debug, Clone, Copy, PartialEq, Eq, Structural)]
pub enum AbortStep {
    /// Ask the server to abort the session's response. A failure is
    /// absorbed: the local transcript does not depend on it.
    Abort,
    /// Wait for so many milliseconds.
    Wait(u64),
}

/// What the caller owes the server after a cancellation: a request to abort
/// at once, and a second one after a short wait, for the case that the
/// server began further work before the first one arrived. There is no
/// third.
pub open spec fn abort_schedule() -> Seq<AbortStep> {
    seq![AbortStep::Abort, AbortStep::Wait(ABORT_RETRY_DELAY_MS), AbortStep::Abort]
}

/// The steps by which the caller tells the server to stop, in order.
pub fn abort_steps() -> (r: Vec<AbortStep>)
    ensures
        r@ == abort_schedule(),
{
    let mut steps: Vec<AbortStep> = Vec::new();
    steps.push(AbortStep::Abort);
    steps.push(AbortStep::Wait(ABORT_RETRY_DELAY_MS));
    steps.push(AbortStep::Abort);
    assert(steps@ =~= abort_schedule());
    steps
}

} // verus!
