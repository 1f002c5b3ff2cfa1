//! What holds of the engine whatever the stream delivers: the laws of
//! cancellation, of snapshots, of the suppression window, of staleness and of
//! permission routing, each proved from the definitions that the functions'
//! contracts are stated in.

use crate::cancellation::{cancelled, with_calls_of, with_id};
use crate::event::{EnvelopeView, EventView, PermissionRequestView};
use crate::permission::is_moot;
use crate::event::{MessageInfoView, PartView, ToolUpdateView};
use crate::reconciler::{
    applied, dropped, is_assistant_text, is_stale, message_dropped, part_applied, part_dropped,
    fresh_message, fresh_tool, merged_tool, message_applied, with_message, with_part, with_tool,
};
use crate::seqs::lemma_first_index_is;
use crate::transcript::answers_to;
use crate::registry::{backed_by, RegistryView};
use crate::seqs::{first_index, lemma_first_index, lemma_first_index_same};
use crate::session::{sent, SessionView};
use crate::transcript::{has_id, MessageView, Role, ToolCallView};
use vstd::prelude::*;

verus! {

/// Everything that changes the state of the open sessions: an envelope
/// arrives, the user stops the response of a session, the user sends a
/// message in a session. Sessions are named by their place in the registry.
pub enum Action {
    Receive(EnvelopeView),
    Cancel { session: int, now: i64 },
    Send { session: int, now: i64 },
}

/// The registry after an action.
pub open spec fn after(r: RegistryView, a: Action) -> RegistryView {
    match a {
        Action::Receive(env) => r.dispatched(env),
        Action::Cancel { session, now } => if 0 <= session < r.sessions.len() {
            RegistryView {
                sessions: r.sessions.update(session, cancelled(r.sessions[session], now)),
                ..r
            }
        } else {
            r
        },
        Action::Send { session, now } => if 0 <= session < r.sessions.len() {
            RegistryView { sessions: r.sessions.update(session, sent(r.sessions[session], now)), ..r }
        } else {
            r
        },
    }
}

/// The registry after a sequence of actions.
pub open spec fn after_all(r: RegistryView, actions: Seq<Action>) -> RegistryView
    decreases actions.len(),
{
    if actions.len() == 0 {
        r
    } else {
        after(after_all(r, actions.drop_last()), actions.last())
    }
}

/// The session after a sequence of events.
pub open spec fn applied_all(s: SessionView, events: Seq<EventView>) -> SessionView
    decreases events.len(),
{
    if events.len() == 0 {
        s
    } else {
        applied(applied_all(s, events.drop_last()), events.last())
    }
}

/// Cancelling is idempotent: on a session without an active response it
/// changes nothing, neither the cancelled ids nor the cutoff nor anything
/// else.
pub proof fn law_cancel_without_active_response(s: SessionView, now: i64)
    requires
        s.active_response_id is None,
    ensures
        cancelled(s, now) == s,
{
}

/// Cancelling twice is cancelling once: the second cancellation finds no
/// active response, whatever its time.
pub proof fn law_cancel_twice(s: SessionView, first: i64, second: i64)
    ensures
        cancelled(cancelled(s, first), second) == cancelled(s, first),
{
}

/// An event that the session drops changes nothing.
pub proof fn law_dropped_event_changes_nothing(s: SessionView, e: EventView)
    requires
        dropped(s, e),
    ensures
        applied(s, e) == s,
{
}

/// The window after a cancellation is closed by two things only: a part
/// with text for an assistant message that the session accepts, and a
/// `message.updated` of the user that the session accepts.
pub proof fn law_suppression_cleared_by_event(s: SessionView, e: EventView)
    requires
        s.suppress_incoming,
        !applied(s, e).suppress_incoming,
    ensures
        !dropped(s, e),
        (e is PartUpdated && is_assistant_text(s, e->PartUpdated_0)) || (e is MessageUpdated
            && e->MessageUpdated_0.role == Role::User),
{
}

/// Neither a cancellation nor a send closes the window.
pub proof fn law_suppression_kept_by_user(s: SessionView, now: i64)
    requires
        s.suppress_incoming,
    ensures
        cancelled(s, now).suppress_incoming,
        sent(s, now).suppress_incoming,
{
}

/// No action removes or adds a session.
pub proof fn lemma_sessions_stay(r: RegistryView, a: Action)
    ensures
        after(r, a).sessions.len() == r.sessions.len(),
{
    if let Action::Receive(env) = a {
        if env.session_id is Some {
            lemma_first_index(r.sessions, backed_by(env.session_id->0));
        }
    }
}

/// Monotonic suppression, over everything that can happen: once the window
/// of a session is open, the only action that closes it is the arrival of an
/// envelope for that session which the session accepts and which holds either
/// text for one of its assistant messages or a `message.updated` of the user.
pub proof fn law_suppression_is_monotonic(r: RegistryView, a: Action, i: int)
    requires
        0 <= i < r.sessions.len(),
        r.sessions[i].suppress_incoming,
        !after(r, a).sessions[i].suppress_incoming,
    ensures
        a is Receive,
        a->Receive_0.session_id is Some,
        r.position(a->Receive_0.session_id->0) == i,
        !dropped(r.sessions[i], a->Receive_0.event),
        ({
            let e = a->Receive_0.event;
            (e is PartUpdated && is_assistant_text(r.sessions[i], e->PartUpdated_0)) || (e
                is MessageUpdated && e->MessageUpdated_0.role == Role::User)
        }),
{
    lemma_sessions_stay(r, a);
    match a {
        Action::Receive(env) => {
            if env.session_id is Some {
                lemma_first_index(r.sessions, backed_by(env.session_id->0));
            }
            law_suppression_cleared_by_event(r.sessions[i], env.event);
        },
        Action::Cancel { session, now } => {
            law_suppression_kept_by_user(r.sessions[i], now);
        },
        Action::Send { session, now } => {
            law_suppression_kept_by_user(r.sessions[i], now);
        },
    }
}

/// Staleness filter for messages: a `message.updated` created at or before
/// the cutoff, or before the last send, changes nothing.
pub proof fn law_stale_message_is_dropped(s: SessionView, e: EventView)
    requires
        e is MessageUpdated,
        is_stale(s, e->MessageUpdated_0.created as int),
    ensures
        dropped(s, e),
        applied(s, e) == s,
{
}

/// Staleness filter for permission requests: a request created at or before
/// the cutoff, or before the last send, is moot for its session.
pub proof fn law_stale_permission_is_moot(s: SessionView, r: PermissionRequestView)
    requires
        is_stale(s, r.created as int),
    ensures
        is_moot(s, r),
{
}

/// The creation time that an event carries, if it carries one.
pub open spec fn creation_time(e: EventView) -> Option<int> {
    match e {
        EventView::MessageUpdated(info) => Some(info.created as int),
        EventView::PermissionUpdated(r) => Some(r.created as int),
        _ => None,
    }
}

/// The session that an envelope concerns: for a permission request the one
/// it names, for every other event the one the envelope is addressed to.
pub open spec fn concerned_session(env: EnvelopeView) -> Option<Seq<char>> {
    match env.event {
        EventView::PermissionUpdated(r) => Some(r.session_id),
        _ => env.session_id,
    }
}

/// Staleness filter, regardless of the event's type: an envelope whose event
/// was created at or before the cutoff of the session it concerns, or before
/// that session's last send, leaves the registry as it was. A stale message
/// event is dropped; a stale permission request never enters the pending
/// list, and is handed back for rejection.
pub proof fn law_stale_event_is_dropped(r: RegistryView, env: EnvelopeView)
    requires
        creation_time(env.event) is Some,
        concerned_session(env) is Some,
        r.position(concerned_session(env)->0) < r.sessions.len(),
        is_stale(
            r.sessions[r.position(concerned_session(env)->0)],
            creation_time(env.event)->0,
        ),
    ensures
        r.dispatched(env) == r,
        env.event is PermissionUpdated ==> r.rejection_of(env) is Some,
{
    let i = r.position(concerned_session(env)->0);
    lemma_first_index(r.sessions, backed_by(concerned_session(env)->0));
    if env.event is MessageUpdated {
        assert(r.sessions.update(i, r.sessions[i]) =~= r.sessions);
    }
}

/// The ids of the messages of a transcript, in order.
pub open spec fn ids_of(ms: Seq<MessageView>) -> Seq<Seq<char>> {
    ms.map_values(|m: MessageView| m.message_id)
}

/// Transcripts with the same ids in the same order find every id at the same
/// place.
pub proof fn lemma_same_ids_same_position(a: SessionView, b: SessionView, id: Seq<char>)
    requires
        ids_of(a.messages) == ids_of(b.messages),
    ensures
        a.position(id) == b.position(id),
        a.has_message(id) == b.has_message(id),
{
    assert(a.messages.len() == ids_of(a.messages).len());
    assert(b.messages.len() == ids_of(b.messages).len());
    assert forall|j: int| 0 <= j < a.messages.len() implies has_id(id)(#[trigger] a.messages[j])
        == has_id(id)(b.messages[j]) by {
        assert(ids_of(a.messages)[j] == a.messages[j].message_id);
        assert(ids_of(b.messages)[j] == b.messages[j].message_id);
    }
    lemma_first_index_same(a.messages, b.messages, has_id(id));
}

/// A part changes no message's id, and neither adds nor removes a message.
pub proof fn lemma_part_keeps_ids(s: SessionView, e: EventView)
    requires
        e is PartUpdated,
    ensures
        ids_of(applied(s, e).messages) == ids_of(s.messages),
{
    let part = e->PartUpdated_0;
    if !part_dropped(s, part) {
        let id = part.message_id->0;
        lemma_first_index(s.messages, has_id(id));
    }
    assert(ids_of(applied(s, e).messages) =~= ids_of(s.messages));
}

/// Whether an event is a part with text for the message `id`.
pub open spec fn is_text_for(e: EventView, id: Seq<char>) -> bool {
    e is PartUpdated && e->PartUpdated_0.message_id == Some(id) && e->PartUpdated_0.kind is Text
}

/// The text that a part with text carries.
pub open spec fn text_of(e: EventView) -> Seq<char> {
    e->PartUpdated_0.kind->Text_0
}

/// Parts keep the messages of the transcript in their places.
pub proof fn lemma_texts_keep_ids(s: SessionView, events: Seq<EventView>, id: Seq<char>)
    requires
        forall|k: int| 0 <= k < events.len() ==> is_text_for(#[trigger] events[k], id),
    ensures
        ids_of(applied_all(s, events).messages) == ids_of(s.messages),
    decreases events.len(),
{
    if events.len() > 0 {
        let before = events.drop_last();
        assert forall|k: int| 0 <= k < before.len() implies is_text_for(
            #[trigger] before[k],
            id,
        ) by {
            assert(before[k] == events[k]);
        }
        lemma_texts_keep_ids(s, before, id);
        assert(is_text_for(events[events.len() - 1], id));
        lemma_part_keeps_ids(applied_all(s, before), events.last());
    }
}

/// Snapshot law: after any sequence of parts with text for one message, the
/// message's text is the text of the last part that was not dropped. It is
/// that part's text alone: nothing of what was stored before, or of the parts
/// before it, is kept.
pub proof fn law_snapshot(s: SessionView, events: Seq<EventView>, id: Seq<char>, last: int)
    requires
        forall|k: int| 0 <= k < events.len() ==> is_text_for(#[trigger] events[k], id),
        0 <= last < events.len(),
        !dropped(applied_all(s, events.take(last)), events[last]),
        forall|k: int|
            last < k < events.len() ==> dropped(
                applied_all(s, events.take(k)),
                #[trigger] events[k],
            ),
    ensures
        s.has_message(id),
        applied_all(s, events).has_message(id),
        applied_all(s, events).message(id).text == text_of(events[last]),
    decreases events.len(),
{
    let n = events.len() as int;
    let before = events.drop_last();
    assert(before =~= events.take(n - 1));
    let held = applied_all(s, before);
    assert forall|k: int| 0 <= k < before.len() implies is_text_for(#[trigger] before[k], id) by {
        assert(before[k] == events[k]);
    }
    lemma_texts_keep_ids(s, before, id);
    lemma_same_ids_same_position(held, s, id);
    lemma_first_index(held.messages, has_id(id));
    assert(is_text_for(events[n - 1], id));
    if last == n - 1 {
        let part = events[last]->PartUpdated_0;
        assert(applied_all(s, events) == part_applied(held, part));
        let after = part_applied(held, part);
        lemma_part_keeps_ids(held, events[last]);
        lemma_same_ids_same_position(after, held, id);
    } else {
        assert(dropped(applied_all(s, events.take(n - 1)), events[n - 1]));
        assert(applied_all(s, events) == held);
        assert forall|k: int| last < k < before.len() implies dropped(
            applied_all(s, before.take(k)),
            #[trigger] before[k],
        ) by {
            assert(before.take(k) =~= events.take(k));
            assert(before[k] == events[k]);
        }
        assert(before.take(last) =~= events.take(last));
        assert(before[last] == events[last]);
        law_snapshot(s, before, id, last);
    }
}

/// Snapshot law, the other case: where every event of a sequence is dropped,
/// the session is what it was.
pub proof fn law_snapshot_all_dropped(s: SessionView, events: Seq<EventView>)
    requires
        forall|k: int|
            0 <= k < events.len() ==> dropped(
                applied_all(s, events.take(k)),
                #[trigger] events[k],
            ),
    ensures
        applied_all(s, events) == s,
    decreases events.len(),
{
    if events.len() > 0 {
        let n = events.len() as int;
        let before = events.drop_last();
        assert(before =~= events.take(n - 1));
        assert forall|k: int| 0 <= k < before.len() implies dropped(
            applied_all(s, before.take(k)),
            #[trigger] before[k],
        ) by {
            assert(before.take(k) =~= events.take(k));
            assert(before[k] == events[k]);
        }
        law_snapshot_all_dropped(s, before);
        assert(dropped(applied_all(s, events.take(n - 1)), events[n - 1]));
    }
}

/// Adding an id keeps every id that was there.
pub proof fn lemma_with_id_keeps(ids: Seq<Seq<char>>, id: Seq<char>, other: Seq<char>)
    requires
        ids.contains(other),
    ensures
        with_id(ids, id).contains(other),
{
    if !ids.contains(id) {
        let k = choose|k: int| 0 <= k < ids.len() && ids[k] == other;
        assert(ids.push(id)[k] == other);
    }
}

/// Adding an id to a list without repetitions gives one without repetitions.
pub proof fn lemma_with_id_no_duplicates(ids: Seq<Seq<char>>, id: Seq<char>)
    requires
        ids.no_duplicates(),
    ensures
        with_id(ids, id).no_duplicates(),
        with_id(ids, id).contains(id),
{
    if !ids.contains(id) {
        assert(ids.push(id)[ids.len() as int] == id);
    }
}

/// Recording the calls of a message keeps every id that was there, and
/// repeats none.
pub proof fn lemma_with_calls_of(ids: Seq<Seq<char>>, tools: Seq<ToolCallView>)
    ensures
        forall|c: Seq<char>| ids.contains(c) ==> #[trigger] with_calls_of(ids, tools).contains(c),
        ids.no_duplicates() ==> with_calls_of(ids, tools).no_duplicates(),
    decreases tools.len(),
{
    if tools.len() > 0 {
        lemma_with_calls_of(ids, tools.drop_last());
        let before = with_calls_of(ids, tools.drop_last());
        let t = tools.last();
        if !crate::transcript::is_terminal(t.status) && t.call_id is Some {
            assert forall|c: Seq<char>| ids.contains(c) implies #[trigger] with_calls_of(
                ids,
                tools,
            ).contains(c) by {
                lemma_with_id_keeps(before, t.call_id->0, c);
            }
            if ids.no_duplicates() {
                lemma_with_id_no_duplicates(before, t.call_id->0);
            }
        }
    }
}

/// What every operation keeps: no message id twice in the transcript, no id
/// twice among the cancelled messages or the cancelled calls.
pub proof fn law_events_keep_wf(s: SessionView, e: EventView)
    requires
        s.wf(),
    ensures
        applied(s, e).wf(),
{
    match e {
        EventView::MessageUpdated(info) => {
            if !message_dropped(s, info) {
                lemma_first_index(s.messages, has_id(info.id));
                let ms = with_message(s.messages, info);
                assert forall|i: int, j: int| 0 <= i < j < ms.len() implies (#[trigger] ms[i]).message_id
                    != (#[trigger] ms[j]).message_id by {
                    if j < s.messages.len() {
                        assert(ms[i].message_id == s.messages[i].message_id);
                        assert(ms[j].message_id == s.messages[j].message_id);
                    } else {
                        assert(!has_id(info.id)(s.messages[i]));
                    }
                }
            }
        },
        EventView::PartUpdated(part) => {
            lemma_part_keeps_ids(s, e);
            let ms = applied(s, e).messages;
            assert(ms.len() == ids_of(ms).len());
            assert(s.messages.len() == ids_of(s.messages).len());
            assert forall|i: int, j: int| 0 <= i < j < ms.len() implies (#[trigger] ms[i]).message_id
                != (#[trigger] ms[j]).message_id by {
                assert(ids_of(ms)[i] == ms[i].message_id);
                assert(ids_of(ms)[j] == ms[j].message_id);
                assert(ids_of(s.messages)[i] == s.messages[i].message_id);
                assert(ids_of(s.messages)[j] == s.messages[j].message_id);
            }
        },
        _ => {},
    }
}

/// Cancelling keeps what every operation keeps.
pub proof fn law_cancel_keeps_wf(s: SessionView, now: i64)
    requires
        s.wf(),
    ensures
        cancelled(s, now).wf(),
{
    if let Some(id) = s.active_response_id {
        lemma_first_index(s.messages, has_id(id));
        lemma_with_id_no_duplicates(s.cancelled_message_ids, id);
        if s.has_message(id) {
            lemma_with_calls_of(s.cancelled_call_ids, s.message(id).tool_calls);
        }
        let ms = cancelled(s, now).messages;
        assert forall|i: int, j: int| 0 <= i < j < ms.len() implies (#[trigger] ms[i]).message_id
            != (#[trigger] ms[j]).message_id by {
            assert(ms[i].message_id == s.messages[i].message_id);
            assert(ms[j].message_id == s.messages[j].message_id);
        }
    }
}

/// After a cancellation the cancelled message is on record, and so is the
/// correlation key of each of its tool calls that had not ended.
pub proof fn law_cancel_records(s: SessionView, now: i64, k: int)
    requires
        s.active_response_id is Some,
    ensures
        cancelled(s, now).cancelled_message_ids.contains(s.active_response_id->0),
        (s.has_message(s.active_response_id->0) && 0 <= k < s.message(
            s.active_response_id->0,
        ).tool_calls.len() && !crate::transcript::is_terminal(
            s.message(s.active_response_id->0).tool_calls[k].status,
        ) && s.message(s.active_response_id->0).tool_calls[k].call_id is Some) ==> cancelled(
            s,
            now,
        ).cancelled_call_ids.contains(
            s.message(s.active_response_id->0).tool_calls[k].call_id->0,
        ),
{
    let id = s.active_response_id->0;
    if s.cancelled_message_ids.contains(id) {
    } else {
        assert(s.cancelled_message_ids.push(id)[s.cancelled_message_ids.len() as int] == id);
    }
    if s.has_message(id) {
        let tools = s.message(id).tool_calls;
        if 0 <= k < tools.len() && !crate::transcript::is_terminal(tools[k].status)
            && tools[k].call_id is Some {
            lemma_call_recorded(s.cancelled_call_ids, tools, k);
        }
    }
}

/// The key of a call that had not ended is among the recorded ones.
pub proof fn lemma_call_recorded(ids: Seq<Seq<char>>, tools: Seq<ToolCallView>, k: int)
    requires
        0 <= k < tools.len(),
        !crate::transcript::is_terminal(tools[k].status),
        tools[k].call_id is Some,
    ensures
        with_calls_of(ids, tools).contains(tools[k].call_id->0),
    decreases tools.len(),
{
    let before = with_calls_of(ids, tools.drop_last());
    let t = tools.last();
    if k == tools.len() - 1 {
        if !before.contains(t.call_id->0) {
            assert(before.push(t.call_id->0)[before.len() as int] == t.call_id->0);
        }
    } else {
        assert(tools.drop_last()[k] == tools[k]);
        lemma_call_recorded(ids, tools.drop_last(), k);
        if !crate::transcript::is_terminal(t.status) && t.call_id is Some {
            lemma_with_id_keeps(before, t.call_id->0, tools[k].call_id->0);
        }
    }
}

/// Whether a request is for the call `call` of the session `session_id`.
pub open spec fn is_for_call(p: PermissionRequestView, session_id: Seq<char>, call: Seq<char>)
    -> bool {
    p.session_id == session_id && p.call_id == Some(call)
}

/// Whether the registry holds the call `call` of the open session
/// `session_id` as cancelled.
pub open spec fn call_is_cancelled(r: RegistryView, session_id: Seq<char>, call: Seq<char>)
    -> bool {
    r.position(session_id) < r.sessions.len() && r.sessions[r.position(
        session_id,
    )].cancelled_call_ids.contains(call)
}

/// Auto-reject correctness, at arrival: a permission request for a cancelled
/// call of an open session is handed back for rejection, and the pending list
/// stays as it was.
pub proof fn law_cancelled_call_is_rejected(r: RegistryView, p: PermissionRequestView)
    requires
        p.call_id is Some,
        call_is_cancelled(r, p.session_id, p.call_id->0),
    ensures
        r.requested(p) == r,
        r.rejection(p) is Some,
{
}

/// One action keeps a cancelled call cancelled, and lets no request for it
/// into the pending list.
pub proof fn lemma_cancelled_call_step(
    r: RegistryView,
    session_id: Seq<char>,
    call: Seq<char>,
    a: Action,
)
    requires
        call_is_cancelled(r, session_id, call),
    ensures
        call_is_cancelled(after(r, a), session_id, call),
        forall|p: PermissionRequestView|
            #[trigger] after(r, a).pending_permissions.contains(p) && is_for_call(
                p,
                session_id,
                call,
            ) ==> r.pending_permissions.contains(p),
{
    let next = after(r, a);
    let i = r.position(session_id);
    lemma_first_index(r.sessions, backed_by(session_id));
    lemma_sessions_stay(r, a);
    // No action changes which conversation backs a session.
    assert forall|j: int| 0 <= j < r.sessions.len() implies backed_by(session_id)(
        #[trigger] r.sessions[j],
    ) == backed_by(session_id)(next.sessions[j]) by {
        match a {
            Action::Receive(env) => {
                if env.session_id is Some {
                    lemma_first_index(r.sessions, backed_by(env.session_id->0));
                }
            },
            _ => {},
        }
    }
    lemma_first_index_same(r.sessions, next.sessions, backed_by(session_id));
    // No action takes an id out of the cancelled calls.
    match a {
        Action::Receive(env) => {
            if env.session_id is Some {
                lemma_first_index(r.sessions, backed_by(env.session_id->0));
            }
        },
        Action::Cancel { session, now } => {
            if session == i {
                let s = r.sessions[i];
                if s.active_response_id is Some && s.has_message(s.active_response_id->0) {
                    lemma_with_calls_of(
                        s.cancelled_call_ids,
                        s.message(s.active_response_id->0).tool_calls,
                    );
                }
            }
        },
        Action::Send { session, now } => {},
    }
    assert(next.sessions[i].cancelled_call_ids.contains(call));
    // The pending list takes in no request for the call.
    assert forall|p: PermissionRequestView| #[trigger]
        next.pending_permissions.contains(p) && is_for_call(
            p,
            session_id,
            call,
        ) implies r.pending_permissions.contains(p) by {
        let k = choose|k: int| 0 <= k < next.pending_permissions.len() && next.pending_permissions[k] == p;
        match a {
            Action::Receive(env) => {
                match env.event {
                    EventView::PermissionUpdated(q) => {
                        if !r.moot(q) {
                            if k < r.pending_permissions.len() {
                                assert(r.pending_permissions[k] == p);
                            } else {
                                assert(p == q);
                                assert(r.moot(q));
                            }
                        }
                    },
                    EventView::PermissionReplied { permission_id, session_id: sid } => {
                        let f = first_index(
                            r.pending_permissions,
                            crate::registry::is_request(permission_id, sid),
                        );
                        lemma_first_index(
                            r.pending_permissions,
                            crate::registry::is_request(permission_id, sid),
                        );
                        if f < r.pending_permissions.len() {
                            if k < f {
                                assert(r.pending_permissions[k] == p);
                            } else {
                                assert(r.pending_permissions[k + 1] == p);
                            }
                        }
                    },
                    _ => {
                        if env.session_id is Some {
                            lemma_first_index(r.sessions, backed_by(env.session_id->0));
                        }
                    },
                }
            },
            _ => {},
        }
    }
}

/// Auto-reject correctness, for all time: once a call of an open session is
/// cancelled, no permission request for that call enters the pending list,
/// whatever envelopes arrive and whatever the user stops or sends afterwards.
/// A request for it that is pending later was pending before.
pub proof fn law_cancelled_call_is_never_pending(
    r: RegistryView,
    session_id: Seq<char>,
    call: Seq<char>,
    actions: Seq<Action>,
)
    requires
        call_is_cancelled(r, session_id, call),
    ensures
        call_is_cancelled(after_all(r, actions), session_id, call),
        forall|p: PermissionRequestView|
            #[trigger] after_all(r, actions).pending_permissions.contains(p) && is_for_call(
                p,
                session_id,
                call,
            ) ==> r.pending_permissions.contains(p),
    decreases actions.len(),
{
    if actions.len() > 0 {
        let held = after_all(r, actions.drop_last());
        law_cancelled_call_is_never_pending(r, session_id, call, actions.drop_last());
        lemma_cancelled_call_step(held, session_id, call, actions.last());
    }
}

/// The time of the last send never moves back, whatever happens.
pub proof fn law_last_send_never_moves_back(r: RegistryView, a: Action, i: int)
    requires
        0 <= i < r.sessions.len(),
    ensures
        after(r, a).sessions.len() == r.sessions.len(),
        after(r, a).sessions[i].last_send_at >= r.sessions[i].last_send_at,
{
    lemma_sessions_stay(r, a);
    if let Action::Receive(env) = a {
        if env.session_id is Some {
            lemma_first_index(r.sessions, backed_by(env.session_id->0));
        }
    }
}

/// Whatever happens, every session stays well-formed.
pub proof fn law_actions_keep_wf(r: RegistryView, a: Action)
    requires
        r.wf(),
    ensures
        after(r, a).wf(),
{
    let next = after(r, a);
    lemma_sessions_stay(r, a);
    assert forall|i: int| 0 <= i < next.sessions.len() implies (#[trigger] next.sessions[i]).wf() by {
        assert(r.sessions[i].wf());
        match a {
            Action::Receive(env) => {
                if env.session_id is Some {
                    lemma_first_index(r.sessions, backed_by(env.session_id->0));
                }
                law_events_keep_wf(r.sessions[i], env.event);
            },
            Action::Cancel { session, now } => {
                law_cancel_keeps_wf(r.sessions[i], now);
            },
            Action::Send { session, now } => {},
        }
    }
}

/// No event deletes a message or changes a message's id: the ids of the
/// transcript before are the first ids of the transcript after.
pub proof fn law_events_delete_no_message(s: SessionView, e: EventView)
    ensures
        ids_of(s.messages).is_prefix_of(ids_of(applied(s, e).messages)),
{
    let after = applied(s, e).messages;
    match e {
        EventView::MessageUpdated(info) => {
            if !message_dropped(s, info) {
                lemma_first_index(s.messages, has_id(info.id));
            }
            assert(ids_of(after).subrange(0, ids_of(s.messages).len() as int) =~= ids_of(
                s.messages,
            ));
        },
        EventView::PartUpdated(part) => {
            lemma_part_keeps_ids(s, e);
            assert(ids_of(after).subrange(0, ids_of(s.messages).len() as int) =~= ids_of(
                s.messages,
            ));
        },
        _ => {
            assert(ids_of(after).subrange(0, ids_of(s.messages).len() as int) =~= ids_of(
                s.messages,
            ));
        },
    }
}

/// A cancellation deletes no message and changes no message's id.
pub proof fn law_cancel_deletes_no_message(s: SessionView, now: i64)
    ensures
        ids_of(cancelled(s, now).messages) == ids_of(s.messages),
{
    if let Some(id) = s.active_response_id {
        lemma_first_index(s.messages, has_id(id));
    }
    assert(ids_of(cancelled(s, now).messages) =~= ids_of(s.messages));
}

/// An update for a tool call that the message knows, by its id or by its
/// correlation key, creates no second record; an update for an unknown one
/// creates exactly one.
pub proof fn law_tool_updates_create_no_duplicate(
    tools: Seq<ToolCallView>,
    call_id: Option<Seq<char>>,
    u: ToolUpdateView,
)
    ensures
        crate::seqs::any(tools, answers_to(u.id, call_id)) ==> with_tool(tools, call_id, u).len()
            == tools.len(),
        !crate::seqs::any(tools, answers_to(u.id, call_id)) ==> with_tool(tools, call_id, u).len()
            == tools.len() + 1,
{
    lemma_first_index(tools, answers_to(u.id, call_id));
}

/// Merging the same update twice is merging it once.
pub proof fn lemma_merge_twice(t: ToolCallView, call_id: Option<Seq<char>>, u: ToolUpdateView)
    ensures
        merged_tool(merged_tool(t, call_id, u), call_id, u) == merged_tool(t, call_id, u),
        merged_tool(fresh_tool(call_id, u), call_id, u) == fresh_tool(call_id, u),
        answers_to(u.id, call_id)(fresh_tool(call_id, u)),
        answers_to(u.id, call_id)(t) ==> answers_to(u.id, call_id)(merged_tool(t, call_id, u)),
{
}

/// Taking in the same tool update twice is taking it in once.
pub proof fn lemma_tool_update_twice(
    tools: Seq<ToolCallView>,
    call_id: Option<Seq<char>>,
    u: ToolUpdateView,
)
    ensures
        with_tool(with_tool(tools, call_id, u), call_id, u) == with_tool(tools, call_id, u),
{
    let p = answers_to(u.id, call_id);
    let once = with_tool(tools, call_id, u);
    let j = first_index(tools, p);
    lemma_first_index(tools, p);
    lemma_merge_twice(if j < tools.len() {
        tools[j]
    } else {
        fresh_tool(call_id, u)
    }, call_id, u);
    assert forall|k: int| 0 <= k < j implies !p(#[trigger] once[k]) by {
        assert(once[k] == tools[k]);
    }
    assert(p(once[j]));
    lemma_first_index_is(once, p, j);
    assert(with_tool(once, call_id, u) =~= once);
}

/// Taking in the same `message.updated` twice is taking it in once.
pub proof fn lemma_message_twice(s: SessionView, info: MessageInfoView)
    ensures
        message_applied(message_applied(s, info), info) == message_applied(s, info),
{
    if !message_dropped(s, info) {
        let once = message_applied(s, info);
        let p = has_id(info.id);
        let i = first_index(s.messages, p);
        lemma_first_index(s.messages, p);
        assert forall|k: int| 0 <= k < i implies !p(#[trigger] once.messages[k]) by {
            assert(once.messages[k] == s.messages[k]);
        }
        assert(p(once.messages[i]));
        lemma_first_index_is(once.messages, p, i);
        assert(with_message(once.messages, info) =~= once.messages);
    }
}

/// Taking in the same part twice is taking it in once.
pub proof fn lemma_part_twice(s: SessionView, part: PartView)
    ensures
        part_applied(part_applied(s, part), part) == part_applied(s, part),
{
    if !part_dropped(s, part) {
        let id = part.message_id->0;
        let once = part_applied(s, part);
        let e = EventView::PartUpdated(part);
        lemma_part_keeps_ids(s, e);
        lemma_same_ids_same_position(once, s, id);
        lemma_first_index(s.messages, has_id(id));
        let i = s.position(id);
        assert(once.messages[i] == with_part(s.messages[i], part.call_id, part.kind));
        if let crate::event::PartKindView::Tool(u) = part.kind {
            lemma_tool_update_twice(s.messages[i].tool_calls, part.call_id, u);
        }
        assert(with_part(once.messages[i], part.call_id, part.kind) == once.messages[i]);
        assert(once.messages.update(i, once.messages[i]) =~= once.messages);
        assert(!part_dropped(once, part));
    }
}

/// Duplicates are harmless: an event that is delivered twice in a row leaves
/// the session as the first delivery left it.
pub proof fn law_duplicate_event_changes_nothing(s: SessionView, e: EventView)
    ensures
        applied(applied(s, e), e) == applied(s, e),
{
    match e {
        EventView::MessageUpdated(info) => lemma_message_twice(s, info),
        EventView::PartUpdated(part) => lemma_part_twice(s, part),
        _ => {},
    }
}

/// What a cancellation adds to the cancelled calls is keys of calls of the
/// message that had not ended, and nothing else.
pub proof fn lemma_with_calls_of_adds_only(
    ids: Seq<Seq<char>>,
    tools: Seq<ToolCallView>,
    c: Seq<char>,
)
    requires
        with_calls_of(ids, tools).contains(c),
    ensures
        ids.contains(c) || exists|k: int|
            0 <= k < tools.len() && !crate::transcript::is_terminal((#[trigger] tools[k]).status)
                && tools[k].call_id == Some(c),
    decreases tools.len(),
{
    if tools.len() > 0 {
        let before = with_calls_of(ids, tools.drop_last());
        let t = tools.last();
        let last = tools.len() - 1;
        if !crate::transcript::is_terminal(t.status) && t.call_id is Some && !before.contains(c) {
            let w = choose|w: int| 0 <= w < before.push(t.call_id->0).len() && before.push(
                t.call_id->0,
            )[w] == c;
            if w < before.len() {
                assert(before[w] == c);
            }
            assert(tools[last].call_id == Some(c));
        } else {
            lemma_with_calls_of_adds_only(ids, tools.drop_last(), c);
            if !ids.contains(c) {
                let k = choose|k: int|
                    0 <= k < tools.drop_last().len() && !crate::transcript::is_terminal(
                        (#[trigger] tools.drop_last()[k]).status,
                    ) && tools.drop_last()[k].call_id == Some(c);
                assert(tools[k] == tools.drop_last()[k]);
            }
        }
    }
}

/// A cancellation records no call but those of the cancelled message that
/// had not ended: a key that is on record afterwards and was not before is
/// the key of such a call.
pub proof fn law_cancel_records_only_its_calls(s: SessionView, now: i64, c: Seq<char>)
    requires
        cancelled(s, now).cancelled_call_ids.contains(c),
        !s.cancelled_call_ids.contains(c),
    ensures
        s.active_response_id is Some,
        s.has_message(s.active_response_id->0),
        exists|k: int|
            0 <= k < s.message(s.active_response_id->0).tool_calls.len()
                && !crate::transcript::is_terminal(
                (#[trigger] s.message(s.active_response_id->0).tool_calls[k]).status,
            ) && s.message(s.active_response_id->0).tool_calls[k].call_id == Some(c),
{
    let id = s.active_response_id->0;
    lemma_with_calls_of_adds_only(s.cancelled_call_ids, s.message(id).tool_calls, c);
}

/// Which tool call an update reaches: the first that has the update's id
/// or, where the update has a correlation key, that key. It alone changes.
/// Where there is none, the update makes a new call at the end and changes
/// none.
pub proof fn law_tool_update_resolution(
    tools: Seq<ToolCallView>,
    call_id: Option<Seq<char>>,
    u: ToolUpdateView,
)
    ensures
        ({
            let j = first_index(tools, answers_to(u.id, call_id));
            &&& 0 <= j <= tools.len()
            &&& forall|k: int|
                0 <= k < j ==> (#[trigger] tools[k]).id != u.id && !(call_id is Some
                    && tools[k].call_id == call_id)
            &&& j < tools.len() ==> (tools[j].id == u.id || (call_id is Some && tools[j].call_id
                == call_id)) && with_tool(tools, call_id, u) == tools.update(
                j,
                merged_tool(tools[j], call_id, u),
            )
            &&& j == tools.len() ==> with_tool(tools, call_id, u) == tools.push(
                fresh_tool(call_id, u),
            )
        }),
{
    let p = answers_to(u.id, call_id);
    lemma_first_index(tools, p);
    let j = first_index(tools, p);
    assert forall|k: int| 0 <= k < j implies (#[trigger] tools[k]).id != u.id && !(call_id
        is Some && tools[k].call_id == call_id) by {
        assert(!p(tools[k]));
    }
    if j < tools.len() {
        assert(p(tools[j]));
    }
}

/// The condition "this tool call has the id `id`".
pub open spec fn has_tool_id(id: Seq<char>) -> spec_fn(ToolCallView) -> bool {
    |t: ToolCallView| t.id == id
}

/// An update without a correlation key is resolved by its id alone: it
/// reaches the first call with that id, whatever keys the calls have, and
/// makes a new call where no call has that id.
pub proof fn law_update_without_key_resolves_by_id(tools: Seq<ToolCallView>, u: ToolUpdateView)
    ensures
        first_index(tools, answers_to(u.id, None)) == first_index(tools, has_tool_id(u.id)),
        (forall|k: int| 0 <= k < tools.len() ==> (#[trigger] tools[k]).id != u.id) ==> with_tool(
            tools,
            None,
            u,
        ) == tools.push(fresh_tool(None, u)),
{
    let p = answers_to(u.id, None);
    let q = has_tool_id(u.id);
    lemma_first_index(tools, p);
    lemma_first_index(tools, q);
    let j = first_index(tools, p);
    assert forall|k: int| 0 <= k < j implies !q(#[trigger] tools[k]) by {
        assert(!p(tools[k]));
    }
    if j < tools.len() {
        assert(p(tools[j]));
    }
    lemma_first_index_is(tools, q, j);
    if forall|k: int| 0 <= k < tools.len() ==> (#[trigger] tools[k]).id != u.id {
        if j < tools.len() {
            assert(tools[j].id != u.id);
        }
    }
}

} // verus!
