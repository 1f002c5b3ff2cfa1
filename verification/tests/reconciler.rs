use opencode_egui::cancellation::{
    abort_steps, add_id, cancel_active_response, cancel_active_response_at, status_is_terminal,
    AbortStep, ABORT_RETRY_DELAY_MS,
};
use opencode_egui::event::{Event, MessageInfo, Part, PartKind, ToolUpdate};
use opencode_egui::reconciler::{apply, find_tool};
use opencode_egui::text::same_optional;
use opencode_egui::registry::handle_event;
use opencode_egui::session::{record_send, record_send_at, Session};
use opencode_egui::transcript::{Role, TokenCounts};

fn json(text: &str) -> serde_json::Value {
    serde_json::from_str(text).unwrap()
}

fn message(id: &str, role: Role, created: i64, finished: bool) -> Event {
    Event::MessageUpdated(MessageInfo {
        id: id.to_string(),
        role,
        created,
        finished,
        tokens: TokenCounts { input: None, output: None, reasoning: None },
    })
}

fn text(message_id: &str, text: &str) -> Event {
    Event::PartUpdated(Part {
        message_id: Some(message_id.to_string()),
        call_id: None,
        kind: PartKind::Text(text.to_string()),
    })
}

fn reasoning(message_id: &str, text: &str) -> Event {
    Event::PartUpdated(Part {
        message_id: Some(message_id.to_string()),
        call_id: None,
        kind: PartKind::Reasoning(text.to_string()),
    })
}

fn update(id: &str) -> ToolUpdate {
    ToolUpdate {
        id: id.to_string(),
        name: None,
        status: None,
        input: serde_json::Value::Null,
        output: None,
        error: None,
        metadata: serde_json::Map::new(),
        started_at: None,
        finished_at: None,
        logs: Vec::new(),
    }
}

fn tool(message_id: &str, call_id: Option<&str>, update: ToolUpdate) -> Event {
    Event::PartUpdated(Part {
        message_id: Some(message_id.to_string()),
        call_id: call_id.map(|c| c.to_string()),
        kind: PartKind::Tool(update),
    })
}

fn streaming(id: &str) -> Session {
    let mut s = Session::new("tab".to_string());
    apply(&mut s, message(id, Role::Assistant, 10, false));
    s
}

#[test]
fn a_new_session_is_empty() {
    let s = Session::new("first".to_string());
    assert_eq!(s.title, "first");
    assert!(s.messages.is_empty());
    assert_eq!(s.active_response_id, None);
    assert!(s.cancelled_message_ids.is_empty());
    assert!(s.cancelled_call_ids.is_empty());
    assert_eq!(s.cancel_cutoff, None);
    assert!(!s.suppress_incoming);
    assert_eq!(s.last_send_at, 0);
    assert_eq!(s.position("m1"), 0);
}

#[test]
fn scenario_cancel_then_new_turn() {
    let mut s = Session::new("tab".to_string());
    record_send_at(&mut s, 2000);
    assert_eq!(s.last_send_at, 2000);

    apply(&mut s, message("m1", Role::Assistant, 2100, false));
    assert_eq!(s.active_response_id.as_deref(), Some("m1"));

    cancel_active_response_at(&mut s, 2500);
    assert_eq!(s.cancel_cutoff, Some(2500));
    assert_eq!(s.cancelled_message_ids, vec!["m1".to_string()]);
    assert!(s.suppress_incoming);
    assert_eq!(s.active_response_id, None);

    let before = s.clone();
    apply(&mut s, text("m1", "late"));
    assert_eq!(format!("{:?}", s), format!("{:?}", before));

    apply(&mut s, message("m2", Role::User, 2600, false));
    assert_eq!(s.messages.len(), 2);
    assert_eq!(s.messages[1].message_id, "m2");
    assert!(!s.suppress_incoming);
    assert_eq!(s.last_send_at, 2000);

    apply(&mut s, message("m3", Role::Assistant, 2700, false));
    assert_eq!(s.messages.len(), 3);
    assert_eq!(s.messages[2].message_id, "m3");
    assert_eq!(s.messages[2].role, Role::Assistant);
    assert_eq!(s.active_response_id.as_deref(), Some("m3"));
}

#[test]
fn scenario_tool_call_gets_its_call_id_later() {
    let mut s = streaming("m1");
    let mut first = update("t1");
    first.status = Some("running".to_string());
    apply(&mut s, tool("m1", None, first));
    assert_eq!(s.messages[0].tool_calls.len(), 1);
    assert_eq!(s.messages[0].tool_calls[0].call_id, None);
    assert_eq!(s.messages[0].tool_calls[0].status, "running");

    let mut second = update("t1");
    second.status = Some("success".to_string());
    second.output = Some("42".to_string());
    apply(&mut s, tool("m1", Some("c1"), second));
    assert_eq!(s.messages[0].tool_calls.len(), 1);
    let call = &s.messages[0].tool_calls[0];
    assert_eq!(call.id, "t1");
    assert_eq!(call.call_id.as_deref(), Some("c1"));
    assert_eq!(call.status, "success");
    assert_eq!(call.output.as_deref(), Some("42"));
}

#[test]
fn text_parts_replace_and_never_append() {
    let mut s = streaming("m1");
    apply(&mut s, text("m1", "Hel"));
    apply(&mut s, text("m1", "Hello"));
    apply(&mut s, text("m1", "Hello, world"));
    assert_eq!(s.messages[0].text, "Hello, world");
    apply(&mut s, text("m1", "Hi"));
    assert_eq!(s.messages[0].text, "Hi");
    apply(&mut s, reasoning("m1", "thinking"));
    apply(&mut s, reasoning("m1", "thought"));
    assert_eq!(s.messages[0].reasoning, "thought");
    assert_eq!(s.messages[0].text, "Hi");
    apply(&mut s, text("m1", ""));
    assert_eq!(s.messages[0].text, "");
}

#[test]
fn the_last_accepted_text_stays_when_later_ones_are_dropped() {
    let mut s = streaming("m1");
    apply(&mut s, text("m1", "kept"));
    cancel_active_response_at(&mut s, 100);
    apply(&mut s, text("m1", "late one"));
    apply(&mut s, text("m1", "late two"));
    assert_eq!(s.messages[0].text, "kept");
}

#[test]
fn message_updated_is_dropped_when_stale_or_cancelled() {
    let mut s = Session::new("tab".to_string());
    record_send_at(&mut s, 1000);
    apply(&mut s, message("old", Role::Assistant, 999, false));
    assert!(s.messages.is_empty());
    assert_eq!(s.active_response_id, None);
    apply(&mut s, message("edge", Role::Assistant, 1000, false));
    assert_eq!(s.messages.len(), 1);

    cancel_active_response_at(&mut s, 1500);
    apply(&mut s, message("edge", Role::Assistant, 2000, false));
    assert_eq!(s.active_response_id, None);
    apply(&mut s, message("at-cutoff", Role::User, 1500, false));
    assert_eq!(s.messages.len(), 1);
    assert!(s.suppress_incoming);
    apply(&mut s, message("after-cutoff", Role::User, 1501, false));
    assert_eq!(s.messages.len(), 2);
    assert!(!s.suppress_incoming);
}

#[test]
fn finish_clears_the_active_response_only_for_its_own_message() {
    let mut s = streaming("m1");
    apply(&mut s, message("m0", Role::Assistant, 20, true));
    assert_eq!(s.active_response_id.as_deref(), Some("m1"));
    assert_eq!(s.messages.len(), 2);
    apply(&mut s, message("m1", Role::Assistant, 20, true));
    assert_eq!(s.active_response_id, None);
    apply(&mut s, message("m2", Role::User, 30, false));
    assert_eq!(s.active_response_id, None);
    apply(&mut s, message("m3", Role::System, 30, true));
    assert_eq!(s.active_response_id, None);
    assert_eq!(s.messages.len(), 4);
}

#[test]
fn counters_are_set_for_the_assistant_only() {
    let counts = TokenCounts { input: Some(10), output: Some(20), reasoning: None };
    let mut s = Session::new("tab".to_string());
    apply(
        &mut s,
        Event::MessageUpdated(MessageInfo {
            id: "u".to_string(),
            role: Role::User,
            created: 1,
            finished: false,
            tokens: counts,
        }),
    );
    assert_eq!(s.messages[0].tokens, TokenCounts::none());
    apply(
        &mut s,
        Event::MessageUpdated(MessageInfo {
            id: "a".to_string(),
            role: Role::Assistant,
            created: 2,
            finished: false,
            tokens: counts,
        }),
    );
    assert_eq!(s.messages[1].tokens, counts);
    let more = TokenCounts { input: Some(11), output: None, reasoning: Some(3) };
    apply(
        &mut s,
        Event::MessageUpdated(MessageInfo {
            id: "a".to_string(),
            role: Role::Assistant,
            created: 3,
            finished: true,
            tokens: more,
        }),
    );
    assert_eq!(s.messages.len(), 2);
    assert_eq!(s.messages[1].tokens, more);
    apply(
        &mut s,
        Event::MessageUpdated(MessageInfo {
            id: "a".to_string(),
            role: Role::User,
            created: 4,
            finished: false,
            tokens: counts,
        }),
    );
    assert_eq!(s.messages[1].tokens, more);
    assert_eq!(s.messages[1].role, Role::Assistant);
}

#[test]
fn parts_for_unknown_messages_change_nothing() {
    let mut s = streaming("m1");
    let before = format!("{:?}", s);
    apply(&mut s, text("nobody", "x"));
    apply(&mut s, tool("nobody", Some("c"), update("t")));
    apply(
        &mut s,
        Event::PartUpdated(Part { message_id: None, call_id: None, kind: PartKind::Text("x".to_string()) }),
    );
    apply(
        &mut s,
        Event::PartUpdated(Part {
            message_id: Some("m1".to_string()),
            call_id: None,
            kind: PartKind::Other,
        }),
    );
    apply(&mut s, Event::Ignored);
    assert_eq!(format!("{:?}", s), before);
}

#[test]
fn the_window_lets_only_assistant_text_through() {
    let mut s = Session::new("tab".to_string());
    apply(&mut s, message("u1", Role::User, 1, false));
    apply(&mut s, message("a1", Role::Assistant, 2, false));
    apply(&mut s, message("a2", Role::Assistant, 3, false));
    cancel_active_response_at(&mut s, 0);
    assert_eq!(s.cancelled_message_ids, vec!["a2".to_string()]);
    assert!(s.suppress_incoming);

    apply(&mut s, reasoning("a1", "r"));
    apply(&mut s, tool("a1", None, update("t")));
    apply(&mut s, text("u1", "user text"));
    apply(&mut s, text("unknown", "x"));
    assert!(s.suppress_incoming);
    assert_eq!(s.messages[1].reasoning, "");
    assert!(s.messages[1].tool_calls.is_empty());
    assert_eq!(s.messages[0].text, "");

    apply(&mut s, text("a2", "cancelled message"));
    assert!(s.suppress_incoming);

    apply(&mut s, text("a1", "fresh"));
    assert!(!s.suppress_incoming);
    assert_eq!(s.messages[1].text, "fresh");
    apply(&mut s, reasoning("a1", "r"));
    assert_eq!(s.messages[1].reasoning, "r");
}

#[test]
fn a_part_of_a_cancelled_call_is_dropped_and_leaves_the_window_open() {
    let mut s = streaming("m1");
    let mut running = update("t1");
    running.status = Some("running".to_string());
    apply(&mut s, tool("m1", Some("c1"), running));
    cancel_active_response_at(&mut s, 50);
    assert_eq!(s.cancelled_call_ids, vec!["c1".to_string()]);
    apply(&mut s, message("m2", Role::Assistant, 60, false));
    assert!(s.suppress_incoming);
    apply(
        &mut s,
        Event::PartUpdated(Part {
            message_id: Some("m2".to_string()),
            call_id: Some("c1".to_string()),
            kind: PartKind::Text("late".to_string()),
        }),
    );
    assert!(s.suppress_incoming);
    assert_eq!(s.messages[1].text, "");
}

#[test]
fn tool_updates_are_sticky() {
    let mut s = streaming("m1");
    let mut first = update("t1");
    first.name = Some("bash".to_string());
    first.status = Some("running".to_string());
    first.input = json(r#"{"command": "ls"}"#);
    first.metadata = json(r#"{"cwd": "/"}"#).as_object().unwrap().clone();
    first.started_at = Some(5);
    first.logs = vec!["one".to_string()];
    apply(&mut s, tool("m1", Some("c1"), first));

    apply(&mut s, tool("m1", Some("c1"), update("other-id")));
    assert_eq!(s.messages[0].tool_calls.len(), 1);
    let call = s.messages[0].tool_calls[0].clone();
    assert_eq!(call.id, "t1");
    assert_eq!(call.name, "bash");
    assert_eq!(call.status, "running");
    assert_eq!(call.input, json(r#"{"command": "ls"}"#));
    assert_eq!(call.metadata.len(), 1);
    assert_eq!(call.started_at, Some(5));
    assert_eq!(call.finished_at, None);
    assert_eq!(call.logs, vec!["one".to_string()]);

    let mut second = update("t1");
    second.name = Some("".to_string());
    second.status = Some("error".to_string());
    second.input = json("[1]");
    second.error = Some("boom".to_string());
    second.metadata = json(r#"{"a": 1, "b": 2}"#).as_object().unwrap().clone();
    second.started_at = Some(6);
    second.finished_at = Some(9);
    second.logs = vec!["two".to_string(), "three".to_string()];
    apply(&mut s, tool("m1", Some("c2"), second));
    assert_eq!(s.messages[0].tool_calls.len(), 1);
    let call = &s.messages[0].tool_calls[0];
    assert_eq!(call.name, "");
    assert_eq!(call.status, "error");
    assert_eq!(call.call_id.as_deref(), Some("c1"));
    assert_eq!(call.input, json("[1]"));
    assert_eq!(call.output, None);
    assert_eq!(call.error.as_deref(), Some("boom"));
    assert_eq!(call.metadata.len(), 2);
    assert_eq!(call.started_at, Some(6));
    assert_eq!(call.finished_at, Some(9));
    assert_eq!(call.logs.len(), 2);
}

#[test]
fn a_new_tool_call_takes_what_the_update_gives() {
    let mut s = streaming("m1");
    apply(&mut s, tool("m1", Some("c1"), update("t1")));
    let call = &s.messages[0].tool_calls[0];
    assert_eq!(call.name, "unknown");
    assert_eq!(call.status, "unknown");
    assert!(call.input.is_null());
    assert!(call.metadata.is_empty());

    apply(&mut s, tool("m1", Some("c2"), update("t2")));
    assert_eq!(s.messages[0].tool_calls.len(), 2);
    apply(&mut s, tool("m1", None, update("t3")));
    assert_eq!(s.messages[0].tool_calls.len(), 3);
    apply(&mut s, tool("m1", None, update("t4")));
    assert_eq!(s.messages[0].tool_calls.len(), 4);
    assert_eq!(find_tool(&s.messages[0].tool_calls, "t4", &None), 3);
    assert_eq!(find_tool(&s.messages[0].tool_calls, "t3", &None), 2);
    assert_eq!(find_tool(&s.messages[0].tool_calls, "t2", &None), 1);
    assert_eq!(find_tool(&s.messages[0].tool_calls, "zz", &None), 4);
    assert_eq!(find_tool(&s.messages[0].tool_calls, "zz", &Some("c2".to_string())), 1);
    assert_eq!(find_tool(&s.messages[0].tool_calls, "t4", &Some("c2".to_string())), 1);
    assert_eq!(find_tool(&s.messages[0].tool_calls, "zz", &Some("c9".to_string())), 4);
    assert!(same_optional(&None, &None));
    assert!(!same_optional(&Some("a".to_string()), &None));
    assert!(!same_optional(&Some("a".to_string()), &Some("b".to_string())));
}

#[test]
fn cancel_without_active_response_changes_nothing() {
    let mut s = Session::new("tab".to_string());
    apply(&mut s, message("m1", Role::Assistant, 5, true));
    record_send_at(&mut s, 7);
    let before = format!("{:?}", s);
    cancel_active_response_at(&mut s, 9999);
    assert_eq!(format!("{:?}", s), before);
    cancel_active_response(&mut s);
    assert_eq!(format!("{:?}", s), before);

    let mut t = streaming("m1");
    cancel_active_response_at(&mut t, 100);
    let once = format!("{:?}", t);
    cancel_active_response_at(&mut t, 200);
    assert_eq!(format!("{:?}", t), once);
}

#[test]
fn cancel_marks_the_message_and_its_running_tools() {
    let mut s = streaming("m1");
    let mut running = update("t1");
    running.status = Some("running".to_string());
    apply(&mut s, tool("m1", Some("c1"), running));
    let mut done = update("t2");
    done.status = Some("completed".to_string());
    apply(&mut s, tool("m1", Some("c2"), done));
    let mut pending = update("t3");
    pending.status = Some("pending".to_string());
    pending.finished_at = Some(3);
    apply(&mut s, tool("m1", Some("c1x"), pending));
    let mut anonymous = update("t4");
    anonymous.status = Some("running".to_string());
    apply(&mut s, tool("m1", None, anonymous));
    assert_eq!(s.messages[0].tool_calls.len(), 4);

    cancel_active_response_at(&mut s, 77);
    let m = &s.messages[0];
    assert_eq!(m.text, "\u{2716} Cancelled");
    assert_eq!(m.tool_calls[0].status, "cancelled");
    assert_eq!(m.tool_calls[0].finished_at, Some(77));
    assert_eq!(m.tool_calls[1].status, "completed");
    assert_eq!(m.tool_calls[1].finished_at, None);
    assert_eq!(m.tool_calls[2].status, "cancelled");
    assert_eq!(m.tool_calls[2].finished_at, Some(3));
    assert_eq!(m.tool_calls[3].status, "cancelled");
    assert_eq!(s.cancelled_call_ids, vec!["c1".to_string(), "c1x".to_string()]);
    assert_eq!(s.cancelled_message_ids, vec!["m1".to_string()]);
    assert_eq!(s.cancel_cutoff, Some(77));
    assert!(s.suppress_incoming);
    assert_eq!(s.active_response_id, None);
}

#[test]
fn cancel_keeps_text_that_is_there_and_lists_ids_once() {
    let mut s = streaming("m1");
    apply(&mut s, text("m1", "partial answer"));
    let mut a = update("t1");
    a.status = Some("running".to_string());
    apply(&mut s, tool("m1", Some("c1"), a));
    s.cancelled_call_ids.push("c1".to_string());
    s.cancelled_message_ids.push("m1".to_string());
    cancel_active_response_at(&mut s, -5);
    assert_eq!(s.messages[0].text, "partial answer");
    assert_eq!(s.cancelled_call_ids, vec!["c1".to_string()]);
    assert_eq!(s.cancelled_message_ids, vec!["m1".to_string()]);
    assert_eq!(s.cancel_cutoff, Some(-5));
}

#[test]
fn cancel_of_an_active_response_without_message_still_opens_the_window() {
    let mut s = Session::new("tab".to_string());
    s.active_response_id = Some("ghost".to_string());
    cancel_active_response(&mut s);
    assert!(s.messages.is_empty());
    assert_eq!(s.cancelled_message_ids, vec!["ghost".to_string()]);
    assert!(s.cancel_cutoff.is_some());
    assert!(s.cancel_cutoff.unwrap() > 1_500_000_000_000);
    assert!(s.suppress_incoming);
    assert_eq!(s.active_response_id, None);
}

#[test]
fn terminal_statuses() {
    assert!(status_is_terminal("success"));
    assert!(status_is_terminal("completed"));
    assert!(status_is_terminal("error"));
    assert!(status_is_terminal("cancelled"));
    assert!(!status_is_terminal("running"));
    assert!(!status_is_terminal("pending"));
    assert!(!status_is_terminal(""));
    assert!(!status_is_terminal("Success"));
}

#[test]
fn add_id_adds_once() {
    let mut ids = Vec::new();
    add_id(&mut ids, "a");
    add_id(&mut ids, "b");
    add_id(&mut ids, "a");
    assert_eq!(ids, vec!["a".to_string(), "b".to_string()]);
}

#[test]
fn the_time_of_the_last_send_never_moves_back() {
    let mut s = Session::new("tab".to_string());
    record_send_at(&mut s, 500);
    record_send_at(&mut s, 400);
    assert_eq!(s.last_send_at, 500);
    record_send_at(&mut s, 500);
    assert_eq!(s.last_send_at, 500);
    s.suppress_incoming = true;
    record_send(&mut s);
    assert!(s.last_send_at > 1_500_000_000_000);
    assert!(s.suppress_incoming);
    let now = s.last_send_at;
    record_send_at(&mut s, 0);
    assert_eq!(s.last_send_at, now);
}

#[test]
fn handle_event_decodes_and_applies() {
    let mut s = Session::new("tab".to_string());
    handle_event(
        &mut s,
        &json(
            r#"{"type": "message.updated", "properties": {"info": {
                "id": "m1", "role": "assistant", "sessionID": "s1",
                "time": {"created": 10},
                "tokens": {"input": 3, "output": 4, "reasoning": 5}}}}"#,
        ),
    );
    assert_eq!(s.messages.len(), 1);
    assert_eq!(s.messages[0].role, Role::Assistant);
    assert_eq!(
        s.messages[0].tokens,
        TokenCounts { input: Some(3), output: Some(4), reasoning: Some(5) }
    );
    assert_eq!(s.active_response_id.as_deref(), Some("m1"));
    handle_event(
        &mut s,
        &json(
            r#"{"type": "message.part.updated", "properties": {"part": {
                "messageID": "m1", "type": "text", "text": "hello"}}}"#,
        ),
    );
    assert_eq!(s.messages[0].text, "hello");
    handle_event(
        &mut s,
        &json(
            r#"{"type": "message.updated", "properties": {"info": {
                "id": "m1", "role": "assistant", "time": {"created": 11}, "finish": "stop"}}}"#,
        ),
    );
    assert_eq!(s.active_response_id, None);
    assert_eq!(s.messages[0].tokens, TokenCounts::none());
    let before = format!("{:?}", s);
    handle_event(&mut s, &json(r#"{"type": "session.idle", "properties": {}}"#));
    handle_event(&mut s, &json(r#"{"type": "message.updated"}"#));
    handle_event(&mut s, &json(r#"{"type": "message.updated", "properties": {"info": {"id": "x"}}}"#));
    handle_event(&mut s, &json(r#"[]"#));
    assert_eq!(format!("{:?}", s), before);
}

#[test]
fn the_server_is_told_twice_to_stop() {
    assert_eq!(abort_steps(), vec![AbortStep::Abort, AbortStep::Wait(200), AbortStep::Abort]);
    assert_eq!(ABORT_RETRY_DELAY_MS, 200);
}

#[test]
fn an_event_delivered_twice_changes_nothing_the_second_time() {
    let mut running = update("t1");
    running.name = Some("bash".to_string());
    running.status = Some("running".to_string());
    running.input = json(r#"{"command": "ls"}"#);
    let events = vec![
        message("u1", Role::User, 5, false),
        message("a1", Role::Assistant, 6, false),
        text("a1", "hello"),
        reasoning("a1", "hm"),
        tool("a1", Some("c1"), running.clone()),
        tool("a1", None, update("t2")),
        tool("a1", Some("c1"), update("t9")),
        message("a1", Role::Assistant, 7, true),
        text("nobody", "x"),
    ];
    let mut s = Session::new("tab".to_string());
    for e in events {
        apply(&mut s, e.clone());
        let once = format!("{:?}", s);
        apply(&mut s, e);
        assert_eq!(format!("{:?}", s), once);
    }
    assert_eq!(s.messages.len(), 2);
    assert_eq!(s.messages[1].tool_calls.len(), 2);
}

#[test]
fn an_update_without_call_id_for_an_unknown_id_is_appended() {
    let mut s = streaming("m1");
    let mut first = update("t1");
    first.name = Some("bash".to_string());
    first.status = Some("running".to_string());
    first.output = Some("one".to_string());
    apply(&mut s, tool("m1", None, first));

    let mut second = update("t2");
    second.name = Some("read".to_string());
    second.status = Some("success".to_string());
    second.output = Some("two".to_string());
    apply(&mut s, tool("m1", None, second));

    let calls = &s.messages[0].tool_calls;
    assert_eq!(calls.len(), 2);
    assert_eq!(calls[0].id, "t1");
    assert_eq!(calls[0].name, "bash");
    assert_eq!(calls[0].status, "running");
    assert_eq!(calls[0].output.as_deref(), Some("one"));
    assert_eq!(calls[0].call_id, None);
    assert_eq!(calls[1].id, "t2");
    assert_eq!(calls[1].name, "read");
    assert_eq!(calls[1].status, "success");
    assert_eq!(calls[1].output.as_deref(), Some("two"));
    assert_eq!(calls[1].call_id, None);
}

#[test]
fn an_update_without_call_id_reaches_the_record_of_its_id() {
    let mut s = streaming("m1");
    let mut first = update("t1");
    first.status = Some("running".to_string());
    apply(&mut s, tool("m1", None, first));
    let mut second = update("t2");
    second.status = Some("running".to_string());
    apply(&mut s, tool("m1", None, second));

    let mut done = update("t2");
    done.status = Some("success".to_string());
    done.output = Some("42".to_string());
    done.finished_at = Some(9);
    apply(&mut s, tool("m1", None, done));

    let calls = &s.messages[0].tool_calls;
    assert_eq!(calls.len(), 2);
    assert_eq!(calls[0].id, "t1");
    assert_eq!(calls[0].status, "running");
    assert_eq!(calls[0].output, None);
    assert_eq!(calls[0].finished_at, None);
    assert_eq!(calls[1].id, "t2");
    assert_eq!(calls[1].status, "success");
    assert_eq!(calls[1].output.as_deref(), Some("42"));
    assert_eq!(calls[1].finished_at, Some(9));
}
