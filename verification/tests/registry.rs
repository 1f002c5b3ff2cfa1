use opencode_egui::cancellation::cancel_active_response_at;
use opencode_egui::decode::{decode, decode_event, decode_permission};
use opencode_egui::event::{Envelope, Event, PartKind, PermissionRequest};
use opencode_egui::permission::{at_or_before, classify, Decision, PermissionResponse};
use opencode_egui::registry::{AutoReject, Registry};
use opencode_egui::session::{record_send_at, Session};
use opencode_egui::transcript::Role;

fn json(text: &str) -> serde_json::Value {
    serde_json::from_str(text).unwrap()
}

fn session(id: &str) -> Session {
    let mut s = Session::new(id.to_string());
    s.session_id = Some(id.to_string());
    s
}

fn request(id: &str, session_id: &str, message_id: &str, call_id: Option<&str>, created: u64) -> PermissionRequest {
    PermissionRequest {
        id: id.to_string(),
        perm_type: "bash".to_string(),
        pattern: None,
        session_id: session_id.to_string(),
        message_id: message_id.to_string(),
        call_id: call_id.map(|c| c.to_string()),
        title: "run".to_string(),
        metadata: serde_json::Value::Null,
        created,
    }
}

fn permission_json(id: &str, session_id: &str, message_id: &str, call_id: &str, created: u64) -> serde_json::Value {
    json(&format!(
        r#"{{"type": "permission.updated", "properties": {{
            "id": "{id}", "type": "bash", "pattern": ["ls *"], "sessionID": "{session_id}",
            "messageID": "{message_id}", "callID": "{call_id}", "title": "Run ls",
            "metadata": {{"command": "ls"}}, "time": {{"created": {created}}}}}}}"#
    ))
}

fn rejects(list: &[AutoReject]) -> Vec<(String, String)> {
    list.iter().map(|r| (r.session_id.clone(), r.permission_id.clone())).collect()
}

#[test]
fn a_request_is_moot_for_each_of_the_five_reasons() {
    let mut s = session("s1");
    record_send_at(&mut s, 100);
    let fresh = request("p", "s1", "m", Some("c"), 101);
    assert_eq!(classify(&s, &fresh), Decision::Queue);
    assert_eq!(classify(&s, &request("p", "s1", "m", None, 101)), Decision::Queue);

    assert_eq!(classify(&s, &request("p", "s1", "m", Some("c"), 100)), Decision::AutoReject);
    assert_eq!(classify(&s, &request("p", "s1", "m", Some("c"), 0)), Decision::AutoReject);

    let mut by_call = s.clone();
    by_call.cancelled_call_ids.push("c".to_string());
    assert_eq!(classify(&by_call, &fresh), Decision::AutoReject);
    assert_eq!(classify(&by_call, &request("p", "s1", "m", None, 101)), Decision::Queue);

    let mut by_message = s.clone();
    by_message.cancelled_message_ids.push("m".to_string());
    assert_eq!(classify(&by_message, &fresh), Decision::AutoReject);

    let mut by_cutoff = s.clone();
    by_cutoff.cancel_cutoff = Some(101);
    assert_eq!(classify(&by_cutoff, &fresh), Decision::AutoReject);
    by_cutoff.cancel_cutoff = Some(-1);
    assert_eq!(classify(&by_cutoff, &fresh), Decision::Queue);

    let mut by_window = s.clone();
    by_window.suppress_incoming = true;
    assert_eq!(classify(&by_window, &fresh), Decision::AutoReject);
}

#[test]
fn times_compare_as_numbers() {
    assert!(at_or_before(0, 0));
    assert!(at_or_before(5, 5));
    assert!(!at_or_before(6, 5));
    assert!(!at_or_before(0, -1));
    assert!(!at_or_before(u64::MAX, i64::MAX));
    assert!(at_or_before(i64::MAX as u64, i64::MAX));
}

#[test]
fn responses_have_their_words() {
    assert_eq!(PermissionResponse::Reject.as_str(), "reject");
    assert_eq!(PermissionResponse::Once.as_str(), "once");
    assert_eq!(PermissionResponse::Always.as_str(), "always");
}

#[test]
fn requests_queue_or_bounce() {
    let mut r = Registry::new();
    r.sessions.push(session("s1"));
    r.sessions.push(session("s2"));
    assert_eq!(r.position("s2"), 1);
    assert_eq!(r.position("s3"), 2);

    assert!(r.on_permission_request(request("req1", "s1", "m1", Some("c1"), 10)).is_none());
    assert!(r.on_permission_request(request("req2", "unknown", "m1", Some("c1"), 0)).is_none());
    assert_eq!(r.pending_permissions.len(), 2);

    r.sessions[1].cancelled_call_ids.push("c9".to_string());
    assert_eq!(r.decide(&request("req3", "s2", "m", Some("c9"), 10)), Decision::AutoReject);
    assert_eq!(r.decide(&request("req3", "s1", "m", Some("c9"), 10)), Decision::Queue);
    let bounced = r.on_permission_request(request("req3", "s2", "m", Some("c9"), 10)).unwrap();
    assert_eq!(bounced.session_id, "s2");
    assert_eq!(bounced.permission_id, "req3");
    assert_eq!(r.pending_permissions.len(), 2);
    assert!(r.pending_permissions.iter().all(|p| p.id != "req3"));
}

#[test]
fn replies_remove_the_first_matching_request() {
    let mut r = Registry::new();
    r.sessions.push(session("s1"));
    r.on_permission_request(request("req1", "s1", "m1", None, 10));
    r.on_permission_request(request("req2", "s1", "m1", None, 10));
    r.on_permission_request(request("req1", "s2", "m1", None, 10));
    r.on_permission_request(request("req1", "s1", "m2", None, 10));
    assert_eq!(r.pending_permissions.len(), 4);

    r.on_permission_reply("s1", "nope");
    r.on_permission_reply("nope", "req1");
    assert_eq!(r.pending_permissions.len(), 4);

    r.on_permission_reply("s1", "req1");
    let left: Vec<(&str, &str, &str)> = r
        .pending_permissions
        .iter()
        .map(|p| (p.id.as_str(), p.session_id.as_str(), p.message_id.as_str()))
        .collect();
    assert_eq!(left, vec![("req2", "s1", "m1"), ("req1", "s2", "m1"), ("req1", "s1", "m2")]);
    r.on_permission_reply("s1", "req1");
    r.on_permission_reply("s1", "req1");
    assert_eq!(r.pending_permissions.len(), 2);
}

#[test]
fn a_cancelled_call_never_reaches_the_pending_list() {
    let mut r = Registry::new();
    r.sessions.push(session("s1"));
    r.receive(&json(
        r#"{"type": "message.updated", "properties": {"info": {
            "id": "m1", "role": "assistant", "sessionID": "s1", "time": {"created": 10}}}}"#,
    ));
    r.receive(&json(
        r#"{"type": "message.part.updated", "properties": {"part": {
            "messageID": "m1", "sessionID": "s1", "type": "tool", "id": "t1", "callID": "c1",
            "tool": "bash", "state": {"status": "running"}}}}"#,
    ));
    assert_eq!(r.sessions[0].messages[0].tool_calls[0].name, "bash");
    cancel_active_response_at(&mut r.sessions[0], 20);

    let stream = vec![
        permission_json("req1", "s1", "m1", "c1", 30),
        json(
            r#"{"type": "message.updated", "properties": {"info": {
                "id": "m2", "role": "user", "sessionID": "s1", "time": {"created": 40}}}}"#,
        ),
        permission_json("req2", "s1", "m7", "c1", 50),
        permission_json("req3", "s1", "m7", "c2", 50),
        permission_json("req4", "s1", "m1", "c3", 50),
        permission_json("req5", "s1", "m7", "c4", 20),
    ];
    let out = r.receive_all(&stream);
    assert_eq!(
        rejects(&out),
        vec![
            ("s1".to_string(), "req1".to_string()),
            ("s1".to_string(), "req2".to_string()),
            ("s1".to_string(), "req4".to_string()),
            ("s1".to_string(), "req5".to_string()),
        ]
    );
    assert_eq!(r.pending_permissions.len(), 1);
    assert_eq!(r.pending_permissions[0].id, "req3");
    assert_eq!(r.pending_permissions[0].call_id.as_deref(), Some("c2"));
    assert_eq!(r.pending_permissions[0].pattern, Some(vec!["ls *".to_string()]));
    assert_eq!(r.pending_permissions[0].metadata, json(r#"{"command": "ls"}"#));
    assert_eq!(r.pending_permissions[0].created, 50);
}

#[test]
fn each_decision_of_a_batch_sees_what_came_before_it() {
    let mut r = Registry::new();
    r.sessions.push(session("s1"));
    r.sessions[0].suppress_incoming = true;
    let stream = vec![
        permission_json("req1", "s1", "m", "c", 10),
        json(
            r#"{"type": "message.updated", "properties": {"info": {
                "id": "u", "role": "user", "sessionID": "s1", "time": {"created": 5}}}}"#,
        ),
        permission_json("req2", "s1", "m", "c", 10),
        json(
            r#"{"type": "permission.replied", "properties": {
                "permissionID": "req2", "sessionID": "s1", "response": "once"}}"#,
        ),
        permission_json("req3", "s1", "m", "c", 10),
    ];
    let envelopes: Vec<Envelope> = stream.iter().map(decode).collect();
    let mut twin = r.clone();
    let out = r.receive_all(&stream);
    assert_eq!(rejects(&out), vec![("s1".to_string(), "req1".to_string())]);
    let left: Vec<&str> = r.pending_permissions.iter().map(|p| p.id.as_str()).collect();
    assert_eq!(left, vec!["req3"]);

    let same = twin.drain(envelopes);
    assert_eq!(rejects(&same), rejects(&out));
    assert_eq!(format!("{:?}", twin), format!("{:?}", r));
    assert!(r.receive_all(&Vec::new()).is_empty());
}

#[test]
fn message_events_reach_the_session_they_name() {
    let mut r = Registry::new();
    r.sessions.push(session("s1"));
    r.sessions.push(session("s2"));
    r.sessions.push(session("s2"));
    let hello = json(
        r#"{"type": "message.updated", "properties": {"info": {
            "id": "m1", "role": "user", "sessionID": "s2", "time": {"created": 1}}}}"#,
    );
    assert!(r.receive(&hello).is_none());
    assert!(r.sessions[0].messages.is_empty());
    assert_eq!(r.sessions[1].messages.len(), 1);
    assert!(r.sessions[2].messages.is_empty());

    let part = json(
        r#"{"type": "message.part.updated", "properties": {
            "part": {"messageID": "m1", "sessionID": "s2", "type": "text", "text": "hi"},
            "info": {"sessionID": "s1"}}}"#,
    );
    r.receive(&part);
    assert_eq!(r.sessions[1].messages[0].text, "hi");

    let nowhere = json(
        r#"{"type": "message.updated", "properties": {"info": {
            "id": "m9", "role": "user", "sessionID": "s9", "time": {"created": 1}}}}"#,
    );
    let unaddressed = json(
        r#"{"type": "message.updated", "properties": {"info": {
            "id": "m9", "role": "user", "time": {"created": 1}}}}"#,
    );
    let before = format!("{:?}", r);
    r.receive(&nowhere);
    r.receive(&unaddressed);
    r.receive(&json(r#"{"type": "server.connected", "properties": {}}"#));
    assert_eq!(format!("{:?}", r), before);
}

#[test]
fn decode_reads_every_kind_of_event() {
    let e = decode(&json(
        r#"{"type": "message.updated", "properties": {"info": {
            "id": "m1", "role": "tool", "sessionID": "s1", "time": {"created": -3},
            "finish": "stop", "tokens": {"input": 1}}}}"#,
    ));
    assert_eq!(e.session_id.as_deref(), Some("s1"));
    match e.event {
        Event::MessageUpdated(info) => {
            assert_eq!(info.id, "m1");
            assert_eq!(info.role, Role::Other);
            assert_eq!(info.created, -3);
            assert!(info.finished);
            assert_eq!(info.tokens.input, None);
        }
        other => panic!("{:?}", other),
    }

    let e = decode_event(&json(
        r#"{"type": "message.part.updated", "properties": {"part": {
            "messageID": "m1", "type": "tool", "callID": "c1",
            "input": null,
            "state": {"status": "completed", "output": "done", "error": 5,
                      "logs": ["a", 1, "b"], "metadata": {"k": true},
                      "started_at": 1, "finished_at": 2.5, "input": {"x": 1}}}}}"#,
    ));
    match e {
        Event::PartUpdated(part) => {
            assert_eq!(part.message_id.as_deref(), Some("m1"));
            assert_eq!(part.call_id.as_deref(), Some("c1"));
            match part.kind {
                PartKind::Tool(u) => {
                    assert_eq!(u.id, "unknown");
                    assert_eq!(u.name, None);
                    assert_eq!(u.status.as_deref(), Some("completed"));
                    assert!(u.input.is_null());
                    assert_eq!(u.output.as_deref(), Some("done"));
                    assert_eq!(u.error, None);
                    assert_eq!(u.logs, vec!["a".to_string(), "b".to_string()]);
                    assert_eq!(u.metadata.len(), 1);
                    assert_eq!(u.started_at, Some(1));
                    assert_eq!(u.finished_at, None);
                }
                other => panic!("{:?}", other),
            }
        }
        other => panic!("{:?}", other),
    }

    let e = decode_event(&json(
        r#"{"type": "message.part.updated", "properties": {"part": {
            "messageID": "m1", "type": "tool", "id": "t", "tool": "bash",
            "state": {"input": [1, 2]}}}}"#,
    ));
    match e {
        Event::PartUpdated(part) => match part.kind {
            PartKind::Tool(u) => {
                assert_eq!(u.id, "t");
                assert_eq!(u.name.as_deref(), Some("bash"));
                assert_eq!(u.status, None);
                assert_eq!(u.input, json("[1, 2]"));
                assert!(u.metadata.is_empty());
                assert!(u.logs.is_empty());
            }
            other => panic!("{:?}", other),
        },
        other => panic!("{:?}", other),
    }

    for (kind, expected) in [("text", "Text"), ("reasoning", "Reasoning"), ("step-start", "Other")] {
        let e = decode_event(&json(&format!(
            r#"{{"type": "message.part.updated", "properties": {{"part": {{"type": "{kind}"}}}}}}"#
        )));
        match e {
            Event::PartUpdated(part) => {
                assert_eq!(part.message_id, None);
                assert!(format!("{:?}", part.kind).starts_with(expected));
            }
            other => panic!("{:?}", other),
        }
    }

    let e = decode_event(&json(
        r#"{"type": "permission.replied", "properties": {"permissionID": "p", "sessionID": "s"}}"#,
    ));
    assert!(matches!(e, Event::PermissionReplied { ref permission_id, ref session_id }
        if permission_id == "p" && session_id == "s"));
    let e = decode_event(&json(r#"{"type": "permission.replied", "properties": {"permissionID": "p"}}"#));
    assert!(matches!(e, Event::Ignored));
    assert!(matches!(decode_event(&json("null")), Event::Ignored));
    assert!(matches!(decode_event(&json(r#"{"type": 3, "properties": {}}"#)), Event::Ignored));
    assert!(matches!(
        decode_event(&json(r#"{"type": "message.part.updated", "properties": {}}"#)),
        Event::Ignored
    ));
}

#[test]
fn decode_permission_wants_all_that_is_required() {
    let full = r#"{"id": "p", "type": "bash", "sessionID": "s", "messageID": "m",
        "title": "t", "metadata": null, "time": {"created": 7}}"#;
    let p = decode_permission(&json(full)).unwrap();
    assert_eq!(p.id, "p");
    assert_eq!(p.perm_type, "bash");
    assert_eq!(p.pattern, None);
    assert_eq!(p.call_id, None);
    assert!(p.metadata.is_null());
    assert_eq!(p.created, 7);

    for missing in ["id", "type", "sessionID", "messageID", "title", "metadata", "time"] {
        let mut v = json(full);
        v.as_object_mut().unwrap().remove(missing);
        assert!(decode_permission(&v).is_none(), "without {missing}");
    }
    let with = |key: &str, value: &str| {
        let mut v = json(full);
        v.as_object_mut().unwrap().insert(key.to_string(), json(value));
        decode_permission(&v)
    };
    assert!(with("time", r#"{"created": -1}"#).is_none());
    assert!(with("time", r#"{"created": 1.5}"#).is_none());
    assert!(with("time", r#"{}"#).is_none());
    assert!(with("callID", "7").is_none());
    assert_eq!(with("callID", "null").unwrap().call_id, None);
    assert_eq!(with("callID", r#""c""#).unwrap().call_id.as_deref(), Some("c"));
    assert!(with("pattern", r#""ls""#).is_none());
    assert!(with("pattern", r#"["ls", 1]"#).is_none());
    assert_eq!(with("pattern", "null").unwrap().pattern, None);
    assert_eq!(with("pattern", "[]").unwrap().pattern, Some(Vec::new()));
    assert_eq!(
        with("pattern", r#"["a", "b"]"#).unwrap().pattern,
        Some(vec!["a".to_string(), "b".to_string()])
    );
    assert_eq!(with("time", &format!(r#"{{"created": {}}}"#, u64::MAX)).unwrap().created, u64::MAX);
    assert!(with("extra", "1").is_some());
}

#[test]
fn message_updated_wants_id_role_and_time() {
    for (text, ok) in [
        (r#"{"id": "m", "role": "user", "time": {"created": 1}}"#, true),
        (r#"{"role": "user", "time": {"created": 1}}"#, false),
        (r#"{"id": "m", "time": {"created": 1}}"#, false),
        (r#"{"id": "m", "role": "user"}"#, false),
        (r#"{"id": "m", "role": "user", "time": {}}"#, false),
        (r#"{"id": "m", "role": "user", "time": {"created": "1"}}"#, false),
        (r#"{"id": "m", "role": "user", "time": {"created": 18446744073709551615}}"#, false),
        (r#"{"id": 1, "role": "user", "time": {"created": 1}}"#, false),
    ] {
        let payload = json(&format!(
            r#"{{"type": "message.updated", "properties": {{"info": {text}}}}}"#
        ));
        assert_eq!(matches!(decode_event(&payload), Event::MessageUpdated(_)), ok, "{text}");
    }
    for (name, role) in [
        ("user", Role::User),
        ("assistant", Role::Assistant),
        ("system", Role::System),
        ("User", Role::Other),
        ("", Role::Other),
    ] {
        let payload = json(&format!(
            r#"{{"type": "message.updated", "properties": {{"info":
                {{"id": "m", "role": "{name}", "time": {{"created": 1}}, "finish": null}}}}}}"#
        ));
        match decode_event(&payload) {
            Event::MessageUpdated(info) => {
                assert_eq!(info.role, role);
                assert!(!info.finished);
            }
            other => panic!("{:?}", other),
        }
    }
}
