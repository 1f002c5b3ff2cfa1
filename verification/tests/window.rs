use opencode_egui::client::api::SessionInfo;
use opencode_egui::client::providers::DiscoveredModel;
use opencode_egui::compose::{build_parts, can_send, send, send_at, Draft};
use opencode_egui::event::PermissionRequest;
use opencode_egui::presentation::{
    agent_color, extract_field_as_string, filter_models, format_json_value, hex_byte,
    normalize_code_fences, opens_by_default, sessions_to_delete, status_icon, tokens_label,
    tool_summary, urgency, Urgency,
};
use opencode_egui::recording::{on_key, push_to_talk, AudioCmd, RecordingState};
use opencode_egui::registry::Registry;
use opencode_egui::session::Session;
use opencode_egui::tabs::{optional_setting, push_notice, push_notice_at, TabBar};
use opencode_egui::text::{copy_option, join};
use opencode_egui::transcript::{Role, TokenCounts, ToolCall};
use opencode_egui::types::agent::AgentInfo;
use opencode_egui::types::models::MessagePart;

fn json(text: &str) -> serde_json::Value {
    serde_json::from_str(text).unwrap()
}

fn created(id: &str) -> Session {
    let mut s = Session::new("t".to_string());
    s.session_id = Some(id.to_string());
    s
}

fn request(id: &str, session_id: &str, call_id: Option<&str>) -> PermissionRequest {
    PermissionRequest {
        id: id.to_string(),
        perm_type: "bash".to_string(),
        pattern: None,
        session_id: session_id.to_string(),
        message_id: "m".to_string(),
        call_id: call_id.map(|c| c.to_string()),
        title: "t".to_string(),
        metadata: serde_json::Value::Null,
        created: 1,
    }
}

fn tool(status: &str) -> ToolCall {
    ToolCall {
        id: "t".to_string(),
        name: "bash".to_string(),
        status: status.to_string(),
        call_id: None,
        input: serde_json::Value::Null,
        output: None,
        error: None,
        metadata: serde_json::Map::new(),
        started_at: None,
        finished_at: None,
        logs: Vec::new(),
    }
}

#[test]
fn sending_needs_a_session_and_content() {
    let mut draft = Draft::new();
    let s = created("s1");
    assert!(!can_send(&s, false, &draft));
    draft.input = "  \n\t".to_string();
    assert!(!can_send(&s, false, &draft));
    draft.input = " hi ".to_string();
    assert!(can_send(&s, false, &draft));
    assert!(!can_send(&s, true, &draft));
    assert!(!can_send(&Session::new("t".to_string()), false, &draft));
    let mut streaming = created("s1");
    streaming.active_response_id = Some("m".to_string());
    assert!(!can_send(&streaming, false, &draft));
    draft.input.clear();
    draft.attach(vec![1, 2, 3], "image/png".to_string());
    assert!(draft.has_content());
    assert!(can_send(&s, false, &draft));
}

#[test]
fn parts_are_the_text_and_then_the_files() {
    let mut draft = Draft::new();
    assert!(build_parts(&draft).is_empty());
    draft.attach(b"hello world~".to_vec(), "text/plain".to_string());
    draft.attach(Vec::new(), "image/png".to_string());
    draft.attach(vec![0xfb, 0xff], "application/octet-stream".to_string());
    assert_eq!(
        build_parts(&draft),
        vec![
            MessagePart::File {
                mime: "text/plain".to_string(),
                filename: None,
                url: "data:text/plain;base64,aGVsbG8gd29ybGR+".to_string(),
            },
            MessagePart::File {
                mime: "image/png".to_string(),
                filename: None,
                url: "data:image/png;base64,".to_string(),
            },
            MessagePart::File {
                mime: "application/octet-stream".to_string(),
                filename: None,
                url: "data:application/octet-stream;base64,+/8=".to_string(),
            },
        ]
    );
    draft.input = " look ".to_string();
    let parts = build_parts(&draft);
    assert_eq!(parts.len(), 4);
    assert_eq!(parts[0], MessagePart::Text { text: " look ".to_string() });
    draft.detach(1);
    draft.detach(7);
    assert_eq!(draft.pending_attachments.len(), 2);
    assert_eq!(draft.pending_attachments[1].mime, "application/octet-stream");
}

#[test]
fn sending_records_the_time_and_empties_the_draft() {
    let mut s = created("s1");
    s.selected_model = Some(("openai".to_string(), "gpt-4".to_string()));
    s.suppress_incoming = true;
    let mut draft = Draft::new();
    draft.input = "hello".to_string();
    draft.attach(vec![1], "image/png".to_string());
    let out = send_at(&mut s, &mut draft, "build", 2000).unwrap();
    assert_eq!(out.session_id, "s1");
    assert_eq!(out.parts.len(), 2);
    assert_eq!(out.model, Some(("openai".to_string(), "gpt-4".to_string())));
    assert_eq!(out.agent, "build");
    assert_eq!(s.last_send_at, 2000);
    assert!(s.suppress_incoming);
    assert_eq!(draft, Draft::new());

    s.selected_agent = Some("plan".to_string());
    draft.input = "again".to_string();
    let out = send_at(&mut s, &mut draft, "build", 1000).unwrap();
    assert_eq!(out.agent, "plan");
    assert_eq!(s.last_send_at, 2000);
    let out = send(&mut s, &mut draft, "build").unwrap();
    assert!(out.parts.is_empty());
    assert!(s.last_send_at > 1_500_000_000_000);

    let mut fresh = Session::new("t".to_string());
    draft.input = "kept".to_string();
    assert_eq!(send_at(&mut fresh, &mut draft, "build", 5), None);
    assert_eq!(draft.input, "kept");
    assert_eq!(fresh.last_send_at, 0);
}

#[test]
fn dictation_is_added_after_a_space() {
    let mut draft = Draft::new();
    draft.add_transcription("hello");
    assert_eq!(draft.input, "hello");
    draft.add_transcription("world");
    assert_eq!(draft.input, "hello world");
    draft.add_transcription("");
    assert_eq!(draft.input, "hello world ");
}

#[test]
fn push_to_talk_follows_the_key() {
    assert_eq!(
        push_to_talk(RecordingState::Idle, true),
        (RecordingState::Recording, Some(AudioCmd::StartRecording))
    );
    assert_eq!(push_to_talk(RecordingState::Idle, false), (RecordingState::Idle, None));
    assert_eq!(push_to_talk(RecordingState::Recording, true), (RecordingState::Recording, None));
    assert_eq!(
        push_to_talk(RecordingState::Recording, false),
        (RecordingState::Idle, Some(AudioCmd::StopRecording))
    );
    assert_eq!(
        on_key(RecordingState::Idle, "AltRight", "AltRight", true, false),
        (RecordingState::Recording, Some(AudioCmd::StartRecording))
    );
    assert_eq!(
        on_key(RecordingState::Idle, "AltRight", "AltRight", true, true),
        (RecordingState::Idle, None)
    );
    assert_eq!(
        on_key(RecordingState::Recording, "AltLeft", "AltRight", false, false),
        (RecordingState::Recording, None)
    );
    assert_ne!(AudioCmd::Shutdown, AudioCmd::StopRecording);
}

#[test]
fn tabs_open_get_created_renamed_and_closed() {
    let mut r = Registry::new();
    let mut bar = TabBar { active: 0, renaming: None };
    assert_eq!(r.open_session(Some(("anthropic".to_string(), "haiku".to_string())), "build"), 0);
    assert_eq!(r.open_session(None, "plan"), 1);
    assert_eq!(r.open_session(None, "build"), 2);
    assert_eq!(r.sessions[0].title, "(creating\u{2026})");
    assert_eq!(r.sessions[0].selected_model, Some(("anthropic".to_string(), "haiku".to_string())));
    assert_eq!(r.sessions[1].selected_agent.as_deref(), Some("plan"));
    assert_eq!(r.sessions[1].session_id, None);

    r.session_created(1, "s1".to_string(), "New session".to_string(), "/w".to_string(), Some("1.0".to_string()));
    r.session_created(9, "s9".to_string(), "x".to_string(), "/".to_string(), None);
    assert_eq!(r.sessions[1].session_id.as_deref(), Some("s1"));
    assert_eq!(r.sessions[1].title, "New session");
    assert_eq!(r.sessions[1].directory.as_deref(), Some("/w"));
    assert_eq!(r.sessions[1].session_version.as_deref(), Some("1.0"));
    assert_eq!(r.sessions[1].selected_agent.as_deref(), Some("plan"));
    assert_eq!(r.sessions.len(), 3);

    r.rename_session(1, "  ");
    assert_eq!(r.sessions[1].title, "New session");
    r.rename_session(1, " Mine ");
    assert_eq!(r.sessions[1].title, " Mine ");
    r.rename_session(5, "x");

    bar.active = 2;
    bar.renaming = Some(2);
    r.close_session(&mut bar, 0);
    assert_eq!(r.sessions.len(), 2);
    assert_eq!(r.sessions[0].title, " Mine ");
    assert_eq!(bar, TabBar { active: 1, renaming: Some(1) });
    r.close_session(&mut bar, 1);
    assert_eq!(bar, TabBar { active: 0, renaming: None });
    r.close_session(&mut bar, 3);
    assert_eq!(r.sessions.len(), 1);
    bar.renaming = Some(0);
    r.close_session(&mut bar, 0);
    assert!(r.sessions.is_empty());
    assert_eq!(bar, TabBar { active: 0, renaming: None });
}

#[test]
fn closing_an_earlier_tab_keeps_the_shown_index_within_bounds() {
    let mut r = Registry::new();
    for _ in 0..4 {
        r.open_session(None, "build");
    }
    let mut bar = TabBar { active: 1, renaming: Some(0) };
    r.close_session(&mut bar, 2);
    assert_eq!(bar, TabBar { active: 1, renaming: Some(0) });
    bar.active = 3;
    r.close_session(&mut bar, 0);
    assert_eq!(bar, TabBar { active: 1, renaming: None });
}

#[test]
fn notices_are_system_messages() {
    let mut s = Session::new("t".to_string());
    push_notice_at(&mut s, "audio_rec", 1700000000000, "Recording...".to_string());
    assert_eq!(s.messages.len(), 1);
    assert_eq!(s.messages[0].message_id, "audio_rec_1700000000000");
    assert_eq!(s.messages[0].role, Role::System);
    assert_eq!(s.messages[0].text, "Recording...");
    assert!(s.messages[0].tool_calls.is_empty());
    push_notice(&mut s, "agent_err", "Agents: down".to_string());
    assert_eq!(s.messages.len(), 2);
    assert!(s.messages[1].message_id.starts_with("agent_err_1"));
    assert_eq!(s.messages[1].text, "Agents: down");
}

#[test]
fn pending_requests_block_their_session_and_show_with_their_tool() {
    let mut r = Registry::new();
    assert!(!r.is_blocked("s1"));
    r.on_permission_request(request("req1", "s2", Some("c1")));
    r.on_permission_request(request("req2", "s1", None));
    r.on_permission_request(request("req3", "s1", Some("c1")));
    r.on_permission_request(request("req4", "s1", Some("c1")));
    assert!(r.is_blocked("s1"));
    assert!(r.is_blocked("s2"));
    assert!(!r.is_blocked("s3"));
    assert_eq!(r.permission_for("s1", "c1").unwrap().id, "req3");
    assert_eq!(r.permission_for("s2", "c1").unwrap().id, "req1");
    assert!(r.permission_for("s1", "c2").is_none());
    r.answered("req3");
    assert_eq!(r.permission_for("s1", "c1").unwrap().id, "req4");
    r.answered("req3");
    r.answered("req2");
    r.answered("req4");
    assert!(!r.is_blocked("s1"));
    assert_eq!(r.pending_permissions.len(), 1);
}

#[test]
fn every_session_keeps_an_offered_agent() {
    let agent = |name: &str| AgentInfo {
        name: name.to_string(),
        description: None,
        mode: None,
        built_in: false,
        color: None,
    };
    let mut r = Registry::new();
    r.open_session(None, "build");
    r.open_session(None, "plan");
    r.open_session(None, "gone");
    r.sessions[2].title = "third".to_string();
    r.ensure_agents("build", &[agent("build"), agent("plan")]);
    let chosen: Vec<&str> =
        r.sessions.iter().map(|s| s.selected_agent.as_deref().unwrap()).collect();
    assert_eq!(chosen, vec!["build", "plan", "build"]);
    assert_eq!(r.sessions[2].title, "third");
    r.ensure_agents("solo", &[]);
    assert!(r.sessions.iter().all(|s| s.selected_agent.as_deref() == Some("solo")));
}

#[test]
fn settings_fields_are_none_when_blank() {
    assert_eq!(optional_setting(""), None);
    assert_eq!(optional_setting(" \t"), None);
    assert_eq!(optional_setting(" /work "), Some(" /work ".to_string()));
}

#[test]
fn counters_are_shown_in_one_line() {
    assert_eq!(tokens_label(&TokenCounts::none()), None);
    assert_eq!(
        tokens_label(&TokenCounts { input: Some(12), output: Some(0), reasoning: Some(7) }),
        Some("tokens: in 12, out 0, reason 7".to_string())
    );
    assert_eq!(
        tokens_label(&TokenCounts { input: None, output: Some(5), reasoning: None }),
        Some("tokens: out 5".to_string())
    );
    assert_eq!(
        tokens_label(&TokenCounts { input: Some(u64::MAX), output: None, reasoning: Some(1) }),
        Some("tokens: in 18446744073709551615, reason 1".to_string())
    );
}

#[test]
fn statuses_have_signs() {
    assert_eq!(status_icon("success"), "\u{2705}");
    assert_eq!(status_icon("completed"), "\u{2705}");
    assert_eq!(status_icon("error"), "\u{274c}");
    assert_eq!(status_icon("cancelled"), "\u{1f6ab}");
    assert_eq!(status_icon("running"), "\u{23f3}");
    assert_eq!(status_icon(""), "\u{23f3}");
    assert!(opens_by_default(&tool("running"), false));
    assert!(!opens_by_default(&tool("completed"), false));
    assert!(opens_by_default(&tool("completed"), true));
    let mut failed = tool("error");
    assert!(!opens_by_default(&failed, false));
    failed.error = Some("boom".to_string());
    assert!(opens_by_default(&failed, false));
}

#[test]
fn a_tool_call_is_summed_up_by_its_first_telling_argument() {
    let s = |text: &str| tool_summary(&json(text));
    assert_eq!(s(r#"{"command": "ls", "path": "/"}"#), Some("ls".to_string()));
    assert_eq!(s(r#"{"path": "/a", "filePath": "/b", "url": "u"}"#), Some("/b".to_string()));
    assert_eq!(s(r#"{"filename": "f", "file_path": "g", "path": "p"}"#), Some("p".to_string()));
    assert_eq!(s(r#"{"filename": "f", "file_path": "g"}"#), Some("g".to_string()));
    assert_eq!(s(r#"{"filename": "f", "url": "u"}"#), Some("f".to_string()));
    assert_eq!(s(r#"{"prompt": "p", "url": "u"}"#), Some("u".to_string()));
    assert_eq!(s(r#"{"prompt": "p"}"#), Some("p".to_string()));
    assert_eq!(s(r#"{"parameters": {"command": "make"}, "url": "u"}"#), Some("make".to_string()));
    assert_eq!(
        s(r#"{"command": 7, "parameters": {"command": "make"}}"#),
        Some("make".to_string())
    );
    assert_eq!(s(r#""{\"command\": \"ls -l\"}""#), Some("ls -l".to_string()));
    assert_eq!(s(r#""not json""#), None);
    assert_eq!(s(r#"{"other": "x"}"#), None);
    assert_eq!(s("null"), None);
    assert_eq!(extract_field_as_string(&json(r#"{"a": "b"}"#), "a"), Some("b".to_string()));
    assert_eq!(extract_field_as_string(&json(r#"{"a": 1}"#), "a"), None);
    assert_eq!(extract_field_as_string(&json(r#"["a"]"#), "a"), None);
}

#[test]
fn values_are_shown_as_json_and_strings_in_quotes() {
    assert_eq!(format_json_value(&json(r#""a \"b\"""#)), "\"a \"b\"\"");
    assert_eq!(format_json_value(&json("12")), "12");
    assert_eq!(format_json_value(&json("-1.5")), "-1.5");
    assert_eq!(format_json_value(&json("true")), "true");
    assert_eq!(format_json_value(&json("null")), "null");
    assert_eq!(format_json_value(&json(r#"{"b": [1, "x"], "a": null}"#)), r#"{"a":null,"b":[1,"x"]}"#);
}

#[test]
fn the_countdown_has_three_colours() {
    assert_eq!(urgency("\u{26a0}\u{fe0f} Expired"), Urgency::Expired);
    assert_eq!(urgency("0m 5s"), Urgency::Soon);
    assert_eq!(urgency("4m 59s"), Urgency::Soon);
    assert_eq!(urgency("5m 0s"), Urgency::Fine);
    assert_eq!(urgency("40m 0s"), Urgency::Fine);
    assert_eq!(urgency("1h 1m"), Urgency::Fine);
    assert_eq!(urgency(""), Urgency::Fine);
}

#[test]
fn models_are_searched_in_any_case() {
    let m = |id: &str, name: &str| DiscoveredModel { id: id.to_string(), name: name.to_string() };
    let models = vec![m("gpt-4", "GPT-4"), m("gemini-pro", "Gemini Pro"), m("o3", "Reasoner")];
    assert_eq!(filter_models(&models, ""), models);
    assert_eq!(filter_models(&models, "G"), vec![models[0].clone(), models[1].clone()]);
    assert_eq!(filter_models(&models, "PRO"), vec![models[1].clone()]);
    assert_eq!(filter_models(&models, "reason"), vec![models[2].clone()]);
    assert!(filter_models(&models, "llama").is_empty());
    assert!(filter_models(&Vec::new(), "").is_empty());
}

#[test]
fn code_fences_are_put_at_the_start_of_a_line() {
    assert_eq!(normalize_code_fences(""), "");
    assert_eq!(normalize_code_fences("plain `code` text"), "plain `code` text");
    assert_eq!(normalize_code_fences("```rust\nfn f() {}\n```"), "```rust\nfn f() {}\n```");
    assert_eq!(normalize_code_fences("see:```rust\nx\n```"), "see:\n```rust\nx\n```");
    assert_eq!(normalize_code_fences("a```b```c"), "a\n```b\n```c");
    assert_eq!(normalize_code_fences("````"), "````");
    assert_eq!(normalize_code_fences("``````"), "```\n```");
    assert_eq!(normalize_code_fences("x\n```"), "x\n```");
    assert_eq!(normalize_code_fences("é```"), "é\n```");
    assert_eq!(normalize_code_fences("``"), "``");
}

#[test]
fn colours_are_six_hexadecimal_digits() {
    assert_eq!(agent_color("#ff8000"), Some((255, 128, 0)));
    assert_eq!(agent_color("FF8000"), Some((255, 128, 0)));
    assert_eq!(agent_color("#000000"), Some((0, 0, 0)));
    assert_eq!(agent_color("#aBcDeF"), Some((0xab, 0xcd, 0xef)));
    assert_eq!(agent_color("#+f+0+9"), Some((15, 0, 9)));
    assert_eq!(agent_color("#fff"), None);
    assert_eq!(agent_color("#ff80000"), None);
    assert_eq!(agent_color("##ff800"), None);
    assert_eq!(agent_color("#gg0000"), None);
    assert_eq!(agent_color("#-10000"), None);
    assert_eq!(agent_color("#ff80é0"), None);
    assert_eq!(agent_color(""), None);
    assert_eq!(hex_byte('7', 'f'), Some(127));
    assert_eq!(hex_byte('f', '+'), None);
}

#[test]
fn all_sessions_but_the_current_are_deleted() {
    let s = |id: &str| SessionInfo {
        id: id.to_string(),
        title: String::new(),
        directory: String::new(),
        version: None,
        time: None,
    };
    let sessions = vec![s("a"), s("b"), s("a"), s("c")];
    assert_eq!(sessions_to_delete(&sessions, "a"), vec!["b".to_string(), "c".to_string()]);
    assert_eq!(sessions_to_delete(&sessions, "z").len(), 4);
    assert!(sessions_to_delete(&Vec::new(), "a").is_empty());
}

#[test]
fn texts_are_copied_and_joined() {
    assert_eq!(copy_option(&Some("x".to_string())), Some("x".to_string()));
    assert_eq!(copy_option(&None), None);
    let v = vec!["a".to_string(), String::new(), "c".to_string()];
    assert_eq!(join(&v, ", "), "a, , c");
    assert_eq!(join(&Vec::new(), ", "), "");
    assert_eq!(join(&vec!["only".to_string()], ", "), "only");
}
