use opencode_egui::audio::error::AudioError;
use opencode_egui::client::api::{
    abort_route, message_request, message_route, permission_route, request_headers,
    session_route, status_error, ProviderStatus, SessionInfo, SessionTime,
};
use opencode_egui::client::events::{decode_global_event, events_url};
use opencode_egui::error::api::ApiError;
use opencode_egui::error::events::EventsError;
use opencode_egui::types::models::{
    IOCapabilities, MessagePart, ModelCapabilities, ModelIdentifier, ModelLimits, ModelSelection,
};

#[test]
fn routes_are_built_from_ids() {
    assert_eq!(session_route("s1"), "session/s1");
    assert_eq!(message_route("s1"), "session/s1/message");
    assert_eq!(permission_route("s1", "req9"), "session/s1/permissions/req9");
    assert_eq!(abort_route("s1"), "session/s1/abort");
    assert_eq!(abort_route(""), "session//abort");
}

#[test]
fn requests_carry_directory_and_token() {
    assert!(request_headers(&None, &None).is_empty());
    assert_eq!(
        request_headers(&Some("/work".to_string()), &None),
        vec![("x-opencode-directory".to_string(), "/work".to_string())]
    );
    assert_eq!(
        request_headers(&None, &Some("tok".to_string())),
        vec![("Authorization".to_string(), "Bearer tok".to_string())]
    );
    assert_eq!(
        request_headers(&Some("/work".to_string()), &Some("tok".to_string())),
        vec![
            ("x-opencode-directory".to_string(), "/work".to_string()),
            ("Authorization".to_string(), "Bearer tok".to_string()),
        ]
    );
}

#[test]
fn a_message_request_names_its_model() {
    let parts = vec![MessagePart::Text { text: "hi".to_string() }];
    let r = message_request(
        parts.clone(),
        Some(("openai".to_string(), "gpt-4".to_string())),
        Some("build".to_string()),
    );
    assert_eq!(r.parts, parts);
    assert_eq!(r.model, Some(ModelIdentifier::new("openai", "gpt-4")));
    assert_eq!(r.agent.as_deref(), Some("build"));
    let bare = message_request(Vec::new(), None, None);
    assert!(bare.parts.is_empty());
    assert_eq!(bare.model, None);
    assert_eq!(bare.agent, None);
}

#[test]
fn model_selection_shows_provider_and_model() {
    let m = ModelSelection::new("openai", "gpt-4", "GPT-4");
    assert_eq!(m.provider, "openai");
    assert_eq!(m.model_id, "gpt-4");
    assert_eq!(m.name, "GPT-4");
    assert_eq!(m.display_id(), "openai/gpt-4");
    assert_eq!(ModelSelection::new("", "", "").display_id(), "/");
    let id = ModelIdentifier::new("anthropic", "haiku");
    assert_eq!(id.provider_id, "anthropic");
    assert_eq!(id.model_id, "haiku");
}

#[test]
fn capabilities_default_to_nothing() {
    let c = ModelCapabilities::default();
    assert!(!c.temperature && !c.reasoning && !c.attachment && !c.toolcall);
    assert_eq!(c.input, IOCapabilities::default());
    assert!(!c.output.text && !c.output.pdf);
    assert_eq!(ModelLimits::default(), ModelLimits { context: 0, output: 0 });
}

#[test]
fn session_info_is_plain_data() {
    let s = SessionInfo {
        id: "s".to_string(),
        title: "t".to_string(),
        directory: "/".to_string(),
        version: None,
        time: Some(SessionTime { created: 1, updated: 2 }),
    };
    assert_eq!(s.clone(), s);
    assert_eq!(s.time.unwrap().updated, 2);
    let p = ProviderStatus { connected: vec!["anthropic".to_string()] };
    assert_eq!(p.connected.len(), 1);
}

#[test]
fn the_stream_is_found_under_the_base_url() {
    assert_eq!(events_url("http://127.0.0.1:4096"), "http://127.0.0.1:4096/global/event");
    assert_eq!(events_url("http://127.0.0.1:4096/"), "http://127.0.0.1:4096/global/event");
    assert_eq!(events_url("http://h///"), "http://h/global/event");
    assert_eq!(events_url("/"), "/global/event");
    assert_eq!(events_url(""), "/global/event");
}

#[test]
fn a_message_of_the_stream_holds_directory_and_payload() {
    let e = decode_global_event(r#"{"directory": "/work", "payload": {"type": "x"}, "n": 1}"#)
        .unwrap();
    assert_eq!(e.directory, "/work");
    assert_eq!(e.payload, serde_json::from_str::<serde_json::Value>(r#"{"type": "x"}"#).unwrap());
    assert!(decode_global_event(r#"{"directory": "/work", "payload": null}"#).is_some());
    assert!(decode_global_event(r#"{"directory": "/work"}"#).is_none());
    assert!(decode_global_event(r#"{"payload": {}}"#).is_none());
    assert!(decode_global_event(r#"{"directory": 1, "payload": {}}"#).is_none());
    assert!(decode_global_event("not json").is_none());
    assert!(decode_global_event("").is_none());
}

#[test]
fn api_event_and_audio_errors_show_their_messages() {
    assert_eq!(ApiError::Url("x".to_string()).message(), "invalid base url: x");
    assert_eq!(ApiError::Http("x".to_string()).message(), "http error: x");
    assert_eq!(ApiError::Decode("x".to_string()).message(), "decode error: x");
    assert_eq!(status_error("404 Not Found"), ApiError::Http("Status 404 Not Found".to_string()));
    assert_eq!(EventsError::Http("x".to_string()).message(), "http error: x");
    assert_eq!(
        AudioError::NoMicrophoneFound.message(),
        "No microphone found. Please check your system audio settings."
    );
    assert_eq!(
        AudioError::DeviceInitFailed("x".to_string()).message(),
        "Failed to initialize audio device: x"
    );
    assert_eq!(
        AudioError::StreamStartFailed("x".to_string()).message(),
        "Failed to start audio stream: x"
    );
    assert_eq!(AudioError::NoAudioCaptured.message(), "No audio captured (silence or too short)");
    assert_eq!(AudioError::ResampleFailed("x".to_string()).message(), "Failed to resample audio: x");
    assert_eq!(
        AudioError::ModelNotFound { path: "/m".to_string() }.message(),
        "Whisper model not found at: /m"
    );
    assert_eq!(
        AudioError::ModelLoadFailed("x".to_string()).message(),
        "Failed to load Whisper model: x"
    );
    assert_eq!(AudioError::TranscriptionFailed("x".to_string()).message(), "Transcription failed: x");
    assert_eq!(AudioError::FormatError("x".to_string()).message(), "Audio format error: x");
    assert_eq!(AudioError::Io("x".to_string()).message(), "IO error: x");
}
