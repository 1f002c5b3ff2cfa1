use opencode_egui::auth::{AnthropicAuth, OAuthTokens};
use opencode_egui::client::events::global_event_from;
use opencode_egui::compose::data_url;
use opencode_egui::config::models::CuratedModel;
use opencode_egui::discovery::spawn::{pick_host_and_digits, port_from};
use opencode_egui::models_dev::{ModelsDevModel, ModelsDevProvider};
use opencode_egui::presentation::{catalogue_name, curated_name, model_label};
use opencode_egui::startup::auth::AuthSyncStatus;

fn curated() -> Vec<CuratedModel> {
    vec![
        CuratedModel::new("GPT-4", "openai", "gpt-4"),
        CuratedModel::new("Haiku", "anthropic", "haiku-4-5"),
        CuratedModel::new("Second", "openai", "gpt-4"),
    ]
}

fn pair(a: &str, b: &str) -> Option<(String, String)> {
    Some((a.to_string(), b.to_string()))
}

#[test]
fn a_chosen_model_is_shown_by_its_curated_name() {
    let none = Vec::new();
    let status = AuthSyncStatus::Complete;
    assert_eq!(model_label(&pair("openai", "gpt-4"), &curated(), &none, None, &status), "GPT-4");
    assert_eq!(
        model_label(&pair("openai", "o3"), &curated(), &none, None, &status),
        "openai/o3"
    );
    let connected = vec!["openai".to_string(), "anthropic".to_string()];
    assert_eq!(
        model_label(&pair("anthropic", "haiku-4-5"), &curated(), &connected, None, &status),
        "\u{1f7e2} Haiku (Subscription)"
    );
    assert_eq!(
        model_label(&pair("anthropic", "opus"), &[], &connected, None, &status),
        "\u{1f7e2} anthropic/opus (Subscription)"
    );
    assert_eq!(model_label(&pair("openai", "gpt-4"), &curated(), &connected, None, &status), "GPT-4");
    assert_eq!(
        model_label(&pair("anthropic", "haiku-4-5"), &curated(), &none, None, &status),
        "Haiku"
    );
    assert_eq!(curated_name(&curated(), "openai", "gpt-4"), Some("GPT-4".to_string()));
    assert_eq!(curated_name(&curated(), "openai", "haiku-4-5"), None);
}

#[test]
fn without_a_choice_the_default_is_shown() {
    let none = Vec::new();
    let connected = vec!["anthropic".to_string()];
    let complete = AuthSyncStatus::Complete;
    assert_eq!(
        model_label(&None, &curated(), &connected, Some("Haiku 4.5".to_string()), &complete),
        "\u{1f7e2} Haiku 4.5 (Subscription)"
    );
    assert_eq!(
        model_label(&None, &curated(), &connected, None, &complete),
        "\u{1f7e2} (Anthropic Subscription)"
    );
    assert_eq!(model_label(&None, &curated(), &none, Some("x".to_string()), &complete), "(default)");
    assert_eq!(
        model_label(&None, &curated(), &none, None, &AuthSyncStatus::InProgress),
        "\u{23f3}"
    );
    assert_eq!(
        model_label(&None, &curated(), &none, None, &AuthSyncStatus::Failed("x".to_string())),
        "\u{274c}"
    );
    assert_eq!(model_label(&None, &curated(), &none, None, &AuthSyncStatus::NotStarted), "...");
}

#[test]
fn the_catalogue_names_its_models() {
    let model = |id: &str, name: &str| {
        (
            id.to_string(),
            ModelsDevModel {
                id: id.to_string(),
                name: name.to_string(),
                family: None,
                attachment: false,
                reasoning: false,
                tool_call: false,
                temperature: false,
                release_date: None,
                limit: None,
            },
        )
    };
    let provider = |key: &str, models: Vec<(String, ModelsDevModel)>| {
        (
            key.to_string(),
            ModelsDevProvider {
                id: key.to_string(),
                name: key.to_uppercase(),
                env: Vec::new(),
                npm: None,
                api: None,
                models,
            },
        )
    };
    let catalogue = vec![
        provider("openai", vec![model("gpt-4", "GPT-4")]),
        provider("anthropic", vec![model("opus", "Opus"), model("haiku", "Haiku 4.5")]),
    ];
    assert_eq!(catalogue_name(&catalogue, "anthropic", "haiku"), "Haiku 4.5");
    assert_eq!(catalogue_name(&catalogue, "anthropic", "sonnet"), "sonnet");
    assert_eq!(catalogue_name(&catalogue, "google", "haiku"), "haiku");
    assert_eq!(catalogue_name(&Vec::new(), "anthropic", "haiku"), "haiku");
}

#[test]
fn host_and_port_come_from_the_groups_of_a_match() {
    let s = |t: &str| Some(t.to_string());
    assert_eq!(
        pick_host_and_digits(Some(vec![s("http://h:1"), s("h"), s("1")])),
        Some(("h".to_string(), "1".to_string()))
    );
    assert_eq!(pick_host_and_digits(None), None);
    assert_eq!(pick_host_and_digits(Some(Vec::new())), None);
    assert_eq!(pick_host_and_digits(Some(vec![s("x"), s("h")])), None);
    assert_eq!(pick_host_and_digits(Some(vec![s("x"), s("h"), s("1"), s("2")])), None);
    assert_eq!(pick_host_and_digits(Some(vec![s("x"), None, s("1")])), None);
    assert_eq!(pick_host_and_digits(Some(vec![s("x"), s("h"), None])), None);
    assert_eq!(
        pick_host_and_digits(Some(vec![None, s("h"), s("1")])),
        Some(("h".to_string(), "1".to_string()))
    );
    assert_eq!(port_from(Some(4096)), 4096);
    assert_eq!(port_from(Some(65535)), 65535);
    assert_eq!(port_from(Some(65536)), 0);
    assert_eq!(port_from(Some(u64::MAX)), 0);
    assert_eq!(port_from(Some(0)), 0);
    assert_eq!(port_from(None), 0);
}

#[test]
fn data_urls_name_their_type() {
    assert_eq!(data_url("image/png", "AAEC"), "data:image/png;base64,AAEC");
    assert_eq!(data_url("", ""), "data:;base64,");
}

#[test]
fn a_message_of_the_stream_is_read_from_a_document() {
    let document: serde_json::Value =
        serde_json::from_str(r#"{"directory": "/w", "payload": [1]}"#).unwrap();
    let event = global_event_from(&document).unwrap();
    assert_eq!(event.directory, "/w");
    assert_eq!(event.payload, serde_json::from_str::<serde_json::Value>("[1]").unwrap());
    assert!(global_event_from(&serde_json::Value::Null).is_none());
}

#[test]
fn the_cache_is_worked_on_line_by_line() {
    let tokens = OAuthTokens { access: "a".to_string(), refresh: "r".to_string(), expires: 7 };
    let earlier = vec![
        "ANTHROPIC_OAUTH_EXPIRES=1".to_string(),
        "KEEP=1".to_string(),
        "ANTHROPIC_API_KEY=sk".to_string(),
    ];
    assert_eq!(
        AnthropicAuth::cache_oauth_to_lines(&tokens, &earlier),
        vec![
            "KEEP=1".to_string(),
            "ANTHROPIC_API_KEY=sk".to_string(),
            "ANTHROPIC_OAUTH_ACCESS=a".to_string(),
            "ANTHROPIC_OAUTH_REFRESH=r".to_string(),
            "ANTHROPIC_OAUTH_EXPIRES=7".to_string(),
        ]
    );
    assert_eq!(AnthropicAuth::api_key_in_lines(&earlier), Some("sk".to_string()));
    assert_eq!(AnthropicAuth::api_key_in_lines(&Vec::new()), None);
    assert_eq!(
        AnthropicAuth::tokens_from_parts(Some("a".to_string()), Some("r".to_string()), Some(7)),
        Some(tokens)
    );
    assert_eq!(AnthropicAuth::tokens_from_parts(Some("a".to_string()), None, Some(7)), None);
    assert_eq!(
        AnthropicAuth::tokens_from_parts(Some("a".to_string()), Some("r".to_string()), None),
        None
    );
}
