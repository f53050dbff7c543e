use ark_cli::{
    append_query_params, chat_body, default_messages, endpoint_url, resolve_model,
    resolve_resource_id, validate_model, value_source, AppConfig, Cli, Command, Endpoint,
    JsonValue, ModelKind, Protocol, ValueSource, OPENAI_BASE_URL, TTS_BIDIRECTIONAL_WS_URL,
    TTS_HTTP_URL, TTS_UNIDIRECTIONAL_WS_URL,
};

fn s(v: &str) -> String {
    v.to_string()
}

fn text_of(v: Option<&JsonValue>) -> Option<&str> {
    v.and_then(|x| x.as_str())
}

fn sorted_keys(v: &JsonValue) -> Vec<&str> {
    let mut keys: Vec<&str> = match v {
        JsonValue::Object(es) => es.iter().map(|(k, _)| k.as_str()).collect(),
        _ => panic!("not an object: {v:?}"),
    };
    keys.sort();
    keys
}

fn array_len(v: Option<&JsonValue>) -> usize {
    match v {
        Some(JsonValue::Array(items)) => items.len(),
        other => panic!("not an array: {other:?}"),
    }
}

fn user_hi_messages() -> JsonValue {
    // The JSON text [{"role":"user","content":"hi"}].
    JsonValue::Array(vec![JsonValue::Object(vec![
        (s("role"), JsonValue::Str(s("user"))),
        (s("content"), JsonValue::Str(s("hi"))),
    ])])
}

fn empty_cli() -> Cli {
    Cli {
        config: None,
        api_key: None,
        base_url: None,
        model: None,
        resource_id: None,
        protocol: None,
        dryrun: false,
        json: false,
        verbose: false,
        command: Command::List { kind: None },
    }
}

// ---------------------------------------------------------------------------
// endpoint_url
// ---------------------------------------------------------------------------

#[test]
fn endpoint_url_joins_base_without_double_slash() {
    let url = endpoint_url(
        "https://ark.cn-beijing.volces.com/api/plan/v3/",
        Endpoint::Images,
        None,
    );
    assert_eq!(
        url,
        "https://ark.cn-beijing.volces.com/api/plan/v3/images/generations"
    );
}

#[test]
fn endpoint_url_keeps_base_without_trailing_slash_intact() {
    let url = endpoint_url(
        "https://ark.cn-beijing.volces.com/api/plan/v3",
        Endpoint::Images,
        None,
    );
    assert_eq!(
        url,
        "https://ark.cn-beijing.volces.com/api/plan/v3/images/generations"
    );
}

#[test]
fn endpoint_url_table_covers_every_path_endpoint() {
    let base = "https://x.example/p";
    for (endpoint, expected) in [
        (Endpoint::AnthropicMessages, "https://x.example/p/v1/messages"),
        (Endpoint::OpenaiChat, "https://x.example/p/chat/completions"),
        (Endpoint::Embeddings, "https://x.example/p/embeddings"),
        (Endpoint::Images, "https://x.example/p/images/generations"),
        (Endpoint::VideoTasks, "https://x.example/p/contents/generations/tasks"),
    ] {
        assert_eq!(endpoint_url(base, endpoint, None), expected);
    }
}

#[test]
fn endpoint_url_appends_task_id_for_non_video_endpoints() {
    let url = endpoint_url("https://x.example/p", Endpoint::AnthropicMessages, Some("msg_7"));
    assert_eq!(url, "https://x.example/p/v1/messages/msg_7");
}

#[test]
fn video_task_endpoint_can_include_id() {
    let url = endpoint_url(OPENAI_BASE_URL, Endpoint::VideoTasks, Some("task-123"));
    assert_eq!(
        url,
        "https://ark.cn-beijing.volces.com/api/plan/v3/contents/generations/tasks/task-123"
    );
}

#[test]
fn endpoint_url_tts_endpoints_ignore_base_and_task_id() {
    let custom_base = "https://custom.example/whatever/";
    for (endpoint, expected) in [
        (Endpoint::TtsHttp, TTS_HTTP_URL),
        (Endpoint::TtsBidirectionalWs, TTS_BIDIRECTIONAL_WS_URL),
        (Endpoint::TtsUnidirectionalWs, TTS_UNIDIRECTIONAL_WS_URL),
    ] {
        assert_eq!(endpoint_url(custom_base, endpoint, None), expected);
        assert_eq!(endpoint_url(custom_base, endpoint, Some("ignored")), expected);
    }
}

// ---------------------------------------------------------------------------
// validate_model
// ---------------------------------------------------------------------------

#[test]
fn auto_model_is_rejected() {
    let error = validate_model("Auto", ModelKind::Text).unwrap_err();
    assert_eq!(
        error.to_string(),
        "Auto mode is not supported by these Ark Plan endpoints; choose a concrete model"
    );
}

#[test]
fn auto_rejection_is_case_insensitive_across_kinds() {
    for (name, kind) in [
        ("auto", ModelKind::Text),
        ("AUTO", ModelKind::Embedding),
        ("AuTo", ModelKind::Speech),
    ] {
        let error = validate_model(name, kind).unwrap_err();
        assert!(
            error.to_string().starts_with("Auto mode is not supported"),
            "expected Auto rejection for {name:?}"
        );
    }
}

#[test]
fn listed_text_model_is_accepted() {
    validate_model("doubao-seed-2.0-code", ModelKind::Text).unwrap();
}

#[test]
fn validate_model_accepts_one_entry_per_kind() {
    for (name, kind) in [
        ("doubao-seed-2.0-code", ModelKind::Text),
        ("doubao-embedding-vision", ModelKind::Embedding),
        ("doubao-seedream-5.0-lite", ModelKind::Image),
        ("doubao-seedance-2.0", ModelKind::Video),
        ("seed-tts-2.0", ModelKind::Speech),
    ] {
        validate_model(name, kind).unwrap_or_else(|e| {
            panic!("expected {name:?} ({kind:?}) to be accepted: {}", e.to_string())
        });
    }
}

#[test]
fn wrong_kind_is_rejected() {
    let error = validate_model("doubao-seedream-5.0-lite", ModelKind::Text).unwrap_err();
    assert_eq!(
        error.to_string(),
        "unsupported Text model/resource id: doubao-seedream-5.0-lite"
    );
}

#[test]
fn unknown_model_is_rejected() {
    let error = validate_model("does-not-exist-xyz", ModelKind::Text).unwrap_err();
    assert_eq!(
        error.to_string(),
        "unsupported Text model/resource id: does-not-exist-xyz"
    );
}

// ---------------------------------------------------------------------------
// chat_body
// ---------------------------------------------------------------------------

#[test]
fn anthropic_chat_body_uses_messages_shape() {
    let body = chat_body(
        Protocol::Anthropic,
        "doubao-seed-2.0-code",
        default_messages("hello"),
        Some("be concise"),
        32,
    )
    .unwrap();
    assert_eq!(text_of(body.get("model")), Some("doubao-seed-2.0-code"));
    assert_eq!(text_of(body.get("system")), Some("be concise"));
    assert_eq!(body.get("max_tokens"), Some(&JsonValue::UInt(32)));
    let first = body.get("messages").and_then(|m| m.at(0)).unwrap();
    assert_eq!(text_of(first.get("role")), Some("user"));
    assert_eq!(text_of(first.get("content")), Some("hello"));
    assert_eq!(sorted_keys(&body), vec!["max_tokens", "messages", "model", "system"]);
}

#[test]
fn anthropic_chat_body_omits_system_when_none() {
    let body = chat_body(
        Protocol::Anthropic,
        "doubao-seed-2.0-code",
        default_messages("hello"),
        None,
        16,
    )
    .unwrap();
    assert!(body.get("system").is_none());
    assert_eq!(sorted_keys(&body), vec!["max_tokens", "messages", "model"]);
}

#[test]
fn openai_chat_body_prepends_system_to_default_message() {
    let body = chat_body(
        Protocol::Openai,
        "doubao-seed-2.0-code",
        default_messages("hello"),
        Some("sys-prompt"),
        16,
    )
    .unwrap();
    assert_eq!(text_of(body.get("model")), Some("doubao-seed-2.0-code"));
    assert_eq!(body.get("max_tokens"), Some(&JsonValue::UInt(16)));
    let messages = body.get("messages");
    assert_eq!(array_len(messages), 2);
    let first = messages.and_then(|m| m.at(0)).unwrap();
    let second = messages.and_then(|m| m.at(1)).unwrap();
    assert_eq!(text_of(first.get("role")), Some("system"));
    assert_eq!(text_of(first.get("content")), Some("sys-prompt"));
    assert_eq!(text_of(second.get("role")), Some("user"));
    assert_eq!(text_of(second.get("content")), Some("hello"));
}

#[test]
fn openai_chat_body_prepends_system_to_messages_json_array() {
    let body = chat_body(
        Protocol::Openai,
        "doubao-seed-2.0-code",
        user_hi_messages(),
        Some("sys"),
        8,
    )
    .unwrap();
    let messages = body.get("messages");
    let first = messages.and_then(|m| m.at(0)).unwrap();
    let second = messages.and_then(|m| m.at(1)).unwrap();
    assert_eq!(text_of(first.get("role")), Some("system"));
    assert_eq!(text_of(first.get("content")), Some("sys"));
    assert_eq!(text_of(second.get("role")), Some("user"));
    assert_eq!(text_of(second.get("content")), Some("hi"));
}

#[test]
fn openai_chat_body_without_system_leaves_messages_unchanged() {
    let body = chat_body(
        Protocol::Openai,
        "doubao-seed-2.0-code",
        user_hi_messages(),
        None,
        8,
    )
    .unwrap();
    let messages = body.get("messages");
    assert_eq!(array_len(messages), 1);
    let first = messages.and_then(|m| m.at(0)).unwrap();
    assert_eq!(text_of(first.get("role")), Some("user"));
    assert_eq!(text_of(first.get("content")), Some("hi"));
    assert!(body.get("system").is_none());
}

#[test]
fn openai_chat_body_rejects_non_array_messages_json_when_system_present() {
    // The JSON text {"not":"an array"}.
    let messages = JsonValue::Object(vec![(s("not"), JsonValue::Str(s("an array")))]);
    let error = chat_body(
        Protocol::Openai,
        "doubao-seed-2.0-code",
        messages,
        Some("sys"),
        8,
    )
    .unwrap_err();
    assert_eq!(error.to_string(), "messages_json must decode to an array");
}

// ---------------------------------------------------------------------------
// AppConfig::merged
// ---------------------------------------------------------------------------

#[test]
fn config_overrides_file_with_cli_values() {
    // ark-cli --api-key from-cli --model doubao-seed-2.0-code list
    let cli = Cli {
        api_key: Some(s("from-cli")),
        model: Some(s("doubao-seed-2.0-code")),
        ..empty_cli()
    };
    let config = AppConfig {
        api_key: Some(s("from-file")),
        model: Some(s("deepseek-v4-flash")),
        ..Default::default()
    }
    .merged(&cli);
    assert_eq!(config.api_key.as_deref(), Some("from-cli"));
    assert_eq!(config.model.as_deref(), Some("doubao-seed-2.0-code"));
}

#[test]
fn merged_retains_config_values_when_cli_fields_absent() {
    let cli = Cli {
        config: None,
        api_key: None,
        base_url: None,
        model: None,
        resource_id: None,
        protocol: None,
        dryrun: false,
        json: false,
        verbose: false,
        command: Command::List { kind: None },
    };
    let config = AppConfig {
        api_key: Some(s("k")),
        base_url: Some(s("https://from-config")),
        model: Some(s("doubao-seed-2.0-code")),
        resource_id: Some(s("seed-tts-2.0")),
        protocol: Some(Protocol::Anthropic),
    }
    .merged(&cli);
    assert_eq!(config.api_key.as_deref(), Some("k"));
    assert_eq!(config.base_url.as_deref(), Some("https://from-config"));
    assert_eq!(config.model.as_deref(), Some("doubao-seed-2.0-code"));
    assert_eq!(config.resource_id.as_deref(), Some("seed-tts-2.0"));
    assert_eq!(config.protocol, Some(Protocol::Anthropic));
}

#[test]
fn merged_overrides_base_url_resource_id_and_protocol() {
    // ark-cli --base-url https://cli-url --resource-id seed-tts-2.0 --protocol anthropic list
    let cli = Cli {
        base_url: Some(s("https://cli-url")),
        resource_id: Some(s("seed-tts-2.0")),
        protocol: Some(Protocol::Anthropic),
        ..empty_cli()
    };
    let config = AppConfig {
        base_url: Some(s("https://config-url")),
        resource_id: Some(s("volc.seedasr.sauc.duration")),
        protocol: Some(Protocol::Openai),
        ..Default::default()
    }
    .merged(&cli);
    assert_eq!(config.base_url.as_deref(), Some("https://cli-url"));
    assert_eq!(config.resource_id.as_deref(), Some("seed-tts-2.0"));
    assert_eq!(config.protocol, Some(Protocol::Anthropic));
}

// ---------------------------------------------------------------------------
// append_query_params
// ---------------------------------------------------------------------------

#[test]
fn append_query_params_empty_returns_url_unchanged() {
    let url = "https://example.com/api".to_string();
    assert_eq!(append_query_params(url.clone(), &[]), url);
}

#[test]
fn append_query_params_single_param() {
    let params = [("page_num".to_string(), "1".to_string())];
    assert_eq!(
        append_query_params("https://example.com/api".to_string(), &params),
        "https://example.com/api?page_num=1"
    );
}

#[test]
fn append_query_params_multiple_params_joined_with_amp() {
    let params = [
        ("page_num".to_string(), "1".to_string()),
        ("page_size".to_string(), "20".to_string()),
        ("filter.status".to_string(), "succeeded".to_string()),
    ];
    assert_eq!(
        append_query_params("https://example.com/api".to_string(), &params),
        "https://example.com/api?page_num=1&page_size=20&filter.status=succeeded"
    );
}

#[test]
fn append_query_params_does_not_url_encode_values() {
    let params = [("q".to_string(), "a&b=c".to_string())];
    assert_eq!(
        append_query_params("https://example.com/api".to_string(), &params),
        "https://example.com/api?q=a&b=c"
    );
}

// ---------------------------------------------------------------------------
// read_value_arg: which source an argument names
// ---------------------------------------------------------------------------

#[test]
fn read_value_arg_returns_literal_unchanged() {
    match value_source("plain literal") {
        ValueSource::Literal(text) => assert_eq!(text, "plain literal"),
        other => panic!("unexpected source: {other:?}"),
    }
}

// ---------------------------------------------------------------------------
// resolve_model / resolve_resource_id
// ---------------------------------------------------------------------------

#[test]
fn resolve_model_errors_when_neither_cli_nor_config_provide_it() {
    let config = AppConfig::default();
    let error = resolve_model(None, &config, ModelKind::Text).unwrap_err();
    assert_eq!(
        error.to_string(),
        "missing model; pass --model, ARK_MODEL, or config model"
    );
}

#[test]
fn resolve_model_falls_back_to_config_model() {
    let config = AppConfig {
        model: Some("doubao-seed-2.0-code".to_string()),
        ..Default::default()
    };
    assert_eq!(resolve_model(None, &config, ModelKind::Text).unwrap(), "doubao-seed-2.0-code");
}

#[test]
fn resolve_model_cli_value_takes_precedence_over_config() {
    let config = AppConfig {
        model: Some("deepseek-v4-flash".to_string()),
        ..Default::default()
    };
    assert_eq!(
        resolve_model(Some("doubao-seed-2.0-code"), &config, ModelKind::Text).unwrap(),
        "doubao-seed-2.0-code"
    );
}

#[test]
fn resolve_model_rejects_invalid_model() {
    let config = AppConfig::default();
    let error = resolve_model(Some("no-such-model"), &config, ModelKind::Text).unwrap_err();
    assert_eq!(
        error.to_string(),
        "unsupported Text model/resource id: no-such-model"
    );
}

#[test]
fn resolve_resource_id_defaults_to_seed_tts_when_unspecified() {
    let config = AppConfig::default();
    assert_eq!(resolve_resource_id(None, &config).unwrap(), "seed-tts-2.0");
}

#[test]
fn resolve_resource_id_uses_config_value_when_cli_absent() {
    let config = AppConfig {
        resource_id: Some("volc.seedasr.sauc.duration".to_string()),
        ..Default::default()
    };
    assert_eq!(
        resolve_resource_id(None, &config).unwrap(),
        "volc.seedasr.sauc.duration"
    );
}

#[test]
fn resolve_resource_id_cli_value_takes_precedence_over_config() {
    let config = AppConfig {
        resource_id: Some("volc.seedasr.sauc.duration".to_string()),
        ..Default::default()
    };
    assert_eq!(
        resolve_resource_id(Some("seed-tts-2.0"), &config).unwrap(),
        "seed-tts-2.0"
    );
}

#[test]
fn resolve_resource_id_rejects_invalid_id() {
    let config = AppConfig::default();
    let error = resolve_resource_id(Some("bad-tts-id"), &config).unwrap_err();
    assert_eq!(
        error.to_string(),
        "unsupported Speech model/resource id: bad-tts-id"
    );
}
