use ark_cli::{
    auth_headers, catalog, catalog_entries, catalog_lines, claude_settings, endpoint_url,
    env_lines, http_method, kind_name, response_outcome, resume, run, run_with, sends_body,
    set_field, validate_model, value_source, video_list_query, Action, AppConfig, Cli,
    CliError, Command, Endpoint, HttpRequest, Input, JsonValue, ModelKind, Pending, Protocol,
    Tool, ValueSource, VideoCommand, ANTHROPIC_BASE_URL, OPENAI_BASE_URL, TTS_HTTP_URL,
};

fn s(v: &str) -> String {
    v.to_string()
}

fn cli_with(command: Command) -> Cli {
    Cli {
        config: None,
        api_key: None,
        base_url: None,
        model: None,
        resource_id: None,
        protocol: None,
        dryrun: false,
        json: false,
        verbose: false,
        command,
    }
}

fn keyed_config() -> AppConfig {
    AppConfig { api_key: Some(s("secret")), ..Default::default() }
}

fn text_of(v: Option<&JsonValue>) -> Option<&str> {
    v.and_then(|x| x.as_str())
}

fn expect_send(r: Result<Action, CliError>) -> HttpRequest {
    match r {
        Ok(Action::Send(req)) => req,
        other => panic!("expected a request, got {other:?}"),
    }
}

fn expect_read(r: Result<Action, CliError>) -> (ValueSource, Pending) {
    match r {
        Ok(Action::Read { source, then }) => (source, then),
        other => panic!("expected a read, got {other:?}"),
    }
}

fn expect_print(r: Result<Action, CliError>) -> Vec<String> {
    match r {
        Ok(Action::Print(lines)) => lines,
        other => panic!("expected lines, got {other:?}"),
    }
}

fn expect_json(r: Result<Action, CliError>) -> JsonValue {
    match r {
        Ok(Action::PrintJson(v)) => v,
        other => panic!("expected JSON, got {other:?}"),
    }
}

fn header_list(req: &HttpRequest) -> Vec<(&str, &str)> {
    req.headers.iter().map(|(k, v)| (k.as_str(), v.as_str())).collect()
}

// ---------------------------------------------------------------------------
// catalog and listing
// ---------------------------------------------------------------------------

#[test]
fn catalog_lists_every_kind_and_each_entry_validates_for_its_kind() {
    let entries = catalog();
    assert_eq!(entries.len(), 21);
    for kind in [
        ModelKind::Text,
        ModelKind::Embedding,
        ModelKind::Image,
        ModelKind::Video,
        ModelKind::Speech,
    ] {
        assert!(!catalog_entries(Some(kind)).is_empty());
    }
    for entry in entries {
        validate_model(entry.name, entry.kind).unwrap();
    }
}

#[test]
fn listed_names_are_exactly_the_accepted_ones() {
    for kind in [ModelKind::Text, ModelKind::Video, ModelKind::Speech] {
        let listed: Vec<&str> = catalog_entries(Some(kind)).iter().map(|e| e.name).collect();
        for entry in catalog() {
            let accepted = validate_model(entry.name, kind).is_ok();
            assert_eq!(accepted, listed.contains(&entry.name), "{}", entry.name);
        }
    }
}

#[test]
fn speech_filter_keeps_catalog_order() {
    let names: Vec<&str> =
        catalog_entries(Some(ModelKind::Speech)).iter().map(|e| e.name).collect();
    assert_eq!(names, vec!["seed-tts-2.0", "volc.seedasr.sauc.duration"]);
    assert_eq!(catalog_entries(None).len(), 21);
}

#[test]
fn catalog_line_pads_name_and_kind_columns() {
    let lines = catalog_lines(Some(ModelKind::Embedding));
    assert_eq!(
        lines,
        vec![format!(
            "{:<32} {:<10} {}",
            "doubao-embedding-vision", "Embedding", "embedding; no Auto/console switch"
        )]
    );
    let first = &catalog_lines(None)[0];
    assert_eq!(
        first,
        "doubao-seed-2.0-code             Text       text generation"
    );
}

#[test]
fn kind_names_match_debug_forms() {
    for kind in [
        ModelKind::Text,
        ModelKind::Embedding,
        ModelKind::Image,
        ModelKind::Video,
        ModelKind::Speech,
    ] {
        assert_eq!(kind_name(kind), format!("{kind:?}"));
    }
}

#[test]
fn list_command_prints_lines_or_entries() {
    let lines = expect_print(run_with(
        &cli_with(Command::List { kind: Some(ModelKind::Image) }),
        &AppConfig::default(),
    ));
    assert_eq!(lines.len(), 1);
    assert!(lines[0].starts_with("doubao-seedream-5.0-lite"));
    let mut cli = cli_with(Command::List { kind: None });
    cli.json = true;
    match run_with(&cli, &AppConfig::default()) {
        Ok(Action::PrintCatalogJson(entries)) => assert_eq!(entries.len(), 21),
        other => panic!("unexpected {other:?}"),
    }
}

#[test]
fn auto_in_any_casing_is_refused_for_every_kind() {
    for name in ["auto", "Auto", "aUTO"] {
        for kind in [ModelKind::Image, ModelKind::Video] {
            assert_eq!(validate_model(name, kind), Err(CliError::AutoModel));
        }
    }
    // Five letters are not "auto".
    assert!(matches!(
        validate_model("autox", ModelKind::Text),
        Err(CliError::UnsupportedModel { .. })
    ));
}

// ---------------------------------------------------------------------------
// URLs, queries and methods
// ---------------------------------------------------------------------------

#[test]
fn several_trailing_slashes_are_all_trimmed() {
    assert_eq!(
        endpoint_url("https://x.example/p///", Endpoint::Embeddings, Some("t1")),
        "https://x.example/p/embeddings/t1"
    );
    assert_eq!(endpoint_url("///", Endpoint::OpenaiChat, None), "/chat/completions");
}

#[test]
fn endpoint_command_uses_configured_protocol_and_base() {
    let cli = cli_with(Command::Endpoint { endpoint: Endpoint::OpenaiChat, task_id: None });
    let lines = expect_print(run_with(&cli, &AppConfig::default()));
    assert_eq!(lines, vec![format!("{OPENAI_BASE_URL}/chat/completions")]);

    let config = AppConfig { protocol: Some(Protocol::Anthropic), ..Default::default() };
    let lines = expect_print(run_with(&cli, &config));
    assert_eq!(lines, vec![format!("{ANTHROPIC_BASE_URL}/chat/completions")]);

    let cli = cli_with(Command::Endpoint {
        endpoint: Endpoint::AnthropicMessages,
        task_id: Some(s("m1")),
    });
    let lines = expect_print(run_with(&cli, &AppConfig::default()));
    assert_eq!(lines, vec![format!("{ANTHROPIC_BASE_URL}/v1/messages/m1")]);
}

#[test]
fn http_methods_are_tokens_kept_as_written() {
    assert_eq!(http_method("POST").unwrap(), "POST");
    assert_eq!(http_method("get").unwrap(), "get");
    assert_eq!(http_method("X-CUSTOM~1").unwrap(), "X-CUSTOM~1");
    assert_eq!(http_method(""), Err(CliError::InvalidMethod));
    assert_eq!(http_method("GE T"), Err(CliError::InvalidMethod));
    assert_eq!(http_method("GÉT"), Err(CliError::InvalidMethod));
    assert!(sends_body("POST"));
    assert!(sends_body("get"));
    assert!(!sends_body("GET"));
    assert!(!sends_body("DELETE"));
}

#[test]
fn auth_headers_per_protocol() {
    let anthropic = auth_headers(Protocol::Anthropic, "k1");
    let pairs: Vec<(&str, &str)> =
        anthropic.iter().map(|(k, v)| (k.as_str(), v.as_str())).collect();
    assert_eq!(
        pairs,
        vec![
            ("x-api-key", "k1"),
            ("Authorization", "Bearer k1"),
            ("anthropic-version", "2023-06-01"),
        ]
    );
    let openai = auth_headers(Protocol::Openai, "k2");
    assert_eq!(openai, vec![(s("Authorization"), s("Bearer k2"))]);
}

#[test]
fn video_list_query_builds_filters_in_order() {
    let q = video_list_query(
        Some(12),
        Some(0),
        &Some(s("succeeded")),
        &vec![s("a"), s("b")],
        &Some(s("doubao-seedance-2.0")),
    )
    .unwrap();
    let pairs: Vec<(&str, &str)> = q.iter().map(|(k, v)| (k.as_str(), v.as_str())).collect();
    assert_eq!(
        pairs,
        vec![
            ("page_num", "12"),
            ("page_size", "0"),
            ("filter.status", "succeeded"),
            ("filter.task_ids", "a,b"),
            ("filter.model", "doubao-seedance-2.0"),
        ]
    );
    assert!(video_list_query(None, None, &None, &vec![], &None).unwrap().is_empty());
    let error =
        video_list_query(None, None, &None, &vec![], &Some(s("glm-5.2"))).unwrap_err();
    assert_eq!(error.to_string(), "unsupported Video model/resource id: glm-5.2");
}

#[test]
fn video_list_sends_get_with_query_and_no_body() {
    let cli = cli_with(Command::Video {
        command: VideoCommand::List {
            page_num: Some(4294967295),
            page_size: None,
            status: None,
            task_id: vec![],
            model: None,
        },
    });
    let req = expect_send(run_with(&cli, &keyed_config()));
    assert_eq!(req.method, "GET");
    assert_eq!(
        req.url,
        format!("{OPENAI_BASE_URL}/contents/generations/tasks?page_num=4294967295")
    );
    assert!(req.body.is_none());
}

#[test]
fn video_get_and_cancel_address_the_task() {
    let cli = cli_with(Command::Video { command: VideoCommand::Cancel { task_id: s("t-9") } });
    let req = expect_send(run_with(&cli, &keyed_config()));
    assert_eq!(req.method, "DELETE");
    assert_eq!(req.url, format!("{OPENAI_BASE_URL}/contents/generations/tasks/t-9"));
    assert!(req.body.is_none());
    let cli = cli_with(Command::Video { command: VideoCommand::Get { task_id: s("t-9") } });
    let req = expect_send(run_with(&cli, &keyed_config()));
    assert_eq!(req.method, "GET");
    assert_eq!(header_list(&req), vec![("Authorization", "Bearer secret")]);
}

// ---------------------------------------------------------------------------
// commands that read, then send
// ---------------------------------------------------------------------------

#[test]
fn chat_reads_message_then_sends_openai_body() {
    let cli = cli_with(Command::Chat {
        message: Some(s("hello")),
        messages_json: None,
        system: Some(s("be brief")),
        model: Some(s("glm-5.2")),
        max_tokens: 64,
    });
    let config = keyed_config();
    let (source, then) = expect_read(run_with(&cli, &config));
    assert!(matches!(&source, ValueSource::Literal(t) if t == "hello"));
    assert!(!then.wants_json());
    let req = expect_send(resume(&cli, &config, then, Input::Text(s("hello"))));
    assert_eq!(req.method, "POST");
    assert_eq!(req.url, format!("{OPENAI_BASE_URL}/chat/completions"));
    let body = req.body.unwrap();
    assert_eq!(text_of(body.get("model")), Some("glm-5.2"));
    assert_eq!(body.get("max_tokens"), Some(&JsonValue::UInt(64)));
    let first = body.get("messages").and_then(|m| m.at(0)).unwrap();
    assert_eq!(text_of(first.get("role")), Some("system"));
    assert!(req.trace.is_none());
}

#[test]
fn chat_with_non_array_json_and_system_is_refused() {
    let cli = cli_with(Command::Chat {
        message: None,
        messages_json: Some(s("{}")),
        system: Some(s("sys")),
        model: Some(s("glm-5.2")),
        max_tokens: 8,
    });
    let config = keyed_config();
    let (_, then) = expect_read(run_with(&cli, &config));
    assert!(then.wants_json());
    let r = resume(&cli, &config, then, Input::Json(JsonValue::Object(vec![])));
    assert_eq!(r.unwrap_err(), CliError::MessagesNotArray);
}

#[test]
fn anthropic_chat_goes_to_messages_endpoint_with_anthropic_headers() {
    let mut cli = cli_with(Command::Chat {
        message: None,
        messages_json: None,
        system: None,
        model: None,
        max_tokens: 1024,
    });
    cli.verbose = true;
    let config = AppConfig {
        api_key: Some(s("k")),
        model: Some(s("doubao-seed-2.0-code")),
        protocol: Some(Protocol::Anthropic),
        ..Default::default()
    };
    let (source, then) = expect_read(run_with(&cli, &config));
    assert!(matches!(source, ValueSource::Stdin));
    let req = expect_send(resume(&cli, &config, then, Input::Text(s("hi"))));
    assert_eq!(req.url, format!("{ANTHROPIC_BASE_URL}/v1/messages"));
    assert_eq!(header_list(&req).len(), 3);
    assert_eq!(req.trace.as_deref(), Some(format!("POST {ANTHROPIC_BASE_URL}/v1/messages").as_str()));
}

#[test]
fn dry_run_prints_request_without_api_key() {
    let mut cli = cli_with(Command::Embeddings {
        input: s("@/tmp/input.txt"),
        model: Some(s("doubao-embedding-vision")),
    });
    cli.dryrun = true;
    let config = AppConfig::default();
    let (source, then) = expect_read(run_with(&cli, &config));
    assert!(matches!(&source, ValueSource::File(p) if p == "/tmp/input.txt"));
    let printed = expect_json(resume(&cli, &config, then, Input::Text(s("vec me"))));
    assert_eq!(text_of(printed.get("method")), Some("POST"));
    assert_eq!(text_of(printed.get("url")), Some(format!("{OPENAI_BASE_URL}/embeddings").as_str()));
    assert_eq!(text_of(printed.get("protocol")), Some("openai"));
    let body = printed.get("body").unwrap();
    assert_eq!(text_of(body.get("input")), Some("vec me"));
    assert_eq!(text_of(body.get("model")), Some("doubao-embedding-vision"));
}

#[test]
fn missing_api_key_is_reported_when_sending() {
    let cli = cli_with(Command::Image {
        prompt: s("a cat"),
        model: Some(s("doubao-seedream-5.0-lite")),
        size: Some(s("1024x1024")),
    });
    let config = AppConfig { api_key: Some(s("")), ..Default::default() };
    let (_, then) = expect_read(run_with(&cli, &config));
    let error = resume(&cli, &config, then, Input::Text(s("a cat"))).unwrap_err();
    assert_eq!(
        error.to_string(),
        "missing API key; set --api-key, ARK_API_KEY, or config api_key"
    );
}

#[test]
fn image_body_carries_size_when_given() {
    let cli = cli_with(Command::Image {
        prompt: s("a cat"),
        model: Some(s("doubao-seedream-5.0-lite")),
        size: Some(s("1024x1024")),
    });
    let config = keyed_config();
    let (_, then) = expect_read(run_with(&cli, &config));
    let req = expect_send(resume(&cli, &config, then, Input::Text(s("a cat"))));
    let body = req.body.unwrap();
    assert_eq!(text_of(body.get("prompt")), Some("a cat"));
    assert_eq!(text_of(body.get("size")), Some("1024x1024"));
}

#[test]
fn tts_defaults_resource_and_sets_voice_in_json_body() {
    let cli = cli_with(Command::Tts {
        text: None,
        body_json: Some(s("{\"voice\":\"old\",\"text\":\"x\"}")),
        resource_id: None,
        voice: Some(s("new")),
    });
    let config = keyed_config();
    let (_, then) = expect_read(run_with(&cli, &config));
    assert!(then.wants_json());
    let body = JsonValue::Object(vec![
        (s("voice"), JsonValue::Str(s("old"))),
        (s("text"), JsonValue::Str(s("x"))),
    ]);
    let req = expect_send(resume(&cli, &config, then, Input::Json(body)));
    assert_eq!(req.url, TTS_HTTP_URL);
    let body = req.body.unwrap();
    assert_eq!(text_of(body.get("voice")), Some("new"));
    match &body {
        JsonValue::Object(es) => assert_eq!(es.len(), 2),
        other => panic!("unexpected {other:?}"),
    }
}

#[test]
fn tts_text_body_uses_resolved_resource_id() {
    let cli = cli_with(Command::Tts {
        text: Some(s("hello")),
        body_json: None,
        resource_id: None,
        voice: None,
    });
    let config = keyed_config();
    let (_, then) = expect_read(run_with(&cli, &config));
    let req = expect_send(resume(&cli, &config, then, Input::Text(s("hello"))));
    let body = req.body.unwrap();
    assert_eq!(text_of(body.get("resource_id")), Some("seed-tts-2.0"));
    assert_eq!(text_of(body.get("text")), Some("hello"));
    assert!(body.get("voice").is_none());
}

#[test]
fn request_command_checks_method_before_reading() {
    let cli = cli_with(Command::Request {
        endpoint: Endpoint::Images,
        method: s("BAD METHOD"),
        body_json: Some(s("-")),
        task_id: None,
    });
    let error = run_with(&cli, &keyed_config()).unwrap_err();
    assert_eq!(error.to_string(), "invalid HTTP method");

    let cli = cli_with(Command::Request {
        endpoint: Endpoint::VideoTasks,
        method: s("GET"),
        body_json: None,
        task_id: Some(s("t1")),
    });
    let req = expect_send(run_with(&cli, &keyed_config()));
    assert_eq!(req.url, format!("{OPENAI_BASE_URL}/contents/generations/tasks/t1"));
    assert!(req.body.is_none());
}

#[test]
fn request_command_posts_json_body_as_read() {
    let cli = cli_with(Command::Request {
        endpoint: Endpoint::AnthropicMessages,
        method: s("PUT"),
        body_json: Some(s("{\"a\":1}")),
        task_id: None,
    });
    let config = keyed_config();
    let (source, then) = expect_read(run_with(&cli, &config));
    assert!(matches!(&source, ValueSource::Literal(t) if t == "{\"a\":1}"));
    let body = JsonValue::Object(vec![(s("a"), JsonValue::UInt(1))]);
    let req = expect_send(resume(&cli, &config, then, Input::Json(body)));
    assert_eq!(req.method, "PUT");
    assert_eq!(header_list(&req)[0], ("x-api-key", "secret"));
    assert_eq!(req.body, Some(JsonValue::Object(vec![(s("a"), JsonValue::UInt(1))])));
}

// ---------------------------------------------------------------------------
// printing commands
// ---------------------------------------------------------------------------

#[test]
fn env_lines_for_both_tools() {
    let lines = env_lines(Tool::Openai, "glm-5.2");
    assert_eq!(
        lines,
        vec![
            format!("export OPENAI_BASE_URL='{OPENAI_BASE_URL}'"),
            s("export OPENAI_API_KEY='<ARK_API_KEY>'"),
            s("export OPENAI_MODEL='glm-5.2'"),
        ]
    );
    let lines = env_lines(Tool::Anthropic, "m");
    assert_eq!(lines.len(), 7);
    assert_eq!(lines[0], format!("export ANTHROPIC_BASE_URL='{ANTHROPIC_BASE_URL}'"));
    assert_eq!(lines[6], "export CLAUDE_CODE_SUBAGENT_MODEL='m'");
}

#[test]
fn env_command_requires_a_text_model() {
    let cli = cli_with(Command::Env { tool: Tool::Openai, model: Some(s("doubao-seedance-2.0")) });
    let error = run_with(&cli, &AppConfig::default()).unwrap_err();
    assert_eq!(
        error.to_string(),
        "unsupported Text model/resource id: doubao-seedance-2.0"
    );
}

#[test]
fn agent_settings_hold_the_anthropic_exports() {
    let settings = claude_settings("kimi-k2.6");
    let env = settings.get("env").unwrap();
    assert_eq!(text_of(env.get("ANTHROPIC_BASE_URL")), Some(ANTHROPIC_BASE_URL));
    assert_eq!(text_of(env.get("ANTHROPIC_AUTH_TOKEN")), Some("<ARK_API_KEY>"));
    for key in [
        "ANTHROPIC_MODEL",
        "ANTHROPIC_DEFAULT_HAIKU_MODEL",
        "ANTHROPIC_DEFAULT_SONNET_MODEL",
        "ANTHROPIC_DEFAULT_OPUS_MODEL",
        "CLAUDE_CODE_SUBAGENT_MODEL",
    ] {
        assert_eq!(text_of(env.get(key)), Some("kimi-k2.6"));
    }
    let cli = cli_with(Command::ClaudeSettings { model: None });
    let config = AppConfig { model: Some(s("kimi-k2.6")), ..Default::default() };
    let printed = expect_json(run_with(&cli, &config));
    assert_eq!(printed, claude_settings("kimi-k2.6"));
}

// ---------------------------------------------------------------------------
// sources, JSON members, responses, run
// ---------------------------------------------------------------------------

#[test]
fn value_sources() {
    assert!(matches!(value_source("-"), ValueSource::Stdin));
    assert!(matches!(value_source("@a/b.txt"), ValueSource::File(p) if p == "a/b.txt"));
    assert!(matches!(value_source("@@x"), ValueSource::File(p) if p == "@x"));
    assert!(matches!(value_source("--"), ValueSource::Literal(t) if t == "--"));
    assert!(matches!(value_source(""), ValueSource::Literal(t) if t.is_empty()));
}

#[test]
fn set_field_replaces_appends_and_turns_null_into_object() {
    let obj = JsonValue::Object(vec![(s("a"), JsonValue::UInt(1))]);
    let obj = set_field(obj, "b", JsonValue::Bool(true));
    let obj = set_field(obj, "a", JsonValue::Null);
    assert_eq!(
        obj,
        JsonValue::Object(vec![(s("a"), JsonValue::Null), (s("b"), JsonValue::Bool(true))])
    );
    let from_null = set_field(JsonValue::Null, "k", JsonValue::Int(-3));
    assert_eq!(from_null, JsonValue::Object(vec![(s("k"), JsonValue::Int(-3))]));
}

#[test]
fn response_outcome_keeps_success_text_and_reports_failures() {
    assert_eq!(response_outcome(200, s("200 OK"), s("{}")).unwrap(), "{}");
    assert_eq!(response_outcome(299, s("299"), s("x")).unwrap(), "x");
    let error = response_outcome(404, s("404 Not Found"), s("nope")).unwrap_err();
    assert_eq!(error.to_string(), "request returned 404 Not Found: nope");
    assert!(response_outcome(300, s("300 Multiple Choices"), s("")).is_err());
    assert!(response_outcome(199, s("199"), s("")).is_err());
}

#[test]
fn run_merges_command_line_over_file_settings() {
    let mut cli = cli_with(Command::Endpoint { endpoint: Endpoint::Images, task_id: None });
    cli.base_url = Some(s("https://cli.example/"));
    let file = AppConfig {
        base_url: Some(s("https://file.example")),
        api_key: Some(s("from-file")),
        ..Default::default()
    };
    let (config, first) = run(&cli, file);
    assert_eq!(config.base_url.as_deref(), Some("https://cli.example/"));
    assert_eq!(config.api_key.as_deref(), Some("from-file"));
    assert_eq!(expect_print(first), vec![s("https://cli.example/images/generations")]);
}

#[test]
fn merging_twice_is_merging_once() {
    let cli = Cli { model: Some(s("glm-5.1")), ..cli_with(Command::List { kind: None }) };
    let once = AppConfig { model: Some(s("glm-5.2")), ..Default::default() }.merged(&cli);
    let twice = AppConfig { model: Some(s("glm-5.2")), ..Default::default() }
        .merged(&cli)
        .merged(&cli);
    assert_eq!(once.model, twice.model);
    assert_eq!(once.model.as_deref(), Some("glm-5.1"));
}

#[test]
fn config_accessors() {
    let config = AppConfig::default();
    assert_eq!(config.protocol_or(Protocol::Anthropic), Protocol::Anthropic);
    assert_eq!(config.base_url_for(Protocol::Openai), OPENAI_BASE_URL);
    assert_eq!(config.api_key().unwrap_err(), CliError::MissingApiKey);
    let config = AppConfig {
        api_key: Some(s("k")),
        base_url: Some(s("b")),
        protocol: Some(Protocol::Openai),
        ..Default::default()
    };
    assert_eq!(config.protocol_or(Protocol::Anthropic), Protocol::Openai);
    assert_eq!(config.base_url_for(Protocol::Anthropic), "b");
    assert_eq!(config.api_key().unwrap(), "k");
}

#[test]
fn missing_model_for_video_prompt_is_reported() {
    let cli = cli_with(Command::Video {
        command: VideoCommand::Create { prompt: None, model: None, body_json: None },
    });
    assert_eq!(run_with(&cli, &AppConfig::default()).unwrap_err(), CliError::MissingModel);
    let cli = cli_with(Command::Video {
        command: VideoCommand::Create { prompt: None, model: None, body_json: Some(s("-")) },
    });
    let (source, then) = expect_read(run_with(&cli, &AppConfig::default()));
    assert!(matches!(source, ValueSource::Stdin));
    assert!(matches!(then, Pending::VideoBody));
}
