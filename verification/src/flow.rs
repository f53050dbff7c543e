//! What the client does for a command: the decisions between reading inputs, printing,
//! and sending requests. The caller performs each action and hands back what it read.

use vstd::prelude::*;

use crate::catalog::{
    catalog_entries, catalog_line_spec, catalog_lines, entries_view, listed_spec,
    model_accepted, rejection_ok, CatalogEntry, EntryView, ModelKind,
};
use crate::config::{
    base_url_spec, chosen_model, chosen_resource_id, has_api_key, merged_spec, resolve_model,
    resolve_resource_id, AppConfig, Cli, Command, VideoCommand,
};
use crate::endpoint::{
    append_query_params, auth_headers, auth_headers_spec, endpoint_url, endpoint_url_spec,
    http_method, is_method_token, opt_string_view, pairs_view, protocol_for_endpoint,
    protocol_for_endpoint_spec, sends_body, sends_body_spec, with_query_spec, Endpoint, Protocol,
};
use crate::error::CliError;
use crate::json::{
    can_set_field, chat_body, chat_body_ok, default_messages, empty_object, is_str,
    is_text_message, member, set_field, set_field_spec, str_member_is, str_value,
    string_members_are, string_object_is, JsonValue,
};
use crate::text::strings_view;
use crate::tools::{claude_settings, claude_settings_ok, env_lines, env_vars_spec, export_line_spec};

verus! {

/// Where the text of a value argument comes from.
#[derive(Debug)]
pub enum ValueSource {
    /// The argument `-`: standard input.
    Stdin,
    /// An argument `@path`: the content of the file at `path`.
    File(String),
    /// Any other argument: the argument itself.
    Literal(String),
}

/// The source that an argument names: `-` is standard input, `@path` is a file, and
/// anything else is taken literally.
pub open spec fn value_source_ok(arg: Seq<char>, r: ValueSource) -> bool {
    if arg == "-"@ {
        r is Stdin
    } else if arg.len() > 0 && arg[0] == '@' {
        r matches ValueSource::File(path) && path@ == arg.drop_first()
    } else {
        r matches ValueSource::Literal(text) && text@ == arg
    }
}

/// Tells where the text of a value argument (a prompt, an input, a JSON body) comes from.
pub fn value_source(arg: &str) -> (r: ValueSource)
    ensures
        value_source_ok(arg@, r),
{
    if crate::text::str_eq(arg, "-") {
        return ValueSource::Stdin;
    }
    let n = arg.unicode_len();
    if n > 0 && arg.get_char(0) == '@' {
        let path = arg.substring_char(1, n);
        assert(path@ =~= arg@.drop_first());
        ValueSource::File(String::from_str(path))
    } else {
        ValueSource::Literal(String::from_str(arg))
    }
}

/// The name under which a protocol is written in JSON.
pub open spec fn protocol_name_spec(protocol: Protocol) -> Seq<char> {
    match protocol {
        Protocol::Anthropic => "anthropic"@,
        Protocol::Openai => "openai"@,
    }
}

fn protocol_name(protocol: Protocol) -> (r: &'static str)
    ensures
        r@ == protocol_name_spec(protocol),
{
    match protocol {
        Protocol::Anthropic => "anthropic",
        Protocol::Openai => "openai",
    }
}

/// An HTTP request ready to be sent.
#[derive(Debug)]
pub struct HttpRequest {
    pub method: String,
    pub url: String,
    /// Header (name, value) pairs, in the order to set them.
    pub headers: Vec<(String, String)>,
    /// The JSON body, for methods that carry one.
    pub body: Option<JsonValue>,
    /// The line to print on standard error before sending, in verbose mode.
    pub trace: Option<String>,
}

/// The next thing the caller must do.
#[derive(Debug)]
pub enum Action {
    /// Print these lines on standard output.
    Print(Vec<String>),
    /// Print this JSON value, pretty, on standard output.
    PrintJson(JsonValue),
    /// Print these catalog entries as a pretty JSON array on standard output.
    PrintCatalogJson(Vec<CatalogEntry>),
    /// Read the text that `source` names (parsed as JSON when `then` wants JSON) and
    /// hand it to `resume` together with `then`.
    Read { source: ValueSource, then: Pending },
    /// Send this request; its response goes to `response_outcome`.
    Send(HttpRequest),
}

/// A command that waits for the text of one of its arguments.
#[derive(Debug)]
pub enum Pending {
    /// A chat request; the messages are JSON when `from_json`, else the user turn's text.
    Chat {
        protocol: Protocol,
        model: String,
        system: Option<String>,
        max_tokens: u32,
        from_json: bool,
    },
    /// An embeddings request waiting for its input text.
    Embeddings { model: String },
    /// An image request waiting for its prompt.
    Image { model: String, size: Option<String> },
    /// A video task waiting for its whole JSON body.
    VideoBody,
    /// A video task waiting for its prompt.
    VideoPrompt { model: String },
    /// A speech request waiting for its whole JSON body.
    TtsBody { voice: Option<String> },
    /// A speech request waiting for its text.
    TtsText { resource_id: String, voice: Option<String> },
    /// A generic request waiting for its JSON body.
    RequestBody { method: String, protocol: Protocol, endpoint: Endpoint, task_id: Option<String> },
}

/// What the caller read for a pending command.
#[derive(Debug)]
pub enum Input {
    Text(String),
    Json(JsonValue),
}

/// The pending command takes JSON rather than text.
pub open spec fn wants_json_spec(p: Pending) -> bool {
    match p {
        Pending::Chat { from_json, .. } => from_json,
        Pending::VideoBody => true,
        Pending::TtsBody { .. } => true,
        Pending::RequestBody { .. } => true,
        _ => false,
    }
}

impl Pending {
    /// Whether the argument this command waits for is to be parsed as JSON.
    pub fn wants_json(&self) -> (r: bool)
        ensures
            r == wants_json_spec(*self),
    {
        match self {
            Pending::Chat { from_json, .. } => *from_json,
            Pending::VideoBody => true,
            Pending::TtsBody { .. } => true,
            Pending::RequestBody { .. } => true,
            _ => false,
        }
    }
}

/// The object that a dry run prints: method, URL, protocol and body.
pub open spec fn dryrun_ok(
    j: JsonValue,
    method: Seq<char>,
    url: Seq<char>,
    protocol: Protocol,
    body_ok: spec_fn(JsonValue) -> bool,
) -> bool {
    j matches JsonValue::Object(es) && es@.len() == 4 && str_member_is(es@[0], "method"@, method)
        && str_member_is(es@[1], "url"@, url) && str_member_is(
        es@[2],
        "protocol"@,
        protocol_name_spec(protocol),
    ) && es@[3].0@ == "body"@ && body_ok(es@[3].1)
}

/// The API key of a configuration that holds one.
pub open spec fn api_key_spec(config: AppConfig) -> Seq<char> {
    config.api_key->Some_0@
}

/// The request that goes out: method, URL, authentication headers, the body for methods
/// that carry one, and a trace line `METHOD URL` in verbose mode.
pub open spec fn request_ok(
    req: HttpRequest,
    verbose: bool,
    protocol: Protocol,
    api_key: Seq<char>,
    method: Seq<char>,
    url: Seq<char>,
    body_ok: spec_fn(JsonValue) -> bool,
) -> bool {
    &&& req.method@ == method
    &&& req.url@ == url
    &&& pairs_view(req.headers@) == auth_headers_spec(protocol, api_key)
    &&& if sends_body_spec(method) {
        req.body matches Some(b) && body_ok(b)
    } else {
        req.body is None
    }
    &&& if verbose {
        req.trace matches Some(t) && t@ == method + " "@ + url
    } else {
        req.trace is None
    }
}

/// The outcome of sending a body whose value satisfies `body_ok`: a dry run prints the
/// request; otherwise a missing API key is an error, and the request goes out with it.
pub open spec fn send_ok(
    cli: Cli,
    config: AppConfig,
    protocol: Protocol,
    method: Seq<char>,
    url: Seq<char>,
    body_ok: spec_fn(JsonValue) -> bool,
    r: Result<Action, CliError>,
) -> bool {
    if cli.dryrun {
        r matches Ok(Action::PrintJson(j)) && dryrun_ok(j, method, url, protocol, body_ok)
    } else if !has_api_key(config) {
        r == Err::<Action, CliError>(CliError::MissingApiKey)
    } else {
        r matches Ok(Action::Send(req)) && request_ok(
            req,
            cli.verbose,
            protocol,
            api_key_spec(config),
            method,
            url,
            body_ok,
        )
    }
}

/// Prints the request in a dry run, or prepares it for sending.
pub fn send_url(
    cli: &Cli,
    config: &AppConfig,
    protocol: Protocol,
    method: String,
    url: String,
    body: JsonValue,
) -> (r: Result<Action, CliError>)
    ensures
        send_ok(*cli, *config, protocol, method@, url@, |b: JsonValue| b == body, r),
{
    let ghost body_ok = |b: JsonValue| b == body;
    if cli.dryrun {
        let mut es: Vec<(String, JsonValue)> = Vec::new();
        es.push(member("method", str_value(method.as_str())));
        es.push(member("url", str_value(url.as_str())));
        es.push(member("protocol", str_value(protocol_name(protocol))));
        es.push(member("body", body));
        let j = JsonValue::Object(es);
        assert(dryrun_ok(j, method@, url@, protocol, body_ok));
        return Ok(Action::PrintJson(j));
    }
    let api_key = match config.api_key() {
        Ok(k) => k,
        Err(e) => {
            return Err(e);
        },
    };
    let trace = if cli.verbose {
        let mut t = String::from_str(method.as_str());
        t.append(" ");
        t.append(url.as_str());
        Some(t)
    } else {
        None
    };
    let headers = auth_headers(protocol, api_key);
    let body = if sends_body(method.as_str()) {
        Some(body)
    } else {
        None
    };
    let req = HttpRequest { method, url, headers, body, trace };
    assert(request_ok(req, cli.verbose, protocol, api_key_spec(*config), req.method@, req.url@, body_ok));
    Ok(Action::Send(req))
}

/// The URL of `endpoint` under the configuration's base URL for `protocol`.
pub open spec fn config_url_spec(
    config: AppConfig,
    protocol: Protocol,
    endpoint: Endpoint,
    task_id: Option<Seq<char>>,
) -> Seq<char> {
    endpoint_url_spec(base_url_spec(config, protocol), endpoint, task_id)
}

/// Sends a body to a known endpoint, as `send_url` does.
pub fn send_json(
    cli: &Cli,
    config: &AppConfig,
    protocol: Protocol,
    endpoint: Endpoint,
    task_id: Option<&str>,
    method: String,
    body: JsonValue,
) -> (r: Result<Action, CliError>)
    ensures
        send_ok(
            *cli,
            *config,
            protocol,
            method@,
            config_url_spec(*config, protocol, endpoint, crate::endpoint::opt_str_view(task_id)),
            |b: JsonValue| b == body,
            r,
        ),
{
    let url = endpoint_url(config.base_url_for(protocol), endpoint, task_id);
    send_url(cli, config, protocol, method, url, body)
}


/// `b` is the empty JSON object.
pub open spec fn is_empty_object(b: JsonValue) -> bool {
    b matches JsonValue::Object(es) && es@.len() == 0
}

/// A `(key, value)` query pair when the value is present.
pub open spec fn opt_pair(key: Seq<char>, value: Option<Seq<char>>) -> Seq<(Seq<char>, Seq<char>)> {
    match value {
        Some(v) => seq![(key, v)],
        None => Seq::empty(),
    }
}

/// The decimal text of an optional number.
pub open spec fn opt_decimal(n: Option<u32>) -> Option<Seq<char>> {
    match n {
        Some(x) => Some(crate::text::decimal(x as nat)),
        None => None,
    }
}

/// The query pairs of a video task listing, in order: page number, page size, status
/// filter, task ids joined with commas, model filter.
pub open spec fn video_query_spec(
    page_num: Option<u32>,
    page_size: Option<u32>,
    status: Option<Seq<char>>,
    task_ids: Seq<Seq<char>>,
    model: Option<Seq<char>>,
) -> Seq<(Seq<char>, Seq<char>)> {
    opt_pair("page_num"@, opt_decimal(page_num)) + opt_pair("page_size"@, opt_decimal(page_size))
        + opt_pair("filter.status"@, status) + (if task_ids.len() > 0 {
        seq![("filter.task_ids"@, crate::text::join_spec(task_ids, ","@))]
    } else {
        Seq::empty()
    }) + opt_pair("filter.model"@, model)
}

fn push_pair(q: &mut Vec<(String, String)>, key: &str, value: &str)
    ensures
        pairs_view(final(q)@) == pairs_view(old(q)@).push((key@, value@)),
{
    q.push((String::from_str(key), String::from_str(value)));
    assert(pairs_view(q@) =~= pairs_view(old(q)@).push((key@, value@)));
}

/// A model filter is given and does not name a video model.
pub open spec fn video_filter_rejected(model: Option<Seq<char>>) -> bool {
    model matches Some(m) && !model_accepted(m, ModelKind::Video)
}

/// The query of a video task listing; a model filter must name a video model.
pub fn video_list_query(
    page_num: Option<u32>,
    page_size: Option<u32>,
    status: &Option<String>,
    task_ids: &Vec<String>,
    model: &Option<String>,
) -> (r: Result<Vec<(String, String)>, CliError>)
    ensures
        video_filter_rejected(opt_string_view(*model)) ==> (r matches Err(e) && rejection_ok(
            opt_string_view(*model)->Some_0,
            ModelKind::Video,
            e,
        )),
        !video_filter_rejected(opt_string_view(*model)) ==> (r matches Ok(q) && pairs_view(q@)
            == video_query_spec(
            page_num,
            page_size,
            opt_string_view(*status),
            strings_view(task_ids@),
            opt_string_view(*model),
        )),
{
    let mut q: Vec<(String, String)> = Vec::new();
    let ghost q0 = pairs_view(q@);
    if let Some(n) = page_num {
        let text = crate::text::decimal_string(n as u64);
        push_pair(&mut q, "page_num", text.as_str());
    }
    let ghost q1 = pairs_view(q@);
    if let Some(n) = page_size {
        let text = crate::text::decimal_string(n as u64);
        push_pair(&mut q, "page_size", text.as_str());
    }
    let ghost q2 = pairs_view(q@);
    if let Some(st) = status {
        push_pair(&mut q, "filter.status", st.as_str());
    }
    let ghost q3 = pairs_view(q@);
    if task_ids.len() > 0 {
        let ids = crate::text::join(task_ids, ",");
        push_pair(&mut q, "filter.task_ids", ids.as_str());
    }
    let ghost q4 = pairs_view(q@);
    if let Some(m) = model {
        match crate::catalog::validate_model(m.as_str(), ModelKind::Video) {
            Ok(()) => {},
            Err(e) => {
                return Err(e);
            },
        }
        push_pair(&mut q, "filter.model", m.as_str());
    }
    assert(q0 =~= Seq::empty());
    assert(pairs_view(q@) =~= video_query_spec(
        page_num,
        page_size,
        opt_string_view(*status),
        strings_view(task_ids@),
        opt_string_view(*model),
    ));
    Ok(q)
}


/// The argument that names a prompt or text: the given one, or `-` for standard input.
pub open spec fn arg_or_stdin(arg: Option<String>) -> Seq<char> {
    match arg {
        Some(a) => a@,
        None => "-"@,
    }
}

/// The outcome of a command that needs a model of `kind`: a missing or refused model is an
/// error, and an accepted one goes on as `ok` says.
pub open spec fn model_outcome_ok(
    chosen: Option<Seq<char>>,
    kind: ModelKind,
    r: Result<Action, CliError>,
    ok: spec_fn(Seq<char>) -> bool,
) -> bool {
    match chosen {
        None => r == Err::<Action, CliError>(CliError::MissingModel),
        Some(name) => if model_accepted(name, kind) {
            ok(name)
        } else {
            r matches Err(e) && rejection_ok(name, kind, e)
        },
    }
}

/// What a `video` subcommand does.
///
/// `create` reads its whole JSON body, or checks the video model and reads the prompt;
/// `get` and `cancel` send a GET or DELETE for the task; `list` sends a GET with the
/// filters as query parameters.
pub open spec fn video_ok(cli: Cli, config: AppConfig, command: VideoCommand, r: Result<Action, CliError>) -> bool {
    match command {
        VideoCommand::Create { prompt, model, body_json } => match body_json {
            Some(b) => r matches Ok(Action::Read { source, then }) && value_source_ok(b@, source)
                && then is VideoBody,
            None => model_outcome_ok(
                chosen_model(opt_string_view(model), config),
                ModelKind::Video,
                r,
                |m: Seq<char>|
                    r matches Ok(Action::Read { source, then: Pending::VideoPrompt { model: pm } })
                        && pm@ == m && value_source_ok(arg_or_stdin(prompt), source),
            ),
        },
        VideoCommand::Get { task_id } => send_ok(
            cli,
            config,
            Protocol::Openai,
            "GET"@,
            config_url_spec(config, Protocol::Openai, Endpoint::VideoTasks, Some(task_id@)),
            |b: JsonValue| is_empty_object(b),
            r,
        ),
        VideoCommand::Cancel { task_id } => send_ok(
            cli,
            config,
            Protocol::Openai,
            "DELETE"@,
            config_url_spec(config, Protocol::Openai, Endpoint::VideoTasks, Some(task_id@)),
            |b: JsonValue| is_empty_object(b),
            r,
        ),
        VideoCommand::List { page_num, page_size, status, task_id, model } => if video_filter_rejected(
            opt_string_view(model),
        ) {
            r matches Err(e) && rejection_ok(opt_string_view(model)->Some_0, ModelKind::Video, e)
        } else {
            send_ok(
                cli,
                config,
                Protocol::Openai,
                "GET"@,
                with_query_spec(
                    config_url_spec(config, Protocol::Openai, Endpoint::VideoTasks, None),
                    video_query_spec(
                        page_num,
                        page_size,
                        opt_string_view(status),
                        strings_view(task_id@),
                        opt_string_view(model),
                    ),
                ),
                |b: JsonValue| is_empty_object(b),
                r,
            )
        },
    }
}

fn opt_as_str(o: &Option<String>) -> (r: Option<&str>)
    ensures
        crate::endpoint::opt_str_view(r) == opt_string_view(*o),
{
    match o {
        Some(s) => Some(s.as_str()),
        None => None,
    }
}

/// Carries out a `video` subcommand up to its next action.
pub fn handle_video(cli: &Cli, config: &AppConfig, command: &VideoCommand) -> (r: Result<Action, CliError>)
    ensures
        video_ok(*cli, *config, *command, r),
{
    match command {
        VideoCommand::Create { prompt, model, body_json } => {
            if let Some(b) = body_json {
                return Ok(Action::Read { source: value_source(b.as_str()), then: Pending::VideoBody });
            }
            let model = match resolve_model(opt_as_str(model), config, ModelKind::Video) {
                Ok(m) => m,
                Err(e) => {
                    return Err(e);
                },
            };
            let arg = match prompt {
                Some(p) => p.as_str(),
                None => "-",
            };
            Ok(Action::Read { source: value_source(arg), then: Pending::VideoPrompt { model } })
        },
        VideoCommand::Get { task_id } => {
            let r = send_json(
                cli,
                config,
                Protocol::Openai,
                Endpoint::VideoTasks,
                Some(task_id.as_str()),
                String::from_str("GET"),
                empty_object(),
            );
            r
        },
        VideoCommand::List { page_num, page_size, status, task_id, model } => {
            let url = endpoint_url(config.base_url_for(Protocol::Openai), Endpoint::VideoTasks, None);
            let query = match video_list_query(*page_num, *page_size, status, task_id, model) {
                Ok(q) => q,
                Err(e) => {
                    return Err(e);
                },
            };
            let url = append_query_params(url, query.as_slice());
            send_url(cli, config, Protocol::Openai, String::from_str("GET"), url, empty_object())
        },
        VideoCommand::Cancel { task_id } => {
            send_json(
                cli,
                config,
                Protocol::Openai,
                Endpoint::VideoTasks,
                Some(task_id.as_str()),
                String::from_str("DELETE"),
                empty_object(),
            )
        },
    }
}


/// The argument that holds a chat's messages: the JSON messages if given, otherwise the
/// message text, otherwise standard input.
pub open spec fn chat_arg(message: Option<String>, messages_json: Option<String>) -> Seq<char> {
    match messages_json {
        Some(j) => j@,
        None => arg_or_stdin(message),
    }
}

/// `r` reads `arg` and then continues as `then_ok` says of the pending command.
pub open spec fn reads_ok(r: Result<Action, CliError>, arg: Seq<char>, then_ok: spec_fn(Pending) -> bool) -> bool {
    r matches Ok(Action::Read { source, then }) && value_source_ok(arg, source) && then_ok(then)
}

/// What each command does up to its first action, under the merged configuration.
pub open spec fn run_with_ok(cli: Cli, config: AppConfig, r: Result<Action, CliError>) -> bool {
    match cli.command {
        Command::List { kind } => if cli.json {
            r matches Ok(Action::PrintCatalogJson(es)) && entries_view(es@) == listed_spec(kind)
        } else {
            r matches Ok(Action::Print(lines)) && strings_view(lines@) == listed_spec(kind).map_values(
                |e: EntryView| catalog_line_spec(e),
            )
        },
        Command::Endpoint { endpoint, task_id } => r matches Ok(Action::Print(lines))
            && lines@.len() == 1 && lines@[0]@ == config_url_spec(
            config,
            config.protocol.unwrap_or(protocol_for_endpoint_spec(endpoint)),
            endpoint,
            opt_string_view(task_id),
        ),
        Command::Env { tool, model } => model_outcome_ok(
            chosen_model(opt_string_view(model), config),
            ModelKind::Text,
            r,
            |m: Seq<char>|
                r matches Ok(Action::Print(lines)) && strings_view(lines@) == env_vars_spec(
                    tool,
                    m,
                ).map_values(|v: (Seq<char>, Seq<char>)| export_line_spec(v)),
        ),
        Command::ClaudeSettings { model } => model_outcome_ok(
            chosen_model(opt_string_view(model), config),
            ModelKind::Text,
            r,
            |m: Seq<char>| r matches Ok(Action::PrintJson(j)) && claude_settings_ok(m, j),
        ),
        Command::Chat { message, messages_json, system, model, max_tokens } => model_outcome_ok(
            chosen_model(opt_string_view(model), config),
            ModelKind::Text,
            r,
            |m: Seq<char>|
                reads_ok(
                    r,
                    chat_arg(message, messages_json),
                    |p: Pending|
                        p matches Pending::Chat {
                            protocol: pp,
                            model: pm,
                            system: ps,
                            max_tokens: pt,
                            from_json: pj,
                        } && pp == config.protocol.unwrap_or(Protocol::Openai) && pm@ == m
                            && opt_string_view(ps) == opt_string_view(system) && pt == max_tokens
                            && pj == messages_json is Some,
                ),
        ),
        Command::Embeddings { input, model } => model_outcome_ok(
            chosen_model(opt_string_view(model), config),
            ModelKind::Embedding,
            r,
            |m: Seq<char>|
                reads_ok(
                    r,
                    input@,
                    |p: Pending| p matches Pending::Embeddings { model: pm } && pm@ == m,
                ),
        ),
        Command::Image { prompt, model, size } => model_outcome_ok(
            chosen_model(opt_string_view(model), config),
            ModelKind::Image,
            r,
            |m: Seq<char>|
                reads_ok(
                    r,
                    prompt@,
                    |p: Pending|
                        p matches Pending::Image { model: pm, size: ps } && pm@ == m
                            && opt_string_view(ps) == opt_string_view(size),
                ),
        ),
        Command::Video { command } => video_ok(cli, config, command, r),
        Command::Tts { text, body_json, resource_id, voice } => {
            let id = chosen_resource_id(opt_string_view(resource_id), config);
            if !model_accepted(id, ModelKind::Speech) {
                r matches Err(e) && rejection_ok(id, ModelKind::Speech, e)
            } else {
                match body_json {
                    Some(b) => reads_ok(
                        r,
                        b@,
                        |p: Pending|
                            p matches Pending::TtsBody { voice: pv } && opt_string_view(pv)
                                == opt_string_view(voice),
                    ),
                    None => reads_ok(
                        r,
                        arg_or_stdin(text),
                        |p: Pending|
                            p matches Pending::TtsText { resource_id: pr, voice: pv } && pr@ == id
                                && opt_string_view(pv) == opt_string_view(voice),
                    ),
                }
            }
        },
        Command::Request { endpoint, method, body_json, task_id } => if !is_method_token(method@) {
            r == Err::<Action, CliError>(CliError::InvalidMethod)
        } else {
            let protocol = config.protocol.unwrap_or(protocol_for_endpoint_spec(endpoint));
            match body_json {
                Some(b) => reads_ok(
                    r,
                    b@,
                    |p: Pending|
                        p matches Pending::RequestBody {
                            method: pm,
                            protocol: pp,
                            endpoint: pe,
                            task_id: pt,
                        } && pm@ == method@ && pp == protocol && pe == endpoint && opt_string_view(
                            pt,
                        ) == opt_string_view(task_id),
                ),
                None => send_ok(
                    cli,
                    config,
                    protocol,
                    method@,
                    config_url_spec(config, protocol, endpoint, opt_string_view(task_id)),
                    |b: JsonValue| is_empty_object(b),
                    r,
                ),
            }
        },
    }
}

fn clone_opt_string(o: &Option<String>) -> (r: Option<String>)
    ensures
        opt_string_view(r) == opt_string_view(*o),
{
    match o {
        Some(s) => Some(s.clone()),
        None => None,
    }
}

/// Carries out a command up to its first action, under the configuration merged with the
/// command line.
pub fn run_with(cli: &Cli, config: &AppConfig) -> (r: Result<Action, CliError>)
    ensures
        run_with_ok(*cli, *config, r),
{
    match &cli.command {
        Command::List { kind } => {
            if cli.json {
                Ok(Action::PrintCatalogJson(catalog_entries(*kind)))
            } else {
                Ok(Action::Print(catalog_lines(*kind)))
            }
        },
        Command::Endpoint { endpoint, task_id } => {
            let protocol = config.protocol_or(protocol_for_endpoint(*endpoint));
            let url = endpoint_url(config.base_url_for(protocol), *endpoint, opt_as_str(task_id));
            let mut lines: Vec<String> = Vec::new();
            lines.push(url);
            Ok(Action::Print(lines))
        },
        Command::Env { tool, model } => {
            let model = match resolve_model(opt_as_str(model), config, ModelKind::Text) {
                Ok(m) => m,
                Err(e) => {
                    return Err(e);
                },
            };
            Ok(Action::Print(env_lines(*tool, model.as_str())))
        },
        Command::ClaudeSettings { model } => {
            let model = match resolve_model(opt_as_str(model), config, ModelKind::Text) {
                Ok(m) => m,
                Err(e) => {
                    return Err(e);
                },
            };
            Ok(Action::PrintJson(claude_settings(model.as_str())))
        },
        Command::Chat { message, messages_json, system, model, max_tokens } => {
            let protocol = config.protocol_or(Protocol::Openai);
            let model = match resolve_model(opt_as_str(model), config, ModelKind::Text) {
                Ok(m) => m,
                Err(e) => {
                    return Err(e);
                },
            };
            let arg = match messages_json {
                Some(j) => j.as_str(),
                None => match message {
                    Some(m) => m.as_str(),
                    None => "-",
                },
            };
            let then = Pending::Chat {
                protocol,
                model,
                system: clone_opt_string(system),
                max_tokens: *max_tokens,
                from_json: messages_json.is_some(),
            };
            Ok(Action::Read { source: value_source(arg), then })
        },
        Command::Embeddings { input, model } => {
            let model = match resolve_model(opt_as_str(model), config, ModelKind::Embedding) {
                Ok(m) => m,
                Err(e) => {
                    return Err(e);
                },
            };
            Ok(Action::Read { source: value_source(input.as_str()), then: Pending::Embeddings { model } })
        },
        Command::Image { prompt, model, size } => {
            let model = match resolve_model(opt_as_str(model), config, ModelKind::Image) {
                Ok(m) => m,
                Err(e) => {
                    return Err(e);
                },
            };
            Ok(
                Action::Read {
                    source: value_source(prompt.as_str()),
                    then: Pending::Image { model, size: clone_opt_string(size) },
                },
            )
        },
        Command::Video { command } => handle_video(cli, config, command),
        Command::Tts { text, body_json, resource_id, voice } => {
            let resource_id = match resolve_resource_id(opt_as_str(resource_id), config) {
                Ok(id) => id,
                Err(e) => {
                    return Err(e);
                },
            };
            match body_json {
                Some(b) => Ok(
                    Action::Read {
                        source: value_source(b.as_str()),
                        then: Pending::TtsBody { voice: clone_opt_string(voice) },
                    },
                ),
                None => {
                    let arg = match text {
                        Some(t) => t.as_str(),
                        None => "-",
                    };
                    Ok(
                        Action::Read {
                            source: value_source(arg),
                            then: Pending::TtsText { resource_id, voice: clone_opt_string(voice) },
                        },
                    )
                },
            }
        },
        Command::Request { endpoint, method, body_json, task_id } => {
            let method = match http_method(method.as_str()) {
                Ok(m) => m,
                Err(e) => {
                    return Err(e);
                },
            };
            let protocol = config.protocol_or(protocol_for_endpoint(*endpoint));
            match body_json {
                Some(b) => Ok(
                    Action::Read {
                        source: value_source(b.as_str()),
                        then: Pending::RequestBody {
                            method,
                            protocol,
                            endpoint: *endpoint,
                            task_id: clone_opt_string(task_id),
                        },
                    },
                ),
                None => send_json(
                    cli,
                    config,
                    protocol,
                    *endpoint,
                    opt_as_str(task_id),
                    method,
                    empty_object(),
                ),
            }
        },
    }
}


/// `m` is the messages that a chat sends for what was read: the JSON as given, or a single
/// user turn holding the text.
pub open spec fn messages_ok(input: Input, m: JsonValue) -> bool {
    match input {
        Input::Json(v) => m == v,
        Input::Text(t) => m matches JsonValue::Array(items) && items@.len() == 1 && is_text_message(
            items@[0],
            "user"@,
            t@,
        ),
    }
}

/// The text that was read, or nothing for JSON.
pub open spec fn input_text(input: Input) -> Seq<char> {
    match input {
        Input::Text(t) => t@,
        Input::Json(_) => Seq::empty(),
    }
}

/// The JSON value that was read, or null for text.
pub open spec fn input_json(input: Input) -> JsonValue {
    match input {
        Input::Json(v) => v,
        Input::Text(_) => JsonValue::Null,
    }
}

/// What was read fits the pending command: JSON exactly where it wants JSON, and, where a
/// voice is to be set in a JSON body, a body that is an object or null.
pub open spec fn resume_input_ok(pending: Pending, input: Input) -> bool {
    &&& wants_json_spec(pending) <==> input is Json
    &&& (pending matches Pending::TtsBody { voice: Some(_) }) ==> can_set_field(input_json(input))
}

/// The endpoint of a chat under `protocol`.
pub open spec fn chat_endpoint_spec(protocol: Protocol) -> Endpoint {
    match protocol {
        Protocol::Anthropic => Endpoint::AnthropicMessages,
        Protocol::Openai => Endpoint::OpenaiChat,
    }
}

/// What a pending command does with what was read: it builds its body and sends it.
pub open spec fn resume_ok(cli: Cli, config: AppConfig, pending: Pending, input: Input, r: Result<Action, CliError>) -> bool {
    let text = input_text(input);
    let json = input_json(input);
    match pending {
        Pending::Chat { protocol, model, system, max_tokens, from_json } => {
            if protocol == Protocol::Openai && system is Some && input is Json && !(json is Array) {
                r == Err::<Action, CliError>(CliError::MessagesNotArray)
            } else {
                send_ok(
                    cli,
                    config,
                    protocol,
                    "POST"@,
                    config_url_spec(config, protocol, chat_endpoint_spec(protocol), None),
                    |b: JsonValue|
                        exists|m: JsonValue|
                            messages_ok(input, m) && #[trigger] chat_body_ok(
                                protocol,
                                model@,
                                m,
                                opt_string_view(system),
                                max_tokens,
                                Ok(b),
                            ),
                    r,
                )
            }
        },
        Pending::Embeddings { model } => send_ok(
            cli,
            config,
            Protocol::Openai,
            "POST"@,
            config_url_spec(config, Protocol::Openai, Endpoint::Embeddings, None),
            |b: JsonValue| string_object_is(b, seq![("model"@, model@), ("input"@, text)]),
            r,
        ),
        Pending::Image { model, size } => send_ok(
            cli,
            config,
            Protocol::Openai,
            "POST"@,
            config_url_spec(config, Protocol::Openai, Endpoint::Images, None),
            |b: JsonValue|
                string_object_is(
                    b,
                    seq![("model"@, model@), ("prompt"@, text)] + opt_pair(
                        "size"@,
                        opt_string_view(size),
                    ),
                ),
            r,
        ),
        Pending::VideoBody => send_ok(
            cli,
            config,
            Protocol::Openai,
            "POST"@,
            config_url_spec(config, Protocol::Openai, Endpoint::VideoTasks, None),
            |b: JsonValue| b == json,
            r,
        ),
        Pending::VideoPrompt { model } => send_ok(
            cli,
            config,
            Protocol::Openai,
            "POST"@,
            config_url_spec(config, Protocol::Openai, Endpoint::VideoTasks, None),
            |b: JsonValue| string_object_is(b, seq![("model"@, model@), ("prompt"@, text)]),
            r,
        ),
        Pending::TtsBody { voice } => send_ok(
            cli,
            config,
            Protocol::Openai,
            "POST"@,
            config_url_spec(config, Protocol::Openai, Endpoint::TtsHttp, None),
            |b: JsonValue|
                match voice {
                    None => b == json,
                    Some(v) => exists|x: JsonValue|
                        is_str(x, v@) && #[trigger] set_field_spec(json, "voice"@, x, b),
                },
            r,
        ),
        Pending::TtsText { resource_id, voice } => send_ok(
            cli,
            config,
            Protocol::Openai,
            "POST"@,
            config_url_spec(config, Protocol::Openai, Endpoint::TtsHttp, None),
            |b: JsonValue|
                string_object_is(
                    b,
                    seq![("resource_id"@, resource_id@), ("text"@, text)] + opt_pair(
                        "voice"@,
                        opt_string_view(voice),
                    ),
                ),
            r,
        ),
        Pending::RequestBody { method, protocol, endpoint, task_id } => send_ok(
            cli,
            config,
            protocol,
            method@,
            config_url_spec(config, protocol, endpoint, opt_string_view(task_id)),
            |b: JsonValue| b == json,
            r,
        ),
    }
}

/// The object of string members `(k1, v1)`, `(k2, v2)`, then `(k3, v3)` when `v3` is given.
fn string_object(k1: &str, v1: &str, k2: &str, v2: &str, k3: &str, v3: Option<&str>) -> (r: JsonValue)
    ensures
        string_object_is(
            r,
            seq![(k1@, v1@), (k2@, v2@)] + opt_pair(k3@, crate::endpoint::opt_str_view(v3)),
        ),
{
    let mut es: Vec<(String, JsonValue)> = Vec::new();
    es.push(member(k1, str_value(v1)));
    es.push(member(k2, str_value(v2)));
    if let Some(v) = v3 {
        es.push(member(k3, str_value(v)));
    }
    let ghost vars = seq![(k1@, v1@), (k2@, v2@)] + opt_pair(k3@, crate::endpoint::opt_str_view(v3));
    assert(string_members_are(es@, vars));
    JsonValue::Object(es)
}

/// Continues a pending command with what was read for it.
pub fn resume(cli: &Cli, config: &AppConfig, pending: Pending, input: Input) -> (r: Result<Action, CliError>)
    requires
        resume_input_ok(pending, input),
    ensures
        resume_ok(*cli, *config, pending, input, r),
{
    let ghost given = input;
    let post = String::from_str("POST");
    match pending {
        Pending::Chat { protocol, model, system, max_tokens, .. } => {
            let messages = match input {
                Input::Json(v) => v,
                Input::Text(t) => default_messages(t.as_str()),
            };
            let ghost m = messages;
            let body = match chat_body(protocol, model.as_str(), messages, opt_as_str(&system), max_tokens) {
                Ok(b) => b,
                Err(e) => {
                    return Err(e);
                },
            };
            let endpoint = match protocol {
                Protocol::Anthropic => Endpoint::AnthropicMessages,
                Protocol::Openai => Endpoint::OpenaiChat,
            };
            let r = send_json(cli, config, protocol, endpoint, None, post, body);
            assert(messages_ok(given, m));
            r
        },
        Pending::Embeddings { model } => {
            let text = match input {
                Input::Text(t) => t,
                Input::Json(_) => String::new(),
            };
            let body = string_object("model", model.as_str(), "input", text.as_str(), "", None);
            send_json(cli, config, Protocol::Openai, Endpoint::Embeddings, None, post, body)
        },
        Pending::Image { model, size } => {
            let text = match input {
                Input::Text(t) => t,
                Input::Json(_) => String::new(),
            };
            let body = string_object(
                "model",
                model.as_str(),
                "prompt",
                text.as_str(),
                "size",
                opt_as_str(&size),
            );
            send_json(cli, config, Protocol::Openai, Endpoint::Images, None, post, body)
        },
        Pending::VideoBody => {
            let body = match input {
                Input::Json(v) => v,
                Input::Text(_) => JsonValue::Null,
            };
            send_json(cli, config, Protocol::Openai, Endpoint::VideoTasks, None, post, body)
        },
        Pending::VideoPrompt { model } => {
            let text = match input {
                Input::Text(t) => t,
                Input::Json(_) => String::new(),
            };
            let body = string_object("model", model.as_str(), "prompt", text.as_str(), "", None);
            send_json(cli, config, Protocol::Openai, Endpoint::VideoTasks, None, post, body)
        },
        Pending::TtsBody { voice } => {
            let body = match input {
                Input::Json(v) => v,
                Input::Text(_) => JsonValue::Null,
            };
            let body = match voice {
                Some(v) => {
                    let x = str_value(v.as_str());
                    let ghost gx = x;
                    let b = set_field(body, "voice", x);
                    assert(is_str(gx, v@) && set_field_spec(input_json(given), "voice"@, gx, b));
                    b
                },
                None => body,
            };
            send_json(cli, config, Protocol::Openai, Endpoint::TtsHttp, None, post, body)
        },
        Pending::TtsText { resource_id, voice } => {
            let text = match input {
                Input::Text(t) => t,
                Input::Json(_) => String::new(),
            };
            let body = string_object(
                "resource_id",
                resource_id.as_str(),
                "text",
                text.as_str(),
                "voice",
                opt_as_str(&voice),
            );
            send_json(cli, config, Protocol::Openai, Endpoint::TtsHttp, None, post, body)
        },
        Pending::RequestBody { method, protocol, endpoint, task_id } => {
            let body = match input {
                Input::Json(v) => v,
                Input::Text(_) => JsonValue::Null,
            };
            send_json(cli, config, protocol, endpoint, opt_as_str(&task_id), method, body)
        },
    }
}

/// The outcome of a response: its text on a status in 200..300, otherwise an error that
/// carries the status line and the text.
pub fn response_outcome(status: u16, status_line: String, text: String) -> (r: Result<String, CliError>)
    ensures
        200 <= status < 300 ==> (r matches Ok(t) && t@ == text@),
        !(200 <= status < 300) ==> (r matches Err(CliError::RequestFailed { status: s, text: t })
            && s@ == status_line@ && t@ == text@),
{
    if 200 <= status && status < 300 {
        Ok(text)
    } else {
        Err(CliError::RequestFailed { status: status_line, text })
    }
}


/// Starts a command: merges the configuration file's settings with the command line, then
/// carries the command out up to its first action. The merged configuration is handed back
/// for the `resume` calls that follow.
pub fn run(cli: &Cli, file_config: AppConfig) -> (r: (AppConfig, Result<Action, CliError>))
    ensures
        r.0 == merged_spec(file_config, *cli),
        run_with_ok(*cli, r.0, r.1),
{
    let config = file_config.merged(cli);
    let first = run_with(cli, &config);
    (config, first)
}


/// A dry run never asks for an API key: it prints the request instead of sending it.
pub proof fn lemma_send_dryrun_needs_no_key(
    cli: Cli,
    config: AppConfig,
    protocol: Protocol,
    method: Seq<char>,
    url: Seq<char>,
    body_ok: spec_fn(JsonValue) -> bool,
    r: Result<Action, CliError>,
)
    requires
        cli.dryrun,
        send_ok(cli, config, protocol, method, url, body_ok, r),
    ensures
        r matches Ok(Action::PrintJson(_)),
{
}

/// No command of a dry run fails for want of an API key, whether at its start or when it
/// goes on with what it read.
pub proof fn lemma_dryrun_needs_no_key(
    cli: Cli,
    config: AppConfig,
    first: Result<Action, CliError>,
    pending: Pending,
    input: Input,
    next: Result<Action, CliError>,
)
    requires
        cli.dryrun,
        run_with_ok(cli, config, first),
        resume_ok(cli, config, pending, input, next),
    ensures
        first != Err::<Action, CliError>(CliError::MissingApiKey),
        next != Err::<Action, CliError>(CliError::MissingApiKey),
{
}

} // verus!
