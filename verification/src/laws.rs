//! What the commands promise, stated over their inputs and the actions they produce.
//!
//! Each statement below is written out in terms of member names, URLs and values, so that
//! it says what a command must do independently of how its contract is phrased.

use vstd::prelude::*;

use crate::catalog::{
    catalog_spec, in_catalog, lemma_catalog_has_no_auto_name, model_accepted, ModelKind,
};
use crate::config::{has_api_key, AppConfig, Cli, Command, Tool, VideoCommand};
use crate::endpoint::{
    is_method_token, Endpoint, Protocol, ANTHROPIC_BASE_URL, OPENAI_BASE_URL,
    TTS_BIDIRECTIONAL_WS_URL, TTS_HTTP_URL, TTS_UNIDIRECTIONAL_WS_URL,
};
use crate::error::CliError;
use crate::flow::{resume_ok, run_with_ok, Action, Input, Pending, ValueSource};
use crate::json::JsonValue;
use crate::text::trim_end_char;
use crate::tools::{claude_settings_ok, env_vars_spec, export_line_spec};

verus! {

/// `r` puts a request on its way: printed as a four-member object by a dry run, or sent.
pub open spec fn goes_out(r: Result<Action, CliError>) -> bool {
    match r {
        Ok(Action::PrintJson(JsonValue::Object(es))) => es@.len() == 4,
        Ok(Action::Send(_)) => true,
        _ => false,
    }
}

/// The method of the request that `r` puts on its way.
pub open spec fn out_method(r: Result<Action, CliError>) -> Seq<char> {
    match r {
        Ok(Action::PrintJson(JsonValue::Object(es))) => es@[0].1->Str_0@,
        Ok(Action::Send(req)) => req.method@,
        _ => Seq::empty(),
    }
}

/// The URL of the request that `r` puts on its way.
pub open spec fn out_url(r: Result<Action, CliError>) -> Seq<char> {
    match r {
        Ok(Action::PrintJson(JsonValue::Object(es))) => es@[1].1->Str_0@,
        Ok(Action::Send(req)) => req.url@,
        _ => Seq::empty(),
    }
}

/// The body of the request that `r` puts on its way.
pub open spec fn out_body(r: Result<Action, CliError>) -> Option<JsonValue> {
    match r {
        Ok(Action::PrintJson(JsonValue::Object(es))) => Some(es@[3].1),
        Ok(Action::Send(req)) => req.body,
        _ => None,
    }
}

/// `v` is the JSON string `s`.
pub open spec fn text_json(v: JsonValue, s: Seq<char>) -> bool {
    v matches JsonValue::Str(x) && x@ == s
}

/// The member `e` is named `k`.
pub open spec fn named(e: (String, JsonValue), k: Seq<char>) -> bool {
    e.0@ == k
}

/// The member `e` is named `k` and holds the string `s`.
pub open spec fn text_member(e: (String, JsonValue), k: Seq<char>, s: Seq<char>) -> bool {
    named(e, k) && text_json(e.1, s)
}

/// `v` is the chat turn `{"role": role, "content": content}`.
pub open spec fn turn(v: JsonValue, role: Seq<char>, content: Seq<char>) -> bool {
    v matches JsonValue::Object(es) && es@.len() == 2 && text_member(es@[0], "role"@, role)
        && text_member(es@[1], "content"@, content)
}

/// The base URL of `protocol` under `config`: the configured one, or the plan API's.
pub open spec fn base_of(config: AppConfig, protocol: Protocol) -> Seq<char> {
    match config.base_url {
        Some(u) => u@,
        None => match protocol {
            Protocol::Anthropic => ANTHROPIC_BASE_URL@,
            Protocol::Openai => OPENAI_BASE_URL@,
        },
    }
}

/// The path of the chat endpoint of `protocol`.
pub open spec fn chat_path(protocol: Protocol) -> Seq<char> {
    match protocol {
        Protocol::Anthropic => "/v1/messages"@,
        Protocol::Openai => "/chat/completions"@,
    }
}

/// The first three members of a chat body: the model, the token limit, and the messages.
pub open spec fn chat_head(es: Seq<(String, JsonValue)>, model: Seq<char>, max_tokens: u32) -> bool {
    &&& es.len() >= 3
    &&& text_member(es[0], "model"@, model)
    &&& named(es[1], "max_tokens"@) && es[1].1 == JsonValue::UInt(max_tokens as u64)
    &&& named(es[2], "messages"@)
}

/// `v` is the messages `[{"role": "user", "content": t}]`.
pub open spec fn user_only(v: JsonValue, t: Seq<char>) -> bool {
    v matches JsonValue::Array(turns) && turns@.len() == 1 && turn(turns@[0], "user"@, t)
}

/// `v` is the messages `[{"role": "system", "content": s}, {"role": "user", "content": t}]`.
pub open spec fn system_then_user(v: JsonValue, s: Seq<char>, t: Seq<char>) -> bool {
    v matches JsonValue::Array(turns) && turns@.len() == 2 && turn(turns@[0], "system"@, s)
        && turn(turns@[1], "user"@, t)
}

/// The body of a chat whose message text is `t`.
pub open spec fn chat_text_body(
    b: JsonValue,
    protocol: Protocol,
    model: Seq<char>,
    system: Option<Seq<char>>,
    max_tokens: u32,
    t: Seq<char>,
) -> bool {
    b matches JsonValue::Object(es) && chat_head(es@, model, max_tokens) && match system {
        None => es@.len() == 3 && user_only(es@[2].1, t),
        Some(s) => match protocol {
            Protocol::Anthropic => es@.len() == 4 && text_member(es@[3], "system"@, s) && user_only(
                es@[2].1,
                t,
            ),
            Protocol::Openai => es@.len() == 3 && system_then_user(es@[2].1, s, t),
        },
    }
}

proof fn methods_differ()
    ensures
        "POST"@ != "GET"@,
        "POST"@ != "DELETE"@,
{
    reveal_strlit("POST");
    reveal_strlit("GET");
    reveal_strlit("DELETE");
    assert("POST"@.len() != "GET"@.len());
    assert("POST"@.len() != "DELETE"@.len());
}

/// A chat whose message was read as text sends, to the chat endpoint of its protocol, the
/// model, the token limit and the messages `[{"role": "user", "content": t}]`. The system
/// prompt goes into a fourth member `system` under the Anthropic protocol, and in front of
/// the messages as a system turn under the OpenAI protocol; without one, neither appears.
pub proof fn law_chat_from_text(
    cli: Cli,
    config: AppConfig,
    protocol: Protocol,
    model: String,
    system: Option<String>,
    max_tokens: u32,
    from_json: bool,
    t: String,
    r: Result<Action, CliError>,
)
    requires
        resume_ok(
            cli,
            config,
            Pending::Chat { protocol, model, system, max_tokens, from_json },
            Input::Text(t),
            r,
        ),
        cli.dryrun || has_api_key(config),
    ensures
        goes_out(r),
        out_method(r) == "POST"@,
        out_url(r) == trim_end_char(base_of(config, protocol), '/') + chat_path(protocol),
        out_body(r) matches Some(b) && chat_text_body(
            b,
            protocol,
            model@,
            crate::endpoint::opt_string_view(system),
            max_tokens,
            t@,
        ),
{
    methods_differ();
    let b = out_body(r)->Some_0;
    let m = choose|m: JsonValue|
        crate::flow::messages_ok(Input::Text(t), m) && #[trigger] crate::json::chat_body_ok(
            protocol,
            model@,
            m,
            crate::endpoint::opt_string_view(system),
            max_tokens,
            Ok(b),
        );
    if protocol == Protocol::Openai && system is Some {
        let turns = b->Object_0@[2].1->Array_0@;
        assert(turns.drop_first()[0] == turns[1]);
    }
}


/// A chat whose messages were read as JSON `v` is refused with `MessagesNotArray` exactly
/// when a system prompt is to be put in front of messages that are not an array (OpenAI
/// protocol). Otherwise it sends the model, the token limit and the messages: `v` itself,
/// or, under OpenAI with a system prompt `s`, the elements of `v` after a system turn `s`;
/// under Anthropic a system prompt `s` is the fourth member `system`.
pub proof fn law_chat_from_json(
    cli: Cli,
    config: AppConfig,
    protocol: Protocol,
    model: String,
    system: Option<String>,
    max_tokens: u32,
    from_json: bool,
    v: JsonValue,
    r: Result<Action, CliError>,
)
    requires
        resume_ok(
            cli,
            config,
            Pending::Chat { protocol, model, system, max_tokens, from_json },
            Input::Json(v),
            r,
        ),
        cli.dryrun || has_api_key(config),
    ensures
        (protocol == Protocol::Openai && system is Some && !(v is Array)) ==> r
            == Err::<Action, CliError>(CliError::MessagesNotArray),
        !(protocol == Protocol::Openai && system is Some && !(v is Array)) ==> {
            &&& goes_out(r)
            &&& out_method(r) == "POST"@
            &&& out_url(r) == trim_end_char(base_of(config, protocol), '/') + chat_path(protocol)
            &&& out_body(r) matches Some(b) && chat_json_body(
                b,
                protocol,
                model@,
                crate::endpoint::opt_string_view(system),
                max_tokens,
                v,
            )
        },
{
    methods_differ();
    if !(protocol == Protocol::Openai && system is Some && !(v is Array)) {
        let b = out_body(r)->Some_0;
        let m = choose|m: JsonValue|
            crate::flow::messages_ok(Input::Json(v), m) && #[trigger] crate::json::chat_body_ok(
                protocol,
                model@,
                m,
                crate::endpoint::opt_string_view(system),
                max_tokens,
                Ok(b),
            );
    }
}

/// The body of a chat whose messages were read as the JSON value `v`.
pub open spec fn chat_json_body(
    b: JsonValue,
    protocol: Protocol,
    model: Seq<char>,
    system: Option<Seq<char>>,
    max_tokens: u32,
    v: JsonValue,
) -> bool {
    b matches JsonValue::Object(es) && chat_head(es@, model, max_tokens) && match system {
        None => es@.len() == 3 && es@[2].1 == v,
        Some(s) => match protocol {
            Protocol::Anthropic => es@.len() == 4 && text_member(es@[3], "system"@, s) && es@[2].1
                == v,
            Protocol::Openai => es@.len() == 3 && system_in_front(es@[2].1, s, v),
        },
    }
}

/// `w` is the array `v` with the turn `{"role": "system", "content": s}` in front.
pub open spec fn system_in_front(w: JsonValue, s: Seq<char>, v: JsonValue) -> bool {
    w matches JsonValue::Array(turns) && v matches JsonValue::Array(items) && turns@.len()
        == items@.len() + 1 && turn(turns@[0], "system"@, s) && forall|i: int|
        0 <= i < items@.len() ==> turns@[i + 1] == #[trigger] items@[i]
}

/// The plan API's OpenAI-protocol URL of a path under `config`.
pub open spec fn openai_url(config: AppConfig, path: Seq<char>) -> Seq<char> {
    trim_end_char(base_of(config, Protocol::Openai), '/') + path
}

/// `b` is an object of exactly the given string members, in order.
pub open spec fn text_object(b: JsonValue, members: Seq<(Seq<char>, Seq<char>)>) -> bool {
    b matches JsonValue::Object(es) && es@.len() == members.len() && forall|i: int|
        0 <= i < members.len() ==> text_member(#[trigger] es@[i], members[i].0, members[i].1)
}

/// An embeddings request sends `{"model": m, "input": t}` to the embeddings endpoint,
/// where `t` is the text read for the input.
pub proof fn law_embeddings_body(
    cli: Cli,
    config: AppConfig,
    model: String,
    t: String,
    r: Result<Action, CliError>,
)
    requires
        resume_ok(cli, config, Pending::Embeddings { model }, Input::Text(t), r),
        cli.dryrun || has_api_key(config),
    ensures
        goes_out(r),
        out_method(r) == "POST"@,
        out_url(r) == openai_url(config, "/embeddings"@),
        out_body(r) matches Some(b) && text_object(b, seq![("model"@, model@), ("input"@, t@)]),
{
    methods_differ();
}

/// An image request sends `{"model": m, "prompt": t}` to the image endpoint, with a
/// third member `size` exactly when a size is given.
pub proof fn law_image_body(
    cli: Cli,
    config: AppConfig,
    model: String,
    size: Option<String>,
    t: String,
    r: Result<Action, CliError>,
)
    requires
        resume_ok(cli, config, Pending::Image { model, size }, Input::Text(t), r),
        cli.dryrun || has_api_key(config),
    ensures
        goes_out(r),
        out_method(r) == "POST"@,
        out_url(r) == openai_url(config, "/images/generations"@),
        out_body(r) matches Some(b) && text_object(
            b,
            match size {
                None => seq![("model"@, model@), ("prompt"@, t@)],
                Some(z) => seq![("model"@, model@), ("prompt"@, t@), ("size"@, z@)],
            },
        ),
{
    methods_differ();
    let b = out_body(r)->Some_0;
    if let Some(z) = size {
        assert(seq![("model"@, model@), ("prompt"@, t@)] + seq![("size"@, z@)] =~= seq![
            ("model"@, model@),
            ("prompt"@, t@),
            ("size"@, z@),
        ]);
    } else {
        assert(seq![("model"@, model@), ("prompt"@, t@)] + Seq::empty() =~= seq![
            ("model"@, model@),
            ("prompt"@, t@),
        ]);
    }
}

/// A video task created from a prompt sends exactly `{"model": m, "prompt": t}` to the
/// video task endpoint, where `m` is the resolved video model and `t` the prompt read.
pub proof fn law_video_prompt_body(
    cli: Cli,
    config: AppConfig,
    model: String,
    t: String,
    r: Result<Action, CliError>,
)
    requires
        resume_ok(cli, config, Pending::VideoPrompt { model }, Input::Text(t), r),
        cli.dryrun || has_api_key(config),
    ensures
        goes_out(r),
        out_method(r) == "POST"@,
        out_url(r) == openai_url(config, "/contents/generations/tasks"@),
        out_body(r) matches Some(b) && text_object(b, seq![("model"@, model@), ("prompt"@, t@)]),
{
    methods_differ();
}

/// A video task created from a JSON body sends that body unchanged to the video task
/// endpoint.
pub proof fn law_video_json_body(cli: Cli, config: AppConfig, v: JsonValue, r: Result<Action, CliError>)
    requires
        resume_ok(cli, config, Pending::VideoBody, Input::Json(v), r),
        cli.dryrun || has_api_key(config),
    ensures
        goes_out(r),
        out_method(r) == "POST"@,
        out_url(r) == openai_url(config, "/contents/generations/tasks"@),
        out_body(r) == Some(v),
{
    methods_differ();
}

/// A speech request built from text sends `{"resource_id": id, "text": t}` to the fixed
/// HTTP speech URL, with a third member `voice` equal to `v` exactly when a voice `v` is
/// given.
pub proof fn law_tts_text_body(
    cli: Cli,
    config: AppConfig,
    resource_id: String,
    voice: Option<String>,
    t: String,
    r: Result<Action, CliError>,
)
    requires
        resume_ok(cli, config, Pending::TtsText { resource_id, voice }, Input::Text(t), r),
        cli.dryrun || has_api_key(config),
    ensures
        goes_out(r),
        out_method(r) == "POST"@,
        out_url(r) == TTS_HTTP_URL@,
        out_body(r) matches Some(b) && text_object(
            b,
            match voice {
                None => seq![("resource_id"@, resource_id@), ("text"@, t@)],
                Some(v) => seq![("resource_id"@, resource_id@), ("text"@, t@), ("voice"@, v@)],
            },
        ),
{
    methods_differ();
    if let Some(v) = voice {
        assert(seq![("resource_id"@, resource_id@), ("text"@, t@)] + seq![("voice"@, v@)] =~= seq![
            ("resource_id"@, resource_id@),
            ("text"@, t@),
            ("voice"@, v@),
        ]);
    } else {
        assert(seq![("resource_id"@, resource_id@), ("text"@, t@)] + Seq::empty() =~= seq![
            ("resource_id"@, resource_id@),
            ("text"@, t@),
        ]);
    }
}

/// `x` is the value of the first member of `b` named `k`.
pub open spec fn first_value(b: JsonValue, k: Seq<char>, x: JsonValue) -> bool {
    b matches JsonValue::Object(es) && exists|i: int|
        0 <= i < es@.len() && named(#[trigger] es@[i], k) && es@[i].1 == x && forall|j: int|
            0 <= j < i ==> !named(#[trigger] es@[j], k)
}

/// A speech request with a JSON body sends that body to the fixed HTTP speech URL; with a
/// voice `v`, the body's `voice` member is `v` (replacing one the body had), and without
/// one the body goes unchanged.
pub proof fn law_tts_json_body(
    cli: Cli,
    config: AppConfig,
    voice: Option<String>,
    body: JsonValue,
    r: Result<Action, CliError>,
)
    requires
        resume_ok(cli, config, Pending::TtsBody { voice }, Input::Json(body), r),
        cli.dryrun || has_api_key(config),
    ensures
        goes_out(r),
        out_method(r) == "POST"@,
        out_url(r) == TTS_HTTP_URL@,
        voice is None ==> out_body(r) == Some(body),
        voice matches Some(v) ==> (out_body(r) matches Some(b) && exists|x: JsonValue|
            text_json(x, v@) && #[trigger] first_value(b, "voice"@, x)),
{
    methods_differ();
    if let Some(v) = voice {
        let b = out_body(r)->Some_0;
        let x = choose|x: JsonValue|
            crate::json::is_str(x, v@) && #[trigger] crate::json::set_field_spec(
                body,
                "voice"@,
                x,
                b,
            );
        let rs = b->Object_0@;
        match body {
            JsonValue::Object(es) => {
                if exists|i: int|
                    0 <= i < es@.len() && (#[trigger] es@[i]).0@ == "voice"@ && (forall|j: int|
                        0 <= j < i ==> (#[trigger] es@[j]).0@ != "voice"@) && rs == es@.update(
                        i,
                        (es@[i].0, x),
                    ) {
                    let i = choose|i: int|
                        0 <= i < es@.len() && (#[trigger] es@[i]).0@ == "voice"@ && (forall|j: int|
                            0 <= j < i ==> (#[trigger] es@[j]).0@ != "voice"@) && rs == es@.update(
                            i,
                            (es@[i].0, x),
                        );
                    assert(named(rs[i], "voice"@) && rs[i].1 == x);
                    assert forall|j: int| 0 <= j < i implies !named(#[trigger] rs[j], "voice"@) by {
                        assert(rs[j] == es@[j]);
                    }
                    assert(first_value(b, "voice"@, x));
                } else {
                    let n = es@.len() as int;
                    assert forall|j: int| 0 <= j < n implies !named(#[trigger] rs[j], "voice"@) by {
                        assert(rs.take(n)[j] == rs[j]);
                    }
                    assert(named(rs[n], "voice"@) && rs[n].1 == x);
                    assert(first_value(b, "voice"@, x));
                }
            },
            _ => {
                assert(named(rs[0], "voice"@) && rs[0].1 == x);
                assert(first_value(b, "voice"@, x));
            },
        }
    }
}


/// The models and resource ids that are accepted, each for its one kind: thirteen text
/// models, one embedding model, one image model, four video models and two speech
/// resource ids.
pub open spec fn documented_model(name: Seq<char>, kind: ModelKind) -> bool {
    ||| name == "doubao-seed-2.0-code"@ && kind == ModelKind::Text
    ||| name == "doubao-seed-2.0-pro"@ && kind == ModelKind::Text
    ||| name == "doubao-seed-2.0-lite"@ && kind == ModelKind::Text
    ||| name == "doubao-seed-2.0-mini"@ && kind == ModelKind::Text
    ||| name == "glm-5.2"@ && kind == ModelKind::Text
    ||| name == "kimi-k2.7-code"@ && kind == ModelKind::Text
    ||| name == "deepseek-v4-pro"@ && kind == ModelKind::Text
    ||| name == "deepseek-v4-flash"@ && kind == ModelKind::Text
    ||| name == "minimax-m3"@ && kind == ModelKind::Text
    ||| name == "minimax-m2.7"@ && kind == ModelKind::Text
    ||| name == "glm-5.1"@ && kind == ModelKind::Text
    ||| name == "kimi-k2.6"@ && kind == ModelKind::Text
    ||| name == "deepseek-v3.2"@ && kind == ModelKind::Text
    ||| name == "doubao-embedding-vision"@ && kind == ModelKind::Embedding
    ||| name == "doubao-seedream-5.0-lite"@ && kind == ModelKind::Image
    ||| name == "doubao-seedance-2.0"@ && kind == ModelKind::Video
    ||| name == "doubao-seedance-2.0-fast"@ && kind == ModelKind::Video
    ||| name == "doubao-seedance-2.0-mini"@ && kind == ModelKind::Video
    ||| name == "doubao-seedance-1.5-pro"@ && kind == ModelKind::Video
    ||| name == "seed-tts-2.0"@ && kind == ModelKind::Speech
    ||| name == "volc.seedasr.sauc.duration"@ && kind == ModelKind::Speech
}

/// A name is accepted for a kind exactly when it is one of the documented models of that
/// kind.
pub proof fn law_accepted_models(name: Seq<char>, kind: ModelKind)
    ensures
        model_accepted(name, kind) <==> documented_model(name, kind),
{
    lemma_catalog_has_no_auto_name();
    assert(catalog_spec()[0].0 == "doubao-seed-2.0-code"@ && catalog_spec()[0].1 == ModelKind::Text);
    assert(catalog_spec()[1].0 == "doubao-seed-2.0-pro"@ && catalog_spec()[1].1 == ModelKind::Text);
    assert(catalog_spec()[2].0 == "doubao-seed-2.0-lite"@ && catalog_spec()[2].1 == ModelKind::Text);
    assert(catalog_spec()[3].0 == "doubao-seed-2.0-mini"@ && catalog_spec()[3].1 == ModelKind::Text);
    assert(catalog_spec()[4].0 == "glm-5.2"@ && catalog_spec()[4].1 == ModelKind::Text);
    assert(catalog_spec()[5].0 == "kimi-k2.7-code"@ && catalog_spec()[5].1 == ModelKind::Text);
    assert(catalog_spec()[6].0 == "deepseek-v4-pro"@ && catalog_spec()[6].1 == ModelKind::Text);
    assert(catalog_spec()[7].0 == "deepseek-v4-flash"@ && catalog_spec()[7].1 == ModelKind::Text);
    assert(catalog_spec()[8].0 == "minimax-m3"@ && catalog_spec()[8].1 == ModelKind::Text);
    assert(catalog_spec()[9].0 == "minimax-m2.7"@ && catalog_spec()[9].1 == ModelKind::Text);
    assert(catalog_spec()[10].0 == "glm-5.1"@ && catalog_spec()[10].1 == ModelKind::Text);
    assert(catalog_spec()[11].0 == "kimi-k2.6"@ && catalog_spec()[11].1 == ModelKind::Text);
    assert(catalog_spec()[12].0 == "deepseek-v3.2"@ && catalog_spec()[12].1 == ModelKind::Text);
    assert(catalog_spec()[13].0 == "doubao-embedding-vision"@ && catalog_spec()[13].1 == ModelKind::Embedding);
    assert(catalog_spec()[14].0 == "doubao-seedream-5.0-lite"@ && catalog_spec()[14].1 == ModelKind::Image);
    assert(catalog_spec()[15].0 == "doubao-seedance-2.0"@ && catalog_spec()[15].1 == ModelKind::Video);
    assert(catalog_spec()[16].0 == "doubao-seedance-2.0-fast"@ && catalog_spec()[16].1 == ModelKind::Video);
    assert(catalog_spec()[17].0 == "doubao-seedance-2.0-mini"@ && catalog_spec()[17].1 == ModelKind::Video);
    assert(catalog_spec()[18].0 == "doubao-seedance-1.5-pro"@ && catalog_spec()[18].1 == ModelKind::Video);
    assert(catalog_spec()[19].0 == "seed-tts-2.0"@ && catalog_spec()[19].1 == ModelKind::Speech);
    assert(catalog_spec()[20].0 == "volc.seedasr.sauc.duration"@ && catalog_spec()[20].1 == ModelKind::Speech);
    if documented_model(name, kind) {
        assert(in_catalog(name, kind));
        assert(!crate::catalog::is_auto(name));
    }
    if in_catalog(name, kind) {
        let i = choose|i: int|
            0 <= i < catalog_spec().len() && #[trigger] catalog_spec()[i].0 == name
                && catalog_spec()[i].1 == kind;
        if i == 0 {
            assert(catalog_spec()[0].0 == "doubao-seed-2.0-code"@);
        } else if i == 1 {
            assert(catalog_spec()[1].0 == "doubao-seed-2.0-pro"@);
        } else if i == 2 {
            assert(catalog_spec()[2].0 == "doubao-seed-2.0-lite"@);
        } else if i == 3 {
            assert(catalog_spec()[3].0 == "doubao-seed-2.0-mini"@);
        } else if i == 4 {
            assert(catalog_spec()[4].0 == "glm-5.2"@);
        } else if i == 5 {
            assert(catalog_spec()[5].0 == "kimi-k2.7-code"@);
        } else if i == 6 {
            assert(catalog_spec()[6].0 == "deepseek-v4-pro"@);
        } else if i == 7 {
            assert(catalog_spec()[7].0 == "deepseek-v4-flash"@);
        } else if i == 8 {
            assert(catalog_spec()[8].0 == "minimax-m3"@);
        } else if i == 9 {
            assert(catalog_spec()[9].0 == "minimax-m2.7"@);
        } else if i == 10 {
            assert(catalog_spec()[10].0 == "glm-5.1"@);
        } else if i == 11 {
            assert(catalog_spec()[11].0 == "kimi-k2.6"@);
        } else if i == 12 {
            assert(catalog_spec()[12].0 == "deepseek-v3.2"@);
        } else if i == 13 {
            assert(catalog_spec()[13].0 == "doubao-embedding-vision"@);
        } else if i == 14 {
            assert(catalog_spec()[14].0 == "doubao-seedream-5.0-lite"@);
        } else if i == 15 {
            assert(catalog_spec()[15].0 == "doubao-seedance-2.0"@);
        } else if i == 16 {
            assert(catalog_spec()[16].0 == "doubao-seedance-2.0-fast"@);
        } else if i == 17 {
            assert(catalog_spec()[17].0 == "doubao-seedance-2.0-mini"@);
        } else if i == 18 {
            assert(catalog_spec()[18].0 == "doubao-seedance-1.5-pro"@);
        } else if i == 19 {
            assert(catalog_spec()[19].0 == "seed-tts-2.0"@);
        } else if i == 20 {
            assert(catalog_spec()[20].0 == "volc.seedasr.sauc.duration"@);
        }
    }
}


/// The URL that the `endpoint` command prints for `endpoint` when neither a base URL nor a
/// protocol is configured: only the Anthropic messages endpoint is under the Anthropic
/// base URL; every other path endpoint is under the OpenAI base URL; the speech endpoints
/// have fixed URLs.
pub open spec fn default_endpoint_url(endpoint: Endpoint) -> Seq<char> {
    match endpoint {
        Endpoint::AnthropicMessages => ANTHROPIC_BASE_URL@ + "/v1/messages"@,
        Endpoint::OpenaiChat => OPENAI_BASE_URL@ + "/chat/completions"@,
        Endpoint::Embeddings => OPENAI_BASE_URL@ + "/embeddings"@,
        Endpoint::Images => OPENAI_BASE_URL@ + "/images/generations"@,
        Endpoint::VideoTasks => OPENAI_BASE_URL@ + "/contents/generations/tasks"@,
        Endpoint::TtsHttp => TTS_HTTP_URL@,
        Endpoint::TtsBidirectionalWs => TTS_BIDIRECTIONAL_WS_URL@,
        Endpoint::TtsUnidirectionalWs => TTS_UNIDIRECTIONAL_WS_URL@,
    }
}

proof fn base_urls_have_no_trailing_slash()
    ensures
        trim_end_char(ANTHROPIC_BASE_URL@, '/') == ANTHROPIC_BASE_URL@,
        trim_end_char(OPENAI_BASE_URL@, '/') == OPENAI_BASE_URL@,
{
    reveal_strlit("https://ark.cn-beijing.volces.com/api/plan");
    reveal_strlit("https://ark.cn-beijing.volces.com/api/plan/v3");
    assert(ANTHROPIC_BASE_URL@.last() != '/');
    assert(OPENAI_BASE_URL@.last() != '/');
}

/// With no base URL or protocol configured, `endpoint` prints the documented default URL of
/// the endpoint.
pub proof fn law_endpoint_command_defaults(
    cli: Cli,
    config: AppConfig,
    endpoint: Endpoint,
    r: Result<Action, CliError>,
)
    requires
        run_with_ok(cli, config, r),
        cli.command == (Command::Endpoint { endpoint, task_id: None }),
        config.base_url is None,
        config.protocol is None,
    ensures
        r matches Ok(Action::Print(lines)) && lines@.len() == 1 && lines@[0]@
            == default_endpoint_url(endpoint),
{
    base_urls_have_no_trailing_slash();
}

/// With no protocol configured, a generic request to the Anthropic messages endpoint is
/// made under the Anthropic protocol (API key, bearer token and API version headers), and a
/// request to any other endpoint under the OpenAI protocol (a bearer token only). With no
/// base URL configured, it goes to the endpoint's documented default URL.
pub proof fn law_request_protocol_defaults(
    cli: Cli,
    config: AppConfig,
    endpoint: Endpoint,
    method: String,
    r: Result<Action, CliError>,
)
    requires
        run_with_ok(cli, config, r),
        cli.command == (Command::Request { endpoint, method, body_json: None, task_id: None }),
        is_method_token(method@),
        config.protocol is None,
        config.base_url is None,
        cli.dryrun || has_api_key(config),
    ensures
        goes_out(r),
        out_method(r) == method@,
        out_url(r) == default_endpoint_url(endpoint),
        cli.dryrun ==> (r matches Ok(Action::PrintJson(JsonValue::Object(es))) && text_member(
            es@[2],
            "protocol"@,
            if endpoint == Endpoint::AnthropicMessages {
                "anthropic"@
            } else {
                "openai"@
            },
        )),
        !cli.dryrun ==> (r matches Ok(Action::Send(req)) && if endpoint
            == Endpoint::AnthropicMessages {
            req.headers@.len() == 3 && text_pair(req.headers@[0], "x-api-key"@, key_of(config))
                && text_pair(req.headers@[1], "Authorization"@, "Bearer "@ + key_of(config))
                && text_pair(req.headers@[2], "anthropic-version"@, "2023-06-01"@)
        } else {
            req.headers@.len() == 1 && text_pair(
                req.headers@[0],
                "Authorization"@,
                "Bearer "@ + key_of(config),
            )
        }),
{
    base_urls_have_no_trailing_slash();
    let protocol = if endpoint == Endpoint::AnthropicMessages {
        Protocol::Anthropic
    } else {
        Protocol::Openai
    };
    assert(config.protocol.unwrap_or(crate::endpoint::protocol_for_endpoint_spec(endpoint)) == protocol);
    if !cli.dryrun {
        let req = r->Ok_0->Send_0;
        let pv = crate::endpoint::pairs_view(req.headers@);
        assert(pv == crate::endpoint::auth_headers_spec(protocol, key_of(config)));
        assert(pv.len() == req.headers@.len());
        assert(pv[0] == (req.headers@[0].0@, req.headers@[0].1@));
        if endpoint == Endpoint::AnthropicMessages {
            assert(pv[1] == (req.headers@[1].0@, req.headers@[1].1@));
            assert(pv[2] == (req.headers@[2].0@, req.headers@[2].1@));
        }
    }
}

/// A header pair holding `name` and `value`.
pub open spec fn text_pair(p: (String, String), name: Seq<char>, value: Seq<char>) -> bool {
    p.0@ == name && p.1@ == value
}

/// The configured API key.
pub open spec fn key_of(config: AppConfig) -> Seq<char> {
    config.api_key->Some_0@
}


/// The characters of an optional string.
pub open spec fn opt_chars(o: Option<String>) -> Option<Seq<char>> {
    match o {
        Some(x) => Some(x@),
        None => None,
    }
}

/// `source` is where the argument `arg` says its text comes from: `-` is standard input,
/// `@path` is the file at `path`, and anything else is the argument itself.
pub open spec fn names_source(source: ValueSource, arg: Seq<char>) -> bool {
    if arg == "-"@ {
        source is Stdin
    } else if arg.len() > 0 && arg[0] == '@' {
        source matches ValueSource::File(p) && p@ == arg.subrange(1, arg.len() as int)
    } else {
        source matches ValueSource::Literal(l) && l@ == arg
    }
}

/// The model a command uses: its own `--model`, else the configured one.
pub open spec fn model_choice(own: Option<String>, config: AppConfig) -> Option<Seq<char>> {
    match own {
        Some(m) => Some(m@),
        None => opt_chars(config.model),
    }
}

/// A chat with an accepted model reads its messages (the JSON messages argument, else the
/// message argument, else standard input) and waits with the configured protocol (OpenAI
/// by default), its model, its own system prompt and token limit, and whether the
/// messages are JSON.
pub proof fn law_chat_reads(
    cli: Cli,
    config: AppConfig,
    message: Option<String>,
    messages_json: Option<String>,
    system: Option<String>,
    model: Option<String>,
    max_tokens: u32,
    r: Result<Action, CliError>,
)
    requires
        run_with_ok(cli, config, r),
        cli.command == (Command::Chat { message, messages_json, system, model, max_tokens }),
        model_choice(model, config) matches Some(m) && model_accepted(m, ModelKind::Text),
    ensures
        r matches Ok(
            Action::Read {
                source,
                then: Pending::Chat {
                    protocol: p,
                    model: pm,
                    system: ps,
                    max_tokens: pt,
                    from_json: pj,
                },
            },
        ) && Some(pm@) == model_choice(model, config) && opt_chars(ps) == opt_chars(system)
            && pt == max_tokens && pj == messages_json is Some && p == (match config.protocol {
            Some(q) => q,
            None => Protocol::Openai,
        }) && names_source(
            source,
            match messages_json {
                Some(j) => j@,
                None => match message {
                    Some(x) => x@,
                    None => "-"@,
                },
            },
        ),
{
    let arg = match messages_json {
        Some(j) => j@,
        None => match message {
            Some(x) => x@,
            None => "-"@,
        },
    };
    assert(arg.drop_first() =~= arg.subrange(1, arg.len() as int));
}

/// A speech command with an accepted resource id (its own, else the configured one, else
/// `seed-tts-2.0`) reads its JSON body if it has one, else its text (standard input by
/// default), and waits with its own voice, and for text with that resource id.
pub proof fn law_tts_reads(
    cli: Cli,
    config: AppConfig,
    text: Option<String>,
    body_json: Option<String>,
    resource_id: Option<String>,
    voice: Option<String>,
    r: Result<Action, CliError>,
)
    requires
        run_with_ok(cli, config, r),
        cli.command == (Command::Tts { text, body_json, resource_id, voice }),
    ensures
        ({
            let id = match resource_id {
                Some(x) => x@,
                None => match config.resource_id {
                    Some(x) => x@,
                    None => "seed-tts-2.0"@,
                },
            };
            model_accepted(id, ModelKind::Speech) ==> match body_json {
                Some(b) => r matches Ok(Action::Read { source, then: Pending::TtsBody { voice: pv } })
                    && names_source(source, b@) && opt_chars(pv) == opt_chars(voice),
                None => r matches Ok(
                    Action::Read { source, then: Pending::TtsText { resource_id: pr, voice: pv } },
                ) && pr@ == id && opt_chars(pv) == opt_chars(voice) && names_source(
                    source,
                    match text {
                        Some(x) => x@,
                        None => "-"@,
                    },
                ),
            }
        }),
{
    let arg = match body_json {
        Some(b) => b@,
        None => match text {
            Some(x) => x@,
            None => "-"@,
        },
    };
    assert(arg.drop_first() =~= arg.subrange(1, arg.len() as int));
}

/// An image or embeddings command with an accepted model reads its prompt or input and waits
/// with that model (and, for images, its own size).
pub proof fn law_image_and_embeddings_read(cli: Cli, config: AppConfig, r: Result<Action, CliError>)
    requires
        run_with_ok(cli, config, r),
    ensures
        cli.command matches Command::Image { prompt, model, size } ==> (model_choice(model, config)
            matches Some(m) && model_accepted(m, ModelKind::Image)) ==> (r matches Ok(
            Action::Read { source, then: Pending::Image { model: pm, size: ps } },
        ) && Some(pm@) == model_choice(model, config) && opt_chars(ps) == opt_chars(size)
            && names_source(source, prompt@)),
        cli.command matches Command::Embeddings { input, model } ==> (model_choice(model, config)
            matches Some(m) && model_accepted(m, ModelKind::Embedding)) ==> (r matches Ok(
            Action::Read { source, then: Pending::Embeddings { model: pm } },
        ) && Some(pm@) == model_choice(model, config) && names_source(source, input@)),
{
    match cli.command {
        Command::Image { prompt, .. } => {
            assert(prompt@.drop_first() =~= prompt@.subrange(1, prompt@.len() as int));
        },
        Command::Embeddings { input, .. } => {
            assert(input@.drop_first() =~= input@.subrange(1, input@.len() as int));
        },
        _ => {},
    }
}


/// `video create` reads its JSON body when it has one, without looking at any model;
/// otherwise, with an accepted video model, it reads its prompt (standard input by default)
/// and waits with that model.
pub proof fn law_video_create_reads(
    cli: Cli,
    config: AppConfig,
    prompt: Option<String>,
    model: Option<String>,
    body_json: Option<String>,
    r: Result<Action, CliError>,
)
    requires
        run_with_ok(cli, config, r),
        cli.command == (Command::Video { command: VideoCommand::Create { prompt, model, body_json } }),
    ensures
        body_json matches Some(b) ==> (r matches Ok(Action::Read { source, then: Pending::VideoBody })
            && names_source(source, b@)),
        (body_json is None && model_choice(model, config) is Some && model_accepted(
            model_choice(model, config)->Some_0,
            ModelKind::Video,
        )) ==> (r matches Ok(Action::Read { source, then: Pending::VideoPrompt { model: pm } })
            && Some(pm@) == model_choice(model, config) && names_source(
            source,
            match prompt {
                Some(x) => x@,
                None => "-"@,
            },
        )),
{
    let arg = match body_json {
        Some(b) => b@,
        None => match prompt {
            Some(x) => x@,
            None => "-"@,
        },
    };
    assert(arg.drop_first() =~= arg.subrange(1, arg.len() as int));
}

/// `video get` sends a GET, and `video cancel` a DELETE, to the video task endpoint
/// followed by `/` and the task id; neither sends a body.
pub proof fn law_video_task_requests(cli: Cli, config: AppConfig, task_id: String, r: Result<Action, CliError>)
    requires
        run_with_ok(cli, config, r),
        cli.command == (Command::Video { command: VideoCommand::Get { task_id } }) || cli.command
            == (Command::Video { command: VideoCommand::Cancel { task_id } }),
        cli.dryrun || has_api_key(config),
    ensures
        goes_out(r),
        out_method(r) == (if cli.command == (Command::Video {
            command: VideoCommand::Get { task_id },
        }) {
            "GET"@
        } else {
            "DELETE"@
        }),
        out_url(r) == openai_url(config, "/contents/generations/tasks/"@ + task_id@),
        !cli.dryrun ==> out_body(r) is None,
{
    reveal_strlit("/contents/generations/tasks/");
    reveal_strlit("/contents/generations/tasks");
    reveal_strlit("/");
    assert("/contents/generations/tasks"@ + "/"@ =~= "/contents/generations/tasks/"@);
    let b = trim_end_char(base_of(config, Protocol::Openai), '/');
    assert(b + "/contents/generations/tasks"@ + "/"@ + task_id@ =~= b + ("/contents/generations/tasks/"@
        + task_id@));
}

/// A generic request sends the JSON body it read with its own method; a GET or DELETE
/// that goes out for real carries no body.
pub proof fn law_request_body(
    cli: Cli,
    config: AppConfig,
    method: String,
    protocol: Protocol,
    endpoint: Endpoint,
    task_id: Option<String>,
    v: JsonValue,
    r: Result<Action, CliError>,
)
    requires
        resume_ok(cli, config, Pending::RequestBody { method, protocol, endpoint, task_id }, Input::Json(v), r),
        cli.dryrun || has_api_key(config),
    ensures
        goes_out(r),
        out_method(r) == method@,
        (cli.dryrun || !(method@ == "GET"@ || method@ == "DELETE"@)) ==> out_body(r) == Some(v),
        (!cli.dryrun && (method@ == "GET"@ || method@ == "DELETE"@)) ==> out_body(r) is None,
{
}

/// The name under which a protocol is printed.
pub open spec fn protocol_label(protocol: Protocol) -> Seq<char> {
    match protocol {
        Protocol::Anthropic => "anthropic"@,
        Protocol::Openai => "openai"@,
    }
}

/// Sending a request: a dry run prints `{"method", "url", "protocol", "body"}`; otherwise a
/// missing or empty API key is an error; otherwise the request goes out with its method and
/// URL, a body unless the method is GET or DELETE, and, in verbose mode, the trace line
/// `METHOD URL`.
pub proof fn law_send(
    cli: Cli,
    config: AppConfig,
    protocol: Protocol,
    method: Seq<char>,
    url: Seq<char>,
    body_ok: spec_fn(JsonValue) -> bool,
    r: Result<Action, CliError>,
)
    requires
        crate::flow::send_ok(cli, config, protocol, method, url, body_ok, r),
    ensures
        cli.dryrun ==> (r matches Ok(Action::PrintJson(JsonValue::Object(es))) && es@.len() == 4
            && text_member(es@[0], "method"@, method) && text_member(es@[1], "url"@, url)
            && text_member(es@[2], "protocol"@, protocol_label(protocol)) && named(es@[3], "body"@)),
        (!cli.dryrun && !(config.api_key matches Some(k) && k@.len() > 0)) ==> r == Err::<
            Action,
            CliError,
        >(CliError::MissingApiKey),
        (!cli.dryrun && (config.api_key matches Some(k) && k@.len() > 0)) ==> (r matches Ok(
            Action::Send(req),
        ) && req.method@ == method && req.url@ == url && (req.body is None <==> (method == "GET"@
            || method == "DELETE"@)) && (cli.verbose ==> (req.trace matches Some(t) && t@ == method
            + " "@ + url)) && (!cli.verbose ==> req.trace is None)),
{
}

/// The shell lines that `env` prints, for each tool: the base URL, a placeholder for the
/// key, and the model under every model variable of the tool.
pub proof fn law_env_exports(tool: Tool, model: Seq<char>, lines: Seq<Seq<char>>)
    requires
        lines == env_vars_spec(tool, model).map_values(
            |v: (Seq<char>, Seq<char>)| export_line_spec(v),
        ),
    ensures
        tool == Tool::Openai ==> lines == seq![
            "export "@ + "OPENAI_BASE_URL"@ + "='"@ + OPENAI_BASE_URL@ + "'"@,
            "export "@ + "OPENAI_API_KEY"@ + "='"@ + "<ARK_API_KEY>"@ + "'"@,
            "export "@ + "OPENAI_MODEL"@ + "='"@ + model + "'"@,
        ],
        tool == Tool::Anthropic ==> lines == seq![
            "export "@ + "ANTHROPIC_BASE_URL"@ + "='"@ + ANTHROPIC_BASE_URL@ + "'"@,
            "export "@ + "ANTHROPIC_AUTH_TOKEN"@ + "='"@ + "<ARK_API_KEY>"@ + "'"@,
            "export "@ + "ANTHROPIC_MODEL"@ + "='"@ + model + "'"@,
            "export "@ + "ANTHROPIC_DEFAULT_HAIKU_MODEL"@ + "='"@ + model + "'"@,
            "export "@ + "ANTHROPIC_DEFAULT_SONNET_MODEL"@ + "='"@ + model + "'"@,
            "export "@ + "ANTHROPIC_DEFAULT_OPUS_MODEL"@ + "='"@ + model + "'"@,
            "export "@ + "CLAUDE_CODE_SUBAGENT_MODEL"@ + "='"@ + model + "'"@,
        ],
{
    if tool == Tool::Openai {
        assert(lines =~= seq![
            "export "@ + "OPENAI_BASE_URL"@ + "='"@ + OPENAI_BASE_URL@ + "'"@,
            "export "@ + "OPENAI_API_KEY"@ + "='"@ + "<ARK_API_KEY>"@ + "'"@,
            "export "@ + "OPENAI_MODEL"@ + "='"@ + model + "'"@,
        ]);
    } else {
        assert(lines =~= seq![
            "export "@ + "ANTHROPIC_BASE_URL"@ + "='"@ + ANTHROPIC_BASE_URL@ + "'"@,
            "export "@ + "ANTHROPIC_AUTH_TOKEN"@ + "='"@ + "<ARK_API_KEY>"@ + "'"@,
            "export "@ + "ANTHROPIC_MODEL"@ + "='"@ + model + "'"@,
            "export "@ + "ANTHROPIC_DEFAULT_HAIKU_MODEL"@ + "='"@ + model + "'"@,
            "export "@ + "ANTHROPIC_DEFAULT_SONNET_MODEL"@ + "='"@ + model + "'"@,
            "export "@ + "ANTHROPIC_DEFAULT_OPUS_MODEL"@ + "='"@ + model + "'"@,
            "export "@ + "CLAUDE_CODE_SUBAGENT_MODEL"@ + "='"@ + model + "'"@,
        ]);
    }
}

/// Member `i` of the object `env` is exported by line `i` of `lines`, for seven members.
pub open spec fn exported_by(env: JsonValue, lines: Seq<Seq<char>>) -> bool {
    env matches JsonValue::Object(es) && es@.len() == lines.len() && es@.len() == 7 && forall|i: int|
        0 <= i < lines.len() ==> #[trigger] lines[i] == "export "@ + es@[i].0@ + "='"@
            + es@[i].1->Str_0@ + "'"@
}

/// The agent settings and the Anthropic shell exports for the same model set the same
/// variables to the same values: member `i` of the settings' `env` object is exported by
/// line `i` of `env --tool anthropic`.
pub proof fn law_settings_match_exports(model: Seq<char>, settings: JsonValue, lines: Seq<Seq<char>>)
    requires
        claude_settings_ok(model, settings),
        lines == env_vars_spec(Tool::Anthropic, model).map_values(
            |v: (Seq<char>, Seq<char>)| export_line_spec(v),
        ),
    ensures
        settings matches JsonValue::Object(top) && top@.len() == 1 && named(top@[0], "env"@)
            && exported_by(top@[0].1, lines),
{
}

/// The model a command resolves: its own when given, else the configured one; a missing
/// model is an error, and a model that resolves is the chosen name.
pub proof fn law_model_choice(
    cli_model: Option<Seq<char>>,
    config: AppConfig,
    kind: ModelKind,
    r: Result<String, CliError>,
)
    requires
        crate::config::resolve_model_ok(cli_model, config, kind, r),
    ensures
        cli_model matches Some(c) ==> (model_accepted(c, kind) ==> (r matches Ok(m) && m@ == c)),
        cli_model matches Some(c) ==> (!model_accepted(c, kind) ==> r is Err),
        (cli_model is None && config.model is Some) ==> (model_accepted(
            config.model->Some_0@,
            kind,
        ) ==> (r matches Ok(m) && m@ == config.model->Some_0@)),
        (cli_model is None && config.model is None) ==> r == Err::<String, CliError>(
            CliError::MissingModel,
        ),
{
}

/// The speech resource id: the command's own when given, else the configured one, else
/// `seed-tts-2.0`, which is accepted.
pub proof fn law_resource_choice(cli_id: Option<Seq<char>>, config: AppConfig, r: Result<String, CliError>)
    requires
        crate::config::resolve_resource_id_ok(cli_id, config, r),
    ensures
        cli_id matches Some(c) ==> (model_accepted(c, ModelKind::Speech) ==> (r matches Ok(m)
            && m@ == c)),
        (cli_id is None && config.resource_id is Some) ==> (model_accepted(
            config.resource_id->Some_0@,
            ModelKind::Speech,
        ) ==> (r matches Ok(m) && m@ == config.resource_id->Some_0@)),
        (cli_id is None && config.resource_id is None) ==> (r matches Ok(m) && m@
            == "seed-tts-2.0"@),
{
    crate::config::lemma_default_resource_id_accepted();
}

/// Merging: every setting that the command line gives replaces the file's; every other
/// setting keeps the file's value.
pub proof fn law_merge(config: AppConfig, cli: Cli, r: AppConfig)
    requires
        r == crate::config::merged_spec(config, cli),
    ensures
        r.api_key == (if cli.api_key is Some { cli.api_key } else { config.api_key }),
        r.base_url == (if cli.base_url is Some { cli.base_url } else { config.base_url }),
        r.model == (if cli.model is Some { cli.model } else { config.model }),
        r.resource_id == (if cli.resource_id is Some { cli.resource_id } else { config.resource_id }),
        r.protocol == (if cli.protocol is Some { cli.protocol } else { config.protocol }),
{
}

/// The listing that `ark-cli list` shows, in order: name, kind and note of every entry.
pub open spec fn documented_listing() -> Seq<(Seq<char>, ModelKind, Seq<char>)> {
    seq![
        ("doubao-seed-2.0-code"@, ModelKind::Text, "text generation"@),
        ("doubao-seed-2.0-pro"@, ModelKind::Text, "text generation"@),
        ("doubao-seed-2.0-lite"@, ModelKind::Text, "text generation"@),
        ("doubao-seed-2.0-mini"@, ModelKind::Text, "text generation"@),
        ("glm-5.2"@, ModelKind::Text, "text generation"@),
        ("kimi-k2.7-code"@, ModelKind::Text, "text generation"@),
        ("deepseek-v4-pro"@, ModelKind::Text, "text generation"@),
        ("deepseek-v4-flash"@, ModelKind::Text, "text generation"@),
        ("minimax-m3"@, ModelKind::Text, "text generation"@),
        ("minimax-m2.7"@, ModelKind::Text, "text generation"@),
        ("glm-5.1"@, ModelKind::Text, "text generation"@),
        ("kimi-k2.6"@, ModelKind::Text, "text generation"@),
        ("deepseek-v3.2"@, ModelKind::Text, "text generation"@),
        ("doubao-embedding-vision"@, ModelKind::Embedding, "embedding; no Auto/console switch"@),
        ("doubao-seedream-5.0-lite"@, ModelKind::Image, "image generation"@),
        ("doubao-seedance-2.0"@, ModelKind::Video, "video generation"@),
        ("doubao-seedance-2.0-fast"@, ModelKind::Video, "video generation"@),
        ("doubao-seedance-2.0-mini"@, ModelKind::Video, "video generation"@),
        ("doubao-seedance-1.5-pro"@, ModelKind::Video, "video generation"@),
        ("seed-tts-2.0"@, ModelKind::Speech, "TTS Resource-Id"@),
        ("volc.seedasr.sauc.duration"@, ModelKind::Speech, "ASR Resource-Id"@),
    ]
}

/// The catalog, and so the listing, is the documented one, entry for entry and in order.
pub proof fn law_catalog_listing()
    ensures
        catalog_spec() == documented_listing(),
{
    assert(catalog_spec() =~= documented_listing());
}

} // verus!
