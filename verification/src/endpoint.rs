//! Endpoints, their URLs, query strings, HTTP methods and authentication headers.

use vstd::prelude::*;

use crate::text::{join, join_spec, strings_view, trim_end_char, trim_trailing_slashes};

verus! {

/// Base URL of the Anthropic-compatible plan API.
pub const ANTHROPIC_BASE_URL: &'static str = "https://ark.cn-beijing.volces.com/api/plan";

/// Base URL of the OpenAI-compatible plan API.
pub const OPENAI_BASE_URL: &'static str = "https://ark.cn-beijing.volces.com/api/plan/v3";

/// The HTTP speech-synthesis endpoint.
pub const TTS_HTTP_URL: &'static str = "https://openspeech.bytedance.com/api/v3/plan/tts/unidirectional";

/// The bidirectional WebSocket speech-synthesis endpoint.
pub const TTS_BIDIRECTIONAL_WS_URL: &'static str =
    "wss://openspeech.bytedance.com/api/v3/plan/tts/bidirection";

/// The unidirectional WebSocket speech-synthesis endpoint.
pub const TTS_UNIDIRECTIONAL_WS_URL: &'static str =
    "wss://openspeech.bytedance.com/api/v3/plan/tts/unidirectional/stream";


/// Wire protocol family of the plan API.
#[derive(Debug, Clone, Copy, PartialEq, Eq, Structural)]
pub enum Protocol {
    Anthropic,
    Openai,
}

/// The endpoints the client knows.
#[derive(Debug, Clone, Copy, PartialEq, Eq, Structural)]
pub enum Endpoint {
    AnthropicMessages,
    OpenaiChat,
    Embeddings,
    Images,
    VideoTasks,
    TtsHttp,
    TtsBidirectionalWs,
    TtsUnidirectionalWs,
}

/// The fixed URL of a speech endpoint, which does not depend on the configured base URL.
pub open spec fn fixed_url_spec(endpoint: Endpoint) -> Option<Seq<char>> {
    match endpoint {
        Endpoint::TtsHttp => Some(TTS_HTTP_URL@),
        Endpoint::TtsBidirectionalWs => Some(TTS_BIDIRECTIONAL_WS_URL@),
        Endpoint::TtsUnidirectionalWs => Some(TTS_UNIDIRECTIONAL_WS_URL@),
        _ => None,
    }
}

/// The path that an endpoint adds to the base URL.
pub open spec fn endpoint_path_spec(endpoint: Endpoint) -> Seq<char> {
    match endpoint {
        Endpoint::AnthropicMessages => "/v1/messages"@,
        Endpoint::OpenaiChat => "/chat/completions"@,
        Endpoint::Embeddings => "/embeddings"@,
        Endpoint::Images => "/images/generations"@,
        Endpoint::VideoTasks => "/contents/generations/tasks"@,
        _ => Seq::empty(),
    }
}

/// The characters of an optional string slice.
pub open spec fn opt_str_view(o: Option<&str>) -> Option<Seq<char>> {
    match o {
        Some(s) => Some(s@),
        None => None,
    }
}

/// The characters of an optional string.
pub open spec fn opt_string_view(o: Option<String>) -> Option<Seq<char>> {
    match o {
        Some(s) => Some(s@),
        None => None,
    }
}

/// The URL of an endpoint: a speech endpoint has a fixed URL; any other joins its path
/// onto the base URL without its trailing slashes, then `/` and the task id if one is given.
pub open spec fn endpoint_url_spec(
    base_url: Seq<char>,
    endpoint: Endpoint,
    task_id: Option<Seq<char>>,
) -> Seq<char> {
    match fixed_url_spec(endpoint) {
        Some(url) => url,
        None => {
            let url = trim_end_char(base_url, '/') + endpoint_path_spec(endpoint);
            match task_id {
                Some(id) => url + "/"@ + id,
                None => url,
            }
        },
    }
}

/// The URL to which a request for `endpoint` goes.
pub fn endpoint_url(base_url: &str, endpoint: Endpoint, task_id: Option<&str>) -> (r: String)
    ensures
        r@ == endpoint_url_spec(base_url@, endpoint, opt_str_view(task_id)),
{
    let path = match endpoint {
        Endpoint::TtsHttp => {
            return String::from_str(TTS_HTTP_URL);
        },
        Endpoint::TtsBidirectionalWs => {
            return String::from_str(TTS_BIDIRECTIONAL_WS_URL);
        },
        Endpoint::TtsUnidirectionalWs => {
            return String::from_str(TTS_UNIDIRECTIONAL_WS_URL);
        },
        Endpoint::AnthropicMessages => "/v1/messages",
        Endpoint::OpenaiChat => "/chat/completions",
        Endpoint::Embeddings => "/embeddings",
        Endpoint::Images => "/images/generations",
        Endpoint::VideoTasks => "/contents/generations/tasks",
    };
    let mut url = String::from_str(trim_trailing_slashes(base_url));
    url.append(path);
    if let Some(id) = task_id {
        url.append("/");
        url.append(id);
    }
    url
}

/// The protocol under which an endpoint is reached unless the configuration says otherwise.
pub open spec fn protocol_for_endpoint_spec(endpoint: Endpoint) -> Protocol {
    match endpoint {
        Endpoint::AnthropicMessages => Protocol::Anthropic,
        _ => Protocol::Openai,
    }
}

/// The protocol under which an endpoint is reached unless the configuration says otherwise.
pub fn protocol_for_endpoint(endpoint: Endpoint) -> (r: Protocol)
    ensures
        r == protocol_for_endpoint_spec(endpoint),
{
    match endpoint {
        Endpoint::AnthropicMessages => Protocol::Anthropic,
        Endpoint::OpenaiChat
        | Endpoint::Embeddings
        | Endpoint::Images
        | Endpoint::VideoTasks
        | Endpoint::TtsHttp
        | Endpoint::TtsBidirectionalWs
        | Endpoint::TtsUnidirectionalWs => Protocol::Openai,
    }
}

/// The base URL of a protocol when none is configured.
pub open spec fn default_base_url_spec(protocol: Protocol) -> Seq<char> {
    match protocol {
        Protocol::Anthropic => ANTHROPIC_BASE_URL@,
        Protocol::Openai => OPENAI_BASE_URL@,
    }
}

/// The base URL of a protocol when none is configured.
pub fn default_base_url(protocol: Protocol) -> (r: &'static str)
    ensures
        r@ == default_base_url_spec(protocol),
{
    match protocol {
        Protocol::Anthropic => ANTHROPIC_BASE_URL,
        Protocol::Openai => OPENAI_BASE_URL,
    }
}

/// One `key=value` pair of a query string, written verbatim.
pub open spec fn query_pair_spec(p: (Seq<char>, Seq<char>)) -> Seq<char> {
    p.0 + "="@ + p.1
}

/// `url` followed by `?` and the `key=value` pairs joined with `&`, or `url` itself when
/// there are no pairs. Keys and values are not percent-encoded.
pub open spec fn with_query_spec(url: Seq<char>, params: Seq<(Seq<char>, Seq<char>)>) -> Seq<char> {
    if params.len() == 0 {
        url
    } else {
        url + "?"@ + join_spec(
            params.map_values(|p: (Seq<char>, Seq<char>)| query_pair_spec(p)),
            "&"@,
        )
    }
}

/// Appends query parameters to a URL.
pub fn append_query_params(url: String, params: &[(String, String)]) -> (r: String)
    ensures
        r@ == with_query_spec(url@, pairs_view(params@)),
{
    if params.len() == 0 {
        return url;
    }
    let mut pairs: Vec<String> = Vec::new();
    let mut i: usize = 0;
    while i < params.len()
        invariant
            i <= params@.len(),
            pairs@.len() == i,
            forall|j: int|
                0 <= j < i ==> (#[trigger] pairs@[j])@ == query_pair_spec(
                    (params@[j].0@, params@[j].1@),
                ),
        decreases params@.len() - i,
    {
        let mut pair = String::from_str(params[i].0.as_str());
        pair.append("=");
        pair.append(params[i].1.as_str());
        pairs.push(pair);
        i = i + 1;
    }
    assert(strings_view(pairs@) =~= pairs_view(params@).map_values(
        |p: (Seq<char>, Seq<char>)| query_pair_spec(p),
    ));
    let query = join(&pairs, "&");
    let mut url = url;
    url.append("?");
    url.append(query.as_str());
    url
}


/// A character allowed in an HTTP method token (RFC 9110, section 9.1): a letter, a digit,
/// or one of ``!#$%&'*+-.^_`|~``.
pub open spec fn is_tchar(c: char) -> bool {
    ||| 'a' <= c && c <= 'z'
    ||| 'A' <= c && c <= 'Z'
    ||| '0' <= c && c <= '9'
    ||| c == '!' || c == '#' || c == '$' || c == '%' || c == '&' || c == '\''
    ||| c == '*' || c == '+' || c == '-' || c == '.' || c == '^' || c == '_'
    ||| c == '`' || c == '|' || c == '~'
}

/// A valid HTTP method: a non-empty token. Methods are case-sensitive.
pub open spec fn is_method_token(s: Seq<char>) -> bool {
    s.len() > 0 && forall|i: int| 0 <= i < s.len() ==> is_tchar(#[trigger] s[i])
}

/// Parses an HTTP method with `reqwest::Method`'s `FromStr` and gives back its text.
///
/// The parse succeeds exactly on a non-empty string of token characters, and the parsed
/// method's `as_str` is the input unchanged (the standard methods are matched
/// case-sensitively, any other token is kept byte for byte).
#[verifier::external_body]
fn parse_method(s: &str) -> (r: Option<String>)
    ensures
        r is Some <==> is_method_token(s@),
        r matches Some(m) ==> m@ == s@,
{
    s.parse::<reqwest::Method>().ok().map(|m| m.as_str().to_string())
}

/// Checks an HTTP method given on the command line.
pub fn http_method(s: &str) -> (r: Result<String, crate::error::CliError>)
    ensures
        is_method_token(s@) ==> (r matches Ok(m) && m@ == s@),
        !is_method_token(s@) ==> r == Err::<String, crate::error::CliError>(
            crate::error::CliError::InvalidMethod,
        ),
{
    match parse_method(s) {
        Some(m) => Ok(m),
        None => Err(crate::error::CliError::InvalidMethod),
    }
}

/// A request with this method carries a JSON body: every method but `GET` and `DELETE`.
pub open spec fn sends_body_spec(method: Seq<char>) -> bool {
    method != "GET"@ && method != "DELETE"@
}

/// Whether a request with this method carries a JSON body.
pub fn sends_body(method: &str) -> (r: bool)
    ensures
        r == sends_body_spec(method@),
{
    !(crate::text::str_eq(method, "GET") || crate::text::str_eq(method, "DELETE"))
}

/// The authentication headers of a request, as (name, value) pairs in the order sent.
pub open spec fn auth_headers_spec(protocol: Protocol, api_key: Seq<char>) -> Seq<(Seq<char>, Seq<char>)> {
    match protocol {
        Protocol::Anthropic => seq![
            ("x-api-key"@, api_key),
            ("Authorization"@, "Bearer "@ + api_key),
            ("anthropic-version"@, "2023-06-01"@),
        ],
        Protocol::Openai => seq![("Authorization"@, "Bearer "@ + api_key)],
    }
}

/// The characters of a list of header pairs.
pub open spec fn pairs_view(v: Seq<(String, String)>) -> Seq<(Seq<char>, Seq<char>)> {
    v.map_values(|p: (String, String)| (p.0@, p.1@))
}

fn header(name: &str, value: &str) -> (r: (String, String))
    ensures
        r.0@ == name@,
        r.1@ == value@,
{
    (String::from_str(name), String::from_str(value))
}

/// The authentication headers for `protocol`: both key forms and the API version for the
/// Anthropic protocol, a bearer token for the OpenAI protocol.
pub fn auth_headers(protocol: Protocol, api_key: &str) -> (r: Vec<(String, String)>)
    ensures
        pairs_view(r@) == auth_headers_spec(protocol, api_key@),
{
    let mut bearer = String::from_str("Bearer ");
    bearer.append(api_key);
    let mut r: Vec<(String, String)> = Vec::new();
    match protocol {
        Protocol::Anthropic => {
            r.push(header("x-api-key", api_key));
            r.push(header("Authorization", bearer.as_str()));
            r.push(header("anthropic-version", "2023-06-01"));
        },
        Protocol::Openai => {
            r.push(header("Authorization", bearer.as_str()));
        },
    }
    assert(pairs_view(r@) =~= auth_headers_spec(protocol, api_key@));
    r
}


/// The speech endpoints have fixed URLs: neither the base URL nor a task id changes them.
pub proof fn lemma_fixed_urls_ignore_base_and_task(
    endpoint: Endpoint,
    base1: Seq<char>,
    base2: Seq<char>,
    task1: Option<Seq<char>>,
    task2: Option<Seq<char>>,
)
    requires
        fixed_url_spec(endpoint) is Some,
    ensures
        endpoint_url_spec(base1, endpoint, task1) == endpoint_url_spec(base2, endpoint, task2),
{
}

/// A trailing slash on the base URL makes no difference to any endpoint URL.
pub proof fn lemma_trailing_slash_ignored(base: Seq<char>, endpoint: Endpoint, task_id: Option<Seq<char>>)
    ensures
        endpoint_url_spec(base + "/"@, endpoint, task_id) == endpoint_url_spec(base, endpoint, task_id),
{
    reveal_strlit("/");
    let slashed = base + "/"@;
    assert(slashed.drop_last() =~= base);
    assert(trim_end_char(slashed, '/') == trim_end_char(base, '/'));
}

/// Without parameters, a URL stays exactly as it was.
pub proof fn lemma_no_params_keep_url(url: Seq<char>)
    ensures
        with_query_spec(url, Seq::empty()) == url,
{
}

} // verus!
