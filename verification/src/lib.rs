//! Verified core of a command-line client for Volcengine Ark plan endpoints.
//!
//! The library decides what each command does: which model or resource id it may use,
//! which URL and body a request gets, and what to print. The caller parses the command
//! line, reads files and standard input, prints, and performs the HTTP requests.

pub mod catalog;
pub mod config;
pub mod endpoint;
pub mod error;
pub mod flow;
pub mod json;
pub mod text;
pub mod tools;

pub use catalog::{catalog, catalog_entries, catalog_lines, kind_name, validate_model, CatalogEntry, ModelKind};
pub use config::{resolve_model, resolve_resource_id, AppConfig, Cli, Command, Tool, VideoCommand};
pub use endpoint::{
    append_query_params, auth_headers, default_base_url, endpoint_url, http_method,
    protocol_for_endpoint, sends_body, Endpoint, Protocol, ANTHROPIC_BASE_URL, OPENAI_BASE_URL,
    TTS_BIDIRECTIONAL_WS_URL, TTS_HTTP_URL, TTS_UNIDIRECTIONAL_WS_URL,
};
pub use error::CliError;
pub use flow::{
    handle_video, resume, response_outcome, run, run_with, send_json, send_url, value_source,
    video_list_query, Action, HttpRequest, Input, Pending, ValueSource,
};
pub use json::{chat_body, default_messages, set_field, text_message, JsonValue};
pub use tools::{claude_settings, env_lines};
pub mod laws;
