//! Errors that the library reports, and their messages.

use vstd::prelude::*;

use crate::catalog::{kind_name, kind_name_spec, ModelKind};

verus! {

/// Why a command was refused.
#[derive(Debug, PartialEq, Eq)]
pub enum CliError {
    /// The model name was some casing of `auto`.
    AutoModel,
    /// The name is not in the catalog under the kind asked for.
    UnsupportedModel { kind: ModelKind, name: String },
    /// Neither the command line nor the configuration gave a model.
    MissingModel,
    /// No non-empty API key was configured.
    MissingApiKey,
    /// The HTTP method is not a valid method token.
    InvalidMethod,
    /// A system prompt was given but the messages are not a JSON array.
    MessagesNotArray,
    /// The server answered with a status outside 200..300.
    RequestFailed { status: String, text: String },
}

/// The message that describes an error.
pub open spec fn error_message(e: CliError) -> Seq<char> {
    match e {
        CliError::AutoModel =>
            "Auto mode is not supported by these Ark Plan endpoints; choose a concrete model"@,
        CliError::UnsupportedModel { kind, name } =>
            "unsupported "@ + kind_name_spec(kind) + " model/resource id: "@ + name@,
        CliError::MissingModel => "missing model; pass --model, ARK_MODEL, or config model"@,
        CliError::MissingApiKey => "missing API key; set --api-key, ARK_API_KEY, or config api_key"@,
        CliError::InvalidMethod => "invalid HTTP method"@,
        CliError::MessagesNotArray => "messages_json must decode to an array"@,
        CliError::RequestFailed { status, text } => "request returned "@ + status@ + ": "@ + text@,
    }
}

impl CliError {
    /// The message that describes this error.
    #[allow(clippy::inherent_to_string)]
    pub fn to_string(&self) -> (r: String)
        ensures
            r@ == error_message(*self),
    {
        match self {
            CliError::AutoModel => String::from_str(
                "Auto mode is not supported by these Ark Plan endpoints; choose a concrete model",
            ),
            CliError::UnsupportedModel { kind, name } => {
                let mut r = String::from_str("unsupported ");
                r.append(kind_name(*kind));
                r.append(" model/resource id: ");
                r.append(name.as_str());
                r
            },
            CliError::MissingModel => String::from_str(
                "missing model; pass --model, ARK_MODEL, or config model",
            ),
            CliError::MissingApiKey => String::from_str(
                "missing API key; set --api-key, ARK_API_KEY, or config api_key",
            ),
            CliError::InvalidMethod => String::from_str("invalid HTTP method"),
            CliError::MessagesNotArray => String::from_str("messages_json must decode to an array"),
            CliError::RequestFailed { status, text } => {
                let mut r = String::from_str("request returned ");
                r.append(status.as_str());
                r.append(": ");
                r.append(text.as_str());
                r
            },
        }
    }
}

} // verus!
