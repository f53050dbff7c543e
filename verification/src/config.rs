//! The parsed command line, the configuration, and how the two combine.

use vstd::prelude::*;

use crate::catalog::{model_accepted, rejection_ok, validate_model, ModelKind};
use crate::endpoint::{default_base_url, default_base_url_spec, opt_str_view, Endpoint, Protocol};
use crate::error::CliError;

verus! {

/// Tools whose environment variables `env` prints.
#[derive(Debug, Clone, Copy, PartialEq, Eq, Structural)]
pub enum Tool {
    Anthropic,
    Openai,
}

/// The `video` subcommands.
#[derive(Debug)]
pub enum VideoCommand {
    Create { prompt: Option<String>, model: Option<String>, body_json: Option<String> },
    Get { task_id: String },
    List {
        page_num: Option<u32>,
        page_size: Option<u32>,
        status: Option<String>,
        task_id: Vec<String>,
        model: Option<String>,
    },
    Cancel { task_id: String },
}

/// The subcommands of the client.
#[derive(Debug)]
pub enum Command {
    /// List supported model names and speech resource ids.
    List { kind: Option<ModelKind> },
    /// Print a configured endpoint URL.
    Endpoint { endpoint: Endpoint, task_id: Option<String> },
    /// Print shell environment for Anthropic/OpenAI compatible tools.
    Env { tool: Tool, model: Option<String> },
    /// Print the settings.json content for the Anthropic coding agent.
    ClaudeSettings { model: Option<String> },
    /// Send a text chat request.
    Chat {
        message: Option<String>,
        messages_json: Option<String>,
        system: Option<String>,
        model: Option<String>,
        max_tokens: u32,
    },
    /// Send an embeddings request.
    Embeddings { input: String, model: Option<String> },
    /// Send an image generation request.
    Image { prompt: String, model: Option<String>, size: Option<String> },
    /// Create, query, list or cancel video generation tasks.
    Video { command: VideoCommand },
    /// Send a speech HTTP TTS request.
    Tts {
        text: Option<String>,
        body_json: Option<String>,
        resource_id: Option<String>,
        voice: Option<String>,
    },
    /// Send a generic request to a known endpoint.
    Request {
        endpoint: Endpoint,
        method: String,
        body_json: Option<String>,
        task_id: Option<String>,
    },
}

/// The command line after argument parsing.
#[derive(Debug)]
pub struct Cli {
    /// TOML or JSON config file.
    pub config: Option<String>,
    pub api_key: Option<String>,
    pub base_url: Option<String>,
    pub model: Option<String>,
    pub resource_id: Option<String>,
    pub protocol: Option<Protocol>,
    /// Print the request that would be sent instead of calling the network.
    pub dryrun: bool,
    /// Emit structured JSON where supported.
    pub json: bool,
    /// Print request details to stderr.
    pub verbose: bool,
    pub command: Command,
}

/// Settings that may come from a configuration file and from the command line.
#[derive(Debug)]
pub struct AppConfig {
    pub api_key: Option<String>,
    pub base_url: Option<String>,
    pub model: Option<String>,
    pub resource_id: Option<String>,
    pub protocol: Option<Protocol>,
}

impl Default for AppConfig {
    fn default() -> (r: AppConfig)
        ensures
            r.api_key is None,
            r.base_url is None,
            r.model is None,
            r.resource_id is None,
            r.protocol is None,
    {
        AppConfig { api_key: None, base_url: None, model: None, resource_id: None, protocol: None }
    }
}

/// `preferred` when it holds a value, `fallback` otherwise.
pub open spec fn prefer<T>(preferred: Option<T>, fallback: Option<T>) -> Option<T> {
    if preferred is Some {
        preferred
    } else {
        fallback
    }
}

/// The configuration with every setting that the command line gives replaced by it.
pub open spec fn merged_spec(config: AppConfig, cli: Cli) -> AppConfig {
    AppConfig {
        api_key: prefer(cli.api_key, config.api_key),
        base_url: prefer(cli.base_url, config.base_url),
        model: prefer(cli.model, config.model),
        resource_id: prefer(cli.resource_id, config.resource_id),
        protocol: prefer(cli.protocol, config.protocol),
    }
}

fn clone_opt(o: &Option<String>) -> (r: Option<String>)
    ensures
        r == *o,
{
    match o {
        Some(s) => Some(s.clone()),
        None => None,
    }
}

/// The characters of a configured string setting.
pub open spec fn setting_view(o: Option<String>) -> Option<Seq<char>> {
    match o {
        Some(s) => Some(s@),
        None => None,
    }
}

impl AppConfig {
    /// Overrides the settings that the command line gives; the others stay as they are.
    pub fn merged(self, cli: &Cli) -> (r: AppConfig)
        ensures
            r == merged_spec(self, *cli),
    {
        let mut config = self;
        if cli.api_key.is_some() {
            config.api_key = clone_opt(&cli.api_key);
        }
        if cli.base_url.is_some() {
            config.base_url = clone_opt(&cli.base_url);
        }
        if cli.model.is_some() {
            config.model = clone_opt(&cli.model);
        }
        if cli.resource_id.is_some() {
            config.resource_id = clone_opt(&cli.resource_id);
        }
        if cli.protocol.is_some() {
            config.protocol = cli.protocol;
        }
        config
    }

    /// The configured protocol, or `default` when none is configured.
    pub fn protocol_or(&self, default: Protocol) -> (r: Protocol)
        ensures
            r == self.protocol.unwrap_or(default),
    {
        match self.protocol {
            Some(p) => p,
            None => default,
        }
    }

    /// The configured base URL, or the default base URL of `protocol`.
    pub fn base_url_for(&self, protocol: Protocol) -> (r: &str)
        ensures
            r@ == base_url_spec(*self, protocol),
    {
        match &self.base_url {
            Some(url) => url.as_str(),
            None => default_base_url(protocol),
        }
    }

    /// The configured API key; a missing or empty key is an error.
    pub fn api_key(&self) -> (r: Result<&str, CliError>)
        ensures
            has_api_key(*self) ==> (r matches Ok(k) && self.api_key matches Some(key) && k@ == key@),
            !has_api_key(*self) ==> r == Err::<&str, CliError>(CliError::MissingApiKey),
    {
        match &self.api_key {
            Some(key) => {
                if key.as_str().is_empty() {
                    Err(CliError::MissingApiKey)
                } else {
                    Ok(key.as_str())
                }
            },
            None => Err(CliError::MissingApiKey),
        }
    }
}

/// The base URL that requests of `protocol` use under `config`.
pub open spec fn base_url_spec(config: AppConfig, protocol: Protocol) -> Seq<char> {
    match config.base_url {
        Some(url) => url@,
        None => default_base_url_spec(protocol),
    }
}

/// The configuration holds a non-empty API key.
pub open spec fn has_api_key(config: AppConfig) -> bool {
    config.api_key matches Some(key) && key@.len() > 0
}

/// The model that a command asks for: its own option first, then the configured model.
pub open spec fn chosen_model(cli_model: Option<Seq<char>>, config: AppConfig) -> Option<Seq<char>> {
    prefer(cli_model, setting_view(config.model))
}

/// The outcome of choosing and checking a model of `kind`.
pub open spec fn resolve_model_ok(
    cli_model: Option<Seq<char>>,
    config: AppConfig,
    kind: ModelKind,
    r: Result<String, CliError>,
) -> bool {
    match chosen_model(cli_model, config) {
        None => r == Err::<String, CliError>(CliError::MissingModel),
        Some(name) => if model_accepted(name, kind) {
            r matches Ok(m) && m@ == name
        } else {
            r matches Err(e) && rejection_ok(name, kind, e)
        },
    }
}

/// Chooses the model for a command of `kind`: the command's own `--model` first, then the
/// configured model; the choice must be a catalog entry of `kind`.
pub fn resolve_model(cli_model: Option<&str>, config: &AppConfig, kind: ModelKind) -> (r: Result<
    String,
    CliError,
>)
    ensures
        resolve_model_ok(opt_str_view(cli_model), *config, kind, r),
{
    let model: &str = match cli_model {
        Some(m) => m,
        None => match &config.model {
            Some(m) => m.as_str(),
            None => {
                return Err(CliError::MissingModel);
            },
        },
    };
    match validate_model(model, kind) {
        Ok(()) => Ok(String::from_str(model)),
        Err(e) => Err(e),
    }
}

/// The speech resource id when neither the command nor the configuration names one.
pub open spec fn default_resource_id() -> Seq<char> {
    "seed-tts-2.0"@
}

/// The speech resource id that a command uses: its own option, then the configured one,
/// then the default.
pub open spec fn chosen_resource_id(cli_resource_id: Option<Seq<char>>, config: AppConfig) -> Seq<char> {
    match prefer(cli_resource_id, setting_view(config.resource_id)) {
        Some(id) => id,
        None => default_resource_id(),
    }
}

/// The outcome of choosing and checking a speech resource id.
pub open spec fn resolve_resource_id_ok(
    cli_resource_id: Option<Seq<char>>,
    config: AppConfig,
    r: Result<String, CliError>,
) -> bool {
    let id = chosen_resource_id(cli_resource_id, config);
    if model_accepted(id, ModelKind::Speech) {
        r matches Ok(m) && m@ == id
    } else {
        r matches Err(e) && rejection_ok(id, ModelKind::Speech, e)
    }
}

/// Chooses the speech resource id: the command's own option, then the configured one, then
/// `seed-tts-2.0`; the choice must be a speech entry of the catalog.
pub fn resolve_resource_id(cli_resource_id: Option<&str>, config: &AppConfig) -> (r: Result<
    String,
    CliError,
>)
    ensures
        resolve_resource_id_ok(opt_str_view(cli_resource_id), *config, r),
{
    let id: &str = match cli_resource_id {
        Some(id) => id,
        None => match &config.resource_id {
            Some(id) => id.as_str(),
            None => "seed-tts-2.0",
        },
    };
    match validate_model(id, ModelKind::Speech) {
        Ok(()) => Ok(String::from_str(id)),
        Err(e) => Err(e),
    }
}


/// Merging the same command line twice changes nothing more than merging it once.
pub proof fn lemma_merge_idempotent(config: AppConfig, cli: Cli)
    ensures
        merged_spec(merged_spec(config, cli), cli) == merged_spec(config, cli),
{
}

/// A command line that sets none of the shared settings leaves the configuration as it is.
pub proof fn lemma_merge_without_cli_settings(config: AppConfig, cli: Cli)
    requires
        cli.api_key is None,
        cli.base_url is None,
        cli.model is None,
        cli.resource_id is None,
        cli.protocol is None,
    ensures
        merged_spec(config, cli) == config,
{
}

/// A model that resolves is a concrete catalog entry of the kind asked for.
pub proof fn lemma_resolved_model_is_accepted(
    cli_model: Option<Seq<char>>,
    config: AppConfig,
    kind: ModelKind,
    r: Result<String, CliError>,
)
    requires
        resolve_model_ok(cli_model, config, kind, r),
        r is Ok,
    ensures
        model_accepted(r->Ok_0@, kind),
{
}

/// With no resource id on the command line or in the configuration, speech requests use
/// `seed-tts-2.0`, which the catalog accepts: they work out of the box.
pub proof fn lemma_default_resource_id_accepted()
    ensures
        model_accepted(default_resource_id(), ModelKind::Speech),
{
    crate::catalog::lemma_catalog_has_no_auto_name();
    assert(crate::catalog::catalog_spec()[19].0 == default_resource_id());
}

} // verus!
