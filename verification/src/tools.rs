//! Settings for other tools: shell exports and the coding agent settings file.

use vstd::prelude::*;

use crate::config::Tool;
use crate::endpoint::{ANTHROPIC_BASE_URL, OPENAI_BASE_URL};
use crate::json::{member, str_value, string_members_are, string_object_is, JsonValue};
use crate::text::strings_view;

verus! {

/// The environment variables that configure `tool` for `model`, in the order printed.
pub open spec fn env_vars_spec(tool: Tool, model: Seq<char>) -> Seq<(Seq<char>, Seq<char>)> {
    match tool {
        Tool::Anthropic => seq![
            ("ANTHROPIC_BASE_URL"@, ANTHROPIC_BASE_URL@),
            ("ANTHROPIC_AUTH_TOKEN"@, "<ARK_API_KEY>"@),
            ("ANTHROPIC_MODEL"@, model),
            ("ANTHROPIC_DEFAULT_HAIKU_MODEL"@, model),
            ("ANTHROPIC_DEFAULT_SONNET_MODEL"@, model),
            ("ANTHROPIC_DEFAULT_OPUS_MODEL"@, model),
            ("CLAUDE_CODE_SUBAGENT_MODEL"@, model),
        ],
        Tool::Openai => seq![
            ("OPENAI_BASE_URL"@, OPENAI_BASE_URL@),
            ("OPENAI_API_KEY"@, "<ARK_API_KEY>"@),
            ("OPENAI_MODEL"@, model),
        ],
    }
}

/// A shell line that exports `name` with the single-quoted `value`.
pub open spec fn export_line_spec(var: (Seq<char>, Seq<char>)) -> Seq<char> {
    "export "@ + var.0 + "='"@ + var.1 + "'"@
}

fn export_line(name: &str, value: &str) -> (r: String)
    ensures
        r@ == export_line_spec((name@, value@)),
{
    let mut r = String::from_str("export ");
    r.append(name);
    r.append("='");
    r.append(value);
    r.append("'");
    r
}

/// The shell lines that configure `tool` to use `model` through the plan API.
pub fn env_lines(tool: Tool, model: &str) -> (r: Vec<String>)
    ensures
        strings_view(r@) == env_vars_spec(tool, model@).map_values(
            |v: (Seq<char>, Seq<char>)| export_line_spec(v),
        ),
{
    let mut r: Vec<String> = Vec::new();
    match tool {
        Tool::Anthropic => {
            r.push(export_line("ANTHROPIC_BASE_URL", ANTHROPIC_BASE_URL));
            r.push(export_line("ANTHROPIC_AUTH_TOKEN", "<ARK_API_KEY>"));
            r.push(export_line("ANTHROPIC_MODEL", model));
            r.push(export_line("ANTHROPIC_DEFAULT_HAIKU_MODEL", model));
            r.push(export_line("ANTHROPIC_DEFAULT_SONNET_MODEL", model));
            r.push(export_line("ANTHROPIC_DEFAULT_OPUS_MODEL", model));
            r.push(export_line("CLAUDE_CODE_SUBAGENT_MODEL", model));
        },
        Tool::Openai => {
            r.push(export_line("OPENAI_BASE_URL", OPENAI_BASE_URL));
            r.push(export_line("OPENAI_API_KEY", "<ARK_API_KEY>"));
            r.push(export_line("OPENAI_MODEL", model));
        },
    }
    assert(strings_view(r@) =~= env_vars_spec(tool, model@).map_values(
        |v: (Seq<char>, Seq<char>)| export_line_spec(v),
    ));
    r
}

/// The coding agent settings for `model`: one member `env` holding, as strings, the same
/// variables that the Anthropic shell exports set.
pub open spec fn claude_settings_ok(model: Seq<char>, r: JsonValue) -> bool {
    r matches JsonValue::Object(top) && top@.len() == 1 && top@[0].0@ == "env"@
        && string_object_is(top@[0].1, env_vars_spec(Tool::Anthropic, model))
}

/// The content of the coding agent `settings.json` that points it at the plan API.
pub fn claude_settings(model: &str) -> (r: JsonValue)
    ensures
        claude_settings_ok(model@, r),
{
    let mut env: Vec<(String, JsonValue)> = Vec::new();
    env.push(member("ANTHROPIC_BASE_URL", str_value(ANTHROPIC_BASE_URL)));
    env.push(member("ANTHROPIC_AUTH_TOKEN", str_value("<ARK_API_KEY>")));
    env.push(member("ANTHROPIC_MODEL", str_value(model)));
    env.push(member("ANTHROPIC_DEFAULT_HAIKU_MODEL", str_value(model)));
    env.push(member("ANTHROPIC_DEFAULT_SONNET_MODEL", str_value(model)));
    env.push(member("ANTHROPIC_DEFAULT_OPUS_MODEL", str_value(model)));
    env.push(member("CLAUDE_CODE_SUBAGENT_MODEL", str_value(model)));
    let ghost env_view = env@;
    assert(string_members_are(env_view, env_vars_spec(Tool::Anthropic, model@)));
    let mut top: Vec<(String, JsonValue)> = Vec::new();
    top.push(member("env", JsonValue::Object(env)));
    JsonValue::Object(top)
}

} // verus!
