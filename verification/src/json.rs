//! JSON values as the library builds and reads them, and the request bodies built from them.

use vstd::prelude::*;

use crate::endpoint::Protocol;
use crate::error::CliError;
use crate::text::str_eq;

verus! {

/// A JSON value. Objects keep their members in insertion order; numbers that are neither
/// an unsigned nor a signed 64-bit integer are kept as their decimal text.
#[derive(Debug, PartialEq)]
pub enum JsonValue {
    Null,
    Bool(bool),
    UInt(u64),
    Int(i64),
    Decimal(String),
    Str(String),
    Array(Vec<JsonValue>),
    Object(Vec<(String, JsonValue)>),
}

/// `v` is the JSON string `s`.
pub open spec fn is_str(v: JsonValue, s: Seq<char>) -> bool {
    v matches JsonValue::Str(x) && x@ == s
}

/// The member `e` has name `key` and value `v`.
pub open spec fn member_is(e: (String, JsonValue), key: Seq<char>, v: JsonValue) -> bool {
    e.0@ == key && e.1 == v
}

/// The member `e` has name `key` and the string value `s`.
pub open spec fn str_member_is(e: (String, JsonValue), key: Seq<char>, s: Seq<char>) -> bool {
    e.0@ == key && is_str(e.1, s)
}

/// `v` is the object `{"role": role, "content": content}`.
pub open spec fn is_text_message(v: JsonValue, role: Seq<char>, content: Seq<char>) -> bool {
    v matches JsonValue::Object(es) && es@.len() == 2 && str_member_is(es@[0], "role"@, role)
        && str_member_is(es@[1], "content"@, content)
}

/// The members of `es` are the string variables `vars`, in order.
pub open spec fn string_members_are(es: Seq<(String, JsonValue)>, vars: Seq<(Seq<char>, Seq<char>)>) -> bool {
    &&& es.len() == vars.len()
    &&& forall|i: int|
        0 <= i < es.len() ==> (#[trigger] es[i]).0@ == vars[i].0 && is_str(
            es[i].1,
            vars[i].1,
        )
}

/// `v` is an object whose members are the string variables `vars`, in order.
pub open spec fn string_object_is(v: JsonValue, vars: Seq<(Seq<char>, Seq<char>)>) -> bool {
    v matches JsonValue::Object(es) && string_members_are(es@, vars)
}

/// The JSON string holding `s`.
pub fn str_value(s: &str) -> (r: JsonValue)
    ensures
        is_str(r, s@),
{
    JsonValue::Str(String::from_str(s))
}

/// A member named `key` with value `v`.
pub fn member(key: &str, v: JsonValue) -> (r: (String, JsonValue))
    ensures
        member_is(r, key@, v),
{
    (String::from_str(key), v)
}

/// The chat message `{"role": role, "content": content}`.
pub fn text_message(role: &str, content: &str) -> (r: JsonValue)
    ensures
        is_text_message(r, role@, content@),
{
    let mut es: Vec<(String, JsonValue)> = Vec::new();
    es.push(member("role", str_value(role)));
    es.push(member("content", str_value(content)));
    JsonValue::Object(es)
}

/// The messages of a chat that consists of one user turn.
pub fn default_messages(content: &str) -> (r: JsonValue)
    ensures
        r matches JsonValue::Array(items) && items@.len() == 1 && is_text_message(
            items@[0],
            "user"@,
            content@,
        ),
{
    let mut items: Vec<JsonValue> = Vec::new();
    items.push(text_message("user", content));
    JsonValue::Array(items)
}

/// The empty JSON object.
pub fn empty_object() -> (r: JsonValue)
    ensures
        r matches JsonValue::Object(es) && es@.len() == 0,
{
    JsonValue::Object(Vec::new())
}

/// A value that `set_field` accepts: an object, or null, which becomes an object.
pub open spec fn can_set_field(v: JsonValue) -> bool {
    v is Object || v is Null
}

/// `r` is `obj` with member `key` set to `value`: the first member of that name gets the
/// new value in place; without one, the member is appended; null becomes a one-member object.
pub open spec fn set_field_spec(obj: JsonValue, key: Seq<char>, value: JsonValue, r: JsonValue) -> bool {
    match obj {
        JsonValue::Null => r matches JsonValue::Object(rs) && rs@.len() == 1 && member_is(
            rs@[0],
            key,
            value,
        ),
        JsonValue::Object(es) => r matches JsonValue::Object(rs) && ({
            ||| exists|i: int|
                0 <= i < es@.len() && (#[trigger] es@[i]).0@ == key && (forall|j: int|
                    0 <= j < i ==> (#[trigger] es@[j]).0@ != key) && rs@ == es@.update(
                    i,
                    (es@[i].0, value),
                )
            ||| (forall|j: int| 0 <= j < es@.len() ==> (#[trigger] es@[j]).0@ != key)
                && rs@.len() == es@.len() + 1 && rs@.take(es@.len() as int) == es@ && member_is(
                rs@.last(),
                key,
                value,
            )
        }),
        _ => false,
    }
}

/// Sets member `key` of an object to `value`, as indexing a JSON value with a key and
/// assigning to it does.
pub fn set_field(obj: JsonValue, key: &str, value: JsonValue) -> (r: JsonValue)
    requires
        can_set_field(obj),
    ensures
        set_field_spec(obj, key@, value, r),
{
    match obj {
        JsonValue::Object(es) => {
            let ghost old_es = es@;
            let mut es = es;
            let mut i: usize = 0;
            while i < es.len()
                invariant
                    i <= es@.len(),
                    es@ == old_es,
                    obj matches JsonValue::Object(e) && e@ == old_es,
                    forall|j: int| 0 <= j < i ==> (#[trigger] es@[j]).0@ != key@,
                decreases es@.len() - i,
            {
                if str_eq(es[i].0.as_str(), key) {
                    let name = es[i].0.clone();
                    es.set(i, (name, value));
                    assert(es@ == old_es.update(i as int, (old_es[i as int].0, value)));

                    return JsonValue::Object(es);
                }
                i = i + 1;
            }
            es.push(member(key, value));
            assert(es@.take(old_es.len() as int) =~= old_es);
            JsonValue::Object(es)
        },
        _ => {
            let mut es: Vec<(String, JsonValue)> = Vec::new();
            es.push(member(key, value));
            JsonValue::Object(es)
        },
    }
}


/// The first three members of a chat body: model, token limit and messages.
pub open spec fn chat_members_ok(
    es: Seq<(String, JsonValue)>,
    model: Seq<char>,
    max_tokens: u32,
    messages: JsonValue,
) -> bool {
    &&& str_member_is(es[0], "model"@, model)
    &&& member_is(es[1], "max_tokens"@, JsonValue::UInt(max_tokens as u64))
    &&& member_is(es[2], "messages"@, messages)
}

/// `v` is the array `items` with the turn `{"role": "system", "content": s}` in front.
pub open spec fn system_prepended(v: JsonValue, items: Seq<JsonValue>, s: Seq<char>) -> bool {
    v matches JsonValue::Array(turns) && turns@.len() == items.len() + 1 && is_text_message(
        turns@[0],
        "system"@,
        s,
    ) && turns@.drop_first() == items
}

/// The body of a chat request.
///
/// The Anthropic shape carries the system prompt as a top-level `system` member; the
/// OpenAI shape puts it in front of the messages as a `system` turn, which needs the
/// messages to be a JSON array.
pub open spec fn chat_body_ok(
    protocol: Protocol,
    model: Seq<char>,
    messages: JsonValue,
    system: Option<Seq<char>>,
    max_tokens: u32,
    r: Result<JsonValue, CliError>,
) -> bool {
    match protocol {
        Protocol::Anthropic => r matches Ok(JsonValue::Object(es)) && chat_members_ok(
            es@,
            model,
            max_tokens,
            messages,
        ) && match system {
            None => es@.len() == 3,
            Some(s) => es@.len() == 4 && str_member_is(es@[3], "system"@, s),
        },
        Protocol::Openai => match system {
            None => r matches Ok(JsonValue::Object(es)) && es@.len() == 3 && chat_members_ok(
                es@,
                model,
                max_tokens,
                messages,
            ),
            Some(s) => match messages {
                JsonValue::Array(items) => r matches Ok(JsonValue::Object(es)) && es@.len() == 3
                    && str_member_is(es@[0], "model"@, model) && member_is(
                    es@[1],
                    "max_tokens"@,
                    JsonValue::UInt(max_tokens as u64),
                ) && es@[2].0@ == "messages"@ && system_prepended(es@[2].1, items@, s),
                _ => r == Err::<JsonValue, CliError>(CliError::MessagesNotArray),
            },
        },
    }
}

/// Builds the body of a chat request for `protocol`.
pub fn chat_body(
    protocol: Protocol,
    model: &str,
    messages: JsonValue,
    system: Option<&str>,
    max_tokens: u32,
) -> (r: Result<JsonValue, CliError>)
    ensures
        chat_body_ok(
            protocol,
            model@,
            messages,
            crate::endpoint::opt_str_view(system),
            max_tokens,
            r,
        ),
{
    let ghost given = messages;
    let messages = match protocol {
        Protocol::Anthropic => messages,
        Protocol::Openai => match system {
            None => messages,
            Some(s) => match messages {
                JsonValue::Array(items) => {
                    let mut turns: Vec<JsonValue> = Vec::new();
                    turns.push(text_message("system", s));
                    let mut rest = items;
                    turns.append(&mut rest);
                    assert(turns@.drop_first() =~= given->Array_0@);
                    JsonValue::Array(turns)
                },
                _ => {
                    return Err(CliError::MessagesNotArray);
                },
            },
        },
    };
    let mut es: Vec<(String, JsonValue)> = Vec::new();
    es.push(member("model", str_value(model)));
    es.push(member("max_tokens", JsonValue::UInt(max_tokens as u64)));
    es.push(member("messages", messages));
    if let Protocol::Anthropic = protocol {
        if let Some(s) = system {
            es.push(member("system", str_value(s)));
        }
    }
    Ok(JsonValue::Object(es))
}


/// `key` names a member of the object `v`.
pub open spec fn has_member(v: JsonValue, key: Seq<char>) -> bool {
    v matches JsonValue::Object(es) && exists|i: int| 0 <= i < es@.len() && (#[trigger] es@[i]).0@ == key
}

/// `x` is the value of the first member of `v` named `key`.
pub open spec fn first_member_value(v: JsonValue, key: Seq<char>, x: JsonValue) -> bool {
    v matches JsonValue::Object(es) && exists|i: int|
        0 <= i < es@.len() && (#[trigger] es@[i]).0@ == key && es@[i].1 == x && forall|j: int|
            0 <= j < i ==> (#[trigger] es@[j]).0@ != key
}

impl JsonValue {
    /// The value of the first member named `key`, when this is an object that has one.
    pub fn get(&self, key: &str) -> (r: Option<&JsonValue>)
        ensures
            r is None <==> !has_member(*self, key@),
            r matches Some(x) ==> first_member_value(*self, key@, *x),
    {
        match self {
            JsonValue::Object(es) => {
                let mut i: usize = 0;
                while i < es.len()
                    invariant
                        i <= es@.len(),
                        self->Object_0 == *es,
                        *self is Object,
                        forall|j: int| 0 <= j < i ==> (#[trigger] es@[j]).0@ != key@,
                    decreases es@.len() - i,
                {
                    if str_eq(es[i].0.as_str(), key) {
                        assert(self->Object_0@[i as int].0@ == key@);
                        return Some(&es[i].1);
                    }
                    i = i + 1;
                }
                None
            },
            _ => None,
        }
    }

    /// The element at `index`, when this is an array that long.
    pub fn at(&self, index: usize) -> (r: Option<&JsonValue>)
        ensures
            (self matches JsonValue::Array(items) && index < items@.len()) ==> (r matches Some(x)
                && *x == self->Array_0@[index as int]),
            !(self matches JsonValue::Array(items) && index < items@.len()) ==> r is None,
    {
        match self {
            JsonValue::Array(items) => {
                if index < items.len() {
                    Some(&items[index])
                } else {
                    None
                }
            },
            _ => None,
        }
    }

    /// The text of a JSON string.
    pub fn as_str(&self) -> (r: Option<&str>)
        ensures
            (self matches JsonValue::Str(s)) ==> (r matches Some(t) && t@ == self->Str_0@),
            !(self is Str) ==> r is None,
    {
        match self {
            JsonValue::Str(s) => Some(s.as_str()),
            _ => None,
        }
    }
}

} // verus!
