//! What is read from JSON values: the polling interval and the code of a refused
//! refresh.
use crate::text;
use crate::text::parse_u64;
use vstd::prelude::*;

verus! {

/// A `serde_json::Value`.
#[verifier::external_type_specification]
#[verifier::external_body]
pub struct ExJsonValue(serde_json::Value);

/// The content of a JSON value. Of a number it keeps what an unsigned 64-bit
/// integer can hold.
pub enum JsonTree {
    Null,
    Bool(bool),
    Number(Option<u64>),
    Text(Seq<char>),
    List(Seq<JsonTree>),
    Object(Map<Seq<char>, JsonTree>),
}

/// The content of `value`.
pub uninterp spec fn json_tree(value: serde_json::Value) -> JsonTree;

/// What `serde_json::from_str` reads from `text`, and nothing where it fails.
pub uninterp spec fn json_text(text: Seq<char>) -> Option<JsonTree>;

/// `serde_json::from_str` for a `Value`: what it reads is a function of the text
/// alone.
#[verifier::external_body]
fn parse_json(text: &str) -> (result: Option<serde_json::Value>)
    ensures
        json_text(text@) == match result {
            Some(value) => Some(json_tree(value)),
            None => None,
        },
{
    serde_json::from_str(text).ok()
}

/// `serde_json::Value::get` with a text as the key: the member of that name of an
/// object, and nothing of any other value.
#[verifier::external_body]
fn json_member<'a>(value: &'a serde_json::Value, key: &str) -> (result: Option<
    &'a serde_json::Value,
>)
    ensures
        member(json_tree(*value), key@) == match result {
            Some(inner) => Some(json_tree(*inner)),
            None => None,
        },
{
    value.get(key)
}

/// `serde_json::Value::as_str`: the text of a JSON string, and nothing of any
/// other value.
#[verifier::external_body]
fn json_str(value: &serde_json::Value) -> (result: Option<&str>)
    ensures
        text::view_opt(result) == text_of(json_tree(*value)),
{
    value.as_str()
}

/// `serde_json::Value::as_u64`: the number of a JSON number that is an unsigned
/// 64-bit integer, and nothing of any other value.
#[verifier::external_body]
fn json_u64(value: &serde_json::Value) -> (result: Option<u64>)
    ensures
        result == number_of(json_tree(*value)),
{
    value.as_u64()
}

/// The member `key` of an object.
pub open spec fn member(tree: JsonTree, key: Seq<char>) -> Option<JsonTree> {
    match tree {
        JsonTree::Object(members) => if members.dom().contains(key) {
            Some(members[key])
        } else {
            None
        },
        _ => None,
    }
}

/// The text of a JSON string.
pub open spec fn text_of(tree: JsonTree) -> Option<Seq<char>> {
    match tree {
        JsonTree::Text(text) => Some(text),
        _ => None,
    }
}

/// The unsigned integer of a JSON number.
pub open spec fn number_of(tree: JsonTree) -> Option<u64> {
    match tree {
        JsonTree::Number(number) => number,
        _ => None,
    }
}

/// The text of the member `key`, where there is one and it is a string.
pub open spec fn text_member(tree: JsonTree, key: Seq<char>) -> Option<Seq<char>> {
    match member(tree, key) {
        Some(inner) => text_of(inner),
        None => None,
    }
}

/// The error code in the body of a refused refresh: the member `code` of the
/// object `error`, or `error` itself where it is a string, or else the top-level
/// member `code`; in lower case.
pub open spec fn error_code_in(body: JsonTree) -> Option<Seq<char>> {
    let nested = match member(body, "error"@) {
        Some(JsonTree::Text(code)) => Some(code),
        Some(error) => text_member(error, "code"@),
        None => None,
    };
    let code = match nested {
        Some(code) => Some(code),
        None => text_member(body, "code"@),
    };
    match code {
        Some(code) => Some(text::ascii_lowercase(code)),
        None => None,
    }
}

/// The error code that the reply `body` of a refused refresh carries.
pub open spec fn error_code_of(body: Option<JsonTree>) -> Option<Seq<char>> {
    match body {
        Some(tree) => error_code_in(tree),
        None => None,
    }
}

/// The text of the member `key` of `value`, where there is one and it is a
/// string.
fn json_text_member<'a>(value: &'a serde_json::Value, key: &str) -> (result: Option<&'a str>)
    ensures
        text::view_opt(result) == text_member(json_tree(*value), key@),
{
    match json_member(value, key) {
        Some(inner) => json_str(inner),
        None => None,
    }
}

/// The error code in `value`, the body of a refused refresh.
pub fn refresh_error_code_in(value: &serde_json::Value) -> (result: Option<String>)
    ensures
        text::view_opt(result) == error_code_in(json_tree(*value)),
{
    let nested: Option<&str> = match json_member(value, "error") {
        Some(error) => match json_str(error) {
            Some(code) => Some(code),
            None => json_text_member(error, "code"),
        },
        None => None,
    };
    let code: Option<&str> = match nested {
        Some(code) => Some(code),
        None => json_text_member(value, "code"),
    };
    match code {
        Some(code) => Some(code.to_ascii_lowercase()),
        None => None,
    }
}

/// The error code that the reply `body` of a refused refresh carries; nothing
/// where the body is no JSON.
pub fn extract_refresh_error_code(body: &str) -> (result: Option<String>)
    ensures
        text::view_opt(result) == error_code_of(json_text(body@)),
{
    match parse_json(body) {
        Some(value) => refresh_error_code_in(&value),
        None => None,
    }
}

/// The seconds between two polls where the server names none.
pub const DEFAULT_INTERVAL_SECS: u64 = 5;

/// The seconds that are added to the polling interval of the server.
pub const POLLING_SAFETY_MARGIN_SECS: u64 = 3;

/// The polling interval that the server asks for, in seconds: a number, or a
/// number in a string, and the default for anything else.
pub open spec fn requested_interval(value: Option<JsonTree>) -> u64 {
    let number = match value {
        Some(JsonTree::Number(number)) => number,
        Some(JsonTree::Text(text)) => text::decimal_u64(text),
        _ => None,
    };
    match number {
        Some(seconds) => seconds,
        None => DEFAULT_INTERVAL_SECS,
    }
}

/// The polling interval that is kept, in seconds: at least one second and the
/// safety margin.
pub open spec fn kept_interval(value: Option<JsonTree>) -> int {
    let requested = requested_interval(value);
    (if requested < 1 {
        1
    } else {
        requested as int
    }) + POLLING_SAFETY_MARGIN_SECS
}

/// The content of an optional JSON value.
pub open spec fn json_tree_opt(value: Option<&serde_json::Value>) -> Option<JsonTree> {
    match value {
        Some(value) => Some(json_tree(*value)),
        None => None,
    }
}

/// The polling interval that `value` asks for, in seconds.
fn read_interval(value: Option<&serde_json::Value>) -> (result: u64)
    ensures
        result == requested_interval(json_tree_opt(value)),
{
    let number: Option<u64> = match value {
        Some(inner) => match json_u64(inner) {
            Some(seconds) => Some(seconds),
            None => match json_str(inner) {
                Some(text) => parse_u64(text),
                None => None,
            },
        },
        None => None,
    };
    match number {
        Some(seconds) => seconds,
        None => DEFAULT_INTERVAL_SECS,
    }
}

/// The seconds to wait between two polls, for the interval `value` that the
/// server sent.
pub fn parse_interval(value: Option<&serde_json::Value>) -> (result: u64)
    requires
        kept_interval(json_tree_opt(value)) <= u64::MAX,
    ensures
        result == kept_interval(json_tree_opt(value)),
{
    let requested: u64 = read_interval(value);
    let at_least_one: u64 = if requested < 1 {
        1
    } else {
        requested
    };
    at_least_one + POLLING_SAFETY_MARGIN_SECS
}

/// The seconds to wait between two polls, where they fit into 64 bits.
pub fn parse_interval_checked(value: Option<&serde_json::Value>) -> (result: Option<u64>)
    ensures
        result == if kept_interval(json_tree_opt(value)) <= u64::MAX {
            Some(kept_interval(json_tree_opt(value)) as u64)
        } else {
            None
        },
{
    if read_interval(value) <= u64::MAX - POLLING_SAFETY_MARGIN_SECS {
        Some(parse_interval(value))
    } else {
        None
    }
}

} // verus!
