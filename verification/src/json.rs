//! What the loader knows of a parsed JSON document. The document is parsed
//! by `serde_json`; its values are read through the functions of this file.

use serde_json::Value;
use vstd::prelude::*;

verus! {

/// `serde_json::Value`: a JSON value. Nothing of its inside is known but
/// through the functions below.
#[verifier::external_type_specification]
#[verifier::external_body]
pub struct ExValue(serde_json::Value);

/// `serde_json::Error`: why a text could not be parsed.
#[verifier::external_type_specification]
#[verifier::external_body]
pub struct ExJsonError(serde_json::Error);

/// What parsing a text as JSON gives: the value, where the text is JSON,
/// and the parser's error, where it is not.
pub uninterp spec fn json_parsed(text: Seq<char>) -> Result<Value, serde_json::Error>;

/// The line at which a parser's error was detected, counted from 1.
pub uninterp spec fn json_error_line(e: serde_json::Error) -> usize;

/// The column at which a parser's error was detected.
pub uninterp spec fn json_error_column(e: serde_json::Error) -> usize;

/// A parser's error in words, as it displays itself.
pub uninterp spec fn json_error_message(e: serde_json::Error) -> Seq<char>;

/// The characters of a JSON string; `None` for a value of another kind.
pub uninterp spec fn json_text(v: Value) -> Option<Seq<char>>;

/// The truth value of a JSON boolean; `None` for a value of another kind.
pub uninterp spec fn json_flag(v: Value) -> Option<bool>;

/// The elements of a JSON array, in order; `None` for a value of another
/// kind.
pub uninterp spec fn json_elements(v: Value) -> Option<Seq<Value>>;

/// The member of a JSON object under a key; `None` where the object has no
/// such member, and for a value that is no object.
pub uninterp spec fn json_member(v: Value, key: Seq<char>) -> Option<Value>;

/// Whether a value is JSON's `null`.
pub uninterp spec fn json_is_null(v: Value) -> bool;

/// `serde_json::from_str` at the type `Value`: parses a text as one JSON
/// value. Whether it succeeds, the value, and the error depend on the text
/// alone.
#[verifier::external_body]
pub(crate) fn parse_value(text: &str) -> (outcome: Result<Value, serde_json::Error>)
    ensures
        outcome == json_parsed(text@),
{
    serde_json::from_str::<Value>(text)
}

/// `Value::as_str`: the string slice of a string value, `None` otherwise.
#[verifier::external_body]
pub(crate) fn value_text<'a>(v: &'a Value) -> (text: Option<&'a str>)
    ensures
        text is Some <==> json_text(*v) is Some,
        text is Some ==> Some(text->Some_0@) == json_text(*v),
{
    v.as_str()
}

/// `Value::as_bool`: the truth value of a boolean, `None` otherwise.
#[verifier::external_body]
pub(crate) fn value_flag(v: &Value) -> (flag: Option<bool>)
    ensures
        flag == json_flag(*v),
{
    v.as_bool()
}

/// `Value::as_array`: the vector of an array value, `None` otherwise.
#[verifier::external_body]
pub(crate) fn value_elements<'a>(v: &'a Value) -> (elements: Option<&'a Vec<Value>>)
    ensures
        elements is Some <==> json_elements(*v) is Some,
        elements is Some ==> Some(elements->Some_0@) == json_elements(*v),
{
    v.as_array()
}

/// `Value::get` with a string index: the member of an object under `key`,
/// `None` where there is none or the value is no object.
#[verifier::external_body]
pub(crate) fn value_member<'a>(v: &'a Value, key: &str) -> (member: Option<&'a Value>)
    ensures
        member is Some <==> json_member(*v, key@) is Some,
        member is Some ==> Some(*member->Some_0) == json_member(*v, key@),
{
    v.get(key)
}

/// `Value::is_null`: whether the value is `null`.
#[verifier::external_body]
pub(crate) fn value_is_null(v: &Value) -> (null: bool)
    ensures
        null == json_is_null(*v),
{
    v.is_null()
}

/// `serde_json::Error::line`: the line at which parsing failed, from 1.
#[verifier::external_body]
pub(crate) fn error_line(e: &serde_json::Error) -> (line: usize)
    ensures
        line == json_error_line(*e),
{
    e.line()
}

/// `serde_json::Error::column`: the column at which parsing failed.
#[verifier::external_body]
pub(crate) fn error_column(e: &serde_json::Error) -> (column: usize)
    ensures
        column == json_error_column(*e),
{
    e.column()
}

/// The error in words, as `serde_json::Error` displays itself.
#[verifier::external_body]
pub(crate) fn error_message(e: &serde_json::Error) -> (message: String)
    ensures
        message@ == json_error_message(*e),
{
    e.to_string()
}

} // verus!
