//! The JSON codec, as far as the store relies on it.
//!
//! A collection is a `serde_json::Value` that the store carries and never looks
//! into. Nothing in this file is proved: each contract below is a statement
//! about `serde_json`, believed as written.

use serde_json::{Error, Value};
use vstd::prelude::*;

verus! {

/// `serde_json::Value`, any JSON value. Opaque here: it is carried, compared
/// in contracts, and handed to the codec.
#[verifier::external_type_specification]
#[verifier::external_body]
pub struct ExValue(serde_json::Value);

/// `serde_json::Error`, what the codec reports when it fails. Opaque here: the
/// store only asks for its text.
#[verifier::external_type_specification]
#[verifier::external_body]
pub struct ExError(serde_json::Error);

/// What `serde_json::from_str::<Value>` returns for `text`.
pub uninterp spec fn json_parse(text: Seq<char>) -> Result<Value, Error>;

/// What `serde_json::to_string_pretty` returns for `value`.
pub uninterp spec fn json_pretty(value: Value) -> Result<Seq<char>, Error>;

/// What the `Display` impl of `serde_json::Error` prints for `error`.
pub uninterp spec fn json_error_text(error: Error) -> Seq<char>;

/// Calls `serde_json::from_str` at type `Value`. The result depends on the
/// text alone, so it is `json_parse` of the text.
#[verifier::external_body]
pub(crate) fn parse_json(text: &str) -> (parsed: Result<Value, Error>)
    ensures
        parsed == json_parse(text@),
{
    serde_json::from_str(text)
}

/// Calls `serde_json::to_string_pretty`. The result depends on the value
/// alone, so it is `json_pretty` of the value: the same text, or the same
/// error.
#[verifier::external_body]
pub(crate) fn pretty_json(value: &Value) -> (printed: Result<String, Error>)
    ensures
        match printed {
            Ok(text) => json_pretty(*value) matches Ok(named) && named == text@,
            Err(error) => json_pretty(*value) matches Err(named) && named == error,
        },
{
    serde_json::to_string_pretty(value)
}

/// Calls `to_string` on a `serde_json::Error`, which prints it through its
/// `Display` impl: the message, followed by line and column where it has them.
/// The errors met in this crate come from parsing text and from printing into
/// memory, so none of them wraps an error of the operating system.
#[verifier::external_body]
pub(crate) fn error_message(error: &Error) -> (message: String)
    ensures
        message@ == json_error_text(*error),
{
    error.to_string()
}

/// Builds `Value::Array` over an empty vector. It is the value that the text
/// `[]` parses to.
#[verifier::external_body]
pub(crate) fn empty_array() -> (empty: Value)
    ensures
        json_parse("[]"@) == (Ok::<Value, Error>(empty)),
{
    Value::Array(Vec::new())
}

} // verus!
