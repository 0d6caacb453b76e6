//! Checking that a text is a JSON document, with `serde_json`.

use vstd::prelude::*;
use crate::error::{EdmsError, EdmsResult};

verus! {

#[verifier::external_type_specification]
#[verifier::external_body]
pub struct ExJsonValue(serde_json::Value);

/// Whether `serde_json` accepts a text as a JSON document.
pub uninterp spec fn spec_json_accepts(text: Seq<char>) -> bool;

/// The message of the error that `serde_json` reports for a text that is not
/// a JSON document (its `Display` text: what went wrong, and where).
pub uninterp spec fn spec_json_error_text(text: Seq<char>) -> Seq<char>;

/// The `key` field of the JSON document `text` when that field is a string:
/// `None` when the document is not an object, lacks the field, or the field
/// holds another kind of value.
pub uninterp spec fn spec_json_str_field(text: Seq<char>, key: Seq<char>) -> Option<Seq<char>>;

/// Calls `serde_json::from_str::<serde_json::Value>`, and `to_string` on its
/// error. Trusted: the parse succeeds exactly when [`spec_json_accepts`]
/// holds of the text, and a failure's message is [`spec_json_error_text`] of
/// the text; both depend on the text alone. Nothing is claimed of the value.
#[verifier::external_body]
fn parse_json_value(input: &str) -> (r: Result<serde_json::Value, String>)
    ensures
        r is Ok <==> spec_json_accepts(input@),
        r is Err ==> r->Err_0@ == spec_json_error_text(input@),
{
    match serde_json::from_str::<serde_json::Value>(input) {
        Ok(v) => Ok(v),
        Err(e) => Err(e.to_string()),
    }
}

/// Parses `input` with `serde_json::from_str::<serde_json::Value>` and reads
/// the field `key` with `value[key].as_str()`. Trusted: the result is `None`
/// exactly when the text is not accepted (see [`spec_json_accepts`]), and
/// otherwise holds [`spec_json_str_field`] of the text and the key, owned.
#[verifier::external_body]
pub(crate) fn json_str_field(input: &str, key: &str) -> (r: Option<Option<String>>)
    ensures
        r is Some <==> spec_json_accepts(input@),
        r is Some ==> (match r->Some_0 {
            Some(f) => spec_json_str_field(input@, key@) == Some(f@),
            None => spec_json_str_field(input@, key@) is None,
        }),
{
    match serde_json::from_str::<serde_json::Value>(input) {
        Ok(v) => Some(v[key].as_str().map(|f| f.to_string())),
        Err(_) => None,
    }
}

/// Parses a JSON document; a text that is not one is `InvalidJson` with the
/// parser's message.
pub fn is_valid_json(input: &str) -> (r: EdmsResult<serde_json::Value>)
    ensures
        r is Ok <==> spec_json_accepts(input@),
        r is Err ==> r->Err_0 is InvalidJson && r->Err_0->InvalidJson_0@ == spec_json_error_text(input@),
{
    match parse_json_value(input) {
        Ok(v) => Ok(v),
        Err(msg) => Err(EdmsError::InvalidJson(msg)),
    }
}

/// `0` when the text is a JSON document, `-1` otherwise.
pub fn check_json_format(input: &str) -> (code: i32)
    ensures
        code == (if spec_json_accepts(input@) { 0i32 } else { -1i32 }),
{
    match is_valid_json(input) {
        Ok(_) => 0,
        Err(_) => -1,
    }
}

/// Parses the JSON document read from a file: a failed read stays an error,
/// a read text is parsed.
pub fn is_valid_json_file(contents: EdmsResult<String>) -> (r: EdmsResult<serde_json::Value>)
    ensures
        contents is Err ==> r == Err::<serde_json::Value, EdmsError>(contents->Err_0),
        contents is Ok ==> (r is Ok <==> spec_json_accepts(contents->Ok_0@)),
        contents is Ok && r is Err ==> r->Err_0 is InvalidJson
            && r->Err_0->InvalidJson_0@ == spec_json_error_text(contents->Ok_0@),
{
    match contents {
        Ok(text) => is_valid_json(text.as_str()),
        Err(e) => Err(e),
    }
}

/// `0` when the file was read and holds a JSON document, `-1` otherwise.
pub fn check_json_file_format(contents: EdmsResult<String>) -> (code: i32)
    ensures
        code == (if contents is Ok && spec_json_accepts(contents->Ok_0@) { 0i32 } else { -1i32 }),
{
    match is_valid_json_file(contents) {
        Ok(_) => 0,
        Err(_) => -1,
    }
}

} // verus!
