//! Reading string members out of JSON response bodies.

use vstd::prelude::*;

verus! {

/// A parsed JSON value, opaque to the verifier.
#[verifier::external_type_specification]
#[verifier::external_body]
pub struct ExJsonValue(serde_json::Value);

/// The error of a failed JSON parse, opaque to the verifier.
#[verifier::external_type_specification]
#[verifier::external_body]
pub struct ExJsonError(serde_json::Error);

/// The string members of a parsed JSON value: each member name of the
/// top-level object whose value is a JSON string, mapped to that string.
/// Empty when the value is not an object.
pub uninterp spec fn json_members(doc: serde_json::Value) -> Map<Seq<char>, Seq<char>>;

/// The outcome of parsing `text` as one JSON value: `None` when the text is
/// rejected, otherwise the string members of the value it denotes.
pub uninterp spec fn json_document(text: Seq<char>) -> Option<Map<Seq<char>, Seq<char>>>;

/// The string member `key` of the JSON object that `body` denotes, if `body`
/// is JSON text, denotes an object, and the object has a string under `key`.
pub open spec fn json_text_field(body: Seq<char>, key: Seq<char>) -> Option<Seq<char>> {
    match json_document(body) {
        Some(members) => if members.contains_key(key) {
            Some(members[key])
        } else {
            None
        },
        None => None,
    }
}

/// Calls `serde_json::from_str` to parse `text` into a `serde_json::Value`.
///
/// Trusted: the parse is a function of the text alone, so its outcome is
/// `json_document(text@)`, the parsed value being taken by its string members.
#[verifier::external_body]
fn parse_document(text: &str) -> (parsed: Result<serde_json::Value, serde_json::Error>)
    ensures
        match parsed {
            Ok(doc) => json_document(text@) == Some(json_members(doc)),
            Err(_) => json_document(text@) is None,
        },
{
    serde_json::from_str::<serde_json::Value>(text)
}

/// Indexes `doc` by `key` and calls `serde_json::Value::as_str` on what is found.
///
/// Trusted: indexing by a string yields the member of that name when `doc` is
/// an object that has it and JSON null otherwise, and `as_str` yields the
/// text exactly when the value is a JSON string.
#[verifier::external_body]
fn string_member(doc: &serde_json::Value, key: &str) -> (found: Option<String>)
    ensures
        found.deep_view() == (if json_members(*doc).contains_key(key@) {
            Some(json_members(*doc)[key@])
        } else {
            None
        }),
{
    doc[key].as_str().map(str::to_owned)
}

/// Reads the string member `key` from the JSON text `body`.
///
/// A body that is not JSON reads like a body without the member.
pub fn text_field(body: &str, key: &str) -> (field: Option<String>)
    ensures
        field.deep_view() == json_text_field(body@, key@),
{
    match parse_document(body) {
        Ok(doc) => string_member(&doc, key),
        Err(_) => None,
    }
}

} // verus!
