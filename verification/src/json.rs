//! Reading members of a JSON object, by way of `serde_json`.
//!
//! A document is parsed once into a `serde_json::Value`. Of such a value
//! this library reads two kinds of members: strings, and arrays of bytes.

use vstd::prelude::*;
use serde_json::Value;

verus! {

/// `serde_json::Value`, known here only by the members named below.
#[verifier::external_type_specification]
#[verifier::external_body]
pub struct ExJsonValue(serde_json::Value);

/// `serde_json::Error`, of which nothing is read.
#[verifier::external_type_specification]
#[verifier::external_body]
pub struct ExJsonError(serde_json::Error);

/// The string members of a JSON value: where the value is an object, each
/// key whose member is a string, with that string. Empty where the value is
/// no object.
pub uninterp spec fn json_texts(value: Value) -> Map<Seq<char>, Seq<char>>;

/// The byte-array members of a JSON value: where the value is an object,
/// each key whose member is an array of integers from 0 to 255, with those
/// integers as bytes. Empty where the value is no object.
pub uninterp spec fn json_byte_arrays(value: Value) -> Map<Seq<char>, Seq<u8>>;

/// What this library reads of a JSON document.
pub ghost struct JsonMembers {
    /// The string members, by key.
    pub texts: Map<Seq<char>, Seq<char>>,
    /// The byte-array members, by key.
    pub byte_arrays: Map<Seq<char>, Seq<u8>>,
}

/// The members of the value that `serde_json` parses the document `doc`
/// into, if it accepts the document.
///
/// This is what `serde_json` makes of the document; it is not defined here.
pub uninterp spec fn json_document(doc: Seq<u8>) -> Option<JsonMembers>;

/// The members of a parse outcome.
pub open spec fn parsed_members(r: Result<Value, serde_json::Error>) -> Option<JsonMembers> {
    match r {
        Ok(value) => Some(
            JsonMembers { texts: json_texts(value), byte_arrays: json_byte_arrays(value) },
        ),
        Err(_) => None,
    }
}

/// The member `key` of `members`, if there is one.
pub open spec fn member<T>(members: Map<Seq<char>, T>, key: Seq<char>) -> Option<T> {
    if members.contains_key(key) {
        Some(members[key])
    } else {
        None
    }
}

/// The content of an optional text.
pub open spec fn text_view(text: Option<&str>) -> Option<Seq<char>> {
    match text {
        Some(t) => Some(t@),
        None => None,
    }
}

/// The content of an optional byte vector.
pub open spec fn bytes_view(bytes: Option<Vec<u8>>) -> Option<Seq<u8>> {
    match bytes {
        Some(b) => Some(b@),
        None => None,
    }
}

/// Calls `serde_json::from_slice` for a `serde_json::Value`.
///
/// The contract claims only that the outcome is a function of the document,
/// named [`json_document`]: whether the document is accepted, and which
/// members the value then has.
#[verifier::external_body]
pub(crate) fn parse_json(doc: &[u8]) -> (r: Result<Value, serde_json::Error>)
    ensures
        parsed_members(r) == json_document(doc@),
{
    serde_json::from_slice(doc)
}

/// Indexes `value` by `key` and reads the result with `Value::as_str`.
///
/// Indexing by a string yields null where the value is no object or has no
/// such member, and `as_str` yields a text for a string and nothing for
/// anything else: so the outcome is the string member `key`, if there is
/// one.
#[verifier::external_body]
pub(crate) fn text_member<'a>(value: &'a Value, key: &str) -> (r: Option<&'a str>)
    ensures
        text_view(r) == member(json_texts(*value), key@),
{
    value[key].as_str()
}

/// Indexes `value` by `key` and converts a copy of the result into a byte
/// vector with `serde_json::from_value`.
///
/// Indexing by a string yields null where the value is no object or has no
/// such member, and the conversion accepts an array of integers from 0 to
/// 255 and nothing else: so the outcome is the byte-array member `key`, if
/// there is one.
#[verifier::external_body]
pub(crate) fn byte_array_member(value: &Value, key: &str) -> (r: Option<Vec<u8>>)
    ensures
        bytes_view(r) == member(json_byte_arrays(*value), key@),
{
    serde_json::from_value::<Vec<u8>>(value[key].clone()).ok()
}

} // verus!
