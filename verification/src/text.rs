//! JSON text, read and written by `serde_json`.
//!
//! What stands here with a body that is not verified is trusted: each such
//! function says what `serde_json` is relied on to do and leaves the work to
//! it. The rest of the crate relies on one thing only: that the three
//! results named below depend on nothing but their arguments.

use vstd::prelude::*;
use serde_json::{from_slice, from_str, to_string, Value};
use crate::json::{Json, JsonValue, Object};
use crate::number::NumberKind;

verus! {

/// `serde_json::Value`: what `serde_json` reads text into and writes text
/// from. Verified code never holds one.
#[verifier::external_type_specification]
#[verifier::external_body]
pub struct ExValue(Value);

/// The document that `serde_json::from_str` reads from `text`, or `None`
/// where it rejects the text.
pub uninterp spec fn parsed_text(text: Seq<char>) -> Option<JsonValue>;

/// The document that `serde_json::from_slice` reads from `bytes`, or `None`
/// where it rejects them.
pub uninterp spec fn parsed_bytes(bytes: Seq<u8>) -> Option<JsonValue>;

/// The text that `serde_json::to_string` writes for `document`, or `None`
/// where it reports an error.
pub uninterp spec fn printed_text(document: JsonValue) -> Option<Seq<char>>;

/// Turns a `serde_json::Value` into a [`Json`], variant by variant. A number
/// that `as_u64` gives is a `PosInt`, one that only `as_i64` gives is a
/// `NegInt`, and any other is the text that `serde_json` prints for it; the
/// number is made of these by [`Json::number`]. The members of an object
/// are put in by [`Object::from_members`], in the order in which
/// `serde_json` hands them out.
#[verifier::external_body]
fn document_of(value: Value) -> Json {
    match value {
        Value::Null => Json::Null,
        Value::Bool(b) => Json::Bool(b),
        Value::Number(n) => Json::number(match (n.as_u64(), n.as_i64()) {
            (Some(u), _) => NumberKind::PosInt(u),
            (None, Some(i)) => NumberKind::NegInt(i),
            (None, None) => NumberKind::Float(n.to_string()),
        }),
        Value::String(s) => Json::String(s),
        Value::Array(a) => Json::Array(a.into_iter().map(document_of).collect()),
        Value::Object(o) => Json::Object(
            Object::from_members(o.into_iter().map(|(k, v)| (k, document_of(v))).collect()),
        ),
    }
}

/// Turns a [`Json`] into a `serde_json::Value`, variant by variant. The text
/// of a `Float` is read back with `serde_json::from_str`; where that rejects
/// the text, as it does for a number beyond its range, the value is `null`,
/// as `serde_json` has it for a float that JSON cannot hold.
#[verifier::external_body]
fn value_of(document: &Json) -> Value {
    match document {
        Json::Null => Value::Null,
        Json::Bool(b) => Value::Bool(*b),
        Json::Number(n) => match n.kind() {
            NumberKind::PosInt(u) => Value::from(*u),
            NumberKind::NegInt(i) => Value::from(*i),
            NumberKind::Float(t) => from_str(t).map_or(Value::Null, Value::Number),
        },
        Json::String(s) => Value::String(s.clone()),
        Json::Array(a) => Value::Array(a.iter().map(value_of).collect()),
        Json::Object(o) => Value::Object(
            o.members().iter().map(|m| (m.0.clone(), value_of(&m.1))).collect(),
        ),
    }
}

/// `serde_json::from_str`, asked for a whole document. The document that
/// comes back, or the refusal, depends on the text alone.
#[verifier::external_body]
pub(crate) fn read_str(input: &str) -> (r: Option<Json>)
    ensures
        match r {
            Some(document) => parsed_text(input@) == Some(document@),
            None => parsed_text(input@) is None,
        },
{
    from_str::<Value>(input).ok().map(document_of)
}

/// `serde_json::from_slice`, asked for a whole document. The document that
/// comes back, or the refusal, depends on the bytes alone.
#[verifier::external_body]
pub(crate) fn read_slice(input: &[u8]) -> (r: Option<Json>)
    ensures
        match r {
            Some(document) => parsed_bytes(input@) == Some(document@),
            None => parsed_bytes(input@) is None,
        },
{
    from_slice::<Value>(input).ok().map(document_of)
}

/// `serde_json::to_string`. The text that comes back, or the error, depends
/// on the document alone.
#[verifier::external_body]
pub(crate) fn write_string(document: &Json) -> (r: Option<String>)
    ensures
        match r {
            Some(text) => printed_text(document@) == Some(text@),
            None => printed_text(document@) is None,
        },
{
    to_string(&value_of(document)).ok()
}

impl Json {
    /// Reads a document from JSON text; `None` where the text is no JSON.
    pub fn parse(input: &str) -> (r: Option<Json>)
        ensures
            match r {
                Some(document) => parsed_text(input@) == Some(document@),
                None => parsed_text(input@) is None,
            },
    {
        read_str(input)
    }

    /// Writes the document as JSON text; `None` where it cannot be written.
    pub fn to_text(&self) -> (r: Option<String>)
        ensures
            match r {
                Some(text) => printed_text(self@) == Some(text@),
                None => printed_text(self@) is None,
            },
    {
        write_string(self)
    }
}

} // verus!
