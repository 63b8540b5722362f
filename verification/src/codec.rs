//! JSON text, read and written by `serde_json`.
//!
//! Nothing here is proved: the parser and the printer are `serde_json`'s.
//! Their results are given names, `json_parse` and `json_text`, and the rest
//! of the crate states what it does with them.

use crate::json::{Json, JsonNumber, JsonView};
use serde_json::Value as Document;
use vstd::prelude::*;

verus! {

/// `serde_json::Value`, of which nothing is known here: it is what the
/// parser gives and the printer takes.
#[verifier::external_type_specification]
#[verifier::external_body]
pub struct ExDocument(serde_json::Value);

/// The document that `serde_json::from_slice` reads from `text`, or `None`
/// where it rejects the text.
pub uninterp spec fn json_parse(text: Seq<u8>) -> Option<JsonView>;

/// The text that `serde_json::to_vec` writes for `doc`, or `None` where it
/// reports an error.
pub uninterp spec fn json_text(doc: JsonView) -> Option<Seq<u8>>;

/// Moves a `serde_json::Value` into a `Json`, variant by variant. A number
/// for which `Number::as_u64` or `Number::as_i64` has a value becomes that
/// integer; any other number is kept as it is.
#[verifier::external_body]
fn import(doc: Document) -> Json {
    match doc {
        Document::Null => Json::Null,
        Document::Bool(b) => Json::Bool(b),
        Document::Number(n) => Json::Number(match (n.as_u64(), n.as_i64()) {
            (Some(u), _) => JsonNumber::PosInt(u),
            (None, Some(i)) => JsonNumber::NegInt(i),
            (None, None) => JsonNumber::Float(n),
        }),
        Document::String(s) => Json::String(s),
        Document::Array(a) => Json::Array(a.into_iter().map(import).collect()),
        Document::Object(m) => Json::Object(
            m.into_iter().map(|(k, v)| (k, import(v))).collect(),
        ),
    }
}

/// Builds the `serde_json::Value` that stands for a `Json`, variant by
/// variant. The members of an object are collected into a `serde_json::Map`
/// in their order.
#[verifier::external_body]
fn export(doc: &Json) -> Document {
    match doc {
        Json::Null => Document::Null,
        Json::Bool(b) => Document::Bool(*b),
        Json::Number(JsonNumber::PosInt(u)) => Document::from(*u),
        Json::Number(JsonNumber::NegInt(i)) => Document::from(*i),
        Json::Number(JsonNumber::Float(n)) => Document::Number(n.clone()),
        Json::String(s) => Document::String(s.clone()),
        Json::Array(a) => Document::Array(a.iter().map(export).collect()),
        Json::Object(m) => Document::Object(
            m.iter().map(|(k, v)| (k.clone(), export(v))).collect(),
        ),
    }
}

/// Calls `serde_json::from_slice` for a `serde_json::Value`. On success the
/// document is the one that `json_parse` names; on failure the text of
/// `serde_json`'s error is returned and `json_parse` has no value.
#[verifier::external_body]
pub(crate) fn parse(text: &[u8]) -> (r: Result<Json, String>)
    ensures
        json_parse(text@) == (match r {
            Ok(doc) => Some(doc@),
            Err(_) => None,
        }),
{
    serde_json::from_slice::<Document>(text).map(import).map_err(|e| e.to_string())
}

/// Calls `serde_json::to_vec` on the `serde_json::Value` that stands for
/// `doc`. On success the bytes are those that `json_text` names; on failure
/// the text of `serde_json`'s error is returned and `json_text` has no value.
#[verifier::external_body]
pub(crate) fn print(doc: &Json) -> (r: Result<Vec<u8>, String>)
    ensures
        json_text(doc@) == (match r {
            Ok(text) => Some(text@),
            Err(_) => None,
        }),
{
    serde_json::to_vec(&export(doc)).map_err(|e| e.to_string())
}

} // verus!
