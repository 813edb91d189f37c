//! The trusted boundary to the JSON parser crate.
//!
//! Parsing a frame's text and printing a document back are the two jobs the
//! library leaves to serde_json. Each call stands behind a small wrapper whose
//! contract ties it to the names below; everything above this file is
//! verified against those contracts. The parser crate is built with its
//! order-preserving map, so a document's fields keep their wire order.

use vstd::prelude::*;

use crate::json::{renderable, JsonValue, SpecJson};
use serde_json::Value as RawJson;

verus! {

#[verifier::external_type_specification]
#[verifier::external_body]
pub struct ExRawJson(RawJson);

/// What a parser-crate value holds, read as the library's own tree: the model
/// that `tree_of_value` extracts. A number in `i64` range reads as `Int`; any
/// other number reads as `Real` of its decimal text.
pub uninterp spec fn value_model(v: RawJson) -> SpecJson;

/// What `serde_json::from_str` parses a given text to, under `value_model`:
/// `None` where the text is not one valid JSON document.
pub uninterp spec fn json_doc_of(text: Seq<char>) -> Option<SpecJson>;

/// The text `serde_json::to_string` prints for a value of the given model.
/// With the order-preserving map, integers against `i64`, and `Real` kept as
/// printed text, the printed text depends on the model alone.
pub uninterp spec fn json_text_of(doc: SpecJson) -> Seq<char>;

/// Relies on `serde_json::from_str::<serde_json::Value>`: parses the text as
/// one JSON document; the result is a function of the text alone.
#[verifier::external_body]
fn parse_document(text: &str) -> (r: Option<RawJson>)
    ensures
        match r {
            Some(v) => json_doc_of(text@) == Some(value_model(v)),
            None => json_doc_of(text@) is None,
        },
{
    serde_json::from_str::<RawJson>(text).ok()
}

/// Relies on `serde_json::Value` reading one variant at a time: rebuilds the
/// value as the library's own tree, one arm per variant, fields in order.
/// This arm-for-arm read is what fixes the meaning of `value_model`.
#[verifier::external_body]
fn tree_of_value(v: &RawJson) -> (r: JsonValue)
    ensures
        r@ == value_model(*v),
{
    match v {
        RawJson::Null => JsonValue::Null,
        RawJson::Bool(b) => JsonValue::Bool(*b),
        RawJson::Number(n) => match n.as_i64() {
            Some(i) => JsonValue::Int(i),
            None => JsonValue::Real(n.to_string()),
        },
        RawJson::String(s) => JsonValue::Str(s.clone()),
        RawJson::Array(items) => JsonValue::Arr(items.iter().map(tree_of_value).collect()),
        RawJson::Object(fields) => JsonValue::Obj(
            fields.iter().map(|(k, f)| (k.clone(), tree_of_value(f))).collect(),
        ),
    }
}

/// Relies on `serde_json::Value`'s constructors (and `Number::from_str` for a
/// `Real` text): builds the value whose model is the given tree. The claim is
/// made only for a `renderable` tree: a `Real` text is not re-checked against
/// the number it parses to, and a repeated object key would collapse in the
/// map.
#[verifier::external_body]
fn value_of_tree(t: &JsonValue) -> (r: Option<RawJson>)
    ensures
        match r {
            Some(v) => renderable(t@) ==> value_model(v) == t@,
            None => !renderable(t@),
        },
{
    Some(match t {
        JsonValue::Null => RawJson::Null,
        JsonValue::Bool(b) => RawJson::Bool(*b),
        JsonValue::Int(i) => RawJson::Number((*i).into()),
        JsonValue::Real(s) => RawJson::Number(s.parse().ok()?),
        JsonValue::Str(s) => RawJson::String(s.clone()),
        JsonValue::Arr(items) => RawJson::Array(
            items.iter().map(value_of_tree).collect::<Option<_>>()?,
        ),
        JsonValue::Obj(fields) => RawJson::Object(
            fields.iter().map(|(k, f)| Some((k.clone(), value_of_tree(f)?))).collect::<
                Option<_>,
            >()?,
        ),
    })
}

/// Relies on `serde_json::to_string`: prints the document. Printing a tree
/// value cannot fail (its maps have string keys and its numbers are finite),
/// and the text depends on the value's model alone.
#[verifier::external_body]
fn render_document(v: &RawJson) -> (r: String)
    ensures
        r@ == json_text_of(value_model(*v)),
{
    match serde_json::to_string(v) {
        Ok(s) => s,
        Err(_) => String::new(),
    }
}

/// Parses one frame's text into the library's tree.
pub fn parse_json_text(text: &str) -> (r: Option<JsonValue>)
    ensures
        match r {
            Some(t) => json_doc_of(text@) == Some(t@),
            None => json_doc_of(text@) is None,
        },
{
    match parse_document(text) {
        Some(v) => Some(tree_of_value(&v)),
        None => None,
    }
}

/// Prints one document as frame text. Succeeds, with the printed text pinned,
/// on every `renderable` tree; the envelope encoders only build such trees.
pub fn render_json_text(t: &JsonValue) -> (r: Option<String>)
    ensures
        renderable(t@) ==> (r matches Some(s) && s@ == json_text_of(t@)),
{
    match value_of_tree(t) {
        Some(v) => Some(render_document(&v)),
        None => None,
    }
}

} // verus!
