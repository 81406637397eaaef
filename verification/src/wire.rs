//! Bytes to JSON values, through serde_json.
//!
//! The one place the library trusts an outside parser: a response body is
//! handed to serde_json and its value tree is converted, variant by variant,
//! into the library's own [`Json`]. Everything after that point is verified
//! against [`json_of`], the name given to what the parser computes.

use vstd::prelude::*;

use crate::json::{Json, JsonV};

verus! {

/// The JSON value that a byte sequence parses to, or nothing when the bytes
/// are no valid JSON document: what serde_json computes from the bytes
/// alone (integers that fit `i64` as integers, any other numeric literal as
/// its decimal text, object keys in the order serde_json yields them).
pub uninterp spec fn json_of(bytes: Seq<u8>) -> Option<JsonV>;

#[verifier::external_type_specification]
#[verifier::external_body]
pub struct ExValue(serde_json::Value);

/// Relies on serde_json's value model: converts a parsed value into the
/// library's tree, one variant at a time, moving fields only.
#[verifier::external_body]
fn value_to_json(v: serde_json::Value) -> Json {
    match v {
        serde_json::Value::Null => Json::Null,
        serde_json::Value::Bool(b) => Json::Bool(b),
        serde_json::Value::Number(n) => match n.as_i64() {
            Some(i) => Json::Int(i),
            None => Json::Num(n.to_string()),
        },
        serde_json::Value::String(s) => Json::Str(s),
        serde_json::Value::Array(a) => Json::Arr(a.into_iter().map(value_to_json).collect()),
        serde_json::Value::Object(m) => {
            Json::Obj(m.into_iter().map(|p| (p.0, value_to_json(p.1))).collect())
        },
    }
}

/// Relies on serde_json::from_slice: parses one JSON document from a byte
/// buffer. The result is a function of the bytes alone, named [`json_of`];
/// on invalid JSON the parser's message is returned.
#[verifier::external_body]
pub fn parse_json(bytes: &[u8]) -> (r: Result<Json, String>)
    ensures
        (r is Ok) == (json_of(bytes@) is Some),
        r matches Ok(j) ==> json_of(bytes@) == Some(j@),
{
    match serde_json::from_slice::<serde_json::Value>(bytes) {
        Ok(v) => Ok(value_to_json(v)),
        Err(e) => Err(e.to_string()),
    }
}

} // verus!
