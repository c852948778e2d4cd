//! Construction of the update documents the gateway sends to the document
//! driver: `{"$set": payload}` and `{"$rename": payload}` and
//! `{"$inc": payload}` from a request body, `{"$pop": {field: 1 | -1}}` and
//! `{"$push": {field: payload}}` for the array operations.

use vstd::prelude::*;
use crate::json::{JsonVal, spec_lookup, take_key};
use crate::payload::PayloadError;

verus! {

/// `u` is the one-entry object `{key: payload}`.
pub open spec fn spec_operator_doc(u: JsonVal, key: Seq<char>, payload: JsonVal) -> bool {
    match u {
        JsonVal::Obj(entries) => entries@.len() == 1 && entries@[0].0@ == key && entries@[0].1
            == payload,
        _ => false,
    }
}

/// `u` is the two-level object `{op: {field: payload}}`.
pub open spec fn spec_nested_doc(u: JsonVal, op: Seq<char>, field: Seq<char>, payload: JsonVal) -> bool {
    match u {
        JsonVal::Obj(top) => top@.len() == 1 && top@[0].0@ == op && spec_operator_doc(
            top@[0].1,
            field,
            payload,
        ),
        _ => false,
    }
}

/// How an update document is built from a request body: the `value` payload,
/// when present and an object, wrapped as the one-entry object `{op: payload}`.
pub open spec fn spec_update_build(
    r: Result<JsonVal, PayloadError>,
    body: JsonVal,
    op: Seq<char>,
) -> bool {
    match spec_lookup(body, "value"@) {
        Some(p) => if p is Obj {
            match r {
                Ok(u) => spec_operator_doc(u, op, p),
                Err(_) => false,
            }
        } else {
            r == Err::<JsonVal, PayloadError>(PayloadError::NotADocument)
        },
        None => r == Err::<JsonVal, PayloadError>(PayloadError::MissingValue),
    }
}

/// Wraps `payload` as the one-entry object `{key: payload}`.
fn wrap_operator(key: &str, payload: JsonVal) -> (u: JsonVal)
    ensures
        spec_operator_doc(u, key@, payload),
{
    let mut entries: Vec<(String, JsonVal)> = Vec::new();
    entries.push((String::from_str(key), payload));
    JsonVal::Obj(entries)
}

/// Takes the `value` payload out of `body` and wraps it under `op_key`.
fn build_value_update(body: JsonVal, op_key: &str) -> (r: Result<JsonVal, PayloadError>)
    ensures
        spec_update_build(r, body, op_key@),
{
    match take_key(body, "value") {
        Some(p) => match p {
            JsonVal::Obj(entries) => Ok(wrap_operator(op_key, JsonVal::Obj(entries))),
            _ => Err(PayloadError::NotADocument),
        },
        None => Err(PayloadError::MissingValue),
    }
}

/// The `{"$set": payload}` document for `update_one` and `update_many`.
pub fn build_set_update(body: JsonVal) -> (r: Result<JsonVal, PayloadError>)
    ensures
        spec_update_build(r, body, "$set"@),
{
    build_value_update(body, "$set")
}

/// The `{"$rename": payload}` document for `rename_field`.
pub fn build_rename_update(body: JsonVal) -> (r: Result<JsonVal, PayloadError>)
    ensures
        spec_update_build(r, body, "$rename"@),
{
    build_value_update(body, "$rename")
}

/// The `{"$inc": payload}` document for `increment`.
pub fn build_increment_update(body: JsonVal) -> (r: Result<JsonVal, PayloadError>)
    ensures
        spec_update_build(r, body, "$inc"@),
{
    build_value_update(body, "$inc")
}

/// The `{"$pop": {field: 1}}` (last) or `{"$pop": {field: -1}}` (first)
/// document for `pop_last` and `pop_first`.
pub fn build_pop_update(field: &str, last: bool) -> (u: JsonVal)
    ensures
        spec_nested_doc(u, "$pop"@, field@, JsonVal::Int(if last { 1i64 } else { -1i64 })),
{
    let sign: i64 = if last { 1 } else { -1 };
    let inner: JsonVal = wrap_operator(field, JsonVal::Int(sign));
    wrap_operator("$pop", inner)
}

/// The `{"$push": {field: payload}}` document for `push_element`; the
/// `value` payload must exist and be an object.
pub fn build_push_update(field: &str, body: JsonVal) -> (r: Result<JsonVal, PayloadError>)
    ensures
        (match spec_lookup(body, "value"@) {
            Some(p) => if p is Obj {
                match r {
                    Ok(u) => spec_nested_doc(u, "$push"@, field@, p),
                    Err(_) => false,
                }
            } else {
                r == Err::<JsonVal, PayloadError>(PayloadError::NotADocument)
            },
            None => r == Err::<JsonVal, PayloadError>(PayloadError::MissingValue),
        }),
{
    match take_key(body, "value") {
        Some(p) => match p {
            JsonVal::Obj(entries) => {
                let inner: JsonVal = wrap_operator(field, JsonVal::Obj(entries));
                Ok(wrap_operator("$push", inner))
            },
            _ => Err(PayloadError::NotADocument),
        },
        None => Err(PayloadError::MissingValue),
    }
}

} // verus!
