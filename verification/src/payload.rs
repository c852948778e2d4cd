//! Extraction of the insert payload from a request body.  A body is expected
//! to carry the data under a `value` entry (one document) or a `values`
//! entry (an array of documents); each document must be a JSON object,
//! since only an object can become a driver document.

use vstd::prelude::*;
use crate::json::{JsonVal, spec_lookup, take_key};

verus! {

/// What can be wrong with a request body, found before any driver call.
#[derive(Debug, PartialEq)]
pub enum PayloadError {
    /// the body has no `value` entry
    MissingValue,
    /// the body has no `values` entry
    MissingValues,
    /// the `values` entry does not hold an array
    ValuesNotArray,
    /// a payload that must become a driver document is not a JSON object
    NotADocument,
}

/// The text the gateway reports for each payload error.
pub open spec fn spec_payload_message(e: PayloadError) -> Seq<char> {
    match e {
        PayloadError::MissingValue => "The body should have a `value` tag with the data to be inserted in the collection"@,
        PayloadError::MissingValues => "The body should have a `values` tag with the data to be inserted in the collection"@,
        PayloadError::ValuesNotArray => "The `values` tag should hold an array"@,
        PayloadError::NotADocument => "The payload should be a JSON object"@,
    }
}

impl PayloadError {
    /// The text the gateway reports for this error.
    pub fn message(&self) -> (m: String)
        ensures
            m@ == spec_payload_message(*self),
    {
        match self {
            PayloadError::MissingValue => String::from_str(
                "The body should have a `value` tag with the data to be inserted in the collection",
            ),
            PayloadError::MissingValues => String::from_str(
                "The body should have a `values` tag with the data to be inserted in the collection",
            ),
            PayloadError::ValuesNotArray => String::from_str(
                "The `values` tag should hold an array",
            ),
            PayloadError::NotADocument => String::from_str("The payload should be a JSON object"),
        }
    }
}

/// The `value` payload of an `insert_one` body: the object that becomes the
/// inserted driver document.
pub fn extract_insert_document(body: JsonVal) -> (r: Result<JsonVal, PayloadError>)
    ensures
        (match spec_lookup(body, "value"@) {
            Some(p) => if p is Obj {
                r == Ok::<JsonVal, PayloadError>(p)
            } else {
                r == Err::<JsonVal, PayloadError>(PayloadError::NotADocument)
            },
            None => r == Err::<JsonVal, PayloadError>(PayloadError::MissingValue),
        }),
{
    match take_key(body, "value") {
        Some(p) => match p {
            JsonVal::Obj(entries) => Ok(JsonVal::Obj(entries)),
            _ => Err(PayloadError::NotADocument),
        },
        None => Err(PayloadError::MissingValue),
    }
}

/// The elements of the `values` array of an `insert_many` body, each of
/// which becomes one inserted driver document and so must be an object.
pub fn extract_insert_documents(body: JsonVal) -> (r: Result<Vec<JsonVal>, PayloadError>)
    ensures
        (match spec_lookup(body, "values"@) {
            Some(p) => match p {
                JsonVal::Arr(elems) => {
                    if forall|j: int| 0 <= j < elems@.len() ==> elems@[j] is Obj {
                        r == Ok::<Vec<JsonVal>, PayloadError>(elems)
                    } else {
                        r == Err::<Vec<JsonVal>, PayloadError>(PayloadError::NotADocument)
                    }
                },
                _ => r == Err::<Vec<JsonVal>, PayloadError>(PayloadError::ValuesNotArray),
            },
            None => r == Err::<Vec<JsonVal>, PayloadError>(PayloadError::MissingValues),
        }),
{
    match take_key(body, "values") {
        Some(p) => match p {
            JsonVal::Arr(elems) => {
                let n: usize = elems.len();
                let mut i: usize = 0;
                while i < n
                    invariant
                        spec_lookup(body, "values"@) == Some(JsonVal::Arr(elems)),
                        n == elems@.len(),
                        i <= n,
                        forall|j: int| 0 <= j < i ==> elems@[j] is Obj,
                    decreases n - i,
                {
                    let is_obj: bool = match &elems[i] {
                        JsonVal::Obj(_) => true,
                        _ => false,
                    };
                    if !is_obj {
                        return Err(PayloadError::NotADocument);
                    }
                    i = i + 1;
                }
                Ok(elems)
            },
            _ => Err(PayloadError::ValuesNotArray),
        },
        None => Err(PayloadError::MissingValues),
    }
}

} // verus!
