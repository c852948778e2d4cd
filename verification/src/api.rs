//! The generic lookup route `/api/{database}/{collection}`: the emptiness
//! checks on the path parameters, the filter from the query string, and the
//! JSON-bodied error responses this route answers with.

use vstd::prelude::*;
use crate::bsondoc::{build_filter, doc_pairs, spec_filter_pairs};
use crate::json::JsonVal;
use crate::response::{ApiResponse, ResponseBody};

verus! {

/// `r` carries the given status and the JSON object `{"error": message}`.
pub open spec fn spec_json_error(r: ApiResponse, status: u16, message: Seq<char>) -> bool {
    &&& r.status == status
    &&& (match r.body {
        ResponseBody::Json(v) => match v {
            JsonVal::Obj(entries) => entries@.len() == 1 && entries@[0].0@ == "error"@ && (match entries@[0].1 {
                JsonVal::Str(s) => s@ == message,
                _ => false,
            }),
            _ => false,
        },
        _ => false,
    })
}

fn json_error_response(status: u16, message: String) -> (r: ApiResponse)
    ensures
        spec_json_error(r, status, message@),
{
    let mut entries: Vec<(String, JsonVal)> = Vec::new();
    entries.push((String::from_str("error"), JsonVal::Str(message)));
    ApiResponse { status, body: ResponseBody::Json(JsonVal::Obj(entries)) }
}

/// Checks the path parameters of the generic lookup and builds its filter.
/// An empty database or collection name is refused with a `400`; otherwise
/// the filter document built from the query parameters is handed back.
pub fn get_data_prepare(database: &str, collection: &str, params: &Vec<(String, String)>) -> (r:
    Result<bson::Document, ApiResponse>)
    ensures
        database@.len() == 0 ==> (r matches Err(e) && spec_json_error(
            e,
            400,
            "Database is empty"@,
        )),
        database@.len() > 0 && collection@.len() == 0 ==> (r matches Err(e) && spec_json_error(
            e,
            400,
            "Collection is empty"@,
        )),
        database@.len() > 0 && collection@.len() > 0 ==> (r matches Ok(d) && doc_pairs(d)
            == spec_filter_pairs(params@)),
{
    if database.is_empty() {
        Err(json_error_response(400, String::from_str("Database is empty")))
    } else if collection.is_empty() {
        Err(json_error_response(400, String::from_str("Collection is empty")))
    } else {
        Ok(build_filter(params))
    }
}

/// The response of the generic lookup: the collected documents, or a `500`
/// whose JSON body carries the driver's text.
pub fn get_data_response(outcome: Result<Vec<bson::Document>, String>) -> (r: ApiResponse)
    ensures
        (match outcome {
            Ok(docs) => r.status == 200 && r.body == ResponseBody::Docs(docs),
            Err(e) => spec_json_error(r, 500, e@),
        }),
{
    match outcome {
        Ok(docs) => ApiResponse { status: 200, body: ResponseBody::Docs(docs) },
        Err(e) => json_error_response(500, e),
    }
}

} // verus!
