//! The mapping from driver outcomes to HTTP responses.  Every handler of
//! the gateway ends here: a successful driver call becomes a `200` with a
//! JSON or text body, a missing document a `404`, and a driver error a
//! `500` whose body carries the driver's own text.

use vstd::prelude::*;
use crate::bsondoc::{doc_insert_str, doc_new, doc_pairs, lemma_pairs_insert_fresh};
use crate::json::JsonVal;
use crate::strutil::{spec_decimal, u64_to_string};

verus! {

broadcast use vstd::string::group_string_axioms;

/// The body of one gateway response.
#[derive(Debug)]
pub enum ResponseBody {
    /// one driver document, serialised as JSON
    Doc(bson::Document),
    /// a list of driver documents, serialised as a JSON array
    Docs(Vec<bson::Document>),
    /// a JSON value built by the library
    Json(JsonVal),
    /// a list of names, serialised as a JSON array of strings
    Names(Vec<String>),
    /// plain text
    Text(String),
}

/// One HTTP response of the gateway.
#[derive(Debug)]
pub struct ApiResponse {
    pub status: u16,
    pub body: ResponseBody,
}

/// The text body sent when a driver call fails.
pub open spec fn spec_error_body(message: Seq<char>) -> Seq<char> {
    "Error: "@ + message
}

/// `r` is the `500` response carrying the driver error `message`.
pub open spec fn spec_is_driver_error(r: ApiResponse, message: Seq<char>) -> bool {
    &&& r.status == 500
    &&& (match r.body {
        ResponseBody::Text(t) => t@ == spec_error_body(message),
        _ => false,
    })
}

/// Builds the `Error: {message}` text reported for a failed driver call.
pub fn error_body(message: &str) -> (s: String)
    ensures
        s@ == spec_error_body(message@),
{
    String::from_str("Error: ").concat(message)
}

fn driver_error_response(message: &str) -> (r: ApiResponse)
    ensures
        spec_is_driver_error(r, message@),
{
    ApiResponse { status: 500, body: ResponseBody::Text(error_body(message)) }
}

/// The greeting on the document-store index route.
pub fn mongo_index_response() -> (r: ApiResponse)
    ensures
        r.status == 200,
        (match r.body {
            ResponseBody::Text(t) => t@ == "Hello From MongoDB!"@,
            _ => false,
        }),
{
    ApiResponse { status: 200, body: ResponseBody::Text(String::from_str("Hello From MongoDB!")) }
}

/// The response of the single-document lookup: the found document, a `404`
/// when nothing matched, or the driver error.
pub fn find_one_response(outcome: Result<Option<bson::Document>, String>) -> (r: ApiResponse)
    ensures
        (match outcome {
            Ok(found) => match found {
                Some(d) => r.status == 200 && r.body == ResponseBody::Doc(d),
                None => r.status == 404 && (match r.body {
                    ResponseBody::Text(t) => t@ == "No matching document found"@,
                    _ => false,
                }),
            },
            Err(e) => spec_is_driver_error(r, e@),
        }),
{
    match outcome {
        Ok(found) => match found {
            Some(d) => ApiResponse { status: 200, body: ResponseBody::Doc(d) },
            None => ApiResponse {
                status: 404,
                body: ResponseBody::Text(String::from_str("No matching document found")),
            },
        },
        Err(e) => driver_error_response(e.as_str()),
    }
}

/// The response of the multi-document lookup: every collected document, or
/// the driver error.
pub fn find_many_response(outcome: Result<Vec<bson::Document>, String>) -> (r: ApiResponse)
    ensures
        (match outcome {
            Ok(docs) => r.status == 200 && r.body == ResponseBody::Docs(docs),
            Err(e) => spec_is_driver_error(r, e@),
        }),
{
    match outcome {
        Ok(docs) => ApiResponse { status: 200, body: ResponseBody::Docs(docs) },
        Err(e) => driver_error_response(e.as_str()),
    }
}

/// The response of `insert_one`: the document `{"inserted_id": hex}` with
/// the printed id of the new document, or the driver error.
pub fn insert_one_response(outcome: Result<String, String>) -> (r: ApiResponse)
    ensures
        (match outcome {
            Ok(hex) => r.status == 200 && (match r.body {
                ResponseBody::Doc(d) => doc_pairs(d) == seq![("inserted_id"@, hex@)],
                _ => false,
            }),
            Err(e) => spec_is_driver_error(r, e@),
        }),
{
    match outcome {
        Ok(hex) => {
            let mut d: bson::Document = doc_new();
            doc_insert_str(&mut d, "inserted_id", hex.as_str());
            proof {
                assert(doc_pairs(d) =~= seq![("inserted_id"@, hex@)]);
            }
            ApiResponse { status: 200, body: ResponseBody::Doc(d) }
        },
        Err(e) => driver_error_response(e.as_str()),
    }
}

/// The response of the delete operations: the document
/// `{"deleted_count": n}` with the count in decimal, or the driver error.
pub fn delete_response(outcome: Result<u64, String>) -> (r: ApiResponse)
    ensures
        (match outcome {
            Ok(count) => r.status == 200 && (match r.body {
                ResponseBody::Doc(d) => doc_pairs(d) == seq![
                    ("deleted_count"@, spec_decimal(count as nat)),
                ],
                _ => false,
            }),
            Err(e) => spec_is_driver_error(r, e@),
        }),
{
    match outcome {
        Ok(count) => {
            let text: String = u64_to_string(count);
            let mut d: bson::Document = doc_new();
            doc_insert_str(&mut d, "deleted_count", text.as_str());
            proof {
                assert(doc_pairs(d) =~= seq![("deleted_count"@, spec_decimal(count as nat))]);
            }
            ApiResponse { status: 200, body: ResponseBody::Doc(d) }
        },
        Err(e) => driver_error_response(e.as_str()),
    }
}

/// What the driver reports of an update-style operation.  `upserted` holds
/// the printed id of an upserted document, when there was one.
#[derive(Debug)]
pub struct UpdateCounts {
    pub matched: u64,
    pub modified: u64,
    pub upserted: Option<String>,
}

/// The entries of the update report document: both counts in decimal and
/// the upserted id, `null` standing in when there was none.
pub open spec fn spec_update_report(c: UpdateCounts) -> Seq<(Seq<char>, Seq<char>)> {
    seq![
        ("matched_count"@, spec_decimal(c.matched as nat)),
        ("modified_count"@, spec_decimal(c.modified as nat)),
        (
            "upserted_id"@,
            match c.upserted {
                Some(s) => s@,
                None => "null"@,
            },
        ),
    ]
}

/// The response of every update-style operation (update, rename, pop, push,
/// increment): the report document of the counts, or the driver error.
pub fn update_response(outcome: Result<UpdateCounts, String>) -> (r: ApiResponse)
    ensures
        (match outcome {
            Ok(c) => r.status == 200 && (match r.body {
                ResponseBody::Doc(d) => doc_pairs(d) == spec_update_report(c),
                _ => false,
            }),
            Err(e) => spec_is_driver_error(r, e@),
        }),
{
    match outcome {
        Ok(c) => {
            let matched_text: String = u64_to_string(c.matched);
            let modified_text: String = u64_to_string(c.modified);
            let mut d: bson::Document = doc_new();
            doc_insert_str(&mut d, "matched_count", matched_text.as_str());
            doc_insert_str(&mut d, "modified_count", modified_text.as_str());
            match &c.upserted {
                Some(s) => doc_insert_str(&mut d, "upserted_id", s.as_str()),
                None => doc_insert_str(&mut d, "upserted_id", "null"),
            }
            proof {
                reveal_strlit("matched_count");
                reveal_strlit("modified_count");
                reveal_strlit("upserted_id");
                assert("matched_count"@.len() == 13);
                assert("modified_count"@.len() == 14);
                assert("upserted_id"@.len() == 11);
                assert("matched_count"@ != "modified_count"@);
                assert("matched_count"@ != "upserted_id"@);
                assert("modified_count"@ != "upserted_id"@);
                let first = seq![("matched_count"@, spec_decimal(c.matched as nat))];
                lemma_pairs_insert_fresh(
                    first,
                    "modified_count"@,
                    spec_decimal(c.modified as nat),
                );
                lemma_pairs_insert_fresh(
                    first.push(("modified_count"@, spec_decimal(c.modified as nat))),
                    "upserted_id"@,
                    match c.upserted {
                        Some(s) => s@,
                        None => "null"@,
                    },
                );
                assert(doc_pairs(d) =~= spec_update_report(c));
            }
            ApiResponse { status: 200, body: ResponseBody::Doc(d) }
        },
        Err(e) => driver_error_response(e.as_str()),
    }
}

/// One line of the `insert_many` report: the index of the inserted
/// document and its printed id, joined as `index: id`.
pub open spec fn spec_inserted_id_line(index: u64, hex: Seq<char>) -> Seq<char> {
    spec_decimal(index as nat) + ": "@ + hex
}

/// `line` is the report string for the inserted document `id`.
pub open spec fn spec_line_reports(line: JsonVal, id: (u64, String)) -> bool {
    match line {
        JsonVal::Str(s) => s@ == spec_inserted_id_line(id.0, id.1@),
        _ => false,
    }
}

/// `v` is the object `{"inserted_ids": [...]}` holding one report line per
/// inserted document, in the given order.
pub open spec fn spec_inserted_ids_doc(v: JsonVal, ids: Seq<(u64, String)>) -> bool {
    match v {
        JsonVal::Obj(top) => top@.len() == 1 && top@[0].0@ == "inserted_ids"@ && (match top@[0].1 {
            JsonVal::Arr(lines) => lines@.len() == ids.len() && (forall|j: int|
                0 <= j < ids.len() ==> #[trigger] spec_line_reports(lines@[j], ids[j])),
            _ => false,
        }),
        _ => false,
    }
}

/// The response of `insert_many`: the object `{"inserted_ids": [...]}`
/// listing `index: id` for every inserted document, or the driver error.
pub fn insert_many_response(outcome: Result<Vec<(u64, String)>, String>) -> (r: ApiResponse)
    ensures
        (match outcome {
            Ok(ids) => r.status == 200 && (match r.body {
                ResponseBody::Json(v) => spec_inserted_ids_doc(v, ids@),
                _ => false,
            }),
            Err(e) => spec_is_driver_error(r, e@),
        }),
{
    match outcome {
        Ok(ids) => {
            let n: usize = ids.len();
            let mut lines: Vec<JsonVal> = Vec::new();
            let mut i: usize = 0;
            while i < n
                invariant
                    n == ids@.len(),
                    i <= n,
                    lines@.len() == i,
                    forall|j: int| 0 <= j < i ==> #[trigger] spec_line_reports(lines@[j], ids@[j]),
                decreases n - i,
            {
                let id: &(u64, String) = &ids[i];
                let line: String = u64_to_string(id.0).concat(": ").concat(id.1.as_str());
                lines.push(JsonVal::Str(line));
                i = i + 1;
            }
            let mut top: Vec<(String, JsonVal)> = Vec::new();
            top.push((String::from_str("inserted_ids"), JsonVal::Arr(lines)));
            ApiResponse { status: 200, body: ResponseBody::Json(JsonVal::Obj(top)) }
        },
        Err(e) => driver_error_response(e.as_str()),
    }
}

/// The response of the collection and database listings: the names as the
/// driver returned them, or the driver error.
pub fn names_response(outcome: Result<Vec<String>, String>) -> (r: ApiResponse)
    ensures
        (match outcome {
            Ok(names) => r.status == 200 && r.body == ResponseBody::Names(names),
            Err(e) => spec_is_driver_error(r, e@),
        }),
{
    match outcome {
        Ok(names) => ApiResponse { status: 200, body: ResponseBody::Names(names) },
        Err(e) => driver_error_response(e.as_str()),
    }
}

/// The confirmation text after a database was dropped.
pub open spec fn spec_database_dropped(name: Seq<char>) -> Seq<char> {
    "Database "@ + name + " dropped"@
}

/// The response of `drop_database`: a confirmation naming the database, or
/// the driver error.
pub fn drop_database_response(outcome: Result<(), String>, database: &str) -> (r: ApiResponse)
    ensures
        (match outcome {
            Ok(_) => r.status == 200 && (match r.body {
                ResponseBody::Text(t) => t@ == spec_database_dropped(database@),
                _ => false,
            }),
            Err(e) => spec_is_driver_error(r, e@),
        }),
{
    match outcome {
        Ok(_) => {
            let text: String = String::from_str("Database ").concat(database).concat(" dropped");
            ApiResponse { status: 200, body: ResponseBody::Text(text) }
        },
        Err(e) => driver_error_response(e.as_str()),
    }
}

/// The confirmation text after a collection was dropped.
pub open spec fn spec_collection_dropped(name: Seq<char>) -> Seq<char> {
    "Collection "@ + name + " dropped"@
}

/// The response of `drop_collection`: a confirmation naming the collection,
/// or the driver error.
pub fn drop_collection_response(outcome: Result<(), String>, collection: &str) -> (r: ApiResponse)
    ensures
        (match outcome {
            Ok(_) => r.status == 200 && (match r.body {
                ResponseBody::Text(t) => t@ == spec_collection_dropped(collection@),
                _ => false,
            }),
            Err(e) => spec_is_driver_error(r, e@),
        }),
{
    match outcome {
        Ok(_) => {
            let text: String = String::from_str("Collection ").concat(collection).concat(
                " dropped",
            );
            ApiResponse { status: 200, body: ResponseBody::Text(text) }
        },
        Err(e) => driver_error_response(e.as_str()),
    }
}

} // verus!
