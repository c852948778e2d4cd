use dbgate::json::JsonVal;
use dbgate::response::{
    delete_response, drop_collection_response, drop_database_response, error_body,
    find_many_response, find_one_response, insert_many_response, insert_one_response,
    mongo_index_response, names_response, update_response, ApiResponse, ResponseBody,
    UpdateCounts,
};

fn sample_doc() -> bson::Document {
    let mut d = bson::Document::new();
    d.insert("name", "alice");
    d
}

fn text_of(r: &ApiResponse) -> &str {
    match &r.body {
        ResponseBody::Text(t) => t.as_str(),
        other => panic!("expected a text body, got {:?}", other),
    }
}

fn doc_of(r: &ApiResponse) -> &bson::Document {
    match &r.body {
        ResponseBody::Doc(d) => d,
        other => panic!("expected a document body, got {:?}", other),
    }
}

#[test]
fn index_greeting() {
    let r = mongo_index_response();
    assert_eq!(r.status, 200);
    assert_eq!(text_of(&r), "Hello From MongoDB!");
}

#[test]
fn found_document_is_passed_through() {
    let r = find_one_response(Ok(Some(sample_doc())));
    assert_eq!(r.status, 200);
    assert_eq!(doc_of(&r), &sample_doc());
}

#[test]
fn missing_document_is_a_404() {
    let r = find_one_response(Ok(None));
    assert_eq!(r.status, 404);
    assert_eq!(text_of(&r), "No matching document found");
}

#[test]
fn driver_errors_become_500_texts() {
    let r = find_one_response(Err("connection reset".to_string()));
    assert_eq!(r.status, 500);
    assert_eq!(text_of(&r), "Error: connection reset");
    assert_eq!(error_body("boom"), "Error: boom");
}

#[test]
fn found_documents_are_passed_through() {
    let r = find_many_response(Ok(vec![sample_doc(), sample_doc()]));
    assert_eq!(r.status, 200);
    match &r.body {
        ResponseBody::Docs(docs) => assert_eq!(docs.len(), 2),
        other => panic!("expected documents, got {:?}", other),
    }
}

#[test]
fn inserted_id_report() {
    let r = insert_one_response(Ok("64e2a7f1a2b3c4d5e6f70809".to_string()));
    assert_eq!(r.status, 200);
    let d = doc_of(&r);
    assert_eq!(d.len(), 1);
    assert_eq!(d.get_str("inserted_id").unwrap(), "64e2a7f1a2b3c4d5e6f70809");
}

#[test]
fn inserted_ids_report_lines() {
    let r = insert_many_response(Ok(vec![
        (0, "aaa".to_string()),
        (1, "bbb".to_string()),
    ]));
    assert_eq!(r.status, 200);
    match &r.body {
        ResponseBody::Json(JsonVal::Obj(top)) => {
            assert_eq!(top.len(), 1);
            assert_eq!(top[0].0, "inserted_ids");
            match &top[0].1 {
                JsonVal::Arr(lines) => {
                    assert_eq!(
                        lines,
                        &vec![
                            JsonVal::Str("0: aaa".to_string()),
                            JsonVal::Str("1: bbb".to_string()),
                        ]
                    );
                }
                other => panic!("expected an array, got {:?}", other),
            }
        }
        other => panic!("expected a JSON object, got {:?}", other),
    }
}

#[test]
fn deleted_count_report() {
    let r = delete_response(Ok(12));
    assert_eq!(r.status, 200);
    let d = doc_of(&r);
    assert_eq!(d.len(), 1);
    assert_eq!(d.get_str("deleted_count").unwrap(), "12");
}

#[test]
fn update_report_without_upsert() {
    let r = update_response(Ok(UpdateCounts { matched: 3, modified: 2, upserted: None }));
    assert_eq!(r.status, 200);
    let d = doc_of(&r);
    let keys: Vec<&str> = d.keys().map(|k| k.as_str()).collect();
    assert_eq!(keys, vec!["matched_count", "modified_count", "upserted_id"]);
    assert_eq!(d.get_str("matched_count").unwrap(), "3");
    assert_eq!(d.get_str("modified_count").unwrap(), "2");
    assert_eq!(d.get_str("upserted_id").unwrap(), "null");
}

#[test]
fn update_report_with_upsert() {
    let r = update_response(Ok(UpdateCounts {
        matched: 0,
        modified: 0,
        upserted: Some("ObjectId(\"abc\")".to_string()),
    }));
    let d = doc_of(&r);
    assert_eq!(d.get_str("upserted_id").unwrap(), "ObjectId(\"abc\")");
}

#[test]
fn name_listings_are_passed_through() {
    let r = names_response(Ok(vec!["shop".to_string(), "crm".to_string()]));
    assert_eq!(r.status, 200);
    match &r.body {
        ResponseBody::Names(names) => assert_eq!(names, &vec!["shop", "crm"]),
        other => panic!("expected names, got {:?}", other),
    }
    let r = names_response(Err("down".to_string()));
    assert_eq!(r.status, 500);
    assert_eq!(text_of(&r), "Error: down");
}

#[test]
fn drop_confirmations() {
    let r = drop_database_response(Ok(()), "shop");
    assert_eq!(r.status, 200);
    assert_eq!(text_of(&r), "Database shop dropped");
    let r = drop_collection_response(Ok(()), "orders");
    assert_eq!(r.status, 200);
    assert_eq!(text_of(&r), "Collection orders dropped");
    let r = drop_database_response(Err("denied".to_string()), "shop");
    assert_eq!(r.status, 500);
    assert_eq!(text_of(&r), "Error: denied");
}
