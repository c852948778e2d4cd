use dbgate::json::{take_key, JsonVal};
use dbgate::payload::{
    extract_insert_document, extract_insert_documents, PayloadError,
};
use dbgate::update::{
    build_increment_update, build_pop_update, build_push_update, build_rename_update,
    build_set_update,
};

fn obj(entries: Vec<(&str, JsonVal)>) -> JsonVal {
    JsonVal::Obj(
        entries
            .into_iter()
            .map(|(k, v)| (k.to_string(), v))
            .collect(),
    )
}

fn sample_payload() -> JsonVal {
    obj(vec![
        ("name", JsonVal::Str("alice".to_string())),
        ("age", JsonVal::Int(31)),
    ])
}

#[test]
fn lookup_takes_the_first_match() {
    let body = obj(vec![
        ("value", JsonVal::Int(1)),
        ("value", JsonVal::Int(2)),
    ]);
    assert_eq!(take_key(body, "value"), Some(JsonVal::Int(1)));
}

#[test]
fn lookup_outside_an_object_finds_nothing() {
    assert_eq!(take_key(JsonVal::Arr(vec![]), "value"), None);
    assert_eq!(take_key(JsonVal::Null, "value"), None);
}

#[test]
fn get_borrows_the_entry() {
    let body = obj(vec![("value", sample_payload())]);
    assert_eq!(body.get("value"), Some(&sample_payload()));
    assert_eq!(body.get("values"), None);
}

#[test]
fn insert_payload_is_the_value_object() {
    let body = obj(vec![("value", sample_payload())]);
    assert_eq!(extract_insert_document(body), Ok(sample_payload()));
}

#[test]
fn insert_payload_must_exist() {
    let body = obj(vec![("values", sample_payload())]);
    assert_eq!(
        extract_insert_document(body),
        Err(PayloadError::MissingValue)
    );
}

#[test]
fn insert_payload_must_be_an_object() {
    let body = obj(vec![("value", JsonVal::Int(3))]);
    assert_eq!(
        extract_insert_document(body),
        Err(PayloadError::NotADocument)
    );
}

#[test]
fn insert_many_payload_is_the_array() {
    let body = obj(vec![(
        "values",
        JsonVal::Arr(vec![sample_payload(), sample_payload()]),
    )]);
    assert_eq!(
        extract_insert_documents(body),
        Ok(vec![sample_payload(), sample_payload()])
    );
}

#[test]
fn insert_many_payload_errors() {
    assert_eq!(
        extract_insert_documents(obj(vec![("value", JsonVal::Int(1))])),
        Err(PayloadError::MissingValues)
    );
    assert_eq!(
        extract_insert_documents(obj(vec![("values", JsonVal::Int(1))])),
        Err(PayloadError::ValuesNotArray)
    );
    assert_eq!(
        extract_insert_documents(obj(vec![(
            "values",
            JsonVal::Arr(vec![sample_payload(), JsonVal::Int(1)]),
        )])),
        Err(PayloadError::NotADocument)
    );
}

#[test]
fn payload_error_messages() {
    assert_eq!(
        PayloadError::MissingValue.message(),
        "The body should have a `value` tag with the data to be inserted in the collection"
    );
    assert_eq!(
        PayloadError::MissingValues.message(),
        "The body should have a `values` tag with the data to be inserted in the collection"
    );
    assert_eq!(
        PayloadError::ValuesNotArray.message(),
        "The `values` tag should hold an array"
    );
    assert_eq!(
        PayloadError::NotADocument.message(),
        "The payload should be a JSON object"
    );
}

#[test]
fn set_update_wraps_the_payload() {
    let body = obj(vec![("value", sample_payload())]);
    assert_eq!(
        build_set_update(body),
        Ok(obj(vec![("$set", sample_payload())]))
    );
}

#[test]
fn rename_and_increment_updates() {
    let body = obj(vec![("value", sample_payload())]);
    assert_eq!(
        build_rename_update(body),
        Ok(obj(vec![("$rename", sample_payload())]))
    );
    let body = obj(vec![("value", sample_payload())]);
    assert_eq!(
        build_increment_update(body),
        Ok(obj(vec![("$inc", sample_payload())]))
    );
}

#[test]
fn update_payload_errors() {
    assert_eq!(
        build_set_update(obj(vec![])),
        Err(PayloadError::MissingValue)
    );
    assert_eq!(
        build_set_update(obj(vec![("value", JsonVal::Bool(true))])),
        Err(PayloadError::NotADocument)
    );
}

#[test]
fn pop_updates() {
    assert_eq!(
        build_pop_update("scores", true),
        obj(vec![("$pop", obj(vec![("scores", JsonVal::Int(1))]))])
    );
    assert_eq!(
        build_pop_update("scores", false),
        obj(vec![("$pop", obj(vec![("scores", JsonVal::Int(-1))]))])
    );
}

#[test]
fn push_update_nests_the_payload_under_the_field() {
    let body = obj(vec![("value", sample_payload())]);
    assert_eq!(
        build_push_update("entries", body),
        Ok(obj(vec![(
            "$push",
            obj(vec![("entries", sample_payload())]),
        )]))
    );
    assert_eq!(
        build_push_update("entries", obj(vec![])),
        Err(PayloadError::MissingValue)
    );
}
