use dbgate::bsondoc::build_filter;

fn params(pairs: &[(&str, &str)]) -> Vec<(String, String)> {
    pairs
        .iter()
        .map(|(k, v)| (k.to_string(), v.to_string()))
        .collect()
}

#[test]
fn empty_filter() {
    let d = build_filter(&params(&[]));
    assert!(d.is_empty());
}

#[test]
fn filter_holds_every_parameter_in_order() {
    let d = build_filter(&params(&[("name", "alice"), ("city", "basel")]));
    assert_eq!(d.len(), 2);
    let keys: Vec<&str> = d.keys().map(|k| k.as_str()).collect();
    assert_eq!(keys, vec!["name", "city"]);
    assert_eq!(d.get_str("name").unwrap(), "alice");
    assert_eq!(d.get_str("city").unwrap(), "basel");
}

#[test]
fn filter_replaces_a_repeated_key_in_place() {
    let d = build_filter(&params(&[
        ("name", "alice"),
        ("city", "basel"),
        ("name", "bob"),
    ]));
    assert_eq!(d.len(), 2);
    let keys: Vec<&str> = d.keys().map(|k| k.as_str()).collect();
    assert_eq!(keys, vec!["name", "city"]);
    assert_eq!(d.get_str("name").unwrap(), "bob");
}
