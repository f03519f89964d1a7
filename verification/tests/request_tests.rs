use cleaker::model::GetFilter;
use cleaker::request::build_get_request;
use cleaker::request::build_list_request;
use cleaker::request::build_public_info_request;
use cleaker::request::build_verb_request;
use cleaker::request::filter_to_json;

fn full_filter() -> GetFilter {
    GetFilter {
        verb: "be".to_string(),
        key: Some("color".to_string()),
        value: Some("blue".to_string()),
        context_id: Some("alice".to_string()),
        limit: Some(50),
        offset: Some(-3),
        since: Some("2024-01-01".to_string()),
        until: Some("2024-12-31".to_string()),
    }
}

#[test]
fn filter_round_trips_through_json() {
    // Serializing a fully-populated filter and reading it back as JSON must
    // reproduce every value unchanged.
    let text = filter_to_json(&full_filter());
    let v: serde_json::Value = serde_json::from_str(&text).expect("filter JSON must parse");
    assert_eq!(v.get("verb").unwrap().as_str(), Some("be"));
    assert_eq!(v.get("key").unwrap().as_str(), Some("color"));
    assert_eq!(v.get("value").unwrap().as_str(), Some("blue"));
    assert_eq!(v.get("context_id").unwrap().as_str(), Some("alice"));
    assert_eq!(v.get("limit").unwrap().as_i64(), Some(50));
    assert_eq!(v.get("offset").unwrap().as_i64(), Some(-3));
    assert_eq!(v.get("since").unwrap().as_str(), Some("2024-01-01"));
    assert_eq!(v.get("until").unwrap().as_str(), Some("2024-12-31"));
}

#[test]
fn absent_filter_fields_serialize_as_null() {
    let f = GetFilter { verb: "all".to_string(), ..GetFilter::default() };
    let text = filter_to_json(&f);
    let v: serde_json::Value = serde_json::from_str(&text).expect("filter JSON must parse");
    assert_eq!(v.get("verb").unwrap().as_str(), Some("all"));
    for field in ["key", "value", "context_id", "limit", "offset", "since", "until"] {
        assert!(v.get(field).unwrap().is_null(), "{field} must be null");
    }
}

#[test]
fn extreme_pagination_values_round_trip() {
    let f = GetFilter {
        verb: "all".to_string(),
        limit: Some(i32::MIN),
        offset: Some(i32::MAX),
        ..GetFilter::default()
    };
    let text = filter_to_json(&f);
    let v: serde_json::Value = serde_json::from_str(&text).expect("filter JSON must parse");
    assert_eq!(v.get("limit").unwrap().as_i64(), Some(i32::MIN as i64));
    assert_eq!(v.get("offset").unwrap().as_i64(), Some(i32::MAX as i64));
}

#[test]
fn get_request_carries_the_filter_as_one_variable() {
    let text = build_get_request(&full_filter());
    let v: serde_json::Value = serde_json::from_str(&text).expect("request must parse");
    let query = v.get("query").unwrap().as_str().unwrap();
    assert!(query.contains("get(filter: $filter)"));
    assert!(query.contains("verb key value timestamp"));
    let filter = v.get("variables").unwrap().get("filter").unwrap();
    assert_eq!(filter.get("verb").unwrap().as_str(), Some("be"));
    assert_eq!(filter.get("limit").unwrap().as_i64(), Some(50));
}

#[test]
fn verb_request_names_the_verb_and_carries_the_triple() {
    let text = build_verb_request("communicate", "alice", "greeting", "hello");
    let v: serde_json::Value = serde_json::from_str(&text).expect("request must parse");
    let query = v.get("query").unwrap().as_str().unwrap();
    assert!(query.starts_with("mutation($context_id: String!, $key: String!, $value: String!)"));
    assert!(query.contains("communicate(context_id: $context_id, key: $key, value: $value)"));
    let vars = v.get("variables").unwrap();
    assert_eq!(vars.get("context_id").unwrap().as_str(), Some("alice"));
    assert_eq!(vars.get("key").unwrap().as_str(), Some("greeting"));
    assert_eq!(vars.get("value").unwrap().as_str(), Some("hello"));
}

#[test]
fn escaping_survives_hostile_values() {
    // Quotes, backslashes and control characters must come back unchanged
    // after a parse of the built body.
    let key = "a\"b\\c";
    let value = "line1\nline2\ttab\u{1}";
    let text = build_verb_request("be", "alice", key, value);
    let v: serde_json::Value = serde_json::from_str(&text).expect("request must parse");
    let vars = v.get("variables").unwrap();
    assert_eq!(vars.get("key").unwrap().as_str(), Some(key));
    assert_eq!(vars.get("value").unwrap().as_str(), Some(value));
}

#[test]
fn unicode_passes_through() {
    let text = build_verb_request("be", "alice", "saludo", "hola señora ☀");
    let v: serde_json::Value = serde_json::from_str(&text).expect("request must parse");
    let vars = v.get("variables").unwrap();
    assert_eq!(vars.get("value").unwrap().as_str(), Some("hola señora ☀"));
}

#[test]
fn list_request_has_no_parameters() {
    let text = build_list_request();
    let v: serde_json::Value = serde_json::from_str(&text).expect("request must parse");
    assert_eq!(v.get("query").unwrap().as_str(), Some("query { listIdentities { username } }"));
    assert!(v.get("variables").unwrap().as_object().unwrap().is_empty());
}

#[test]
fn public_info_request_aliases_the_wire_key() {
    let text = build_public_info_request("alice");
    let v: serde_json::Value = serde_json::from_str(&text).expect("request must parse");
    let query = v.get("query").unwrap().as_str().unwrap();
    assert!(query.contains("publicKey: public_key"));
    assert_eq!(v.get("variables").unwrap().get("username").unwrap().as_str(), Some("alice"));
}
