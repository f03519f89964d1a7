use cleaker::decode::decode_get_body;
use cleaker::decode::decode_list_body;
use cleaker::decode::decode_public_info_body;
use cleaker::decode::decode_verb_body;
use cleaker::error::ClientError;

#[test]
fn verb_true_is_decoded() {
    let r = decode_verb_body("{\"data\":{\"be\":true}}", "be");
    assert!(matches!(r, Ok(true)));
}

#[test]
fn verb_false_is_decoded() {
    let r = decode_verb_body("{\"data\":{\"be\":false}}", "be");
    assert!(matches!(r, Ok(false)));
}

#[test]
fn verb_false_is_not_an_error_and_errors_are_not_false() {
    // A remote error is never folded into Ok(false).
    let r = decode_verb_body("{\"errors\":[{\"message\":\"denied\"}]}", "be");
    match r {
        Err(ClientError::GraphQLErrors(gs)) => {
            assert_eq!(gs.len(), 1);
            assert_eq!(gs[0].message, "denied");
        },
        _ => panic!("expected remote errors"),
    }
}

#[test]
fn remote_errors_keep_server_order_even_with_data() {
    let body = "{\"data\":{\"be\":true},\"errors\":[{\"message\":\"b\"},{\"message\":\"a\"},{\"message\":\"b\"}]}";
    let r = decode_verb_body(body, "be");
    match r {
        Err(ClientError::GraphQLErrors(gs)) => {
            let msgs: Vec<&str> = gs.iter().map(|g| g.message.as_str()).collect();
            assert_eq!(msgs, vec!["b", "a", "b"]);
        },
        _ => panic!("expected remote errors to win over data"),
    }
}

#[test]
fn invalid_verb_surfaces_as_a_remote_error() {
    let r = decode_verb_body("{\"errors\":[{\"message\":\"invalid verb\"}]}", "frob");
    match r {
        Err(ClientError::GraphQLErrors(gs)) => {
            assert_eq!(gs.len(), 1);
            assert_eq!(gs[0].message, "invalid verb");
        },
        _ => panic!("expected a remote error"),
    }
}

#[test]
fn null_errors_and_null_data_is_empty_payload() {
    let r = decode_verb_body("{\"errors\":null,\"data\":null}", "be");
    assert!(matches!(r, Err(ClientError::EmptyData)));
}

#[test]
fn absent_errors_and_absent_data_is_empty_payload() {
    let r = decode_verb_body("{}", "be");
    assert!(matches!(r, Err(ClientError::EmptyData)));
}

#[test]
fn empty_errors_array_is_not_a_remote_error() {
    // An empty errors array means "no errors": classification moves on to data.
    let r = decode_verb_body("{\"errors\":[],\"data\":{\"have\":true}}", "have");
    assert!(matches!(r, Ok(true)));
}

#[test]
fn malformed_body_is_a_format_error() {
    let r = decode_verb_body("{not json", "be");
    assert!(matches!(r, Err(ClientError::Json(_))));
}

#[test]
fn top_level_non_object_is_a_format_error() {
    let r = decode_verb_body("42", "be");
    assert!(matches!(r, Err(ClientError::Json(_))));
}

#[test]
fn wrong_shape_data_is_a_format_error() {
    // The verb's own name must be bound to a boolean.
    let r = decode_verb_body("{\"data\":{\"be\":\"yes\"}}", "be");
    assert!(matches!(r, Err(ClientError::Json(_))));
    let r = decode_verb_body("{\"data\":{\"have\":true}}", "be");
    assert!(matches!(r, Err(ClientError::Json(_))));
}

#[test]
fn malformed_errors_field_is_a_format_error() {
    let r = decode_verb_body("{\"errors\":7}", "be");
    assert!(matches!(r, Err(ClientError::Json(_))));
    let r = decode_verb_body("{\"errors\":[{\"note\":\"no message\"}]}", "be");
    assert!(matches!(r, Err(ClientError::Json(_))));
}

#[test]
fn get_decodes_one_entry_with_exact_fields() {
    let body = "{\"data\":{\"get\":[{\"verb\":\"be\",\"key\":\"color\",\"value\":\"blue\",\"timestamp\":\"2024-01-01T00:00:00Z\"}]}}";
    let r = decode_get_body(body).expect("one entry expected");
    assert_eq!(r.len(), 1);
    assert_eq!(r[0].verb, "be");
    assert_eq!(r[0].key, "color");
    assert_eq!(r[0].value, "blue");
    assert_eq!(r[0].timestamp, "2024-01-01T00:00:00Z");
}

#[test]
fn get_with_zero_records_is_an_empty_list_not_empty_payload() {
    let r = decode_get_body("{\"data\":{\"get\":[]}}");
    match r {
        Ok(es) => assert!(es.is_empty()),
        _ => panic!("expected an empty list"),
    }
}

#[test]
fn get_keeps_server_order() {
    let body = "{\"data\":{\"get\":[{\"verb\":\"b\",\"key\":\"k2\",\"value\":\"v\",\"timestamp\":\"t2\"},{\"verb\":\"a\",\"key\":\"k1\",\"value\":\"v\",\"timestamp\":\"t1\"}]}}";
    let r = decode_get_body(body).expect("two entries expected");
    assert_eq!(r.len(), 2);
    assert_eq!(r[0].key, "k2");
    assert_eq!(r[1].key, "k1");
}

#[test]
fn public_info_null_is_none_not_an_error() {
    let r = decode_public_info_body("{\"data\":{\"publicInfo\":null}}");
    assert!(matches!(r, Ok(None)));
}

#[test]
fn public_info_absent_key_is_none() {
    let r = decode_public_info_body("{\"data\":{}}");
    assert!(matches!(r, Ok(None)));
}

#[test]
fn public_info_renames_the_wire_key() {
    let body = "{\"data\":{\"publicInfo\":{\"username\":\"alice\",\"publicKey\":\"pk-1\"}}}";
    let r = decode_public_info_body(body).expect("info expected");
    let info = r.expect("some info expected");
    assert_eq!(info.username, "alice");
    assert_eq!(info.public_key, "pk-1");
}

#[test]
fn list_identities_decodes_in_order() {
    let body = "{\"data\":{\"listIdentities\":[{\"username\":\"bob\"},{\"username\":\"alice\"}]}}";
    let r = decode_list_body(body).expect("two identities expected");
    assert_eq!(r.len(), 2);
    assert_eq!(r[0].username, "bob");
    assert_eq!(r[1].username, "alice");
}

#[test]
fn error_descriptions_name_their_kind() {
    let r = decode_verb_body("{\"errors\":[{\"message\":\"x\"},{\"message\":\"y\"}]}", "be");
    let e = r.expect_err("remote errors expected");
    assert_eq!(e.describe(), "graphql error(s): x; y");
    let e = decode_verb_body("{}", "be").expect_err("empty payload expected");
    assert_eq!(e.describe(), "unexpected empty GraphQL data");
}
