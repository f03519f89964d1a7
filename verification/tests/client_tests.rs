use cleaker::cli::display_filter;
use cleaker::cli::effective_context;
use cleaker::cli::get_filter;
use cleaker::client::CleakerClient;
use cleaker::client::health_url;
use cleaker::client::resolve_endpoint;
use cleaker::error::ClientError;

#[test]
fn new_uses_the_default_endpoint() {
    let c = CleakerClient::new(None);
    assert_eq!(c.endpoint, "http://localhost:8888/graphql");
}

#[test]
fn new_keeps_an_explicit_endpoint() {
    let c = CleakerClient::new(Some("http://example.invalid/graphql"));
    assert_eq!(c.endpoint, "http://example.invalid/graphql");
}

#[test]
fn set_endpoint_replaces_the_configuration() {
    let mut c = CleakerClient::new(None);
    c.set_endpoint("http://other:1234/graphql".to_string());
    assert_eq!(c.endpoint, "http://other:1234/graphql");
}

#[test]
fn endpoint_resolution_priority() {
    let r = resolve_endpoint(Some("http://a/graphql"), Some("http://b/graphql".to_string()));
    assert_eq!(r, "http://a/graphql");
    let r = resolve_endpoint(None, Some("http://b/graphql".to_string()));
    assert_eq!(r, "http://b/graphql");
    let r = resolve_endpoint(None, None);
    assert_eq!(r, "http://localhost:8888/graphql");
}

#[test]
fn health_url_strips_the_query_suffix() {
    assert_eq!(health_url("http://localhost:8888/graphql"), "http://localhost:8888/health");
    assert_eq!(health_url("http://localhost:8888"), "http://localhost:8888/health");
    assert_eq!(health_url("http://h/graphql/graphql"), "http://h/health");
}

#[test]
fn unreachable_endpoint_is_a_transport_error() {
    // Port 1 on the loopback is never served: the request fails at the
    // transport layer, and no write outcome is invented.
    let c = CleakerClient::new(Some("http://127.0.0.1:1/graphql"));
    let r = c.be("alice", "color", "blue");
    assert!(matches!(r, Err(ClientError::Http(_))));
    let r = c.get(&display_filter("alice"));
    assert!(matches!(r, Err(ClientError::Http(_))));
    let r = c.public_info("alice");
    assert!(matches!(r, Err(ClientError::Http(_))));
    let r = c.list_identities();
    assert!(matches!(r, Err(ClientError::Http(_))));
    let r = c.health();
    assert!(matches!(r, Err(ClientError::Http(_))));
}

#[test]
fn effective_context_prefers_the_override() {
    assert_eq!(effective_context(Some("ns".to_string()), "alice"), "ns");
    assert_eq!(effective_context(None, "alice"), "alice");
}

#[test]
fn display_filter_reads_everything_for_the_user() {
    let f = display_filter("alice");
    assert_eq!(f.verb, "all");
    assert_eq!(f.context_id.as_deref(), Some("alice"));
    assert_eq!(f.limit, Some(50));
    assert!(f.key.is_none() && f.value.is_none());
    assert!(f.offset.is_none() && f.since.is_none() && f.until.is_none());
}

#[test]
fn get_filter_defaults_the_context_to_the_username() {
    let f = get_filter(
        "be".to_string(),
        Some("k".to_string()),
        None,
        None,
        Some(10),
        Some(2),
        None,
        None,
        "alice",
    );
    assert_eq!(f.context_id.as_deref(), Some("alice"));
    assert_eq!(f.verb, "be");
    assert_eq!(f.key.as_deref(), Some("k"));
    assert_eq!(f.limit, Some(10));
    assert_eq!(f.offset, Some(2));
}

#[test]
fn http_error_description_names_the_transport() {
    let c = CleakerClient::new(Some("http://127.0.0.1:1/graphql"));
    let e = c.be("alice", "k", "v").expect_err("transport failure expected");
    assert!(e.describe().starts_with("http error: "));
}
