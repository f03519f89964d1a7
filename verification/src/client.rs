//! The client: an immutable endpoint configuration plus one method per
//! remote operation. Each method builds its request body, sends it through
//! the trusted transport boundary, and decodes whatever came back; a caller
//! can always tell "the server said no" from "the outcome is unknown".

use vstd::prelude::*;
use vstd::string::StringExecFns;
use crate::decode::decode_get_body;
use crate::decode::decode_list_body;
use crate::decode::decode_public_info_body;
use crate::decode::decode_verb_body;
use crate::decode::decoded_get_of;
use crate::decode::decoded_list_of;
use crate::decode::decoded_public_info_of;
use crate::decode::decoded_verb_of;
use crate::decode::spec_decode_get;
use crate::decode::spec_decode_list;
use crate::decode::spec_decode_public_info;
use crate::decode::spec_decode_verb;
use crate::error::ClientError;
use crate::json::json_model_of;
use crate::model::GetFilter;
use crate::model::GqlEntry;
use crate::model::Identity;
use crate::model::PublicInfo;
use crate::request::build_get_request;
use crate::request::build_list_request;
use crate::request::build_public_info_request;
use crate::request::build_verb_request;
use crate::text::chars_to_string;
use crate::text::push_str_chars;

verus! {

/// Sends a JSON request body by HTTP POST and returns the response text.
///
/// Relies on `reqwest::blocking::Client`: `send` fails on a transport
/// error, `error_for_status` turns a non-2xx status into an error, and
/// `text` reads the body. `Err` carries the failure's description.
#[verifier::external_body]
fn http_post_json(url: &str, body: &str) -> (r: Result<String, String>)
{
    let client = reqwest::blocking::Client::new();
    let sent = client
        .post(url)
        .header("content-type", "application/json")
        .body(body.to_string())
        .send();
    match sent.and_then(|resp| resp.error_for_status()).and_then(|resp| resp.text()) {
        Ok(text) => Ok(text),
        Err(e) => Err(e.to_string()),
    }
}

/// Fetches a URL by HTTP GET and returns the response text.
///
/// Relies on `reqwest::blocking::Client`: as with the POST boundary, any
/// transport failure or non-2xx status comes back as `Err` with its
/// description.
#[verifier::external_body]
fn http_get_text(url: &str) -> (r: Result<String, String>)
{
    let client = reqwest::blocking::Client::new();
    match client.get(url).send().and_then(|resp| resp.error_for_status()).and_then(
        |resp| resp.text(),
    ) {
        Ok(text) => Ok(text),
        Err(e) => Err(e.to_string()),
    }
}

/// The endpoint with every trailing `/graphql` suffix removed.
pub open spec fn spec_strip_graphql(s: Seq<char>) -> Seq<char>
    decreases s.len(),
{
    if s.len() >= 8 && s.subrange(s.len() - 8, s.len() as int) == "/graphql"@ {
        spec_strip_graphql(s.subrange(0, s.len() - 8))
    } else {
        s
    }
}

/// The sibling liveness URL: the endpoint without its `/graphql` suffix,
/// with `/health` appended.
pub open spec fn spec_health_url(endpoint: Seq<char>) -> Seq<char> {
    spec_strip_graphql(endpoint) + "/health"@
}

/// Whether the last eight characters of `v` spell `/graphql`.
fn ends_with_graphql(v: &Vec<char>) -> (r: bool)
    ensures
        r == (v@.len() >= 8 && v@.subrange(v@.len() - 8, v@.len() as int) == "/graphql"@),
{
    proof {
        reveal_strlit("/graphql");
    }
    if v.len() < 8 {
        return false;
    }
    let base: usize = v.len() - 8;
    let r = v[base] == '/' && v[base + 1] == 'g' && v[base + 2] == 'r' && v[base + 3] == 'a'
        && v[base + 4] == 'p' && v[base + 5] == 'h' && v[base + 6] == 'q' && v[base + 7] == 'l';
    proof {
        let sub = v@.subrange(v@.len() - 8, v@.len() as int);
        assert(sub[0] == v@[v@.len() - 8]);
        assert(sub[1] == v@[v@.len() - 7]);
        assert(sub[2] == v@[v@.len() - 6]);
        assert(sub[3] == v@[v@.len() - 5]);
        assert(sub[4] == v@[v@.len() - 4]);
        assert(sub[5] == v@[v@.len() - 3]);
        assert(sub[6] == v@[v@.len() - 2]);
        assert(sub[7] == v@[v@.len() - 1]);
        if r {
            assert(sub =~= "/graphql"@);
        } else {
            assert(sub != "/graphql"@);
        }
    }
    r
}

/// Derives the liveness URL from a configured endpoint.
pub fn health_url(endpoint: &str) -> (r: String)
    ensures
        r@ == spec_health_url(endpoint@),
{
    let mut v: Vec<char> = Vec::new();
    push_str_chars(&mut v, endpoint);
    while ends_with_graphql(&v)
        invariant
            spec_strip_graphql(v@) == spec_strip_graphql(endpoint@),
        decreases v@.len(),
    {
        let ghost before = v@;
        let target: usize = v.len() - 8;
        v.truncate(target);
        proof {
            assert(v@ =~= before.subrange(0, before.len() - 8));
        }
    }
    push_str_chars(&mut v, "/health");
    chars_to_string(&v)
}

/// A client for the ledger service: one configured endpoint, no other
/// state. Each operation issues one synchronous request.
#[derive(Debug, Clone)]
pub struct CleakerClient {
    /// The full query/mutation endpoint.
    pub endpoint: String,
}

/// The endpoint a client resolves from an optional explicit override and an
/// optional environment-supplied value: the override wins, then the
/// environment, then the compiled-in default.
pub open spec fn spec_resolved_endpoint(
    explicit: Option<&str>,
    env_value: Option<String>,
) -> Seq<char> {
    match explicit {
        Some(e) => e@,
        None => match env_value {
            Some(v) => v@,
            None => "http://localhost:8888/graphql"@,
        },
    }
}

/// Resolves the endpoint from an explicit override and an
/// environment-supplied value, in that priority order.
pub fn resolve_endpoint(explicit: Option<&str>, env_value: Option<String>) -> (r: String)
    ensures
        r@ == spec_resolved_endpoint(explicit, env_value),
{
    match explicit {
        Some(e) => String::from_str(e),
        None => match env_value {
            Some(v) => v,
            None => String::from_str("http://localhost:8888/graphql"),
        },
    }
}

impl CleakerClient {
    /// Builds a client. Without an endpoint, the compiled-in default is
    /// used; reading an endpoint from the process environment is the
    /// caller's concern and rides in through `Some`.
    pub fn new(endpoint: Option<&str>) -> (r: Self)
        ensures
            r.endpoint@ == spec_resolved_endpoint(endpoint, None),
    {
        CleakerClient { endpoint: resolve_endpoint(endpoint, None) }
    }

    /// Replaces the configured endpoint.
    pub fn set_endpoint(&mut self, endpoint: String)
        ensures
            final(self).endpoint@ == endpoint@,
    {
        self.endpoint = endpoint;
    }

    /// Probes the sibling `/health` URL. Only the transport can fail here;
    /// the response text is returned as-is.
    pub fn health(&self) -> (r: Result<String, ClientError>)
        ensures
            r matches Err(e) ==> e matches ClientError::Http(_),
    {
        let url = health_url(self.endpoint.as_str());
        match http_get_text(url.as_str()) {
            Ok(text) => Ok(text),
            Err(e) => Err(ClientError::Http(e)),
        }
    }

    /// Issues one write-verb mutation. The result is a transport failure,
    /// or exactly the decode of whatever body the server returned: no
    /// failure is ever folded into the boolean.
    pub fn invoke_write_verb(
        &self,
        verb: &str,
        context_id: &str,
        key: &str,
        value: &str,
    ) -> (r: Result<bool, ClientError>)
        ensures
            r matches Err(e) && e matches ClientError::Http(_) || exists|body: Seq<char>|
                decoded_verb_of(r) == Some(spec_decode_verb(json_model_of(body), verb@)),
    {
        let body = build_verb_request(verb, context_id, key, value);
        match http_post_json(self.endpoint.as_str(), body.as_str()) {
            Err(e) => Err(ClientError::Http(e)),
            Ok(text) => {
                let r = decode_verb_body(text.as_str(), verb);
                proof {
                    assert(decoded_verb_of(r) == Some(
                        spec_decode_verb(json_model_of(text@), verb@),
                    ));
                }
                r
            },
        }
    }

    /// Records a `be` fact about a context.
    pub fn be(&self, context_id: &str, key: &str, value: &str) -> (r: Result<bool, ClientError>)
        ensures
            r matches Err(e) && e matches ClientError::Http(_) || exists|body: Seq<char>|
                decoded_verb_of(r) == Some(spec_decode_verb(json_model_of(body), "be"@)),
    {
        self.invoke_write_verb("be", context_id, key, value)
    }

    /// Records a `have` fact about a context.
    pub fn have(&self, context_id: &str, key: &str, value: &str) -> (r: Result<bool, ClientError>)
        ensures
            r matches Err(e) && e matches ClientError::Http(_) || exists|body: Seq<char>|
                decoded_verb_of(r) == Some(spec_decode_verb(json_model_of(body), "have"@)),
    {
        self.invoke_write_verb("have", context_id, key, value)
    }

    /// Records a `do_` fact about a context; the underscore keeps the
    /// remote operation's name out of the way of the keyword.
    pub fn do_(&self, context_id: &str, key: &str, value: &str) -> (r: Result<bool, ClientError>)
        ensures
            r matches Err(e) && e matches ClientError::Http(_) || exists|body: Seq<char>|
                decoded_verb_of(r) == Some(spec_decode_verb(json_model_of(body), "do_"@)),
    {
        self.invoke_write_verb("do_", context_id, key, value)
    }

    /// Records an `at` fact about a context.
    pub fn at(&self, context_id: &str, key: &str, value: &str) -> (r: Result<bool, ClientError>)
        ensures
            r matches Err(e) && e matches ClientError::Http(_) || exists|body: Seq<char>|
                decoded_verb_of(r) == Some(spec_decode_verb(json_model_of(body), "at"@)),
    {
        self.invoke_write_verb("at", context_id, key, value)
    }

    /// Records a `relate` fact about a context.
    pub fn relate(&self, context_id: &str, key: &str, value: &str) -> (r: Result<
        bool,
        ClientError,
    >)
        ensures
            r matches Err(e) && e matches ClientError::Http(_) || exists|body: Seq<char>|
                decoded_verb_of(r) == Some(spec_decode_verb(json_model_of(body), "relate"@)),
    {
        self.invoke_write_verb("relate", context_id, key, value)
    }

    /// Records a `react` fact about a context.
    pub fn react(&self, context_id: &str, key: &str, value: &str) -> (r: Result<bool, ClientError>)
        ensures
            r matches Err(e) && e matches ClientError::Http(_) || exists|body: Seq<char>|
                decoded_verb_of(r) == Some(spec_decode_verb(json_model_of(body), "react"@)),
    {
        self.invoke_write_verb("react", context_id, key, value)
    }

    /// Records a `communicate` fact about a context.
    pub fn communicate(&self, context_id: &str, key: &str, value: &str) -> (r: Result<
        bool,
        ClientError,
    >)
        ensures
            r matches Err(e) && e matches ClientError::Http(_) || exists|body: Seq<char>|
                decoded_verb_of(r) == Some(spec_decode_verb(json_model_of(body), "communicate"@)),
    {
        self.invoke_write_verb("communicate", context_id, key, value)
    }

    /// Runs the flexible read. The entries come back in server order; the
    /// client neither sorts nor filters them.
    pub fn get(&self, filter: &GetFilter) -> (r: Result<Vec<GqlEntry>, ClientError>)
        ensures
            r matches Err(e) && e matches ClientError::Http(_) || exists|body: Seq<char>|
                decoded_get_of(r) == Some(spec_decode_get(json_model_of(body))),
    {
        let body = build_get_request(filter);
        match http_post_json(self.endpoint.as_str(), body.as_str()) {
            Err(e) => Err(ClientError::Http(e)),
            Ok(text) => {
                let r = decode_get_body(text.as_str());
                proof {
                    assert(decoded_get_of(r) == Some(spec_decode_get(json_model_of(text@))));
                }
                r
            },
        }
    }

    /// Lists all registered identities, in the order the server reports.
    pub fn list_identities(&self) -> (r: Result<Vec<Identity>, ClientError>)
        ensures
            r matches Err(e) && e matches ClientError::Http(_) || exists|body: Seq<char>|
                decoded_list_of(r) == Some(spec_decode_list(json_model_of(body))),
    {
        let body = build_list_request();
        match http_post_json(self.endpoint.as_str(), body.as_str()) {
            Err(e) => Err(ClientError::Http(e)),
            Ok(text) => {
                let r = decode_list_body(text.as_str());
                proof {
                    assert(decoded_list_of(r) == Some(spec_decode_list(json_model_of(text@))));
                }
                r
            },
        }
    }

    /// Looks up the public info of a username. A server-reported null is a
    /// normal `None`, never an error.
    pub fn public_info(&self, username: &str) -> (r: Result<Option<PublicInfo>, ClientError>)
        ensures
            r matches Err(e) && e matches ClientError::Http(_) || exists|body: Seq<char>|
                decoded_public_info_of(r) == Some(spec_decode_public_info(json_model_of(body))),
    {
        let body = build_public_info_request(username);
        match http_post_json(self.endpoint.as_str(), body.as_str()) {
            Err(e) => Err(ClientError::Http(e)),
            Ok(text) => {
                let r = decode_public_info_body(text.as_str());
                proof {
                    assert(decoded_public_info_of(r) == Some(
                        spec_decode_public_info(json_model_of(text@)),
                    ));
                }
                r
            },
        }
    }
}

} // verus!
