//! Request construction. Every operation sends a JSON body of shape
//! `{ "query": <operation text>, "variables": <named parameter map> }`;
//! the library builds that body character by character against an exact
//! specification, so nothing about what goes on the wire is left open.

use vstd::prelude::*;
use crate::model::FilterModel;
use crate::model::GetFilter;
use crate::text::chars_to_string;
use crate::text::push_i32_dec;
use crate::text::push_quoted;
use crate::text::push_str_chars;
use crate::text::spec_idec;
use crate::text::spec_quoted;

verus! {

/// An optional string as a JSON value: a string literal, or `null`.
pub open spec fn spec_opt_str_json(o: Option<Seq<char>>) -> Seq<char> {
    match o {
        Some(s) => spec_quoted(s),
        None => "null"@,
    }
}

/// An optional integer as a JSON value: its decimal digits, or `null`.
pub open spec fn spec_opt_int_json(o: Option<int>) -> Seq<char> {
    match o {
        Some(n) => spec_idec(n),
        None => "null"@,
    }
}

/// Appends an optional string as a JSON value.
fn push_opt_str(out: &mut Vec<char>, o: &Option<String>)
    ensures
        final(out)@ == old(out)@ + spec_opt_str_json(crate::model::opt_str_view(*o)),
{
    match o {
        Some(s) => push_quoted(out, s.as_str()),
        None => push_str_chars(out, "null"),
    }
}

/// Appends an optional integer as a JSON value.
fn push_opt_int(out: &mut Vec<char>, o: &Option<i32>)
    ensures
        final(out)@ == old(out)@ + spec_opt_int_json(crate::model::opt_int_view(*o)),
{
    match o {
        Some(n) => push_i32_dec(out, *n),
        None => push_str_chars(out, "null"),
    }
}

/// The leading half of the filter object: the verb and the string filters.
pub open spec fn spec_filter_front(f: FilterModel) -> Seq<char> {
    "{\"verb\":"@ + spec_quoted(f.verb) + ",\"key\":"@ + spec_opt_str_json(f.key) + ",\"value\":"@
        + spec_opt_str_json(f.value) + ",\"context_id\":"@ + spec_opt_str_json(f.context_id)
}

/// The trailing half of the filter object: pagination and the time range.
pub open spec fn spec_filter_back(f: FilterModel) -> Seq<char> {
    ",\"limit\":"@ + spec_opt_int_json(f.limit) + ",\"offset\":"@ + spec_opt_int_json(f.offset)
        + ",\"since\":"@ + spec_opt_str_json(f.since) + ",\"until\":"@ + spec_opt_str_json(f.until)
        + "}"@
}

/// The filter as one structured JSON parameter: every field is present, and
/// absent options serialize as `null`.
pub open spec fn spec_filter_json(f: FilterModel) -> Seq<char> {
    spec_filter_front(f) + spec_filter_back(f)
}

/// Appends the leading half of the filter object.
fn push_filter_front(out: &mut Vec<char>, f: &GetFilter)
    ensures
        final(out)@ == old(out)@ + spec_filter_front(f@),
{
    push_str_chars(out, "{\"verb\":");
    push_quoted(out, f.verb.as_str());
    push_str_chars(out, ",\"key\":");
    push_opt_str(out, &f.key);
    push_str_chars(out, ",\"value\":");
    push_opt_str(out, &f.value);
    push_str_chars(out, ",\"context_id\":");
    push_opt_str(out, &f.context_id);
    proof {
        assert(out@ =~= old(out)@ + spec_filter_front(f@));
    }
}

/// Appends the trailing half of the filter object.
fn push_filter_back(out: &mut Vec<char>, f: &GetFilter)
    ensures
        final(out)@ == old(out)@ + spec_filter_back(f@),
{
    push_str_chars(out, ",\"limit\":");
    push_opt_int(out, &f.limit);
    push_str_chars(out, ",\"offset\":");
    push_opt_int(out, &f.offset);
    push_str_chars(out, ",\"since\":");
    push_opt_str(out, &f.since);
    push_str_chars(out, ",\"until\":");
    push_opt_str(out, &f.until);
    push_str_chars(out, "}");
    proof {
        assert(out@ =~= old(out)@ + spec_filter_back(f@));
    }
}

/// Appends the filter's JSON object.
fn push_filter_json(out: &mut Vec<char>, f: &GetFilter)
    ensures
        final(out)@ == old(out)@ + spec_filter_json(f@),
{
    push_filter_front(out, f);
    push_filter_back(out, f);
    proof {
        assert(out@ =~= old(out)@ + spec_filter_json(f@));
    }
}

/// Builds the filter's JSON object as a string.
pub fn filter_to_json(f: &GetFilter) -> (r: String)
    ensures
        r@ == spec_filter_json(f@),
{
    let mut out: Vec<char> = Vec::new();
    push_filter_json(&mut out, f);
    chars_to_string(&out)
}

/// A whole request body: the operation text under `query` and the given
/// JSON object under `variables`.
pub open spec fn spec_request_body(query: Seq<char>, variables: Seq<char>) -> Seq<char> {
    "{\"query\":"@ + spec_quoted(query) + ",\"variables\":"@ + variables + "}"@
}

/// The operation text of a write verb's mutation: the verb's own name sits
/// in field position.
pub open spec fn spec_verb_query(verb: Seq<char>) -> Seq<char> {
    "mutation($context_id: String!, $key: String!, $value: String!) { "@ + verb
        + "(context_id: $context_id, key: $key, value: $value) }"@
}

/// The named parameters of a write verb call.
pub open spec fn spec_verb_variables(
    context_id: Seq<char>,
    key: Seq<char>,
    value: Seq<char>,
) -> Seq<char> {
    "{\"context_id\":"@ + spec_quoted(context_id) + ",\"key\":"@ + spec_quoted(key) + ",\"value\":"@
        + spec_quoted(value) + "}"@
}

/// The full request body of a write verb call.
pub open spec fn spec_verb_request(
    verb: Seq<char>,
    context_id: Seq<char>,
    key: Seq<char>,
    value: Seq<char>,
) -> Seq<char> {
    spec_request_body(spec_verb_query(verb), spec_verb_variables(context_id, key, value))
}

/// Builds the request body of a write verb call.
pub fn build_verb_request(verb: &str, context_id: &str, key: &str, value: &str) -> (r: String)
    ensures
        r@ == spec_verb_request(verb@, context_id@, key@, value@),
{
    let mut out: Vec<char> = Vec::new();
    push_str_chars(&mut out, "{\"query\":");
    let mut q: Vec<char> = Vec::new();
    push_str_chars(&mut q, "mutation($context_id: String!, $key: String!, $value: String!) { ");
    push_str_chars(&mut q, verb);
    push_str_chars(&mut q, "(context_id: $context_id, key: $key, value: $value) }");
    let query = chars_to_string(&q);
    proof {
        assert(query@ =~= spec_verb_query(verb@));
    }
    push_quoted(&mut out, query.as_str());
    push_str_chars(&mut out, ",\"variables\":");
    push_str_chars(&mut out, "{\"context_id\":");
    push_quoted(&mut out, context_id);
    push_str_chars(&mut out, ",\"key\":");
    push_quoted(&mut out, key);
    push_str_chars(&mut out, ",\"value\":");
    push_quoted(&mut out, value);
    push_str_chars(&mut out, "}");
    push_str_chars(&mut out, "}");
    proof {
        assert(out@ =~= spec_verb_request(verb@, context_id@, key@, value@));
    }
    chars_to_string(&out)
}

/// The operation text of the flexible read.
pub open spec fn spec_get_query() -> Seq<char> {
    "query($filter: GetFilter!) { get(filter: $filter) { verb key value timestamp } }"@
}

/// The full request body of a `get` call: the filter rides as one
/// structured `filter` variable.
pub open spec fn spec_get_request(f: FilterModel) -> Seq<char> {
    spec_request_body(spec_get_query(), "{\"filter\":"@ + spec_filter_json(f) + "}"@)
}

/// Builds the request body of a `get` call.
pub fn build_get_request(f: &GetFilter) -> (r: String)
    ensures
        r@ == spec_get_request(f@),
{
    let mut out: Vec<char> = Vec::new();
    push_str_chars(&mut out, "{\"query\":");
    push_quoted(
        &mut out,
        "query($filter: GetFilter!) { get(filter: $filter) { verb key value timestamp } }",
    );
    push_str_chars(&mut out, ",\"variables\":");
    push_str_chars(&mut out, "{\"filter\":");
    push_filter_json(&mut out, f);
    push_str_chars(&mut out, "}");
    push_str_chars(&mut out, "}");
    proof {
        assert(out@ =~= spec_get_request(f@));
    }
    chars_to_string(&out)
}

/// The operation text of the identity listing.
pub open spec fn spec_list_query() -> Seq<char> {
    "query { listIdentities { username } }"@
}

/// The full request body of an identity listing: no parameters.
pub open spec fn spec_list_request() -> Seq<char> {
    spec_request_body(spec_list_query(), "{}"@)
}

/// Builds the request body of an identity listing.
pub fn build_list_request() -> (r: String)
    ensures
        r@ == spec_list_request(),
{
    let mut out: Vec<char> = Vec::new();
    push_str_chars(&mut out, "{\"query\":");
    push_quoted(&mut out, "query { listIdentities { username } }");
    push_str_chars(&mut out, ",\"variables\":");
    push_str_chars(&mut out, "{}");
    push_str_chars(&mut out, "}");
    proof {
        assert(out@ =~= spec_list_request());
    }
    chars_to_string(&out)
}

/// The operation text of the public-info lookup: the wire's `public_key`
/// is aliased to `publicKey` in the selection.
pub open spec fn spec_public_info_query() -> Seq<char> {
    "query($username: String!) { publicInfo(username: $username) { username publicKey: public_key } }"@
}

/// The full request body of a public-info lookup.
pub open spec fn spec_public_info_request(username: Seq<char>) -> Seq<char> {
    spec_request_body(
        spec_public_info_query(),
        "{\"username\":"@ + spec_quoted(username) + "}"@,
    )
}

/// Builds the request body of a public-info lookup.
pub fn build_public_info_request(username: &str) -> (r: String)
    ensures
        r@ == spec_public_info_request(username@),
{
    let mut out: Vec<char> = Vec::new();
    push_str_chars(&mut out, "{\"query\":");
    push_quoted(
        &mut out,
        "query($username: String!) { publicInfo(username: $username) { username publicKey: public_key } }",
    );
    push_str_chars(&mut out, ",\"variables\":");
    push_str_chars(&mut out, "{\"username\":");
    push_quoted(&mut out, username);
    push_str_chars(&mut out, "}");
    push_str_chars(&mut out, "}");
    proof {
        assert(out@ =~= spec_public_info_request(username@));
    }
    chars_to_string(&out)
}

} // verus!
