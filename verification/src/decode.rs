//! Per-operation response decoding: each operation's expected `data` shape,
//! and the full classification of a raw response body into the operation's
//! typed result or one of the error kinds.
//!
//! The wire side names the public-info key `publicKey`; the domain side
//! names it `public_key`. That rename happens here, explicitly, at the
//! boundary.

use vstd::prelude::*;
use vstd::string::StringExecFns;
use crate::envelope::Classified;
use crate::envelope::EnvelopeShape;
use crate::envelope::classify_envelope;
use crate::envelope::spec_envelope;
use crate::error::ClientError;
use crate::error::spec_msgs_view;
use crate::json::JsonVal;
use crate::json::json_model_of;
use crate::json::obj_lookup;
use crate::json::parse_json;
use crate::json::spec_lookup;
use crate::model::EntryModel;
use crate::model::GqlEntry;
use crate::model::Identity;
use crate::model::PublicInfo;
use crate::model::PublicInfoModel;

verus! {

/// What decoding a response body can yield, at the specification level:
/// a format failure, remote-reported messages, an empty payload, or the
/// operation's value.
pub ghost enum Decoded<V> {
    Fmt,
    Remote(Seq<Seq<char>>),
    Empty,
    Val(V),
}

/// The decode outcome that an error value stands for; `None` for a
/// transport error, which decoding never produces.
pub open spec fn decoded_err<V>(e: ClientError) -> Option<Decoded<V>> {
    match e {
        ClientError::Http(_) => None,
        ClientError::Json(_) => Some(Decoded::Fmt),
        ClientError::GraphQLErrors(gs) => Some(Decoded::Remote(spec_msgs_view(gs@))),
        ClientError::EmptyData => Some(Decoded::Empty),
    }
}

/// The decode outcome that a write-verb result stands for.
pub open spec fn decoded_verb_of(r: Result<bool, ClientError>) -> Option<Decoded<bool>> {
    match r {
        Ok(b) => Some(Decoded::Val(b)),
        Err(e) => decoded_err(e),
    }
}

/// The decode outcome that a `get` result stands for.
pub open spec fn decoded_get_of(r: Result<Vec<GqlEntry>, ClientError>) -> Option<
    Decoded<Seq<EntryModel>>,
> {
    match r {
        Ok(es) => Some(Decoded::Val(es@.map_values(|e: GqlEntry| e@))),
        Err(e) => decoded_err(e),
    }
}

/// The decode outcome that an identity-list result stands for.
pub open spec fn decoded_list_of(r: Result<Vec<Identity>, ClientError>) -> Option<
    Decoded<Seq<Seq<char>>>,
> {
    match r {
        Ok(ids) => Some(Decoded::Val(ids@.map_values(|d: Identity| d@))),
        Err(e) => decoded_err(e),
    }
}

/// The decode outcome that a public-info result stands for.
pub open spec fn decoded_public_info_of(r: Result<Option<PublicInfo>, ClientError>) -> Option<
    Decoded<Option<PublicInfoModel>>,
> {
    match r {
        Ok(Some(p)) => Some(Decoded::Val(Some(p@))),
        Ok(None) => Some(Decoded::Val(None)),
        Err(e) => decoded_err(e),
    }
}

/// A write verb's `data`: an object binding the verb's own name to the
/// acceptance boolean.
pub open spec fn spec_verb_data(d: JsonVal, verb: Seq<char>) -> Option<bool> {
    match d {
        JsonVal::Obj(fs) => match spec_lookup(fs@, verb) {
            Some(JsonVal::Bool(b)) => Some(b),
            _ => None,
        },
        _ => None,
    }
}

/// One entry: an object with string `verb`, `key`, `value`, `timestamp`.
pub open spec fn spec_entry_of(v: JsonVal) -> Option<EntryModel> {
    match v {
        JsonVal::Obj(fs) => match (
            spec_lookup(fs@, "verb"@),
            spec_lookup(fs@, "key"@),
            spec_lookup(fs@, "value"@),
            spec_lookup(fs@, "timestamp"@),
        ) {
            (
                Some(JsonVal::Str(verb)),
                Some(JsonVal::Str(key)),
                Some(JsonVal::Str(value)),
                Some(JsonVal::Str(timestamp)),
            ) => Some(
                EntryModel { verb: verb@, key: key@, value: value@, timestamp: timestamp@ },
            ),
            _ => None,
        },
        _ => None,
    }
}

/// The entries from index `i` on, or `None` where some item is malformed.
pub open spec fn spec_entries_from(items: Seq<JsonVal>, i: int) -> Option<Seq<EntryModel>>
    decreases items.len() - i,
{
    if i < 0 || i >= items.len() {
        Some(Seq::empty())
    } else {
        match (spec_entry_of(items[i]), spec_entries_from(items, i + 1)) {
            (Some(e), Some(rest)) => Some(seq![e] + rest),
            _ => None,
        }
    }
}

/// A `get` response's `data`: an object binding `get` to an entry array.
pub open spec fn spec_get_data(d: JsonVal) -> Option<Seq<EntryModel>> {
    match d {
        JsonVal::Obj(fs) => match spec_lookup(fs@, "get"@) {
            Some(JsonVal::Arr(items)) => spec_entries_from(items@, 0),
            _ => None,
        },
        _ => None,
    }
}

/// One identity: an object with a string `username`.
pub open spec fn spec_ident_of(v: JsonVal) -> Option<Seq<char>> {
    match v {
        JsonVal::Obj(fs) => match spec_lookup(fs@, "username"@) {
            Some(JsonVal::Str(u)) => Some(u@),
            _ => None,
        },
        _ => None,
    }
}

/// The identities from index `i` on.
pub open spec fn spec_idents_from(items: Seq<JsonVal>, i: int) -> Option<Seq<Seq<char>>>
    decreases items.len() - i,
{
    if i < 0 || i >= items.len() {
        Some(Seq::empty())
    } else {
        match (spec_ident_of(items[i]), spec_idents_from(items, i + 1)) {
            (Some(u), Some(rest)) => Some(seq![u] + rest),
            _ => None,
        }
    }
}

/// A list response's `data`: an object binding `listIdentities` to an array.
pub open spec fn spec_list_data(d: JsonVal) -> Option<Seq<Seq<char>>> {
    match d {
        JsonVal::Obj(fs) => match spec_lookup(fs@, "listIdentities"@) {
            Some(JsonVal::Arr(items)) => spec_idents_from(items@, 0),
            _ => None,
        },
        _ => None,
    }
}

/// A public-info response's `data`: `publicInfo` absent or null is a normal
/// `None`; an object must carry string `username` and `publicKey` (the wire
/// spelling of the domain's `public_key`).
pub open spec fn spec_public_info_data(d: JsonVal) -> Option<Option<PublicInfoModel>> {
    match d {
        JsonVal::Obj(fs) => match spec_lookup(fs@, "publicInfo"@) {
            None => Some(None),
            Some(JsonVal::Null) => Some(None),
            Some(JsonVal::Obj(pfs)) => match (
                spec_lookup(pfs@, "username"@),
                spec_lookup(pfs@, "publicKey"@),
            ) {
                (Some(JsonVal::Str(u)), Some(JsonVal::Str(k))) => Some(
                    Some(PublicInfoModel { username: u@, public_key: k@ }),
                ),
                _ => None,
            },
            Some(_) => None,
        },
        _ => None,
    }
}

/// The full decode of a write-verb response body.
pub open spec fn spec_decode_verb(m: Option<JsonVal>, verb: Seq<char>) -> Decoded<bool> {
    match spec_envelope(m) {
        EnvelopeShape::Malformed => Decoded::Fmt,
        EnvelopeShape::Remote(ms) => Decoded::Remote(ms),
        EnvelopeShape::Empty => Decoded::Empty,
        EnvelopeShape::Payload(d) => match spec_verb_data(d, verb) {
            Some(b) => Decoded::Val(b),
            None => Decoded::Fmt,
        },
    }
}

/// The full decode of a `get` response body.
pub open spec fn spec_decode_get(m: Option<JsonVal>) -> Decoded<Seq<EntryModel>> {
    match spec_envelope(m) {
        EnvelopeShape::Malformed => Decoded::Fmt,
        EnvelopeShape::Remote(ms) => Decoded::Remote(ms),
        EnvelopeShape::Empty => Decoded::Empty,
        EnvelopeShape::Payload(d) => match spec_get_data(d) {
            Some(es) => Decoded::Val(es),
            None => Decoded::Fmt,
        },
    }
}

/// The full decode of an identity-list response body.
pub open spec fn spec_decode_list(m: Option<JsonVal>) -> Decoded<Seq<Seq<char>>> {
    match spec_envelope(m) {
        EnvelopeShape::Malformed => Decoded::Fmt,
        EnvelopeShape::Remote(ms) => Decoded::Remote(ms),
        EnvelopeShape::Empty => Decoded::Empty,
        EnvelopeShape::Payload(d) => match spec_list_data(d) {
            Some(us) => Decoded::Val(us),
            None => Decoded::Fmt,
        },
    }
}

/// The full decode of a public-info response body.
pub open spec fn spec_decode_public_info(m: Option<JsonVal>) -> Decoded<Option<PublicInfoModel>> {
    match spec_envelope(m) {
        EnvelopeShape::Malformed => Decoded::Fmt,
        EnvelopeShape::Remote(ms) => Decoded::Remote(ms),
        EnvelopeShape::Empty => Decoded::Empty,
        EnvelopeShape::Payload(d) => match spec_public_info_data(d) {
            Some(p) => Decoded::Val(p),
            None => Decoded::Fmt,
        },
    }
}

/// The description used when a parsed envelope does not match the
/// operation's expected shape.
fn shape_err() -> (r: String)
    ensures
        r@ == "response shape does not match the operation"@,
{
    String::from_str("response shape does not match the operation")
}

/// Extracts a write verb's boolean from a `data` value.
fn extract_verb(d: &JsonVal, verb: &str) -> (r: Option<bool>)
    ensures
        r == spec_verb_data(*d, verb@),
{
    match d {
        JsonVal::Obj(fs) => match obj_lookup(fs, verb) {
            Some(JsonVal::Bool(b)) => Some(*b),
            _ => None,
        },
        _ => None,
    }
}

/// Reads one entry object into the domain type.
fn entry_of(v: &JsonVal) -> (r: Option<GqlEntry>)
    ensures
        match (r, spec_entry_of(*v)) {
            (Some(e), Some(m)) => e@ == m,
            (None, None) => true,
            _ => false,
        },
{
    let fs = match v {
        JsonVal::Obj(fs) => fs,
        _ => {
            return None;
        },
    };
    let verb = match obj_lookup(fs, "verb") {
        Some(JsonVal::Str(s)) => s.clone(),
        _ => {
            return None;
        },
    };
    let key = match obj_lookup(fs, "key") {
        Some(JsonVal::Str(s)) => s.clone(),
        _ => {
            return None;
        },
    };
    let value = match obj_lookup(fs, "value") {
        Some(JsonVal::Str(s)) => s.clone(),
        _ => {
            return None;
        },
    };
    let timestamp = match obj_lookup(fs, "timestamp") {
        Some(JsonVal::Str(s)) => s.clone(),
        _ => {
            return None;
        },
    };
    Some(GqlEntry { verb, key, value, timestamp })
}

/// Reads the entry array from index `i` on.
fn entries_from(items: &Vec<JsonVal>, i: usize) -> (r: Option<Vec<GqlEntry>>)
    requires
        i <= items@.len(),
    ensures
        match (r, spec_entries_from(items@, i as int)) {
            (Some(es), Some(ms)) => es@.map_values(|e: GqlEntry| e@) == ms,
            (None, None) => true,
            _ => false,
        },
    decreases items@.len() - i,
{
    if i == items.len() {
        proof {
            assert(Seq::<GqlEntry>::empty().map_values(|e: GqlEntry| e@) =~= Seq::<
                EntryModel,
            >::empty());
        }
        return Some(Vec::new());
    }
    match (entry_of(&items[i]), entries_from(items, i + 1)) {
        (Some(e), Some(rest)) => {
            let mut es: Vec<GqlEntry> = Vec::new();
            es.push(e);
            let mut rest = rest;
            es.append(&mut rest);
            proof {
                assert(es@.map_values(|x: GqlEntry| x@) =~= spec_entries_from(
                    items@,
                    i as int,
                )->Some_0);
            }
            Some(es)
        },
        _ => None,
    }
}

/// Reads one identity object into the domain type.
fn ident_of(v: &JsonVal) -> (r: Option<Identity>)
    ensures
        match (r, spec_ident_of(*v)) {
            (Some(d), Some(m)) => d@ == m,
            (None, None) => true,
            _ => false,
        },
{
    match v {
        JsonVal::Obj(fs) => match obj_lookup(fs, "username") {
            Some(JsonVal::Str(s)) => Some(Identity { username: s.clone() }),
            _ => None,
        },
        _ => None,
    }
}

/// Reads the identity array from index `i` on.
fn idents_from(items: &Vec<JsonVal>, i: usize) -> (r: Option<Vec<Identity>>)
    requires
        i <= items@.len(),
    ensures
        match (r, spec_idents_from(items@, i as int)) {
            (Some(ids), Some(ms)) => ids@.map_values(|d: Identity| d@) == ms,
            (None, None) => true,
            _ => false,
        },
    decreases items@.len() - i,
{
    if i == items.len() {
        proof {
            assert(Seq::<Identity>::empty().map_values(|d: Identity| d@) =~= Seq::<
                Seq<char>,
            >::empty());
        }
        return Some(Vec::new());
    }
    match (ident_of(&items[i]), idents_from(items, i + 1)) {
        (Some(d), Some(rest)) => {
            let mut ids: Vec<Identity> = Vec::new();
            ids.push(d);
            let mut rest = rest;
            ids.append(&mut rest);
            proof {
                assert(ids@.map_values(|x: Identity| x@) =~= spec_idents_from(
                    items@,
                    i as int,
                )->Some_0);
            }
            Some(ids)
        },
        _ => None,
    }
}

/// Extracts the entry list from a `get` response's `data` value.
fn extract_get(d: &JsonVal) -> (r: Option<Vec<GqlEntry>>)
    ensures
        match (r, spec_get_data(*d)) {
            (Some(es), Some(ms)) => es@.map_values(|e: GqlEntry| e@) == ms,
            (None, None) => true,
            _ => false,
        },
{
    match d {
        JsonVal::Obj(fs) => match obj_lookup(fs, "get") {
            Some(JsonVal::Arr(items)) => entries_from(items, 0),
            _ => None,
        },
        _ => None,
    }
}

/// Extracts the identity list from a list response's `data` value.
fn extract_list(d: &JsonVal) -> (r: Option<Vec<Identity>>)
    ensures
        match (r, spec_list_data(*d)) {
            (Some(ids), Some(ms)) => ids@.map_values(|x: Identity| x@) == ms,
            (None, None) => true,
            _ => false,
        },
{
    match d {
        JsonVal::Obj(fs) => match obj_lookup(fs, "listIdentities") {
            Some(JsonVal::Arr(items)) => idents_from(items, 0),
            _ => None,
        },
        _ => None,
    }
}

/// Extracts the optional public info from a response's `data` value,
/// renaming the wire's `publicKey` to the domain's `public_key`.
fn extract_public_info(d: &JsonVal) -> (r: Option<Option<PublicInfo>>)
    ensures
        match (r, spec_public_info_data(*d)) {
            (Some(Some(p)), Some(Some(m))) => p@ == m,
            (Some(None), Some(None)) => true,
            (None, None) => true,
            _ => false,
        },
{
    let fs = match d {
        JsonVal::Obj(fs) => fs,
        _ => {
            return None;
        },
    };
    let pfs = match obj_lookup(fs, "publicInfo") {
        None => {
            return Some(None);
        },
        Some(JsonVal::Null) => {
            return Some(None);
        },
        Some(JsonVal::Obj(pfs)) => pfs,
        Some(_) => {
            return None;
        },
    };
    let username = match obj_lookup(pfs, "username") {
        Some(JsonVal::Str(s)) => s.clone(),
        _ => {
            return None;
        },
    };
    let public_key = match obj_lookup(pfs, "publicKey") {
        Some(JsonVal::Str(s)) => s.clone(),
        _ => {
            return None;
        },
    };
    Some(Some(PublicInfo { username, public_key }))
}

/// Decodes a write-verb response body.
pub fn decode_verb_body(body: &str, verb: &str) -> (r: Result<bool, ClientError>)
    ensures
        decoded_verb_of(r) == Some(spec_decode_verb(json_model_of(body@), verb@)),
{
    let parsed = match parse_json(body) {
        Ok(v) => v,
        Err(e) => {
            return Err(ClientError::Json(e));
        },
    };
    match classify_envelope(&parsed) {
        Classified::Malformed => Err(ClientError::Json(shape_err())),
        Classified::Remote(gs) => Err(ClientError::GraphQLErrors(gs)),
        Classified::Empty => Err(ClientError::EmptyData),
        Classified::Payload(d) => match extract_verb(d, verb) {
            Some(b) => Ok(b),
            None => Err(ClientError::Json(shape_err())),
        },
    }
}

/// Decodes a `get` response body.
pub fn decode_get_body(body: &str) -> (r: Result<Vec<GqlEntry>, ClientError>)
    ensures
        decoded_get_of(r) == Some(spec_decode_get(json_model_of(body@))),
{
    let parsed = match parse_json(body) {
        Ok(v) => v,
        Err(e) => {
            return Err(ClientError::Json(e));
        },
    };
    match classify_envelope(&parsed) {
        Classified::Malformed => Err(ClientError::Json(shape_err())),
        Classified::Remote(gs) => Err(ClientError::GraphQLErrors(gs)),
        Classified::Empty => Err(ClientError::EmptyData),
        Classified::Payload(d) => match extract_get(d) {
            Some(es) => Ok(es),
            None => Err(ClientError::Json(shape_err())),
        },
    }
}

/// Decodes an identity-list response body.
pub fn decode_list_body(body: &str) -> (r: Result<Vec<Identity>, ClientError>)
    ensures
        decoded_list_of(r) == Some(spec_decode_list(json_model_of(body@))),
{
    let parsed = match parse_json(body) {
        Ok(v) => v,
        Err(e) => {
            return Err(ClientError::Json(e));
        },
    };
    match classify_envelope(&parsed) {
        Classified::Malformed => Err(ClientError::Json(shape_err())),
        Classified::Remote(gs) => Err(ClientError::GraphQLErrors(gs)),
        Classified::Empty => Err(ClientError::EmptyData),
        Classified::Payload(d) => match extract_list(d) {
            Some(ids) => Ok(ids),
            None => Err(ClientError::Json(shape_err())),
        },
    }
}

/// Decodes a public-info response body.
pub fn decode_public_info_body(body: &str) -> (r: Result<Option<PublicInfo>, ClientError>)
    ensures
        decoded_public_info_of(r) == Some(spec_decode_public_info(json_model_of(body@))),
{
    let parsed = match parse_json(body) {
        Ok(v) => v,
        Err(e) => {
            return Err(ClientError::Json(e));
        },
    };
    match classify_envelope(&parsed) {
        Classified::Malformed => Err(ClientError::Json(shape_err())),
        Classified::Remote(gs) => Err(ClientError::GraphQLErrors(gs)),
        Classified::Empty => Err(ClientError::EmptyData),
        Classified::Payload(d) => match extract_public_info(d) {
            Some(p) => Ok(p),
            None => Err(ClientError::Json(shape_err())),
        },
    }
}

} // verus!
