//! The library's model of a parsed JSON document, and the trusted boundary
//! that produces it from raw response text via `serde_json`.

use vstd::prelude::*;
use crate::text::str_eq;

verus! {

/// A JSON value as the library reads it. Numbers are modeled as `i64`: the
/// protocol's numeric fields are integers, and any other number is outside
/// the envelope shapes this client inspects.
pub enum JsonVal {
    Null,
    Bool(bool),
    Int(i64),
    Str(String),
    Arr(Vec<JsonVal>),
    Obj(Vec<(String, JsonVal)>),
}

/// What JSON parsing yields on a given text: the parsed value as this
/// library models it, or `None` where the text is not valid JSON.
pub uninterp spec fn json_model_of(s: Seq<char>) -> Option<JsonVal>;

#[verifier::external_type_specification]
#[verifier::external_body]
pub struct ExJsonValue(serde_json::Value);

/// Builds the library's model of a parsed `serde_json` value.
///
/// Relies on `serde_json::Value`: its six variants map one for one onto the
/// model; a number outside `i64` has no meaning to this protocol and maps to
/// `Null`.
#[verifier::external_body]
fn value_to_model(v: &serde_json::Value) -> JsonVal {
    match v {
        serde_json::Value::Null => JsonVal::Null,
        serde_json::Value::Bool(b) => JsonVal::Bool(*b),
        serde_json::Value::Number(n) => n.as_i64().map_or(JsonVal::Null, JsonVal::Int),
        serde_json::Value::String(s) => JsonVal::Str(s.clone()),
        serde_json::Value::Array(a) => JsonVal::Arr(a.iter().map(value_to_model).collect()),
        serde_json::Value::Object(m) => JsonVal::Obj(
            m.iter().map(|(k, x)| (k.clone(), value_to_model(x))).collect(),
        ),
    }
}

/// Parses text as JSON into the library's model.
///
/// Relies on `serde_json::from_str::<serde_json::Value>`: the result is a
/// function of the input text alone, and `Err` carries the description of
/// the parse failure.
#[verifier::external_body]
pub(crate) fn parse_json(s: &str) -> (r: Result<JsonVal, String>)
    ensures
        r is Ok <==> json_model_of(s@) is Some,
        r matches Ok(v) ==> Some(v) == json_model_of(s@),
{
    match serde_json::from_str::<serde_json::Value>(s) {
        Ok(v) => Ok(value_to_model(&v)),
        Err(e) => Err(e.to_string()),
    }
}

/// The first binding of `name` among an object's fields, if any.
pub open spec fn spec_lookup(fields: Seq<(String, JsonVal)>, name: Seq<char>) -> Option<JsonVal>
    decreases fields.len(),
{
    if fields.len() == 0 {
        None
    } else if fields[0].0@ == name {
        Some(fields[0].1)
    } else {
        spec_lookup(fields.drop_first(), name)
    }
}

/// Finds the value bound to `name` among an object's fields.
pub fn obj_lookup<'a>(fields: &'a Vec<(String, JsonVal)>, name: &str) -> (r: Option<&'a JsonVal>)
    ensures
        match r {
            Some(v) => spec_lookup(fields@, name@) == Some(*v),
            None => spec_lookup(fields@, name@) is None,
        },
{
    let mut i: usize = 0;
    proof {
        assert(fields@.skip(0) =~= fields@);
    }
    while i < fields.len()
        invariant
            i <= fields@.len(),
            spec_lookup(fields@, name@) == spec_lookup(fields@.skip(i as int), name@),
        decreases fields@.len() - i,
    {
        proof {
            assert(fields@.skip(i as int)[0] == fields@[i as int]);
            assert(fields@.skip(i as int).drop_first() =~= fields@.skip(i + 1));
        }
        if str_eq(fields[i].0.as_str(), name) {
            return Some(&fields[i].1);
        }
        i = i + 1;
    }
    proof {
        assert(fields@.skip(fields@.len() as int) =~= Seq::<(String, JsonVal)>::empty());
    }
    None
}

} // verus!
