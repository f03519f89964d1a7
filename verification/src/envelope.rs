//! Classification of the generic `{ data, errors }` response envelope.
//!
//! A response body is first parsed as JSON (a format failure when it is
//! not), then inspected: a well-formed, non-empty `errors` array wins over
//! any `data`; a missing or null `data` with no errors is an empty payload;
//! otherwise the `data` value is handed to the operation's own extractor.

use vstd::prelude::*;
use crate::error::GqlError;
use crate::error::spec_msgs_view;
use crate::json::JsonVal;
use crate::json::spec_lookup;
use crate::json::obj_lookup;

verus! {

/// How an envelope classifies, at the level shared by every operation.
pub ghost enum EnvelopeShape {
    /// The body is not valid JSON, the top level is not an object, or the
    /// `errors` field is present but not a well-formed error list.
    Malformed,
    /// A non-empty error list, with its messages in server order.
    Remote(Seq<Seq<char>>),
    /// No errors, and `data` is null or absent.
    Empty,
    /// No errors; the non-null `data` value.
    Payload(JsonVal),
}

/// The `message` text of one error item: an object with a string bound to
/// `message`.
pub open spec fn spec_msg_of(item: JsonVal) -> Option<Seq<char>> {
    match item {
        JsonVal::Obj(fs) => match spec_lookup(fs@, "message"@) {
            Some(JsonVal::Str(s)) => Some(s@),
            _ => None,
        },
        _ => None,
    }
}

/// The messages of the error items from index `i` on, or `None` where some
/// item is not a well-formed error.
pub open spec fn spec_msgs_from(items: Seq<JsonVal>, i: int) -> Option<Seq<Seq<char>>>
    decreases items.len() - i,
{
    if i < 0 || i >= items.len() {
        Some(Seq::empty())
    } else {
        match (spec_msg_of(items[i]), spec_msgs_from(items, i + 1)) {
            (Some(m), Some(rest)) => Some(seq![m] + rest),
            _ => None,
        }
    }
}

/// The message list denoted by an `errors` field value: absent or null
/// means no errors; an array of well-formed error items gives its messages;
/// anything else is malformed.
pub open spec fn spec_error_msgs(errs: Option<JsonVal>) -> Option<Seq<Seq<char>>> {
    match errs {
        None => Some(Seq::empty()),
        Some(JsonVal::Null) => Some(Seq::empty()),
        Some(JsonVal::Arr(items)) => spec_msgs_from(items@, 0),
        Some(_) => None,
    }
}

/// The classification of a parse outcome as an envelope.
pub open spec fn spec_envelope(m: Option<JsonVal>) -> EnvelopeShape {
    match m {
        Some(JsonVal::Obj(fs)) => match spec_error_msgs(spec_lookup(fs@, "errors"@)) {
            None => EnvelopeShape::Malformed,
            Some(msgs) => if msgs.len() > 0 {
                EnvelopeShape::Remote(msgs)
            } else {
                match spec_lookup(fs@, "data"@) {
                    None => EnvelopeShape::Empty,
                    Some(JsonVal::Null) => EnvelopeShape::Empty,
                    Some(d) => EnvelopeShape::Payload(d),
                }
            },
        },
        _ => EnvelopeShape::Malformed,
    }
}

/// The executable counterpart of `EnvelopeShape`, borrowing the payload.
pub enum Classified<'a> {
    Malformed,
    Remote(Vec<GqlError>),
    Empty,
    Payload(&'a JsonVal),
}

/// Whether an executable classification agrees with the specified shape.
pub open spec fn classified_matches(c: Classified, shape: EnvelopeShape) -> bool {
    match (c, shape) {
        (Classified::Malformed, EnvelopeShape::Malformed) => true,
        (Classified::Remote(gs), EnvelopeShape::Remote(ms)) => spec_msgs_view(gs@) == ms,
        (Classified::Empty, EnvelopeShape::Empty) => true,
        (Classified::Payload(d), EnvelopeShape::Payload(sd)) => *d == sd,
        _ => false,
    }
}

/// Collects the messages of the error items from index `i` on.
fn msgs_from(items: &Vec<JsonVal>, i: usize) -> (r: Option<Vec<GqlError>>)
    requires
        i <= items@.len(),
    ensures
        match (r, spec_msgs_from(items@, i as int)) {
            (Some(gs), Some(ms)) => spec_msgs_view(gs@) == ms,
            (None, None) => true,
            _ => false,
        },
    decreases items@.len() - i,
{
    if i == items.len() {
        proof {
            assert(spec_msgs_view(Seq::<GqlError>::empty()) =~= Seq::<Seq<char>>::empty());
        }
        return Some(Vec::new());
    }
    let msg: Option<String> = match &items[i] {
        JsonVal::Obj(fs) => match obj_lookup(fs, "message") {
            Some(JsonVal::Str(s)) => Some(s.clone()),
            _ => None,
        },
        _ => None,
    };
    match (msg, msgs_from(items, i + 1)) {
        (Some(m), Some(rest)) => {
            let mut gs: Vec<GqlError> = Vec::new();
            gs.push(GqlError { message: m });
            let mut rest = rest;
            gs.append(&mut rest);
            proof {
                assert(spec_msgs_view(gs@) =~= spec_msgs_from(items@, i as int)->Some_0);
            }
            Some(gs)
        },
        _ => None,
    }
}

/// Classifies a parsed envelope value.
pub fn classify_envelope<'a>(v: &'a JsonVal) -> (r: Classified<'a>)
    ensures
        classified_matches(r, spec_envelope(Some(*v))),
{
    let fs = match v {
        JsonVal::Obj(fs) => fs,
        _ => {
            return Classified::Malformed;
        },
    };
    let msgs: Vec<GqlError> = match obj_lookup(fs, "errors") {
        None => Vec::new(),
        Some(JsonVal::Null) => Vec::new(),
        Some(JsonVal::Arr(items)) => match msgs_from(items, 0) {
            Some(gs) => gs,
            None => {
                return Classified::Malformed;
            },
        },
        Some(_) => {
            return Classified::Malformed;
        },
    };
    proof {
        if msgs@.len() == 0 {
            assert(spec_msgs_view(msgs@) =~= Seq::<Seq<char>>::empty());
        }
    }
    if msgs.len() > 0 {
        return Classified::Remote(msgs);
    }
    match obj_lookup(fs, "data") {
        None => Classified::Empty,
        Some(JsonVal::Null) => Classified::Empty,
        Some(d) => Classified::Payload(d),
    }
}

} // verus!
