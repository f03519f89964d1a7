//! The envelope-decoding laws: what holds of every response body, proved
//! once over the decode specifications that the executable decoders are
//! verified against.

use vstd::prelude::*;
use crate::decode::Decoded;
use crate::decode::spec_decode_get;
use crate::decode::spec_decode_list;
use crate::decode::spec_decode_public_info;
use crate::decode::spec_decode_verb;
use crate::decode::spec_verb_data;
use crate::envelope::EnvelopeShape;
use crate::envelope::spec_envelope;
use crate::envelope::spec_error_msgs;
use crate::json::JsonVal;
use crate::json::spec_lookup;
use crate::model::EntryModel;
use crate::model::PublicInfoModel;

verus! {

/// A write-verb decode yields boolean `b` exactly when the envelope carries
/// a payload whose object binds `b` to the verb's own name: no failure
/// outcome is ever folded into `false` (or `true`).
pub proof fn lemma_verb_boolean_exact(m: Option<JsonVal>, verb: Seq<char>, b: bool)
    ensures
        (spec_decode_verb(m, verb) == Decoded::<bool>::Val(b)) <==> match spec_envelope(m) {
            EnvelopeShape::Payload(d) => spec_verb_data(d, verb) == Some(b),
            _ => false,
        },
{
}

/// Whenever the envelope carries a well-formed, non-empty `errors` array,
/// every operation's decode reports exactly those messages, in server
/// order — whatever `data` holds.
pub proof fn lemma_remote_errors_win(m: Option<JsonVal>, verb: Seq<char>, msgs: Seq<Seq<char>>)
    requires
        m matches Some(v) && v matches JsonVal::Obj(fs) && spec_error_msgs(
            spec_lookup(fs@, "errors"@),
        ) == Some(msgs),
        msgs.len() > 0,
    ensures
        spec_decode_verb(m, verb) == Decoded::<bool>::Remote(msgs),
        spec_decode_get(m) == Decoded::<Seq<EntryModel>>::Remote(msgs),
        spec_decode_list(m) == Decoded::<Seq<Seq<char>>>::Remote(msgs),
        spec_decode_public_info(m) == Decoded::<Option<PublicInfoModel>>::Remote(msgs),
{
}

/// An envelope whose `errors` and `data` are each null or absent decodes to
/// the empty-payload failure for every operation.
pub proof fn lemma_empty_payload(m: Option<JsonVal>, verb: Seq<char>)
    requires
        m matches Some(v) && v matches JsonVal::Obj(fs) && (spec_lookup(fs@, "errors"@) is None
            || spec_lookup(fs@, "errors"@) == Some(JsonVal::Null)) && (spec_lookup(
            fs@,
            "data"@,
        ) is None || spec_lookup(fs@, "data"@) == Some(JsonVal::Null)),
    ensures
        spec_decode_verb(m, verb) == Decoded::<bool>::Empty,
        spec_decode_get(m) == Decoded::<Seq<EntryModel>>::Empty,
        spec_decode_list(m) == Decoded::<Seq<Seq<char>>>::Empty,
        spec_decode_public_info(m) == Decoded::<Option<PublicInfoModel>>::Empty,
{
}

/// A present data object whose `publicInfo` is null or absent decodes to a
/// normal `None` result, never to an error.
pub proof fn lemma_public_info_null_is_none(m: Option<JsonVal>, d: JsonVal)
    requires
        spec_envelope(m) == EnvelopeShape::Payload(d),
        d matches JsonVal::Obj(fs) && (spec_lookup(fs@, "publicInfo"@) is None || spec_lookup(
            fs@,
            "publicInfo"@,
        ) == Some(JsonVal::Null)),
    ensures
        spec_decode_public_info(m) == Decoded::<Option<PublicInfoModel>>::Val(None),
{
}

/// A `get` payload with an empty entry array decodes to the empty list, not
/// to the empty-payload failure.
pub proof fn lemma_get_empty_is_empty_list(m: Option<JsonVal>, d: JsonVal)
    requires
        spec_envelope(m) == EnvelopeShape::Payload(d),
        d matches JsonVal::Obj(fs) && spec_lookup(fs@, "get"@) matches Some(a) && a matches
            JsonVal::Arr(items) && items@.len() == 0,
    ensures
        spec_decode_get(m) == Decoded::<Seq<EntryModel>>::Val(Seq::<EntryModel>::empty()),
{
}

} // verus!
