//! The unified error taxonomy: every operation surfaces exactly one of four
//! failure kinds — transport, payload format, remote-reported, or an empty
//! payload.

use vstd::prelude::*;
use crate::text::push_str_chars;
use crate::text::chars_to_string;

verus! {

/// One application error reported by the remote service.
#[derive(Debug, Clone)]
pub struct GqlError {
    pub message: String,
}

impl View for GqlError {
    type V = Seq<char>;

    open spec fn view(&self) -> Seq<char> {
        self.message@
    }
}

/// The messages of a list of remote errors, in server order.
pub open spec fn spec_msgs_view(gs: Seq<GqlError>) -> Seq<Seq<char>> {
    gs.map_values(|g: GqlError| g@)
}

/// Errors surfaced by the client.
///
/// `Http` is a transport-layer failure (connection, timeout, non-2xx
/// status); `Json` is a payload that could not be read as the expected
/// envelope; `GraphQLErrors` carries the remote-reported messages in server
/// order; `EmptyData` marks an envelope with no errors and no data.
#[derive(Debug, Clone)]
pub enum ClientError {
    Http(String),
    Json(String),
    GraphQLErrors(Vec<GqlError>),
    EmptyData,
}

/// The human-readable description of each error kind.
pub open spec fn spec_describe(e: ClientError) -> Seq<char> {
    match e {
        ClientError::Http(m) => "http error: "@ + m@,
        ClientError::Json(m) => "json error: "@ + m@,
        ClientError::GraphQLErrors(gs) => "graphql error(s): "@ + spec_joined(spec_msgs_view(gs@), 0),
        ClientError::EmptyData => "unexpected empty GraphQL data"@,
    }
}

/// The given messages joined by `"; "`, starting at index `i`.
pub open spec fn spec_joined(msgs: Seq<Seq<char>>, i: int) -> Seq<char>
    decreases msgs.len() - i,
{
    if i < 0 || i >= msgs.len() {
        Seq::empty()
    } else if i == msgs.len() - 1 {
        msgs[i]
    } else {
        msgs[i] + "; "@ + spec_joined(msgs, i + 1)
    }
}

impl ClientError {
    /// Renders the error as text for display.
    pub fn describe(&self) -> (r: String)
        ensures
            r@ == spec_describe(*self),
    {
        let mut out: Vec<char> = Vec::new();
        match self {
            ClientError::Http(m) => {
                push_str_chars(&mut out, "http error: ");
                push_str_chars(&mut out, m.as_str());
            },
            ClientError::Json(m) => {
                push_str_chars(&mut out, "json error: ");
                push_str_chars(&mut out, m.as_str());
            },
            ClientError::GraphQLErrors(gs) => {
                push_str_chars(&mut out, "graphql error(s): ");
                push_joined(&mut out, gs);
            },
            ClientError::EmptyData => {
                push_str_chars(&mut out, "unexpected empty GraphQL data");
            },
        }
        proof {
            assert(out@ =~= spec_describe(*self));
        }
        chars_to_string(&out)
    }
}

/// Appends the error messages joined by `"; "`.
fn push_joined(out: &mut Vec<char>, gs: &Vec<GqlError>)
    ensures
        final(out)@ == old(out)@ + spec_joined(spec_msgs_view(gs@), 0),
{
    let n: usize = gs.len();
    let mut i: usize = 0;
    while i < n
        invariant
            i <= n,
            n == gs@.len(),
            out@ + spec_joined(spec_msgs_view(gs@), i as int) == old(out)@ + spec_joined(
                spec_msgs_view(gs@),
                0,
            ),
        decreases n - i,
    {
        push_str_chars(out, gs[i].message.as_str());
        if i + 1 < n {
            push_str_chars(out, "; ");
        }
        i = i + 1;
        proof {
            assert(spec_msgs_view(gs@)[i - 1] == gs@[i - 1]@);
            assert(out@ + spec_joined(spec_msgs_view(gs@), i as int) =~= old(out)@ + spec_joined(
                spec_msgs_view(gs@),
                0,
            ));
        }
    }
    proof {
        assert(out@ =~= old(out)@ + spec_joined(spec_msgs_view(gs@), 0));
    }
}

} // verus!
