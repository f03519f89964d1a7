//! The command model: what a parsed invocation means, as plain data, and
//! the dispatch decisions that turn a command into client-call parameters.
//! Argument parsing itself and all printing live outside the library.

use vstd::prelude::*;
use vstd::string::StringExecFns;
use crate::model::FilterModel;
use crate::model::GetFilter;
use crate::model::opt_int_view;
use crate::model::opt_str_view;

verus! {

/// One invocation's command.
pub enum Commands {
    /// Show the acting identity's public info and latest entries.
    Display,
    /// The six semantic write verbs, each with a key, a value, and an
    /// optional context override.
    Be { key: String, value: String, context: Option<String> },
    Have { key: String, value: String, context: Option<String> },
    At { key: String, value: String, context: Option<String> },
    Relate { key: String, value: String, context: Option<String> },
    React { key: String, value: String, context: Option<String> },
    Communicate { key: String, value: String, context: Option<String> },
    /// The flexible filtered read.
    Get {
        verb: String,
        key: Option<String>,
        value: Option<String>,
        context: Option<String>,
        limit: Option<i32>,
        offset: Option<i32>,
        since: Option<String>,
        until: Option<String>,
    },
}

/// A parsed invocation: root options plus the command. The password is
/// accepted but not yet used to authenticate requests.
pub struct Cli {
    pub endpoint: Option<String>,
    pub space: Option<String>,
    pub username: String,
    pub password: String,
    pub command: Commands,
}

/// The context a write or read acts on: the explicit override, or the
/// acting username.
pub open spec fn spec_effective_context(context: Option<String>, username: Seq<char>) -> Seq<
    char,
> {
    match context {
        Some(c) => c@,
        None => username,
    }
}

/// Picks the context for a command: an explicit `--context` wins, else the
/// acting username stands in.
pub fn effective_context(context: Option<String>, username: &str) -> (r: String)
    ensures
        r@ == spec_effective_context(context, username@),
{
    match context {
        Some(c) => c,
        None => String::from_str(username),
    }
}

/// The filter `display` uses: every entry of the acting username, any verb,
/// at most fifty entries.
pub open spec fn spec_display_filter(username: Seq<char>) -> FilterModel {
    FilterModel {
        verb: "all"@,
        key: None,
        value: None,
        context_id: Some(username),
        limit: Some(50),
        offset: None,
        since: None,
        until: None,
    }
}

/// Builds the filter the `display` command reads with.
pub fn display_filter(username: &str) -> (r: GetFilter)
    ensures
        r@ == spec_display_filter(username@),
{
    GetFilter {
        verb: String::from_str("all"),
        key: None,
        value: None,
        context_id: Some(String::from_str(username)),
        limit: Some(50),
        offset: None,
        since: None,
        until: None,
    }
}

/// Builds the filter a `get` command reads with: the caller's fields pass
/// through verbatim, except that a missing context defaults to the acting
/// username.
pub fn get_filter(
    verb: String,
    key: Option<String>,
    value: Option<String>,
    context: Option<String>,
    limit: Option<i32>,
    offset: Option<i32>,
    since: Option<String>,
    until: Option<String>,
    username: &str,
) -> (r: GetFilter)
    ensures
        r@ == (FilterModel {
            verb: verb@,
            key: opt_str_view(key),
            value: opt_str_view(value),
            context_id: Some(spec_effective_context(context, username@)),
            limit: opt_int_view(limit),
            offset: opt_int_view(offset),
            since: opt_str_view(since),
            until: opt_str_view(until),
        }),
{
    let context_id = Some(effective_context(context, username));
    GetFilter { verb, key, value, context_id, limit, offset, since, until }
}

} // verus!
