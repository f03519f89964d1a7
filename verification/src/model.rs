//! The data model: read-only projections of server state (identities,
//! public info, fact entries) and the filter describing a flexible read.

use vstd::prelude::*;

verus! {

/// A registered actor in the ledger.
#[derive(Debug, Clone)]
pub struct Identity {
    pub username: String,
}

impl View for Identity {
    type V = Seq<char>;

    open spec fn view(&self) -> Seq<char> {
        self.username@
    }
}

/// The public metadata of an identity.
pub ghost struct PublicInfoModel {
    pub username: Seq<char>,
    pub public_key: Seq<char>,
}

/// Public metadata for an identity; read-only.
#[derive(Debug, Clone)]
pub struct PublicInfo {
    pub username: String,
    pub public_key: String,
}

impl View for PublicInfo {
    type V = PublicInfoModel;

    open spec fn view(&self) -> PublicInfoModel {
        PublicInfoModel { username: self.username@, public_key: self.public_key@ }
    }
}

/// One immutable fact record.
pub ghost struct EntryModel {
    pub verb: Seq<char>,
    pub key: Seq<char>,
    pub value: Seq<char>,
    pub timestamp: Seq<char>,
}

/// An immutable fact record returned by a read query. The timestamp is an
/// opaque server-assigned string, never parsed by the client.
#[derive(Debug, Clone)]
pub struct GqlEntry {
    pub verb: String,
    pub key: String,
    pub value: String,
    pub timestamp: String,
}

impl View for GqlEntry {
    type V = EntryModel;

    open spec fn view(&self) -> EntryModel {
        EntryModel {
            verb: self.verb@,
            key: self.key@,
            value: self.value@,
            timestamp: self.timestamp@,
        }
    }
}

/// The abstract content of a `GetFilter`.
pub ghost struct FilterModel {
    pub verb: Seq<char>,
    pub key: Option<Seq<char>>,
    pub value: Option<Seq<char>>,
    pub context_id: Option<Seq<char>>,
    pub limit: Option<int>,
    pub offset: Option<int>,
    pub since: Option<Seq<char>>,
    pub until: Option<Seq<char>>,
}

/// A query descriptor for the flexible read. Every optional field narrows
/// the result set; the verb `"all"` is the recognized wildcard. The client
/// validates nothing here beyond shape: domain legality is the server's
/// responsibility.
#[derive(Debug, Clone)]
pub struct GetFilter {
    pub verb: String,
    pub key: Option<String>,
    pub value: Option<String>,
    pub context_id: Option<String>,
    pub limit: Option<i32>,
    pub offset: Option<i32>,
    pub since: Option<String>,
    pub until: Option<String>,
}

/// The view of an optional string.
pub open spec fn opt_str_view(o: Option<String>) -> Option<Seq<char>> {
    match o {
        Some(s) => Some(s@),
        None => None,
    }
}

/// The view of an optional integer.
pub open spec fn opt_int_view(o: Option<i32>) -> Option<int> {
    match o {
        Some(n) => Some(n as int),
        None => None,
    }
}

impl View for GetFilter {
    type V = FilterModel;

    open spec fn view(&self) -> FilterModel {
        FilterModel {
            verb: self.verb@,
            key: opt_str_view(self.key),
            value: opt_str_view(self.value),
            context_id: opt_str_view(self.context_id),
            limit: opt_int_view(self.limit),
            offset: opt_int_view(self.offset),
            since: opt_str_view(self.since),
            until: opt_str_view(self.until),
        }
    }
}

impl Default for GetFilter {
    /// The all-absent filter: an empty verb and no narrowing fields.
    fn default() -> (r: Self)
        ensures
            r@ == (FilterModel {
                verb: Seq::<char>::empty(),
                key: None,
                value: None,
                context_id: None,
                limit: None,
                offset: None,
                since: None,
                until: None,
            }),
    {
        GetFilter {
            verb: String::new(),
            key: None,
            value: None,
            context_id: None,
            limit: None,
            offset: None,
            since: None,
            until: None,
        }
    }
}

} // verus!
