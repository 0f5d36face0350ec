//! The admin API's user resource: the remote account representation, the
//! request bodies of its create-or-modify and list operations, and the
//! verified construction of the paths and query strings those operations
//! put on the wire.
//!
//! The HTTP calls themselves are the transport's business; a caller takes
//! the path or query built here, performs the exchange, and hands the
//! decoded response back to the library.

use vstd::prelude::*;
use vstd::string::StringExecFns;

use crate::encoding::{dec_of, u64_to_string};
use crate::user_id::UserId;

verus! {

/// An external identity binding of a remote account.
#[derive(Debug, Clone)]
pub struct ExternalId {
    pub auth_provider: String,
    pub external_id: String,
}

/// A third-party identifier (an external contact method, e.g. an email
/// address) bound to an account, with the timestamps at which it was added
/// and validated (milliseconds since the epoch).
#[derive(Debug, Clone)]
pub struct ThreePid {
    pub medium: String,
    pub address: String,
    pub added_at: u64,
    pub validated_at: u64,
}

/// The remote user resource, as the admin API returns it. The avatar URL is
/// carried verbatim as the string the remote service sent.
#[derive(Debug, Clone)]
pub struct User {
    /// User name postfixed with the instance host, e.g. `@user:example.com`.
    pub name: String,
    pub displayname: Option<String>,
    pub threepids: Vec<ThreePid>,
    pub avatar_url: Option<String>,
    pub is_guest: bool,
    pub admin: bool,
    pub deactivated: bool,
    pub erased: bool,
    pub shadow_banned: bool,
    pub creation_ts: u64,
    pub appservice_id: Option<String>,
    pub consent_server_notice_sent: Option<u64>,
    pub consent_version: Option<String>,
    pub consent_ts: Option<u64>,
    pub external_ids: Vec<ExternalId>,
    pub user_type: Option<String>,
    pub locked: bool,
}

/// The body of the admin API's create-or-modify write, keyed by user id.
#[derive(Debug, Clone)]
pub struct UserCreateDto {
    pub password: String,
    pub logout_devices: bool,
    pub displayname: Option<String>,
    pub avatar_url: Option<String>,
    pub threepids: Vec<ThreePid>,
    pub external_ids: Vec<ExternalId>,
    pub admin: bool,
    pub deactivated: bool,
    pub user_type: Option<String>,
    pub locked: bool,
}

/// The body of a modify of an existing account: the same write as
/// [`UserCreateDto`], distinguished only by caller intent.
#[derive(Debug, Clone)]
pub struct UserUpdateDto {
    pub password: String,
    pub logout_devices: bool,
    pub displayname: Option<String>,
    pub avatar_url: Option<String>,
    pub threepids: Vec<ThreePid>,
    pub external_ids: Vec<ExternalId>,
    pub admin: bool,
    pub deactivated: bool,
    pub user_type: Option<String>,
    pub locked: bool,
}

/// The optional filters of the list operation: id and display-name
/// fragments, account flags, and the `from`/`limit` pagination cursor.
#[derive(Debug, Clone)]
pub struct ListUsersParams {
    pub user_id: Option<String>,
    pub name: Option<String>,
    pub guests: Option<bool>,
    pub admins: Option<bool>,
    pub deactivated: Option<bool>,
    pub limit: Option<u64>,
    pub from: Option<u64>,
}

impl ListUsersParams {
    /// Parameters that filter nothing: the full first page.
    pub fn none() -> (r: Self)
        ensures
            r.user_id is None,
            r.name is None,
            r.guests is None,
            r.admins is None,
            r.deactivated is None,
            r.limit is None,
            r.from is None,
    {
        ListUsersParams {
            user_id: None,
            name: None,
            guests: None,
            admins: None,
            deactivated: None,
            limit: None,
            from: None,
        }
    }
}

/// The path of the create-or-modify endpoint for one user id.
pub open spec fn user_path_of(user_id: Seq<char>) -> Seq<char> {
    "/_synapse/admin/v2/users/"@ + user_id
}

/// The rendering of a boolean in a query string.
pub open spec fn bool_str(b: bool) -> Seq<char> {
    if b {
        "true"@
    } else {
        "false"@
    }
}

/// The query pairs that one optional string filter contributes.
pub open spec fn opt_pair(key: Seq<char>, value: Option<Seq<char>>) -> Seq<
    (Seq<char>, Seq<char>),
> {
    match value {
        Some(v) => seq![(key, v)],
        None => seq![],
    }
}

/// The view of a vector of query pairs.
pub open spec fn pairs_view(pairs: Seq<(String, String)>) -> Seq<(Seq<char>, Seq<char>)> {
    pairs.map_values(|p: (String, String)| (p.0@, p.1@))
}

/// The query pairs of the list operation: one `key=value` pair per filter
/// that is set, in the fixed field order of [`ListUsersParams`], with
/// booleans as `true`/`false` and the cursor fields in decimal. Values are
/// carried unencoded; the transport percent-encodes them.
pub open spec fn list_query_of(params: ListUsersParams) -> Seq<(Seq<char>, Seq<char>)> {
    opt_pair(
        "user_id"@,
        match params.user_id {
            Some(v) => Some(v@),
            None => None,
        },
    ) + opt_pair(
        "name"@,
        match params.name {
            Some(v) => Some(v@),
            None => None,
        },
    ) + opt_pair(
        "guests"@,
        match params.guests {
            Some(v) => Some(bool_str(v)),
            None => None,
        },
    ) + opt_pair(
        "admins"@,
        match params.admins {
            Some(v) => Some(bool_str(v)),
            None => None,
        },
    ) + opt_pair(
        "deactivated"@,
        match params.deactivated {
            Some(v) => Some(bool_str(v)),
            None => None,
        },
    ) + opt_pair(
        "limit"@,
        match params.limit {
            Some(v) => Some(dec_of(v)),
            None => None,
        },
    ) + opt_pair(
        "from"@,
        match params.from {
            Some(v) => Some(dec_of(v)),
            None => None,
        },
    )
}

fn bool_string(b: bool) -> (r: String)
    ensures
        r@ == bool_str(b),
{
    if b {
        String::from_str("true")
    } else {
        String::from_str("false")
    }
}

impl User {
    /// The path of the create-or-modify endpoint for `user_id`: the fixed
    /// prefix followed by the rendered identifier.
    pub fn users_path(user_id: &UserId) -> (r: String)
        ensures
            r@ == user_path_of(user_id@),
    {
        let mut r = String::from_str("/_synapse/admin/v2/users/");
        let id = user_id.as_string();
        r.append(id.as_str());
        r
    }

    /// The path of the list endpoint.
    pub fn list_path() -> (r: String)
        ensures
            r@ == "/_synapse/admin/v2/users"@,
    {
        String::from_str("/_synapse/admin/v2/users")
    }

    /// Builds the query pairs of the list operation, exactly as
    /// [`list_query_of`] states them.
    pub fn list_query(params: &ListUsersParams) -> (r: Vec<(String, String)>)
        ensures
            pairs_view(r@) == list_query_of(*params),
    {
        let mut r: Vec<(String, String)> = Vec::new();
        match &params.user_id {
            Some(v) => r.push((String::from_str("user_id"), v.clone())),
            None => (),
        }
        match &params.name {
            Some(v) => r.push((String::from_str("name"), v.clone())),
            None => (),
        }
        match &params.guests {
            Some(v) => r.push((String::from_str("guests"), bool_string(*v))),
            None => (),
        }
        match &params.admins {
            Some(v) => r.push((String::from_str("admins"), bool_string(*v))),
            None => (),
        }
        match &params.deactivated {
            Some(v) => r.push((String::from_str("deactivated"), bool_string(*v))),
            None => (),
        }
        match &params.limit {
            Some(v) => r.push((String::from_str("limit"), u64_to_string(*v))),
            None => (),
        }
        match &params.from {
            Some(v) => r.push((String::from_str("from"), u64_to_string(*v))),
            None => (),
        }
        proof {
            assert(pairs_view(r@) =~= list_query_of(*params));
        }
        r
    }
}

} // verus!
