//! Fully qualified remote user identifiers, written `@localpart:server`.

use vstd::prelude::*;
use vstd::string::StringExecFns;

verus! {

/// A remote user identifier: a localpart qualified by the server name it
/// lives on, rendered as `@localpart:server`.
#[derive(Debug, Clone)]
pub struct UserId {
    localpart: String,
    server_name: String,
}

impl View for UserId {
    type V = Seq<char>;

    closed spec fn view(&self) -> Seq<char> {
        seq!['@'] + self.localpart@ + seq![':'] + self.server_name@
    }
}

impl UserId {
    /// Qualifies a localpart with a server name.
    pub fn new(localpart: String, server_name: String) -> (r: Self)
        ensures
            r@ == seq!['@'] + localpart@ + seq![':'] + server_name@,
    {
        UserId { localpart, server_name }
    }

    /// Renders the identifier as it appears on the wire: `@localpart:server`.
    pub fn as_string(&self) -> (r: String)
        ensures
            r@ == self@,
    {
        proof {
            reveal_strlit("@");
            reveal_strlit(":");
        }
        let mut r = String::from_str("@");
        r.append(self.localpart.as_str());
        r.append(":");
        r.append(self.server_name.as_str());
        proof {
            assert(r@ =~= self@);
        }
        r
    }
}

} // verus!
