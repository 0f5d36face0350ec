//! The local user record: the reshaped subset of the remote resource that a
//! successful registration produces.

use vstd::prelude::*;

verus! {

/// A locally held user record. Produced only when the remote resource
/// carried a non-empty display name and at least one third-party
/// identifier; the session and code fields pass through from the request.
#[derive(Debug, Clone)]
pub struct User {
    pub username: String,
    pub email: String,
    pub session: String,
    pub code: String,
}

} // verus!
