//! The failure taxonomy of the library: field-level input validation errors,
//! invariant violations in a remote response, and remote-side failures
//! (transport, schema mismatch, or a business error carried as the remote
//! service's own message).

use vstd::prelude::*;

verus! {

/// The request field on which validation failed.
#[derive(Debug, Clone, PartialEq, Eq)]
pub enum Field {
    Username,
    Password,
    Email,
}

/// A failure of the remote call itself, handed in by the transport layer.
#[derive(Debug, Clone, PartialEq, Eq)]
pub enum RemoteError {
    /// The network call failed; carries the transport's message.
    Transport(String),
    /// The response body did not match the expected schema.
    Decode(String),
    /// The remote service rejected the operation (collision, bad MAC,
    /// expired nonce, ...); carries the remote error message opaquely.
    Api(String),
}

/// Any failure that an operation of this library can report.
#[derive(Debug, Clone, PartialEq, Eq)]
pub enum Error {
    /// The request failed validation before any network call was made.
    Validation(Field),
    /// The remote response carried no display name, or an empty one.
    MissingDisplayName,
    /// The remote response carried no third-party identifier.
    MissingThreePid,
    /// The remote call failed; never swallowed, always passed through.
    Remote(RemoteError),
}

impl Error {
    /// A short descriptive message for the failure, for callers that log.
    pub fn message(&self) -> (r: &'static str)
        ensures
            r@.len() > 0,
    {
        let r = match self {
            Error::Validation(Field::Username) => "username must be 8 to 12 characters",
            Error::Validation(Field::Password) => "password must be 8 to 12 characters",
            Error::Validation(Field::Email) => "email is not a valid address",
            Error::MissingDisplayName => "displayname is empty, this value cannot be empty",
            Error::MissingThreePid => "threepid should exist, this value cannot be empty",
            Error::Remote(RemoteError::Transport(_)) => "the network call failed",
            Error::Remote(RemoteError::Decode(_)) => "the response did not match the schema",
            Error::Remote(RemoteError::Api(_)) => "the remote service rejected the operation",
        };
        proof {
            reveal_strlit("username must be 8 to 12 characters");
            reveal_strlit("password must be 8 to 12 characters");
            reveal_strlit("email is not a valid address");
            reveal_strlit("displayname is empty, this value cannot be empty");
            reveal_strlit("threepid should exist, this value cannot be empty");
            reveal_strlit("the network call failed");
            reveal_strlit("the response did not match the schema");
            reveal_strlit("the remote service rejected the operation");
        }
        r
    }
}

} // verus!
