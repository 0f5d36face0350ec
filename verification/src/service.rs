//! The registration service: validates a create-account request, builds the
//! admin API write that provisions the user, and reshapes the remote
//! response into a local user record.
//!
//! Registration is one remote call between two verified steps:
//! [`UserService::register_request`] validates the request and builds the
//! write (no network call is owed, or made, on validation failure), and
//! [`UserService::register_response`] checks the remote response's
//! invariants and produces the record. The transport performs the call in
//! between and hands back either the decoded resource or the failure.

use vstd::prelude::*;
use vstd::string::StrSliceExecFns;

use crate::error::{Error, Field, RemoteError};
use crate::model;
use crate::user::{ThreePid, User, UserCreateDto};
use crate::user_id::UserId;

verus! {

/// What the email validator returns on a given address: a function of the
/// string alone.
pub uninterp spec fn email_valid(address: Seq<char>) -> bool;

/// Relies on `validator::ValidateEmail` for `&str`: validates an address
/// against the HTML5 email grammar, a deterministic function of the string.
#[verifier::external_body]
fn check_email(address: &str) -> (r: bool)
    ensures
        r == email_valid(address@),
{
    validator::ValidateEmail::validate_email(&address)
}

/// The length bound that usernames and passwords must meet: 8 to 12
/// characters.
pub open spec fn len_ok(s: Seq<char>) -> bool {
    8 <= s.len() <= 12
}

/// A create-account request, as the caller constructs it. Validated once
/// before use: username and password must be 8 to 12 characters and the
/// email must be a valid address. Session and code are accepted and passed
/// through; this component does not verify them.
#[derive(Debug, Clone)]
pub struct CreateAccountDto {
    pub username: String,
    pub password: String,
    pub email: String,
    pub session: String,
    pub code: String,
}

impl CreateAccountDto {
    /// The request passes validation: both length bounds hold and the email
    /// is a valid address.
    pub open spec fn spec_valid(&self) -> bool {
        len_ok(self.username@) && len_ok(self.password@) && email_valid(self.email@)
    }
}

/// The registration service, configured with the server name that
/// qualifies new user identifiers.
pub struct UserService {
    server_name: String,
}

impl UserService {
    /// The configured server name.
    pub closed spec fn spec_server_name(&self) -> Seq<char> {
        self.server_name@
    }

    /// Configures the service with the server name new identifiers are
    /// qualified with.
    pub fn new(server_name: String) -> (r: Self)
        ensures
            r.spec_server_name() == server_name@,
    {
        UserService { server_name }
    }

    /// Validates a create-account request, reporting the first field (in
    /// declaration order) that violates its constraint. Returns `Ok` if and
    /// only if the request is valid; no network call is owed on `Err`.
    pub fn validate(dto: &CreateAccountDto) -> (r: Result<(), Error>)
        ensures
            r is Ok <==> dto.spec_valid(),
            !len_ok(dto.username@) ==> r == Err::<(), Error>(Error::Validation(Field::Username)),
            len_ok(dto.username@) && !len_ok(dto.password@) ==> r == Err::<(), Error>(
                Error::Validation(Field::Password),
            ),
            len_ok(dto.username@) && len_ok(dto.password@) && !email_valid(dto.email@) ==> r
                == Err::<(), Error>(Error::Validation(Field::Email)),
    {
        let username_len = dto.username.as_str().unicode_len();
        if username_len < 8 || username_len > 12 {
            return Err(Error::Validation(Field::Username));
        }
        let password_len = dto.password.as_str().unicode_len();
        if password_len < 8 || password_len > 12 {
            return Err(Error::Validation(Field::Password));
        }
        if !check_email(dto.email.as_str()) {
            return Err(Error::Validation(Field::Email));
        }
        Ok(())
    }

    /// Validates the request and builds the admin API write that provisions
    /// the account: the identifier `@username:server`, and a creation body
    /// with the username as display name, one email third-party identifier
    /// timestamped `now_ms` for both added and validated (email
    /// verification is treated as already completed out of band), and every
    /// administrative, deactivation and lock flag off.
    ///
    /// Fails, field-specifically and exactly as [`UserService::validate`]
    /// does, if and only if the request is invalid; the transport must not
    /// be called in that case.
    pub fn register_request(&self, dto: &CreateAccountDto, now_ms: u64) -> (r: Result<
        (UserId, UserCreateDto),
        Error,
    >)
        ensures
            r is Ok <==> dto.spec_valid(),
            !len_ok(dto.username@) ==> r == Err::<(UserId, UserCreateDto), Error>(
                Error::Validation(Field::Username),
            ),
            len_ok(dto.username@) && !len_ok(dto.password@) ==> r == Err::<
                (UserId, UserCreateDto),
                Error,
            >(Error::Validation(Field::Password)),
            len_ok(dto.username@) && len_ok(dto.password@) && !email_valid(dto.email@) ==> r
                == Err::<(UserId, UserCreateDto), Error>(Error::Validation(Field::Email)),
            r matches Ok(plan) ==> {
                &&& plan.0@ == seq!['@'] + dto.username@ + seq![':'] + self.spec_server_name()
                &&& plan.1.password@ == dto.password@
                &&& plan.1.logout_devices == false
                &&& plan.1.displayname matches Some(d) && d@ == dto.username@
                &&& plan.1.avatar_url is None
                &&& plan.1.threepids@.len() == 1
                &&& plan.1.threepids@[0].medium@ == "email"@
                &&& plan.1.threepids@[0].address@ == dto.email@
                &&& plan.1.threepids@[0].added_at == now_ms
                &&& plan.1.threepids@[0].validated_at == now_ms
                &&& plan.1.external_ids@.len() == 0
                &&& plan.1.admin == false
                &&& plan.1.deactivated == false
                &&& plan.1.user_type is None
                &&& plan.1.locked == false
            },
    {
        let validated = Self::validate(dto);
        match validated {
            Err(e) => Err(e),
            Ok(()) => {
                let user_id = UserId::new(dto.username.clone(), self.server_name.clone());
                let threepid = ThreePid {
                    medium: String::from_str("email"),
                    address: dto.email.clone(),
                    added_at: now_ms,
                    validated_at: now_ms,
                };
                let mut threepids: Vec<ThreePid> = Vec::new();
                threepids.push(threepid);
                let body = UserCreateDto {
                    password: dto.password.clone(),
                    logout_devices: false,
                    displayname: Some(dto.username.clone()),
                    avatar_url: None,
                    threepids,
                    external_ids: Vec::new(),
                    admin: false,
                    deactivated: false,
                    user_type: None,
                    locked: false,
                };
                Ok((user_id, body))
            },
        }
    }

    /// Reshapes the remote outcome of the provisioning call into a local
    /// user record. A remote failure passes through untouched. A resource
    /// without a non-empty display name, or without a third-party
    /// identifier, violates the remote contract and is reported as the
    /// matching domain error, never defaulted. Otherwise the record carries
    /// the display name as username, the first third-party identifier's
    /// address as email, and the request's session and code.
    pub fn register_response(session: String, code: String, outcome: Result<User, RemoteError>) -> (r:
        Result<model::User, Error>)
        ensures
            outcome matches Err(e) ==> r == Err::<model::User, Error>(Error::Remote(e)),
            outcome matches Ok(u) ==> ({
                let displayname_ok = u.displayname is Some && u.displayname->0@.len() > 0;
                &&& !displayname_ok ==> r == Err::<model::User, Error>(Error::MissingDisplayName)
                &&& displayname_ok && u.threepids@.len() == 0 ==> r == Err::<model::User, Error>(
                    Error::MissingThreePid,
                )
                &&& displayname_ok && u.threepids@.len() > 0 ==> {
                    &&& r is Ok
                    &&& r->Ok_0.username@ == u.displayname->0@
                    &&& r->Ok_0.email@ == u.threepids@[0].address@
                    &&& r->Ok_0.session@ == session@
                    &&& r->Ok_0.code@ == code@
                }
            }),
    {
        match outcome {
            Err(e) => Err(Error::Remote(e)),
            Ok(u) => {
                let displayname = match u.displayname {
                    Some(d) => {
                        if d.as_str().is_empty() {
                            return Err(Error::MissingDisplayName);
                        }
                        d
                    },
                    None => {
                        return Err(Error::MissingDisplayName);
                    },
                };
                if u.threepids.len() == 0 {
                    return Err(Error::MissingThreePid);
                }
                let email = u.threepids[0].address.clone();
                Ok(model::User { username: displayname, email, session, code })
            },
        }
    }
}

} // verus!
