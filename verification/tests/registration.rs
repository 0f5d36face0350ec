use synapse_admin::error::{Error, Field, RemoteError};
use synapse_admin::service::{CreateAccountDto, UserService};
use synapse_admin::user::{ThreePid, User};

fn dto(username: &str, password: &str, email: &str) -> CreateAccountDto {
    CreateAccountDto {
        username: username.to_string(),
        password: password.to_string(),
        email: email.to_string(),
        session: "session-1".to_string(),
        code: "code-1".to_string(),
    }
}

fn remote_user(displayname: Option<&str>, threepids: Vec<ThreePid>) -> User {
    User {
        name: "@steve123:example.com".to_string(),
        displayname: displayname.map(|d| d.to_string()),
        threepids,
        avatar_url: None,
        is_guest: false,
        admin: false,
        deactivated: false,
        erased: false,
        shadow_banned: false,
        creation_ts: 0,
        appservice_id: None,
        consent_server_notice_sent: None,
        consent_version: None,
        consent_ts: None,
        external_ids: vec![],
        user_type: None,
        locked: false,
    }
}

fn email_threepid(address: &str) -> ThreePid {
    ThreePid {
        medium: "email".to_string(),
        address: address.to_string(),
        added_at: 1_700_000_000_000,
        validated_at: 1_700_000_000_000,
    }
}

#[test]
fn short_username_is_rejected_before_any_call() {
    let service = UserService::new("example.com".to_string());
    let r = service.register_request(&dto("steve", "verysecure", "steve@example.com"), 1);
    assert_eq!(r.unwrap_err(), Error::Validation(Field::Username));
}

#[test]
fn long_username_is_rejected() {
    let service = UserService::new("example.com".to_string());
    let r = service.register_request(&dto("thirteenchars", "verysecure", "steve@example.com"), 1);
    assert_eq!(r.unwrap_err(), Error::Validation(Field::Username));
}

#[test]
fn short_password_is_rejected() {
    let service = UserService::new("example.com".to_string());
    let r = service.register_request(&dto("steve123", "short12", "steve@example.com"), 1);
    assert_eq!(r.unwrap_err(), Error::Validation(Field::Password));
}

#[test]
fn long_password_is_rejected() {
    let service = UserService::new("example.com".to_string());
    let r = service.register_request(&dto("steve123", "thirteenchars", "steve@example.com"), 1);
    assert_eq!(r.unwrap_err(), Error::Validation(Field::Password));
}

#[test]
fn malformed_email_is_rejected() {
    let service = UserService::new("example.com".to_string());
    for bad in ["not-an-email", "", "steve@", "@example.com", "steve @example.com"] {
        let r = service.register_request(&dto("steve123", "verysecure", bad), 1);
        assert_eq!(r.unwrap_err(), Error::Validation(Field::Email));
    }
}

#[test]
fn valid_request_builds_the_provisioning_write() {
    let service = UserService::new("example.com".to_string());
    let now_ms = 1_700_000_000_000;
    let (user_id, body) = service
        .register_request(&dto("steve123", "verysecure", "steve@example.com"), now_ms)
        .unwrap();
    assert_eq!(user_id.as_string(), "@steve123:example.com");
    assert_eq!(body.password, "verysecure");
    assert_eq!(body.displayname.as_deref(), Some("steve123"));
    assert!(!body.logout_devices);
    assert!(body.avatar_url.is_none());
    assert_eq!(body.threepids.len(), 1);
    assert_eq!(body.threepids[0].medium, "email");
    assert_eq!(body.threepids[0].address, "steve@example.com");
    assert_eq!(body.threepids[0].added_at, now_ms);
    assert_eq!(body.threepids[0].validated_at, now_ms);
    assert!(body.external_ids.is_empty());
    assert!(!body.admin);
    assert!(!body.deactivated);
    assert!(body.user_type.is_none());
    assert!(!body.locked);
}

#[test]
fn empty_displayname_in_response_is_a_domain_error() {
    let user = remote_user(Some(""), vec![email_threepid("steve@example.com")]);
    let r = UserService::register_response("s".to_string(), "c".to_string(), Ok(user));
    assert_eq!(r.unwrap_err(), Error::MissingDisplayName);
}

#[test]
fn absent_displayname_in_response_is_a_domain_error() {
    let user = remote_user(None, vec![email_threepid("steve@example.com")]);
    let r = UserService::register_response("s".to_string(), "c".to_string(), Ok(user));
    assert_eq!(r.unwrap_err(), Error::MissingDisplayName);
}

#[test]
fn missing_threepid_in_response_is_a_domain_error() {
    let user = remote_user(Some("steve123"), vec![]);
    let r = UserService::register_response("s".to_string(), "c".to_string(), Ok(user));
    assert_eq!(r.unwrap_err(), Error::MissingThreePid);
}

#[test]
fn successful_response_reshapes_into_the_local_record() {
    let user = remote_user(Some("steve123"), vec![email_threepid("steve@example.com")]);
    let r = UserService::register_response("session-1".to_string(), "code-1".to_string(), Ok(user))
        .unwrap();
    assert_eq!(r.username, "steve123");
    assert_eq!(r.email, "steve@example.com");
    assert_eq!(r.session, "session-1");
    assert_eq!(r.code, "code-1");
}

#[test]
fn transport_failure_passes_through() {
    let r = UserService::register_response(
        "s".to_string(),
        "c".to_string(),
        Err(RemoteError::Transport("connection refused".to_string())),
    );
    assert_eq!(
        r.unwrap_err(),
        Error::Remote(RemoteError::Transport("connection refused".to_string()))
    );
}

#[test]
fn decode_failure_passes_through() {
    let r = UserService::register_response(
        "s".to_string(),
        "c".to_string(),
        Err(RemoteError::Decode("missing field `name`".to_string())),
    );
    assert_eq!(
        r.unwrap_err(),
        Error::Remote(RemoteError::Decode("missing field `name`".to_string()))
    );
}

#[test]
fn second_registration_of_a_username_surfaces_the_collision() {
    // Scenario: the remote service accepts the first registration of a
    // username and rejects the second as a collision; the second outcome
    // must surface as that distinct failure, never as a silent success.
    let service = UserService::new("example.com".to_string());
    let request = dto("steve123", "verysecure", "steve@example.com");

    let first_plan = service.register_request(&request, 1).unwrap();
    let first_outcome = Ok(remote_user(
        Some("steve123"),
        vec![email_threepid("steve@example.com")],
    ));
    let first = UserService::register_response(
        request.session.clone(),
        request.code.clone(),
        first_outcome,
    );
    assert_eq!(first.unwrap().username, "steve123");

    let second_plan = service.register_request(&request, 2).unwrap();
    assert_eq!(second_plan.0.as_string(), first_plan.0.as_string());
    let second_outcome = Err(RemoteError::Api("User ID already taken.".to_string()));
    let second = UserService::register_response(
        request.session.clone(),
        request.code.clone(),
        second_outcome,
    );
    assert_eq!(
        second.unwrap_err(),
        Error::Remote(RemoteError::Api("User ID already taken.".to_string()))
    );
}

#[test]
fn error_messages_are_not_empty() {
    let errors = [
        Error::Validation(Field::Username),
        Error::Validation(Field::Password),
        Error::Validation(Field::Email),
        Error::MissingDisplayName,
        Error::MissingThreePid,
        Error::Remote(RemoteError::Api("x".to_string())),
    ];
    for e in errors {
        assert!(!e.message().is_empty());
    }
}
