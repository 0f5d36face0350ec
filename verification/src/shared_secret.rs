//! Shared-secret registration: an out-of-band account-creation flow
//! authenticated by a pre-shared key. The caller fetches a single-use nonce,
//! computes a keyed MAC over the registration fields, and submits both; the
//! remote service recomputes the MAC with the same secret and rejects on
//! mismatch or nonce reuse.
//!
//! The MAC is an HMAC-SHA1 digest, hex-encoded, over the null-byte join of
//! nonce, username, password, the literal admin-flag token (`admin` or
//! `notadmin`) and, when present, the user type. Field order and separator
//! are part of the wire contract.

use hmac::{KeyInit, Mac};
use vstd::prelude::*;
use vstd::string::StrSliceExecFns;
use vstd::utf8::encode_utf8;

use crate::encoding::{hex_encode, hex_of};
use crate::error::Error;

verus! {

/// What an HMAC-SHA1 computation returns: a function of the key and the
/// message alone.
pub uninterp spec fn hmac_sha1(key: Seq<u8>, message: Seq<u8>) -> Seq<u8>;

/// Relies on `hmac::Hmac<sha1::Sha1>`: the digest is a deterministic
/// function of the key and the message, 20 bytes long (SHA-1's output
/// size). HMAC accepts keys of any length, so initialization cannot fail.
#[verifier::external_body]
fn hmac_sha1_digest(key: &Vec<u8>, message: &Vec<u8>) -> (r: Vec<u8>)
    ensures
        r@ == hmac_sha1(key@, message@),
        r@.len() == 20,
{
    let mut mac = <hmac::Hmac<sha1::Sha1>>::new_from_slice(key.as_slice())
        .expect("HMAC accepts keys of any length");
    mac.update(message.as_slice());
    mac.finalize().into_bytes().to_vec()
}

/// The admin-flag token of the MAC message, in ASCII: `admin` or `notadmin`.
pub open spec fn admin_token(admin: bool) -> Seq<u8> {
    if admin {
        seq![97u8, 100u8, 109u8, 105u8, 110u8]
    } else {
        seq![110u8, 111u8, 116u8, 97u8, 100u8, 109u8, 105u8, 110u8]
    }
}

/// The canonical MAC message: the null-byte join of nonce, username,
/// password and admin-flag token, with the user type appended after one
/// more null byte when present.
pub open spec fn mac_message(
    nonce: Seq<u8>,
    username: Seq<u8>,
    password: Seq<u8>,
    admin: bool,
    user_type: Option<Seq<u8>>,
) -> Seq<u8> {
    let head = nonce + seq![0u8] + username + seq![0u8] + password + seq![0u8] + admin_token(
        admin,
    );
    match user_type {
        Some(t) => head + seq![0u8] + t,
        None => head,
    }
}

/// The authorization code that `generate_mac` returns, as a function of its
/// inputs: the hex rendering of the HMAC-SHA1 digest of the canonical
/// message, keyed by the shared secret. Strings enter the MAC in their
/// UTF-8 encoding.
pub open spec fn mac_of(
    secret: Seq<char>,
    nonce: Seq<char>,
    username: Seq<char>,
    password: Seq<char>,
    admin: bool,
    user_type: Option<Seq<char>>,
) -> Seq<char> {
    let key = encode_utf8(secret);
    let message = mac_message(
        encode_utf8(nonce),
        encode_utf8(username),
        encode_utf8(password),
        admin,
        match user_type {
            Some(t) => Some(encode_utf8(t)),
            None => None,
        },
    );
    hex_of(hmac_sha1(key, message))
}

fn push_admin_token(message: &mut Vec<u8>, admin: bool)
    ensures
        final(message)@ == old(message)@ + admin_token(admin),
{
    if admin {
        // "admin" in ASCII
        message.push(97);
        message.push(100);
        message.push(109);
        message.push(105);
        message.push(110);
    } else {
        // "notadmin" in ASCII
        message.push(110);
        message.push(111);
        message.push(116);
        message.push(97);
        message.push(100);
        message.push(109);
        message.push(105);
        message.push(110);
    }
    proof {
        assert(message@ =~= old(message)@ + admin_token(admin));
    }
}

/// What the nonce endpoint returns: a single-use, server-issued challenge.
#[derive(Debug, Clone)]
pub struct Nonce {
    pub nonce: String,
}

/// The request body of the shared-secret registration endpoint.
#[derive(Debug, Clone)]
pub struct SharedSecretRegistrationDto {
    pub nonce: String,
    pub username: String,
    pub displayname: Option<String>,
    pub password: String,
    pub admin: bool,
    pub mac: String,
}

/// What the shared-secret registration endpoint returns on success.
#[derive(Debug, Clone)]
pub struct SharedSecretRegistration {
    pub access_token: String,
    pub user_id: String,
}

impl SharedSecretRegistration {
    /// Computes the authorization code of the shared-secret registration
    /// handshake. Always succeeds, and returns exactly the hex-encoded
    /// HMAC-SHA1 digest of the canonical message keyed by the secret.
    pub fn generate_mac(
        secret: String,
        nonce: String,
        username: String,
        password: String,
        admin: bool,
        user_type: Option<String>,
    ) -> (r: Result<String, Error>)
        ensures
            r is Ok,
            r->Ok_0@ == mac_of(
                secret@,
                nonce@,
                username@,
                password@,
                admin,
                user_type.deep_view(),
            ),
    {
        let key = secret.as_str().as_bytes_vec();
        let mut message = nonce.as_str().as_bytes_vec();
        message.push(0);
        let mut username_bytes = username.as_str().as_bytes_vec();
        message.append(&mut username_bytes);
        message.push(0);
        let mut password_bytes = password.as_str().as_bytes_vec();
        message.append(&mut password_bytes);
        message.push(0);
        push_admin_token(&mut message, admin);
        match &user_type {
            Some(t) => {
                message.push(0);
                let mut type_bytes = t.as_str().as_bytes_vec();
                message.append(&mut type_bytes);
            },
            None => {},
        }
        proof {
            assert(message@ =~= mac_message(
                encode_utf8(nonce@),
                encode_utf8(username@),
                encode_utf8(password@),
                admin,
                match user_type.deep_view() {
                    Some(t) => Some(encode_utf8(t)),
                    None => None,
                },
            ));
        }
        let digest = hmac_sha1_digest(&key, &message);
        Ok(hex_encode(&digest))
    }
}

/// The MAC is deterministic: two computations over pairwise equal inputs
/// yield the identical digest. (`generate_mac` returns `mac_of` of its
/// inputs exactly, so this holds of any two of its calls.)
pub proof fn lemma_mac_deterministic(
    secret1: Seq<char>,
    nonce1: Seq<char>,
    username1: Seq<char>,
    password1: Seq<char>,
    admin1: bool,
    user_type1: Option<Seq<char>>,
    secret2: Seq<char>,
    nonce2: Seq<char>,
    username2: Seq<char>,
    password2: Seq<char>,
    admin2: bool,
    user_type2: Option<Seq<char>>,
)
    requires
        secret1 == secret2,
        nonce1 == nonce2,
        username1 == username2,
        password1 == password2,
        admin1 == admin2,
        user_type1 == user_type2,
    ensures
        mac_of(secret1, nonce1, username1, password1, admin1, user_type1) == mac_of(
            secret2,
            nonce2,
            username2,
            password2,
            admin2,
            user_type2,
        ),
{
}

/// A segment of a concatenation is determined by what stands around it:
/// two equal concatenations with the same prefix and suffix hold the same
/// segment between them.
proof fn lemma_affix_cancel(pre: Seq<u8>, x1: Seq<u8>, x2: Seq<u8>, suf: Seq<u8>)
    requires
        pre + x1 + suf == pre + x2 + suf,
    ensures
        x1 == x2,
{
    assert((pre + x1 + suf).len() == pre.len() + x1.len() + suf.len());
    assert((pre + x2 + suf).len() == pre.len() + x2.len() + suf.len());
    assert(x1.len() == x2.len());
    assert forall|i: int| 0 <= i < x1.len() implies x1[i] == x2[i] by {
        assert((pre + x1 + suf)[pre.len() + i] == x1[i]);
        assert((pre + x2 + suf)[pre.len() + i] == x2[i]);
    }
    assert(x1 =~= x2);
}

/// Changing the nonce alone changes the canonical MAC message.
pub proof fn lemma_mac_message_nonce_distinct(
    nonce1: Seq<u8>,
    nonce2: Seq<u8>,
    username: Seq<u8>,
    password: Seq<u8>,
    admin: bool,
    user_type: Option<Seq<u8>>,
)
    requires
        nonce1 != nonce2,
    ensures
        mac_message(nonce1, username, password, admin, user_type) != mac_message(
            nonce2,
            username,
            password,
            admin,
            user_type,
        ),
{
    let m1 = mac_message(nonce1, username, password, admin, user_type);
    let m2 = mac_message(nonce2, username, password, admin, user_type);
    let suf = seq![0u8] + username + seq![0u8] + password + seq![0u8] + admin_token(admin) + (
    match user_type {
        Some(t) => seq![0u8] + t,
        None => seq![],
    });
    assert(m1 =~= seq![] + nonce1 + suf);
    assert(m2 =~= seq![] + nonce2 + suf);
    if m1 == m2 {
        lemma_affix_cancel(seq![], nonce1, nonce2, suf);
    }
}

/// Changing the username alone changes the canonical MAC message.
pub proof fn lemma_mac_message_username_distinct(
    nonce: Seq<u8>,
    username1: Seq<u8>,
    username2: Seq<u8>,
    password: Seq<u8>,
    admin: bool,
    user_type: Option<Seq<u8>>,
)
    requires
        username1 != username2,
    ensures
        mac_message(nonce, username1, password, admin, user_type) != mac_message(
            nonce,
            username2,
            password,
            admin,
            user_type,
        ),
{
    let m1 = mac_message(nonce, username1, password, admin, user_type);
    let m2 = mac_message(nonce, username2, password, admin, user_type);
    let pre = nonce + seq![0u8];
    let suf = seq![0u8] + password + seq![0u8] + admin_token(admin) + (match user_type {
        Some(t) => seq![0u8] + t,
        None => seq![],
    });
    assert(m1 =~= pre + username1 + suf);
    assert(m2 =~= pre + username2 + suf);
    if m1 == m2 {
        lemma_affix_cancel(pre, username1, username2, suf);
    }
}

/// Changing the password alone changes the canonical MAC message.
pub proof fn lemma_mac_message_password_distinct(
    nonce: Seq<u8>,
    username: Seq<u8>,
    password1: Seq<u8>,
    password2: Seq<u8>,
    admin: bool,
    user_type: Option<Seq<u8>>,
)
    requires
        password1 != password2,
    ensures
        mac_message(nonce, username, password1, admin, user_type) != mac_message(
            nonce,
            username,
            password2,
            admin,
            user_type,
        ),
{
    let m1 = mac_message(nonce, username, password1, admin, user_type);
    let m2 = mac_message(nonce, username, password2, admin, user_type);
    let pre = nonce + seq![0u8] + username + seq![0u8];
    let suf = seq![0u8] + admin_token(admin) + (match user_type {
        Some(t) => seq![0u8] + t,
        None => seq![],
    });
    assert(m1 =~= pre + password1 + suf);
    assert(m2 =~= pre + password2 + suf);
    if m1 == m2 {
        lemma_affix_cancel(pre, password1, password2, suf);
    }
}

/// Changing the user type alone changes the canonical MAC message.
pub proof fn lemma_mac_message_user_type_distinct(
    nonce: Seq<u8>,
    username: Seq<u8>,
    password: Seq<u8>,
    admin: bool,
    user_type1: Option<Seq<u8>>,
    user_type2: Option<Seq<u8>>,
)
    requires
        user_type1 != user_type2,
    ensures
        mac_message(nonce, username, password, admin, user_type1) != mac_message(
            nonce,
            username,
            password,
            admin,
            user_type2,
        ),
{
    let m1 = mac_message(nonce, username, password, admin, user_type1);
    let m2 = mac_message(nonce, username, password, admin, user_type2);
    let pre = nonce + seq![0u8] + username + seq![0u8] + password + seq![0u8] + admin_token(admin)
        + seq![0u8];
    match (user_type1, user_type2) {
        (Some(t1), Some(t2)) => {
            assert(m1 =~= pre + t1 + seq![]);
            assert(m2 =~= pre + t2 + seq![]);
            if m1 == m2 {
                lemma_affix_cancel(pre, t1, t2, seq![]);
            }
        },
        (Some(t1), None) => {
            assert(m1.len() > m2.len());
        },
        (None, Some(t2)) => {
            assert(m2.len() > m1.len());
        },
        (None, None) => {},
    }
}

/// Differing admin flags can never collide at the message level: with every
/// other field equal, the canonical MAC messages differ (their lengths
/// already differ, since the two admin-flag tokens differ in length).
pub proof fn lemma_mac_message_admin_distinct(
    nonce: Seq<u8>,
    username: Seq<u8>,
    password: Seq<u8>,
    admin1: bool,
    admin2: bool,
    user_type: Option<Seq<u8>>,
)
    requires
        admin1 != admin2,
    ensures
        mac_message(nonce, username, password, admin1, user_type) != mac_message(
            nonce,
            username,
            password,
            admin2,
            user_type,
        ),
{
    let m1 = mac_message(nonce, username, password, admin1, user_type);
    let m2 = mac_message(nonce, username, password, admin2, user_type);
    assert(m1.len() != m2.len());
}

} // verus!
