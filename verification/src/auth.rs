//! Authentication utilities around the upgrade gate and the user handlers:
//! password hashing and verification, token issue and verification, the
//! fallback random-identity generator, the clock, and the notifier that
//! broadcasts an event to every registered connection.
//!
//! The cryptographic work itself is done by outside crates behind trusted
//! wrappers; what they return is named or bounded, and everything decided on
//! those results is verified.

use vstd::prelude::*;
use vstd::string::*;
use argon2::password_hash::PasswordHasher;
use rand::Rng;
use argon2::password_hash::PasswordVerifier;
use crate::channel::spec_send;
use crate::payload::{spec_serialize, valid_tag, WSNotifications};
use crate::registry::ConnectionRegistry;

verus! {

/// Whether a stored password hash is a well-formed PHC string, exactly as
/// `argon2::password_hash::PasswordHash::new` accepts it: a function of the
/// string alone.
pub uninterp spec fn phc_parses(h: Seq<char>) -> bool;

/// Whether Argon2d verification (64 MiB memory, 3 iterations, 4 lanes)
/// accepts `password` against the PHC string `h`: a function of the two
/// strings alone.
pub uninterp spec fn argon2d_verifies(password: Seq<char>, h: Seq<char>) -> bool;

/// The subject claim carried inside a signed token: a function of the token
/// text alone.
pub uninterp spec fn jwt_sub_of(token: Seq<char>) -> Seq<char>;

/// An ASCII letter or digit.
pub open spec fn is_alphanumeric_char(c: char) -> bool {
    (48 <= c as u32 && c as u32 <= 57) || (65 <= c as u32 && c as u32 <= 90) || (97 <= c as u32
        && c as u32 <= 122)
}

/// Why an authentication step failed.
#[derive(Debug, PartialEq, Eq, Structural, Clone, Copy)]
pub enum AuthError {
    /// The stored password hash is not a well-formed PHC string.
    InvalidHash,
    /// The token could not be issued or did not verify.
    TokenError,
    /// The clock gave a time the token's expiry cannot be computed from.
    ClockError,
}

/// The claims carried by an issued token: subject id, username, and expiry
/// in seconds since the Unix epoch.
pub struct Claims {
    pub sub: String,
    pub username: String,
    pub exp: u64,
}

/// Seconds a freshly issued token stays valid: seven days.
pub const TOKEN_LIFETIME_SECS: u64 = 604800;

/// Stateless holder of the utility functions.
pub struct Utils {}

impl Utils {
    /// Relies on `std::time::SystemTime::now`: milliseconds since the Unix
    /// epoch as the machine clock reads them, or 0 on a pre-epoch clock.
    /// The value depends on the clock, so nothing is promised of it.
    #[verifier::external_body]
    fn now_millis() -> i64 {
        match std::time::SystemTime::now().duration_since(std::time::UNIX_EPOCH) {
            Ok(d) => d.as_millis() as i64,
            Err(_) => 0,
        }
    }

    /// The clock's current reading in milliseconds since the Unix epoch,
    /// never negative.
    pub fn current_timestamp() -> (r: i64)
        ensures
            r >= 0,
    {
        let ms = Self::now_millis();
        if ms < 0 {
            0
        } else {
            ms
        }
    }

    /// Relies on `argon2::Argon2::hash_password` (Argon2d, version 1.3,
    /// 64 MiB memory, 3 iterations, 4 lanes) with a fresh salt drawn from
    /// rand's thread-local generator: a
    /// returned hash is a PHC string that parses, and that verifies against
    /// the password it was derived from. The salt is random, so the hash
    /// text itself is not a function of the password.
    #[verifier::external_body]
    pub fn hash_password_argon2d(password: &str) -> (r: Result<String, String>)
        ensures
            r matches Ok(h) ==> phc_parses(h@) && argon2d_verifies(password@, h@),
    {
        let mut salt_bytes = [0u8; 16];
        rand::RngCore::fill_bytes(&mut rand::rng(), &mut salt_bytes);
        let salt = argon2::password_hash::SaltString::encode_b64(&salt_bytes).unwrap();
        let argon = argon2::Argon2::new(
            argon2::Algorithm::Argon2d,
            argon2::Version::V0x13,
            argon2::Params::new(65536, 3, 4, None).unwrap(),
        );
        argon.hash_password(password.as_bytes(), &salt).map(|h| h.to_string()).map_err(
            |e| format!("Error al hashear: {}", e),
        )
    }

    /// Relies on `argon2::password_hash::PasswordHash::new` to parse the
    /// stored PHC string, and on `argon2::Argon2::verify_password` with the
    /// same fixed parameters to check the password against it; both are
    /// functions of the two strings alone.
    #[verifier::external_body]
    pub fn verify_password_argon2d(password: &str, stored_hash: &str) -> (r: Result<
        bool,
        AuthError,
    >)
        ensures
            r is Ok <==> phc_parses(stored_hash@),
            r matches Ok(b) ==> b == argon2d_verifies(password@, stored_hash@),
    {
        let parsed = match argon2::password_hash::PasswordHash::new(stored_hash) {
            Ok(p) => p,
            Err(_) => { return Err(AuthError::InvalidHash) },
        };
        let argon = argon2::Argon2::new(
            argon2::Algorithm::Argon2d,
            argon2::Version::V0x13,
            argon2::Params::new(65536, 3, 4, None).unwrap(),
        );
        Ok(argon.verify_password(password.as_bytes(), &parsed).is_ok())
    }

    /// Relies on `jsonwebtoken::encode` with HS256 and the fixed signing
    /// key: a returned token is signed over exactly the claims given, so
    /// decoding it recovers the `sub` claim that was encoded.
    #[verifier::external_body]
    fn encode_claims(claims: &Claims) -> (r: Result<String, AuthError>)
        ensures
            r matches Ok(t) ==> jwt_sub_of(t@) == claims.sub@,
    {
        let key = b"1234afeb";
        let mut m = serde_json::Map::new();
        m.insert("sub".to_string(), serde_json::Value::String(claims.sub.clone()));
        m.insert("username".to_string(), serde_json::Value::String(claims.username.clone()));
        m.insert("exp".to_string(), serde_json::Value::from(claims.exp));
        jsonwebtoken::encode(
            &jsonwebtoken::Header::default(),
            &serde_json::Value::Object(m),
            &jsonwebtoken::EncodingKey::from_secret(key),
        ).map_err(|_| AuthError::TokenError)
    }

    /// Issues a token for the user: claims carry the user's id as subject,
    /// the username, and an expiry seven days from now. On success the
    /// token's subject claim is exactly `id_usuario`.
    pub fn make_jwt(username: &str, id_usuario: &str) -> (r: Result<String, AuthError>)
        ensures
            r matches Ok(t) ==> jwt_sub_of(t@) == id_usuario@,
    {
        let now_ms = Utils::current_timestamp();
        if now_ms < 0 {
            return Err(AuthError::ClockError);
        }
        let now_s: u64 = (now_ms as u64) / 1000;
        if now_s > u64::MAX - TOKEN_LIFETIME_SECS {
            return Err(AuthError::ClockError);
        }
        let claims = Claims {
            sub: String::from_str(id_usuario),
            username: String::from_str(username),
            exp: now_s + TOKEN_LIFETIME_SECS,
        };
        Utils::encode_claims(&claims)
    }

    /// Relies on `jsonwebtoken::decode` with HS256, the fixed key and the
    /// default validation (signature and expiry): on success the returned
    /// subject is the token's `sub` claim. Whether validation passes
    /// depends on the clock, so success is not promised.
    #[verifier::external_body]
    pub fn verifi_token(token: String) -> (r: Result<String, AuthError>)
        ensures
            r matches Ok(s) ==> s@ == jwt_sub_of(token@),
    {
        let key = b"1234afeb";
        match jsonwebtoken::decode::<serde_json::Value>(
            &token,
            &jsonwebtoken::DecodingKey::from_secret(key),
            &jsonwebtoken::Validation::default(),
        ) {
            Ok(data) => match data.claims.get("sub").and_then(|v| v.as_str()) {
                Some(s) => Ok(s.to_string()),
                None => Err(AuthError::TokenError),
            },
            Err(_) => Err(AuthError::TokenError),
        }
    }

    /// Relies on rand's thread-local generator with the `Alphanumeric`
    /// distribution: a random identity whose length is drawn from
    /// `1..=max_largo` and whose characters are ASCII letters and digits.
    /// The content is random, so nothing more is promised.
    #[verifier::external_body]
    pub fn generar_string(max_largo: usize) -> (r: String)
        requires
            1 <= max_largo,
        ensures
            1 <= r@.len() <= max_largo,
            forall|i: int| 0 <= i < r@.len() ==> is_alphanumeric_char(#[trigger] r@[i]),
    {
        let largo = rand::rng().random_range(1..=max_largo);
        rand::distr::SampleString::sample_string(&rand::distr::Alphanumeric, &mut rand::rng(), largo)
    }

    /// The notifier: wraps `event` in a payload frame and broadcasts it to
    /// every registered channel, skipping full or closed ones. A tag that
    /// cannot be serialized makes the call a no-op; no failure ever reaches
    /// the caller, since the mutation that triggered the notification has
    /// already committed.
    pub fn send_ws(clients: &mut ConnectionRegistry, event: &str)
        requires
            old(clients).wf(),
        ensures
            final(clients).wf(),
            valid_tag(event@) ==> final(clients)@.dom() =~= old(clients)@.dom()
                && forall|k: Seq<char>| #[trigger] old(clients)@.dom().contains(k)
                ==> final(clients)@[k] == spec_send(old(clients)@[k], spec_serialize(event@)),
            !valid_tag(event@) ==> final(clients)@ == old(clients)@,
    {
        let payload = WSNotifications::new(String::from_str(event));
        match payload.to_frame() {
            Some(frame) => clients.broadcast(&frame),
            None => {},
        }
    }
}

/// The prefix that introduces a bearer token in an Authorization header.
pub open spec fn bearer_prefix() -> Seq<char> {
    "Bearer "@
}

/// The token text of an Authorization header, when the header carries one.
pub open spec fn spec_bearer_token(header: Seq<char>) -> Option<Seq<char>> {
    if header.len() >= bearer_prefix().len() && header.subrange(
        0,
        bearer_prefix().len() as int,
    ) == bearer_prefix() {
        Some(header.skip(bearer_prefix().len() as int))
    } else {
        None
    }
}

/// Strips the bearer prefix from an Authorization header.
pub fn extract_bearer_token(header: &str) -> (r: Option<String>)
    ensures
        match r {
            Some(t) => spec_bearer_token(header@) == Some(t@),
            None => spec_bearer_token(header@) is None,
        },
{
    proof {
        reveal_strlit("Bearer ");
    }
    let n = header.unicode_len();
    if n < 7 {
        return None;
    }
    let prefix = "Bearer ";
    let mut i: usize = 0;
    while i < 7
        invariant
            i <= 7,
            n == header@.len(),
            n >= 7,
            prefix@ == bearer_prefix(),
            prefix@.len() == 7,
            forall|j: int| 0 <= j < i ==> header@[j] == bearer_prefix()[j],
        decreases 7 - i,
    {
        if header.get_char(i) != prefix.get_char(i) {
            assert(header@.subrange(0, 7) != bearer_prefix()) by {
                assert(header@.subrange(0, 7)[i as int] != bearer_prefix()[i as int]);
            }
            return None;
        }
        i += 1;
    }
    assert(header@.subrange(0, 7) =~= bearer_prefix());
    let token = header.substring_char(7, n);
    proof {
        assert(token@ =~= header@.skip(7));
    }
    Some(token.to_owned())
}

/// The request guard the task handlers run behind: present only when the
/// request carried a bearer token that verified.
pub struct JwtGuard {
    /// The verified subject: the id of the user the request acts for.
    pub id_usuario: String,
}

impl JwtGuard {
    /// Admits a request from its Authorization header: the header must
    /// carry a bearer token, and the token must verify; the guard then
    /// holds the token's subject claim.
    pub fn from_auth_header(header: &str) -> (r: Option<JwtGuard>)
        ensures
            spec_bearer_token(header@) is None ==> r is None,
            r matches Some(g) ==> spec_bearer_token(header@) matches Some(t)
                && g.id_usuario@ == jwt_sub_of(t),
    {
        match extract_bearer_token(header) {
            Some(token) => match Utils::verifi_token(token) {
                Ok(sub) => Some(JwtGuard { id_usuario: sub }),
                Err(_) => None,
            },
            None => None,
        }
    }
}

} // verus!
