//! Sign-in, sign-up and access tokens.
use vstd::prelude::*;
use crate::error::{AppError, ErrorKind, err};
use crate::ids::{ulid_text, ulid_to_string};
use crate::models::Actor;
use crate::text::{lowercase, to_lowercase};
use crate::time::Timestamp;

verus! {

/// The user a request was authenticated as.
#[derive(Clone, Copy, Debug, PartialEq, Eq, Structural)]
pub struct AuthUser {
    pub user_id: u128,
    pub is_admin: bool,
}

/// A sign-in.
#[derive(Clone, Debug)]
pub struct SigninRequest {
    pub username: String,
    pub password: String,
}

/// A sign-up.
#[derive(Clone, Debug)]
pub struct SignupRequest {
    pub username: String,
    pub password: String,
    pub name: Option<String>,
    pub email: Option<String>,
}

/// The signed-in actor, as the client sees it.
#[derive(Clone, Debug)]
pub struct ActorResponse {
    pub id: String,
    pub username: String,
    pub name: Option<String>,
    pub avatar_url: Option<String>,
}

/// The answer to a sign-in or sign-up: an access token and the actor.
#[derive(Clone, Debug)]
pub struct AuthResponse {
    pub token: String,
    pub actor: ActorResponse,
}

/// What `argon2` answers when a password is checked against a stored PHC
/// hash: whether it matches, or the text of the error when the hash cannot
/// be read.
pub uninterp spec fn argon2_verdict(password: Seq<char>, hash: Seq<char>) -> Result<bool, Seq<char>>;

/// `argon2::PasswordHash::new` followed by `Argon2::default().verify_password`:
/// `Ok(true)` when the password matches the hash, `Ok(false)` when it does
/// not, `Err` with the error's text when the hash cannot be parsed. Checking
/// recomputes the hash with the stored salt, so the result depends on the two
/// texts alone; the algorithm is not restated here.
#[verifier::external_body]
fn argon2_verify(password: &str, hash: &str) -> (r: Result<bool, String>)
    ensures
        match r {
            Ok(b) => argon2_verdict(password@, hash@) == Ok::<bool, Seq<char>>(b),
            Err(m) => argon2_verdict(password@, hash@) == Err::<bool, Seq<char>>(m@),
        },
{
    let parsed = match argon2::PasswordHash::new(hash) {
        Ok(p) => p,
        Err(e) => return Err(e.to_string()),
    };
    match <argon2::Argon2 as argon2::PasswordVerifier>::verify_password(&argon2::Argon2::default(), password.as_bytes(), &parsed) {
        Ok(()) => Ok(true),
        Err(_) => Ok(false),
    }
}

/// Whether `password` matches the stored hash; an unreadable hash is an
/// internal error.
pub fn verify_password(password: &str, hash: &str) -> (r: Result<bool, AppError>)
    ensures
        match r {
            Ok(b) => argon2_verdict(password@, hash@) == Ok::<bool, Seq<char>>(b),
            Err(e) => argon2_verdict(password@, hash@) matches Err(m) && e.is(
                ErrorKind::Internal,
                "Password hash parsing error: "@ + m,
            ),
        },
{
    match argon2_verify(password, hash) {
        Ok(b) => Ok(b),
        Err(m) => {
            let mut msg = String::from_str("Password hash parsing error: ");
            msg.append(m.as_str());
            Err(AppError::Internal(msg))
        },
    }
}

/// `argon2`'s `PasswordHasher::hash_password` with `Argon2::default()` and a
/// fresh random salt (`SaltString::generate(&mut OsRng)`): the PHC string of
/// the hash, or the error's text. The salt is random, so the text itself is
/// not stated; what is stated is what the crate's source shows of it: it is
/// written for the default algorithm and version (`$argon2id$v=19$`), and
/// checking the same password against it (`argon2_verify`, which recomputes
/// the hash with the algorithm, version, parameters and salt that the text
/// carries) answers `Ok(true)`.
#[verifier::external_body]
pub(crate) fn argon2_hash(password: &str) -> (r: Result<String, String>)
    ensures
        r matches Ok(h) ==> argon2_verdict(password@, h@) matches Ok(true),
        r matches Ok(h) ==> "$argon2id$v=19$"@.is_prefix_of(h@),
{
    let salt = argon2::password_hash::SaltString::generate(&mut argon2::password_hash::rand_core::OsRng);
    match <argon2::Argon2 as argon2::PasswordHasher>::hash_password(&argon2::Argon2::default(), password.as_bytes(), &salt) {
        Ok(h) => Ok(h.to_string()),
        Err(e) => Err(e.to_string()),
    }
}

/// Hashes a password for storage under a fresh random salt: an Argon2id
/// PHC string that the same password checks against. When the hasher
/// fails, the answer is an internal error that carries its text.
pub fn hash_password(password: &str) -> (r: Result<String, AppError>)
    ensures
        r matches Ok(h) ==> argon2_verdict(password@, h@) matches Ok(true),
        r matches Ok(h) ==> "$argon2id$v=19$"@.is_prefix_of(h@),
        r matches Err(e) ==> e.kind() == ErrorKind::Internal
            && "Password hashing error: "@.is_prefix_of(e.message()),
{
    match argon2_hash(password) {
        Ok(h) => Ok(h),
        Err(m) => {
            let mut msg = String::from_str("Password hashing error: ");
            msg.append(m.as_str());
            Err(AppError::Internal(msg))
        },
    }
}

/// Why a sign-in fails: the same answer for an unknown user, a user without
/// a password, and a wrong password.
pub open spec fn invalid_credentials() -> Seq<char> {
    "Invalid credentials"@
}

/// Checks a sign-in against the user found under its lowercased name (if
/// any): the user must exist, have a password hash, and the password must
/// match it.
pub fn check_signin(actor: Option<&Actor>, password: &str) -> (r: Result<(), AppError>)
    ensures
        r is Ok <==> (actor matches Some(a) && a.password_hash matches Some(h) && argon2_verdict(password@, h@)
            == Ok::<bool, Seq<char>>(true)),
        r matches Err(e) ==> (e.is(ErrorKind::Unauthorized, invalid_credentials()) || (actor matches Some(a)
            && a.password_hash matches Some(h) && argon2_verdict(password@, h@) matches Err(m) && e.is(
            ErrorKind::Internal,
            "Password hash parsing error: "@ + m,
        ))),
        (actor is None || actor.unwrap().password_hash is None || argon2_verdict(
            password@,
            actor.unwrap().password_hash.unwrap()@,
        ) == Ok::<bool, Seq<char>>(false)) ==> (r matches Err(e) && e.is(ErrorKind::Unauthorized, invalid_credentials())),
{
    let a = match actor {
        Some(a) => a,
        None => {
            return Err(err(ErrorKind::Unauthorized, "Invalid credentials"));
        },
    };
    let hash = match &a.password_hash {
        Some(h) => h,
        None => {
            return Err(err(ErrorKind::Unauthorized, "Invalid credentials"));
        },
    };
    match verify_password(password, hash.as_str()) {
        Ok(true) => Ok(()),
        Ok(false) => Err(err(ErrorKind::Unauthorized, "Invalid credentials")),
        Err(e) => Err(e),
    }
}

/// The access token `jsonwebtoken` encodes (HS256, default header) for the
/// claims `{sub, exp, iat, typ}` under a secret, or `None` when encoding
/// fails.
pub uninterp spec fn jwt_hs256(sub: Seq<char>, exp: int, iat: int, typ: Seq<char>, secret: Seq<char>) -> Option<Seq<char>>;

/// `jsonwebtoken::encode` with `Header::default()` (HS256) and
/// `EncodingKey::from_secret`, over the JSON object of the four claims. HMAC
/// signing is deterministic, so the token depends on the claims and secret
/// alone; the format is not restated here.
#[verifier::external_body]
fn encode_jwt(sub: &str, exp: i64, iat: i64, typ: &str, secret: &str) -> (r: Option<String>)
    ensures
        match r {
            Some(t) => jwt_hs256(sub@, exp as int, iat as int, typ@, secret@) == Some(t@),
            None => jwt_hs256(sub@, exp as int, iat as int, typ@, secret@) is None,
        },
{
    let mut claims = serde_json::Map::new();
    claims.insert("sub".to_string(), serde_json::Value::from(sub));
    claims.insert("exp".to_string(), serde_json::Value::from(exp));
    claims.insert("iat".to_string(), serde_json::Value::from(iat));
    claims.insert("typ".to_string(), serde_json::Value::from(typ));
    jsonwebtoken::encode(
        &jsonwebtoken::Header::default(),
        &serde_json::Value::Object(claims),
        &jsonwebtoken::EncodingKey::from_secret(secret.as_bytes()),
    ).ok()
}

/// An access token for a user, issued at `now_secs` and expiring
/// `expiry_hours` later; an encoding failure is an internal error. The
/// lifetime must be one `chrono` can hold and end within its range of time.
pub fn generate_token(user_id: &str, now_secs: i64, expiry_hours: i64, secret: &str) -> (r: Result<String, AppError>)
    requires
        -2562047788015 <= expiry_hours <= 2562047788015,
        crate::time::MIN_SECS <= now_secs <= crate::time::MAX_SECS,
        crate::time::MIN_SECS <= now_secs + expiry_hours * 3600 <= crate::time::MAX_SECS,
    ensures
        match r {
            Ok(t) => jwt_hs256(user_id@, now_secs + expiry_hours * 3600, now_secs as int, "access"@, secret@)
                == Some(t@),
            Err(e) => jwt_hs256(user_id@, now_secs + expiry_hours * 3600, now_secs as int, "access"@, secret@)
                is None && e.kind() == ErrorKind::Internal,
        },
{
    assert(-9223372036854000 <= expiry_hours * 3600 <= 9223372036854000) by (nonlinear_arith)
        requires
            -2562047788015 <= expiry_hours <= 2562047788015,
    {
    }
    let exp: i64 = now_secs + expiry_hours * 3600;
    match encode_jwt(user_id, exp, now_secs, "access", secret) {
        Some(t) => Ok(t),
        None => Err(err(ErrorKind::Internal, "JWT encoding error")),
    }
}

/// The actor part of an authentication answer.
pub fn actor_response(actor: &Actor) -> (r: ActorResponse)
    ensures
        r.id@ == ulid_text(actor.id),
        r.username@ == actor.username@,
        r.name == actor.name,
        r.avatar_url == actor.avatar_url,
{
    ActorResponse {
        id: ulid_to_string(actor.id),
        username: actor.username.clone(),
        name: actor.name.clone(),
        avatar_url: actor.avatar_url.clone(),
    }
}

/// A sign-up is refused when the lowercased name is taken.
pub fn check_signup_available(existing: bool) -> (r: Result<(), AppError>)
    ensures
        r is Ok <==> !existing,
        r matches Err(e) ==> e.is(ErrorKind::Validation, "Username already taken"@),
{
    if existing {
        return Err(err(ErrorKind::Validation, "Username already taken"));
    }
    Ok(())
}

/// `a` is the local user a sign-up creates with id `id` at `now`: named and
/// reachable as the sign-up says, with nothing posted or followed yet and no
/// flag set. Its password hash is not part of this.
pub open spec fn fresh_local_actor(a: Actor, id: u128, now: Timestamp, req: SignupRequest) -> bool {
    &&& a.id == id
    &&& a.created_at == now
    &&& a.updated_at is None
    &&& a.username@ == req.username@
    &&& a.username_lower@ == lowercase(req.username@)
    &&& a.name == req.name
    &&& a.email == req.email
    &&& a.host is None
    &&& a.uri is None
    &&& a.followers_count == 0 && a.following_count == 0 && a.notes_count == 0
    &&& !a.is_suspended && !a.is_locked && !a.is_bot && !a.is_admin
}

/// A new local user with id `id`, created at `now`, holding the password
/// hash and e-mail of the sign-up.
pub fn new_local_actor(id: u128, now: Timestamp, req: SignupRequest, password_hash: String) -> (a: Actor)
    ensures
        fresh_local_actor(a, id, now, req),
        a.password_hash == Some(password_hash),
{
    let username_lower = to_lowercase(req.username.as_str());
    Actor {
        id,
        created_at: now,
        updated_at: None,
        username: req.username,
        username_lower,
        name: req.name,
        bio: None,
        followers_count: 0,
        following_count: 0,
        notes_count: 0,
        avatar_url: None,
        banner_url: None,
        is_suspended: false,
        is_locked: false,
        is_bot: false,
        is_admin: false,
        host: None,
        inbox: None,
        shared_inbox: None,
        featured: None,
        uri: None,
        public_key: None,
        private_key: None,
        token: None,
        password_hash: Some(password_hash),
        email: req.email,
    }
}

/// The user a sign-up creates, its password hashed under a fresh salt; the
/// hasher's failure when it fails.
pub fn signup_actor(id: u128, now: Timestamp, req: SignupRequest) -> (r: Result<Actor, AppError>)
    ensures
        match r {
            Ok(a) => fresh_local_actor(a, id, now, req) && a.password_hash is Some,
            Err(e) => e.kind() == ErrorKind::Internal && "Password hashing error: "@.is_prefix_of(e.message()),
        },
{
    let hash = match hash_password(req.password.as_str()) {
        Ok(h) => h,
        Err(e) => return Err(e),
    };
    Ok(new_local_actor(id, now, req, hash))
}

} // verus!
