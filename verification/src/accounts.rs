//! The credential flow: stored user accounts, the one-way password check,
//! token signing for a fresh login or registration, and the decision logic
//! of both flows. The store lookups themselves happen outside; the
//! decisions on what they returned are made and verified here.

use vstd::prelude::*;

verus! {

use crate::dtos;
use crate::dtos::Error;
use crate::token::{claims_for, issue_token, token_of, SigningError, MAX_TIMESTAMP};

/// A stored user account row (the creation time is carried as whole
/// seconds since the epoch).
#[derive(Debug, Clone)]
pub struct User {
    pub id: i64,
    pub username: String,
    pub password: String,
    pub role: String,
    pub created_at: i64,
}

/// The authenticated-user body of the credential endpoints.
#[derive(Debug, Clone)]
pub struct Response {
    pub id: i64,
    pub username: String,
    pub role: String,
}

impl vstd::std_specs::convert::FromSpecImpl<User> for Response {
    open spec fn obeys_from_spec() -> bool {
        true
    }

    open spec fn from_spec(u: User) -> Self {
        Response { id: u.id, username: u.username, role: u.role }
    }
}

impl From<User> for Response {
    /// Strips an account row down to its public identity.
    fn from(u: User) -> Self {
        Response { id: u.id, username: u.username, role: u.role }
    }
}

/// The authenticated-user body carrying the account's creation time.
#[derive(Debug, Clone)]
pub struct TimestampResponse {
    pub id: i64,
    pub username: String,
    pub role: String,
    pub created_at: i64,
}

impl vstd::std_specs::convert::FromSpecImpl<User> for TimestampResponse {
    open spec fn obeys_from_spec() -> bool {
        true
    }

    open spec fn from_spec(u: User) -> Self {
        TimestampResponse {
            id: u.id,
            username: u.username,
            role: u.role,
            created_at: u.created_at,
        }
    }
}

impl From<User> for TimestampResponse {
    /// Strips an account row down to its public identity and creation
    /// time.
    fn from(u: User) -> Self {
        TimestampResponse { id: u.id, username: u.username, role: u.role, created_at: u.created_at }
    }
}

/// Whether a plaintext password matches a stored bcrypt hash: a function
/// of the two alone, and not reversible.
pub uninterp spec fn bcrypt_matches(password: Seq<char>, hash: Seq<char>) -> bool;

/// Whether a stored string is a hash the password check can work against:
/// a well-formed bcrypt hash with an in-range cost, a function of the
/// stored string alone.
pub uninterp spec fn bcrypt_checkable(hash: Seq<char>) -> bool;

/// Relies on `bcrypt::verify`: re-derives the hash from the password and
/// the salt and cost embedded in the stored hash and compares; the verdict
/// depends on the password and the stored hash alone. It returns an error
/// exactly when the stored hash is unusable (malformed, or its cost out of
/// range) - a condition of the stored string alone, never of the password.
#[verifier::external_body]
fn bcrypt_verify(password: &str, hash: &str) -> (r: Result<bool, ()>)
    ensures
        r is Ok <==> bcrypt_checkable(hash@),
        r matches Ok(b) ==> b == bcrypt_matches(password@, hash@),
{
    match bcrypt::verify(password, hash) {
        Ok(b) => Ok(b),
        Err(_) => Err(()),
    }
}

/// Relies on `bcrypt::hash` at the crate's default cost: the salt is drawn
/// fresh, so the text differs from call to call, but whatever came back,
/// verifying the same password against it succeeds (it is a well-formed
/// hash of that password).
#[verifier::external_body]
fn bcrypt_hash(password: &str) -> (r: Result<String, ()>)
    ensures
        r matches Ok(h) ==> bcrypt_checkable(h@) && bcrypt_matches(password@, h@),
{
    match bcrypt::hash(password, bcrypt::DEFAULT_COST) {
        Ok(h) => Ok(h),
        Err(_) => Err(()),
    }
}

/// Hashes a password for storage. A later login with the same password
/// will pass the check against the stored result.
pub fn hash_for_storage(password: &str) -> (r: Option<String>)
    ensures
        r matches Option::Some(h) ==> bcrypt_checkable(h@) && bcrypt_matches(password@, h@),
{
    match bcrypt_hash(password) {
        Result::Ok(h) => Option::Some(h),
        Result::Err(_) => Option::None,
    }
}

/// Signs a token for an account: issued now, expiring the fixed window
/// later, carrying the account's id, role and username.
pub fn sign_token(user: &User, secret: &[u8], now: i64) -> (r: Result<String, SigningError>)
    requires
        -MAX_TIMESTAMP <= now <= MAX_TIMESTAMP,
    ensures
        r is Ok,
        r matches Ok(t) ==> t@ == token_of(
            claims_for(user.id as int, user.role@, user.username@, now as int),
            secret@,
        ),
{
    issue_token(user.id, user.role.as_str(), user.username.as_str(), secret, now)
}

/// The outcome of a login attempt.
#[derive(Debug)]
pub enum LoginOutcome {
    Success { token: String, user: dtos::User },
    NotFound,
    WrongPassword,
    Failure,
}

/// Decides a login from what the store returned for the username, and
/// fully: an unknown username is not found; a known one with a usable
/// stored hash succeeds exactly on the matching password, carrying a
/// freshly signed token for the account's identity, and is told the
/// password is wrong exactly on a mismatch; `Failure` happens exactly when
/// the stored hash is unusable, never for a wrong password.
pub fn login(lookup: Option<User>, password: &str, secret: &[u8], now: i64) -> (r: LoginOutcome)
    requires
        -MAX_TIMESTAMP <= now <= MAX_TIMESTAMP,
    ensures
        lookup is None <==> r is NotFound,
        (r is Failure <==> (lookup matches Option::Some(u) && !bcrypt_checkable(u.password@))),
        (r is WrongPassword <==> (lookup matches Option::Some(u) && bcrypt_checkable(u.password@)
            && !bcrypt_matches(password@, u.password@))),
        (r is Success <==> (lookup matches Option::Some(u) && bcrypt_checkable(u.password@)
            && bcrypt_matches(password@, u.password@))),
        (r matches LoginOutcome::Success { token, user } ==> (lookup matches Option::Some(u)
            && token@ == token_of(
            claims_for(u.id as int, u.role@, u.username@, now as int),
            secret@,
        ) && user.id == u.id && user.username@ == u.username@ && user.role@ == u.role@)),
{
    match lookup {
        Option::None => LoginOutcome::NotFound,
        Option::Some(u) => match bcrypt_verify(password, u.password.as_str()) {
            Result::Err(_) => LoginOutcome::Failure,
            Result::Ok(false) => LoginOutcome::WrongPassword,
            Result::Ok(true) => match sign_token(&u, secret, now) {
                Result::Err(_) => LoginOutcome::Failure,
                Result::Ok(t) => LoginOutcome::Success {
                    token: t,
                    user: dtos::User { id: u.id, username: u.username, role: u.role },
                },
            },
        },
    }
}

/// Builds the answer to a fresh registration: a signed token and the
/// public identity of the new account, which always carries the `user`
/// role.
pub fn register_response(id: i64, username: &str, secret: &[u8], now: i64) -> (r: Result<
    (String, dtos::User),
    SigningError,
>)
    requires
        -MAX_TIMESTAMP <= now <= MAX_TIMESTAMP,
    ensures
        r is Ok,
        r matches Ok(p) ==> p.0@ == token_of(
            claims_for(id as int, "user"@, username@, now as int),
            secret@,
        ) && p.1.id == id && p.1.username@ == username@ && p.1.role@ == "user"@,
{
    match issue_token(id, "user", username, secret, now) {
        Result::Ok(t) => Result::Ok(
            (t, dtos::User { id, username: username.to_owned(), role: "user".to_owned() }),
        ),
        Result::Err(e) => Result::Err(e),
    }
}

/// The error body for a wrong username or password.
pub fn incorrect_credentials_body() -> (r: Error)
    ensures
        r.error@ == "Unauthorized"@,
        r.message@ == "Incorrect username or password."@,
{
    Error {
        error: "Unauthorized".to_owned(),
        message: "Incorrect username or password.".to_owned(),
    }
}

/// The error body for a login against an unknown username.
pub fn user_not_found_body() -> (r: Error)
    ensures
        r.error@ == "NotFound"@,
        r.message@ == "User not found."@,
{
    Error { error: "NotFound".to_owned(), message: "User not found.".to_owned() }
}

/// The error body for registering an already taken username.
pub fn username_taken_body() -> (r: Error)
    ensures
        r.error@ == "BadRequest"@,
        r.message@ == "Username taken."@,
{
    Error { error: "BadRequest".to_owned(), message: "Username taken.".to_owned() }
}

} // verus!
