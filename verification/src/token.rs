//! The token codec: a signed claims payload carrying the authenticated
//! identity, issued with a 30-day validity window and verified against the
//! same shared secret.
//!
//! The serialized, signed form of a claims value is a function of the
//! claims and the secret alone; it is named `token_of` and the two trusted
//! calls below are the only places that rely on the outside signing crate.
//! The expiry check is done here, against an explicit clock reading, so
//! that an expired token is rejected exactly when the current time is at or
//! past its embedded expiry.

use vstd::prelude::*;

verus! {

use jsonwebtoken::{decode, Algorithm, DecodingKey, Validation};
use jsonwebtoken::errors::ErrorKind;
use serde_json::Value;
use crate::token::TokenError::Malformed;

/// Seconds in the fixed 30-day validity window of an issued token.
pub const TOKEN_VALIDITY_SECONDS: i64 = 2_592_000;

/// A bound on `chrono`'s clock reading: its `DateTime` range spans the
/// years -262144 to 262143, under 8.4e12 seconds away from the epoch.
pub const MAX_TIMESTAMP: i64 = 8_400_000_000_000;

/// The authenticated identity carried inside a token. The expiry always
/// equals the issue time plus the fixed validity window when the token was
/// issued here; a value is immutable once constructed.
#[derive(Debug, Clone)]
pub struct Claims {
    pub sub: i64,
    pub role: String,
    pub username: String,
    pub iat: i64,
    pub exp: i64,
}

/// The mathematical value of a claims payload.
pub ghost struct ClaimsView {
    pub sub: int,
    pub role: Seq<char>,
    pub username: Seq<char>,
    pub iat: int,
    pub exp: int,
}

impl View for Claims {
    type V = ClaimsView;

    open spec fn view(&self) -> ClaimsView {
        ClaimsView {
            sub: self.sub as int,
            role: self.role@,
            username: self.username@,
            iat: self.iat as int,
            exp: self.exp as int,
        }
    }
}

/// What signing produces: the serialized, signed token for these claims
/// under this secret, a function of the two alone.
pub uninterp spec fn token_of(c: ClaimsView, secret: Seq<u8>) -> Seq<char>;

/// Whether the signature carried by `token` verifies under `secret`, a
/// function of the two alone.
pub uninterp spec fn sig_ok(token: Seq<char>, secret: Seq<u8>) -> bool;

/// A claims value whose numeric fields fit the wire type: only these can
/// ever be carried by a real `Claims` value or a real token.
pub open spec fn representable(c: ClaimsView) -> bool {
    &&& i64::MIN <= c.sub <= i64::MAX
    &&& i64::MIN <= c.iat <= i64::MAX
    &&& i64::MIN <= c.exp <= i64::MAX
}

/// The signing primitive rejected the input (a misconfiguration; it does
/// not occur with an HMAC secret).
#[derive(Clone, Copy, Debug, PartialEq, Eq, Structural)]
pub struct SigningError;

/// Why a presented token was rejected. All three are reported to clients
/// as one uniform unauthenticated outcome; the distinction stays internal.
#[derive(Clone, Copy, Debug, PartialEq, Eq, Structural)]
pub enum TokenError {
    InvalidSignature,
    Malformed,
    Expired,
}

/// Relies on `jsonwebtoken::encode` with the default HS256 header: the
/// token is built from the claims and the secret alone (a fixed JSON
/// serialization of the claims object, base64url parts, and an
/// HMAC-SHA256 signature over them). The HS256 path cannot fail: the
/// compiled-in provider's HMAC accepts a secret of any length, signing is
/// infallible, and a string-keyed JSON object always serializes (this
/// binary installs no other signing provider).
#[verifier::external_body]
fn encode_claims(claims: &Claims, secret: &[u8]) -> (r: Result<String, SigningError>)
    ensures
        r is Ok,
        r matches Ok(t) ==> t@ == token_of(claims@, secret@),
{
    let mut m = serde_json::Map::new();
    m.insert("sub".to_string(), Value::from(claims.sub));
    m.insert("role".to_string(), Value::from(claims.role.as_str()));
    m.insert("username".to_string(), Value::from(claims.username.as_str()));
    m.insert("iat".to_string(), Value::from(claims.iat));
    m.insert("exp".to_string(), Value::from(claims.exp));
    jsonwebtoken::encode(
        &jsonwebtoken::Header::default(),
        &Value::Object(m),
        &jsonwebtoken::EncodingKey::from_secret(secret),
    )
        .map_err(|_| SigningError)
}

/// Relies on `jsonwebtoken::decode` with HS256 and the expiry check turned
/// off: a token that `encode` produced for some claims under the same
/// secret decodes back to exactly those claims; any successful decode
/// passed the signature check; and the invalid-signature error comes only
/// from a failed signature check (all other failures, a malformed shape or
/// payload among them, map to the malformed error).
#[verifier::external_body]
fn decode_claims(token: &str, secret: &[u8]) -> (r: Result<Claims, TokenError>)
    ensures
        (match r {
            Result::Ok(d) => sig_ok(token@, secret@) && forall|c: ClaimsView|
                representable(c) && token@ == #[trigger] token_of(c, secret@) ==> d@ == c,
            Result::Err(e) => (forall|c: ClaimsView|
                representable(c) ==> token@ != #[trigger] token_of(c, secret@)) && (e
                == TokenError::InvalidSignature ==> !sig_ok(token@, secret@)),
        }),
{
    let mut v = Validation::new(Algorithm::HS256);
    v.validate_exp = false;
    v.required_spec_claims.clear();
    let p = decode::<Value>(token, &DecodingKey::from_secret(secret), &v).map_err(|e| match e.kind() {
        ErrorKind::InvalidSignature => TokenError::InvalidSignature,
        _ => Malformed,
    })?.claims;
    let (sub, iat, exp) = (p["sub"].as_i64().ok_or(Malformed)?, p["iat"].as_i64().ok_or(Malformed)?, p["exp"].as_i64().ok_or(Malformed)?);
    let (role, username) = (p["role"].as_str().ok_or(Malformed)?, p["username"].as_str().ok_or(Malformed)?);
    Ok(Claims { sub, role: role.to_string(), username: username.to_string(), iat, exp })
}

/// Relies on `chrono::Utc::now`: the current time in whole seconds since
/// the epoch, within the documented `DateTime` range.
#[verifier::external_body]
pub(crate) fn now_seconds() -> (r: i64)
    ensures
        -MAX_TIMESTAMP <= r <= MAX_TIMESTAMP,
{
    chrono::Utc::now().timestamp()
}

/// The claims issued at `iat` for one identity: expiry is always the issue
/// time plus the fixed validity window.
pub open spec fn claims_for(sub: int, role: Seq<char>, username: Seq<char>, iat: int) -> ClaimsView {
    ClaimsView { sub, role, username, iat, exp: iat + TOKEN_VALIDITY_SECONDS }
}

/// Builds and signs the claims for one identity, issued at `now` and
/// expiring a fixed 30 days later.
pub fn issue_token(sub: i64, role: &str, username: &str, secret: &[u8], now: i64) -> (r: Result<
    String,
    SigningError,
>)
    requires
        now + TOKEN_VALIDITY_SECONDS <= i64::MAX,
    ensures
        r is Ok,
        r matches Ok(t) ==> t@ == token_of(claims_for(sub as int, role@, username@, now as int), secret@),
{
    let claims = Claims {
        sub,
        role: role.to_owned(),
        username: username.to_owned(),
        iat: now,
        exp: now + TOKEN_VALIDITY_SECONDS,
    };
    encode_claims(&claims, secret)
}

/// Checks a presented token: parse and signature first, then the expiry
/// against the supplied clock reading. A token signed here comes back as
/// exactly the claims that were issued while the clock stands before their
/// expiry, and is rejected as expired from the moment the clock reaches
/// it; the invalid-signature verdict is given only to tokens whose
/// signature check failed.
pub fn verify_token(token: &str, secret: &[u8], now: i64) -> (r: Result<Claims, TokenError>)
    ensures
        forall|c: ClaimsView|
            representable(c) && token@ == #[trigger] token_of(c, secret@) && now < c.exp ==> (r
                matches Ok(d) && d@ == c),
        forall|c: ClaimsView|
            representable(c) && token@ == #[trigger] token_of(c, secret@) && now >= c.exp ==> r
                == Result::<Claims, TokenError>::Err(TokenError::Expired),
        r matches Ok(d) ==> sig_ok(token@, secret@) && d@.exp > now,
        !sig_ok(token@, secret@) ==> r is Err,
        r == Result::<Claims, TokenError>::Err(TokenError::InvalidSignature) ==> !sig_ok(
            token@,
            secret@,
        ),
{
    match decode_claims(token, secret) {
        Result::Ok(c) => {
            if now >= c.exp {
                Result::Err(TokenError::Expired)
            } else {
                Result::Ok(c)
            }
        },
        Result::Err(e) => Result::Err(e),
    }
}

} // verus!
