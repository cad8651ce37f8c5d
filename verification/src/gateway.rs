//! The authentication gateway: the per-request decision that stands in
//! front of every protected route. It reads nothing but the transported
//! token and never touches the store; the route handler runs only behind
//! an `Authenticated` decision.

use vstd::prelude::*;

verus! {

use crate::dtos::Error;
use crate::token::{now_seconds, representable, sig_ok, token_of, verify_token, Claims, ClaimsView};

/// The gateway's outcome: either the identity carried by a valid token,
/// to be attached to the request, or the uniform unauthorized body to
/// answer with.
#[derive(Debug)]
pub enum AuthDecision {
    Authenticated(Claims),
    Rejected(Error),
}

/// The uniform unauthorized body: a missing and an invalid token read the
/// same to the client.
pub fn unauthorized_body() -> (r: Error)
    ensures
        r.error@ == "Unauthorized"@,
        r.message@ == "Must login."@,
{
    Error { error: "Unauthorized".to_owned(), message: "Must login.".to_owned() }
}

/// Gates one request: with no cookie the request is rejected outright;
/// with a cookie the token is verified against the secret and the clock,
/// and only a token issued here and still valid passes, carrying exactly
/// the claims it was issued with. Every rejection carries the same
/// structured unauthorized body.
pub fn authenticate(cookie: Option<&str>, secret: &[u8], now: i64) -> (r: AuthDecision)
    ensures
        cookie is None ==> r is Rejected,
        (r matches AuthDecision::Rejected(e) ==> e.error@ == "Unauthorized"@ && e.message@
            == "Must login."@),
        (cookie matches Option::Some(t) ==> forall|c: ClaimsView|
            representable(c) && t@ == #[trigger] token_of(c, secret@) && now < c.exp ==> (r
                matches AuthDecision::Authenticated(d) && d@ == c)),
        (cookie matches Option::Some(t) ==> forall|c: ClaimsView|
            representable(c) && t@ == #[trigger] token_of(c, secret@) && now >= c.exp
                ==> r is Rejected),
        (cookie matches Option::Some(t) && !sig_ok(t@, secret@) ==> r is Rejected),
        (r matches AuthDecision::Authenticated(d) ==> cookie matches Option::Some(t) && sig_ok(
            t@,
            secret@,
        ) && d@.exp > now),
{
    match cookie {
        Option::None => AuthDecision::Rejected(unauthorized_body()),
        Option::Some(t) => match verify_token(t, secret, now) {
            Result::Ok(claims) => AuthDecision::Authenticated(claims),
            Result::Err(_) => AuthDecision::Rejected(unauthorized_body()),
        },
    }
}

/// Gates one request against the process clock: the decision is the one
/// `authenticate` makes, with the current time read once here. Whatever
/// the clock read: a missing cookie and a token whose signature does not
/// verify under the secret are rejected, every rejection carries the
/// uniform body, and a token issued here passes only as exactly the
/// claims it was issued with.
pub fn gate_request(cookie: Option<&str>, secret: &[u8]) -> (r: AuthDecision)
    ensures
        cookie is None ==> r is Rejected,
        (r matches AuthDecision::Rejected(e) ==> e.error@ == "Unauthorized"@ && e.message@
            == "Must login."@),
        (cookie matches Option::Some(t) && !sig_ok(t@, secret@) ==> r is Rejected),
        (cookie matches Option::Some(t) ==> forall|c: ClaimsView|
            representable(c) && t@ == #[trigger] token_of(c, secret@) ==> (r
                matches AuthDecision::Authenticated(d) ==> d@ == c)),
        (r matches AuthDecision::Authenticated(d) ==> cookie matches Option::Some(t) && sig_ok(
            t@,
            secret@,
        )),
{
    authenticate(cookie, secret, now_seconds())
}

} // verus!
