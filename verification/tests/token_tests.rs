//! The token codec and the authentication gateway, run against the real
//! signing crate.

use counter_api::gateway::{authenticate, gate_request, AuthDecision};
use counter_api::token::{issue_token, verify_token, TokenError, TOKEN_VALIDITY_SECONDS};

const SECRET: &[u8] = b"gateway-test-secret";

#[test]
fn issue_then_verify_round_trips_until_expiry() {
    let now: i64 = 1_700_000_000;
    let token = issue_token(42, "moderator", "kodi", SECRET, now).unwrap();
    let claims = verify_token(token.as_str(), SECRET, now).unwrap();
    assert_eq!(claims.sub, 42);
    assert_eq!(claims.role, "moderator");
    assert_eq!(claims.username, "kodi");
    assert_eq!(claims.iat, now);
    assert_eq!(claims.exp, now + TOKEN_VALIDITY_SECONDS);
    // still valid one second before expiry
    let late = verify_token(token.as_str(), SECRET, now + TOKEN_VALIDITY_SECONDS - 1).unwrap();
    assert_eq!(late.sub, 42);
}

#[test]
fn expired_token_fails_with_expired() {
    let now: i64 = 1_700_000_000;
    let token = issue_token(7, "user", "diya", SECRET, now).unwrap();
    // exactly at expiry the token is already rejected
    let at = verify_token(token.as_str(), SECRET, now + TOKEN_VALIDITY_SECONDS);
    assert_eq!(at.unwrap_err(), TokenError::Expired);
    let past = verify_token(token.as_str(), SECRET, now + TOKEN_VALIDITY_SECONDS + 5_000);
    assert_eq!(past.unwrap_err(), TokenError::Expired);
}

#[test]
fn tampered_signature_fails_with_invalid_signature() {
    let now: i64 = 1_700_000_000;
    let token = issue_token(42, "user", "kodi", SECRET, now).unwrap();
    // flip the first character of the signature to another base64url digit
    let mut bytes = token.into_bytes();
    let dot = bytes.iter().rposition(|b| *b == b'.').unwrap();
    bytes[dot + 1] = if bytes[dot + 1] == b'A' { b'B' } else { b'A' };
    let tampered = String::from_utf8(bytes).unwrap();
    let r = verify_token(tampered.as_str(), SECRET, now);
    assert_eq!(r.unwrap_err(), TokenError::InvalidSignature);
}

#[test]
fn wrong_secret_fails_with_invalid_signature() {
    let now: i64 = 1_700_000_000;
    let token = issue_token(42, "user", "kodi", SECRET, now).unwrap();
    let r = verify_token(token.as_str(), b"some-other-secret", now);
    assert_eq!(r.unwrap_err(), TokenError::InvalidSignature);
}

#[test]
fn garbage_token_fails_with_malformed() {
    let now: i64 = 1_700_000_000;
    assert_eq!(
        verify_token("not-a-token", SECRET, now).unwrap_err(),
        TokenError::Malformed
    );
    assert_eq!(
        verify_token("a.b.c", SECRET, now).unwrap_err(),
        TokenError::Malformed
    );
}

#[test]
fn gate_request_reads_the_real_clock() {
    // issued against the real clock: valid for the next 30 days
    let now = chrono::Utc::now().timestamp();
    let fresh = issue_token(5, "user", "clock_user", SECRET, now).unwrap();
    match gate_request(Some(fresh.as_str()), SECRET) {
        AuthDecision::Authenticated(c) => assert_eq!(c.sub, 5),
        AuthDecision::Rejected(_) => panic!("a fresh token must pass the gateway"),
    }
    // issued two windows ago: already expired on the real clock
    let stale = issue_token(5, "user", "clock_user", SECRET, now - 2 * TOKEN_VALIDITY_SECONDS)
        .unwrap();
    match gate_request(Some(stale.as_str()), SECRET) {
        AuthDecision::Rejected(e) => assert_eq!(e.error, "Unauthorized"),
        AuthDecision::Authenticated(_) => panic!("a stale token must not pass"),
    }
    assert!(matches!(gate_request(None, SECRET), AuthDecision::Rejected(_)));
}

#[test]
fn missing_cookie_is_rejected_without_any_lookup() {
    let now: i64 = 1_700_000_000;
    match authenticate(None, SECRET, now) {
        AuthDecision::Rejected(e) => {
            assert_eq!(e.error, "Unauthorized");
            assert_eq!(e.message, "Must login.");
        }
        AuthDecision::Authenticated(_) => panic!("no cookie must not authenticate"),
    }
}

#[test]
fn valid_cookie_authenticates_with_the_issued_claims() {
    let now: i64 = 1_700_000_000;
    let token = issue_token(3, "admin", "root_user", SECRET, now).unwrap();
    match authenticate(Some(token.as_str()), SECRET, now + 100) {
        AuthDecision::Authenticated(c) => {
            assert_eq!(c.sub, 3);
            assert_eq!(c.role, "admin");
            assert_eq!(c.username, "root_user");
        }
        AuthDecision::Rejected(_) => panic!("fresh token must authenticate"),
    }
}

#[test]
fn expired_cookie_is_rejected_like_a_missing_one() {
    let now: i64 = 1_700_000_000;
    let token = issue_token(3, "user", "late_user", SECRET, now).unwrap();
    match authenticate(
        Some(token.as_str()),
        SECRET,
        now + TOKEN_VALIDITY_SECONDS + 1,
    ) {
        AuthDecision::Rejected(e) => {
            assert_eq!(e.error, "Unauthorized");
            assert_eq!(e.message, "Must login.");
        }
        AuthDecision::Authenticated(_) => panic!("expired token must not authenticate"),
    }
}
