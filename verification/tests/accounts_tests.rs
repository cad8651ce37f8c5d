//! The credential flow, run against the real password-hashing crate.

use counter_api::accounts::{
    hash_for_storage, incorrect_credentials_body, login, sign_token, user_not_found_body,
    username_taken_body, LoginOutcome, Response, TimestampResponse, User,
};
use counter_api::models::non_zero;
use counter_api::dtos::{default_limit, default_page};
use counter_api::requests::FieldError;
use counter_api::token::verify_token;

const SECRET: &[u8] = b"accounts-test-secret";

fn account(password_hash: String) -> User {
    User {
        id: 11,
        username: "JohnDoe123".to_string(),
        password: password_hash,
        role: "user".to_string(),
        created_at: 1_600_000_000,
    }
}

#[test]
fn login_unknown_username_is_not_found() {
    match login(None, "password", SECRET, 1_700_000_000) {
        LoginOutcome::NotFound => {}
        _ => panic!("missing account must be NotFound"),
    }
}

#[test]
fn login_round_trip_with_stored_hash() {
    let hash = hash_for_storage("correct-horse_battery").unwrap();
    let now: i64 = 1_700_000_000;
    match login(Some(account(hash.clone())), "correct-horse_battery", SECRET, now) {
        LoginOutcome::Success { token, user } => {
            assert_eq!(user.id, 11);
            assert_eq!(user.username, "JohnDoe123");
            assert_eq!(user.role, "user");
            let claims = verify_token(token.as_str(), SECRET, now).unwrap();
            assert_eq!(claims.sub, 11);
            assert_eq!(claims.username, "JohnDoe123");
        }
        _ => panic!("matching password must log in"),
    }
    match login(Some(account(hash)), "wrong-password", SECRET, now) {
        LoginOutcome::WrongPassword => {}
        _ => panic!("wrong password must be rejected"),
    }
}

#[test]
fn login_with_corrupt_stored_hash_fails() {
    match login(
        Some(account("not-a-bcrypt-hash".to_string())),
        "password",
        SECRET,
        1_700_000_000,
    ) {
        LoginOutcome::Failure => {}
        _ => panic!("a corrupt stored hash must be a server-side failure"),
    }
}

#[test]
fn signed_account_token_verifies_back() {
    let u = account("irrelevant".to_string());
    let now: i64 = 1_700_000_000;
    let t = sign_token(&u, SECRET, now).unwrap();
    let claims = verify_token(t.as_str(), SECRET, now).unwrap();
    assert_eq!(claims.sub, 11);
    assert_eq!(claims.role, "user");
}

#[test]
fn registration_response_carries_a_fresh_token() {
    let now: i64 = 1_700_000_000;
    let (token, user) =
        counter_api::accounts::register_response(99, "new_user", SECRET, now).unwrap();
    assert_eq!(user.id, 99);
    assert_eq!(user.role, "user");
    let claims = verify_token(token.as_str(), SECRET, now).unwrap();
    assert_eq!(claims.sub, 99);
    assert_eq!(claims.username, "new_user");
    assert_eq!(claims.role, "user");
}

#[test]
fn response_conversions_keep_the_fields() {
    let u = account("hash".to_string());
    let r: Response = u.clone().into();
    assert_eq!(r.id, 11);
    assert_eq!(r.username, "JohnDoe123");
    assert_eq!(r.role, "user");
    let t: TimestampResponse = u.into();
    assert_eq!(t.created_at, 1_600_000_000);
}

#[test]
fn error_bodies_match_the_wire_shapes() {
    let e = incorrect_credentials_body();
    assert_eq!(e.error, "Unauthorized");
    assert_eq!(e.message, "Incorrect username or password.");
    let e = user_not_found_body();
    assert_eq!(e.error, "NotFound");
    assert_eq!(e.message, "User not found.");
    let e = username_taken_body();
    assert_eq!(e.error, "BadRequest");
    assert_eq!(e.message, "Username taken.");
}

#[test]
fn plain_defaults_and_checks() {
    assert_eq!(default_page(), 1);
    assert_eq!(default_limit(), 25);
    assert_eq!(non_zero(5), Ok(()));
    assert_eq!(non_zero(-5), Ok(()));
    assert_eq!(non_zero(0), Err(FieldError::Value));
}
