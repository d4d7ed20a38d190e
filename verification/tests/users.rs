use my_api::error::ApiError;
use my_api::user::add_user::{create_user, create_user_reply, User, UserUnhashed};
use my_api::user::auth_user::{auth_user, auth_user_grants};
use my_api::user::auth_user_jwt::auth_user_jwt;
use my_api::user::check_user_access::check_user_access;
use my_api::user::get_user::get_user;
use my_api::user::clock::{MAX_TIMESTAMP, MIN_TIMESTAMP};
use my_api::user::jwt::{claims_at, create_jwt_claims, UserJWT};
use std::time::{SystemTime, UNIX_EPOCH};

fn unhashed(password: &str) -> UserUnhashed {
    UserUnhashed {
        username: "john_doe".to_string(),
        email: "john@example.com".to_string(),
        password: password.to_string(),
    }
}

#[test]
fn created_user_logs_in_with_its_password() {
    let user = create_user(unhashed("securePassword123")).expect("hashing works");
    assert_eq!(user.username, "john_doe");
    assert_eq!(user.email, "john@example.com");
    assert_ne!(user.password, "securePassword123");
    assert_eq!(user.password.len(), 60);
    assert!(user.password.starts_with("$2b$12$"));
    let access = check_user_access(&"securePassword123".to_string(), Some(user));
    assert_eq!(access, Ok(true));
    assert!(auth_user_grants(access));
}

#[test]
fn wrong_password_is_refused() {
    let user = create_user(unhashed("hunter2")).expect("hashing works");
    let access = check_user_access(&"hunter3".to_string(), Some(user));
    assert_eq!(access, Ok(false));
    assert!(!auth_user_grants(access));
}

#[test]
fn unknown_user_is_refused() {
    assert_eq!(check_user_access(&"pw".to_string(), None), Ok(false));
}

#[test]
fn malformed_stored_hash_is_an_error() {
    let user = User {
        username: "u".to_string(),
        email: "e".to_string(),
        password: "not a hash".to_string(),
    };
    assert_eq!(check_user_access(&"pw".to_string(), Some(user)), Err(ApiError::PasswordHashing));
    assert!(!auth_user_grants(Err(ApiError::PasswordHashing)));
}

#[test]
fn create_user_answers() {
    assert_eq!(create_user_reply(Ok(())).status, "Success");
    assert_eq!(create_user_reply(Err(ApiError::Database)).status, "Error occured while adding user");
}

#[test]
fn login_answers() {
    let ok = auth_user(Some(Ok("eyJ.token".to_string())));
    assert!(ok.auth && !ok.error);
    assert_eq!(ok.jwt, Some("eyJ.token".to_string()));
    for token in [None, Some(Err(ApiError::TokenSigning)), Some(Err(ApiError::ExpiryOutOfRange))] {
        let r = auth_user(token);
        assert!(!r.auth && r.error);
        assert_eq!(r.jwt, None);
    }
}

#[test]
fn token_check_answers() {
    let claims = UserJWT { email: "john@example.com".to_string(), expiration: 10 };
    let ok = auth_user_jwt(Ok(claims));
    assert_eq!(ok.email, Some("john@example.com".to_string()));
    assert!(!ok.tampered);
    let bad = auth_user_jwt(Err(ApiError::InvalidToken));
    assert_eq!(bad.email, None);
    assert!(bad.tampered);
}

#[test]
fn get_user_hides_password_and_defaults_to_empty() {
    let user = User {
        username: "john_doe".to_string(),
        email: "john@example.com".to_string(),
        password: "$2b$12$hash".to_string(),
    };
    let found = get_user(Some(Ok(Some(user))));
    assert_eq!(found.username, "john_doe");
    assert_eq!(found.email, "john@example.com");
    for lookup in [None, Some(Ok(None)), Some(Err(ApiError::Database))] {
        let empty = get_user(lookup);
        assert_eq!(empty.username, "");
        assert_eq!(empty.email, "");
    }
}

#[test]
fn claims_expire_a_day_after_issue() {
    let c = claims_at("john@example.com".to_string(), 1_725_029_869).unwrap();
    assert_eq!(c.email, "john@example.com");
    assert_eq!(c.expiration, 1_725_029_869 + 86_400);
    let early = claims_at("x".to_string(), MIN_TIMESTAMP).unwrap();
    assert_eq!(early.expiration, (MIN_TIMESTAMP + 86_400) as usize);
    assert_eq!(claims_at("x".to_string(), MAX_TIMESTAMP - 86_400).unwrap().expiration, MAX_TIMESTAMP as usize);
    assert_eq!(claims_at("x".to_string(), MAX_TIMESTAMP - 86_399), Err(ApiError::ExpiryOutOfRange));
    assert_eq!(claims_at("x".to_string(), MIN_TIMESTAMP - 1), Err(ApiError::ExpiryOutOfRange));
}

#[test]
fn timestamp_bounds_are_chronos() {
    assert_eq!(chrono::DateTime::<chrono::Utc>::MAX_UTC.timestamp(), MAX_TIMESTAMP);
    assert_eq!(chrono::DateTime::<chrono::Utc>::MIN_UTC.timestamp(), MIN_TIMESTAMP);
}

#[test]
fn new_claims_expire_a_day_from_now() {
    let before = SystemTime::now().duration_since(UNIX_EPOCH).unwrap().as_secs() as usize;
    let c = create_jwt_claims("john@example.com".to_string()).unwrap();
    let after = SystemTime::now().duration_since(UNIX_EPOCH).unwrap().as_secs() as usize;
    assert_eq!(c.email, "john@example.com");
    assert!(c.expiration >= before + 86_400);
    assert!(c.expiration <= after + 86_400);
}
