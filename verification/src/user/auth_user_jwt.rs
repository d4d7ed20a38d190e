//! Checking a token.
use crate::error::ApiError;
use crate::user::jwt::UserJWT;
use vstd::prelude::*;

verus! {

/// The body of a token-check request.
#[derive(Debug, Clone, PartialEq, Eq)]
pub struct JwtPayload {
    pub jwt: String,
}

/// The body of a token-check answer.
#[derive(Debug, Clone, PartialEq, Eq)]
pub struct JwtAuthRes {
    pub email: Option<String>,
    pub tampered: bool,
}

/// The token-check answer, given the outcome of verifying the token: its
/// email and `tampered: false` when it verified, else no email and
/// `tampered: true`.
pub fn auth_user_jwt(verified: Result<UserJWT, ApiError>) -> (r: JwtAuthRes)
    ensures
        match verified {
            Ok(claims) => r.email == Some(claims.email) && !r.tampered,
            Err(_) => r.email is None && r.tampered,
        },
{
    match verified {
        Ok(claims) => JwtAuthRes { email: Some(claims.email), tampered: false },
        Err(_) => JwtAuthRes { email: None, tampered: true },
    }
}

} // verus!
