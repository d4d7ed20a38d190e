//! Logging in with email and password.
use crate::error::ApiError;
use vstd::prelude::*;

verus! {

/// The body of a login request.
#[derive(Debug, Clone, PartialEq, Eq)]
pub struct UserAuth {
    pub email: String,
    pub pass: String,
}

/// The body of a login answer.
#[derive(Debug, Clone, PartialEq, Eq)]
pub struct Res {
    pub auth: bool,
    pub error: bool,
    pub jwt: Option<String>,
}

/// Whether a login gets a token, given the password check: only when the
/// check succeeded and the password matched.
pub fn auth_user_grants(access: Result<bool, ApiError>) -> (b: bool)
    ensures
        b == (access == Ok::<bool, ApiError>(true)),
{
    match access {
        Ok(granted) => granted,
        Err(_) => false,
    }
}

/// The login answer, given the token issued (`None` when none was to be
/// issued): the token with `auth: true, error: false`, or no token with
/// `auth: false, error: true` for a refused login or a failed issue.
pub fn auth_user(token: Option<Result<String, ApiError>>) -> (r: Res)
    ensures
        match token {
            Some(Ok(t)) => r.auth && !r.error && r.jwt == Some(t),
            _ => !r.auth && r.error && r.jwt is None,
        },
{
    match token {
        Some(Ok(t)) => Res { auth: true, error: false, jwt: Some(t) },
        _ => Res { auth: false, error: true, jwt: None },
    }
}

} // verus!
