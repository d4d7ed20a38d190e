//! Looking a user up without revealing the password hash.
use crate::error::ApiError;
use crate::user::add_user::User;
use vstd::prelude::*;

verus! {

/// A user's public data.
#[derive(Debug, Clone, PartialEq, Eq)]
pub struct CensoredUser {
    pub username: String,
    pub email: String,
}

/// The get-user answer, given the lookup by the `email` query parameter
/// (`None` when the parameter is missing): the found user's name and email,
/// or both empty when the parameter is missing, no user has that email, or
/// the lookup failed.
pub fn get_user(lookup: Option<Result<Option<User>, ApiError>>) -> (r: CensoredUser)
    ensures
        match lookup {
            Some(Ok(Some(u))) => r.username@ == u.username@ && r.email@ == u.email@,
            _ => r.username@.len() == 0 && r.email@.len() == 0,
        },
{
    match lookup {
        Some(Ok(Some(u))) => CensoredUser { username: u.username, email: u.email },
        _ => CensoredUser { username: String::new(), email: String::new() },
    }
}

} // verus!
