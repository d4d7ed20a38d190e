//! Checking a password against the stored user.
use crate::error::ApiError;
use crate::user::add_user::{User, UserView};
use crate::user::opt_user_view;
use crate::user::password::{bcrypt_verify, verify_password};
use vstd::prelude::*;

verus! {

/// Whether `pass` opens the account that the lookup by email found: no
/// account means no access; otherwise bcrypt decides, and a stored hash that
/// bcrypt rejects as malformed is an error.
pub open spec fn access_decision(pass: Seq<char>, user: Option<UserView>) -> Result<bool, ApiError> {
    match user {
        None => Ok(false),
        Some(u) => match bcrypt_verify(pass, u.password) {
            Some(b) => Ok(b),
            None => Err(ApiError::PasswordHashing),
        },
    }
}

/// Checks `pass` against the user that the lookup by email found.
pub fn check_user_access(pass: &String, user: Option<User>) -> (r: Result<bool, ApiError>)
    ensures
        r == access_decision(pass@, opt_user_view(user)),
{
    match user {
        None => Ok(false),
        Some(user) => match verify_password(pass.as_str(), user.password.as_str()) {
            Ok(b) => Ok(b),
            Err(_) => Err(ApiError::PasswordHashing),
        },
    }
}

} // verus!
