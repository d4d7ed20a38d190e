//! The claims of the tokens that authenticate task requests.
use crate::error::ApiError;
use crate::user::clock::{checked_add_hours, shift_hours, utc_now_timestamp, MAX_TIMESTAMP};
use vstd::prelude::*;

verus! {

/// The claims a token carries: the user's email and the Unix time at which
/// the token expires (the `exp` claim).
#[derive(Debug, Clone, PartialEq, Eq)]
pub struct UserJWT {
    pub email: String,
    pub expiration: usize,
}

/// How long a new token stays valid, in hours.
pub const TOKEN_LIFETIME_HOURS: i64 = 24;

/// The claims of a token for `email` issued at the instant `now`: it expires
/// `TOKEN_LIFETIME_HOURS` hours later, given as an unsigned timestamp; an
/// expiry that chrono cannot represent is an error.
pub open spec fn claims_at_spec(email: Seq<char>, now: i64, r: Result<UserJWT, ApiError>) -> bool {
    match shift_hours(now as int, TOKEN_LIFETIME_HOURS as int) {
        Some(v) => r matches Ok(c) && c.email@ == email && c.expiration == v as usize && v == now + 86400,
        None => r == Err::<UserJWT, ApiError>(ApiError::ExpiryOutOfRange),
    }
}

/// The claims of a token for `email` issued at the Unix time `now`: the
/// expiry is `now` plus a day.
pub fn claims_at(email: String, now: i64) -> (r: Result<UserJWT, ApiError>)
    ensures
        claims_at_spec(email@, now, r),
{
    match checked_add_hours(now, TOKEN_LIFETIME_HOURS) {
        Some(expiry) => Ok(UserJWT { email, expiration: expiry as usize }),
        None => Err(ApiError::ExpiryOutOfRange),
    }
}

/// The claims of a new token for `email`, issued now (the clock's reading)
/// and expiring a day later.
pub fn create_jwt_claims(email: String) -> (r: Result<UserJWT, ApiError>)
    ensures
        exists|now: i64| 0 <= now <= MAX_TIMESTAMP && claims_at_spec(email@, now, r),
{
    let now = utc_now_timestamp();
    claims_at(email, now)
}

} // verus!
