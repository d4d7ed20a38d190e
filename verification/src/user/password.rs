//! Password hashing and checking, by the bcrypt crate.
use vstd::prelude::*;

verus! {

/// The error type of the bcrypt crate.
#[verifier::external_type_specification]
#[verifier::external_body]
pub struct ExBcryptError(bcrypt::BcryptError);

/// What `bcrypt::verify(password, hash)` returns: `Some(matches)` when `hash`
/// is a well-formed bcrypt hash, `None` when it is rejected as malformed.
pub uninterp spec fn bcrypt_verify(password: Seq<char>, hash: Seq<char>) -> Option<bool>;

/// The work factor of new password hashes, the bcrypt crate's default.
pub const PASSWORD_HASH_COST: u32 = 12;

/// Calls `bcrypt::verify`. Claimed: the result is the named function of the
/// password and the hash (the crate recomputes the hash with the salt and cost
/// stored in `hash` and compares), an error exactly when the name says `None`.
#[verifier::external_body]
pub(crate) fn verify_password(password: &str, hash: &str) -> (r: Result<bool, bcrypt::BcryptError>)
    ensures
        match r {
            Ok(b) => bcrypt_verify(password@, hash@) == Some(b),
            Err(_) => bcrypt_verify(password@, hash@) is None,
        },
{
    bcrypt::verify(password, hash)
}

/// The decimal digit `d` (0 to 9) as a character.
pub open spec fn decimal_digit(d: int) -> char {
    if d == 0 {
        '0'
    } else if d == 1 {
        '1'
    } else if d == 2 {
        '2'
    } else if d == 3 {
        '3'
    } else if d == 4 {
        '4'
    } else if d == 5 {
        '5'
    } else if d == 6 {
        '6'
    } else if d == 7 {
        '7'
    } else if d == 8 {
        '8'
    } else {
        '9'
    }
}

/// The shape bcrypt writes a hash in: 60 characters, `$2b$`, the cost as two
/// digits, `$`, then the encoded salt and hash.
pub open spec fn bcrypt_hash_format(h: Seq<char>, cost: u32) -> bool {
    &&& h.len() == 60
    &&& h.subrange(0, 4) == "$2b$"@
    &&& h[4] == decimal_digit((cost / 10) as int)
    &&& h[5] == decimal_digit((cost % 10) as int)
    &&& h[6] == '$'
}

/// Calls `bcrypt::hash` with a fresh random salt. Claimed: a hash that comes
/// back is in bcrypt's `$2b$` format with the given cost, and verifies against
/// the same password. Not stated: when it fails (only when the operating
/// system gives no randomness), nor which salt it drew.
#[verifier::external_body]
pub(crate) fn hash_password(password: &str, cost: u32) -> (r: Result<String, bcrypt::BcryptError>)
    requires
        4 <= cost <= 31,
    ensures
        r matches Ok(h) ==> bcrypt_verify(password@, h@) == Some(true) && bcrypt_hash_format(
            h@,
            cost,
        ),
{
    bcrypt::hash(password, cost)
}

} // verus!
