//! The claims of the first token format, whose expiry field is named
//! `expiration` rather than `exp`.
use vstd::prelude::*;

verus! {

/// Token claims with the expiry under the field name `expiration`.
#[derive(Debug, Clone, PartialEq, Eq)]
pub struct UserJWT {
    pub email: String,
    pub expiration: usize,
}

} // verus!
