use vstd::prelude::*;

verus! {

/// Why a request could not be served.
#[derive(Debug, Clone, Copy, PartialEq, Eq, Structural)]
pub enum ApiError {
    /// The token was malformed, signed with another secret, or expired.
    InvalidToken,
    /// The database reported a failure.
    Database,
    /// Hashing or checking a password failed.
    PasswordHashing,
    /// The expiry of a new token falls outside the representable dates.
    ExpiryOutOfRange,
    /// A new token could not be signed.
    TokenSigning,
    /// No task with the requested id exists.
    TaskNotFound,
}

/// The HTTP status an endpoint answers with.
#[derive(Debug, Clone, Copy, PartialEq, Eq, Structural)]
pub enum HttpStatus {
    Success,
    Unauthorized,
    InternalServerError,
}

impl HttpStatus {
    /// The numeric status code.
    pub open spec fn spec_code(self) -> u16 {
        match self {
            HttpStatus::Success => 200,
            HttpStatus::Unauthorized => 401,
            HttpStatus::InternalServerError => 500,
        }
    }

    /// The numeric status code (200, 401 or 500).
    pub fn code(&self) -> (c: u16)
        ensures
            c == self.spec_code(),
    {
        match self {
            HttpStatus::Success => 200,
            HttpStatus::Unauthorized => 401,
            HttpStatus::InternalServerError => 500,
        }
    }
}

} // verus!
