//! Error taxonomy surfaced by the authentication core.

use vstd::prelude::*;

verus! {

/// Errors surfaced to callers of the authentication core. Internal causes
/// (hashing, signing, persistence) are collapsed into these kinds at the
/// boundary; no raw detail crosses into a response.
#[derive(Clone, Copy, Debug, PartialEq, Eq, Structural)]
pub enum AuthError {
    /// Malformed, unsigned, or syntactically broken token; also a refresh
    /// token whose subject disagrees with its paired access token.
    InvalidToken,
    /// Verified mismatch of password or unknown identity.
    WrongCredentials,
    /// Required input absent (for instance an empty email or password).
    MissingCredentials,
    /// No credential was attached to the request at all.
    MissingToken,
    /// Signing, verification or persistence plumbing failure.
    InternalError,
    /// A blacklisted token was presented, or replay was detected.
    Forbidden,
}

impl AuthError {
    /// HTTP status code this error is reported with.
    pub open spec fn spec_status_code(&self) -> u16 {
        match self {
            AuthError::WrongCredentials => 401,
            AuthError::MissingCredentials => 400,
            AuthError::InvalidToken => 401,
            AuthError::MissingToken => 401,
            AuthError::InternalError => 500,
            AuthError::Forbidden => 403,
        }
    }

    #[verifier::when_used_as_spec(spec_status_code)]
    pub fn status_code(&self) -> (r: u16)
        ensures
            r == self.spec_status_code(),
    {
        match self {
            AuthError::WrongCredentials => 401,
            AuthError::MissingCredentials => 400,
            AuthError::InvalidToken => 401,
            AuthError::MissingToken => 401,
            AuthError::InternalError => 500,
            AuthError::Forbidden => 403,
        }
    }

    /// User-safe message reported alongside the status code.
    pub fn message(&self) -> (r: String)
        ensures
            self is WrongCredentials ==> r@ == "Wrong credentials"@,
            self is MissingCredentials ==> r@ == "Missing credentials"@,
            self is InvalidToken ==> r@ == "Invalid token"@,
            self is MissingToken ==> r@ == "Missing token"@,
            self is InternalError ==> r@ == "Internal Error"@,
            self is Forbidden ==> r@ == "Access forbidden"@,
    {
        match self {
            AuthError::WrongCredentials => String::from_str("Wrong credentials"),
            AuthError::MissingCredentials => String::from_str("Missing credentials"),
            AuthError::InvalidToken => String::from_str("Invalid token"),
            AuthError::MissingToken => String::from_str("Missing token"),
            AuthError::InternalError => String::from_str("Internal Error"),
            AuthError::Forbidden => String::from_str("Access forbidden"),
        }
    }
}

/// A status code paired with a user-safe message, as attached to responses
/// outside the authentication flow.
#[derive(Debug)]
pub struct AppError {
    pub code: u16,
    pub message: String,
}

impl AppError {
    pub fn new(code: u16, message: String) -> (r: Self)
        ensures
            r.code == code,
            r.message == message,
    {
        AppError { code, message }
    }
}

} // verus!
