//! Error taxonomy of the backend shim.
//!
//! Every failure the library reports falls into one of two families:
//! [`CredentialStoreError`] for failures of the operating system's
//! credential store, and [`ApiError`] for failures of the remote API
//! (rejected credentials, undecodable bodies, a missing token, or a
//! non-auth HTTP failure). At the command-dispatch boundary each error
//! is flattened into a single human-readable string; `message` says
//! exactly which string.

use vstd::prelude::*;

verus! {

/// A failure of the operating system's credential store: the store was
/// unavailable or rejected the operation. "Secret absent" is never
/// reported this way; it is an ordinary result.
#[derive(Debug)]
pub struct CredentialStoreError {
    pub message: String,
}

impl CredentialStoreError {
    /// The flat diagnostic text handed to the front end.
    pub fn text(&self) -> (r: String)
        ensures
            r@ == self.message@,
    {
        self.message.clone()
    }
}

/// A failure of one of the remote API operations.
#[derive(Debug)]
pub enum ApiError {
    /// The server rejected the credentials or the token. Carries the
    /// full diagnostic text to surface (for login, the raw response
    /// body wrapped in a fixed prefix; for verification, a fixed
    /// message that never includes the body).
    Auth(String),
    /// The response body did not have the expected shape.
    Decode(String),
    /// The operation needs a stored token and none is present.
    NotAuthenticated,
    /// A non-auth HTTP failure while fetching data.
    Fetch(String),
}

/// The flat string each [`ApiError`] is converted to at the dispatch
/// boundary.
pub open spec fn spec_api_error_message(e: ApiError) -> Seq<char> {
    match e {
        ApiError::Auth(m) => m@,
        ApiError::Decode(m) => m@,
        ApiError::NotAuthenticated => "No token found"@,
        ApiError::Fetch(m) => m@,
    }
}

impl ApiError {
    /// The flat diagnostic text handed to the front end.
    pub fn message(&self) -> (r: String)
        ensures
            r@ == spec_api_error_message(*self),
    {
        match self {
            ApiError::Auth(m) => m.clone(),
            ApiError::Decode(m) => m.clone(),
            ApiError::NotAuthenticated => String::from_str("No token found"),
            ApiError::Fetch(m) => m.clone(),
        }
    }
}

} // verus!
