//! The API client's decisions.
//!
//! Every remote call is a one-shot HTTP request against one fixed base
//! URL. The request building and the interpretation of each response —
//! which statuses succeed, which error each failure becomes, how a body
//! is decoded — are decided here, over plain status codes and body
//! text; issuing the request is the caller's job. No retry, no backoff,
//! no caching: one failed call is one failure surfaced immediately.

use vstd::prelude::*;
use crate::codec::decode_login_response;
use crate::codec::decode_verify_response;
use crate::codec::decode_watchers_response;
use crate::codec::models_of;
use crate::codec::render_login_request;
use crate::codec::spec_decode_login_response;
use crate::codec::spec_decode_verify_response;
use crate::codec::spec_decode_watchers_response;
use crate::codec::spec_login_request_body;
use crate::dto::LoginResponse;
use crate::dto::VerifyResponse;
use crate::dto::Watcher;
use crate::errors::ApiError;

verus! {

/// The fixed base URL of the remote API.
pub const API_URL: &'static str = "http://localhost:3001/api";

/// A status is a success exactly when it lies in the 2xx range; only
/// then is a response body decoded.
pub open spec fn spec_is_success_status(status: u16) -> bool {
    200 <= status < 300
}

/// Executable counterpart of [`spec_is_success_status`].
pub fn is_success_status(status: u16) -> (r: bool)
    ensures
        r == spec_is_success_status(status),
{
    200 <= status && status < 300
}

/// The URL the login request is posted to.
pub fn login_url() -> (r: String)
    ensures
        r@ == API_URL@ + "/auth/login"@,
{
    String::from_str(API_URL).concat("/auth/login")
}

/// The URL the verification request is sent to.
pub fn verify_url() -> (r: String)
    ensures
        r@ == API_URL@ + "/auth/verify"@,
{
    String::from_str(API_URL).concat("/auth/verify")
}

/// The URL the watchers request is sent to.
pub fn watchers_url() -> (r: String)
    ensures
        r@ == API_URL@ + "/watchers"@,
{
    String::from_str(API_URL).concat("/watchers")
}

/// The value of the `Authorization` header carrying a bearer token.
pub fn bearer_header(token: &str) -> (r: String)
    ensures
        r@ == "Bearer "@ + token@,
{
    String::from_str("Bearer ").concat(token)
}

/// Builds the JSON body of the login request for the given
/// credentials.
pub fn login_request_body(email: &str, password: &str) -> (r: String)
    ensures
        r@ == spec_login_request_body(email@, password@),
{
    render_login_request(email, password)
}

/// The diagnostic text of a failed login: a fixed prefix followed by
/// the raw response body.
pub open spec fn spec_login_failure_message(body: Seq<char>) -> Seq<char> {
    "Login failed: "@ + body
}

/// Decides the result of a login call from the response's status and
/// body. On a non-success status the raw body is surfaced inside the
/// authentication error; on a success the body must decode as a login
/// response, else the error is a decode failure.
pub fn login_outcome(status: u16, body: &str) -> (r: Result<LoginResponse, ApiError>)
    ensures
        !spec_is_success_status(status) ==> (r matches Err(e) && e matches ApiError::Auth(m)
            && m@ == spec_login_failure_message(body@)),
        spec_is_success_status(status) && spec_decode_login_response(body@) is Some ==> (r matches Ok(
            v,
        ) && spec_decode_login_response(body@) == Some(v@)),
        spec_is_success_status(status) && spec_decode_login_response(body@) is None ==> (r matches Err(
            e,
        ) && e matches ApiError::Decode(m) && m@ == "Invalid response body"@),
{
    if !is_success_status(status) {
        let mut message = String::from_str("Login failed: ");
        message.append(body);
        Err(ApiError::Auth(message))
    } else {
        match decode_login_response(body) {
            Some(v) => Ok(v),
            None => Err(ApiError::Decode(String::from_str("Invalid response body"))),
        }
    }
}

/// Decides the result of a verification call from the response's
/// status and body. Any non-success status becomes one generic
/// authentication error whose text never depends on the response body,
/// unlike login's pass-through.
pub fn verify_outcome(status: u16, body: &str) -> (r: Result<VerifyResponse, ApiError>)
    ensures
        !spec_is_success_status(status) ==> (r matches Err(e) && e matches ApiError::Auth(m)
            && m@ == "Token verification failed"@),
        spec_is_success_status(status) && spec_decode_verify_response(body@) is Some ==> (r matches Ok(
            v,
        ) && spec_decode_verify_response(body@) == Some(v@)),
        spec_is_success_status(status) && spec_decode_verify_response(body@) is None ==> (r matches Err(
            e,
        ) && e matches ApiError::Decode(m) && m@ == "Invalid response body"@),
{
    if !is_success_status(status) {
        Err(ApiError::Auth(String::from_str("Token verification failed")))
    } else {
        match decode_verify_response(body) {
            Some(v) => Ok(v),
            None => Err(ApiError::Decode(String::from_str("Invalid response body"))),
        }
    }
}

/// Requires a stored token before the watchers call: with none stored
/// the operation fails as not authenticated, and no request is to be
/// issued at all.
pub fn require_token(token: Option<String>) -> (r: Result<String, ApiError>)
    ensures
        token matches Some(t) ==> (r matches Ok(u) && u == t),
        token is None ==> (r matches Err(e) && e is NotAuthenticated),
{
    match token {
        Some(t) => Ok(t),
        None => Err(ApiError::NotAuthenticated),
    }
}

/// Decides the result of a watchers call from the response's status
/// and body: a non-success status is a fetch failure with a fixed
/// text, a success body must decode as a watchers response, and the
/// inner list is the payload.
pub fn watchers_outcome(status: u16, body: &str) -> (r: Result<Vec<Watcher>, ApiError>)
    ensures
        !spec_is_success_status(status) ==> (r matches Err(e) && e matches ApiError::Fetch(m)
            && m@ == "Failed to fetch watchers"@),
        spec_is_success_status(status) && spec_decode_watchers_response(body@) is Some ==> (r matches Ok(
            v,
        ) && spec_decode_watchers_response(body@) matches Some(m) && models_of(v@) == m.items),
        spec_is_success_status(status) && spec_decode_watchers_response(body@) is None ==> (r matches Err(
            e,
        ) && e matches ApiError::Decode(m) && m@ == "Invalid response body"@),
{
    if !is_success_status(status) {
        Err(ApiError::Fetch(String::from_str("Failed to fetch watchers")))
    } else {
        match decode_watchers_response(body) {
            Some(v) => Ok(v.items),
            None => Err(ApiError::Decode(String::from_str("Invalid response body"))),
        }
    }
}

} // verus!
