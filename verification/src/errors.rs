//! The failure taxonomy shared by the session guard, the ownership check and
//! the resource handlers, and its mapping onto HTTP status codes.

use vstd::prelude::*;

verus! {

/// Every way a request can fail.
///
/// The credential variants come from the session guard, `Unauthorized` from
/// the ownership check, `NotFound` from resource lookups, and the remaining
/// three from registration and login. `StoreError` covers internal failures
/// (an exhausted id space, a missing referenced row, a failed hash).
#[derive(Clone, Copy, Debug, PartialEq, Eq, Structural)]
pub enum ApiError {
    /// The request carries no `token` cookie.
    MissingCredential,
    /// The cookie value matches no stored token.
    InvalidCredential,
    /// The token exists but its expiry is not in the future.
    ExpiredCredential,
    /// The acting principal is not the resource's author.
    Unauthorized,
    /// No post or reply matches the requested id (or `(reply, post)` pair).
    NotFound,
    /// Registration found the username already stored.
    UsernameTaken,
    /// Login found no user with the given username.
    UnknownUser,
    /// Login found the user but the password does not match the stored hash.
    InvalidPassword,
    /// An internal storage failure.
    StoreError,
}

impl ApiError {
    /// The HTTP status code a server would answer with.
    ///
    /// Guard and ownership failures map to 401, missing resources to 404 and
    /// internal failures to 500. Registration and login failures are reported
    /// inside a 200 response with a status flag, so that the response shape
    /// does not leak which part of a credential was wrong.
    pub fn http_status(&self) -> (code: u16)
        ensures
            code == self.http_status_spec(),
    {
        match self {
            ApiError::MissingCredential => 401,
            ApiError::InvalidCredential => 401,
            ApiError::ExpiredCredential => 401,
            ApiError::Unauthorized => 401,
            ApiError::NotFound => 404,
            ApiError::UsernameTaken => 200,
            ApiError::UnknownUser => 200,
            ApiError::InvalidPassword => 200,
            ApiError::StoreError => 500,
        }
    }

    /// [`ApiError::http_status`] as a specification.
    pub open spec fn http_status_spec(&self) -> u16 {
        match self {
            ApiError::MissingCredential => 401u16,
            ApiError::InvalidCredential => 401u16,
            ApiError::ExpiredCredential => 401u16,
            ApiError::Unauthorized => 401u16,
            ApiError::NotFound => 404u16,
            ApiError::UsernameTaken => 200u16,
            ApiError::UnknownUser => 200u16,
            ApiError::InvalidPassword => 200u16,
            ApiError::StoreError => 500u16,
        }
    }
}

} // verus!
