//! Data shapes of the third-party login flow.
//!
//! The OAuth redirect handler, cookie issuance and the calls to the
//! identity provider live in the surrounding application; this module
//! holds what that flow passes around and how its failures map to
//! responses.

use vstd::prelude::*;

verus! {

/// query params the identity provider sends in case the user allowed
/// authorization
#[derive(Debug, Clone)]
pub struct TwitchAuthParamsSuccess {
    /// the code used to request an access token from the provider
    pub code: String,
    /// the scopes of the token
    pub scope: String,
    /// optional state param to avoid CSRF
    pub state: Option<String>,
}

/// query params the identity provider sends in case the user did not
/// authorize us
#[derive(Debug, Clone)]
pub struct TwitchAuthParamsError {
    /// error returned by the provider
    pub error: String,
    /// description of the error
    pub error_description: String,
    /// optional state param to avoid CSRF
    pub state: Option<String>,
}

/// Why the login flow failed.
#[derive(Debug, Clone, Copy)]
pub enum TwitchAuthError {
    /// the user denied our authorization request
    AuthorizationDenied,
    /// the provider returned an invalid response; the payload says at
    /// which step
    BadResponseFromTwitch(&'static str),
}

impl TwitchAuthError {
    /// A denial is the client's doing (HTTP 400); a bad provider response
    /// is an upstream failure (HTTP 502).
    pub fn status_code(&self) -> (c: u16)
        ensures
            *self is AuthorizationDenied ==> c == 400,
            *self is BadResponseFromTwitch ==> c == 502,
    {
        match self {
            TwitchAuthError::AuthorizationDenied => 400,
            TwitchAuthError::BadResponseFromTwitch(_) => 502,
        }
    }
}

} // verus!
