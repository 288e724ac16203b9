//! The form and response shapes of the identity provider's token exchange.
//!
//! The HTTP exchange itself happens in the surrounding application; this
//! module pins down what is sent and what comes back, as plain values.

use vstd::prelude::*;

verus! {

/// The form posted to exchange an authorization code for an access token.
#[derive(Debug, Clone)]
pub struct TokenRequestForm<'a> {
    pub client_id: &'a str,
    pub client_secret: &'a str,
    pub code: &'a str,
    pub grant_type: &'a str,
    pub redirect_uri: &'a str,
}

impl<'a> TokenRequestForm<'a> {
    /// A token-exchange form for `code`; the grant type is always the
    /// authorization-code grant.
    pub fn new(
        client_id: &'a str,
        client_secret: &'a str,
        code: &'a str,
        redirect_uri: &'a str,
    ) -> (f: TokenRequestForm<'a>)
        ensures
            f.client_id@ == client_id@,
            f.client_secret@ == client_secret@,
            f.code@ == code@,
            f.redirect_uri@ == redirect_uri@,
            f.grant_type@ == "authorization_code"@,
    {
        TokenRequestForm {
            client_id,
            client_secret,
            code,
            grant_type: "authorization_code",
            redirect_uri,
        }
    }
}

/// What the identity provider returns on a successful token exchange.
#[derive(Debug, Clone)]
pub struct TokenRequestResponse {
    pub access_token: String,
    pub expires_in: i64,
    pub refresh_token: String,
    pub scope: Vec<String>,
    pub token_type: String,
}

} // verus!
