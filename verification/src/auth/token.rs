//! The claims of a signed token request.
use vstd::prelude::*;

verus! {

/// The claims of a JWT that asks the token endpoint for an access token.
pub struct Claims<'a> {
    /// The service account e-mail.
    pub iss: &'a str,
    /// The OAuth scope.
    pub scope: &'a str,
    /// The token endpoint.
    pub aud: &'a str,
    /// Issued at, in seconds since the epoch.
    pub iat: usize,
    /// Expires at, in seconds since the epoch.
    pub exp: usize,
}

} // verus!
