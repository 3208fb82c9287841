//! Error taxonomy of the gateway core.
//!
//! Configuration errors (unknown provider) are fatal to the request and
//! mean server misconfiguration. Flow-integrity errors (missing flow
//! state, CSRF state mismatch) must never proceed to an exchange; the
//! user restarts the login. Transport errors abort the attempt and may be
//! retried by the user. Cryptographic and claim errors are always fatal
//! to the attempt and are never downgraded.

use vstd::prelude::*;

verus! {

/// What can go wrong while beginning a login or completing a callback.
#[derive(Debug)]
pub enum AuthError {
    /// The requested or recorded provider is not configured.
    UnknownProvider,
    /// The session holds no CSRF state or no PKCE verifier; the user must
    /// restart the login.
    NoFlowState,
    /// The `state` returned by the provider differs from the one stored in
    /// the session: a possible forged callback.
    StateMismatch,
    /// The token endpoint could not be reached or refused the exchange;
    /// the cause is the transport's own message.
    ExchangeFailed(String),
}

impl AuthError {
    /// A short diagnostic name for logs and error pages.
    pub fn describe(&self) -> (r: &'static str)
        ensures
            match self {
                AuthError::UnknownProvider => r@ == "oauth provider not in map"@,
                AuthError::NoFlowState => r@ == "there is no login flow state"@,
                AuthError::StateMismatch => r@ == "state parameter does not match"@,
                AuthError::ExchangeFailed(_) => r@ == "could not exchange code for tokens"@,
            },
    {
        match self {
            AuthError::UnknownProvider => "oauth provider not in map",
            AuthError::NoFlowState => "there is no login flow state",
            AuthError::StateMismatch => "state parameter does not match",
            AuthError::ExchangeFailed(_) => "could not exchange code for tokens",
        }
    }
}

/// What can go wrong while verifying an OpenID Connect ID token.
#[derive(Clone, Copy, Debug, PartialEq, Eq, Structural)]
pub enum VerifyTokenError {
    /// No key id could be read from the token's header.
    NoKid,
    /// The provider's key set could not be fetched.
    FetchFailed,
    /// No key in the fetched key set carries the token's key id; commonly
    /// key rotation, so the caller should treat it as "retry login".
    KidNotFound,
    /// The signature does not verify, the payload cannot be decoded, or a
    /// standard claim check (`exp`, `iss`, `aud`) fails.
    SignatureOrClaimInvalid,
}

impl VerifyTokenError {
    /// A short diagnostic name for logs and error pages.
    pub fn describe(&self) -> (r: &'static str)
        ensures
            match self {
                VerifyTokenError::NoKid => r@ == "id token has no kid"@,
                VerifyTokenError::FetchFailed => r@ == "could not fetch jwks"@,
                VerifyTokenError::KidNotFound => r@ == "id token header kid not found in jwks"@,
                VerifyTokenError::SignatureOrClaimInvalid => (
                    r@ == "id token signature or claims invalid"@
                ),
            },
    {
        match self {
            VerifyTokenError::NoKid => "id token has no kid",
            VerifyTokenError::FetchFailed => "could not fetch jwks",
            VerifyTokenError::KidNotFound => "id token header kid not found in jwks",
            VerifyTokenError::SignatureOrClaimInvalid => "id token signature or claims invalid",
        }
    }
}

} // verus!
