//! Completing a login callback: CSRF state validation, PKCE-verifier
//! retrieval, and the authorization-code-for-token exchange against the
//! provider that was recorded when the flow began.
//!
//! The network call itself is a capability ([`TokenTransport`]) handed in
//! by the embedding application; the decisions around it are verified
//! here. The provider used for the exchange is always the one recorded in
//! the session at authorization time, never a caller-supplied hint, so a
//! callback cannot be replayed against another provider's credentials.

use vstd::prelude::*;
use crate::errors::AuthError;
use crate::provider::ProviderRegistry;
use crate::session::TypedSession;

verus! {

/// The query parameters a provider sends back to the callback endpoint.
pub struct LoginRedirect {
    /// Authorization code to be exchanged for tokens.
    pub code: String,
    /// Echo of the CSRF `state` this gateway sent out.
    pub state: String,
}

/// The extra, OpenID Connect specific field of a token response.
pub struct GoogleAuth {
    /// The signed ID token asserting the user's identity claims.
    pub id_token: String,
}

/// What a provider's token endpoint answered.
pub struct RawTokenResponse {
    pub access_token: String,
    pub refresh_token: Option<String>,
    /// Present when the provider returned an OpenID Connect ID token.
    pub extra: Option<GoogleAuth>,
}

/// The tokens a completed exchange yields. Only valid once the exchange
/// succeeded and, for a provider that returned an ID token, once that
/// token verified.
pub struct TokenSet {
    pub access_token: String,
    pub refresh_token: Option<String>,
    pub id_token: Option<String>,
}

/// Everything the token endpoint must be sent to exchange a code:
/// the endpoint, this gateway's credentials, the registered redirect URI,
/// the authorization code, and the PKCE verifier.
pub struct ExchangeRequest {
    pub token_url: String,
    pub client_id: String,
    pub client_secret: String,
    pub redirect_url: String,
    pub code: String,
    pub verifier: String,
}

/// Capability that performs the authorization-code-for-token exchange
/// over the network. Implementations live outside the verified core (the
/// HTTP client of the embedding application, or a stub under test); an
/// error carries the transport's own message.
pub trait TokenTransport {
    fn exchange(&mut self, req: &ExchangeRequest) -> Result<RawTokenResponse, String>;
}

/// True when the session is missing any part of the login flow's state:
/// the CSRF state, the PKCE verifier, or the chosen provider.
pub open spec fn flow_state_missing(s: TypedSession) -> bool {
    ||| s.oauth_state is None
    ||| s.oauth_code_verifier is None
    ||| s.oauth_provider is None
}

/// True when the session holds complete flow state whose CSRF state
/// equals the `state` echoed back by the provider.
pub open spec fn callback_state_matches(s: TypedSession, returned_state: Seq<char>) -> bool {
    !flow_state_missing(s) && s.oauth_state->0@ == returned_state
}

/// Validates the callback against the session and assembles the exchange
/// request. No network is touched here.
///
/// Missing flow state yields `NoFlowState`; a CSRF `state` that differs
/// from the stored one yields `StateMismatch` (a possible forged
/// callback); a recorded provider that is not configured yields
/// `UnknownProvider`. Otherwise the request is built from the recorded
/// provider's configuration, the returned code, and the stored verifier.
pub fn prepare_exchange(
    registry: &ProviderRegistry,
    session: &TypedSession,
    login: &LoginRedirect,
) -> (r: Result<ExchangeRequest, AuthError>)
    ensures
        match r {
            Ok(req) => {
                &&& callback_state_matches(*session, login.state@)
                &&& registry.spec_has(session.oauth_provider->0)
                &&& req == (ExchangeRequest {
                    token_url: registry.spec_get(session.oauth_provider->0).token_url,
                    client_id: registry.spec_get(session.oauth_provider->0).client_id,
                    client_secret: registry.spec_get(session.oauth_provider->0).client_secret,
                    redirect_url: registry.spec_get(session.oauth_provider->0).redirect_url,
                    code: login.code,
                    verifier: session.oauth_code_verifier->0,
                })
            },
            Err(e) => match e {
                AuthError::NoFlowState => flow_state_missing(*session),
                AuthError::StateMismatch => {
                    &&& !flow_state_missing(*session)
                    &&& session.oauth_state->0@ != login.state@
                },
                AuthError::UnknownProvider => {
                    &&& callback_state_matches(*session, login.state@)
                    &&& !registry.spec_has(session.oauth_provider->0)
                },
                AuthError::ExchangeFailed(_) => false,
            },
        },
{
    let state = match session.get_state() {
        Some(s) => s,
        None => {
            return Err(AuthError::NoFlowState);
        },
    };
    let verifier = match session.get_pkce_verifier() {
        Some(v) => v,
        None => {
            return Err(AuthError::NoFlowState);
        },
    };
    let provider = match session.get_oauth_provider() {
        Some(p) => p,
        None => {
            return Err(AuthError::NoFlowState);
        },
    };
    if !state.eq(&login.state) {
        return Err(AuthError::StateMismatch);
    }
    let client = match registry.get(provider) {
        Some(c) => c,
        None => {
            return Err(AuthError::UnknownProvider);
        },
    };
    Ok(ExchangeRequest {
        token_url: client.token_url.clone(),
        client_id: client.client_id.clone(),
        client_secret: client.client_secret.clone(),
        redirect_url: client.redirect_url.clone(),
        code: login.code.clone(),
        verifier: verifier.clone(),
    })
}

/// Shapes a raw token response into the token set handed to the caller.
pub fn token_set_of_response(resp: RawTokenResponse) -> (r: TokenSet)
    ensures
        r.access_token == resp.access_token,
        r.refresh_token == resp.refresh_token,
        match resp.extra {
            Some(extra) => r.id_token == Some(extra.id_token),
            None => r.id_token is None,
        },
{
    let id_token = match resp.extra {
        Some(extra) => Some(extra.id_token),
        None => None,
    };
    TokenSet { access_token: resp.access_token, refresh_token: resp.refresh_token, id_token }
}

/// Completes a login callback: validates the CSRF state and the flow
/// state, and only then exchanges the code at the recorded provider's
/// token endpoint.
///
/// The session is only read: tokens are stored by the session finalizer
/// once the whole login attempt has succeeded, so no failure here leaves
/// partial credentials behind. The flow-integrity errors are decided
/// exactly as in [`prepare_exchange`]; the exchange itself is attempted
/// if and only if those checks pass, and a transport failure surfaces as
/// `ExchangeFailed` with the transport's message.
pub fn complete<T: TokenTransport>(
    transport: &mut T,
    registry: &ProviderRegistry,
    session: &TypedSession,
    login: &LoginRedirect,
) -> (r: Result<TokenSet, AuthError>)
    ensures
        (r matches Err(e) && e is NoFlowState) <==> flow_state_missing(*session),
        (r matches Err(e) && e is StateMismatch) <==> (!flow_state_missing(*session)
            && session.oauth_state->0@ != login.state@),
        (r matches Err(e) && e is UnknownProvider) <==> (callback_state_matches(
            *session,
            login.state@,
        ) && !registry.spec_has(session.oauth_provider->0)),
        r matches Err(e) && e is ExchangeFailed ==> callback_state_matches(
            *session,
            login.state@,
        ) && registry.spec_has(session.oauth_provider->0),
        r is Ok ==> callback_state_matches(*session, login.state@) && registry.spec_has(
            session.oauth_provider->0,
        ),
{
    let req = match prepare_exchange(registry, session, login) {
        Ok(q) => q,
        Err(e) => {
            return Err(e);
        },
    };
    match transport.exchange(&req) {
        Ok(resp) => Ok(token_set_of_response(resp)),
        Err(cause) => Err(AuthError::ExchangeFailed(cause)),
    }
}

/// Everything an introspection endpoint must be sent to look a token up.
pub struct IntrospectionRequest {
    pub url: String,
    pub client_id: String,
    pub client_secret: String,
    pub token: String,
}

/// Assembles an introspection request for the provider recorded in the
/// session; the embedding application performs the call. A session with
/// no recorded provider yields `NoFlowState`; a recorded provider that is
/// not configured yields `UnknownProvider`.
pub fn prepare_introspection(
    registry: &ProviderRegistry,
    session: &TypedSession,
    access_token: &String,
) -> (r: Result<IntrospectionRequest, AuthError>)
    ensures
        match r {
            Ok(req) => {
                &&& session.oauth_provider is Some
                &&& registry.spec_has(session.oauth_provider->0)
                &&& req == (IntrospectionRequest {
                    url: registry.spec_get(session.oauth_provider->0).introspection_url,
                    client_id: registry.spec_get(session.oauth_provider->0).client_id,
                    client_secret: registry.spec_get(session.oauth_provider->0).client_secret,
                    token: *access_token,
                })
            },
            Err(e) => match e {
                AuthError::NoFlowState => session.oauth_provider is None,
                AuthError::UnknownProvider => {
                    &&& session.oauth_provider is Some
                    &&& !registry.spec_has(session.oauth_provider->0)
                },
                _ => false,
            },
        },
{
    let provider = match session.get_oauth_provider() {
        Some(p) => p,
        None => {
            return Err(AuthError::NoFlowState);
        },
    };
    let client = match registry.get(provider) {
        Some(c) => c,
        None => {
            return Err(AuthError::UnknownProvider);
        },
    };
    Ok(IntrospectionRequest {
        url: client.introspection_url.clone(),
        client_id: client.client_id.clone(),
        client_secret: client.client_secret.clone(),
        token: access_token.clone(),
    })
}

} // verus!
