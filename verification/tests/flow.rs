//! The login flow around the session: beginning a login, completing a
//! callback, and the flow-integrity failures.

use auth_gateway::{
    begin, complete, default_scopes, prepare_exchange, prepare_introspection, session_error,
    token_set_of_response, AuthError, AuthName, ExchangeRequest, GoogleAuth, LoginRedirect,
    ProviderClient, ProviderRegistry, RawTokenResponse, TokenTransport, TypedSession,
};
use base64::Engine;
use sha2::Digest;

fn google_client() -> ProviderClient {
    ProviderClient {
        auth_url: "https://accounts.google.com/o/oauth2/v2/auth".to_string(),
        token_url: "https://oauth2.googleapis.com/token".to_string(),
        revoke_url: "https://oauth2.googleapis.com/revoke".to_string(),
        introspection_url: "https://oauth2.googleapis.com/introspect".to_string(),
        jwks_url: "https://www.googleapis.com/oauth2/v3/certs".to_string(),
        client_id: "client-id-123".to_string(),
        client_secret: "s3cret".to_string(),
        redirect_url: "https://gateway.example.org/oauth-redirect".to_string(),
        issuer: "https://accounts.google.com".to_string(),
    }
}

fn registry_with_google() -> ProviderRegistry {
    let mut registry = ProviderRegistry::new();
    registry.register(AuthName::Google, google_client());
    registry
}

struct CountingTransport {
    calls: usize,
    response: Result<RawTokenResponse, String>,
}

impl CountingTransport {
    fn succeeding(access: &str, refresh: Option<&str>, id_token: Option<&str>) -> Self {
        CountingTransport {
            calls: 0,
            response: Ok(RawTokenResponse {
                access_token: access.to_string(),
                refresh_token: refresh.map(|s| s.to_string()),
                extra: id_token.map(|t| GoogleAuth { id_token: t.to_string() }),
            }),
        }
    }

    fn failing(cause: &str) -> Self {
        CountingTransport { calls: 0, response: Err(cause.to_string()) }
    }
}

impl TokenTransport for CountingTransport {
    fn exchange(&mut self, _req: &ExchangeRequest) -> Result<RawTokenResponse, String> {
        self.calls += 1;
        match &self.response {
            Ok(r) => Ok(RawTokenResponse {
                access_token: r.access_token.clone(),
                refresh_token: r.refresh_token.clone(),
                extra: r.extra.as_ref().map(|e| GoogleAuth { id_token: e.id_token.clone() }),
            }),
            Err(e) => Err(e.clone()),
        }
    }
}

fn challenge_of(verifier: &str) -> String {
    let mut hasher = sha2::Sha256::new();
    hasher.update(verifier.as_bytes());
    base64::engine::general_purpose::URL_SAFE_NO_PAD.encode(hasher.finalize())
}

#[test]
fn begin_builds_the_redirect_from_the_stored_flow_state() {
    let registry = registry_with_google();
    let mut session = TypedSession::new(7);
    let scopes = default_scopes(AuthName::Google);
    let url = begin(&registry, &mut session, AuthName::Google, &scopes).expect("google configured");

    let state = session.get_state().expect("state stored").clone();
    let verifier = session.get_pkce_verifier().expect("verifier stored").clone();
    assert_eq!(session.get_oauth_provider(), Some(AuthName::Google));

    let expected = format!(
        "https://accounts.google.com/o/oauth2/v2/auth?response_type=code&client_id=client-id-123&redirect_uri=https://gateway.example.org/oauth-redirect&scope=openid%20profile%20email&state={}&code_challenge={}&code_challenge_method=S256&access_type=offline",
        state,
        challenge_of(&verifier),
    );
    assert_eq!(url, expected);
}

#[test]
fn begin_for_basic_provider_omits_offline_access() {
    let mut registry = ProviderRegistry::new();
    let mut client = google_client();
    client.auth_url = "https://github.example.org/login/oauth/authorize".to_string();
    registry.register(AuthName::GitHub, client);
    let mut session = TypedSession::new(1);
    let scopes = default_scopes(AuthName::GitHub);
    let url = begin(&registry, &mut session, AuthName::GitHub, &scopes).expect("configured");
    assert!(url.contains("&scope=read%20write&"));
    assert!(!url.contains("access_type=offline"));
    assert_eq!(session.get_oauth_provider(), Some(AuthName::GitHub));
}

#[test]
fn begin_refuses_an_unconfigured_provider() {
    let registry = registry_with_google();
    let mut session = TypedSession::new(7);
    let scopes = default_scopes(AuthName::Fusion);
    let r = begin(&registry, &mut session, AuthName::Fusion, &scopes);
    assert!(matches!(r, Err(AuthError::UnknownProvider)));
    assert!(session.get_state().is_none());
    assert!(session.get_pkce_verifier().is_none());
}

#[test]
fn mismatched_state_stops_before_the_token_endpoint() {
    let registry = registry_with_google();
    let mut session = TypedSession::new(7);
    let scopes = default_scopes(AuthName::Google);
    begin(&registry, &mut session, AuthName::Google, &scopes).expect("configured");

    let mut transport = CountingTransport::succeeding("AT1", None, None);
    let login = LoginRedirect { code: "abc123".to_string(), state: "WRONG".to_string() };
    let r = complete(&mut transport, &registry, &session, &login);
    assert!(matches!(r, Err(AuthError::StateMismatch)));
    assert_eq!(transport.calls, 0, "token endpoint must not be invoked");
    assert!(session.get_access_token().is_none());
}

#[test]
fn missing_verifier_stops_before_the_token_endpoint() {
    let registry = registry_with_google();
    // A session that has a state but never stored a verifier.
    let mut session = TypedSession::new(7);
    session.set_state("some-state".to_string());
    session.insert_oauth_provider(AuthName::Google);

    let mut transport = CountingTransport::succeeding("AT1", None, None);
    let login = LoginRedirect { code: "abc123".to_string(), state: "some-state".to_string() };
    let r = complete(&mut transport, &registry, &session, &login);
    assert!(matches!(r, Err(AuthError::NoFlowState)));
    assert_eq!(transport.calls, 0, "no network call without flow state");
}

#[test]
fn empty_session_yields_no_flow_state() {
    let registry = registry_with_google();
    let session = TypedSession::new(7);
    let mut transport = CountingTransport::succeeding("AT1", None, None);
    let login = LoginRedirect { code: "abc123".to_string(), state: "x".to_string() };
    let r = complete(&mut transport, &registry, &session, &login);
    assert!(matches!(r, Err(AuthError::NoFlowState)));
    assert_eq!(transport.calls, 0);
}

#[test]
fn exchange_uses_the_provider_recorded_in_the_session() {
    let registry = registry_with_google();
    let mut session = TypedSession::new(7);
    session.set_state("st".to_string());
    session.set_pkce_verifier("ver".to_string());
    session.insert_oauth_provider(AuthName::Google);
    let login = LoginRedirect { code: "abc123".to_string(), state: "st".to_string() };
    let req = prepare_exchange(&registry, &session, &login).expect("flow is valid");
    assert_eq!(req.token_url, "https://oauth2.googleapis.com/token");
    assert_eq!(req.client_id, "client-id-123");
    assert_eq!(req.client_secret, "s3cret");
    assert_eq!(req.redirect_url, "https://gateway.example.org/oauth-redirect");
    assert_eq!(req.code, "abc123");
    assert_eq!(req.verifier, "ver");
}

#[test]
fn recorded_but_unconfigured_provider_is_a_configuration_error() {
    let registry = registry_with_google();
    let mut session = TypedSession::new(7);
    session.set_state("st".to_string());
    session.set_pkce_verifier("ver".to_string());
    session.insert_oauth_provider(AuthName::Fusion);
    let login = LoginRedirect { code: "c".to_string(), state: "st".to_string() };
    let r = prepare_exchange(&registry, &session, &login);
    assert!(matches!(r, Err(AuthError::UnknownProvider)));
}

#[test]
fn transport_failure_surfaces_as_exchange_failed() {
    let registry = registry_with_google();
    let mut session = TypedSession::new(7);
    session.set_state("st".to_string());
    session.set_pkce_verifier("ver".to_string());
    session.insert_oauth_provider(AuthName::Google);
    let mut transport = CountingTransport::failing("timeout talking to provider");
    let login = LoginRedirect { code: "c".to_string(), state: "st".to_string() };
    let r = complete(&mut transport, &registry, &session, &login);
    match r {
        Err(AuthError::ExchangeFailed(cause)) => assert_eq!(cause, "timeout talking to provider"),
        other => panic!("expected ExchangeFailed, got {:?}", other.map(|_| ())),
    }
    assert_eq!(transport.calls, 1);
}

#[test]
fn token_set_takes_the_id_token_from_the_extra_fields() {
    let with_id = RawTokenResponse {
        access_token: "AT".to_string(),
        refresh_token: Some("RT".to_string()),
        extra: Some(GoogleAuth { id_token: "IDT".to_string() }),
    };
    let ts = token_set_of_response(with_id);
    assert_eq!(ts.access_token, "AT");
    assert_eq!(ts.refresh_token.as_deref(), Some("RT"));
    assert_eq!(ts.id_token.as_deref(), Some("IDT"));

    let without = RawTokenResponse {
        access_token: "AT".to_string(),
        refresh_token: None,
        extra: None,
    };
    let ts2 = token_set_of_response(without);
    assert!(ts2.refresh_token.is_none());
    assert!(ts2.id_token.is_none());
}

#[test]
fn introspection_request_comes_from_the_recorded_provider() {
    let registry = registry_with_google();
    let mut session = TypedSession::new(7);
    session.insert_oauth_provider(AuthName::Google);
    let token = "AT1".to_string();
    let req = prepare_introspection(&registry, &session, &token).expect("provider recorded");
    assert_eq!(req.url, "https://oauth2.googleapis.com/introspect");
    assert_eq!(req.client_id, "client-id-123");
    assert_eq!(req.token, "AT1");

    let empty = TypedSession::new(8);
    assert!(matches!(
        prepare_introspection(&registry, &empty, &token),
        Err(AuthError::NoFlowState)
    ));
}

#[test]
fn session_error_names_the_missing_pieces() {
    let session = TypedSession::new(1);
    assert_eq!(
        session_error(&session),
        "<p>there is no session state</p><p>there is no pkce verifier</p>"
    );
    let mut with_state = TypedSession::new(2);
    with_state.set_state("st".to_string());
    assert_eq!(session_error(&with_state), "<p>there is no pkce verifier</p>");
    with_state.set_pkce_verifier("v".to_string());
    assert_eq!(session_error(&with_state), "");
}

#[test]
fn error_descriptions_are_stable() {
    assert_eq!(AuthError::UnknownProvider.describe(), "oauth provider not in map");
    assert_eq!(AuthError::NoFlowState.describe(), "there is no login flow state");
    assert_eq!(AuthError::StateMismatch.describe(), "state parameter does not match");
    assert_eq!(
        AuthError::ExchangeFailed("x".to_string()).describe(),
        "could not exchange code for tokens"
    );
}
