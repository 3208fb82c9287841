//! Core of an OAuth2 / OpenID Connect authentication gateway: the
//! Authorization Code + PKCE flow across multiple identity providers,
//! CSRF-protected callback handling, the authorization-code-for-token
//! exchange, and cryptographic verification of OpenID Connect ID tokens
//! against a provider's published signing keys.

mod authorize;
mod byteseq;
mod config;
mod errors;
mod exchange;
mod finalize;
mod jsonlite;
mod laws;
mod pkce;
mod poses;
mod provider;
mod session;
mod setup;
mod verify_token;

pub use authorize::{begin, default_scopes};
pub use config::{ApplicationSettings, Environment, OAuthProvider, Settings};
pub use errors::{AuthError, VerifyTokenError};
pub use finalize::{finish, logout, session_error, SessionOutcome};
pub use laws::{
    contains_seq, lemma_authorize_url_binds_flow, lemma_expiry_boundary, lemma_kid_not_found,
    lemma_verify_accepts_iff,
};
pub use exchange::{
    complete, prepare_exchange, prepare_introspection, token_set_of_response, ExchangeRequest,
    GoogleAuth, IntrospectionRequest, LoginRedirect, RawTokenResponse, TokenSet, TokenTransport,
};
pub use jsonlite::{parse_json_object, JsonPairs, JsonValue, JsonValueV};
pub use pkce::PkceEngine;
pub use poses::{look_at_poses, ApiError, PoseInfo, PoseListResponse};
pub use provider::{AuthName, ProviderClient, ProviderEntry, ProviderRegistry};
pub use session::TypedSession;
pub use setup::{setup_auth_providers, ProviderCredential};
pub use verify_token::{GoogleClaims, IdTokenVerifier, Jwk, JwkSet, JwksFetcher};
