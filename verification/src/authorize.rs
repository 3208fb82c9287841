//! Building the redirect to a provider's authorization endpoint, and
//! persisting the login flow's state into the session.

use vstd::prelude::*;
use vstd::utf8::encode_utf8;
use crate::errors::AuthError;
use crate::pkce::{b64url_of, sha256_of, PkceEngine};
use crate::provider::{AuthName, ProviderClient, ProviderRegistry};
use crate::session::TypedSession;

verus! {

/// The views of a sequence of strings.
pub open spec fn views_of(strings: Seq<String>) -> Seq<Seq<char>> {
    strings.map_values(|s: String| s@)
}

/// The scopes after the first, each preceded by the `%20` separator.
pub open spec fn spec_scope_tail(scopes: Seq<Seq<char>>) -> Seq<char>
    decreases scopes.len(),
{
    if scopes.len() == 0 {
        Seq::empty()
    } else {
        "%20"@ + scopes[0] + spec_scope_tail(scopes.skip(1))
    }
}

/// The requested scopes joined with the `%20` separator, as they stand in
/// the `scope` query parameter.
pub open spec fn spec_join_scopes(scopes: Seq<Seq<char>>) -> Seq<char> {
    if scopes.len() == 0 {
        Seq::empty()
    } else {
        scopes[0] + spec_scope_tail(scopes.skip(1))
    }
}

/// The provider's authorization URL with this gateway's client id, the
/// registered redirect URI, `response_type=code`, the requested scopes,
/// the CSRF `state`, and the PKCE challenge with the `S256` method;
/// providers that hand out refresh tokens only when asked also get
/// `access_type=offline`.
pub open spec fn spec_authorize_url(
    client: ProviderClient,
    scopes: Seq<Seq<char>>,
    challenge: Seq<char>,
    state: Seq<char>,
    offline: bool,
) -> Seq<char> {
    client.auth_url@ + "?response_type=code&client_id="@ + client.client_id@ + "&redirect_uri="@
        + client.redirect_url@ + "&scope="@ + spec_join_scopes(scopes) + "&state="@ + state
        + "&code_challenge="@ + challenge + "&code_challenge_method=S256"@ + (if offline {
        "&access_type=offline"@
    } else {
        Seq::<char>::empty()
    })
}

/// Joins the scopes with the `%20` separator.
fn join_scopes(scopes: &Vec<String>) -> (r: String)
    ensures
        r@ == spec_join_scopes(views_of(scopes@)),
{
    let ghost v = views_of(scopes@);
    let mut r = String::new();
    let n = scopes.len();
    if n == 0 {
        return r;
    }
    r.append(scopes[0].as_str());
    let mut i: usize = 1;
    while i < n
        invariant
            1 <= i <= n,
            n == scopes@.len(),
            v == views_of(scopes@),
            v.len() == n,
            spec_join_scopes(v) == r@ + spec_scope_tail(v.skip(i as int)),
        decreases n - i,
    {
        assert(v.skip(i as int).skip(1) =~= v.skip(i + 1));
        assert(spec_scope_tail(v.skip(i as int)) == "%20"@ + v[i as int] + spec_scope_tail(
            v.skip(i + 1),
        ));
        r.append("%20");
        r.append(scopes[i].as_str());
        i = i + 1;
    }
    assert(v.skip(n as int) =~= Seq::<Seq<char>>::empty());
    assert(spec_scope_tail(v.skip(n as int)) =~= Seq::<char>::empty());
    assert(r@ =~= spec_join_scopes(v));
    r
}

/// Builds the authorization URL for one provider.
fn build_authorize_url(
    client: &ProviderClient,
    scopes: &Vec<String>,
    challenge: &str,
    state: &str,
    offline: bool,
) -> (r: String)
    ensures
        r@ == spec_authorize_url(*client, views_of(scopes@), challenge@, state@, offline),
{
    let mut url = client.auth_url.clone();
    url.append("?response_type=code&client_id=");
    url.append(client.client_id.as_str());
    url.append("&redirect_uri=");
    url.append(client.redirect_url.as_str());
    url.append("&scope=");
    let joined = join_scopes(scopes);
    url.append(joined.as_str());
    url.append("&state=");
    url.append(state);
    url.append("&code_challenge=");
    url.append(challenge);
    url.append("&code_challenge_method=S256");
    if offline {
        url.append("&access_type=offline");
    }
    assert(url@ =~= spec_authorize_url(*client, views_of(scopes@), challenge@, state@, offline));
    url
}

/// Begins a login: resolves the provider, generates a PKCE pair and a
/// CSRF token, persists the flow state into the session, and returns the
/// redirect URL to the provider's authorization endpoint.
///
/// The URL is built from the very values stored in the session: its
/// `state` parameter is the stored CSRF state, and its `code_challenge`
/// is the base64url-encoded SHA-256 digest of the stored PKCE verifier.
pub fn begin(
    registry: &ProviderRegistry,
    session: &mut TypedSession,
    provider: AuthName,
    scopes: &Vec<String>,
) -> (r: Result<String, AuthError>)
    ensures
        r is Err <==> !registry.spec_has(provider),
        match r {
            Err(e) => e is UnknownProvider && *final(session) == *old(session),
            Ok(url) => {
                &&& final(session).oauth_provider == Some(provider)
                &&& final(session).oauth_state is Some
                &&& final(session).oauth_code_verifier is Some
                &&& final(session).id == old(session).id
                &&& final(session).access_token == old(session).access_token
                &&& final(session).refresh_token == old(session).refresh_token
                &&& final(session).user_id == old(session).user_id
                &&& url@ == spec_authorize_url(
                    registry.spec_get(provider),
                    views_of(scopes@),
                    b64url_of(
                        sha256_of(encode_utf8(final(session).oauth_code_verifier->0@)),
                    ),
                    final(session).oauth_state->0@,
                    provider is Google,
                )
            },
        },
{
    let client = match registry.get(provider) {
        Some(c) => c,
        None => {
            return Err(AuthError::UnknownProvider);
        },
    };
    let (verifier, challenge) = PkceEngine::new_challenge();
    let state = PkceEngine::new_csrf_token();
    session.set_pkce_verifier(verifier);
    session.insert_oauth_provider(provider);
    session.set_state(state.clone());
    let offline = provider == AuthName::Google;
    let url = build_authorize_url(client, scopes, challenge.as_str(), state.as_str(), offline);
    Ok(url)
}

/// The scopes the gateway asks each provider for when the caller has no
/// preference of its own.
pub fn default_scopes(provider: AuthName) -> (r: Vec<String>)
    ensures
        match provider {
            AuthName::Google => views_of(r@) =~= seq!["openid"@, "profile"@, "email"@],
            AuthName::Fusion => views_of(r@) =~= seq!["read"@, "write"@, "offline"@],
            AuthName::GitHub => views_of(r@) =~= seq!["read"@, "write"@],
        },
{
    let mut r: Vec<String> = Vec::new();
    match provider {
        AuthName::Google => {
            r.push(String::from_str("openid"));
            r.push(String::from_str("profile"));
            r.push(String::from_str("email"));
        },
        AuthName::Fusion => {
            r.push(String::from_str("read"));
            r.push(String::from_str("write"));
            r.push(String::from_str("offline"));
        },
        AuthName::GitHub => {
            r.push(String::from_str("read"));
            r.push(String::from_str("write"));
        },
    }
    assert(views_of(r@) =~= match provider {
        AuthName::Google => seq!["openid"@, "profile"@, "email"@],
        AuthName::Fusion => seq!["read"@, "write"@, "offline"@],
        AuthName::GitHub => seq!["read"@, "write"@],
    });
    r
}

} // verus!
