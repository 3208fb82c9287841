//! Building the provider registry at process start from the application
//! settings and the credentials the environment supplied. Reading the
//! environment itself is the embedding application's job; the selection
//! and assembly of the clients is decided here.

use vstd::prelude::*;
use crate::config::{ApplicationSettings, OAuthProvider};
use crate::provider::{spec_from_name, AuthName, ProviderClient, ProviderEntry, ProviderRegistry};

verus! {

/// A credential the environment supplied for one provider: the provider's
/// wire name, the client id, and the client secret.
pub struct ProviderCredential {
    pub name: String,
    pub client_id: String,
    pub client_secret: String,
}

/// The id and secret of the first credential whose name matches.
pub open spec fn spec_cred_for(creds: Seq<ProviderCredential>, name: Seq<char>) -> Option<
    (String, String),
>
    decreases creds.len(),
{
    if creds.len() == 0 {
        None
    } else if creds[0].name@ == name {
        Some((creds[0].client_id, creds[0].client_secret))
    } else {
        spec_cred_for(creds.drop_first(), name)
    }
}

/// The providers that make it into the registry, in configuration order:
/// those with a recognized wire name and a supplied credential, paired
/// with that credential.
pub open spec fn spec_selected_from(
    providers: Seq<OAuthProvider>,
    creds: Seq<ProviderCredential>,
    i: int,
) -> Seq<(OAuthProvider, (String, String))>
    decreases providers.len() - i,
{
    if i < 0 || i >= providers.len() {
        Seq::empty()
    } else {
        let rest = spec_selected_from(providers, creds, i + 1);
        if spec_from_name(providers[i].name@) is Some && spec_cred_for(
            creds,
            providers[i].name@,
        ) is Some {
            seq![(providers[i], spec_cred_for(creds, providers[i].name@).unwrap())] + rest
        } else {
            rest
        }
    }
}

/// How one registry entry must relate to the provider configuration and
/// credential it was built from: endpoints from the configuration, the
/// credential's id and secret, the shared redirect URI, and — for the
/// provider that publishes OpenID Connect keys — the fixed key-set URL
/// and issuer. No introspection endpoint stands in the configuration, so
/// that field is left empty.
pub open spec fn spec_entry_built(
    e: ProviderEntry,
    p: OAuthProvider,
    cred: (String, String),
    redirect: String,
) -> bool {
    &&& Some(e.name) == spec_from_name(p.name@)
    &&& e.client.auth_url == p.oauth_url
    &&& e.client.token_url == p.token_url
    &&& e.client.revoke_url == p.revoke_url
    &&& e.client.introspection_url@ == Seq::<char>::empty()
    &&& e.client.client_id == cred.0
    &&& e.client.client_secret == cred.1
    &&& e.client.redirect_url == redirect
    &&& (e.name is Google ==> e.client.jwks_url@ == "https://www.googleapis.com/oauth2/v3/certs"@
        && e.client.issuer@ == "https://accounts.google.com"@)
    &&& (e.name !is Google ==> e.client.jwks_url@ == Seq::<char>::empty() && e.client.issuer@
        == Seq::<char>::empty())
}

/// The first credential whose name matches.
fn cred_for(creds: &Vec<ProviderCredential>, name: &String) -> (r: Option<(String, String)>)
    ensures
        r == spec_cred_for(creds@, name@),
{
    let n = creds.len();
    assert(creds@.skip(0) =~= creds@);
    let mut i: usize = 0;
    while i < n
        invariant
            0 <= i <= n,
            n == creds@.len(),
            spec_cred_for(creds@, name@) == spec_cred_for(creds@.skip(i as int), name@),
        decreases n - i,
    {
        assert(creds@.skip(i as int)[0] == creds@[i as int]);
        if creds[i].name.eq(name) {
            return Some((creds[i].client_id.clone(), creds[i].client_secret.clone()));
        }
        assert(creds@.skip(i as int).drop_first() =~= creds@.skip(i + 1));
        i = i + 1;
    }
    None
}

/// Builds the registry from the configured providers and the credentials
/// the environment supplied. A provider with an unrecognized name or
/// without a credential is skipped, never registered half-configured;
/// the rest are registered in configuration order.
pub fn setup_auth_providers(
    application: &ApplicationSettings,
    credentials: &Vec<ProviderCredential>,
) -> (r: ProviderRegistry)
    ensures
        ({
            let selected = spec_selected_from(application.oauth_providers@, credentials@, 0);
            &&& r.entries_seq().len() == selected.len()
            &&& forall|j: int|
                0 <= j < selected.len() ==> spec_entry_built(
                    #[trigger] r.entries_seq()[j],
                    selected[j].0,
                    selected[j].1,
                    application.oauth_redirect_url,
                )
        }),
{
    let ghost providers = application.oauth_providers@;
    let ghost creds = credentials@;
    let ghost selected = spec_selected_from(providers, creds, 0);
    let mut registry = ProviderRegistry::new();
    let ghost mut done: Seq<(OAuthProvider, (String, String))> = Seq::empty();
    let n = application.oauth_providers.len();
    assert(done + spec_selected_from(providers, creds, 0) =~= selected);
    let mut i: usize = 0;
    while i < n
        invariant
            0 <= i <= n,
            n == providers.len(),
            providers == application.oauth_providers@,
            creds == credentials@,
            selected == spec_selected_from(providers, creds, 0),
            done + spec_selected_from(providers, creds, i as int) == selected,
            registry.entries_seq().len() == done.len(),
            forall|j: int|
                0 <= j < done.len() ==> spec_entry_built(
                    #[trigger] registry.entries_seq()[j],
                    done[j].0,
                    done[j].1,
                    application.oauth_redirect_url,
                ),
        decreases n - i,
    {
        let provider = &application.oauth_providers[i];
        let name = AuthName::from_name(provider.name.as_str());
        let cred = cred_for(credentials, &provider.name);
        match (name, cred) {
            (Some(nm), Some((id, secret))) => {
                let (jwks_url, issuer) = oidc_endpoints(nm);
                let client = ProviderClient {
                    auth_url: provider.oauth_url.clone(),
                    token_url: provider.token_url.clone(),
                    revoke_url: provider.revoke_url.clone(),
                    introspection_url: String::new(),
                    jwks_url,
                    client_id: id,
                    client_secret: secret,
                    redirect_url: application.oauth_redirect_url.clone(),
                    issuer,
                };
                registry.register(nm, client);
                proof {
                    let x = (providers[i as int], spec_cred_for(creds, providers[i as int].name@)
                        .unwrap());
                    assert(spec_selected_from(providers, creds, i as int) == seq![x]
                        + spec_selected_from(providers, creds, i + 1));
                    assert(done.push(x) + spec_selected_from(providers, creds, i + 1) =~= done + (
                    seq![x] + spec_selected_from(providers, creds, i + 1)));
                    done = done.push(x);
                }
            },
            _ => {
                proof {
                    assert(spec_selected_from(providers, creds, i as int) == spec_selected_from(
                        providers,
                        creds,
                        i + 1,
                    ));
                }
            },
        }
        i = i + 1;
    }
    assert(spec_selected_from(providers, creds, n as int) =~= Seq::empty());
    assert(done =~= selected);
    registry
}

/// The fixed OpenID Connect endpoints of the one provider that publishes
/// them; the others get none.
fn oidc_endpoints(name: AuthName) -> (r: (String, String))
    ensures
        name is Google ==> r.0@ == "https://www.googleapis.com/oauth2/v3/certs"@ && r.1@
            == "https://accounts.google.com"@,
        name !is Google ==> r.0@ == Seq::<char>::empty() && r.1@ == Seq::<char>::empty(),
{
    match name {
        AuthName::Google => (
            String::from_str("https://www.googleapis.com/oauth2/v3/certs"),
            String::from_str("https://accounts.google.com"),
        ),
        _ => (String::new(), String::new()),
    }
}

} // verus!
