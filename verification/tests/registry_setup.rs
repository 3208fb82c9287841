//! Building the provider registry from settings and environment-supplied
//! credentials.

use auth_gateway::{
    setup_auth_providers, ApplicationSettings, AuthName, OAuthProvider, ProviderCredential,
    Settings,
};

fn provider(name: &str) -> OAuthProvider {
    OAuthProvider {
        name: name.to_string(),
        oauth_url: format!("https://{name}.example.org/auth"),
        token_url: format!("https://{name}.example.org/token"),
        revoke_url: format!("https://{name}.example.org/revoke"),
    }
}

fn cred(name: &str, id: &str, secret: &str) -> ProviderCredential {
    ProviderCredential {
        name: name.to_string(),
        client_id: id.to_string(),
        client_secret: secret.to_string(),
    }
}

fn settings(providers: Vec<OAuthProvider>) -> Settings {
    Settings {
        application: ApplicationSettings {
            port: "8000".to_string(),
            host: "127.0.0.1".to_string(),
            oauth_redirect_url: "https://gateway.example.org/oauth-redirect".to_string(),
            after_login_url: "https://app.example.org/home".to_string(),
            allowed_origins: vec!["https://app.example.org".to_string()],
            oauth_providers: providers,
        },
    }
}

#[test]
fn registers_only_named_providers_with_credentials() {
    let cfg = settings(vec![provider("google"), provider("github"), provider("mystery")]);
    let creds = vec![
        cred("google", "gid", "gsecret"),
        cred("mystery", "mid", "msecret"),
        cred("fusion", "fid", "fsecret"),
    ];
    let registry = setup_auth_providers(&cfg.application, &creds);

    let google = registry.get(AuthName::Google).expect("google has a name and a credential");
    assert_eq!(google.auth_url, "https://google.example.org/auth");
    assert_eq!(google.token_url, "https://google.example.org/token");
    assert_eq!(google.revoke_url, "https://google.example.org/revoke");
    assert_eq!(google.client_id, "gid");
    assert_eq!(google.client_secret, "gsecret");
    assert_eq!(google.redirect_url, "https://gateway.example.org/oauth-redirect");
    assert_eq!(google.jwks_url, "https://www.googleapis.com/oauth2/v3/certs");
    assert_eq!(google.issuer, "https://accounts.google.com");
    assert_eq!(google.introspection_url, "");

    // github is configured but has no credential; mystery has a credential
    // but no recognized name; fusion has a credential but no configuration.
    assert!(registry.get(AuthName::GitHub).is_none());
    assert!(registry.get(AuthName::Fusion).is_none());
}

#[test]
fn basic_providers_get_no_oidc_endpoints() {
    let cfg = settings(vec![provider("github")]);
    let creds = vec![cred("github", "hid", "hsecret")];
    let registry = setup_auth_providers(&cfg.application, &creds);
    let github = registry.get(AuthName::GitHub).expect("configured with credential");
    assert_eq!(github.jwks_url, "");
    assert_eq!(github.issuer, "");
    assert_eq!(github.client_id, "hid");
}

#[test]
fn first_credential_with_a_name_wins() {
    let cfg = settings(vec![provider("fusion")]);
    let creds = vec![cred("fusion", "first", "s1"), cred("fusion", "second", "s2")];
    let registry = setup_auth_providers(&cfg.application, &creds);
    let fusion = registry.get(AuthName::Fusion).expect("configured");
    assert_eq!(fusion.client_id, "first");
}
