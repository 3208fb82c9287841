//! Identity providers: the closed set of provider names, each provider's
//! OAuth2 client configuration, and the registry that maps a name to its
//! configuration.

use vstd::prelude::*;

verus! {

/// The identity providers this gateway can drive a login through.
#[derive(Clone, Copy, Debug, PartialEq, Eq, Structural)]
pub enum AuthName {
    Google,
    GitHub,
    Fusion,
}

impl AuthName {
    /// The lower-case wire name of the provider, as it appears in a login
    /// path and in configuration.
    pub fn as_str(&self) -> (r: &'static str)
        ensures
            r@ == self.spec_name(),
    {
        match self {
            AuthName::Google => "google",
            AuthName::GitHub => "github",
            AuthName::Fusion => "fusion",
        }
    }

    /// The wire name as a sequence of characters.
    pub open spec fn spec_name(self) -> Seq<char> {
        match self {
            AuthName::Google => "google"@,
            AuthName::GitHub => "github"@,
            AuthName::Fusion => "fusion"@,
        }
    }

    /// Parses a wire name; only the three exact lower-case names are accepted.
    pub fn from_name(name: &str) -> (r: Option<AuthName>)
        ensures
            r == spec_from_name(name@),
    {
        let owned = name.to_owned();
        if owned.eq(&String::from_str("google")) {
            Some(AuthName::Google)
        } else if owned.eq(&String::from_str("github")) {
            Some(AuthName::GitHub)
        } else if owned.eq(&String::from_str("fusion")) {
            Some(AuthName::Fusion)
        } else {
            None
        }
    }

    /// True when the provider returns an OpenID Connect ID token beside the
    /// opaque OAuth2 tokens.
    pub fn supports_oidc(&self) -> (r: bool)
        ensures
            r == (*self is Google),
    {
        match self {
            AuthName::Google => true,
            AuthName::GitHub => false,
            AuthName::Fusion => false,
        }
    }
}

/// Which provider, if any, a wire name denotes.
pub open spec fn spec_from_name(name: Seq<char>) -> Option<AuthName> {
    if name == "google"@ {
        Some(AuthName::Google)
    } else if name == "github"@ {
        Some(AuthName::GitHub)
    } else if name == "fusion"@ {
        Some(AuthName::Fusion)
    } else {
        None
    }
}

/// One provider's OAuth2 client configuration: its endpoints, this
/// gateway's credentials at the provider, and what ID-token verification
/// needs. The client secret must never be written to a log or serialized
/// in cleartext.
pub struct ProviderClient {
    /// Endpoint the browser is redirected to, to authorize.
    pub auth_url: String,
    /// Endpoint the authorization code is exchanged at.
    pub token_url: String,
    /// Endpoint a token can be revoked at.
    pub revoke_url: String,
    /// Endpoint a token can be introspected at.
    pub introspection_url: String,
    /// Endpoint the provider publishes its signing keys at.
    pub jwks_url: String,
    /// This gateway's client id at the provider.
    pub client_id: String,
    /// This gateway's client secret at the provider.
    pub client_secret: String,
    /// Redirect URI registered at the provider for the callback.
    pub redirect_url: String,
    /// Issuer expected in the `iss` claim of an ID token.
    pub issuer: String,
}

/// A registered provider: a name bound to its client configuration.
pub struct ProviderEntry {
    pub name: AuthName,
    pub client: ProviderClient,
}

/// Read-only map from provider name to client configuration, fixed at
/// process start. An absent name means the gateway is misconfigured for
/// that provider; callers must fail, never fall back to another provider.
pub struct ProviderRegistry {
    entries: Vec<ProviderEntry>,
}

/// The index of the first entry for `name`, scanning from `i`.
pub open spec fn spec_find(entries: Seq<ProviderEntry>, name: AuthName, i: int) -> Option<int>
    decreases entries.len() - i,
{
    if i < 0 || i >= entries.len() {
        None
    } else if entries[i].name == name {
        Some(i)
    } else {
        spec_find(entries, name, i + 1)
    }
}

impl ProviderRegistry {
    /// The entries as the registry's mathematical content.
    pub closed spec fn entries_seq(self) -> Seq<ProviderEntry> {
        self.entries@
    }

    /// Whether some entry is registered under `name`.
    pub open spec fn spec_has(self, name: AuthName) -> bool {
        spec_find(self.entries_seq(), name, 0) is Some
    }

    /// The configuration registered under `name` (the first, if several).
    pub open spec fn spec_get(self, name: AuthName) -> ProviderClient
        recommends
            self.spec_has(name),
    {
        self.entries_seq()[spec_find(self.entries_seq(), name, 0).unwrap()].client
    }

    /// An empty registry.
    pub fn new() -> (r: ProviderRegistry)
        ensures
            r.entries_seq() == Seq::<ProviderEntry>::empty(),
    {
        ProviderRegistry { entries: Vec::new() }
    }

    /// Binds `name` to `client`. Earlier bindings of the same name keep
    /// priority: lookups return the first binding.
    pub fn register(&mut self, name: AuthName, client: ProviderClient)
        ensures
            final(self).entries_seq() == old(self).entries_seq().push(
                ProviderEntry { name, client },
            ),
    {
        self.entries.push(ProviderEntry { name, client });
    }

    /// Looks the provider up; `None` means "provider not configured",
    /// which callers must treat as a server misconfiguration.
    pub fn get(&self, name: AuthName) -> (r: Option<&ProviderClient>)
        ensures
            match r {
                Some(c) => self.spec_has(name) && *c == self.spec_get(name),
                None => !self.spec_has(name),
            },
    {
        let n = self.entries.len();
        let mut i: usize = 0;
        while i < n
            invariant
                n == self.entries@.len(),
                0 <= i <= n,
                spec_find(self.entries@, name, 0) == spec_find(self.entries@, name, i as int),
            decreases n - i,
        {
            if self.entries[i].name == name {
                return Some(&self.entries[i].client);
            }
            i = i + 1;
        }
        None
    }
}

} // verus!
