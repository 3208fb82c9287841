//! Settings the gateway is started with, and the named deployment
//! environments a configuration can be loaded for. Reading configuration
//! files and environment variables is the embedding application's job;
//! the core only holds the resulting plain values.

use vstd::prelude::*;
use vstd::utf8::encode_utf8;
use crate::byteseq::bytes_eq;

verus! {

/// Application-level settings for the gateway.
pub struct ApplicationSettings {
    pub port: String,
    pub host: String,
    /// Redirect URI registered at every provider for the callback.
    pub oauth_redirect_url: String,
    /// Where the browser is sent after a completed login.
    pub after_login_url: String,
    /// Origins the HTTP layer may answer cross-origin requests for.
    pub allowed_origins: Vec<String>,
    /// Endpoint sets of the configured providers.
    pub oauth_providers: Vec<OAuthProvider>,
}

/// One provider's endpoints as they stand in the configuration file;
/// client id and secret come from the process environment instead.
pub struct OAuthProvider {
    pub name: String,
    pub oauth_url: String,
    pub token_url: String,
    pub revoke_url: String,
}

/// The whole configuration.
pub struct Settings {
    pub application: ApplicationSettings,
}

/// A named deployment environment a configuration can be loaded for.
#[derive(Clone, Copy, Debug, PartialEq, Eq, Structural)]
pub enum Environment {
    IMac,
    Aquiles,
    Production,
}

impl Environment {
    /// The environment's name, as used for the configuration file stem.
    pub fn as_str(&self) -> (r: &'static str)
        ensures
            r@ == self.spec_name(),
    {
        match self {
            Environment::Production => "production",
            Environment::IMac => "imac",
            Environment::Aquiles => "aquiles",
        }
    }

    /// The environment's name as a sequence of characters.
    pub open spec fn spec_name(self) -> Seq<char> {
        match self {
            Environment::Production => "production"@,
            Environment::IMac => "imac"@,
            Environment::Aquiles => "aquiles"@,
        }
    }

    /// Parses an environment name, folding ASCII upper case first, so
    /// `Production` and `PRODUCTION` denote the same environment.
    pub fn from_name(name: &str) -> (r: Option<Environment>)
        ensures
            r == spec_environment_from_name(name@),
    {
        let lowered = ascii_lower_bytes(name.as_bytes());
        if bytes_eq(lowered.as_slice(), "imac".as_bytes()) {
            Some(Environment::IMac)
        } else if bytes_eq(lowered.as_slice(), "aquiles".as_bytes()) {
            Some(Environment::Aquiles)
        } else if bytes_eq(lowered.as_slice(), "production".as_bytes()) {
            Some(Environment::Production)
        } else {
            None
        }
    }
}

/// The byte with ASCII upper case folded to lower case.
pub open spec fn spec_lower_byte(b: u8) -> u8 {
    if ('A' as u8) <= b <= ('Z' as u8) {
        (b + 32) as u8
    } else {
        b
    }
}

/// The bytes with ASCII upper case folded to lower case. Bytes outside
/// the ASCII range are continuation or leading bytes of multi-byte
/// characters and pass through unchanged.
pub open spec fn spec_ascii_lower(s: Seq<u8>) -> Seq<u8> {
    Seq::new(s.len(), |i: int| spec_lower_byte(s[i]))
}

/// Which environment, if any, a name denotes, up to ASCII case.
pub open spec fn spec_environment_from_name(name: Seq<char>) -> Option<Environment> {
    let lowered = spec_ascii_lower(encode_utf8(name));
    if lowered == encode_utf8("imac"@) {
        Some(Environment::IMac)
    } else if lowered == encode_utf8("aquiles"@) {
        Some(Environment::Aquiles)
    } else if lowered == encode_utf8("production"@) {
        Some(Environment::Production)
    } else {
        None
    }
}

/// Folds ASCII upper case to lower case, byte by byte.
fn ascii_lower_bytes(s: &[u8]) -> (r: Vec<u8>)
    ensures
        r@ == spec_ascii_lower(s@),
{
    let n = s.len();
    let mut r: Vec<u8> = Vec::new();
    let mut i: usize = 0;
    while i < n
        invariant
            0 <= i <= n,
            n == s@.len(),
            r@.len() == i,
            forall|j: int| 0 <= j < i ==> r@[j] == spec_lower_byte(s@[j]),
        decreases n - i,
    {
        let b = s[i];
        if ('A' as u8) <= b && b <= ('Z' as u8) {
            r.push(b + 32);
        } else {
            r.push(b);
        }
        i = i + 1;
    }
    assert(r@ =~= spec_ascii_lower(s@));
    r
}

} // verus!
