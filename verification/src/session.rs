//! Transient per-browser-session store for flow state and issued tokens.
//!
//! The gateway core sees the session as a typed key/value capability:
//! writes are visible to later reads within the same session, a missing
//! key reads back as `None`, `purge` destroys the whole session, and
//! `renew` rotates the session identifier while preserving the contents
//! (required right after a successful login, against session fixation).

use vstd::prelude::*;
use crate::provider::AuthName;

verus! {

/// One browser session, keyed by an opaque identifier that the HTTP layer
/// carries in a cookie. Each named slot holds at most one value.
pub struct TypedSession {
    /// Opaque session identifier; `renew` replaces it.
    pub id: u64,
    /// CSRF `state` value saved when the login flow begins.
    pub oauth_state: Option<String>,
    /// PKCE code verifier saved when the login flow begins.
    pub oauth_code_verifier: Option<String>,
    /// Provider chosen when the login flow begins.
    pub oauth_provider: Option<AuthName>,
    /// Access token issued by the provider, stored after a successful exchange.
    pub access_token: Option<String>,
    /// Refresh token, stored when the provider issued one.
    pub refresh_token: Option<String>,
    /// Identifier of the logged-in user, once known.
    pub user_id: Option<String>,
}

/// True when both sessions hold the same values in every slot; the opaque
/// identifier is allowed to differ.
pub open spec fn same_contents(a: TypedSession, b: TypedSession) -> bool {
    &&& a.oauth_state == b.oauth_state
    &&& a.oauth_code_verifier == b.oauth_code_verifier
    &&& a.oauth_provider == b.oauth_provider
    &&& a.access_token == b.access_token
    &&& a.refresh_token == b.refresh_token
    &&& a.user_id == b.user_id
}

/// True when both sessions agree on every slot of the login flow's state
/// and on the user id; the token slots may differ.
pub open spec fn same_flow_state(a: TypedSession, b: TypedSession) -> bool {
    &&& a.oauth_state == b.oauth_state
    &&& a.oauth_code_verifier == b.oauth_code_verifier
    &&& a.oauth_provider == b.oauth_provider
    &&& a.user_id == b.user_id
}

impl TypedSession {
    /// A fresh, empty session under the given opaque identifier.
    pub fn new(id: u64) -> (r: TypedSession)
        ensures
            r.id == id,
            r.oauth_state is None,
            r.oauth_code_verifier is None,
            r.oauth_provider is None,
            r.access_token is None,
            r.refresh_token is None,
            r.user_id is None,
    {
        TypedSession {
            id,
            oauth_state: None,
            oauth_code_verifier: None,
            oauth_provider: None,
            access_token: None,
            refresh_token: None,
            user_id: None,
        }
    }

    pub fn insert_oauth_provider(&mut self, provider: AuthName)
        ensures
            *final(self) == (TypedSession { oauth_provider: Some(provider), ..*old(self) }),
    {
        self.oauth_provider = Some(provider);
    }

    pub fn get_oauth_provider(&self) -> (r: Option<AuthName>)
        ensures
            r == self.oauth_provider,
    {
        match &self.oauth_provider {
            Some(p) => Some(*p),
            None => None,
        }
    }

    pub fn insert_user_id(&mut self, user_id: String)
        ensures
            *final(self) == (TypedSession { user_id: Some(user_id), ..*old(self) }),
    {
        self.user_id = Some(user_id);
    }

    pub fn get_user_id(&self) -> (r: Option<&String>)
        ensures
            match r {
                Some(v) => self.user_id == Some(*v),
                None => self.user_id is None,
            },
    {
        self.user_id.as_ref()
    }

    /// Destroys the session: every slot is cleared and the identifier is
    /// replaced, as when the server-side session is deleted at logout.
    pub fn purge(&mut self)
        ensures
            final(self).id != old(self).id,
            final(self).oauth_state is None,
            final(self).oauth_code_verifier is None,
            final(self).oauth_provider is None,
            final(self).access_token is None,
            final(self).refresh_token is None,
            final(self).user_id is None,
    {
        let fresh_id = rotated(self.id);
        *self = TypedSession::new(fresh_id);
    }

    /// Rotates the session identifier while preserving the contents.
    pub fn renew(&mut self)
        ensures
            final(self).id != old(self).id,
            same_contents(*final(self), *old(self)),
    {
        self.id = rotated(self.id);
    }

    pub fn set_state(&mut self, state: String)
        ensures
            *final(self) == (TypedSession { oauth_state: Some(state), ..*old(self) }),
    {
        self.oauth_state = Some(state);
    }

    pub fn get_state(&self) -> (r: Option<&String>)
        ensures
            match r {
                Some(v) => self.oauth_state == Some(*v),
                None => self.oauth_state is None,
            },
    {
        self.oauth_state.as_ref()
    }

    pub fn set_pkce_verifier(&mut self, verifier: String)
        ensures
            *final(self) == (TypedSession { oauth_code_verifier: Some(verifier), ..*old(self) }),
    {
        self.oauth_code_verifier = Some(verifier);
    }

    pub fn get_pkce_verifier(&self) -> (r: Option<&String>)
        ensures
            match r {
                Some(v) => self.oauth_code_verifier == Some(*v),
                None => self.oauth_code_verifier is None,
            },
    {
        self.oauth_code_verifier.as_ref()
    }

    pub fn set_access_token(&mut self, token: String)
        ensures
            *final(self) == (TypedSession { access_token: Some(token), ..*old(self) }),
    {
        self.access_token = Some(token);
    }

    pub fn get_access_token(&self) -> (r: Option<&String>)
        ensures
            match r {
                Some(v) => self.access_token == Some(*v),
                None => self.access_token is None,
            },
    {
        self.access_token.as_ref()
    }

    pub fn set_refresh_token(&mut self, token: String)
        ensures
            *final(self) == (TypedSession { refresh_token: Some(token), ..*old(self) }),
    {
        self.refresh_token = Some(token);
    }

    pub fn get_refresh_token(&self) -> (r: Option<&String>)
        ensures
            match r {
                Some(v) => self.refresh_token == Some(*v),
                None => self.refresh_token is None,
            },
    {
        self.refresh_token.as_ref()
    }
}

/// The successor identifier: always different from its argument.
fn rotated(id: u64) -> (r: u64)
    ensures
        r != id,
{
    if id == u64::MAX {
        0
    } else {
        id + 1
    }
}

} // verus!
