//! Finishing a successful login: persist the issued tokens into the
//! session, rotate the session identifier (against session fixation), and
//! hand the HTTP layer the redirect and a non-sensitive marker cookie.
//! The raw access token never goes into a cookie: it stays server-side in
//! the session.

use vstd::prelude::*;
use crate::exchange::TokenSet;
use crate::session::TypedSession;
use crate::verify_token::GoogleClaims;

verus! {

/// What the HTTP layer needs to complete the response after a login.
pub struct SessionOutcome {
    /// Where the browser is sent.
    pub redirect_url: String,
    /// Name of the short-lived, strict-same-site, path-scoped marker cookie.
    pub cookie_name: String,
    /// Value of the marker cookie: a fixed marker, never a token.
    pub cookie_value: String,
}

/// Stores the issued tokens (and, when claims were verified, the subject
/// as the user id) into the session, rotates the session identifier, and
/// produces the redirect to the configured post-login URL with the
/// marker cookie.
pub fn finish(
    session: &mut TypedSession,
    token_set: &TokenSet,
    claims: Option<&GoogleClaims>,
    after_login_url: &str,
) -> (r: SessionOutcome)
    ensures
        final(session).access_token == Some(token_set.access_token),
        match token_set.refresh_token {
            Some(rt) => final(session).refresh_token == Some(rt),
            None => final(session).refresh_token == old(session).refresh_token,
        },
        match claims {
            Some(c) => final(session).user_id == Some(c.sub),
            None => final(session).user_id == old(session).user_id,
        },
        final(session).id != old(session).id,
        final(session).oauth_state == old(session).oauth_state,
        final(session).oauth_code_verifier == old(session).oauth_code_verifier,
        final(session).oauth_provider == old(session).oauth_provider,
        r.redirect_url@ == after_login_url@,
        r.cookie_name@ == "session_active"@,
        r.cookie_value@ == "1"@,
{
    session.set_access_token(token_set.access_token.clone());
    match &token_set.refresh_token {
        Some(rt) => session.set_refresh_token(rt.clone()),
        None => {},
    }
    match claims {
        Some(c) => session.insert_user_id(c.sub.clone()),
        None => {},
    }
    session.renew();
    SessionOutcome {
        redirect_url: after_login_url.to_owned(),
        cookie_name: String::from_str("session_active"),
        cookie_value: String::from_str("1"),
    }
}

/// Logs the session out: the whole session is destroyed, and the browser
/// is sent to the given home URL.
pub fn logout(session: &mut TypedSession, home_url: &str) -> (r: String)
    ensures
        final(session).id != old(session).id,
        final(session).oauth_state is None,
        final(session).oauth_code_verifier is None,
        final(session).oauth_provider is None,
        final(session).access_token is None,
        final(session).refresh_token is None,
        final(session).user_id is None,
        r@ == home_url@,
{
    session.purge();
    home_url.to_owned()
}

/// What the error page says about the session's flow state.
pub open spec fn spec_session_error(s: TypedSession) -> Seq<char> {
    (if s.oauth_state is None {
        "<p>there is no session state</p>"@
    } else {
        Seq::<char>::empty()
    }) + (if s.oauth_code_verifier is None {
        "<p>there is no pkce verifier</p>"@
    } else {
        Seq::<char>::empty()
    })
}

/// Diagnostic text for the error page: which parts of the login flow's
/// state the session is missing.
pub fn session_error(session: &TypedSession) -> (r: String)
    ensures
        r@ == spec_session_error(*session),
{
    let mut r = String::new();
    if session.get_state().is_none() {
        r.append("<p>there is no session state</p>");
    }
    if session.get_pkce_verifier().is_none() {
        r.append("<p>there is no pkce verifier</p>");
    }
    assert(r@ =~= spec_session_error(*session));
    r
}

} // verus!
