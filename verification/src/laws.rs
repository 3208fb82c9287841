//! Laws of the gateway, stated and proved once over the specification
//! functions the public contracts use.

use vstd::prelude::*;
use vstd::utf8::encode_utf8;
use crate::authorize::spec_authorize_url;
use crate::errors::VerifyTokenError;
use crate::provider::ProviderClient;
use crate::verify_token::{spec_claims_ok, spec_find_dot, spec_find_key, spec_payload_claims,
    spec_token_kid, spec_verify_with_jwks, rs256_sig_valid, Jwk};

verus! {

/// `needle` occurs contiguously somewhere in `hay`.
pub open spec fn contains_seq(hay: Seq<char>, needle: Seq<char>) -> bool {
    exists|k: int|
        0 <= k && k + needle.len() <= hay.len() && #[trigger] hay.subrange(
            k,
            k + needle.len() as int,
        ) == needle
}

/// Law: the authorization URL carries the CSRF state and the PKCE
/// challenge it was built from, as the `state` and `code_challenge`
/// query parameters. Together with the contract of `begin` — which builds
/// the URL from the very values it stores in the session — the redirect's
/// `state` and `code_challenge` match what is afterwards retrievable from
/// the session.
pub proof fn lemma_authorize_url_binds_flow(
    client: ProviderClient,
    scopes: Seq<Seq<char>>,
    challenge: Seq<char>,
    state: Seq<char>,
    offline: bool,
)
    ensures
        contains_seq(spec_authorize_url(client, scopes, challenge, state, offline), (
        "&state="@ + state)),
        contains_seq(spec_authorize_url(client, scopes, challenge, state, offline), (
        "&code_challenge="@ + challenge)),
{
    let u = spec_authorize_url(client, scopes, challenge, state, offline);
    let pre = client.auth_url@ + "?response_type=code&client_id="@ + client.client_id@
        + "&redirect_uri="@ + client.redirect_url@ + "&scope="@ + crate::authorize::spec_join_scopes(
        scopes,
    );
    let needle1 = "&state="@ + state;
    assert(u.subrange(pre.len() as int, pre.len() + needle1.len() as int) =~= needle1);
    let pre2 = pre + "&state="@ + state;
    let needle2 = "&code_challenge="@ + challenge;
    assert(u.subrange(pre2.len() as int, pre2.len() + needle2.len() as int) =~= needle2);
}

/// No key in `keys` carries `kid`, member by member, so the scan finds none.
proof fn lemma_find_key_none(keys: Seq<Jwk>, kid: Seq<u8>)
    requires
        forall|i: int| 0 <= i < keys.len() ==> encode_utf8(#[trigger] keys[i].kid@) != kid,
    ensures
        spec_find_key(keys, kid) is None,
    decreases keys.len(),
{
    if keys.len() > 0 {
        assert(encode_utf8(keys[0].kid@) != kid);
        assert forall|i: int|
            0 <= i < keys.drop_first().len() implies encode_utf8(
            #[trigger] keys.drop_first()[i].kid@,
        ) != kid by {
            assert(keys.drop_first()[i] == keys[i + 1]);
        }
        lemma_find_key_none(keys.drop_first(), kid);
    }
}

/// Law: a token whose header names a key id that no key of the fetched
/// set carries is rejected with `KidNotFound`, whatever the time and the
/// expected audience and issuer.
pub proof fn lemma_kid_not_found(
    t: Seq<u8>,
    keys: Seq<Jwk>,
    client_id: Seq<char>,
    issuer: Seq<char>,
    now: u64,
)
    requires
        spec_token_kid(t) is Some,
        forall|i: int|
            0 <= i < keys.len() ==> encode_utf8(#[trigger] keys[i].kid@) != spec_token_kid(t)->0,
    ensures
        spec_verify_with_jwks(t, keys, client_id, issuer, now) == Err::<
            crate::verify_token::ClaimsV,
            VerifyTokenError,
        >(VerifyTokenError::KidNotFound),
{
    lemma_find_key_none(keys, spec_token_kid(t)->0);
}

/// Law: a token is accepted exactly when every step passes — a key id is
/// readable, a key of the set carries it, the RS256 signature over the
/// signing input verifies under that key, the payload's claims decode,
/// and the standard claims hold at `now`. In particular nothing is ever
/// accepted on a failed signature, and nothing is accepted at or after
/// its expiry instant.
pub proof fn lemma_verify_accepts_iff(
    t: Seq<u8>,
    keys: Seq<Jwk>,
    client_id: Seq<char>,
    issuer: Seq<char>,
    now: u64,
)
    ensures
        spec_verify_with_jwks(t, keys, client_id, issuer, now) is Ok <==> ({
            &&& spec_token_kid(t) is Some
            &&& spec_find_key(keys, spec_token_kid(t)->0) is Some
            &&& rs256_sig_valid(
                t.subrange(0, spec_message_end(t)),
                t.subrange(spec_message_end(t) + 1, t.len() as int),
                spec_find_key(keys, spec_token_kid(t)->0)->0.modulus@,
                spec_find_key(keys, spec_token_kid(t)->0)->0.exponent@,
            )
            &&& spec_payload_claims(t) is Some
            &&& spec_claims_ok(spec_payload_claims(t)->0, client_id, issuer, now)
        }),
{
}

/// The end of a token's signing input: the position of its second dot.
pub open spec fn spec_message_end(t: Seq<u8>) -> int {
    spec_find_dot(t, spec_find_dot(t, 0).unwrap() + 1).unwrap()
}

/// Law: the expiry boundary is strict. A token that passes every other
/// check is accepted one second before its expiry instant and rejected
/// at the instant itself.
pub proof fn lemma_expiry_boundary(t: Seq<u8>, keys: Seq<Jwk>, client_id: Seq<char>, issuer: Seq<char>)
    requires
        spec_token_kid(t) is Some,
        spec_find_key(keys, spec_token_kid(t)->0) is Some,
        rs256_sig_valid(
            t.subrange(0, spec_message_end(t)),
            t.subrange(spec_message_end(t) + 1, t.len() as int),
            spec_find_key(keys, spec_token_kid(t)->0)->0.modulus@,
            spec_find_key(keys, spec_token_kid(t)->0)->0.exponent@,
        ),
        spec_payload_claims(t) matches Some(c) && c.iss == issuer && c.aud == client_id && 1
            <= c.exp <= u64::MAX,
    ensures
        spec_verify_with_jwks(t, keys, client_id, issuer, (spec_payload_claims(t)->0.exp - 1) as u64)
            is Ok,
        spec_verify_with_jwks(t, keys, client_id, issuer, spec_payload_claims(t)->0.exp as u64)
            == Err::<crate::verify_token::ClaimsV, VerifyTokenError>(
            VerifyTokenError::SignatureOrClaimInvalid,
        ),
{
}

} // verus!
