//! Verification of an OpenID Connect ID token against the provider's
//! published signing keys: split the compact JWT, read the header's key
//! id, pick the matching key from the fetched key set, check the RS256
//! signature over the signing input, decode the payload's claims, and
//! validate the standard claims (`exp` against the given time, `iss`
//! against the expected issuer, `aud` against this gateway's client id).
//!
//! The whole decision is specified by [`spec_verify_with_jwks`]; only the
//! RSA signature check and the base64url decoding are trusted to the
//! outside cryptography and encoding crates.

use vstd::prelude::*;
use base64::Engine;
use vstd::slice::slice_subrange;
use vstd::utf8::{decode_utf8, encode_utf8, valid_utf8};
use crate::byteseq::bytes_eq;
use crate::errors::VerifyTokenError;
use crate::jsonlite::{parse_json_object, pairs_view, spec_parse_object, JsonPairs, JsonValue,
    JsonValueV};
use crate::provider::ProviderClient;

verus! {

/// One published signing key: key id, base64url RSA modulus and exponent
/// as the provider publishes them (big-endian unsigned, not re-encoded),
/// and the algorithm label.
pub struct Jwk {
    pub kid: String,
    pub modulus: String,
    pub exponent: String,
    pub alg: String,
}

/// A provider's published key set.
pub struct JwkSet {
    pub keys: Vec<Jwk>,
}

/// Capability that fetches a provider's key set over the network.
/// Implementations live outside the verified core; an error carries the
/// transport's own message.
pub trait JwksFetcher {
    fn fetch(&mut self, url: &str) -> Result<JwkSet, String>;
}

/// The decoded claims of an ID token. Produced once per login and not
/// retained beyond claim extraction.
pub struct GoogleClaims {
    pub aud: String,
    pub email: String,
    pub email_verified: bool,
    pub exp: usize,
    pub family_name: String,
    pub given_name: String,
    pub iat: usize,
    pub iss: String,
    pub locale: String,
    pub name: String,
    pub picture: String,
    pub sub: String,
}

/// The claims, mathematically.
#[verifier::ext_equal]
pub struct ClaimsV {
    pub aud: Seq<char>,
    pub email: Seq<char>,
    pub email_verified: bool,
    pub exp: int,
    pub family_name: Seq<char>,
    pub given_name: Seq<char>,
    pub iat: int,
    pub iss: Seq<char>,
    pub locale: Seq<char>,
    pub name: Seq<char>,
    pub picture: Seq<char>,
    pub sub: Seq<char>,
}

impl View for GoogleClaims {
    type V = ClaimsV;

    open spec fn view(&self) -> ClaimsV {
        ClaimsV {
            aud: self.aud@,
            email: self.email@,
            email_verified: self.email_verified,
            exp: self.exp as int,
            family_name: self.family_name@,
            given_name: self.given_name@,
            iat: self.iat as int,
            iss: self.iss@,
            locale: self.locale@,
            name: self.name@,
            picture: self.picture@,
            sub: self.sub@,
        }
    }
}

/// Strict base64url decoding (URL-safe alphabet, no padding): the bytes
/// whose encoding is the input, if the input is such an encoding.
pub uninterp spec fn b64url_decode_of(s: Seq<u8>) -> Option<Seq<u8>>;

/// Whether the base64url `signature_b64` is a valid RS256 signature over
/// `message` under the RSA public key given by the base64url big-endian
/// `modulus_b64` and `exponent_b64`.
pub uninterp spec fn rs256_sig_valid(
    message: Seq<u8>,
    signature_b64: Seq<u8>,
    modulus_b64: Seq<char>,
    exponent_b64: Seq<char>,
) -> bool;

/// Relies on base64's URL_SAFE_NO_PAD engine: strict decoding, a function
/// of the input bytes alone, that accepts exactly the paddingless
/// URL-safe encodings and returns the encoded bytes.
#[verifier::external_body]
fn b64url_decode(bytes: &[u8]) -> (r: Option<Vec<u8>>)
    ensures
        r matches Some(v) ==> b64url_decode_of(bytes@) == Some(v@),
        r is None ==> b64url_decode_of(bytes@) is None,
{
    base64::engine::general_purpose::URL_SAFE_NO_PAD.decode(bytes).ok()
}

/// Relies on str::from_utf8 and str::to_owned: succeeds exactly on valid
/// UTF-8, and decodes the bytes' characters.
#[verifier::external_body]
fn string_from_utf8(bytes: &[u8]) -> (r: Option<String>)
    ensures
        r is Some <==> valid_utf8(bytes@),
        r matches Some(s) ==> s@ == decode_utf8(bytes@),
{
    match core::str::from_utf8(bytes) {
        Ok(s) => Some(s.to_owned()),
        Err(_) => None,
    }
}

/// Relies on jsonwebtoken's crypto::verify with Algorithm::RS256, on a
/// key built by DecodingKey::from_rsa_components: whether the signature
/// verifies is a function of these arguments alone (RSA PKCS#1 v1.5
/// verification is deterministic). A signature or key component the
/// backend rejects counts as not valid.
#[verifier::external_body]
fn rs256_verify(
    message: &[u8],
    signature_b64: &[u8],
    modulus_b64: &str,
    exponent_b64: &str,
) -> (r: bool)
    ensures
        r == rs256_sig_valid(message@, signature_b64@, modulus_b64@, exponent_b64@),
{
    let sig = match core::str::from_utf8(signature_b64) {
        Ok(s) => s,
        Err(_) => return false,
    };
    let key = match jsonwebtoken::DecodingKey::from_rsa_components(modulus_b64, exponent_b64) {
        Ok(k) => k,
        Err(_) => return false,
    };
    jsonwebtoken::crypto::verify(sig, message, &key, jsonwebtoken::Algorithm::RS256).unwrap_or(
        false,
    )
}

/// The position of the first `.` at or after `i`.
pub open spec fn spec_find_dot(s: Seq<u8>, i: int) -> Option<int>
    decreases s.len() - i,
{
    if i < 0 || i >= s.len() {
        None
    } else if s[i] == ('.' as u8) {
        Some(i)
    } else {
        spec_find_dot(s, i + 1)
    }
}

/// The three dot-separated parts of a compact JWT, when there are exactly
/// two dots: header, payload, and signature, each still base64url.
pub open spec fn spec_split3(s: Seq<u8>) -> Option<(Seq<u8>, Seq<u8>, Seq<u8>)> {
    match spec_find_dot(s, 0) {
        None => None,
        Some(d1) => match spec_find_dot(s, d1 + 1) {
            None => None,
            Some(d2) => if spec_find_dot(s, d2 + 1) is Some {
                None
            } else {
                Some(
                    (
                        s.subrange(0, d1),
                        s.subrange(d1 + 1, d2),
                        s.subrange(d2 + 1, s.len() as int),
                    ),
                )
            },
        },
    }
}

/// The first value stored under `key`, scanning the members in order.
pub open spec fn spec_lookup(pairs: Seq<(Seq<u8>, JsonValueV)>, key: Seq<u8>) -> Option<
    JsonValueV,
>
    decreases pairs.len(),
{
    if pairs.len() == 0 {
        None
    } else if pairs[0].0 == key {
        Some(pairs[0].1)
    } else {
        spec_lookup(pairs.drop_first(), key)
    }
}

/// The member named `name` as text: present, a string, and valid UTF-8.
pub open spec fn spec_str_field(pairs: Seq<(Seq<u8>, JsonValueV)>, name: Seq<char>) -> Option<
    Seq<char>,
> {
    match spec_lookup(pairs, encode_utf8(name)) {
        Some(JsonValueV::Str(bytes)) => if valid_utf8(bytes) {
            Some(decode_utf8(bytes))
        } else {
            None
        },
        _ => None,
    }
}

/// The member named `name` as an unsigned integer that fits in `usize`.
pub open spec fn spec_uint_field(pairs: Seq<(Seq<u8>, JsonValueV)>, name: Seq<char>) -> Option<
    int,
> {
    match spec_lookup(pairs, encode_utf8(name)) {
        Some(JsonValueV::UInt(v)) => if v <= usize::MAX {
            Some(v as int)
        } else {
            None
        },
        _ => None,
    }
}

/// The member named `name` as a boolean.
pub open spec fn spec_bool_field(pairs: Seq<(Seq<u8>, JsonValueV)>, name: Seq<char>) -> Option<
    bool,
> {
    match spec_lookup(pairs, encode_utf8(name)) {
        Some(JsonValueV::Bool(v)) => Some(v),
        _ => None,
    }
}

/// The claims a payload object carries, when every expected member is
/// present with the expected kind.
pub open spec fn spec_claims_of(pairs: Seq<(Seq<u8>, JsonValueV)>) -> Option<ClaimsV> {
    if spec_str_field(pairs, "aud"@) is Some && spec_str_field(pairs, "email"@) is Some
        && spec_bool_field(pairs, "email_verified"@) is Some && spec_uint_field(pairs, "exp"@)
        is Some && spec_str_field(pairs, "family_name"@) is Some && spec_str_field(
        pairs,
        "given_name"@,
    ) is Some && spec_uint_field(pairs, "iat"@) is Some && spec_str_field(pairs, "iss"@) is Some
        && spec_str_field(pairs, "locale"@) is Some && spec_str_field(pairs, "name"@) is Some
        && spec_str_field(pairs, "picture"@) is Some && spec_str_field(pairs, "sub"@) is Some {
        Some(
            ClaimsV {
                aud: spec_str_field(pairs, "aud"@)->0,
                email: spec_str_field(pairs, "email"@)->0,
                email_verified: spec_bool_field(pairs, "email_verified"@)->0,
                exp: spec_uint_field(pairs, "exp"@)->0,
                family_name: spec_str_field(pairs, "family_name"@)->0,
                given_name: spec_str_field(pairs, "given_name"@)->0,
                iat: spec_uint_field(pairs, "iat"@)->0,
                iss: spec_str_field(pairs, "iss"@)->0,
                locale: spec_str_field(pairs, "locale"@)->0,
                name: spec_str_field(pairs, "name"@)->0,
                picture: spec_str_field(pairs, "picture"@)->0,
                sub: spec_str_field(pairs, "sub"@)->0,
            },
        )
    } else {
        None
    }
}

/// The key id the token's header names, when the token has three parts,
/// the header decodes from base64url, its bytes read as a JSON object,
/// and that object has a string member `kid`.
pub open spec fn spec_token_kid(t: Seq<u8>) -> Option<Seq<u8>> {
    match spec_split3(t) {
        None => None,
        Some(parts) => match b64url_decode_of(parts.0) {
            None => None,
            Some(hb) => match spec_parse_object(hb) {
                None => None,
                Some(pairs) => match spec_lookup(pairs, encode_utf8("kid"@)) {
                    Some(JsonValueV::Str(k)) => Some(k),
                    _ => None,
                },
            },
        },
    }
}

/// The first key in the set whose key id equals `kid`.
pub open spec fn spec_find_key(keys: Seq<Jwk>, kid: Seq<u8>) -> Option<Jwk>
    decreases keys.len(),
{
    if keys.len() == 0 {
        None
    } else if encode_utf8(keys[0].kid@) == kid {
        Some(keys[0])
    } else {
        spec_find_key(keys.drop_first(), kid)
    }
}

/// The claims the token's payload carries.
pub open spec fn spec_payload_claims(t: Seq<u8>) -> Option<ClaimsV> {
    match spec_split3(t) {
        None => None,
        Some(parts) => match b64url_decode_of(parts.1) {
            None => None,
            Some(pb) => match spec_parse_object(pb) {
                None => None,
                Some(pairs) => spec_claims_of(pairs),
            },
        },
    }
}

/// The standard claim checks: not expired at `now` (the expiry instant
/// itself counts as expired), issued by the expected issuer, and audience
/// equal to this gateway's client id.
pub open spec fn spec_claims_ok(c: ClaimsV, client_id: Seq<char>, issuer: Seq<char>, now: u64) -> bool {
    (now as int) < c.exp && c.iss == issuer && c.aud == client_id
}

/// The whole verification decision on token bytes `t` against the key
/// set, expected audience and issuer, at time `now`.
pub open spec fn spec_verify_with_jwks(
    t: Seq<u8>,
    keys: Seq<Jwk>,
    client_id: Seq<char>,
    issuer: Seq<char>,
    now: u64,
) -> Result<ClaimsV, VerifyTokenError> {
    match spec_token_kid(t) {
        None => Err(VerifyTokenError::NoKid),
        Some(kid) => match spec_find_key(keys, kid) {
            None => Err(VerifyTokenError::KidNotFound),
            Some(k) => {
                let d1 = spec_find_dot(t, 0).unwrap();
                let d2 = spec_find_dot(t, d1 + 1).unwrap();
                let message = t.subrange(0, d2);
                let signature = t.subrange(d2 + 1, t.len() as int);
                if !rs256_sig_valid(message, signature, k.modulus@, k.exponent@) {
                    Err(VerifyTokenError::SignatureOrClaimInvalid)
                } else {
                    match spec_payload_claims(t) {
                        None => Err(VerifyTokenError::SignatureOrClaimInvalid),
                        Some(c) => if spec_claims_ok(c, client_id, issuer, now) {
                            Ok(c)
                        } else {
                            Err(VerifyTokenError::SignatureOrClaimInvalid)
                        },
                    }
                }
            },
        },
    }
}

/// The result with its claims viewed mathematically.
pub open spec fn spec_result_view(r: Result<GoogleClaims, VerifyTokenError>) -> Result<
    ClaimsV,
    VerifyTokenError,
> {
    match r {
        Ok(c) => Ok(c@),
        Err(e) => Err(e),
    }
}

/// A fresh copy of the bytes.
fn copy_bytes(src: &Vec<u8>) -> (r: Vec<u8>)
    ensures
        r@ == src@,
{
    let n = src.len();
    let mut r: Vec<u8> = Vec::new();
    let mut i: usize = 0;
    while i < n
        invariant
            0 <= i <= n,
            n == src@.len(),
            r@ == src@.subrange(0, i as int),
        decreases n - i,
    {
        r.push(src[i]);
        assert(r@ =~= src@.subrange(0, i + 1));
        i = i + 1;
    }
    assert(r@ =~= src@);
    r
}

/// The position of the first `.` at or after `from`.
fn find_dot(s: &[u8], from: usize) -> (r: Option<usize>)
    requires
        from <= s@.len(),
    ensures
        s@.len() <= usize::MAX,
        match r {
            Some(d) => spec_find_dot(s@, from as int) == Some(d as int) && from <= d < s@.len(),
            None => spec_find_dot(s@, from as int) is None,
        },
{
    let n = s.len();
    let mut i: usize = from;
    while i < n
        invariant
            from <= i <= n,
            n == s@.len(),
            spec_find_dot(s@, from as int) == spec_find_dot(s@, i as int),
        decreases n - i,
    {
        if s[i] == ('.' as u8) {
            return Some(i);
        }
        i = i + 1;
    }
    None
}

/// The first member named `name`, scanning in order.
fn lookup<'a>(pairs: &'a JsonPairs, name: &str) -> (r: Option<&'a JsonValue>)
    ensures
        match r {
            Some(v) => spec_lookup(pairs_view(pairs@), encode_utf8(name@)) == Some(v@),
            None => spec_lookup(pairs_view(pairs@), encode_utf8(name@)) is None,
        },
{
    broadcast use vstd::seq_lib::group_seq_lib_default;

    let nb = name.as_bytes();
    let ghost key = encode_utf8(name@);
    let ghost pv = pairs_view(pairs@);
    let n = pairs.len();
    assert(pv.skip(0) =~= pv);
    let mut i: usize = 0;
    while i < n
        invariant
            0 <= i <= n,
            n == pairs@.len(),
            pv == pairs_view(pairs@),
            pv.len() == n,
            nb@ == key,
            key == encode_utf8(name@),
            spec_lookup(pv, key) == spec_lookup(pv.skip(i as int), key),
        decreases n - i,
    {
        assert(pv.skip(i as int)[0] == pv[i as int]);
        if bytes_eq(pairs[i].0.as_slice(), nb) {
            assert(pv[i as int] == (pairs@[i as int].0@, pairs@[i as int].1@));
            assert(pv[i as int].0 == key);
            assert(spec_lookup(pv.skip(i as int), key) == Some(pv[i as int].1));
            return Some(&pairs[i].1);
        }
        assert(pv.skip(i as int).drop_first() =~= pv.skip(i + 1));
        i = i + 1;
    }
    None
}

/// The member named `name` as text.
fn get_str(pairs: &JsonPairs, name: &str) -> (r: Option<String>)
    ensures
        match r {
            Some(s) => spec_str_field(pairs_view(pairs@), name@) == Some(s@),
            None => spec_str_field(pairs_view(pairs@), name@) is None,
        },
{
    match lookup(pairs, name) {
        Some(v) => match v {
            JsonValue::Str(bytes) => string_from_utf8(bytes.as_slice()),
            _ => None,
        },
        None => None,
    }
}

/// The member named `name` as an unsigned integer that fits in `usize`.
fn get_uint(pairs: &JsonPairs, name: &str) -> (r: Option<usize>)
    ensures
        match r {
            Some(v) => spec_uint_field(pairs_view(pairs@), name@) == Some(v as int),
            None => spec_uint_field(pairs_view(pairs@), name@) is None,
        },
{
    match lookup(pairs, name) {
        Some(v) => match v {
            JsonValue::UInt(n) => {
                if *n <= usize::MAX as u64 {
                    Some(*n as usize)
                } else {
                    None
                }
            },
            _ => None,
        },
        None => None,
    }
}

/// The member named `name` as a boolean.
fn get_bool(pairs: &JsonPairs, name: &str) -> (r: Option<bool>)
    ensures
        match r {
            Some(v) => spec_bool_field(pairs_view(pairs@), name@) == Some(v),
            None => spec_bool_field(pairs_view(pairs@), name@) is None,
        },
{
    match lookup(pairs, name) {
        Some(v) => match v {
            JsonValue::Bool(b) => Some(*b),
            _ => None,
        },
        None => None,
    }
}

/// The claims a payload object carries.
fn claims_of_pairs(pairs: &JsonPairs) -> (r: Option<GoogleClaims>)
    ensures
        match r {
            Some(c) => spec_claims_of(pairs_view(pairs@)) == Some(c@),
            None => spec_claims_of(pairs_view(pairs@)) is None,
        },
{
    let aud = match get_str(pairs, "aud") {
        Some(v) => v,
        None => return None,
    };
    let email = match get_str(pairs, "email") {
        Some(v) => v,
        None => return None,
    };
    let email_verified = match get_bool(pairs, "email_verified") {
        Some(v) => v,
        None => return None,
    };
    let exp = match get_uint(pairs, "exp") {
        Some(v) => v,
        None => return None,
    };
    let family_name = match get_str(pairs, "family_name") {
        Some(v) => v,
        None => return None,
    };
    let given_name = match get_str(pairs, "given_name") {
        Some(v) => v,
        None => return None,
    };
    let iat = match get_uint(pairs, "iat") {
        Some(v) => v,
        None => return None,
    };
    let iss = match get_str(pairs, "iss") {
        Some(v) => v,
        None => return None,
    };
    let locale = match get_str(pairs, "locale") {
        Some(v) => v,
        None => return None,
    };
    let name = match get_str(pairs, "name") {
        Some(v) => v,
        None => return None,
    };
    let picture = match get_str(pairs, "picture") {
        Some(v) => v,
        None => return None,
    };
    let sub = match get_str(pairs, "sub") {
        Some(v) => v,
        None => return None,
    };
    let c = GoogleClaims {
        aud,
        email,
        email_verified,
        exp,
        family_name,
        given_name,
        iat,
        iss,
        locale,
        name,
        picture,
        sub,
    };
    assert(c@ =~= spec_claims_of(pairs_view(pairs@))->0);
    Some(c)
}

/// The key id the token's header names.
fn token_kid_bytes(t: &[u8]) -> (r: Option<Vec<u8>>)
    ensures
        match r {
            Some(k) => spec_token_kid(t@) == Some(k@),
            None => spec_token_kid(t@) is None,
        },
{
    let d1 = match find_dot(t, 0) {
        Some(d) => d,
        None => return None,
    };
    let d2 = match find_dot(t, d1 + 1) {
        Some(d) => d,
        None => return None,
    };
    match find_dot(t, d2 + 1) {
        Some(_) => {
            return None;
        },
        None => {},
    };
    let header_b64 = slice_subrange(t, 0, d1);
    let hb = match b64url_decode(header_b64) {
        Some(h) => h,
        None => return None,
    };
    let pairs = match parse_json_object(hb.as_slice()) {
        Some(p) => p,
        None => return None,
    };
    match lookup(&pairs, "kid") {
        Some(v) => match v {
            JsonValue::Str(bytes) => Some(copy_bytes(bytes)),
            _ => None,
        },
        None => None,
    }
}

/// The first key in the set whose key id equals `kid`.
fn find_key<'a>(keys: &'a Vec<Jwk>, kid: &Vec<u8>) -> (r: Option<&'a Jwk>)
    ensures
        match r {
            Some(k) => spec_find_key(keys@, kid@) == Some(*k),
            None => spec_find_key(keys@, kid@) is None,
        },
{
    let n = keys.len();
    assert(keys@.skip(0) =~= keys@);
    let mut i: usize = 0;
    while i < n
        invariant
            0 <= i <= n,
            n == keys@.len(),
            spec_find_key(keys@, kid@) == spec_find_key(keys@.skip(i as int), kid@),
        decreases n - i,
    {
        assert(keys@.skip(i as int)[0] == keys@[i as int]);
        if bytes_eq(kid.as_slice(), keys[i].kid.as_str().as_bytes()) {
            return Some(&keys[i]);
        }
        assert(keys@.skip(i as int).drop_first() =~= keys@.skip(i + 1));
        i = i + 1;
    }
    None
}

/// Verifier for OpenID Connect ID tokens. It holds no state: the key set
/// is fetched anew for each verification (a caller may cache behind the
/// [`JwksFetcher`] capability, provided stale keys are never served after
/// a failure).
pub struct IdTokenVerifier;

impl IdTokenVerifier {
    /// Decides the whole verification against an already-fetched key set:
    /// the result is exactly [`spec_verify_with_jwks`] on the token's
    /// bytes, the key set, and the expected audience and issuer at `now`
    /// (seconds since the epoch).
    pub fn verify_with_jwks(
        id_token: &str,
        jwks: &JwkSet,
        client_id: &str,
        issuer: &str,
        now: u64,
    ) -> (r: Result<GoogleClaims, VerifyTokenError>)
        ensures
            spec_result_view(r) == spec_verify_with_jwks(
                encode_utf8(id_token@),
                jwks.keys@,
                client_id@,
                issuer@,
                now,
            ),
    {
        let t = id_token.as_bytes();
        let kid = match token_kid_bytes(t) {
            Some(k) => k,
            None => return Err(VerifyTokenError::NoKid),
        };
        let key = match find_key(&jwks.keys, &kid) {
            Some(k) => k,
            None => return Err(VerifyTokenError::KidNotFound),
        };
        // A key id was read from the header, so the token has its two dots.
        let d1 = match find_dot(t, 0) {
            Some(d) => d,
            None => {
                proof {
                    assert(false);
                }
                return Err(VerifyTokenError::NoKid);
            },
        };
        let d2 = match find_dot(t, d1 + 1) {
            Some(d) => d,
            None => {
                proof {
                    assert(false);
                }
                return Err(VerifyTokenError::NoKid);
            },
        };
        let message = slice_subrange(t, 0, d2);
        let signature_b64 = slice_subrange(t, d2 + 1, t.len());
        if !rs256_verify(message, signature_b64, key.modulus.as_str(), key.exponent.as_str()) {
            return Err(VerifyTokenError::SignatureOrClaimInvalid);
        }
        let payload_b64 = slice_subrange(t, d1 + 1, d2);
        let payload = match b64url_decode(payload_b64) {
            Some(p) => p,
            None => return Err(VerifyTokenError::SignatureOrClaimInvalid),
        };
        let pairs = match parse_json_object(payload.as_slice()) {
            Some(p) => p,
            None => return Err(VerifyTokenError::SignatureOrClaimInvalid),
        };
        let claims = match claims_of_pairs(&pairs) {
            Some(c) => c,
            None => return Err(VerifyTokenError::SignatureOrClaimInvalid),
        };
        if !(now < claims.exp as u64) {
            return Err(VerifyTokenError::SignatureOrClaimInvalid);
        }
        if !claims.iss.eq(&issuer.to_owned()) {
            return Err(VerifyTokenError::SignatureOrClaimInvalid);
        }
        if !claims.aud.eq(&client_id.to_owned()) {
            return Err(VerifyTokenError::SignatureOrClaimInvalid);
        }
        Ok(claims)
    }

    /// Verifies an ID token end to end: reads the header's key id, fetches
    /// the provider's key set, and decides as [`spec_verify_with_jwks`]
    /// does on whatever key set the fetch returned. `NoKid` is returned
    /// exactly when no key id can be read from the token, before any
    /// fetch; `FetchFailed` exactly when the key id was read but the
    /// fetch failed.
    pub fn verify<F: JwksFetcher>(
        fetcher: &mut F,
        id_token: &str,
        client: &ProviderClient,
        now: u64,
    ) -> (r: Result<GoogleClaims, VerifyTokenError>)
        ensures
            (r matches Err(e) && e is NoKid) <==> spec_token_kid(encode_utf8(id_token@)) is None,
            r matches Err(e) && e is FetchFailed ==> spec_token_kid(
                encode_utf8(id_token@),
            ) is Some,
            r matches Err(e) && (e is KidNotFound || e is SignatureOrClaimInvalid)
                ==> spec_token_kid(encode_utf8(id_token@)) is Some,
            r is Ok ==> spec_token_kid(encode_utf8(id_token@)) is Some,
    {
        let t = id_token.as_bytes();
        match token_kid_bytes(t) {
            Some(_) => {},
            None => {
                return Err(VerifyTokenError::NoKid);
            },
        };
        let jwks = match fetcher.fetch(client.jwks_url.as_str()) {
            Ok(j) => j,
            Err(_) => return Err(VerifyTokenError::FetchFailed),
        };
        Self::verify_with_jwks(
            id_token,
            &jwks,
            client.client_id.as_str(),
            client.issuer.as_str(),
            now,
        )
    }
}

} // verus!
