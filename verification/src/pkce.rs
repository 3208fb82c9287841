//! PKCE verifier/challenge pairs and CSRF tokens: fresh high-entropy
//! values, SHA-256, and base64url encoding without padding.

use vstd::prelude::*;
use vstd::utf8::encode_utf8;
use base64::Engine;
use rand::Rng;
use sha2::Digest;

verus! {

/// The SHA-256 digest of a byte sequence.
pub uninterp spec fn sha256_of(bytes: Seq<u8>) -> Seq<u8>;

/// The base64url encoding (URL-safe alphabet, no padding) of a byte sequence.
pub uninterp spec fn b64url_of(bytes: Seq<u8>) -> Seq<char>;

/// Relies on sha2::Sha256: the digest is a function of the input bytes
/// alone, and is 32 bytes long.
#[verifier::external_body]
fn sha256(bytes: &[u8]) -> (r: Vec<u8>)
    ensures
        r@ == sha256_of(bytes@),
        r@.len() == 32,
{
    let mut hasher = sha2::Sha256::new();
    hasher.update(bytes);
    hasher.finalize().to_vec()
}

/// Relies on base64's URL_SAFE_NO_PAD engine: the encoding is a function
/// of the input bytes alone; it uses only ASCII characters and its length
/// is ceil(4n/3) for n input bytes.
#[verifier::external_body]
fn b64url_nopad(bytes: &[u8]) -> (r: String)
    ensures
        r@ == b64url_of(bytes@),
        r@.len() == (bytes@.len() * 4 + 2) / 3,
        forall|i: int| 0 <= i < r@.len() ==> r@[i] < 128,
{
    base64::engine::general_purpose::URL_SAFE_NO_PAD.encode(bytes)
}

/// Relies on rand::Rng::fill_bytes on the thread-local generator:
/// fills the whole buffer, so the result has exactly the requested length.
/// Nothing else can be promised of random output.
#[verifier::external_body]
fn random_bytes(n: usize) -> (r: Vec<u8>)
    ensures
        r@.len() == n,
{
    let mut buf = vec![0u8; n];
    rand::rng().fill_bytes(&mut buf);
    buf
}

/// Generator for PKCE verifier/challenge pairs and CSRF state tokens.
/// It holds no state: every call draws fresh randomness.
pub struct PkceEngine;

impl PkceEngine {
    /// A fresh PKCE pair `(verifier, challenge)`: the verifier encodes 32
    /// random bytes, and the challenge is the base64url encoding, without
    /// padding, of the SHA-256 digest of the verifier's ASCII bytes.
    pub fn new_challenge() -> (r: (String, String))
        ensures
            r.1@ == b64url_of(sha256_of(encode_utf8(r.0@))),
            r.0@.len() == 43,
    {
        let seed = random_bytes(32);
        let verifier = b64url_nopad(seed.as_slice());
        let verifier_bytes = verifier.as_str().as_bytes();
        let digest = sha256(verifier_bytes);
        let challenge = b64url_nopad(digest.as_slice());
        (verifier, challenge)
    }

    /// A fresh CSRF token: the base64url encoding of 32 random bytes.
    pub fn new_csrf_token() -> (r: String)
        ensures
            r@.len() == 43,
    {
        let seed = random_bytes(32);
        b64url_nopad(seed.as_slice())
    }
}

} // verus!
