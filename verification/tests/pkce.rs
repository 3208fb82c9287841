//! PKCE pairs and CSRF tokens.

use auth_gateway::PkceEngine;
use base64::Engine;
use sha2::Digest;

#[test]
fn challenge_is_the_hashed_verifier_for_a_thousand_trials() {
    for _ in 0..1000 {
        let (verifier, challenge) = PkceEngine::new_challenge();
        let mut hasher = sha2::Sha256::new();
        hasher.update(verifier.as_bytes());
        let expected = base64::engine::general_purpose::URL_SAFE_NO_PAD.encode(hasher.finalize());
        assert_eq!(challenge, expected);
    }
}

#[test]
fn verifier_has_the_entropy_of_thirty_two_bytes() {
    let (verifier, challenge) = PkceEngine::new_challenge();
    assert_eq!(verifier.len(), 43);
    assert_eq!(challenge.len(), 43);
    let decoded = base64::engine::general_purpose::URL_SAFE_NO_PAD
        .decode(verifier.as_bytes())
        .expect("verifier is base64url");
    assert_eq!(decoded.len(), 32);
}

#[test]
fn csrf_tokens_are_fresh_and_well_formed() {
    let a = PkceEngine::new_csrf_token();
    let b = PkceEngine::new_csrf_token();
    assert_eq!(a.len(), 43);
    assert_eq!(b.len(), 43);
    assert_ne!(a, b, "two fresh tokens must not collide");
    base64::engine::general_purpose::URL_SAFE_NO_PAD
        .decode(a.as_bytes())
        .expect("token is base64url");
}
