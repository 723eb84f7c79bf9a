use key_ownership::token::{is_p256_public_key, pinned_algorithm};
use key_ownership::{conclude, nonce_claim, settle, ReplayGuard, TokenCheck, VerificationOutcome};

#[test]
fn outcome_reasons() {
    assert_eq!(VerificationOutcome::invalid_key().reason, "invalid public key format");
    assert_eq!(VerificationOutcome::invalid_nonce().reason, "invalid nonce extracted");
    assert_eq!(VerificationOutcome::nonce_used().reason, "nonce has already been used");
    let accepted = VerificationOutcome::accepted();
    assert!(accepted.verified);
    assert_eq!(accepted.reason, "attestation verified successfully");
    let failed = VerificationOutcome::signature_failed("InvalidSignature");
    assert!(!failed.verified);
    assert_eq!(failed.reason, "signature verification failed: InvalidSignature");
}

#[test]
fn settle_consumes_fresh_nonce() {
    let mut guard = ReplayGuard::new();
    let first = settle(&mut guard, "n1");
    assert!(first.verified);
    assert_eq!(first.reason, "attestation verified successfully");
    let second = settle(&mut guard, "n1");
    assert!(!second.verified);
    assert_eq!(second.reason, "nonce has already been used");
    assert_eq!(guard.count(), 1);
}

#[test]
fn settle_refuses_empty_nonce_without_touching_guard() {
    let mut guard = ReplayGuard::new();
    let r = settle(&mut guard, "");
    assert!(!r.verified);
    assert_eq!(r.reason, "invalid nonce extracted");
    assert_eq!(guard.count(), 0);
}

#[test]
fn conclude_each_kind_of_check() {
    let mut guard = ReplayGuard::new();
    let r = conclude(&mut guard, TokenCheck::KeyRejected);
    assert!(!r.verified);
    assert_eq!(r.reason, "invalid public key format");
    let r = conclude(&mut guard, TokenCheck::SignatureRejected("ExpiredSignature".to_string()));
    assert!(!r.verified);
    assert_eq!(r.reason, "signature verification failed: ExpiredSignature");
    let r = conclude(&mut guard, TokenCheck::Authentic(None));
    assert!(!r.verified);
    assert_eq!(r.reason, "invalid nonce extracted");
    assert_eq!(guard.count(), 0);
    let r = conclude(&mut guard, TokenCheck::Authentic(Some("abc".to_string())));
    assert!(r.verified);
    assert_eq!(guard.nonces(), vec!["abc".to_string()]);
    let r = conclude(&mut guard, TokenCheck::Authentic(Some("abc".to_string())));
    assert!(!r.verified);
    assert_eq!(r.reason, "nonce has already been used");
}

#[test]
fn nonce_claim_trims_surrounding_whitespace() {
    assert_eq!(nonce_claim(None), None);
    assert_eq!(nonce_claim(Some("  abc \n".to_string())), Some("abc".to_string()));
    assert_eq!(nonce_claim(Some(" \t\r\n ".to_string())), Some(String::new()));
    assert_eq!(nonce_claim(Some("a b".to_string())), Some("a b".to_string()));
    assert_eq!(nonce_claim(Some("\u{3000}x\u{a0}".to_string())), Some("x".to_string()));
}

#[test]
fn blank_claim_does_not_reach_guard() {
    let mut guard = ReplayGuard::new();
    let r = conclude(&mut guard, TokenCheck::Authentic(nonce_claim(Some("   ".to_string()))));
    assert!(!r.verified);
    assert_eq!(r.reason, "invalid nonce extracted");
    assert_eq!(guard.count(), 0);
}

const P256_HEADER: [u8; 27] = [
    0x30, 0x59, 0x30, 0x13, 0x06, 0x07, 0x2a, 0x86, 0x48, 0xce, 0x3d, 0x02, 0x01, 0x06, 0x08,
    0x2a, 0x86, 0x48, 0xce, 0x3d, 0x03, 0x01, 0x07, 0x03, 0x42, 0x00, 0x04,
];

#[test]
fn p256_key_shape_is_recognised() {
    let mut der = P256_HEADER.to_vec();
    der.extend([7u8; 64]);
    assert!(is_p256_public_key(&der));
    let mut other_curve = der.clone();
    other_curve[22] = 0x08;
    assert!(!is_p256_public_key(&other_curve));
    let mut compressed = der.clone();
    compressed[26] = 0x02;
    assert!(!is_p256_public_key(&compressed));
    assert!(!is_p256_public_key(&der[..90]));
    assert!(!is_p256_public_key(&[]));
}

#[test]
fn pinned_algorithm_is_es256() {
    assert_eq!(pinned_algorithm(), jsonwebtoken::Algorithm::ES256);
}
