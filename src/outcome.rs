use vstd::prelude::*;

verus! {

/// Result of checking one proof submission.
pub struct VerificationOutcome {
    pub verified: bool,
    pub reason: String,
}

/// Reason given when the public key text cannot be read.
pub open spec fn reason_invalid_key() -> Seq<char> {
    "invalid public key format"@
}

pub open spec fn reason_signature_prefix() -> Seq<char> {
    "signature verification failed: "@
}

/// Reason given when the signature or token structure fails, with its cause.
pub open spec fn reason_signature(cause: Seq<char>) -> Seq<char> {
    reason_signature_prefix() + cause
}

/// Reason given when the nonce claim is missing or blank.
pub open spec fn reason_invalid_nonce() -> Seq<char> {
    "invalid nonce extracted"@
}

/// Reason given when the nonce was consumed before.
pub open spec fn reason_nonce_used() -> Seq<char> {
    "nonce has already been used"@
}

/// Reason given when the proof is accepted.
pub open spec fn reason_verified() -> Seq<char> {
    "attestation verified successfully"@
}

impl VerificationOutcome {
    /// The public key text could not be read as a key for the pinned algorithm.
    pub fn invalid_key() -> (r: VerificationOutcome)
        ensures
            !r.verified,
            r.reason@ == reason_invalid_key(),
    {
        VerificationOutcome { verified: false, reason: "invalid public key format".to_owned() }
    }

    /// The token's signature or structure did not validate, for `cause`.
    pub fn signature_failed(cause: &str) -> (r: VerificationOutcome)
        ensures
            !r.verified,
            r.reason@ == reason_signature(cause@),
    {
        let mut reason = "signature verification failed: ".to_owned();
        reason.append(cause);
        VerificationOutcome { verified: false, reason }
    }

    /// The token's nonce claim is missing or blank.
    pub fn invalid_nonce() -> (r: VerificationOutcome)
        ensures
            !r.verified,
            r.reason@ == reason_invalid_nonce(),
    {
        VerificationOutcome { verified: false, reason: "invalid nonce extracted".to_owned() }
    }

    /// The token's nonce was consumed before.
    pub fn nonce_used() -> (r: VerificationOutcome)
        ensures
            !r.verified,
            r.reason@ == reason_nonce_used(),
    {
        VerificationOutcome { verified: false, reason: "nonce has already been used".to_owned() }
    }

    /// The proof was accepted and its nonce consumed.
    pub fn accepted() -> (r: VerificationOutcome)
        ensures
            r.verified,
            r.reason@ == reason_verified(),
    {
        VerificationOutcome { verified: true, reason: "attestation verified successfully".to_owned() }
    }
}

} // verus!
