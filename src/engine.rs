use vstd::prelude::*;

use crate::outcome::{
    reason_invalid_key, reason_invalid_nonce, reason_nonce_used, reason_signature, reason_verified,
    VerificationOutcome,
};
use crate::replay_guard::ReplayGuard;
use crate::token::{authenticate, key_text_accepted};

verus! {

/// What checking a token against a public key found, before the replay guard
/// is consulted.
pub enum TokenCheck {
    /// The public key text is not a key for the pinned algorithm.
    KeyRejected,
    /// The token's signature or structure did not validate; the cause.
    SignatureRejected(String),
    /// The token is authentic; its nonce claim after trimming, if it has one.
    Authentic(Option<String>),
}

/// Whether a trimmed nonce claim is accepted against the consumed set.
pub open spec fn accepts(consumed: Set<Seq<char>>, nonce: Seq<char>) -> bool {
    nonce.len() > 0 && !consumed.contains(nonce)
}

pub open spec fn settle_reason(consumed: Set<Seq<char>>, nonce: Seq<char>) -> Seq<char> {
    if nonce.len() == 0 {
        reason_invalid_nonce()
    } else if consumed.contains(nonce) {
        reason_nonce_used()
    } else {
        reason_verified()
    }
}

pub open spec fn settle_after(consumed: Set<Seq<char>>, nonce: Seq<char>) -> Set<Seq<char>> {
    if accepts(consumed, nonce) {
        consumed.insert(nonce)
    } else {
        consumed
    }
}

/// Whether a check leads to a verified outcome against the consumed set.
pub open spec fn check_verified(consumed: Set<Seq<char>>, c: TokenCheck) -> bool {
    match c {
        TokenCheck::Authentic(Some(n)) => accepts(consumed, n@),
        _ => false,
    }
}

/// The outcome's reason for a check against the consumed set.
pub open spec fn check_reason(consumed: Set<Seq<char>>, c: TokenCheck) -> Seq<char> {
    match c {
        TokenCheck::KeyRejected => reason_invalid_key(),
        TokenCheck::SignatureRejected(cause) => reason_signature(cause@),
        TokenCheck::Authentic(None) => reason_invalid_nonce(),
        TokenCheck::Authentic(Some(n)) => settle_reason(consumed, n@),
    }
}

/// The consumed set after a check is concluded.
pub open spec fn check_after(consumed: Set<Seq<char>>, c: TokenCheck) -> Set<Seq<char>> {
    match c {
        TokenCheck::Authentic(Some(n)) => settle_after(consumed, n@),
        _ => consumed,
    }
}

/// Decides a trimmed nonce claim against the guard: a blank claim is refused
/// without touching the guard; otherwise the guard consumes it in one step.
pub fn settle(guard: &mut ReplayGuard, nonce: &str) -> (r: VerificationOutcome)
    requires
        old(guard).wf(),
    ensures
        final(guard).wf(),
        r.verified == accepts(old(guard)@, nonce@),
        r.reason@ == settle_reason(old(guard)@, nonce@),
        final(guard)@ == settle_after(old(guard)@, nonce@),
{
    if nonce.is_empty() {
        return VerificationOutcome::invalid_nonce();
    }
    if guard.try_consume(nonce) {
        VerificationOutcome::accepted()
    } else {
        assert(old(guard)@.insert(nonce@) =~= old(guard)@);
        VerificationOutcome::nonce_used()
    }
}

/// Turns a token check into an outcome, consulting the guard only for an
/// authentic token with a nonce claim.
pub fn conclude(guard: &mut ReplayGuard, check: TokenCheck) -> (r: VerificationOutcome)
    requires
        old(guard).wf(),
    ensures
        final(guard).wf(),
        r.verified == check_verified(old(guard)@, check),
        r.reason@ == check_reason(old(guard)@, check),
        final(guard)@ == check_after(old(guard)@, check),
{
    match check {
        TokenCheck::KeyRejected => VerificationOutcome::invalid_key(),
        TokenCheck::SignatureRejected(cause) => VerificationOutcome::signature_failed(cause.as_str()),
        TokenCheck::Authentic(None) => VerificationOutcome::invalid_nonce(),
        TokenCheck::Authentic(Some(nonce)) => settle(guard, nonce.as_str()),
    }
}

/// Verifies a proof submission: the token must carry an ES256 signature that
/// the public key validates and a non-blank nonce claim that the guard has not
/// consumed; that nonce is then consumed. Every other outcome leaves the
/// guard as it was.
pub fn verify(guard: &mut ReplayGuard, token: &str, public_key_pem: &str) -> (r: VerificationOutcome)
    requires
        old(guard).wf(),
    ensures
        final(guard).wf(),
        !key_text_accepted(public_key_pem@) ==> !r.verified && r.reason@ == reason_invalid_key(),
        r.verified ==> exists|n: Seq<char>|
            accepts(old(guard)@, n) && final(guard)@ == old(guard)@.insert(n),
        !r.verified ==> final(guard)@ == old(guard)@,
        exists|c: TokenCheck|
            (c is KeyRejected == !key_text_accepted(public_key_pem@))
            && r.verified == check_verified(old(guard)@, c)
            && r.reason@ == check_reason(old(guard)@, c)
            && final(guard)@ == check_after(old(guard)@, c),
{
    let check = authenticate(token, public_key_pem);
    let ghost c = check;
    let r = conclude(guard, check);
    proof {
        if r.verified {
            let n = c->Authentic_0->0@;
            assert(accepts(old(guard)@, n) && final(guard)@ == old(guard)@.insert(n));
        }
    }
    r
}

} // verus!
