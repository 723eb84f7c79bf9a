use vstd::prelude::*;

use crate::engine::{check_after, check_reason, check_verified, verify, TokenCheck};
use crate::nonce::{is_v4_text, issue};
use crate::outcome::VerificationOutcome;
use crate::replay_guard::ReplayGuard;
use crate::token::key_text_accepted;

verus! {

/// Issues nonces and verifies proofs against a replay guard that it owns.
pub struct Verifier {
    guard: ReplayGuard,
}

impl Verifier {
    pub closed spec fn wf(&self) -> bool {
        self.guard.wf()
    }

    /// The nonces consumed so far.
    pub closed spec fn consumed(&self) -> Set<Seq<char>> {
        self.guard@
    }

    pub fn new() -> (r: Verifier)
        ensures
            r.wf(),
            r.consumed() == Set::<Seq<char>>::empty(),
    {
        Verifier { guard: ReplayGuard::new() }
    }

    /// Issues a fresh nonce; the consumed set is not touched.
    pub fn request_nonce(&self) -> (r: String)
        ensures
            is_v4_text(r@),
    {
        issue()
    }

    /// Verifies a token and public key text against the consumed set.
    pub fn submit_proof(&mut self, token: &str, public_key_pem: &str) -> (r: VerificationOutcome)
        requires
            old(self).wf(),
        ensures
            final(self).wf(),
            exists|c: TokenCheck|
                (c is KeyRejected == !key_text_accepted(public_key_pem@))
                && r.verified == check_verified(old(self).consumed(), c)
                && r.reason@ == check_reason(old(self).consumed(), c)
                && final(self).consumed() == check_after(old(self).consumed(), c),
    {
        let r = verify(&mut self.guard, token, public_key_pem);
        proof {
            let c = choose|c: TokenCheck|
                (c is KeyRejected == !key_text_accepted(public_key_pem@))
                && r.verified == check_verified(old(self).guard@, c)
                && r.reason@ == check_reason(old(self).guard@, c)
                && self.guard@ == check_after(old(self).guard@, c);
            assert(final(self).consumed() == check_after(old(self).consumed(), c));
        }
        r
    }

    /// Number of consumed nonces.
    pub fn consumed_count(&self) -> (r: usize)
        requires
            self.wf(),
        ensures
            r == self.consumed().len(),
    {
        self.guard.count()
    }

    /// The consumed nonces, each once.
    pub fn consumed_nonces(&self) -> (r: Vec<String>)
        requires
            self.wf(),
        ensures
            r@.len() == self.consumed().len(),
            forall|n: Seq<char>|
                self.consumed().contains(n) <==> exists|i: int| 0 <= i < r@.len() && #[trigger] r@[i]@ == n,
    {
        self.guard.nonces()
    }

    /// Forgets every consumed nonce.
    pub fn clear(&mut self)
        ensures
            final(self).wf(),
            final(self).consumed() == Set::<Seq<char>>::empty(),
    {
        self.guard.clear()
    }
}

} // verus!
