use vstd::prelude::*;

use crate::engine::{accepts, check_after, check_reason, check_verified, TokenCheck};
use crate::outcome::{reason_invalid_nonce, reason_nonce_used};
use crate::token::{is_trim_of, is_white_space};

verus! {

/// The trimmed nonce claim that a check carries, if any.
pub open spec fn claim_of(c: TokenCheck) -> Option<Seq<char>> {
    match c {
        TokenCheck::Authentic(Some(n)) => Some(n@),
        _ => None,
    }
}

/// How many of `checks`, concluded in order from the consumed set
/// `consumed`, are verified with nonce claim `n`.
pub open spec fn verified_for(consumed: Set<Seq<char>>, checks: Seq<TokenCheck>, n: Seq<char>) -> nat
    decreases checks.len(),
{
    if checks.len() == 0 {
        0
    } else {
        let c = checks[0];
        let here: nat = if check_verified(consumed, c) && claim_of(c) == Some(n) {
            1
        } else {
            0
        };
        here + verified_for(check_after(consumed, c), checks.drop_first(), n)
    }
}

/// Concluding a check never removes a consumed nonce.
pub proof fn consumed_only_grows(consumed: Set<Seq<char>>, c: TokenCheck)
    ensures
        consumed.subset_of(check_after(consumed, c)),
{
}

/// A check whose non-blank nonce claim is already consumed is refused as a replay and
/// leaves the consumed set as it was.
pub proof fn consumed_nonce_is_refused(consumed: Set<Seq<char>>, c: TokenCheck)
    requires
        c is Authentic,
        c->Authentic_0 is Some,
        c->Authentic_0->0@.len() > 0,
        consumed.contains(c->Authentic_0->0@),
    ensures
        !check_verified(consumed, c),
        check_reason(consumed, c) == reason_nonce_used(),
        check_after(consumed, c) == consumed,
{
}

/// Of two proofs that claim the same nonce, if the first is verified the
/// second is refused as a replay, whichever proofs they are.
pub proof fn second_proof_is_refused(consumed: Set<Seq<char>>, first: TokenCheck, second: TokenCheck)
    requires
        claim_of(first) is Some,
        claim_of(first) == claim_of(second),
        check_verified(consumed, first),
    ensures
        !check_verified(check_after(consumed, first), second),
        check_reason(check_after(consumed, first), second) == reason_nonce_used(),
{
}

/// Over any run of submissions, at most one is verified for each nonce, and
/// none for a nonce that was consumed before the run.
pub proof fn at_most_one_verified(consumed: Set<Seq<char>>, checks: Seq<TokenCheck>, n: Seq<char>)
    ensures
        verified_for(consumed, checks, n) <= 1,
        consumed.contains(n) ==> verified_for(consumed, checks, n) == 0,
    decreases checks.len(),
{
    if checks.len() > 0 {
        let c = checks[0];
        let after = check_after(consumed, c);
        at_most_one_verified(after, checks.drop_first(), n);
        if check_verified(consumed, c) && claim_of(c) == Some(n) {
            assert(after.contains(n));
        }
    }
}

/// A nonce claim that is missing or empty after trimming is refused as an
/// invalid nonce and the consumed set is left as it was.
pub proof fn blank_claim_is_refused(consumed: Set<Seq<char>>, c: TokenCheck)
    requires
        c is Authentic,
        c->Authentic_0 is Some ==> c->Authentic_0->0@.len() == 0,
    ensures
        !check_verified(consumed, c),
        check_reason(consumed, c) == reason_invalid_nonce(),
        check_after(consumed, c) == consumed,
{
}

/// A claim made only of white space, or empty, trims to the empty text.
pub proof fn blank_claim_trims_to_empty(s: Seq<char>, t: Seq<char>)
    requires
        forall|k: int| 0 <= k < s.len() ==> is_white_space(#[trigger] s[k]),
        is_trim_of(s, t),
    ensures
        t.len() == 0,
{
    let (i, j) = choose|i: int, j: int|
        0 <= i <= j <= s.len() && t == s.subrange(i, j)
        && (forall|k: int| 0 <= k < i ==> is_white_space(#[trigger] s[k]))
        && (forall|k: int| j <= k < s.len() ==> is_white_space(#[trigger] s[k]))
        && (i < j ==> !is_white_space(s[i]) && !is_white_space(s[j - 1]));
    if i < j {
        assert(is_white_space(s[i]));
    }
}

/// A claim that holds a character other than white space never trims to
/// the empty text.
pub proof fn claim_with_content_trims_to_content(s: Seq<char>, t: Seq<char>, k: int)
    requires
        0 <= k < s.len(),
        !is_white_space(s[k]),
        is_trim_of(s, t),
    ensures
        t.len() > 0,
{
    let (i, j) = choose|i: int, j: int|
        0 <= i <= j <= s.len() && t == s.subrange(i, j)
        && (forall|k: int| 0 <= k < i ==> is_white_space(#[trigger] s[k]))
        && (forall|k: int| j <= k < s.len() ==> is_white_space(#[trigger] s[k]))
        && (i < j ==> !is_white_space(s[i]) && !is_white_space(s[j - 1]));
    if k < i {
        assert(is_white_space(s[k]));
    }
    if j <= k {
        assert(is_white_space(s[k]));
    }
}

/// After the consumed set is cleared, any non-blank nonce is accepted again
/// and is the one entry of the set.
pub proof fn cleared_guard_accepts(n: Seq<char>)
    requires
        n.len() > 0,
    ensures
        !Set::<Seq<char>>::empty().contains(n),
        accepts(Set::<Seq<char>>::empty(), n),
        Set::<Seq<char>>::empty().insert(n) == set![n],
{
    assert(Set::<Seq<char>>::empty().insert(n) =~= set![n]);
}

} // verus!
