use vstd::prelude::*;

verus! {

pub open spec fn is_lower_hex(c: char) -> bool {
    ('0' <= c && c <= '9') || ('a' <= c && c <= 'f')
}

pub open spec fn is_hyphen_position(i: int) -> bool {
    i == 8 || i == 13 || i == 18 || i == 23
}

/// The hyphenated lower-case text of a random (version 4, RFC 4122 variant)
/// UUID: 122 random bits in 36 characters.
pub open spec fn is_v4_text(s: Seq<char>) -> bool {
    &&& s.len() == 36
    &&& forall|i: int|
        0 <= i < 36 ==> if is_hyphen_position(i) {
            s[i] == '-'
        } else {
            is_lower_hex(#[trigger] s[i])
        }
    &&& s[14] == '4'
    &&& (s[19] == '8' || s[19] == '9' || s[19] == 'a' || s[19] == 'b')
}

/// Relies on uuid::Uuid::new_v4 and the Display impl of uuid::Uuid: a fresh
/// random UUID with its version and variant bits set, written hyphenated in
/// lower case. Panics only when the system offers no randomness.
#[verifier::external_body]
fn random_uuid_text() -> (r: String)
    ensures
        is_v4_text(r@),
{
    uuid::Uuid::new_v4().to_string()
}

/// Issues a fresh nonce. Nothing is recorded: the guard tracks consumed
/// nonces only.
pub fn issue() -> (r: String)
    ensures
        is_v4_text(r@),
        r@.len() > 0,
{
    random_uuid_text()
}

} // verus!
