use vstd::prelude::*;

use crate::engine::TokenCheck;
use jsonwebtoken::errors::Error as JwtError;
use jsonwebtoken::{Algorithm, DecodingKey, Validation};

verus! {

#[verifier::external_type_specification]
#[verifier::external_body]
pub struct ExDecodingKey(DecodingKey);

#[verifier::external_type_specification]
#[verifier::external_body]
pub struct ExValidation(Validation);

#[verifier::external_type_specification]
#[verifier::external_body]
pub struct ExJwtError(JwtError);

#[verifier::external_type_specification]
#[verifier::external_body]
pub struct ExJsonValue(serde_json::Value);

#[verifier::external_type_specification]
pub struct ExAlgorithm(Algorithm);

/// Longest public key text that is parsed. A P-256 public key in PEM form
/// takes under two hundred characters; the bound keeps untrusted text from
/// driving the key parser's recursion deep.
pub const MAX_KEY_TEXT_LEN: usize = 1024;

/// The DER header of a P-256 public key (SubjectPublicKeyInfo with the
/// id-ecPublicKey and prime256v1 identifiers), up to and including the tag
/// of an uncompressed point.
pub open spec fn p256_spki_prefix() -> Seq<u8> {
    seq![
        0x30u8, 0x59, 0x30, 0x13, 0x06, 0x07, 0x2a, 0x86, 0x48, 0xce, 0x3d, 0x02, 0x01, 0x06,
        0x08, 0x2a, 0x86, 0x48, 0xce, 0x3d, 0x03, 0x01, 0x07, 0x03, 0x42, 0x00, 0x04,
    ]
}

/// Whether the bytes are a P-256 public key: the header above followed by
/// the point's two 32-byte coordinates.
pub open spec fn is_p256_spki(der: Seq<u8>) -> bool {
    der.len() == 91 && der.subrange(0, 27) == p256_spki_prefix()
}

/// Whether public key text is taken as a key for the pinned algorithm: short
/// enough, PEM whose contents are a P-256 public key, and accepted by the
/// decoder's key parser.
pub open spec fn key_text_accepted(pem: Seq<char>) -> bool {
    &&& pem.len() <= MAX_KEY_TEXT_LEN
    &&& pem_contents_of(pem) is Some
    &&& is_p256_spki(pem_contents_of(pem)->0)
    &&& ec_pem_accepted(pem)
}

/// The bytes of the first PEM block in the text, when its framing and base64
/// are well formed.
pub uninterp spec fn pem_contents_of(text: Seq<char>) -> Option<Seq<u8>>;

/// Whether the text is accepted as an EC public key in PEM form.
pub uninterp spec fn ec_pem_accepted(pem: Seq<char>) -> bool;

/// Whether `c` has the Unicode White_Space property.
pub open spec fn is_white_space(c: char) -> bool {
    ||| '\u{9}' <= c && c <= '\u{d}'
    ||| c == ' ' || c == '\u{85}' || c == '\u{a0}' || c == '\u{1680}'
    ||| '\u{2000}' <= c && c <= '\u{200a}'
    ||| c == '\u{2028}' || c == '\u{2029}' || c == '\u{202f}' || c == '\u{205f}'
    ||| c == '\u{3000}'
}

/// `t` is `s` with its leading and trailing white space removed: a contiguous
/// part of `s` that neither starts nor ends with white space, and all that
/// is cut off on either side is white space.
pub open spec fn is_trim_of(s: Seq<char>, t: Seq<char>) -> bool {
    exists|i: int, j: int|
        0 <= i <= j <= s.len() && t == s.subrange(i, j)
        && (forall|k: int| 0 <= k < i ==> is_white_space(#[trigger] s[k]))
        && (forall|k: int| j <= k < s.len() ==> is_white_space(#[trigger] s[k]))
        && (i < j ==> !is_white_space(s[i]) && !is_white_space(s[j - 1]))
}

/// Relies on pem::parse: the contents of the first PEM block depend on the
/// text alone.
#[verifier::external_body]
fn pem_contents(text: &str) -> (r: Option<Vec<u8>>)
    ensures
        match r {
            Some(b) => pem_contents_of(text@) == Some(b@),
            None => pem_contents_of(text@) is None,
        },
{
    pem::parse(text).ok().map(|p| p.contents().to_vec())
}

/// Relies on jsonwebtoken::DecodingKey::from_ec_pem: whether the PEM text
/// parses as an EC public key depends on the text alone. Its ASN.1 parser
/// recurses once per nesting level, so the text is kept short.
#[verifier::external_body]
fn parse_public_key(pem: &str) -> (r: Result<DecodingKey, JwtError>)
    requires
        pem@.len() <= MAX_KEY_TEXT_LEN,
    ensures
        r is Ok == ec_pem_accepted(pem@),
{
    DecodingKey::from_ec_pem(pem.as_bytes())
}

/// The one signature algorithm that tokens are checked with.
pub fn pinned_algorithm() -> (r: Algorithm)
    ensures
        r == Algorithm::ES256,
{
    Algorithm::ES256
}

/// Relies on jsonwebtoken::Validation::new: `alg` is the only allowed
/// algorithm, and an `exp` claim is required and checked.
#[verifier::external_body]
fn validation_for(alg: Algorithm) -> (r: Validation) {
    Validation::new(alg)
}

/// Whether the bytes are a P-256 public key in DER form.
pub fn is_p256_public_key(der: &[u8]) -> (r: bool)
    ensures
        r == is_p256_spki(der@),
{
    let prefix: [u8; 27] = [
        0x30, 0x59, 0x30, 0x13, 0x06, 0x07, 0x2a, 0x86, 0x48, 0xce, 0x3d, 0x02, 0x01, 0x06,
        0x08, 0x2a, 0x86, 0x48, 0xce, 0x3d, 0x03, 0x01, 0x07, 0x03, 0x42, 0x00, 0x04,
    ];
    assert(prefix@ =~= p256_spki_prefix());
    if der.len() != 91 {
        return false;
    }
    let mut i: usize = 0;
    while i < 27
        invariant
            der@.len() == 91,
            prefix@ == p256_spki_prefix(),
            i <= 27,
            forall|j: int| 0 <= j < i ==> der@[j] == p256_spki_prefix()[j],
        decreases 27 - i,
    {
        if der[i] != prefix[i] {
            assert(der@.subrange(0, 27)[i as int] != p256_spki_prefix()[i as int]);
            return false;
        }
        i = i + 1;
    }
    assert(der@.subrange(0, 27) =~= p256_spki_prefix());
    true
}

/// Reads public key text as a key for the pinned algorithm, refusing text
/// that is too long, is not PEM, or holds a key for another curve before the
/// decoder's parser sees it.
fn read_public_key(public_key_pem: &str) -> (r: Option<DecodingKey>)
    ensures
        r is Some == key_text_accepted(public_key_pem@),
{
    if public_key_pem.unicode_len() > MAX_KEY_TEXT_LEN {
        return None;
    }
    match pem_contents(public_key_pem) {
        None => return None,
        Some(der) => {
            if !is_p256_public_key(der.as_slice()) {
                return None;
            }
        },
    }
    match parse_public_key(public_key_pem) {
        Ok(key) => Some(key),
        Err(_) => None,
    }
}

/// Relies on jsonwebtoken::decode: checks the header's algorithm against the
/// validation's list, the signature against the key, and the registered
/// claims; on success returns the claims as a JSON value. The answer depends
/// on the clock, so nothing is stated of it.
#[verifier::external_body]
fn decode_claims(token: &str, key: &DecodingKey, validation: &Validation) -> (r: Result<
    serde_json::Value,
    JwtError,
>) {
    jsonwebtoken::decode::<serde_json::Value>(token, key, validation).map(|data| data.claims)
}

/// Relies on serde_json::Value::get and Value::as_str: the named member of a
/// JSON object, when it is a string.
#[verifier::external_body]
fn claim_text(claims: &serde_json::Value, name: &str) -> (r: Option<String>) {
    claims.get(name).and_then(serde_json::Value::as_str).map(str::to_owned)
}

/// Relies on the Display impl of jsonwebtoken::errors::Error for a short
/// description of the failure.
#[verifier::external_body]
fn error_text(e: &JwtError) -> (r: String) {
    e.to_string()
}

/// Relies on str::trim: removes leading and trailing characters with the
/// Unicode White_Space property.
#[verifier::external_body]
fn trim(s: &str) -> (r: &str)
    ensures
        is_trim_of(s@, r@),
{
    s.trim()
}

/// The nonce claim as the engine sees it: trimmed when present.
pub fn nonce_claim(raw: Option<String>) -> (r: Option<String>)
    ensures
        match raw {
            None => r is None,
            Some(c) => r is Some && is_trim_of(c@, r->0@),
        },
{
    match raw {
        None => None,
        Some(c) => Some(trim(c.as_str()).to_owned()),
    }
}

/// Checks a token against public key text, with the signature algorithm
/// pinned to ES256. The replay guard is not consulted here, so this holds no
/// lock and may run for many submissions at once.
pub fn authenticate(token: &str, public_key_pem: &str) -> (r: TokenCheck)
    ensures
        r is KeyRejected == !key_text_accepted(public_key_pem@),
{
    let key = match read_public_key(public_key_pem) {
        Some(key) => key,
        None => return TokenCheck::KeyRejected,
    };
    let validation = validation_for(pinned_algorithm());
    match decode_claims(token, &key, &validation) {
        Ok(claims) => TokenCheck::Authentic(nonce_claim(claim_text(&claims, "nonce"))),
        Err(e) => TokenCheck::SignatureRejected(error_text(&e)),
    }
}

} // verus!
