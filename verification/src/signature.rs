//! Whether a request comes from the hosting platform: the user agent it
//! names, and the keyed digest of its body that it carries.

use vstd::prelude::*;
use hmac::Mac;
use crate::text::{has_prefix, starts_with, strip_prefix};

verus! {

/// Why a request is turned away.
#[derive(Debug, Clone, Copy, PartialEq, Eq, Structural)]
pub enum AuthError {
    /// The user agent is not the platform's.
    UserAgentMismatch,
    /// The signature header is not `sha256=` and an even number of
    /// hexadecimal digits.
    MalformedSignature,
    /// The signature is not the digest of the body under the secret.
    SignatureMismatch,
}

/// The value of a hexadecimal digit, of either case.
pub open spec fn hex_value(c: char) -> Option<int> {
    if '0' <= c <= '9' {
        Some(c as int - '0' as int)
    } else if 'a' <= c <= 'f' {
        Some(c as int - 'a' as int + 10)
    } else if 'A' <= c <= 'F' {
        Some(c as int - 'A' as int + 10)
    } else {
        None
    }
}

/// Whether the text is an even number of hexadecimal digits.
pub open spec fn is_hex(text: Seq<char>) -> bool {
    text.len() % 2 == 0 && forall|i: int| 0 <= i < text.len() ==> hex_value(#[trigger] text[i]) is Some
}

/// The bytes that an even number of hexadecimal digits spell, two digits to
/// a byte, the high one first.
pub open spec fn hex_bytes(text: Seq<char>) -> Seq<u8> {
    Seq::new(
        text.len() / 2,
        |i: int| (16 * hex_value(text[2 * i])->0 + hex_value(text[2 * i + 1])->0) as u8,
    )
}

/// The bytes that a signature header carries: what its hexadecimal digits
/// spell, if it is `sha256=` followed by an even number of them.
pub open spec fn carried(header: Seq<char>) -> Option<Seq<u8>> {
    let digits = header.subrange("sha256="@.len() as int, header.len() as int);
    if has_prefix(header, "sha256="@) && is_hex(digits) {
        Some(hex_bytes(digits))
    } else {
        None
    }
}

/// The HMAC-SHA256 tag of `data` under `key`.
pub uninterp spec fn hmac_sha256_tag(key: Seq<u8>, data: Seq<u8>) -> Seq<u8>;

/// The judgement on a request, given the tag that its body has under the
/// secret. The user agent is looked at first, then the form of the
/// signature, then the signature itself: only a request whose signature
/// spells that very tag is let in.
pub open spec fn judgement(user_agent: Seq<char>, signature: Seq<char>, tag: Seq<u8>) -> Result<
    (),
    AuthError,
> {
    if !has_prefix(user_agent, "GitHub-Hookshot"@) {
        Err(AuthError::UserAgentMismatch)
    } else {
        match carried(signature) {
            None => Err(AuthError::MalformedSignature),
            Some(bytes) => if bytes == tag {
                Ok(())
            } else {
                Err(AuthError::SignatureMismatch)
            },
        }
    }
}

/// `hex::decode` on a string: the bytes that the digits spell, or nothing
/// where the length is odd or a character is no hexadecimal digit of either
/// case.
#[verifier::external_body]
fn hex_decode(text: &str) -> (bytes: Option<Vec<u8>>)
    ensures
        bytes is Some <==> is_hex(text@),
        bytes matches Some(v) ==> v@ == hex_bytes(text@),
{
    match hex::decode(text) {
        Ok(bytes) => Some(bytes),
        Err(_) => None,
    }
}

/// `Hmac::<Sha256>::new_from_slice(key)`, `update(data)`, `finalize()` and
/// `into_bytes()`: the tag of the data under the key, which is 32 bytes
/// long. `new_from_slice` takes a key of any length.
#[verifier::external_body]
fn hmac_sha256(key: &[u8], data: &[u8]) -> (tag: Vec<u8>)
    ensures
        tag@ == hmac_sha256_tag(key@, data@),
        tag@.len() == 32,
{
    let mut mac = hmac::Hmac::<crypto_hashes::sha2::Sha256>::new_from_slice(key).unwrap();
    mac.update(data);
    mac.finalize().into_bytes().to_vec()
}

/// Whether the two slices hold the same bytes.
pub fn compare_slice(a: &[u8], b: &[u8]) -> (same: bool)
    ensures
        same == (a@ == b@),
{
    if a.len() != b.len() {
        return false;
    }
    let mut i: usize = 0;
    while i < a.len()
        invariant
            i <= a.len(),
            a.len() == b.len(),
            forall|k: int| 0 <= k < i ==> a@[k] == b@[k],
        decreases a.len() - i,
    {
        if a[i] != b[i] {
            return false;
        }
        i += 1;
    }
    assert(a@ =~= b@);
    true
}

/// The bytes that a signature header carries.
pub fn signature_bytes(header: &str) -> (bytes: Option<Vec<u8>>)
    ensures
        bytes is Some <==> carried(header@) is Some,
        bytes matches Some(v) ==> Some(v@) == carried(header@),
{
    match strip_prefix(header, "sha256=") {
        Some(digits) => hex_decode(digits),
        None => None,
    }
}

/// Judges a request, given the tag that its body has under the secret.
pub fn judge(user_agent: &str, signature: &str, tag: &[u8]) -> (verdict: Result<(), AuthError>)
    ensures
        verdict == judgement(user_agent@, signature@, tag@),
        verdict is Ok <==> has_prefix(user_agent@, "GitHub-Hookshot"@) && carried(signature@)
            == Some(tag@),
{
    if !starts_with(user_agent, "GitHub-Hookshot") {
        return Err(AuthError::UserAgentMismatch);
    }
    let sig256 = match signature_bytes(signature) {
        Some(bytes) => bytes,
        None => {
            return Err(AuthError::MalformedSignature);
        },
    };
    if compare_slice(sig256.as_slice(), tag) {
        Ok(())
    } else {
        Err(AuthError::SignatureMismatch)
    }
}

/// Judges a request: computes the tag of the body under the secret and
/// holds the signature against it. A request is let in exactly when it names
/// the platform's user agent and its signature spells that tag.
pub fn authenticate(user_agent: &str, signature: &str, secret: &[u8], body: &[u8]) -> (verdict:
    Result<(), AuthError>)
    ensures
        verdict == judgement(user_agent@, signature@, hmac_sha256_tag(secret@, body@)),
        verdict is Ok <==> has_prefix(user_agent@, "GitHub-Hookshot"@) && carried(signature@)
            == Some(hmac_sha256_tag(secret@, body@)),
{
    let tag = hmac_sha256(secret, body);
    judge(user_agent, signature, tag.as_slice())
}

} // verus!
