//! Digests, encodings and random values.

use base64ct::{Base64UrlUnpadded, Encoding as _};
use rand::Rng as _;
use sha2::{Digest as _, Sha256};
use vstd::prelude::*;

verus! {

/// The SHA-256 digest of `bytes`.
pub uninterp spec fn sha256(bytes: Seq<u8>) -> Seq<u8>;

/// The character that stands for six bits.
pub open spec fn letter(six_bits: int) -> char {
    if six_bits < 26 {
        ('A' as int + six_bits) as char
    } else if six_bits < 52 {
        ('a' as int + six_bits - 26) as char
    } else if six_bits < 62 {
        ('0' as int + six_bits - 52) as char
    } else if six_bits == 62 {
        '-'
    } else {
        '_'
    }
}

/// The byte at a place, and zero behind the last one.
pub open spec fn byte_at(bytes: Seq<u8>, at: int) -> int {
    if at < bytes.len() {
        bytes[at] as int
    } else {
        0
    }
}

/// The bits of `bytes` in groups of six: three bytes make up four groups.
pub open spec fn six_bits_at(bytes: Seq<u8>, at: int) -> int {
    let first = byte_at(bytes, at / 4 * 3);
    let second = byte_at(bytes, at / 4 * 3 + 1);
    let third = byte_at(bytes, at / 4 * 3 + 2);
    if at % 4 == 0 {
        first / 4
    } else if at % 4 == 1 {
        first % 4 * 16 + second / 16
    } else if at % 4 == 2 {
        second % 16 * 4 + third / 64
    } else {
        third % 64
    }
}

/// `bytes` in the URL-safe Base64 encoding without padding: one character for each
/// six bits that hold some of them.
pub open spec fn base64url(bytes: Seq<u8>) -> Seq<char> {
    Seq::new(((bytes.len() * 4 + 2) / 3) as nat, |at: int| letter(six_bits_at(bytes, at)))
}

/// The bytes that `text` holds in the URL-safe Base64 encoding without padding,
/// if it is such an encoding.
pub open spec fn base64url_decoded(text: Seq<char>) -> Option<Seq<u8>> {
    if exists|bytes: Seq<u8>| #[trigger] base64url(bytes) == text {
        Some(choose|bytes: Seq<u8>| #[trigger] base64url(bytes) == text)
    } else {
        None
    }
}

/// The alphabet of the URL-safe Base64 encoding.
pub open spec fn url_safe(character: char) -> bool {
    ||| 'A' <= character <= 'Z'
    ||| 'a' <= character <= 'z'
    ||| '0' <= character <= '9'
    ||| character == '-'
    ||| character == '_'
}

/// A text that stands for itself wherever a URL can hold it.
pub open spec fn all_url_safe(text: Seq<char>) -> bool {
    forall|i: int| 0 <= i < text.len() ==> url_safe(#[trigger] text[i])
}

/// The characters of an encoding are all of the alphabet.
pub proof fn lemma_base64url_is_url_safe(bytes: Seq<u8>)
    ensures
        all_url_safe(base64url(bytes)),
{
    assert forall|i: int| 0 <= i < base64url(bytes).len() implies url_safe(
        #[trigger] base64url(bytes)[i],
    ) by {
        assert(0 <= six_bits_at(bytes, i) < 64);
    }
}

/// No two sequences of bytes are encoded the same: what is decoded is what was
/// encoded.
pub proof fn law_encodings_are_decoded(bytes: Seq<u8>, other: Seq<u8>)
    ensures
        base64url(bytes) == base64url(other) ==> bytes == other,
        base64url_decoded(base64url(bytes)) == Some(bytes),
{
    if base64url(bytes) == base64url(other) {
        lemma_encoded_the_same(bytes, other);
    }
    let decoded = base64url_decoded(base64url(bytes))->0;
    assert(base64url(bytes) == base64url(bytes));
    assert(base64url(decoded) == base64url(bytes));
    lemma_encoded_the_same(decoded, bytes);
}

proof fn lemma_encoded_the_same(bytes: Seq<u8>, other: Seq<u8>)
    requires
        base64url(bytes) == base64url(other),
    ensures
        bytes == other,
{
    let text = base64url(bytes);
    assert(text.len() == base64url(other).len());
    assert(bytes.len() == other.len());
    assert forall|at: int| 0 <= at < text.len() implies six_bits_at(bytes, at) == six_bits_at(
        other,
        at,
    ) by {
        assert(text[at] == letter(six_bits_at(bytes, at)));
        assert(base64url(other)[at] == letter(six_bits_at(other, at)));
        assert(0 <= six_bits_at(bytes, at) < 64);
        assert(0 <= six_bits_at(other, at) < 64);
    }
    assert forall|k: int| 0 <= k < bytes.len() implies bytes[k] == other[k] by {
        let at = k / 3 * 4 + k % 3;
        assert(at / 4 == k / 3);
        assert((at + 1) / 4 == k / 3);
        assert(0 <= at && at + 1 < text.len());
        assert(six_bits_at(bytes, at) == six_bits_at(other, at));
        assert(six_bits_at(bytes, at + 1) == six_bits_at(other, at + 1));
        assert(byte_at(bytes, k) == bytes[k]);
        assert(byte_at(other, k) == other[k]);
    }
    assert(bytes =~= other);
}

/// `sha2::Sha256::digest`. The digest is named, not stated; it has 32 bytes.
#[verifier::external_body]
pub(crate) fn sha256_digest(bytes: &[u8]) -> (digest: Vec<u8>)
    ensures
        digest@ == sha256(bytes@),
        digest@.len() == 32,
{
    Sha256::digest(bytes).to_vec()
}

/// `base64ct::Base64UrlUnpadded::encode_string`: the encoding of the bytes. It would
/// panic on an input of more than a quarter of what can be addressed.
#[verifier::external_body]
pub(crate) fn base64url_encode(bytes: &[u8]) -> (text: String)
    requires
        bytes@.len() <= usize::MAX / 4,
    ensures
        text@ == base64url(bytes@),
{
    Base64UrlUnpadded::encode_string(bytes)
}

/// `base64ct::Base64UrlUnpadded::decode_vec`, with any refusal turned into `None`:
/// the bytes whose encoding the text is. It refuses every text that is the encoding
/// of no bytes, also one that only has other bits behind the last byte.
#[verifier::external_body]
fn decode_vec(text: &str) -> (bytes: Option<Vec<u8>>)
    ensures
        bytes matches Some(held) ==> base64url(held@) == text@,
        bytes is None ==> forall|held: Seq<u8>| #[trigger] base64url(held) != text@,
{
    Base64UrlUnpadded::decode_vec(text).ok()
}

/// The bytes that a text holds in the URL-safe Base64 encoding without padding.
pub fn base64url_decode(text: &str) -> (bytes: Option<Vec<u8>>)
    ensures
        (match bytes {
            Some(bytes) => Some(bytes@),
            None => None,
        }) == base64url_decoded(text@),
{
    let bytes = decode_vec(text);
    proof {
        if bytes is Some {
            law_encodings_are_decoded(bytes->0@, bytes->0@);
        }
    }
    bytes
}

/// 32 bytes from `rand::rng`, filled in by `fill_bytes`. Nothing is claimed of
/// their values, which come from the random number generator of this thread.
#[verifier::external_body]
fn random_bytes() -> (bytes: [u8; 32]) {
    let mut bytes = [0_u8; 32];
    rand::rng().fill_bytes(&mut bytes);
    bytes
}

/// A hexadecimal digit, in lower case.
pub open spec fn hexadecimal(character: char) -> bool {
    '0' <= character <= '9' || 'a' <= character <= 'f'
}

/// A random identifier: 32 hexadecimal digits with hyphens at four places, and of
/// the version and the variant that random identifiers have.
pub open spec fn random_identifier(text: Seq<char>) -> bool {
    &&& text.len() == 36
    &&& forall|i: int|
        0 <= i < 36 ==> if i == 8 || i == 13 || i == 18 || i == 23 {
            #[trigger] text[i] == '-'
        } else {
            hexadecimal(text[i])
        }
    &&& text[14] == '4'
    &&& text[19] == '8' || text[19] == '9' || text[19] == 'a' || text[19] == 'b'
}

/// A random identifier from `uuid::Uuid::new_v4`, in the form in which `Display`
/// writes it: with hyphens, in lower case, and with its version and variant.
/// Nothing else is claimed of its value.
#[verifier::external_body]
pub(crate) fn random_credential_id() -> (id: String)
    ensures
        random_identifier(id@),
{
    uuid::Uuid::new_v4().to_string()
}

/// The encoding of 32 bytes.
pub open spec fn encodes_32_bytes(text: Seq<char>) -> bool {
    exists|bytes: Seq<u8>| bytes.len() == 32 && text == #[trigger] base64url(bytes)
}

/// 32 random bytes, encoded for a URL.
pub fn random_base64url() -> (text: String)
    ensures
        text@.len() == 43,
        all_url_safe(text@),
        encodes_32_bytes(text@),
{
    let bytes: [u8; 32] = random_bytes();
    let text = base64url_encode(&bytes);
    proof {
        lemma_base64url_is_url_safe(bytes@);
    }
    text
}

}
