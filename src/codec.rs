//! The URL-safe base64 text encoding shared by identifiers and blobs.

use vstd::prelude::*;
use base64::Engine;
use base64::engine::general_purpose::URL_SAFE;

verus! {

/// The text that base64's padded URL-safe engine produces for `bytes`.
pub uninterp spec fn url_safe_encoded(bytes: Seq<u8>) -> Seq<char>;

/// A character of the URL-safe base64 alphabet (padding excluded).
pub open spec fn is_url_safe_char(c: char) -> bool {
    ('A' <= c && c <= 'Z') || ('a' <= c && c <= 'z') || ('0' <= c && c <= '9') || c == '-' || c
        == '_'
}

/// Whole groups of four characters of the URL-safe alphabet, unpadded.
pub open spec fn is_whole_groups(text: Seq<char>) -> bool {
    text.len() % 4 == 0 && forall|i: int| 0 <= i < text.len() ==> is_url_safe_char(#[trigger] text[i])
}

/// Some byte sequence encodes to `text`.
pub open spec fn is_url_safe_encoding(text: Seq<char>) -> bool {
    exists|b: Seq<u8>| #[trigger] url_safe_encoded(b) == text
}

/// base64's `DecodeError`, carried through unread.
#[verifier::external_type_specification]
#[verifier::external_body]
pub struct ExDecodeError(base64::DecodeError);

/// Relies on `Engine::encode` of base64's `URL_SAFE` engine: four characters
/// for each started group of three bytes, padded with `=`, drawn from the
/// URL-safe alphabet; distinct inputs give distinct texts. It panics only
/// when the encoded length overflows `usize`, which no slice can reach.
#[verifier::external_body]
pub(crate) fn url_safe_encode(bytes: &[u8]) -> (r: String)
    ensures
        r@ == url_safe_encoded(bytes@),
        r@.len() == 4 * ((bytes@.len() + 2) / 3),
        bytes@.len() % 3 == 0 ==> forall|i: int|
            0 <= i < r@.len() ==> is_url_safe_char(#[trigger] r@[i]),
        forall|other: Seq<u8>| #[trigger] url_safe_encoded(other) == r@ ==> other == bytes@,
{
    URL_SAFE.encode(bytes)
}

/// Relies on `Engine::decode` of base64's `URL_SAFE` engine, which requires
/// canonical padding and rejects trailing bits: it succeeds exactly on the
/// texts that the engine's encoder produces, with the bytes they encode. A
/// text of whole groups of four alphabet characters (no padding, so no
/// trailing bits) decodes to three bytes per group.
#[verifier::external_body]
pub(crate) fn url_safe_decode(text: &str) -> (r: Result<Vec<u8>, base64::DecodeError>)
    ensures
        r matches Ok(v) ==> forall|b: Seq<u8>| #[trigger] url_safe_encoded(b) == text@ <==> b == v@,
        r is Err ==> !is_url_safe_encoding(text@),
        is_whole_groups(text@) ==> (r is Ok && r->Ok_0@.len() == text@.len() / 4 * 3),
{
    URL_SAFE.decode(text)
}

} // verus!
