//! Opaque binary payloads and their text encoding.

use vstd::prelude::*;
use crate::codec::{is_url_safe_encoding, url_safe_decode, url_safe_encode, url_safe_encoded};
use crate::identifier::TypeConversionError;

verus! {

/// The bytes that `text` is the canonical encoding of, if any.
pub open spec fn decoded_blob(text: Seq<char>) -> Option<Seq<u8>> {
    if is_url_safe_encoding(text) {
        Some(choose|b: Seq<u8>| #[trigger] url_safe_encoded(b) == text)
    } else {
        None
    }
}

/// An arbitrary block of binary data.
#[derive(Debug, Clone)]
pub struct Blob(Vec<u8>);

/// A blob that may be absent.
pub type OptionalBlob = Option<Blob>;

impl View for Blob {
    type V = Seq<u8>;

    closed spec fn view(&self) -> Seq<u8> {
        self.0@
    }
}

impl Blob {
    /// The blob holding these bytes.
    pub fn from_vec(value: Vec<u8>) -> (r: Blob)
        ensures
            r@ == value@,
    {
        Blob(value)
    }

    /// The blob's bytes.
    pub fn as_bytes(&self) -> (r: &[u8])
        ensures
            r@ == self@,
    {
        self.0.as_slice()
    }

    /// The number of bytes in the blob.
    pub fn len(&self) -> (r: usize)
        ensures
            r == self@.len(),
    {
        self.0.len()
    }

    /// The canonical text form (URL-safe base64, padded), which decodes back
    /// to exactly these bytes.
    pub fn to_text(&self) -> (r: String)
        ensures
            r@ == url_safe_encoded(self@),
            r@.len() == 4 * ((self@.len() + 2) / 3),
            decoded_blob(r@) == Some(self@),
    {
        url_safe_encode(self.0.as_slice())
    }

    /// Decodes the canonical text form of a blob.
    pub fn try_from_str(value: &str) -> (r: Result<Blob, TypeConversionError>)
        ensures
            r is Ok <==> decoded_blob(value@) is Some,
            r matches Ok(b) ==> decoded_blob(value@) == Some(b@),
            r matches Err(e) ==> e is Decode,
    {
        match url_safe_decode(value) {
            Ok(bytes) => {
                assert(url_safe_encoded(bytes@) == value@);
                Ok(Blob(bytes))
            },
            Err(e) => Err(TypeConversionError::Decode(e)),
        }
    }
}

} // verus!
