//! Fixed-width identifiers and their canonical text form.

use vstd::prelude::*;
use rand::Rng;
use crate::codec::{url_safe_decode, url_safe_encode, url_safe_encoded, is_url_safe_encoding};

verus! {

/// The number of bytes in an identifier.
pub const IDENTIFIER_LEN: usize = 24;

/// The identifier bytes that `text` is the canonical form of, if any.
pub open spec fn decoded_identifier(text: Seq<char>) -> Option<Seq<u8>> {
    if exists|b: Seq<u8>| b.len() == IDENTIFIER_LEN && #[trigger] url_safe_encoded(b) == text {
        Some(choose|b: Seq<u8>| b.len() == IDENTIFIER_LEN && #[trigger] url_safe_encoded(b) == text)
    } else {
        None
    }
}

/// The raw bytes of an identifier.
pub type UUID = [u8; 24];

/// Why bytes or text could not become an identifier.
#[derive(Debug)]
pub enum TypeConversionError {
    /// The bytes were not 24 long; the length found.
    InvalidLength(usize),
    /// The text was not canonical URL-safe base64.
    Decode(base64::DecodeError),
}

/// A 24 byte (192 bit) identifier, locally unique by convention.
#[derive(Debug, Clone, Copy, PartialEq, Eq)]
pub struct Identifier {
    bytes: UUID,
}

impl View for Identifier {
    type V = Seq<u8>;

    closed spec fn view(&self) -> Seq<u8> {
        self.bytes@
    }
}

/// Relies on rand's `thread_rng().gen::<[u8; 24]>()`: bytes from the
/// thread-local generator, of which nothing more is promised.
#[verifier::external_body]
fn random_uuid() -> (r: UUID) {
    rand::thread_rng().gen::<UUID>()
}

impl Default for Identifier {
    /// A new random identifier.
    fn default() -> (r: Identifier)
        ensures
            r@.len() == IDENTIFIER_LEN,
    {
        Identifier::new()
    }
}

impl Identifier {
    /// Every identifier holds exactly 24 bytes.
    pub proof fn lemma_len(&self)
        ensures
            self@.len() == IDENTIFIER_LEN,
    {
    }

    /// Generates a new random identifier.
    pub fn new() -> (r: Identifier)
        ensures
            r@.len() == IDENTIFIER_LEN,
    {
        Identifier::from_uuid(random_uuid())
    }

    /// The identifier with these bytes.
    pub fn from_uuid(value: UUID) -> (r: Identifier)
        ensures
            r@ == value@,
    {
        Identifier { bytes: value }
    }

    /// The identifier's bytes.
    pub fn to_uuid(&self) -> (r: UUID)
        ensures
            r@ == self@,
    {
        self.bytes
    }

    /// The identifier with these bytes, if there are exactly 24 of them.
    pub fn try_from_vec(value: Vec<u8>) -> (r: Result<Identifier, TypeConversionError>)
        ensures
            value@.len() == IDENTIFIER_LEN <==> r is Ok,
            r matches Ok(id) ==> id@ == value@,
            r matches Err(e) ==> e matches TypeConversionError::InvalidLength(n) && n == value@.len(),
    {
        if value.len() != IDENTIFIER_LEN {
            return Err(TypeConversionError::InvalidLength(value.len()));
        }
        let mut bytes: UUID = [0u8; 24];
        for i in 0..IDENTIFIER_LEN
            invariant
                value@.len() == IDENTIFIER_LEN,
                forall|j: int| 0 <= j < i ==> bytes@[j] == value@[j],
        {
            bytes[i] = value[i];
        }
        assert(bytes@ =~= value@);
        Ok(Identifier { bytes })
    }

    /// Decodes the canonical text form of an identifier.
    pub fn try_from_str(value: &str) -> (r: Result<Identifier, TypeConversionError>)
        ensures
            r is Ok <==> decoded_identifier(value@) is Some,
            value@.len() == 32 && (forall|i: int|
                0 <= i < 32 ==> crate::codec::is_url_safe_char(#[trigger] value@[i])) ==> r is Ok,
            r matches Ok(id) ==> decoded_identifier(value@) == Some(id@),
            r matches Err(TypeConversionError::Decode(_)) <==> !is_url_safe_encoding(value@),
            r matches Err(TypeConversionError::InvalidLength(n)) ==> exists|b: Seq<u8>|
                b.len() == n && n != IDENTIFIER_LEN && #[trigger] url_safe_encoded(b) == value@,
    {
        match url_safe_decode(value) {
            Err(e) => Err(TypeConversionError::Decode(e)),
            Ok(bytes) => {
                assert(url_safe_encoded(bytes@) == value@);
                Identifier::try_from_vec(bytes)
            },
        }
    }

    /// The canonical text form: 32 characters of the URL-safe base64
    /// alphabet, which decode to this identifier's bytes and no others.
    pub fn to_text(&self) -> (r: String)
        ensures
            r@ == url_safe_encoded(self@),
            r@.len() == 32,
            forall|i: int| 0 <= i < 32 ==> crate::codec::is_url_safe_char(#[trigger] r@[i]),
            forall|b: Seq<u8>| #[trigger] url_safe_encoded(b) == r@ <==> b == self@,
            decoded_identifier(r@) == Some(self@),
    {
        url_safe_encode(self.bytes.as_slice())
    }
}

} // verus!
