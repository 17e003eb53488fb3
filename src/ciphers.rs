//! Ciphertexts with and without signatures.

use vstd::prelude::*;
use crate::blob::Blob;

verus! {

/// A signed ciphertext in text form.
#[derive(Debug, Clone)]
pub struct SignedStringCipher {
    /// Encrypted data.
    pub ciphertext: String,
    /// A digital signature.
    pub signature: String,
}

/// A ciphertext in text form that might be signed.
#[derive(Debug, Clone)]
pub struct SignableStringCipher {
    /// Encrypted data.
    pub ciphertext: String,
    /// An optional digital signature.
    pub signature: Option<String>,
}

/// A signed binary ciphertext.
#[derive(Debug, Clone)]
pub struct SignedBlobCipher {
    /// Encrypted data.
    pub ciphertext: Blob,
    /// A digital signature.
    pub signature: Blob,
}

/// A binary ciphertext that might be signed.
#[derive(Debug, Clone)]
pub struct SignableBlobCipher {
    /// Encrypted data.
    pub ciphertext: Blob,
    /// An optional digital signature.
    pub signature: Option<Blob>,
}

} // verus!
