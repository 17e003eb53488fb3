//! Reports about problematic data.

use vstd::prelude::*;
use crate::identifier::Identifier;

verus! {

/// A report made concerning problematic data.
#[derive(Debug, Clone)]
pub struct Report {
    /// The identifier of the problematic data.
    pub id: Identifier,
    /// The decryption key for the problematic data.
    pub key: String,
    /// An optional description of the problem.
    pub comment: Option<String>,
}

} // verus!
