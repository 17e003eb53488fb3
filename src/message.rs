//! The plain letter and command line of the webmail client.

use vstd::prelude::*;
use crate::command::Verbosity;
use crate::labels::TextMap;

verus! {

/// A letter as the webmail client receives it.
#[derive(Debug, Clone)]
pub struct Letter {
    /// The unique identifier of the letter.
    pub id: String,
    /// The return address for the letter.
    pub sender: Option<String>,
    /// The destination addresses for the letter.
    pub recipients: Vec<String>,
    /// The subject line of the letter.
    pub subject: Option<String>,
    /// The content of the letter.
    pub body: Option<String>,
    /// All attachments: a content identifier and a link to a remote resource.
    pub attachments: Option<TextMap>,
    /// Any labels added to the letter.
    pub labels: Option<TextMap>,
}

/// The webmail client's command line.
#[derive(Debug, Clone, Copy)]
pub struct Arguments {
    pub verbosity: Verbosity,
}

} // verus!
