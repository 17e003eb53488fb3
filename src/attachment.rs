//! Attachments of a letter: embedded, remote and local.

use vstd::prelude::*;
use crate::address::Address;
use crate::blob::Blob;
use crate::identifier::Identifier;
use crate::labels::Labels;

verus! {

/// A sealed attachment that was provided as part of a letter.
#[derive(Debug, Clone)]
pub struct EmbeddedAttachment {
    /// A locally unique identifier for this attachment.
    pub id: Identifier,
    /// The declared size of the attachment.
    pub size: u64,
    /// Any attachment labels.
    pub labels: Labels,
    /// The encrypted attachment data.
    pub data: Blob,
    /// A digital signature for the attachment.
    pub signature: Option<Blob>,
}

/// A sealed attachment that is known to exist only on a remote host.
#[derive(Debug, Clone)]
pub struct RemoteAttachment {
    /// A locally unique identifier for this attachment.
    pub id: Identifier,
    /// The globally unique address of the attachment.
    pub address: Address,
    /// The declared size of the attachment.
    pub size: u64,
    /// Any attachment labels.
    pub labels: Labels,
    /// A digital signature for the attachment.
    pub signature: Option<Blob>,
}

/// A sealed attachment that exists on the local host.
#[derive(Debug, Clone)]
pub struct LocalAttachment {
    /// A locally unique identifier for this attachment.
    pub id: Identifier,
    /// The globally unique address where the attachment came from.
    pub address: Address,
    /// The declared size of the attachment.
    pub size: u64,
    /// Any attachment labels.
    pub labels: Labels,
    /// The encrypted attachment data.
    pub data: Blob,
    /// A digital signature for the attachment.
    pub signature: Option<Blob>,
}

/// Any one of the three shapes of attachment.
#[derive(Debug, Clone)]
pub enum Attachment {
    Embedded(EmbeddedAttachment),
    Remote(RemoteAttachment),
    Local(LocalAttachment),
}

impl Attachment {
    /// The attachment's identifier.
    pub fn id(&self) -> (r: &Identifier)
        ensures
            r == match self {
                Attachment::Embedded(a) => &a.id,
                Attachment::Remote(a) => &a.id,
                Attachment::Local(a) => &a.id,
            },
    {
        match self {
            Attachment::Embedded(a) => &a.id,
            Attachment::Remote(a) => &a.id,
            Attachment::Local(a) => &a.id,
        }
    }

    /// The attachment's declared size.
    pub fn size(&self) -> (r: u64)
        ensures
            r == match self {
                Attachment::Embedded(a) => a.size,
                Attachment::Remote(a) => a.size,
                Attachment::Local(a) => a.size,
            },
    {
        match self {
            Attachment::Embedded(a) => a.size,
            Attachment::Remote(a) => a.size,
            Attachment::Local(a) => a.size,
        }
    }

    /// The attachment's labels.
    pub fn labels(&self) -> (r: &Labels)
        ensures
            r == match self {
                Attachment::Embedded(a) => &a.labels,
                Attachment::Remote(a) => &a.labels,
                Attachment::Local(a) => &a.labels,
            },
    {
        match self {
            Attachment::Embedded(a) => &a.labels,
            Attachment::Remote(a) => &a.labels,
            Attachment::Local(a) => &a.labels,
        }
    }

    /// The attachment's signature, if it is signed.
    pub fn signature(&self) -> (r: &Option<Blob>)
        ensures
            r == match self {
                Attachment::Embedded(a) => &a.signature,
                Attachment::Remote(a) => &a.signature,
                Attachment::Local(a) => &a.signature,
            },
    {
        match self {
            Attachment::Embedded(a) => &a.signature,
            Attachment::Remote(a) => &a.signature,
            Attachment::Local(a) => &a.signature,
        }
    }
}

/// The attachments of a letter.
#[derive(Debug, Clone)]
pub struct LetterAttachments {
    /// All embedded attachments for a letter.
    pub embedded: Vec<EmbeddedAttachment>,
    /// All remote attachments for a letter.
    pub remote: Vec<RemoteAttachment>,
}

impl LetterAttachments {
    /// Every embedded and every remote attachment carries a signature.
    pub open spec fn spec_all_signed(&self) -> bool {
        &&& forall|i: int| 0 <= i < self.embedded@.len() ==> (#[trigger] self.embedded@[i]).signature is Some
        &&& forall|i: int| 0 <= i < self.remote@.len() ==> (#[trigger] self.remote@[i]).signature is Some
    }

    /// Whether every embedded and every remote attachment carries a signature.
    pub fn all_signed(&self) -> (r: bool)
        ensures
            r == self.spec_all_signed(),
    {
        let mut i: usize = 0;
        while i < self.embedded.len()
            invariant
                i <= self.embedded@.len(),
                forall|j: int| 0 <= j < i ==> (#[trigger] self.embedded@[j]).signature is Some,
            decreases self.embedded@.len() - i,
        {
            if self.embedded[i].signature.is_none() {
                return false;
            }
            i = i + 1;
        }
        let mut i: usize = 0;
        while i < self.remote.len()
            invariant
                i <= self.remote@.len(),
                forall|j: int| 0 <= j < self.embedded@.len() ==> (#[trigger] self.embedded@[j]).signature is Some,
                forall|j: int| 0 <= j < i ==> (#[trigger] self.remote@[j]).signature is Some,
            decreases self.remote@.len() - i,
        {
            if self.remote[i].signature.is_none() {
                return false;
            }
            i = i + 1;
        }
        true
    }

    /// Whether no embedded attachment declares more than `max` bytes.
    pub fn embedded_within(&self, max: u64) -> (r: bool)
        ensures
            r == forall|i: int| 0 <= i < self.embedded@.len() ==> (#[trigger] self.embedded@[i]).size <= max,
    {
        let mut i: usize = 0;
        while i < self.embedded.len()
            invariant
                i <= self.embedded@.len(),
                forall|j: int| 0 <= j < i ==> (#[trigger] self.embedded@[j]).size <= max,
            decreases self.embedded@.len() - i,
        {
            if self.embedded[i].size > max {
                return false;
            }
            i = i + 1;
        }
        true
    }

    /// Whether no remote attachment declares more than `max` bytes.
    pub fn remote_within(&self, max: u64) -> (r: bool)
        ensures
            r == forall|i: int| 0 <= i < self.remote@.len() ==> (#[trigger] self.remote@[i]).size <= max,
    {
        let mut i: usize = 0;
        while i < self.remote.len()
            invariant
                i <= self.remote@.len(),
                forall|j: int| 0 <= j < i ==> (#[trigger] self.remote@[j]).size <= max,
            decreases self.remote@.len() - i,
        {
            if self.remote[i].size > max {
                return false;
            }
            i = i + 1;
        }
        true
    }
}

} // verus!
