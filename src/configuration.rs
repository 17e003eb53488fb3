//! The acceptance policy for incoming letters.

use vstd::prelude::*;

verus! {

/// The views of a sequence of strings.
pub open spec fn strings_view(v: Seq<String>) -> Seq<Seq<char>> {
    v.map_values(|s: String| s@)
}

/// What a letter may lack and still be accepted.
#[derive(Debug, Clone, Copy, PartialEq, Eq)]
pub struct MailAccept {
    /// Whether to accept letters without a return address.
    pub anonymous_sender: bool,
    /// Whether to accept unsigned letters.
    pub unsigned: bool,
    /// Whether to accept unsigned letter attachments.
    pub unsigned_attachments: bool,
}

impl Default for MailAccept {
    /// Accepts anonymous senders, unsigned letters and unsigned attachments.
    fn default() -> (r: Self)
        ensures
            r.anonymous_sender && r.unsigned && r.unsigned_attachments,
    {
        MailAccept { anonymous_sender: true, unsigned: true, unsigned_attachments: true }
    }
}

/// What a letter must hold to be accepted.
#[derive(Debug, Clone)]
pub struct MailRequire {
    /// Require letters to possess a subject line.
    pub subject: bool,
    /// Require letters to possess a body.
    pub body: bool,
    /// The label keys that must be present.
    pub labels: Vec<String>,
}

impl MailRequire {
    /// The mandatory label keys.
    pub open spec fn required_labels(&self) -> Seq<Seq<char>> {
        strings_view(self.labels@)
    }
}

impl Default for MailRequire {
    /// Requires nothing.
    fn default() -> (r: Self)
        ensures
            !r.subject && !r.body && r.labels@.len() == 0,
    {
        MailRequire { subject: false, body: false, labels: Vec::new() }
    }
}

/// Ceilings on the size of a letter.
#[derive(Debug, Clone, Copy, PartialEq, Eq)]
pub struct MailLimit {
    /// The maximum number of letter recipients.
    pub recipients: u64,
    /// The maximum subject line size in bytes.
    pub subject_size: u64,
    /// The maximum body size in bytes.
    pub body_size: u64,
    /// The maximum number of embedded attachments.
    pub embedded_attachments: u64,
    /// The maximum size in bytes of an embedded attachment.
    pub embedded_attachment_size: u64,
    /// The maximum number of remote attachments.
    pub remote_attachments: u64,
    /// The maximum size in bytes of a remote attachment.
    pub remote_attachment_size: u64,
    /// The maximum number of labels a letter can have.
    pub labels: u64,
}

impl Default for MailLimit {
    /// 100 recipients, a 1 KiB subject, a 256 KiB body, 100 embedded
    /// attachments of 256 KiB each, 100 remote attachments of 512 MiB each,
    /// and 1000 labels.
    fn default() -> (r: Self)
        ensures
            r.recipients == 100,
            r.subject_size == 1024,
            r.body_size == 262144,
            r.embedded_attachments == 100,
            r.embedded_attachment_size == 262144,
            r.remote_attachments == 100,
            r.remote_attachment_size == 536870912,
            r.labels == 1000,
    {
        MailLimit {
            recipients: 100,
            subject_size: 1024,
            body_size: 262144,
            embedded_attachments: 100,
            embedded_attachment_size: 262144,
            remote_attachments: 100,
            remote_attachment_size: 536870912,
            labels: 1000,
        }
    }
}

/// The acceptance policy: what is accepted, required and limited.
#[derive(Debug, Clone)]
pub struct MailConfiguration {
    /// Accepted mail data.
    pub accept: MailAccept,
    /// Required mail data.
    pub require: MailRequire,
    /// Limitations for letters.
    pub limit: MailLimit,
}

impl Default for MailConfiguration {
    /// The default of each of the three parts.
    fn default() -> (r: Self)
        ensures
            r.accept.anonymous_sender && r.accept.unsigned && r.accept.unsigned_attachments,
            !r.require.subject && !r.require.body && r.require.labels@.len() == 0,
            r.limit.recipients == 100,
            r.limit.subject_size == 1024,
            r.limit.body_size == 262144,
            r.limit.embedded_attachments == 100,
            r.limit.embedded_attachment_size == 262144,
            r.limit.remote_attachments == 100,
            r.limit.remote_attachment_size == 536870912,
            r.limit.labels == 1000,
    {
        MailConfiguration {
            accept: MailAccept::default(),
            require: MailRequire::default(),
            limit: MailLimit::default(),
        }
    }
}

} // verus!
