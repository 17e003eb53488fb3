//! What the mail service does on receiving and on sending a letter.

use vstd::prelude::*;
use crate::address::Address;
use crate::attachment::{EmbeddedAttachment, LetterAttachments, RemoteAttachment};
use crate::blob::Blob;
use crate::configuration::MailConfiguration;
use crate::identifier::Identifier;
use crate::labels::TextMap;
use crate::letter::SealedLetter;
use crate::state::{CounterError, MailState};
use crate::validation::{rejection, validate_letter, Rejection, ReceiveMailError};

verus! {

/// The host named in the sample letter.
pub const SAMPLE_HOST: &'static str = "example.com";

/// Why a letter could not be sent.
#[derive(Debug, Clone, Copy, PartialEq, Eq, Structural)]
pub enum SendMailError {
    /// The sent-letters counter could not be advanced.
    Increment(CounterError),
}

/// Checks a letter against the policy and, when it passes, counts it as
/// received; the count after it.
pub fn receive_mail(letter: &SealedLetter, configuration: &MailConfiguration, state: &MailState) -> (r: Result<u64, ReceiveMailError>)
    ensures
        rejection(*letter, *configuration) matches Some(reason) ==> r matches Err(e) && e@ == reason,
        rejection(*letter, *configuration) is None ==> (r matches Ok(n) ==> n >= 1),
        rejection(*letter, *configuration) is None ==> (r matches Err(e) ==> e@ == Rejection::Increment),
{
    match validate_letter(letter, configuration) {
        Err(e) => Err(e),
        Ok(()) => match state.increment_received() {
            Ok(n) => Ok(n),
            Err(e) => Err(ReceiveMailError::Increment(e)),
        },
    }
}

fn sample_address() -> (r: Address)
    ensures
        r.host@ == SAMPLE_HOST@,
{
    Address { id: Identifier::new(), host: String::from_str(SAMPLE_HOST) }
}

fn empty_blob() -> (r: Blob)
    ensures
        r@.len() == 0,
{
    Blob::from_vec(Vec::new())
}

/// A letter from and to `example.com` with one signed embedded attachment,
/// one signed remote attachment, and an empty signed subject and body. Any
/// policy that requires no labels and allows one recipient and one
/// attachment of each kind accepts it.
pub fn sample_letter() -> (r: SealedLetter)
    ensures
        r.sender matches Some(s) && s.host@ == SAMPLE_HOST@,
        r.recipients@.len() == 1 && r.recipients@[0].host@ == SAMPLE_HOST@,
        r.attachments matches Some(a) && a.embedded@.len() == 1 && a.remote@.len() == 1
            && a.spec_all_signed(),
        r.labels@.len() == 0,
        r.subject matches Some(s) && s@.len() == 0,
        r.body matches Some(b) && b@.len() == 0,
        r.signature is Some,
        forall|c: MailConfiguration|
            c.require.labels@.len() == 0 && c.limit.recipients >= 1 && c.limit.embedded_attachments
                >= 1 && c.limit.remote_attachments >= 1 ==> #[trigger] rejection(r, c) is None,
{
    let embedded = EmbeddedAttachment {
        id: Identifier::new(),
        size: 0,
        labels: TextMap::new(),
        data: empty_blob(),
        signature: Some(empty_blob()),
    };
    let remote = RemoteAttachment {
        id: Identifier::new(),
        address: sample_address(),
        size: 0,
        labels: TextMap::new(),
        signature: Some(empty_blob()),
    };
    let mut embedded_list: Vec<EmbeddedAttachment> = Vec::new();
    embedded_list.push(embedded);
    let mut remote_list: Vec<RemoteAttachment> = Vec::new();
    remote_list.push(remote);
    let mut recipients: Vec<Address> = Vec::new();
    recipients.push(sample_address());
    let r = SealedLetter {
        id: Identifier::new(),
        sender: Some(sample_address()),
        recipients,
        attachments: Some(LetterAttachments { embedded: embedded_list, remote: remote_list }),
        labels: TextMap::new(),
        subject: Some(empty_blob()),
        body: Some(empty_blob()),
        signature: Some(empty_blob()),
    };
    assert forall|c: MailConfiguration|
        c.require.labels@.len() == 0 && c.limit.recipients >= 1 && c.limit.embedded_attachments
            >= 1 && c.limit.remote_attachments >= 1 implies #[trigger] rejection(r, c) is None by {
        assert(c.require.required_labels() =~= Seq::<Seq<char>>::empty());
    }
    r
}

/// Counts one more sent letter and hands back the sample letter.
pub fn send_mail(state: &MailState) -> (r: Result<SealedLetter, SendMailError>)
    ensures
        r matches Ok(l) ==> l.sender matches Some(s) && s.host@ == SAMPLE_HOST@,
        r matches Ok(l) ==> l.recipients@.len() == 1 && l.recipients@[0].host@ == SAMPLE_HOST@,
        r matches Ok(l) ==> l.attachments matches Some(a) && a.embedded@.len() == 1
            && a.remote@.len() == 1 && a.spec_all_signed(),
        r matches Ok(l) ==> l.labels@.len() == 0,
        r matches Ok(l) ==> l.subject matches Some(s) && s@.len() == 0,
        r matches Ok(l) ==> l.body matches Some(b) && b@.len() == 0,
        r matches Ok(l) ==> l.signature is Some,
        r matches Ok(l) ==> forall|c: MailConfiguration|
            c.require.labels@.len() == 0 && c.limit.recipients >= 1 && c.limit.embedded_attachments
                >= 1 && c.limit.remote_attachments >= 1 ==> #[trigger] rejection(l, c) is None,
        r matches Err(e) ==> e == SendMailError::Increment(CounterError::Exhausted),
{
    match state.increment_sent() {
        Ok(_) => Ok(sample_letter()),
        Err(e) => Err(SendMailError::Increment(e)),
    }
}

} // verus!
