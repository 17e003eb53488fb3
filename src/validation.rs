//! Checks a sealed letter against the acceptance policy.

use vstd::prelude::*;
use crate::attachment::{EmbeddedAttachment, LetterAttachments, RemoteAttachment};
use crate::configuration::{strings_view, MailConfiguration};
use crate::labels::Labels;
use crate::letter::SealedLetter;
use crate::state::CounterError;

verus! {

/// The keys of `required` that `present` lacks, each once, in the order of
/// their first place in `required`.
pub open spec fn missing_labels(required: Seq<Seq<char>>, present: Set<Seq<char>>) -> Seq<Seq<char>>
    decreases required.len(),
{
    if required.len() == 0 {
        Seq::empty()
    } else {
        let rest = missing_labels(required.drop_last(), present);
        if present.contains(required.last()) || rest.contains(required.last()) {
            rest
        } else {
            rest.push(required.last())
        }
    }
}

/// The embedded attachments of an optional collection.
pub open spec fn embedded_of(a: Option<LetterAttachments>) -> Seq<EmbeddedAttachment> {
    match a {
        Some(a) => a.embedded@,
        None => Seq::empty(),
    }
}

/// The remote attachments of an optional collection.
pub open spec fn remote_of(a: Option<LetterAttachments>) -> Seq<RemoteAttachment> {
    match a {
        Some(a) => a.remote@,
        None => Seq::empty(),
    }
}

/// Some embedded or remote attachment lacks a signature.
pub open spec fn has_unsigned_attachment(a: Option<LetterAttachments>) -> bool {
    a matches Some(a) && !a.spec_all_signed()
}

/// Why a letter is refused, as a value of the model.
pub enum Rejection {
    NoRecipients,
    TooManyRecipients,
    AnonymousSender,
    Unsigned,
    UnsignedAttachments,
    TooManyEmbeddedAttachments,
    EmbeddedAttachmentTooLarge,
    TooManyRemoteAttachments,
    RemoteAttachmentTooLarge,
    NoSubject,
    SubjectTooLarge,
    NoBody,
    BodyTooLarge,
    MissingLabels(Seq<Seq<char>>),
    TooManyLabels,
    Increment,
}

/// The first rule of the policy that the letter breaks, in the fixed order
/// of evaluation, or `None` when it breaks none.
pub open spec fn rejection(letter: SealedLetter, config: MailConfiguration) -> Option<Rejection> {
    let limit = config.limit;
    let embedded = embedded_of(letter.attachments);
    let remote = remote_of(letter.attachments);
    let missing = missing_labels(config.require.required_labels(), letter.labels.keys());
    if letter.recipients@.len() == 0 {
        Some(Rejection::NoRecipients)
    } else if letter.recipients@.len() > limit.recipients {
        Some(Rejection::TooManyRecipients)
    } else if !config.accept.anonymous_sender && letter.sender is None {
        Some(Rejection::AnonymousSender)
    } else if !config.accept.unsigned && letter.signature is None {
        Some(Rejection::Unsigned)
    } else if !config.accept.unsigned_attachments && has_unsigned_attachment(letter.attachments) {
        Some(Rejection::UnsignedAttachments)
    } else if embedded.len() > limit.embedded_attachments {
        Some(Rejection::TooManyEmbeddedAttachments)
    } else if exists|i: int|
        0 <= i < embedded.len() && (#[trigger] embedded[i]).size > limit.embedded_attachment_size {
        Some(Rejection::EmbeddedAttachmentTooLarge)
    } else if remote.len() > limit.remote_attachments {
        Some(Rejection::TooManyRemoteAttachments)
    } else if exists|i: int|
        0 <= i < remote.len() && (#[trigger] remote[i]).size > limit.remote_attachment_size {
        Some(Rejection::RemoteAttachmentTooLarge)
    } else if config.require.subject && letter.subject is None {
        Some(Rejection::NoSubject)
    } else if letter.subject matches Some(s) && s@.len() > limit.subject_size {
        Some(Rejection::SubjectTooLarge)
    } else if config.require.body && letter.body is None {
        Some(Rejection::NoBody)
    } else if letter.body matches Some(b) && b@.len() > limit.body_size {
        Some(Rejection::BodyTooLarge)
    } else if missing.len() > 0 {
        Some(Rejection::MissingLabels(missing))
    } else if letter.labels@.len() > limit.labels {
        Some(Rejection::TooManyLabels)
    } else {
        None
    }
}

/// Why a letter was not received.
#[derive(Debug, Clone)]
pub enum ReceiveMailError {
    NoRecipients,
    TooManyRecipients,
    AnonymousSender,
    Unsigned,
    UnsignedAttachments,
    TooManyEmbeddedAttachments,
    EmbeddedAttachmentTooLarge,
    TooManyRemoteAttachments,
    RemoteAttachmentTooLarge,
    NoSubject,
    SubjectTooLarge,
    NoBody,
    BodyTooLarge,
    /// The mandatory label keys that the letter lacks.
    MissingLabels(Vec<String>),
    TooManyLabels,
    /// The received-letters counter could not be advanced.
    Increment(CounterError),
}

impl View for ReceiveMailError {
    type V = Rejection;

    open spec fn view(&self) -> Rejection {
        match self {
            ReceiveMailError::NoRecipients => Rejection::NoRecipients,
            ReceiveMailError::TooManyRecipients => Rejection::TooManyRecipients,
            ReceiveMailError::AnonymousSender => Rejection::AnonymousSender,
            ReceiveMailError::Unsigned => Rejection::Unsigned,
            ReceiveMailError::UnsignedAttachments => Rejection::UnsignedAttachments,
            ReceiveMailError::TooManyEmbeddedAttachments => Rejection::TooManyEmbeddedAttachments,
            ReceiveMailError::EmbeddedAttachmentTooLarge => Rejection::EmbeddedAttachmentTooLarge,
            ReceiveMailError::TooManyRemoteAttachments => Rejection::TooManyRemoteAttachments,
            ReceiveMailError::RemoteAttachmentTooLarge => Rejection::RemoteAttachmentTooLarge,
            ReceiveMailError::NoSubject => Rejection::NoSubject,
            ReceiveMailError::SubjectTooLarge => Rejection::SubjectTooLarge,
            ReceiveMailError::NoBody => Rejection::NoBody,
            ReceiveMailError::BodyTooLarge => Rejection::BodyTooLarge,
            ReceiveMailError::MissingLabels(m) => Rejection::MissingLabels(strings_view(m@)),
            ReceiveMailError::TooManyLabels => Rejection::TooManyLabels,
            ReceiveMailError::Increment(_) => Rejection::Increment,
        }
    }
}

impl ReceiveMailError {
    /// A message for the sender of the letter.
    pub fn message(&self) -> (r: String)
        ensures
            self is NoRecipients ==> r@ == "At least one recipient must be provided"@,
            self is TooManyRecipients ==> r@ == "The letter has too many recipients"@,
            self is AnonymousSender ==> r@ == "Anonymous senders are forbidden"@,
            self is Unsigned ==> r@ == "Unsigned letters are forbidden"@,
            self is UnsignedAttachments ==> r@ == "Unsigned attachments are forbidden"@,
            self is TooManyEmbeddedAttachments ==> r@ == "The letter has too many embedded attachments"@,
            self is EmbeddedAttachmentTooLarge ==> r@ == "An embedded attachment is too large"@,
            self is TooManyRemoteAttachments ==> r@ == "The letter has too many remote attachments"@,
            self is RemoteAttachmentTooLarge ==> r@ == "A remote attachment is too large"@,
            self is NoSubject ==> r@ == "A letter subject is required"@,
            self is SubjectTooLarge ==> r@ == "The letter subject is too large"@,
            self is NoBody ==> r@ == "A letter body is required"@,
            self is BodyTooLarge ==> r@ == "The letter body is too large"@,
            self is TooManyLabels ==> r@ == "The letter has too many labels"@,
            self matches ReceiveMailError::MissingLabels(m) ==> r@ == MISSING_LABELS_PREFIX@ + joined(
                strings_view(m@),
            ),
            self matches ReceiveMailError::Increment(e) ==> r@ == e.message_spec(),
    {
        match self {
            ReceiveMailError::NoRecipients => String::from_str("At least one recipient must be provided"),
            ReceiveMailError::TooManyRecipients => String::from_str("The letter has too many recipients"),
            ReceiveMailError::AnonymousSender => String::from_str("Anonymous senders are forbidden"),
            ReceiveMailError::Unsigned => String::from_str("Unsigned letters are forbidden"),
            ReceiveMailError::UnsignedAttachments => String::from_str("Unsigned attachments are forbidden"),
            ReceiveMailError::TooManyEmbeddedAttachments => String::from_str("The letter has too many embedded attachments"),
            ReceiveMailError::EmbeddedAttachmentTooLarge => String::from_str("An embedded attachment is too large"),
            ReceiveMailError::TooManyRemoteAttachments => String::from_str("The letter has too many remote attachments"),
            ReceiveMailError::RemoteAttachmentTooLarge => String::from_str("A remote attachment is too large"),
            ReceiveMailError::NoSubject => String::from_str("A letter subject is required"),
            ReceiveMailError::SubjectTooLarge => String::from_str("The letter subject is too large"),
            ReceiveMailError::NoBody => String::from_str("A letter body is required"),
            ReceiveMailError::BodyTooLarge => String::from_str("The letter body is too large"),
            ReceiveMailError::TooManyLabels => String::from_str("The letter has too many labels"),
            ReceiveMailError::MissingLabels(m) => {
                let mut r = String::from_str(MISSING_LABELS_PREFIX);
                let keys = join_keys(m);
                r.append(keys.as_str());
                r
            },
            ReceiveMailError::Increment(e) => e.message(),
        }
    }
    /// Whether the failure lies with the server rather than with the letter.
    pub fn is_internal(&self) -> (r: bool)
        ensures
            r == (self is Increment),
    {
        match self {
            ReceiveMailError::Increment(_) => true,
            _ => false,
        }
    }
}

/// What precedes the missing keys in the message that reports them.
pub const MISSING_LABELS_PREFIX: &'static str = "The following labels are required: ";

/// The keys separated by `, `.
pub open spec fn joined(keys: Seq<Seq<char>>) -> Seq<char>
    decreases keys.len(),
{
    if keys.len() == 0 {
        Seq::empty()
    } else if keys.len() == 1 {
        keys[0]
    } else {
        joined(keys.drop_last()) + ", "@ + keys.last()
    }
}

/// The keys separated by `, `.
pub fn join_keys(keys: &Vec<String>) -> (r: String)
    ensures
        r@ == joined(strings_view(keys@)),
{
    let mut r = String::new();
    let mut i: usize = 0;
    while i < keys.len()
        invariant
            i <= keys@.len(),
            r@ == joined(strings_view(keys@).take(i as int)),
        decreases keys@.len() - i,
    {
        let ghost prefix = strings_view(keys@).take(i + 1);
        assert(prefix.drop_last() =~= strings_view(keys@).take(i as int));
        assert(prefix.last() == keys@[i as int]@);
        if i > 0 {
            r.append(", ");
        } else {
            assert(r@ + keys@[i as int]@ =~= keys@[i as int]@);
        }
        r.append(keys[i].as_str());
        i = i + 1;
    }
    assert(strings_view(keys@).take(i as int) =~= strings_view(keys@));
    r
}

/// The outcome of checking a letter's labels.
#[derive(Debug, Clone)]
pub enum LabelsValidationResult {
    /// Nothing is required and the letter has no labels.
    Empty,
    /// The mandatory keys that are missing, in the order they are required.
    Invalid(Vec<String>),
    /// Every mandatory key is present.
    Valid,
}

/// The outcome of checking a letter's attachments for signatures.
#[derive(Debug, Clone, Copy, PartialEq, Eq, Structural)]
pub enum AttachmentValidationResult {
    /// There are no attachments.
    Empty,
    /// Some attachment is unsigned.
    Invalid,
    /// Every attachment is signed.
    Valid,
}

/// Whether `key` is one of `keys`.
fn contains_key_text(keys: &Vec<String>, key: &String) -> (r: bool)
    ensures
        r == strings_view(keys@).contains(key@),
{
    let mut i: usize = 0;
    while i < keys.len()
        invariant
            i <= keys@.len(),
            forall|j: int| 0 <= j < i ==> keys@[j]@ != key@,
        decreases keys@.len() - i,
    {
        if keys[i] == *key {
            assert(strings_view(keys@)[i as int] == key@);
            return true;
        }
        i = i + 1;
    }
    assert forall|j: int| 0 <= j < strings_view(keys@).len() implies strings_view(keys@)[j] != key@ by {
        assert(strings_view(keys@)[j] == keys@[j]@);
    }
    false
}

/// The keys of `required` that `labels` lacks, each once, in the order of
/// `required`.
pub fn missing_label_keys(required: &Vec<String>, labels: &Labels) -> (r: Vec<String>)
    ensures
        strings_view(r@) == missing_labels(strings_view(required@), labels.keys()),
{
    let mut missing: Vec<String> = Vec::new();
    let mut i: usize = 0;
    while i < required.len()
        invariant
            i <= required@.len(),
            strings_view(missing@) == missing_labels(strings_view(required@).take(i as int), labels.keys()),
        decreases required@.len() - i,
    {
        let ghost prefix = strings_view(required@).take(i + 1);
        assert(prefix.drop_last() =~= strings_view(required@).take(i as int));
        assert(prefix.last() == required@[i as int]@);
        if !labels.contains_key(required[i].as_str()) && !contains_key_text(&missing, &required[i]) {
            let key = required[i].clone();
            let ghost before = missing@;
            missing.push(key);
            assert(strings_view(missing@) =~= strings_view(before).push(required@[i as int]@));
        }
        i = i + 1;
    }
    assert(strings_view(required@).take(i as int) =~= strings_view(required@));
    missing
}

/// Checks that every mandatory label key is present.
pub fn validate_labels(required_labels: &Vec<String>, labels: &Labels) -> (r: LabelsValidationResult)
    ensures
        r is Empty <==> required_labels@.len() == 0 && labels@.len() == 0,
        r is Valid <==> !(required_labels@.len() == 0 && labels@.len() == 0) && missing_labels(
            strings_view(required_labels@),
            labels.keys(),
        ).len() == 0,
        r matches LabelsValidationResult::Invalid(m) ==> strings_view(m@) == missing_labels(
            strings_view(required_labels@),
            labels.keys(),
        ) && m@.len() > 0,
{
    if required_labels.len() == 0 && labels.is_empty() {
        return LabelsValidationResult::Empty;
    }
    let missing = missing_label_keys(required_labels, labels);
    if missing.len() == 0 {
        LabelsValidationResult::Valid
    } else {
        LabelsValidationResult::Invalid(missing)
    }
}

/// Checks that every embedded and remote attachment is signed.
pub fn validate_attachments(attachments: &Option<LetterAttachments>) -> (r: AttachmentValidationResult)
    ensures
        r == AttachmentValidationResult::Empty <==> embedded_of(*attachments).len() == 0 && remote_of(
            *attachments,
        ).len() == 0,
        r == AttachmentValidationResult::Invalid <==> has_unsigned_attachment(*attachments),
{
    match attachments {
        None => AttachmentValidationResult::Empty,
        Some(a) => {
            if a.embedded.len() == 0 && a.remote.len() == 0 {
                return AttachmentValidationResult::Empty;
            }
            if a.all_signed() {
                AttachmentValidationResult::Valid
            } else {
                AttachmentValidationResult::Invalid
            }
        },
    }
}

/// Checks a letter against the policy, rule by rule in the fixed order, and
/// reports the first rule it breaks.
pub fn validate_letter(letter: &SealedLetter, configuration: &MailConfiguration) -> (r: Result<(), ReceiveMailError>)
    ensures
        r is Ok <==> rejection(*letter, *configuration) is None,
        r matches Err(e) ==> rejection(*letter, *configuration) == Some(e@),
{
    let limit = &configuration.limit;
    if letter.recipients.len() == 0 {
        return Err(ReceiveMailError::NoRecipients);
    }
    if letter.recipients.len() as u64 > limit.recipients {
        return Err(ReceiveMailError::TooManyRecipients);
    }
    if !configuration.accept.anonymous_sender && letter.sender.is_none() {
        return Err(ReceiveMailError::AnonymousSender);
    }
    if !configuration.accept.unsigned && letter.signature.is_none() {
        return Err(ReceiveMailError::Unsigned);
    }
    if !configuration.accept.unsigned_attachments {
        if validate_attachments(&letter.attachments) == AttachmentValidationResult::Invalid {
            return Err(ReceiveMailError::UnsignedAttachments);
        }
    }
    if let Some(a) = &letter.attachments {
        if a.embedded.len() as u64 > limit.embedded_attachments {
            return Err(ReceiveMailError::TooManyEmbeddedAttachments);
        }
        if !a.embedded_within(limit.embedded_attachment_size) {
            return Err(ReceiveMailError::EmbeddedAttachmentTooLarge);
        }
        if a.remote.len() as u64 > limit.remote_attachments {
            return Err(ReceiveMailError::TooManyRemoteAttachments);
        }
        if !a.remote_within(limit.remote_attachment_size) {
            return Err(ReceiveMailError::RemoteAttachmentTooLarge);
        }
    }
    match &letter.subject {
        None => {
            if configuration.require.subject {
                return Err(ReceiveMailError::NoSubject);
            }
        },
        Some(s) => {
            if s.len() as u64 > limit.subject_size {
                return Err(ReceiveMailError::SubjectTooLarge);
            }
        },
    }
    match &letter.body {
        None => {
            if configuration.require.body {
                return Err(ReceiveMailError::NoBody);
            }
        },
        Some(b) => {
            if b.len() as u64 > limit.body_size {
                return Err(ReceiveMailError::BodyTooLarge);
            }
        },
    }
    let missing = missing_label_keys(&configuration.require.labels, &letter.labels);
    if missing.len() > 0 {
        return Err(ReceiveMailError::MissingLabels(missing));
    }
    if letter.labels.len() as u64 > limit.labels {
        return Err(ReceiveMailError::TooManyLabels);
    }
    Ok(())
}

} // verus!

verus! {

/// A letter without recipients is refused for that reason, whatever else it
/// holds and whatever the policy says.
pub proof fn lemma_no_recipients_first(letter: SealedLetter, config: MailConfiguration)
    requires
        letter.recipients@.len() == 0,
    ensures
        rejection(letter, config) == Some(Rejection::NoRecipients),
{
}

/// Where anonymous senders are refused, a letter with one recipient and no
/// sender is refused as anonymous, before its signature, attachments,
/// subject, body or labels are looked at (given a policy that allows one
/// recipient).
pub proof fn lemma_anonymous_sender_before_content(letter: SealedLetter, config: MailConfiguration)
    requires
        !config.accept.anonymous_sender,
        letter.sender is None,
        letter.recipients@.len() == 1,
        config.limit.recipients >= 1,
    ensures
        rejection(letter, config) == Some(Rejection::AnonymousSender),
{
}

} // verus!

verus! {

/// With no label keys present, every mandatory key is missing, in order
/// (for mandatory keys listed once each).
pub proof fn lemma_missing_labels_all(required: Seq<Seq<char>>)
    requires
        required.no_duplicates(),
    ensures
        missing_labels(required, Set::empty()) == required,
    decreases required.len(),
{
    if required.len() > 0 {
        let rest = required.drop_last();
        assert(rest.no_duplicates());
        lemma_missing_labels_all(rest);
        assert(!rest.contains(required.last())) by {
            if rest.contains(required.last()) {
                let i = choose|i: int| 0 <= i < rest.len() && rest[i] == required.last();
                assert(required[i] == required[required.len() - 1]);
            }
        }
        assert(rest.push(required.last()) =~= required);
    }
}

/// No key is reported missing twice.
pub proof fn lemma_missing_labels_unique(required: Seq<Seq<char>>, present: Set<Seq<char>>)
    ensures
        missing_labels(required, present).no_duplicates(),
    decreases required.len(),
{
    if required.len() > 0 {
        let rest = missing_labels(required.drop_last(), present);
        lemma_missing_labels_unique(required.drop_last(), present);
        if !(present.contains(required.last()) || rest.contains(required.last())) {
            let m = rest.push(required.last());
            assert forall|i: int, j: int| 0 <= i < m.len() && 0 <= j < m.len() && i != j implies m[i] != m[j] by {
                if i < rest.len() && j < rest.len() {
                    assert(m[i] == rest[i] && m[j] == rest[j]);
                } else if i < rest.len() {
                    assert(m[i] == rest[i]);
                } else {
                    assert(m[j] == rest[j]);
                }
            }
        }
    }
}

/// When every mandatory key is present, none is missing, whatever other keys
/// there are.
pub proof fn lemma_missing_labels_none(required: Seq<Seq<char>>, present: Set<Seq<char>>)
    requires
        forall|i: int| 0 <= i < required.len() ==> present.contains(#[trigger] required[i]),
    ensures
        missing_labels(required, present).len() == 0,
    decreases required.len(),
{
    if required.len() > 0 {
        let rest = required.drop_last();
        assert forall|i: int| 0 <= i < rest.len() implies present.contains(#[trigger] rest[i]) by {
            assert(rest[i] == required[i]);
        }
        lemma_missing_labels_none(rest, present);
        assert(present.contains(required[required.len() - 1]));
    }
}

/// The missing keys are the mandatory keys less the keys present.
pub proof fn lemma_missing_labels_difference(required: Seq<Seq<char>>, present: Set<Seq<char>>)
    ensures
        missing_labels(required, present).to_set() == required.to_set().difference(present),
    decreases required.len(),
{
    broadcast use vstd::seq_lib::group_seq_properties;

    if required.len() == 0 {
        assert(missing_labels(required, present).to_set() =~= required.to_set().difference(present));
    } else {
        let rest = required.drop_last();
        lemma_missing_labels_difference(rest, present);
        assert(rest.push(required.last()) =~= required);
        assert(required.to_set() =~= rest.to_set().insert(required.last()));
        let missing_rest = missing_labels(rest, present);
        if present.contains(required.last()) || missing_rest.contains(required.last()) {
            assert(missing_labels(required, present) == missing_rest);
            if missing_rest.contains(required.last()) {
                assert(missing_rest.to_set().contains(required.last()));
            }
        } else {
            assert(missing_labels(required, present) == missing_rest.push(required.last()));
            assert(missing_rest.push(required.last()).to_set() =~= missing_rest.to_set().insert(
                required.last(),
            ));
        }
        assert(missing_labels(required, present).to_set() =~= required.to_set().difference(present));
    }
}

} // verus!
