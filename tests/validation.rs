use sealed_mail::address::Address;
use sealed_mail::attachment::{EmbeddedAttachment, LetterAttachments, RemoteAttachment};
use sealed_mail::blob::Blob;
use sealed_mail::configuration::{MailAccept, MailConfiguration, MailLimit, MailRequire};
use sealed_mail::identifier::Identifier;
use sealed_mail::labels::{Labels, TextMap};
use sealed_mail::letter::SealedLetter;
use sealed_mail::validation::{
    missing_label_keys, validate_attachments, validate_labels, validate_letter,
    AttachmentValidationResult, LabelsValidationResult, ReceiveMailError,
};

fn address() -> Address {
    Address { id: Identifier::new(), host: "example.com".to_string() }
}

fn blob(len: usize) -> Blob {
    Blob::from_vec(vec![1u8; len])
}

fn labels(pairs: &[(&str, &str)]) -> Labels {
    let mut m = TextMap::new();
    for (k, v) in pairs {
        m.insert(k.to_string(), v.to_string());
    }
    m
}

fn embedded(signed: bool, size: u64) -> EmbeddedAttachment {
    EmbeddedAttachment {
        id: Identifier::new(),
        size,
        labels: TextMap::new(),
        data: blob(0),
        signature: if signed { Some(blob(4)) } else { None },
    }
}

fn remote(signed: bool, size: u64) -> RemoteAttachment {
    RemoteAttachment {
        id: Identifier::new(),
        address: address(),
        size,
        labels: TextMap::new(),
        signature: if signed { Some(blob(4)) } else { None },
    }
}

/// A letter that every default policy accepts: one recipient, a sender, a
/// signature, a subject and a body.
fn letter() -> SealedLetter {
    SealedLetter {
        id: Identifier::new(),
        sender: Some(address()),
        recipients: vec![address()],
        attachments: None,
        labels: TextMap::new(),
        subject: Some(blob(8)),
        body: Some(blob(16)),
        signature: Some(blob(4)),
    }
}

fn strict() -> MailConfiguration {
    MailConfiguration {
        accept: MailAccept { anonymous_sender: false, unsigned: false, unsigned_attachments: false },
        require: MailRequire { subject: true, body: true, labels: vec![] },
        limit: MailLimit::default(),
    }
}

fn requiring(keys: &[&str]) -> MailConfiguration {
    let mut c = MailConfiguration::default();
    c.require.labels = keys.iter().map(|k| k.to_string()).collect();
    c
}

fn missing(r: Result<(), ReceiveMailError>) -> Vec<String> {
    match r {
        Err(ReceiveMailError::MissingLabels(m)) => m,
        other => panic!("unexpected {:?}", other),
    }
}

#[test]
fn missing_labels_when_letter_has_none() {
    let policy = requiring(&["x", "y"]);
    let mut m = missing(validate_letter(&letter(), &policy));
    m.sort();
    assert_eq!(m, vec!["x".to_string(), "y".to_string()]);
}

#[test]
fn required_labels_present_with_extra() {
    let policy = requiring(&["x", "y"]);
    let mut l = letter();
    l.labels = labels(&[("x", "1"), ("y", "2"), ("z", "3")]);
    assert!(validate_letter(&l, &policy).is_ok());
}

#[test]
fn only_the_absent_labels_are_reported() {
    let policy = requiring(&["x", "y", "w"]);
    let mut l = letter();
    l.labels = labels(&[("y", "2"), ("z", "3")]);
    assert_eq!(missing(validate_letter(&l, &policy)), vec!["x".to_string(), "w".to_string()]);
}

#[test]
fn anonymous_sender_checked_before_the_rest() {
    let mut policy = strict();
    policy.require.labels = vec!["x".to_string()];
    let l = SealedLetter {
        id: Identifier::new(),
        sender: None,
        recipients: vec![address()],
        attachments: Some(LetterAttachments { embedded: vec![embedded(false, 0)], remote: vec![] }),
        labels: TextMap::new(),
        subject: None,
        body: None,
        signature: None,
    };
    assert!(matches!(validate_letter(&l, &policy), Err(ReceiveMailError::AnonymousSender)));
}

#[test]
fn no_recipients_comes_first() {
    let l = SealedLetter {
        id: Identifier::new(),
        sender: None,
        recipients: vec![],
        attachments: Some(LetterAttachments { embedded: vec![embedded(false, u64::MAX)], remote: vec![] }),
        labels: TextMap::new(),
        subject: None,
        body: None,
        signature: None,
    };
    let mut policy = strict();
    policy.require.labels = vec!["x".to_string()];
    assert!(matches!(validate_letter(&l, &policy), Err(ReceiveMailError::NoRecipients)));
    assert!(matches!(
        validate_letter(&l, &MailConfiguration::default()),
        Err(ReceiveMailError::NoRecipients)
    ));
}

#[test]
fn unsigned_embedded_attachment() {
    let mut l = letter();
    l.attachments = Some(LetterAttachments { embedded: vec![embedded(false, 10)], remote: vec![] });
    let mut policy = MailConfiguration::default();
    policy.accept.unsigned_attachments = false;
    assert!(matches!(validate_letter(&l, &policy), Err(ReceiveMailError::UnsignedAttachments)));
    policy.accept.unsigned_attachments = true;
    assert!(validate_letter(&l, &policy).is_ok());
}

#[test]
fn unsigned_remote_attachment() {
    let mut l = letter();
    l.attachments =
        Some(LetterAttachments { embedded: vec![embedded(true, 1)], remote: vec![remote(false, 1)] });
    let mut policy = MailConfiguration::default();
    policy.accept.unsigned_attachments = false;
    assert!(matches!(validate_letter(&l, &policy), Err(ReceiveMailError::UnsignedAttachments)));
}

#[test]
fn each_rule_of_the_strict_policy() {
    let policy = strict();
    assert!(validate_letter(&letter(), &policy).is_ok());

    let mut l = letter();
    l.signature = None;
    assert!(matches!(validate_letter(&l, &policy), Err(ReceiveMailError::Unsigned)));

    let mut l = letter();
    l.subject = None;
    assert!(matches!(validate_letter(&l, &policy), Err(ReceiveMailError::NoSubject)));

    let mut l = letter();
    l.body = None;
    assert!(matches!(validate_letter(&l, &policy), Err(ReceiveMailError::NoBody)));

    let mut l = letter();
    l.subject = None;
    l.body = None;
    assert!(matches!(validate_letter(&l, &policy), Err(ReceiveMailError::NoSubject)));
}

#[test]
fn default_policy_is_permissive() {
    let l = SealedLetter {
        id: Identifier::new(),
        sender: None,
        recipients: vec![address()],
        attachments: Some(LetterAttachments { embedded: vec![embedded(false, 0)], remote: vec![remote(false, 0)] }),
        labels: TextMap::new(),
        subject: None,
        body: None,
        signature: None,
    };
    assert!(validate_letter(&l, &MailConfiguration::default()).is_ok());
}

#[test]
fn limits_are_enforced() {
    let mut policy = MailConfiguration::default();
    policy.limit = MailLimit {
        recipients: 2,
        subject_size: 8,
        body_size: 16,
        embedded_attachments: 1,
        embedded_attachment_size: 100,
        remote_attachments: 1,
        remote_attachment_size: 1000,
        labels: 2,
    };
    assert!(validate_letter(&letter(), &policy).is_ok());

    let mut l = letter();
    l.recipients = vec![address(), address(), address()];
    assert!(matches!(validate_letter(&l, &policy), Err(ReceiveMailError::TooManyRecipients)));

    let mut l = letter();
    l.attachments = Some(LetterAttachments { embedded: vec![embedded(true, 1), embedded(true, 1)], remote: vec![] });
    assert!(matches!(validate_letter(&l, &policy), Err(ReceiveMailError::TooManyEmbeddedAttachments)));

    let mut l = letter();
    l.attachments = Some(LetterAttachments { embedded: vec![embedded(true, 101)], remote: vec![] });
    assert!(matches!(validate_letter(&l, &policy), Err(ReceiveMailError::EmbeddedAttachmentTooLarge)));

    let mut l = letter();
    l.attachments = Some(LetterAttachments { embedded: vec![embedded(true, 100)], remote: vec![remote(true, 1), remote(true, 1)] });
    assert!(matches!(validate_letter(&l, &policy), Err(ReceiveMailError::TooManyRemoteAttachments)));

    let mut l = letter();
    l.attachments = Some(LetterAttachments { embedded: vec![], remote: vec![remote(true, 1001)] });
    assert!(matches!(validate_letter(&l, &policy), Err(ReceiveMailError::RemoteAttachmentTooLarge)));

    let mut l = letter();
    l.subject = Some(blob(9));
    assert!(matches!(validate_letter(&l, &policy), Err(ReceiveMailError::SubjectTooLarge)));

    let mut l = letter();
    l.body = Some(blob(17));
    assert!(matches!(validate_letter(&l, &policy), Err(ReceiveMailError::BodyTooLarge)));

    let mut l = letter();
    l.labels = labels(&[("a", "1"), ("b", "2"), ("c", "3")]);
    assert!(matches!(validate_letter(&l, &policy), Err(ReceiveMailError::TooManyLabels)));
}

#[test]
fn missing_labels_before_label_count() {
    let mut policy = requiring(&["x"]);
    policy.limit.labels = 0;
    let mut l = letter();
    l.labels = labels(&[("y", "1")]);
    assert_eq!(missing(validate_letter(&l, &policy)), vec!["x".to_string()]);
    l.labels = labels(&[("x", "1")]);
    assert!(matches!(validate_letter(&l, &policy), Err(ReceiveMailError::TooManyLabels)));
}

#[test]
fn label_validation_outcomes() {
    let none: Vec<String> = vec![];
    assert!(matches!(validate_labels(&none, &TextMap::new()), LabelsValidationResult::Empty));
    assert!(matches!(validate_labels(&none, &labels(&[("a", "1")])), LabelsValidationResult::Valid));
    let req = vec!["a".to_string(), "b".to_string()];
    assert!(matches!(validate_labels(&req, &labels(&[("a", "1"), ("b", "")])), LabelsValidationResult::Valid));
    match validate_labels(&req, &labels(&[("b", "1")])) {
        LabelsValidationResult::Invalid(m) => assert_eq!(m, vec!["a".to_string()]),
        _ => panic!("expected missing labels"),
    }
    assert_eq!(missing_label_keys(&req, &TextMap::new()), req);
}

#[test]
fn attachment_validation_outcomes() {
    assert_eq!(validate_attachments(&None), AttachmentValidationResult::Empty);
    let empty = LetterAttachments { embedded: vec![], remote: vec![] };
    assert_eq!(validate_attachments(&Some(empty)), AttachmentValidationResult::Empty);
    let signed = LetterAttachments { embedded: vec![embedded(true, 0)], remote: vec![remote(true, 0)] };
    assert_eq!(validate_attachments(&Some(signed)), AttachmentValidationResult::Valid);
    let unsigned = LetterAttachments { embedded: vec![embedded(true, 0)], remote: vec![remote(false, 0)] };
    assert!(!unsigned.all_signed());
    assert_eq!(validate_attachments(&Some(unsigned)), AttachmentValidationResult::Invalid);
}

#[test]
fn rejections_are_not_internal() {
    assert!(!ReceiveMailError::NoRecipients.is_internal());
    assert!(ReceiveMailError::Increment(sealed_mail::state::CounterError::Exhausted).is_internal());
}

#[test]
fn duplicate_mandatory_keys_reported_once() {
    let policy = requiring(&["x", "y", "x"]);
    assert_eq!(missing(validate_letter(&letter(), &policy)), vec!["x".to_string(), "y".to_string()]);
}

#[test]
fn rejection_messages() {
    assert_eq!(ReceiveMailError::NoRecipients.message(), "At least one recipient must be provided");
    assert_eq!(ReceiveMailError::AnonymousSender.message(), "Anonymous senders are forbidden");
    assert_eq!(ReceiveMailError::TooManyLabels.message(), "The letter has too many labels");
    assert_eq!(
        ReceiveMailError::MissingLabels(vec!["x".to_string(), "y".to_string()]).message(),
        "The following labels are required: x, y"
    );
    assert_eq!(
        ReceiveMailError::MissingLabels(vec!["only".to_string()]).message(),
        "The following labels are required: only"
    );
    assert_eq!(
        ReceiveMailError::Increment(sealed_mail::state::CounterError::Exhausted).message(),
        "The letter counter is exhausted"
    );
}
