use sealed_mail::address::{is_host_text, Address, ParseError};
use sealed_mail::identifier::Identifier;

fn id_text() -> String {
    Identifier::from_uuid([9u8; 24]).to_text()
}

fn parse(text: &str) -> Result<Address, ParseError> {
    Address::try_from_str(text)
}

fn is_malformed(text: &str) -> bool {
    match parse(text) {
        Err(ParseError::Address(t)) => t == text,
        _ => false,
    }
}

#[test]
fn address_round_trip() {
    for host in ["example.com", "Example.COM", "A", "localhost", "127.0.0.1", "a-b.c-d.e", "x1.y2.z3"] {
        let address = Address { id: Identifier::new(), host: host.to_string() };
        let text = address.to_text();
        let back = parse(&text).unwrap();
        assert_eq!(back, address);
    }
}

#[test]
fn address_text_form() {
    let address = Address { id: Identifier::from_uuid([9u8; 24]), host: "example.com".to_string() };
    assert_eq!(address.to_text(), format!("{}@example.com", id_text()));
    assert_eq!(address.to_text(), "CQkJCQkJCQkJCQkJCQkJCQkJCQkJCQkJ@example.com");
}

#[test]
fn upper_case_hosts_parse() {
    let a = parse(&format!("{}@Mail.Example.org", id_text())).unwrap();
    assert_eq!(a.host, "Mail.Example.org");
    assert!(is_host_text("A"));
}

#[test]
fn address_parses_parts() {
    let a = parse(&format!("{}@mail.example.org", id_text())).unwrap();
    assert_eq!(a.id.to_uuid(), [9u8; 24]);
    assert_eq!(a.host, "mail.example.org");
}

#[test]
fn address_rejects_malformed() {
    let id = id_text();
    assert!(is_malformed(""));
    assert!(is_malformed("example.com"));
    assert!(is_malformed(&format!("{}example.com", id)));
    assert!(is_malformed(&format!("{}@", id)));
    assert!(is_malformed(&format!("{}@example.com", &id[1..])));
    assert!(is_malformed(&format!("x{}@example.com", id)));
    assert!(is_malformed(&format!("{}@Ex!ample.com", id)));
    assert!(is_malformed(&format!("{}@example..com", id)));
    assert!(is_malformed(&format!("{}@.example.com", id)));
    assert!(is_malformed(&format!("{}@example.com.", id)));
    assert!(is_malformed(&format!("{}@-example.com", id)));
    assert!(is_malformed(&format!("{}@example-.com", id)));
    assert!(is_malformed(&format!("{}@exa_mple.com", id)));
    assert!(is_malformed(&format!("{}@example.com ", id)));
    assert!(is_malformed(&format!(" {}@example.com", id)));
    assert!(is_malformed(&format!("{}@a@example.com", id)));
    let bad_id = format!("{}=@example.com", &id[..31]);
    assert!(is_malformed(&bad_id));
}

#[test]
fn host_label_lengths() {
    let label63 = "a".repeat(63);
    let label64 = "a".repeat(64);
    assert!(is_host_text(&format!("{}.com", label63)));
    assert!(!is_host_text(&format!("{}.com", label64)));
    assert!(is_host_text(&label63));
    assert!(!is_host_text(&label64));
    assert!(is_host_text("a"));
    assert!(is_host_text("a.b"));
    assert!(!is_host_text(""));
    assert!(!is_host_text("."));
    assert!(is_host_text("a--b"));
}
