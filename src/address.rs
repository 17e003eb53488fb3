//! Addresses: an identifier and a host, written `<identifier>@<host>`.

use vstd::prelude::*;
use crate::codec::{is_url_safe_char, url_safe_encoded};
use crate::identifier::{decoded_identifier, Identifier, TypeConversionError, IDENTIFIER_LEN};

verus! {

/// The number of characters in the text form of an identifier.
pub const IDENTIFIER_TEXT_LEN: usize = 32;

/// The longest label that a host may hold.
pub const MAX_LABEL_LEN: usize = 63;

/// A character that may stand in a host.
pub open spec fn is_host_char(c: char) -> bool {
    ('a' <= c && c <= 'z') || ('A' <= c && c <= 'Z') || ('0' <= c && c <= '9') || c == '-' || c
        == '.'
}

/// The number of characters since the last `.` (or the start) before position `i`.
pub open spec fn label_run(h: Seq<char>, i: int) -> nat
    decreases i,
{
    if i <= 0 {
        0
    } else if h[i - 1] == '.' {
        0
    } else {
        label_run(h, i - 1) + 1
    }
}

/// Position `i` of `h` keeps the host grammar: a host character, a `.` only
/// after a non-empty label and before another, a `-` only inside a label, and
/// no label longer than 63 characters.
pub open spec fn host_ok_at(h: Seq<char>, i: int) -> bool {
    let c = h[i];
    &&& is_host_char(c)
    &&& c == '.' ==> label_run(h, i) > 0 && i + 1 < h.len()
    &&& c == '-' ==> label_run(h, i) > 0 && i + 1 < h.len() && h[i + 1] != '.'
    &&& label_run(h, i + 1) <= MAX_LABEL_LEN
}

/// One or more labels joined by `.`; each label holds 1 to 63 letters,
/// digits and hyphens, and neither starts nor ends with a hyphen.
pub open spec fn is_host(h: Seq<char>) -> bool {
    h.len() > 0 && forall|i: int| 0 <= i < h.len() ==> #[trigger] host_ok_at(h, i)
}

/// The address grammar: 32 characters of the URL-safe base64 alphabet, `@`,
/// and a host, with nothing before or after.
pub open spec fn is_address_text(s: Seq<char>) -> bool {
    &&& s.len() > IDENTIFIER_TEXT_LEN + 1
    &&& forall|i: int| 0 <= i < IDENTIFIER_TEXT_LEN ==> is_url_safe_char(#[trigger] s[i])
    &&& s[IDENTIFIER_TEXT_LEN as int] == '@'
    &&& is_host(s.subrange(IDENTIFIER_TEXT_LEN + 1, s.len() as int))
}

/// The text form of the address with these identifier bytes and host.
pub open spec fn address_text(id: Seq<u8>, host: Seq<char>) -> Seq<char> {
    url_safe_encoded(id) + seq!['@'] + host
}

/// The identifier bytes and host that `s` parses to, if it is an address.
pub open spec fn parsed_address(s: Seq<char>) -> Option<(Seq<u8>, Seq<char>)> {
    if is_address_text(s) && decoded_identifier(s.subrange(0, IDENTIFIER_TEXT_LEN as int)) is Some {
        Some(
            (
                decoded_identifier(s.subrange(0, IDENTIFIER_TEXT_LEN as int))->0,
                s.subrange(IDENTIFIER_TEXT_LEN + 1, s.len() as int),
            ),
        )
    } else {
        None
    }
}

/// A globally unique address.
#[derive(Debug, Clone, PartialEq, Eq)]
pub struct Address {
    /// The locally unique identifier for a piece of data on a host.
    pub id: Identifier,
    /// A domain name or a literal IPv4 address.
    pub host: String,
}

/// Why a text is not an address.
#[derive(Debug)]
pub enum ParseError {
    /// The text does not follow the address grammar; the text.
    Address(String),
    /// The identifier part does not decode to an identifier.
    Identifier(TypeConversionError),
}

fn is_url_safe(c: char) -> (r: bool)
    ensures
        r == is_url_safe_char(c),
{
    ('A' <= c && c <= 'Z') || ('a' <= c && c <= 'z') || ('0' <= c && c <= '9') || c == '-' || c
        == '_'
}

fn is_host_character(c: char) -> (r: bool)
    ensures
        r == is_host_char(c),
{
    ('a' <= c && c <= 'z') || ('A' <= c && c <= 'Z') || ('0' <= c && c <= '9') || c == '-' || c
        == '.'
}

/// Whether `h` follows the host grammar.
pub fn is_host_text(h: &str) -> (r: bool)
    ensures
        r == is_host(h@),
{
    let n = h.unicode_len();
    if n == 0 {
        return false;
    }
    let mut run: usize = 0;
    let mut i: usize = 0;
    while i < n
        invariant
            n == h@.len(),
            i <= n,
            run == label_run(h@, i as int),
            run <= MAX_LABEL_LEN,
            forall|j: int| 0 <= j < i ==> #[trigger] host_ok_at(h@, j),
        decreases n - i,
    {
        let c = h.get_char(i);
        let last = i + 1 == n;
        if !is_host_character(c) {
            assert(!host_ok_at(h@, i as int));
            return false;
        }
        if c == '.' {
            if run == 0 || last {
                assert(!host_ok_at(h@, i as int));
                return false;
            }
            run = 0;
        } else {
            if c == '-' && (run == 0 || last || h.get_char(i + 1) == '.') {
                assert(!host_ok_at(h@, i as int));
                return false;
            }
            if run == MAX_LABEL_LEN {
                assert(!host_ok_at(h@, i as int));
                return false;
            }
            run = run + 1;
        }
        assert(label_run(h@, i + 1) == run);
        assert(host_ok_at(h@, i as int));
        i = i + 1;
    }
    true
}

impl Address {
    /// Parses `<identifier>@<host>`; the whole text must follow the grammar.
    pub fn try_from_str(value: &str) -> (r: Result<Address, ParseError>)
        ensures
            !is_address_text(value@) <==> r matches Err(ParseError::Address(_)),
            r matches Err(ParseError::Address(t)) ==> t@ == value@,
            r is Ok <==> is_address_text(value@),
            r is Ok <==> parsed_address(value@) is Some,
            r matches Ok(a) ==> parsed_address(value@) == Some((a.id@, a.host@)),
            r matches Ok(a) ==> value@ == address_text(a.id@, a.host@) && is_host(a.host@),
    {
        let n = value.unicode_len();
        if n <= IDENTIFIER_TEXT_LEN + 1 {
            return Err(ParseError::Address(value.to_string()));
        }
        let mut i: usize = 0;
        while i < IDENTIFIER_TEXT_LEN
            invariant
                n == value@.len() > IDENTIFIER_TEXT_LEN + 1,
                i <= IDENTIFIER_TEXT_LEN,
                forall|j: int| 0 <= j < i ==> is_url_safe_char(#[trigger] value@[j]),
            decreases IDENTIFIER_TEXT_LEN - i,
        {
            if !is_url_safe(value.get_char(i)) {
                return Err(ParseError::Address(value.to_string()));
            }
            i = i + 1;
        }
        if value.get_char(IDENTIFIER_TEXT_LEN) != '@' {
            return Err(ParseError::Address(value.to_string()));
        }
        let host = value.substring_char(IDENTIFIER_TEXT_LEN + 1, n);
        if !is_host_text(host) {
            return Err(ParseError::Address(value.to_string()));
        }
        let id_text = value.substring_char(0, IDENTIFIER_TEXT_LEN);
        assert(forall|j: int| 0 <= j < IDENTIFIER_TEXT_LEN ==> id_text@[j] == value@[j]);
        match Identifier::try_from_str(id_text) {
            Ok(id) => {
                let host = host.to_string();
                assert(value@ =~= id_text@ + seq!['@'] + host@);
                Ok(Address { id, host })
            },
            Err(e) => Err(ParseError::Identifier(e)),
        }
    }

    /// The text form `<identifier>@<host>`; for a host that follows the
    /// grammar, it parses back to this address.
    pub fn to_text(&self) -> (r: String)
        ensures
            r@ == address_text(self.id@, self.host@),
            is_host(self.host@) ==> parsed_address(r@) == Some((self.id@, self.host@)),
    {
        let mut r = self.id.to_text();
        let ghost id_text = r@;
        r.append("@");
        r.append(self.host.as_str());
        proof {
            reveal_strlit("@");
            assert(r@ =~= id_text + seq!['@'] + self.host@);
            assert(r@.subrange(0, IDENTIFIER_TEXT_LEN as int) =~= id_text);
            assert(r@.subrange(IDENTIFIER_TEXT_LEN + 1, r@.len() as int) =~= self.host@);
            self.id.lemma_len();
        }
        r
    }
}

} // verus!
