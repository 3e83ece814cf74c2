//! HTTP requests and responses as plain values, and the questions that the
//! dispatcher asks of a request's bytes.

use vstd::prelude::*;
use vstd::string::StringSliceAdditionalSpecFns;

verus! {

broadcast use vstd::string::group_string_axioms;

/// The bytes of a text of ASCII characters.
pub open spec fn ascii(text: Seq<char>) -> Seq<u8> {
    Seq::new(text.len(), |i: int| text[i] as u8)
}

/// The bytes of a string in UTF-8; for an ASCII string, one byte for each
/// character.
pub fn ascii_bytes(text: &str) -> (bytes: &[u8])
    ensures
        bytes@ == text.spec_bytes(),
        text.is_ascii() ==> bytes@ == ascii(text@),
{
    text.as_bytes()
}

/// `/`, which starts an absolute path and separates its segments.
pub const SLASH: u8 = 0x2f;

/// A byte with an upper-case ASCII letter turned into its lower-case form.
pub open spec fn lower(byte: u8) -> u8 {
    if 0x41 <= byte <= 0x5a {
        (byte + 0x20) as u8
    } else {
        byte
    }
}

/// Whether two byte strings are equal but for the case of ASCII letters.
pub open spec fn eq_ignore_case(a: Seq<u8>, b: Seq<u8>) -> bool {
    &&& a.len() == b.len()
    &&& forall|i: int| 0 <= i < a.len() ==> lower(a[i]) == lower(b[i])
}

/// A byte that separates the tokens of a header value: a space or a comma.
pub open spec fn is_delimiter(byte: u8) -> bool {
    byte == 0x20 || byte == 0x2c
}

/// Whether `value` holds, from `start` on, a token that equals `token` but
/// for case: the bytes match, none of them is a delimiter, and on each side
/// the value ends or a delimiter stands.
pub open spec fn token_at(value: Seq<u8>, start: int, token: Seq<u8>) -> bool {
    &&& 0 <= start
    &&& start + token.len() <= value.len()
    &&& start == 0 || is_delimiter(value[start - 1])
    &&& start + token.len() == value.len() || is_delimiter(value[start + token.len()])
    &&& forall|k: int| start <= k < start + token.len() ==> !is_delimiter(value[k])
    &&& eq_ignore_case(value.subrange(start, start + token.len()), token)
}

/// Whether one of the tokens of `value`, as spaces and commas delimit them,
/// equals `token` but for case.
pub open spec fn has_token(value: Seq<u8>, token: Seq<u8>) -> bool {
    exists|start: int| token_at(value, start, token)
}

/// `byte`, in lower case if it is an upper-case ASCII letter.
pub fn to_lower(byte: u8) -> (low: u8)
    ensures
        low == lower(byte),
{
    if 0x41 <= byte && byte <= 0x5a {
        byte + 0x20
    } else {
        byte
    }
}

/// Whether two byte strings are equal.
pub fn bytes_eq(a: &[u8], b: &[u8]) -> (same: bool)
    ensures
        same == (a@ == b@),
{
    if a.len() != b.len() {
        return false;
    }
    let mut i: usize = 0;
    while i < a.len()
        invariant
            i <= a.len(),
            a.len() == b.len(),
            forall|k: int| 0 <= k < i ==> a@[k] == b@[k],
        decreases a.len() - i,
    {
        if a[i] != b[i] {
            return false;
        }
        i += 1;
    }
    assert(a@ =~= b@);
    true
}

/// Whether two byte strings are equal but for the case of ASCII letters.
pub fn eq_ignore_ascii_case(a: &[u8], b: &[u8]) -> (same: bool)
    ensures
        same == eq_ignore_case(a@, b@),
{
    if a.len() != b.len() {
        return false;
    }
    let mut i: usize = 0;
    while i < a.len()
        invariant
            i <= a.len(),
            a.len() == b.len(),
            forall|k: int| 0 <= k < i ==> lower(a@[k]) == lower(b@[k]),
        decreases a.len() - i,
    {
        if to_lower(a[i]) != to_lower(b[i]) {
            return false;
        }
        i += 1;
    }
    true
}

/// Whether the bytes of `value` from `start` on match `token` but for case.
fn matches_at(value: &[u8], start: usize, token: &[u8]) -> (same: bool)
    requires
        start + token.len() <= value.len(),
    ensures
        same == eq_ignore_case(
            value@.subrange(start as int, start + token.len()),
            token@,
        ),
{
    let ghost part = value@.subrange(start as int, start + token.len());
    let mut i: usize = 0;
    while i < token.len()
        invariant
            i <= token.len(),
            start + token.len() <= value.len(),
            part == value@.subrange(start as int, start + token.len()),
            forall|k: int| 0 <= k < i ==> lower(part[k]) == lower(token@[k]),
        decreases token.len() - i,
    {
        assert(part[i as int] == value@[start + i]);
        if to_lower(value[start + i]) != to_lower(token[i]) {
            return false;
        }
        i += 1;
    }
    true
}

fn delimiter(byte: u8) -> (yes: bool)
    ensures
        yes == is_delimiter(byte),
{
    byte == 0x20 || byte == 0x2c
}

/// Whether one of the bytes is a delimiter.
fn holds_delimiter(bytes: &[u8]) -> (found: bool)
    ensures
        found == exists|k: int| 0 <= k < bytes@.len() && is_delimiter(#[trigger] bytes@[k]),
{
    let mut i: usize = 0;
    while i < bytes.len()
        invariant
            i <= bytes.len(),
            forall|k: int| 0 <= k < i ==> !is_delimiter(#[trigger] bytes@[k]),
        decreases bytes.len() - i,
    {
        if delimiter(bytes[i]) {
            return true;
        }
        i += 1;
    }
    false
}

/// Whether one of the tokens of `value` equals `token` but for case.
pub fn contains_token(value: &[u8], token: &[u8]) -> (found: bool)
    ensures
        found == has_token(value@, token@),
{
    if token.len() > value.len() {
        return false;
    }
    if holds_delimiter(token) {
        assert forall|s: int| !token_at(value@, s, token@) by {
            if token_at(value@, s, token@) {
                let k = choose|k: int| 0 <= k < token@.len() && is_delimiter(#[trigger] token@[k]);
                assert(value@.subrange(s, s + token@.len())[k] == value@[s + k]);
                assert(lower(value@[s + k]) == lower(token@[k]));
            }
        }
        return false;
    }
    let last: usize = value.len() - token.len();
    let mut start: usize = 0;
    loop
        invariant
            last == value.len() - token.len(),
            token.len() <= value.len(),
            start <= last,
            forall|k: int| 0 <= k < token@.len() ==> !is_delimiter(#[trigger] token@[k]),
            forall|s: int| 0 <= s < start ==> !token_at(value@, s, token@),
        decreases last - start,
    {
        let opens = start == 0 || delimiter(value[start - 1]);
        let closes = start == last || delimiter(value[start + token.len()]);
        if opens && closes && matches_at(value, start, token) {
            assert forall|k: int| start <= k < start + token.len() implies !is_delimiter(
                value@[k],
            ) by {
                assert(value@.subrange(start as int, start + token.len())[k - start] == value@[k]);
                assert(lower(value@[k]) == lower(token@[k - start]));
            }
            assert(token_at(value@, start as int, token@));
            return true;
        }
        if start == last {
            return false;
        }
        start += 1;
    }
}

/// The versions of HTTP, oldest first.
#[derive(Clone, Copy, Debug, PartialEq, Eq, Structural)]
pub enum Version {
    Http09,
    Http10,
    Http11,
    Http2,
    Http3,
}

impl Version {
    /// The version's place in the order of versions.
    pub open spec fn rank(self) -> int {
        match self {
            Version::Http09 => 0,
            Version::Http10 => 1,
            Version::Http11 => 2,
            Version::Http2 => 3,
            Version::Http3 => 4,
        }
    }

    /// Whether the version is HTTP/1.1 or later.
    pub fn at_least_http11(&self) -> (yes: bool)
        ensures
            yes == (self.rank() >= Version::Http11.rank()),
    {
        match self {
            Version::Http09 => false,
            Version::Http10 => false,
            _ => true,
        }
    }
}

/// One header line.
#[derive(Clone, Debug, PartialEq, Eq)]
pub struct Header {
    pub name: Vec<u8>,
    pub value: Vec<u8>,
}

/// The mathematical content of a [`Header`].
pub ghost struct HeaderView {
    pub name: Seq<u8>,
    pub value: Seq<u8>,
}

impl View for Header {
    type V = HeaderView;

    open spec fn view(&self) -> HeaderView {
        HeaderView { name: self.name@, value: self.value@ }
    }
}

/// The views of a run of headers, in order.
pub open spec fn headers_view(headers: Seq<Header>) -> Seq<HeaderView> {
    Seq::new(headers.len(), |i: int| headers[i]@)
}

/// The value of the first header whose name equals `name` but for case.
pub open spec fn header_value(headers: Seq<HeaderView>, name: Seq<u8>) -> Option<Seq<u8>>
    decreases headers.len(),
{
    if headers.len() == 0 {
        None
    } else if eq_ignore_case(headers[0].name, name) {
        Some(headers[0].value)
    } else {
        header_value(headers.drop_first(), name)
    }
}

/// The value of the first of `headers` whose name equals `name` but for case.
pub fn find_header<'a>(headers: &'a Vec<Header>, name: &[u8]) -> (value: Option<&'a Vec<u8>>)
    ensures
        match value {
            Some(found) => header_value(headers_view(headers@), name@) == Some(found@),
            None => header_value(headers_view(headers@), name@) is None,
        },
{
    let ghost all = headers_view(headers@);
    let mut i: usize = 0;
    assert(all.skip(0) =~= all);
    while i < headers.len()
        invariant
            i <= headers.len(),
            all == headers_view(headers@),
            header_value(all, name@) == header_value(all.skip(i as int), name@),
        decreases headers.len() - i,
    {
        assert(all.skip(i as int)[0] == headers@[i as int]@);
        if eq_ignore_ascii_case(headers[i].name.as_slice(), name) {
            return Some(&headers[i].value);
        }
        assert(all.skip(i as int).drop_first() =~= all.skip(i + 1));
        i += 1;
    }
    None
}

/// One request, as far as the dispatcher reads it.
#[derive(Clone, Debug, PartialEq, Eq)]
pub struct Request {
    pub method: Vec<u8>,
    pub version: Version,
    pub path: Vec<u8>,
    pub headers: Vec<Header>,
}

/// The mathematical content of a [`Request`].
pub ghost struct RequestView {
    pub method: Seq<u8>,
    pub version: Version,
    pub path: Seq<u8>,
    pub headers: Seq<HeaderView>,
}

impl View for Request {
    type V = RequestView;

    open spec fn view(&self) -> RequestView {
        RequestView {
            method: self.method@,
            version: self.version,
            path: self.path@,
            headers: headers_view(self.headers@),
        }
    }
}

/// One response.
#[derive(Clone, Debug, PartialEq, Eq)]
pub struct Response {
    pub status: u16,
    pub version: Version,
    pub headers: Vec<Header>,
    pub body: Vec<u8>,
}

/// The mathematical content of a [`Response`].
pub ghost struct ResponseView {
    pub status: u16,
    pub version: Version,
    pub headers: Seq<HeaderView>,
    pub body: Seq<u8>,
}

impl View for Response {
    type V = ResponseView;

    open spec fn view(&self) -> ResponseView {
        ResponseView {
            status: self.status,
            version: self.version,
            headers: headers_view(self.headers@),
            body: self.body@,
        }
    }
}

} // verus!
