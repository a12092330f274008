//! Header lines: a request's headers are written as `name: value` strings,
//! and the header strings of a response are read back into names and values.

use vstd::prelude::*;
use vstd::string::StringExecFns;
use vstd::string::StringSliceAdditionalSpecFns;
use crate::errors::InvalidRequestError;

verus! {

/// One header: a name and the bytes of its value.
#[derive(Debug, PartialEq)]
pub struct Header {
    pub name: String,
    pub value: Vec<u8>,
}

impl View for Header {
    type V = (Seq<char>, Seq<u8>);

    open spec fn view(&self) -> (Seq<char>, Seq<u8>) {
        (self.name@, self.value@)
    }
}

/// The views of a list of headers.
pub open spec fn header_views(headers: Seq<Header>) -> Seq<(Seq<char>, Seq<u8>)> {
    Seq::new(headers.len(), |i: int| headers[i]@)
}

/// Whether `b` is a printable ASCII character, a space or a tab.
pub open spec fn is_visible_ascii(b: u8) -> bool {
    b >= 32 && b < 127 || b == 9
}

/// Whether all of `bytes` are visible ASCII.
pub open spec fn all_visible(bytes: Seq<u8>) -> bool {
    forall|i: int| 0 <= i < bytes.len() ==> is_visible_ascii(#[trigger] bytes[i])
}

/// The characters that ASCII bytes stand for.
pub open spec fn ascii_chars(bytes: Seq<u8>) -> Seq<char> {
    Seq::new(bytes.len(), |i: int| bytes[i] as char)
}

/// Whether `b` may occur in the value of a header: anything but a control
/// character other than the tab.
pub open spec fn is_value_byte(b: u8) -> bool {
    b >= 32 && b != 127 || b == 9
}

/// The line that stands for a header whose value is visible ASCII.
pub open spec fn header_line(name: Seq<char>, value: Seq<u8>) -> Seq<char> {
    name + ": "@ + ascii_chars(value)
}

/// Whether a character is white space: one of the characters that Unicode
/// gives the property `White_Space`.
pub open spec fn is_white_space(c: char) -> bool {
    let n = c as u32;
    9 <= n <= 13 || n == 0x20 || n == 0x85 || n == 0xa0 || n == 0x1680 || 0x2000 <= n <= 0x200a
        || n == 0x2028 || n == 0x2029 || n == 0x202f || n == 0x205f || n == 0x3000
}

/// What is left of a string when the white space at its front is taken off.
pub open spec fn trimmed_start(s: Seq<char>) -> Seq<char>
    decreases s.len(),
{
    if s.len() > 0 && is_white_space(s[0]) {
        trimmed_start(s.skip(1))
    } else {
        s
    }
}

/// What is left of a string when the white space at its end is taken off.
pub open spec fn trimmed_end(s: Seq<char>) -> Seq<char>
    decreases s.len(),
{
    if s.len() > 0 && is_white_space(s.last()) {
        trimmed_end(s.drop_last())
    } else {
        s
    }
}

/// What is left of a string when the white space at both ends is taken off.
pub open spec fn trimmed(s: Seq<char>) -> Seq<char> {
    trimmed_end(trimmed_start(s))
}

/// Whether a character may occur in the name of a header: a letter, a digit,
/// or one of ``!#$%&'*+-.^_`|~``.
pub open spec fn is_name_char(c: char) -> bool {
    let n = c as u32;
    n == 33 || 35 <= n <= 39 || n == 42 || n == 43 || n == 45 || n == 46 || 48 <= n <= 57 || 65
        <= n <= 90 || 94 <= n <= 122 || n == 124 || n == 126
}

/// The character in lower case, where it is an ASCII capital, else itself.
pub open spec fn lower(c: char) -> char {
    if 65 <= c as u32 <= 90 {
        ((c as u8) + 32) as char
    } else {
        c
    }
}

/// The normal form of a header name, which is the name in lower case; `None`
/// where the string is no header name: where it is empty or longer than 65535
/// characters or holds a character that may not occur in a name.
pub open spec fn header_name_of(name: Seq<char>) -> Option<Seq<char>> {
    if 1 <= name.len() <= 65535 && (forall|i: int|
        0 <= i < name.len() ==> is_name_char(#[trigger] name[i])) {
        Some(Seq::new(name.len(), |i: int| lower(name[i])))
    } else {
        None
    }
}

/// Reads a header value as text: `HeaderValue::from_bytes` followed by
/// `HeaderValue::to_str`, which together succeed exactly when every byte is
/// visible ASCII, and then give the bytes as a string.
#[verifier::external_body]
fn visible_text(value: &[u8]) -> (r: Option<String>)
    ensures
        match r {
            Some(s) => all_visible(value@) && s@ == ascii_chars(value@),
            None => !all_visible(value@),
        },
{
    let value = http::HeaderValue::from_bytes(value).ok()?;
    value.to_str().ok().map(|s| s.to_owned())
}

/// Splits a line at its first colon: `str::split_once`, which gives what
/// stands before the first occurrence of the delimiter and what stands after
/// it, and nothing where the delimiter does not occur.
#[verifier::external_body]
fn split_at_colon(line: &str) -> (r: Option<(String, String)>)
    ensures
        match r {
            Some((name, rest)) => line@ == name@ + seq![':'] + rest@ && !name@.contains(':'),
            None => !line@.contains(':'),
        },
{
    line.split_once(':').map(|(name, rest)| (name.to_owned(), rest.to_owned()))
}

/// Takes the white space off both ends: `str::trim`, which returns the
/// string without its leading and trailing white space, where white space is
/// what Unicode gives the property `White_Space`.
#[verifier::external_body]
fn trim(s: &str) -> (r: String)
    ensures
        r@ == trimmed(s@),
{
    s.trim().to_owned()
}

/// Reads a header name: `HeaderName::from_bytes`, which accepts a name of 1
/// to 65535 bytes, each of them a letter, a digit or one of
/// ``!#$%&'*+-.^_`|~``, and `HeaderName::as_str`, which gives the name with
/// its capitals in lower case.
#[verifier::external_body]
fn read_header_name(name: &str) -> (r: Option<String>)
    ensures
        crate::proto::opt_chars(r) == header_name_of(name@),
{
    http::HeaderName::from_bytes(name.as_bytes()).ok().map(|n| n.as_str().to_owned())
}

/// Whether all bytes of a string may occur in a header's value.
pub open spec fn is_value_text(s: Seq<char>) -> bool {
    forall|i: int|
        0 <= i < vstd::utf8::encode_utf8(s).len() ==> is_value_byte(
            #[trigger] vstd::utf8::encode_utf8(s)[i],
        )
}

/// Checks a header value: `HeaderValue::from_str`, which accepts a string
/// exactly when none of its bytes is a control character other than the tab.
#[verifier::external_body]
fn check_header_value(value: &str) -> (ok: bool)
    ensures
        ok == is_value_text(value@),
{
    http::HeaderValue::from_str(value).is_ok()
}

/// The header that a line of a response stands for: the line is split at its
/// first colon, the name is put in normal form, and the rest, without the
/// white space around it, is the value.
pub open spec fn parse_header_spec(line: Seq<char>) -> Option<(Seq<char>, Seq<u8>)> {
    match line.index_of_first(':') {
        None => None,
        Some(at) => {
            let value = trimmed(line.skip(at + 1));
            match header_name_of(line.take(at)) {
                Some(name) => if is_value_text(value) {
                    Some((name, vstd::utf8::encode_utf8(value)))
                } else {
                    None
                },
                None => None,
            }
        },
    }
}

/// Writes a request's header as a line; fails where the value is not visible
/// ASCII.
pub fn format_header(header: &Header) -> (r: Result<String, InvalidRequestError>)
    ensures
        match r {
            Ok(line) => all_visible(header.value@) && line@ == header_line(
                header.name@,
                header.value@,
            ),
            Err(e) => !all_visible(header.value@) && e == InvalidRequestError::InvalidHeader,
        },
{
    match visible_text(header.value.as_slice()) {
        Some(text) => {
            let mut line = header.name.clone();
            line.append(": ");
            line.append(text.as_str());
            Ok(line)
        },
        None => Err(InvalidRequestError::InvalidHeader),
    }
}

/// The lines of the first `n` headers.
pub open spec fn header_lines(headers: Seq<Header>, n: int) -> Seq<Seq<char>> {
    Seq::new(n as nat, |i: int| header_line(headers[i].name@, headers[i].value@))
}

/// Whether the value of each header is visible ASCII.
pub open spec fn all_headers_visible(headers: Seq<Header>) -> bool {
    forall|i: int| 0 <= i < headers.len() ==> all_visible(#[trigger] headers[i].value@)
}

/// Writes a request's headers as lines, in order; fails where the value of
/// one is not visible ASCII.
pub fn format_headers(headers: &Vec<Header>) -> (r: Result<Vec<String>, InvalidRequestError>)
    ensures
        match r {
            Ok(lines) => all_headers_visible(headers@) && crate::proto::all_chars(lines@)
                == header_lines(headers@, headers@.len() as int),
            Err(e) => !all_headers_visible(headers@) && e == InvalidRequestError::InvalidHeader,
        },
{
    let mut lines: Vec<String> = Vec::new();
    let mut i: usize = 0;
    while i < headers.len()
        invariant
            i <= headers.len(),
            lines@.len() == i,
            forall|j: int| 0 <= j < i ==> all_visible(#[trigger] headers@[j].value@),
            crate::proto::all_chars(lines@) =~= header_lines(headers@, i as int),
        decreases headers.len() - i,
    {
        match format_header(&headers[i]) {
            Ok(line) => {
                let ghost before = lines@;
                lines.push(line);
                assert forall|j: int| 0 <= j < i + 1 implies crate::proto::all_chars(lines@)[j]
                    == header_lines(headers@, i + 1)[j] by {
                    if j < i {
                        assert(lines@[j] == before[j]);
                        assert(crate::proto::all_chars(before)[j] == header_lines(
                            headers@,
                            i as int,
                        )[j]);
                    }
                }
            },
            Err(e) => {
                return Err(e);
            },
        }
        i = i + 1;
    }
    Ok(lines)
}

/// Reads one header line of a response.
pub fn parse_header_line(line: &str) -> (r: Option<Header>)
    ensures
        match r {
            Some(h) => parse_header_spec(line@) == Some(h@),
            None => parse_header_spec(line@) is None,
        },
{
    let (name, rest) = match split_at_colon(line) {
        Some(parts) => parts,
        None => {
            proof {
                line@.index_of_first_ensures(':');
            }
            return None;
        },
    };
    proof {
        let at = name@.len() as int;
        line@.index_of_first_ensures(':');
        assert(line@[at] == ':');
        assert(line@.contains(':'));
        let k = line@.index_of_first(':').unwrap();
        if k < at {
            assert(name@[k] == ':');
            assert(name@.contains(':'));
        }
        assert(k == at);
        assert(line@.take(at) =~= name@);
        assert(line@.skip(at + 1) =~= rest@);
    }
    let name = match read_header_name(name.as_str()) {
        Some(name) => name,
        None => {
            return None;
        },
    };
    let value = trim(rest.as_str());
    if !check_header_value(value.as_str()) {
        return None;
    }
    let bytes = vstd::slice::slice_to_vec(value.as_str().as_bytes());
    Some(Header { name, value: bytes })
}

} // verus!
