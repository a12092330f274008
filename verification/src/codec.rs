//! The envelope in bytes: which fields make up a request, a response and the
//! envelope itself, and how a run of fields is folded into each.
//!
//! Fields may come in any order and more than once. Of a plain field the last
//! occurrence counts, header lines accumulate, and a repeated payload is
//! merged field by field into the one before. Fields with other tags are
//! passed over. Text must be UTF-8.

use vstd::prelude::*;
use vstd::utf8::*;
use crate::proto::{MessageModel, MessageProto, RequestModel, RequestProto};
use crate::proto::{ResponseModel, ResponseProto};
use crate::proto::{all_chars, opt_bytes, opt_chars};
use crate::wire::{Field, FieldData, WireField, WireValue};
use crate::wire::{bytes_field, decode_fold, parse_fold, varint_field};
use crate::wire::{lemma_bytes_field_round_trip, lemma_varint_field_round_trip};
use crate::wire::lemma_parse_fold_field;
use crate::wire::{write_bytes_field, write_varint_field};
use vstd::string::StringSliceAdditionalSpecFns;

verus! {

/// How deep the fields of an envelope may be nested in groups.
pub const ENVELOPE_DEPTH: u32 = 100;

/// How deep the fields of a payload may be nested in groups: one level less
/// than those of the envelope that holds it.
pub const PAYLOAD_DEPTH: u32 = 99;

/// The text that a field's value holds.
pub open spec fn text_of(v: WireValue) -> Option<Seq<char>> {
    match v {
        WireValue::Bytes(b) => if valid_utf8(b) {
            Some(decode_utf8(b))
        } else {
            None
        },
        _ => None,
    }
}

/// The bytes that a field's value holds.
pub open spec fn bytes_of(v: WireValue) -> Option<Seq<u8>> {
    match v {
        WireValue::Bytes(b) => Some(b),
        _ => None,
    }
}

/// The number that a field's value holds.
pub open spec fn number_of(v: WireValue) -> Option<u64> {
    match v {
        WireValue::Varint(n) => Some(n),
        _ => None,
    }
}

/// A request with nothing in it.
pub open spec fn empty_request() -> RequestModel {
    RequestModel { verb: None, path: None, body: None, headers: Seq::empty(), id: None }
}

/// A response with nothing in it.
pub open spec fn empty_response() -> ResponseModel {
    ResponseModel { id: None, status: None, message: None, headers: Seq::empty(), body: None }
}

/// An envelope with nothing in it.
pub open spec fn empty_message() -> MessageModel {
    MessageModel { message_type: None, request: None, response: None }
}

/// A request after one more field: `None` where the field has the tag of a
/// request's field and a value of another shape.
pub open spec fn request_apply(acc: RequestModel, f: WireField) -> Option<RequestModel> {
    if f.tag == 1 {
        match text_of(f.value) {
            Some(t) => Some(RequestModel { verb: Some(t), ..acc }),
            None => None,
        }
    } else if f.tag == 2 {
        match text_of(f.value) {
            Some(t) => Some(RequestModel { path: Some(t), ..acc }),
            None => None,
        }
    } else if f.tag == 3 {
        match bytes_of(f.value) {
            Some(b) => Some(RequestModel { body: Some(b), ..acc }),
            None => None,
        }
    } else if f.tag == 4 {
        match number_of(f.value) {
            Some(n) => Some(RequestModel { id: Some(n), ..acc }),
            None => None,
        }
    } else if f.tag == 5 {
        match text_of(f.value) {
            Some(t) => Some(RequestModel { headers: acc.headers.push(t), ..acc }),
            None => None,
        }
    } else {
        Some(acc)
    }
}

/// What one field makes of a request.
pub open spec fn request_step() -> spec_fn(RequestModel, WireField) -> Option<RequestModel> {
    |acc: RequestModel, f: WireField| request_apply(acc, f)
}

/// The request that `b` holds, merged into `acc`.
pub open spec fn parse_request(b: Seq<u8>, acc: RequestModel) -> Option<RequestModel> {
    parse_fold(b, PAYLOAD_DEPTH as nat, acc, request_step())
}

/// A response after one more field.
pub open spec fn response_apply(acc: ResponseModel, f: WireField) -> Option<ResponseModel> {
    if f.tag == 1 {
        match number_of(f.value) {
            Some(n) => Some(ResponseModel { id: Some(n), ..acc }),
            None => None,
        }
    } else if f.tag == 2 {
        match number_of(f.value) {
            Some(n) => Some(ResponseModel { status: Some((n % 0x1_0000_0000) as u32), ..acc }),
            None => None,
        }
    } else if f.tag == 3 {
        match text_of(f.value) {
            Some(t) => Some(ResponseModel { message: Some(t), ..acc }),
            None => None,
        }
    } else if f.tag == 4 {
        match bytes_of(f.value) {
            Some(b) => Some(ResponseModel { body: Some(b), ..acc }),
            None => None,
        }
    } else if f.tag == 5 {
        match text_of(f.value) {
            Some(t) => Some(ResponseModel { headers: acc.headers.push(t), ..acc }),
            None => None,
        }
    } else {
        Some(acc)
    }
}

/// What one field makes of a response.
pub open spec fn response_step() -> spec_fn(ResponseModel, WireField) -> Option<ResponseModel> {
    |acc: ResponseModel, f: WireField| response_apply(acc, f)
}

/// The response that `b` holds, merged into `acc`.
pub open spec fn parse_response(b: Seq<u8>, acc: ResponseModel) -> Option<ResponseModel> {
    parse_fold(b, PAYLOAD_DEPTH as nat, acc, response_step())
}

/// The signed 32-bit number that the low 32 bits of `n` stand for.
pub open spec fn low_i32(n: u64) -> i32 {
    let low = n % 0x1_0000_0000;
    if low >= 0x8000_0000 {
        (low - 0x1_0000_0000) as i32
    } else {
        low as i32
    }
}

/// An envelope after one more field.
pub open spec fn message_apply(acc: MessageModel, f: WireField) -> Option<MessageModel> {
    if f.tag == 1 {
        match number_of(f.value) {
            Some(n) => Some(MessageModel { message_type: Some(low_i32(n)), ..acc }),
            None => None,
        }
    } else if f.tag == 2 {
        match bytes_of(f.value) {
            Some(b) => match parse_request(
                b,
                match acc.request {
                    Some(r) => r,
                    None => empty_request(),
                },
            ) {
                Some(r) => Some(MessageModel { request: Some(r), ..acc }),
                None => None,
            },
            None => None,
        }
    } else if f.tag == 3 {
        match bytes_of(f.value) {
            Some(b) => match parse_response(
                b,
                match acc.response {
                    Some(r) => r,
                    None => empty_response(),
                },
            ) {
                Some(r) => Some(MessageModel { response: Some(r), ..acc }),
                None => None,
            },
            None => None,
        }
    } else {
        Some(acc)
    }
}

/// What one field makes of an envelope.
pub open spec fn message_step() -> spec_fn(MessageModel, WireField) -> Option<MessageModel> {
    |acc: MessageModel, f: WireField| message_apply(acc, f)
}

/// The envelope that the fields in `b` make of `acc`.
pub open spec fn message_rest(b: Seq<u8>, acc: MessageModel) -> Option<MessageModel> {
    parse_fold(b, ENVELOPE_DEPTH as nat, acc, message_step())
}

/// The envelope that `b` holds; `None` where `b` is no envelope.
pub open spec fn parse_message(b: Seq<u8>) -> Option<MessageModel> {
    message_rest(b, empty_message())
}

/// Reads a `String` from UTF-8: `String::from_utf8`, which succeeds exactly
/// on valid UTF-8 and then holds the characters that the bytes encode.
#[verifier::external_body]
fn string_from_utf8(bytes: Vec<u8>) -> (r: Option<String>)
    ensures
        match r {
            Some(s) => valid_utf8(bytes@) && s@ == decode_utf8(bytes@),
            None => !valid_utf8(bytes@),
        },
{
    String::from_utf8(bytes).ok()
}

/// Takes the text out of a field's value.
fn take_text(data: FieldData) -> (r: Option<String>)
    ensures
        opt_chars(r) == text_of((Field { tag: 0, data })@.value),
{
    match data {
        FieldData::Bytes(b) => string_from_utf8(b),
        _ => None,
    }
}

/// Takes the bytes out of a field's value.
fn take_bytes(data: FieldData) -> (r: Option<Vec<u8>>)
    ensures
        opt_bytes(r) == bytes_of((Field { tag: 0, data })@.value),
{
    match data {
        FieldData::Bytes(b) => Some(b),
        _ => None,
    }
}

/// Takes the number out of a field's value.
fn take_number(data: &FieldData) -> (r: Option<u64>)
    ensures
        r == number_of((Field { tag: 0, data: *data })@.value),
{
    match data {
        FieldData::Varint(n) => Some(*n),
        _ => None,
    }
}

impl RequestProto {
    /// A request with nothing in it.
    pub fn empty() -> (r: RequestProto)
        ensures
            r@ == empty_request(),
    {
        let r = RequestProto { verb: None, path: None, body: None, headers: Vec::new(), id: None };
        assert(r@.headers =~= Seq::empty());
        r
    }

    /// Merges one field into this request.
    fn apply(self, f: Field) -> (r: Option<RequestProto>)
        ensures
            match r {
                Some(q) => request_apply(self@, f@) == Some(q@),
                None => request_apply(self@, f@) is None,
            },
    {
        let mut acc = self;
        let Field { tag, data } = f;
        if tag == 1 {
            match take_text(data) {
                Some(t) => {
                    acc.verb = Some(t);
                },
                None => {
                    return None;
                },
            }
        } else if tag == 2 {
            match take_text(data) {
                Some(t) => {
                    acc.path = Some(t);
                },
                None => {
                    return None;
                },
            }
        } else if tag == 3 {
            match take_bytes(data) {
                Some(b) => {
                    acc.body = Some(b);
                },
                None => {
                    return None;
                },
            }
        } else if tag == 4 {
            match take_number(&data) {
                Some(n) => {
                    acc.id = Some(n);
                },
                None => {
                    return None;
                },
            }
        } else if tag == 5 {
            match take_text(data) {
                Some(t) => {
                    acc.headers.push(t);
                    assert(all_chars(acc.headers@) =~= all_chars(self.headers@).push(t@));
                },
                None => {
                    return None;
                },
            }
        }
        Some(acc)
    }
}

/// Reads a request from `data` and merges it into `start`.
pub fn decode_request(data: &[u8], start: RequestProto) -> (r: Option<RequestProto>)
    ensures
        match r {
            Some(q) => parse_request(data@, start@) == Some(q@),
            None => parse_request(data@, start@) is None,
        },
{
    let apply = |acc: RequestProto, f: Field| -> (r: Option<RequestProto>)
        ensures
            match r {
                Some(q) => request_apply(acc@, f@) == Some(q@),
                None => request_apply(acc@, f@) is None,
            },
    {
        acc.apply(f)
    };
    decode_fold(data, PAYLOAD_DEPTH, start, apply, Ghost(request_step()))
}

impl ResponseProto {
    /// A response with nothing in it.
    pub fn empty() -> (r: ResponseProto)
        ensures
            r@ == empty_response(),
    {
        let r = ResponseProto {
            id: None,
            status: None,
            message: None,
            headers: Vec::new(),
            body: None,
        };
        assert(r@.headers =~= Seq::empty());
        r
    }

    /// Merges one field into this response.
    fn apply(self, f: Field) -> (r: Option<ResponseProto>)
        ensures
            match r {
                Some(q) => response_apply(self@, f@) == Some(q@),
                None => response_apply(self@, f@) is None,
            },
    {
        let mut acc = self;
        let Field { tag, data } = f;
        if tag == 1 {
            match take_number(&data) {
                Some(n) => {
                    acc.id = Some(n);
                },
                None => {
                    return None;
                },
            }
        } else if tag == 2 {
            match take_number(&data) {
                Some(n) => {
                    let low: u64 = n % 0x1_0000_0000;
                    acc.status = Some(low as u32);
                },
                None => {
                    return None;
                },
            }
        } else if tag == 3 {
            match take_text(data) {
                Some(t) => {
                    acc.message = Some(t);
                },
                None => {
                    return None;
                },
            }
        } else if tag == 4 {
            match take_bytes(data) {
                Some(b) => {
                    acc.body = Some(b);
                },
                None => {
                    return None;
                },
            }
        } else if tag == 5 {
            match take_text(data) {
                Some(t) => {
                    acc.headers.push(t);
                    assert(all_chars(acc.headers@) =~= all_chars(self.headers@).push(t@));
                },
                None => {
                    return None;
                },
            }
        }
        Some(acc)
    }
}

/// Reads a response from `data` and merges it into `start`.
pub fn decode_response(data: &[u8], start: ResponseProto) -> (r: Option<ResponseProto>)
    ensures
        match r {
            Some(q) => parse_response(data@, start@) == Some(q@),
            None => parse_response(data@, start@) is None,
        },
{
    let apply = |acc: ResponseProto, f: Field| -> (r: Option<ResponseProto>)
        ensures
            match r {
                Some(q) => response_apply(acc@, f@) == Some(q@),
                None => response_apply(acc@, f@) is None,
            },
    {
        acc.apply(f)
    };
    decode_fold(data, PAYLOAD_DEPTH, start, apply, Ghost(response_step()))
}

impl MessageProto {
    /// An envelope with nothing in it.
    pub fn empty() -> (r: MessageProto)
        ensures
            r@ == empty_message(),
    {
        MessageProto { message_type: None, request: None, response: None }
    }

    /// Merges one field into this envelope.
    fn apply(self, f: Field) -> (r: Option<MessageProto>)
        ensures
            match r {
                Some(q) => message_apply(self@, f@) == Some(q@),
                None => message_apply(self@, f@) is None,
            },
    {
        let MessageProto { message_type, request, response } = self;
        let Field { tag, data } = f;
        if tag == 1 {
            match take_number(&data) {
                Some(n) => {
                    let low: u64 = n % 0x1_0000_0000;
                    let t: i32 = if low >= 0x8000_0000 {
                        (low as i64 - 0x1_0000_0000) as i32
                    } else {
                        low as i32
                    };
                    Some(MessageProto { message_type: Some(t), request, response })
                },
                None => None,
            }
        } else if tag == 2 {
            match take_bytes(data) {
                Some(b) => {
                    let start = match request {
                        Some(r) => r,
                        None => RequestProto::empty(),
                    };
                    match decode_request(b.as_slice(), start) {
                        Some(r) => Some(MessageProto { message_type, request: Some(r), response }),
                        None => None,
                    }
                },
                None => None,
            }
        } else if tag == 3 {
            match take_bytes(data) {
                Some(b) => {
                    let start = match response {
                        Some(r) => r,
                        None => ResponseProto::empty(),
                    };
                    match decode_response(b.as_slice(), start) {
                        Some(r) => Some(MessageProto { message_type, request, response: Some(r) }),
                        None => None,
                    }
                },
                None => None,
            }
        } else {
            Some(MessageProto { message_type, request, response })
        }
    }
}

/// Reads an envelope from `data`; `None` where `data` holds none.
pub fn decode_message(data: &[u8]) -> (r: Option<MessageProto>)
    ensures
        match r {
            Some(m) => parse_message(data@) == Some(m@),
            None => parse_message(data@) is None,
        },
{
    let apply = |acc: MessageProto, f: Field| -> (r: Option<MessageProto>)
        ensures
            match r {
                Some(q) => message_apply(acc@, f@) == Some(q@),
                None => message_apply(acc@, f@) is None,
            },
    {
        acc.apply(f)
    };
    decode_fold(data, ENVELOPE_DEPTH, MessageProto::empty(), apply, Ghost(message_step()))
}

/// The field that holds a text, if there is one.
pub open spec fn opt_text_field(tag: u32, t: Option<Seq<char>>) -> Seq<u8> {
    match t {
        Some(t) => bytes_field(tag, encode_utf8(t)),
        None => Seq::empty(),
    }
}

/// The field that holds a run of bytes, if there is one.
pub open spec fn opt_bytes_field(tag: u32, b: Option<Seq<u8>>) -> Seq<u8> {
    match b {
        Some(b) => bytes_field(tag, b),
        None => Seq::empty(),
    }
}

/// The field that holds a number, if there is one.
pub open spec fn opt_number_field(tag: u32, n: Option<u64>) -> Seq<u8> {
    match n {
        Some(n) => varint_field(tag, n),
        None => Seq::empty(),
    }
}

/// One field for each line, in order.
pub open spec fn text_fields(tag: u32, lines: Seq<Seq<char>>) -> Seq<u8>
    decreases lines.len(),
{
    if lines.len() == 0 {
        Seq::empty()
    } else {
        text_fields(tag, lines.drop_last()) + bytes_field(tag, encode_utf8(lines.last()))
    }
}

/// The bytes of a request, its fields in the order of their tags: verb,
/// path, body, identifier, header lines.
pub open spec fn encode_request(m: RequestModel) -> Seq<u8> {
    opt_text_field(1, m.verb) + (opt_text_field(2, m.path) + (opt_bytes_field(3, m.body) + (
    opt_number_field(4, m.id) + text_fields(5, m.headers))))
}

/// The bytes of a response, its fields in the order of their tags:
/// identifier, status, message, body, header lines.
pub open spec fn encode_response(m: ResponseModel) -> Seq<u8> {
    opt_number_field(1, m.id) + (opt_number_field(
        2,
        match m.status {
            Some(s) => Some(s as u64),
            None => None,
        },
    ) + (opt_text_field(3, m.message) + (opt_bytes_field(4, m.body) + text_fields(5, m.headers))))
}

/// The 64-bit number that carries a signed 32-bit one: negative numbers are
/// extended by their sign.
pub open spec fn wide(n: i32) -> u64 {
    if n >= 0 {
        n as u64
    } else {
        (0x1_0000_0000_0000_0000 + n) as u64
    }
}

/// The bytes of an envelope: tag, request, response.
pub open spec fn encode_message(m: MessageModel) -> Seq<u8> {
    opt_number_field(
        1,
        match m.message_type {
            Some(t) => Some(wide(t)),
            None => None,
        },
    ) + (opt_bytes_field(
        2,
        match m.request {
            Some(r) => Some(encode_request(r)),
            None => None,
        },
    ) + opt_bytes_field(
        3,
        match m.response {
            Some(r) => Some(encode_response(r)),
            None => None,
        },
    ))
}

/// Whether a text can be written: its length in bytes fits 64 bits.
pub open spec fn text_fits(t: Option<Seq<char>>) -> bool {
    match t {
        Some(t) => encode_utf8(t).len() <= u64::MAX,
        None => true,
    }
}

/// Whether a run of bytes can be written.
pub open spec fn bytes_fit(b: Option<Seq<u8>>) -> bool {
    match b {
        Some(b) => b.len() <= u64::MAX,
        None => true,
    }
}

/// Whether each line can be written.
pub open spec fn lines_fit(lines: Seq<Seq<char>>) -> bool {
    forall|i: int| 0 <= i < lines.len() ==> encode_utf8(#[trigger] lines[i]).len() <= u64::MAX
}

/// Whether a request can be written.
pub open spec fn request_fits(m: RequestModel) -> bool {
    text_fits(m.verb) && text_fits(m.path) && bytes_fit(m.body) && lines_fit(m.headers)
}

/// Whether a response can be written.
pub open spec fn response_fits(m: ResponseModel) -> bool {
    text_fits(m.message) && bytes_fit(m.body) && lines_fit(m.headers)
}

/// Whether an envelope can be written.
pub open spec fn message_fits(m: MessageModel) -> bool {
    &&& match m.request {
        Some(r) => request_fits(r) && encode_request(r).len() <= u64::MAX,
        None => true,
    }
    &&& match m.response {
        Some(r) => response_fits(r) && encode_response(r).len() <= u64::MAX,
        None => true,
    }
}

/// An optional text, written in front of `rest`, is read back and applied
/// before `rest` is read.
proof fn lemma_opt_text<A>(
    tag: u32,
    t: Option<Seq<char>>,
    rest: Seq<u8>,
    budget: nat,
    acc: A,
    apply: spec_fn(A, WireField) -> Option<A>,
)
    requires
        1 <= tag < 0x2000_0000,
        text_fits(t),
        budget > 0,
    ensures
        parse_fold(opt_text_field(tag, t) + rest, budget, acc, apply) == match t {
            Some(t) => match apply(
                acc,
                WireField { tag, value: WireValue::Bytes(encode_utf8(t)) },
            ) {
                Some(next) => parse_fold(rest, budget, next, apply),
                None => None,
            },
            None => parse_fold(rest, budget, acc, apply),
        },
        t matches Some(t) ==> text_of(WireValue::Bytes(encode_utf8(t))) == Some(t),
{
    match t {
        Some(t) => {
            lemma_bytes_field_round_trip(tag, encode_utf8(t), rest, budget);
            lemma_parse_fold_field(
                bytes_field(tag, encode_utf8(t)),
                WireField { tag, value: WireValue::Bytes(encode_utf8(t)) },
                rest,
                budget,
                acc,
                apply,
            );
            encode_utf8_valid_utf8(t);
            encode_utf8_decode_utf8(t);
        },
        None => {
            assert(opt_text_field(tag, t) + rest =~= rest);
        },
    }
}

/// An optional run of bytes, written in front of `rest`, is read back and
/// applied before `rest` is read.
proof fn lemma_opt_bytes<A>(
    tag: u32,
    b: Option<Seq<u8>>,
    rest: Seq<u8>,
    budget: nat,
    acc: A,
    apply: spec_fn(A, WireField) -> Option<A>,
)
    requires
        1 <= tag < 0x2000_0000,
        bytes_fit(b),
        budget > 0,
    ensures
        parse_fold(opt_bytes_field(tag, b) + rest, budget, acc, apply) == match b {
            Some(b) => match apply(acc, WireField { tag, value: WireValue::Bytes(b) }) {
                Some(next) => parse_fold(rest, budget, next, apply),
                None => None,
            },
            None => parse_fold(rest, budget, acc, apply),
        },
{
    match b {
        Some(b) => {
            lemma_bytes_field_round_trip(tag, b, rest, budget);
            lemma_parse_fold_field(
                bytes_field(tag, b),
                WireField { tag, value: WireValue::Bytes(b) },
                rest,
                budget,
                acc,
                apply,
            );
        },
        None => {
            assert(opt_bytes_field(tag, b) + rest =~= rest);
        },
    }
}

/// An optional number, written in front of `rest`, is read back and applied
/// before `rest` is read.
proof fn lemma_opt_number<A>(
    tag: u32,
    n: Option<u64>,
    rest: Seq<u8>,
    budget: nat,
    acc: A,
    apply: spec_fn(A, WireField) -> Option<A>,
)
    requires
        1 <= tag < 0x2000_0000,
        budget > 0,
    ensures
        parse_fold(opt_number_field(tag, n) + rest, budget, acc, apply) == match n {
            Some(n) => match apply(acc, WireField { tag, value: WireValue::Varint(n) }) {
                Some(next) => parse_fold(rest, budget, next, apply),
                None => None,
            },
            None => parse_fold(rest, budget, acc, apply),
        },
{
    match n {
        Some(n) => {
            lemma_varint_field_round_trip(tag, n, rest, budget);
            lemma_parse_fold_field(
                varint_field(tag, n),
                WireField { tag, value: WireValue::Varint(n) },
                rest,
                budget,
                acc,
                apply,
            );
        },
        None => {
            assert(opt_number_field(tag, n) + rest =~= rest);
        },
    }
}

/// The header lines of a request, written in front of `rest`, are read back
/// behind those that were there.
proof fn lemma_request_headers(lines: Seq<Seq<char>>, rest: Seq<u8>, acc: RequestModel)
    requires
        lines_fit(lines),
    ensures
        parse_request(text_fields(5, lines) + rest, acc) == parse_request(
            rest,
            RequestModel { headers: acc.headers + lines, ..acc },
        ),
    decreases lines.len(),
{
    if lines.len() == 0 {
        assert(text_fields(5, lines) + rest =~= rest);
        assert(acc.headers + lines =~= acc.headers);
    } else {
        let init = lines.drop_last();
        let last = lines.last();
        let field = bytes_field(5, encode_utf8(last));
        assert(text_fields(5, lines) + rest =~= text_fields(5, init) + (field + rest));
        lemma_request_headers(init, field + rest, acc);
        let mid = RequestModel { headers: acc.headers + init, ..acc };
        lemma_opt_text(5, Some(last), rest, PAYLOAD_DEPTH as nat, mid, request_step());
        assert((acc.headers + init).push(last) =~= acc.headers + lines);
    }
}

/// A request that was written is read back as it was.
pub proof fn lemma_request_round_trip(m: RequestModel)
    requires
        request_fits(m),
    ensures
        parse_request(encode_request(m), empty_request()) == Some(m),
{
    let depth = PAYLOAD_DEPTH as nat;
    let step = request_step();
    let a0 = empty_request();
    let r4 = text_fields(5, m.headers);
    let r3 = opt_number_field(4, m.id) + r4;
    let r2 = opt_bytes_field(3, m.body) + r3;
    let r1 = opt_text_field(2, m.path) + r2;
    lemma_opt_text(1, m.verb, r1, depth, a0, step);
    let a1 = RequestModel { verb: m.verb, ..a0 };
    assert(parse_request(encode_request(m), a0) == parse_request(r1, a1));
    lemma_opt_text(2, m.path, r2, depth, a1, step);
    let a2 = RequestModel { path: m.path, ..a1 };
    assert(parse_request(r1, a1) == parse_request(r2, a2));
    lemma_opt_bytes(3, m.body, r3, depth, a2, step);
    let a3 = RequestModel { body: m.body, ..a2 };
    assert(parse_request(r2, a2) == parse_request(r3, a3));
    lemma_opt_number(4, m.id, r4, depth, a3, step);
    let a4 = RequestModel { id: m.id, ..a3 };
    assert(parse_request(r3, a3) == parse_request(r4, a4));
    let none = Seq::<u8>::empty();
    lemma_request_headers(m.headers, none, a4);
    assert(r4 + none =~= r4);
    assert(a4.headers + m.headers =~= m.headers);
    assert(parse_request(r4, a4) == Some(m));
}

/// The header lines of a response, written in front of `rest`, are read
/// back behind those that were there.
proof fn lemma_response_headers(lines: Seq<Seq<char>>, rest: Seq<u8>, acc: ResponseModel)
    requires
        lines_fit(lines),
    ensures
        parse_response(text_fields(5, lines) + rest, acc) == parse_response(
            rest,
            ResponseModel { headers: acc.headers + lines, ..acc },
        ),
    decreases lines.len(),
{
    if lines.len() == 0 {
        assert(text_fields(5, lines) + rest =~= rest);
        assert(acc.headers + lines =~= acc.headers);
    } else {
        let init = lines.drop_last();
        let last = lines.last();
        let field = bytes_field(5, encode_utf8(last));
        assert(text_fields(5, lines) + rest =~= text_fields(5, init) + (field + rest));
        lemma_response_headers(init, field + rest, acc);
        let mid = ResponseModel { headers: acc.headers + init, ..acc };
        lemma_opt_text(5, Some(last), rest, PAYLOAD_DEPTH as nat, mid, response_step());
        assert((acc.headers + init).push(last) =~= acc.headers + lines);
    }
}

/// A response that was written is read back as it was.
pub proof fn lemma_response_round_trip(m: ResponseModel)
    requires
        response_fits(m),
    ensures
        parse_response(encode_response(m), empty_response()) == Some(m),
{
    let depth = PAYLOAD_DEPTH as nat;
    let step = response_step();
    let a0 = empty_response();
    let status = match m.status {
        Some(s) => Some(s as u64),
        None => None,
    };
    let r4 = text_fields(5, m.headers);
    let r3 = opt_bytes_field(4, m.body) + r4;
    let r2 = opt_text_field(3, m.message) + r3;
    let r1 = opt_number_field(2, status) + r2;
    lemma_opt_number(1, m.id, r1, depth, a0, step);
    let a1 = ResponseModel { id: m.id, ..a0 };
    assert(parse_response(encode_response(m), a0) == parse_response(r1, a1));
    lemma_opt_number(2, status, r2, depth, a1, step);
    let a2 = ResponseModel { status: m.status, ..a1 };
    assert(parse_response(r1, a1) == parse_response(r2, a2));
    lemma_opt_text(3, m.message, r3, depth, a2, step);
    let a3 = ResponseModel { message: m.message, ..a2 };
    assert(parse_response(r2, a2) == parse_response(r3, a3));
    lemma_opt_bytes(4, m.body, r4, depth, a3, step);
    let a4 = ResponseModel { body: m.body, ..a3 };
    assert(parse_response(r3, a3) == parse_response(r4, a4));
    let none = Seq::<u8>::empty();
    lemma_response_headers(m.headers, none, a4);
    assert(r4 + none =~= r4);
    assert(a4.headers + m.headers =~= m.headers);
    assert(parse_response(r4, a4) == Some(m));
}

/// A signed number that was widened is found again in the low 32 bits.
pub proof fn lemma_wide_low(n: i32)
    ensures
        low_i32(wide(n)) == n,
{
}

/// Encoding then decoding an envelope yields the same envelope: its tag and
/// its payloads are read back as they were written.
pub proof fn lemma_message_round_trip(m: MessageModel)
    requires
        message_fits(m),
    ensures
        parse_message(encode_message(m)) == Some(m),
{
    let depth = ENVELOPE_DEPTH as nat;
    let step = message_step();
    let a0 = empty_message();
    let tag = match m.message_type {
        Some(t) => Some(wide(t)),
        None => None,
    };
    let request = match m.request {
        Some(r) => Some(encode_request(r)),
        None => None,
    };
    let response = match m.response {
        Some(r) => Some(encode_response(r)),
        None => None,
    };
    let r2 = opt_bytes_field(3, response);
    let r1 = opt_bytes_field(2, request) + r2;
    lemma_opt_number(1, tag, r1, depth, a0, step);
    if m.message_type is Some {
        lemma_wide_low(m.message_type.unwrap());
    }
    let a1 = MessageModel { message_type: m.message_type, ..a0 };
    assert(parse_message(encode_message(m)) == message_rest(r1, a1));
    lemma_opt_bytes(2, request, r2, depth, a1, step);
    if m.request is Some {
        lemma_request_round_trip(m.request.unwrap());
    }
    let a2 = MessageModel { request: m.request, ..a1 };
    assert(message_rest(r1, a1) == message_rest(r2, a2));
    let none = Seq::<u8>::empty();
    lemma_opt_bytes(3, response, none, depth, a2, step);
    if m.response is Some {
        lemma_response_round_trip(m.response.unwrap());
    }
    assert(r2 + none =~= r2);
    assert(message_rest(r2, a2) == Some(m));
}

/// Appends the field of an optional text.
fn write_opt_text(out: &mut Vec<u8>, tag: u32, t: &Option<String>)
    requires
        tag < 0x2000_0000,
    ensures
        final(out)@ == old(out)@ + opt_text_field(tag, opt_chars(*t)),
{
    match t {
        Some(t) => {
            write_bytes_field(out, tag, t.as_str().as_bytes());
        },
        None => {
            assert(out@ =~= old(out)@ + Seq::<u8>::empty());
        },
    }
}

/// Appends the field of an optional run of bytes.
fn write_opt_bytes(out: &mut Vec<u8>, tag: u32, b: &Option<Vec<u8>>)
    requires
        tag < 0x2000_0000,
    ensures
        final(out)@ == old(out)@ + opt_bytes_field(tag, opt_bytes(*b)),
{
    match b {
        Some(b) => {
            write_bytes_field(out, tag, b.as_slice());
        },
        None => {
            assert(out@ =~= old(out)@ + Seq::<u8>::empty());
        },
    }
}

/// Appends the field of an optional number.
fn write_opt_number(out: &mut Vec<u8>, tag: u32, n: Option<u64>)
    requires
        tag < 0x2000_0000,
    ensures
        final(out)@ == old(out)@ + opt_number_field(tag, n),
{
    match n {
        Some(n) => {
            write_varint_field(out, tag, n);
        },
        None => {
            assert(out@ =~= old(out)@ + Seq::<u8>::empty());
        },
    }
}

/// Appends one field for each line.
fn write_texts(out: &mut Vec<u8>, tag: u32, lines: &Vec<String>)
    requires
        tag < 0x2000_0000,
    ensures
        final(out)@ == old(out)@ + text_fields(tag, all_chars(lines@)),
{
    let ghost all = all_chars(lines@);
    let mut i: usize = 0;
    assert(out@ =~= old(out)@ + text_fields(tag, all.take(0)));
    while i < lines.len()
        invariant
            i <= lines.len(),
            tag < 0x2000_0000,
            all == all_chars(lines@),
            out@ == old(out)@ + text_fields(tag, all.take(i as int)),
        decreases lines.len() - i,
    {
        let ghost before = out@;
        write_bytes_field(out, tag, lines[i].as_str().as_bytes());
        proof {
            let next = all.take(i + 1);
            assert(next.drop_last() =~= all.take(i as int));
            assert(next.last() == lines@[i as int]@);
            assert(out@ =~= old(out)@ + text_fields(tag, next));
        }
        i = i + 1;
    }
    assert(all.take(i as int) =~= all);
}

impl RequestProto {
    /// Appends the bytes of this request.
    pub fn encode(&self, out: &mut Vec<u8>)
        ensures
            final(out)@ == old(out)@ + encode_request(self@),
    {
        write_opt_text(out, 1, &self.verb);
        write_opt_text(out, 2, &self.path);
        write_opt_bytes(out, 3, &self.body);
        write_opt_number(out, 4, self.id);
        write_texts(out, 5, &self.headers);
        assert(out@ =~= old(out)@ + encode_request(self@));
    }
}

impl ResponseProto {
    /// Appends the bytes of this response.
    pub fn encode(&self, out: &mut Vec<u8>)
        ensures
            final(out)@ == old(out)@ + encode_response(self@),
    {
        write_opt_number(out, 1, self.id);
        let status: Option<u64> = match self.status {
            Some(s) => Some(s as u64),
            None => None,
        };
        write_opt_number(out, 2, status);
        write_opt_text(out, 3, &self.message);
        write_opt_bytes(out, 4, &self.body);
        write_texts(out, 5, &self.headers);
        assert(out@ =~= old(out)@ + encode_response(self@));
    }
}

impl MessageProto {
    /// The bytes of this envelope.
    pub fn encode_to_vec(&self) -> (bytes: Vec<u8>)
        ensures
            bytes@ == encode_message(self@),
    {
        let mut out: Vec<u8> = Vec::new();
        let tag: Option<u64> = match self.message_type {
            Some(t) => if t >= 0 {
                Some(t as u64)
            } else {
                Some((0xffff_ffff_ffff_ffffu64 - ((-(t as i64)) as u64)) + 1)
            },
            None => None,
        };
        write_opt_number(&mut out, 1, tag);
        match &self.request {
            Some(r) => {
                let mut inner: Vec<u8> = Vec::new();
                r.encode(&mut inner);
                assert(inner@ =~= encode_request(r@));
                write_bytes_field(&mut out, 2, inner.as_slice());
            },
            None => {},
        }
        match &self.response {
            Some(r) => {
                let mut inner: Vec<u8> = Vec::new();
                r.encode(&mut inner);
                assert(inner@ =~= encode_response(r@));
                write_bytes_field(&mut out, 3, inner.as_slice());
            },
            None => {},
        }
        assert(out@ =~= encode_message(self@));
        out
    }
}

} // verus!
