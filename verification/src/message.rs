//! From a received frame to a chat message: the envelope is read, its tag is
//! held against its payloads, and a response is checked before it is handed
//! to the caller that waits for it.

use vstd::prelude::*;
use vstd::string::StringSliceAdditionalSpecFns;
use crate::codec::{decode_message, parse_message};
use crate::headers::{Header, header_views, parse_header_line, parse_header_spec};
use crate::ids::RequestId;
use crate::proto::{ChatMessageType, MessageModel, MessageProto, RequestModel, RequestProto};
use crate::proto::{ResponseModel, ResponseProto, TextOrBinary};
use crate::proto::{opt_bytes, opt_chars};

verus! {

/// A request of the caller, before it has an identifier.
#[derive(Debug, PartialEq)]
pub struct Request {
    pub method: String,
    pub path: String,
    pub headers: Vec<Header>,
    pub body: Option<Vec<u8>>,
}

/// A response that passed validation.
#[derive(Debug, PartialEq)]
pub struct Response {
    pub status: u16,
    pub message: Option<String>,
    pub body: Option<Vec<u8>>,
    pub headers: Vec<Header>,
}

/// What a [`Response`] holds.
pub struct ResponseValue {
    pub status: u16,
    pub message: Option<Seq<char>>,
    pub body: Option<Seq<u8>>,
    pub headers: Seq<(Seq<char>, Seq<u8>)>,
}

impl View for Response {
    type V = ResponseValue;

    open spec fn view(&self) -> ResponseValue {
        ResponseValue {
            status: self.status,
            message: opt_chars(self.message),
            body: opt_bytes(self.body),
            headers: header_views(self.headers@),
        }
    }
}

/// The error for a response that does not pass validation.
#[derive(Debug, PartialEq, Eq)]
pub struct ResponseProtoInvalidError;

/// Whether `code` is a status code: a number of three digits.
pub open spec fn is_status_code(code: int) -> bool {
    100 <= code <= 999
}

/// Whether each line stands for a header.
pub open spec fn lines_valid(lines: Seq<Seq<char>>) -> bool {
    forall|i: int| 0 <= i < lines.len() ==> (#[trigger] parse_header_spec(lines[i])) is Some
}

/// The first `n` lines as headers.
pub open spec fn parsed_lines(lines: Seq<Seq<char>>, n: int) -> Seq<(Seq<char>, Seq<u8>)> {
    Seq::new(n as nat, |i: int| parse_header_spec(lines[i]).unwrap())
}

/// The response that a received payload stands for: it needs a status code
/// of three digits, and each of its header lines must be a header.
pub open spec fn response_of(m: ResponseModel) -> Option<ResponseValue> {
    match m.status {
        Some(s) => if is_status_code(s as int) && lines_valid(m.headers) {
            Some(
                ResponseValue {
                    status: s as u16,
                    message: m.message,
                    body: m.body,
                    headers: parsed_lines(m.headers, m.headers.len() as int),
                },
            )
        } else {
            None
        },
        None => None,
    }
}

/// Checks a status code: `StatusCode::from_u16`, which accepts the numbers
/// from 100 to 999, and `StatusCode::as_u16`, which gives the number back.
#[verifier::external_body]
fn status_code(code: u16) -> (r: Option<u16>)
    ensures
        r == if is_status_code(code as int) {
            Some(code)
        } else {
            None
        },
{
    http::StatusCode::from_u16(code).ok().map(|s| s.as_u16())
}

impl Response {
    /// Validates a received response.
    pub fn try_from_proto(proto: ResponseProto) -> (r: Result<Response, ResponseProtoInvalidError>)
        ensures
            match r {
                Ok(v) => response_of(proto@) == Some(v@),
                Err(_) => response_of(proto@) is None,
            },
    {
        let ResponseProto { id: _, status, message, headers: lines, body } = proto;
        let status: u32 = match status {
            Some(s) => s,
            None => {
                return Err(ResponseProtoInvalidError);
            },
        };
        if status > 0xffff {
            return Err(ResponseProtoInvalidError);
        }
        let status: u16 = match status_code(status as u16) {
            Some(s) => s,
            None => {
                return Err(ResponseProtoInvalidError);
            },
        };
        let mut headers: Vec<Header> = Vec::new();
        let mut i: usize = 0;
        while i < lines.len()
            invariant
                i <= lines.len(),
                headers@.len() == i,
                lines@ == proto.headers@,
                forall|j: int|
                    0 <= j < i ==> (#[trigger] parse_header_spec(proto@.headers[j])) is Some,
                header_views(headers@) =~= parsed_lines(proto@.headers, i as int),
            decreases lines.len() - i,
        {
            match parse_header_line(lines[i].as_str()) {
                Some(h) => {
                    let ghost before = headers@;
                    headers.push(h);
                    assert forall|j: int| 0 <= j < i + 1 implies header_views(headers@)[j]
                        == parsed_lines(proto@.headers, i + 1)[j] by {
                        if j < i {
                            assert(headers@[j] == before[j]);
                            assert(header_views(before)[j] == parsed_lines(
                                proto@.headers,
                                i as int,
                            )[j]);
                        }
                    }
                },
                None => {
                    assert(parse_header_spec(proto@.headers[i as int]) is None);
                    return Err(ResponseProtoInvalidError);
                },
            }
            i = i + 1;
        }
        Ok(Response { status, message, body, headers })
    }
}

/// Why a binary frame is no chat message.
#[derive(Debug, PartialEq, Eq)]
pub enum ChatProtoDataError {
    /// The bytes are no envelope.
    InvalidProtobuf,
    /// The tag is a number that names no type.
    InvalidMessageType(i32),
    /// A request-type message has a response value.
    RequestHasResponse,
    /// A response-type message has a request value.
    ResponseHasRequest,
    /// The message type was unknown.
    UnknownMessageType,
    /// The message has no payload.
    MissingPayload,
}

/// Why a frame is no chat message.
#[derive(Debug, PartialEq, Eq)]
pub enum ChatProtocolError {
    /// The frame holds text.
    ReceivedTextMessage { len: usize },
    /// The response to the request with this identifier is invalid.
    InvalidResponse(RequestId),
    /// The frame's bytes are malformed.
    DataError(ChatProtoDataError),
    /// The response has no identifier.
    ResponseMissingId,
    /// The request has no identifier.
    RequestMissingId,
}

/// The payload of a well-formed envelope.
#[derive(Debug, PartialEq)]
pub enum ChatMessageProto {
    Request(RequestProto),
    Response(ResponseProto),
}

/// What a [`ChatMessageProto`] holds.
pub enum PayloadModel {
    Request(RequestModel),
    Response(ResponseModel),
}

impl View for ChatMessageProto {
    type V = PayloadModel;

    open spec fn view(&self) -> PayloadModel {
        match self {
            ChatMessageProto::Request(r) => PayloadModel::Request(r@),
            ChatMessageProto::Response(r) => PayloadModel::Response(r@),
        }
    }
}

/// A message of the peer: a request to hand to the listener, or the answer
/// to one of this side's requests.
#[derive(Debug, PartialEq)]
pub enum ChatMessage {
    Request(u64, RequestProto),
    Response(RequestId, Response),
}

/// What a [`ChatMessage`] holds.
pub enum ChatMessageValue {
    Request(u64, RequestModel),
    Response(RequestId, ResponseValue),
}

impl View for ChatMessage {
    type V = ChatMessageValue;

    open spec fn view(&self) -> ChatMessageValue {
        match self {
            ChatMessage::Request(id, r) => ChatMessageValue::Request(*id, r@),
            ChatMessage::Response(id, r) => ChatMessageValue::Response(*id, r@),
        }
    }
}

/// The payload of an envelope, or what is wrong with it. An absent tag
/// counts as the unknown type. The tag decides first; then a payload of the
/// other kind is refused, and then a missing payload.
pub open spec fn validate_spec(m: MessageModel) -> Result<PayloadModel, ChatProtoDataError> {
    let number = match m.message_type {
        Some(n) => n,
        None => 0,
    };
    match ChatMessageType::of_number(number) {
        None => Err(ChatProtoDataError::InvalidMessageType(number)),
        Some(ChatMessageType::Unknown) => Err(ChatProtoDataError::UnknownMessageType),
        Some(ChatMessageType::Request) => match (m.request, m.response) {
            (Some(req), None) => Ok(PayloadModel::Request(req)),
            (None, None) => Err(ChatProtoDataError::MissingPayload),
            (_, Some(_)) => Err(ChatProtoDataError::RequestHasResponse),
        },
        Some(ChatMessageType::Response) => match (m.request, m.response) {
            (None, Some(res)) => Ok(PayloadModel::Response(res)),
            (None, None) => Err(ChatProtoDataError::MissingPayload),
            (Some(_), _) => Err(ChatProtoDataError::ResponseHasRequest),
        },
    }
}

/// Holds the tag of an envelope against its payloads.
pub fn validate(msg: MessageProto) -> (r: Result<ChatMessageProto, ChatProtoDataError>)
    ensures
        match r {
            Ok(p) => validate_spec(msg@) == Ok::<PayloadModel, ChatProtoDataError>(p@),
            Err(e) => validate_spec(msg@) == Err::<PayloadModel, ChatProtoDataError>(e),
        },
{
    let MessageProto { message_type, request, response } = msg;
    let number: i32 = match message_type {
        Some(n) => n,
        None => 0,
    };
    let message_type = match ChatMessageType::try_from_i32(number) {
        Ok(t) => t,
        Err(n) => {
            return Err(ChatProtoDataError::InvalidMessageType(n));
        },
    };
    match message_type {
        ChatMessageType::Unknown => Err(ChatProtoDataError::UnknownMessageType),
        ChatMessageType::Request => match (request, response) {
            (Some(req), None) => Ok(ChatMessageProto::Request(req)),
            (None, None) => Err(ChatProtoDataError::MissingPayload),
            (_, Some(_)) => Err(ChatProtoDataError::RequestHasResponse),
        },
        ChatMessageType::Response => match (request, response) {
            (None, Some(res)) => Ok(ChatMessageProto::Response(res)),
            (None, None) => Err(ChatProtoDataError::MissingPayload),
            (Some(_), _) => Err(ChatProtoDataError::ResponseHasRequest),
        },
    }
}

/// The payload that `data` holds, or why it holds none.
pub open spec fn decode_and_validate_spec(data: Seq<u8>) -> Result<
    PayloadModel,
    ChatProtoDataError,
> {
    match parse_message(data) {
        None => Err(ChatProtoDataError::InvalidProtobuf),
        Some(m) => validate_spec(m),
    }
}

/// Reads an envelope from bytes and holds its tag against its payloads.
pub fn decode_and_validate(data: &[u8]) -> (r: Result<ChatMessageProto, ChatProtoDataError>)
    ensures
        match r {
            Ok(p) => decode_and_validate_spec(data@) == Ok::<PayloadModel, ChatProtoDataError>(
                p@,
            ),
            Err(e) => decode_and_validate_spec(data@) == Err::<PayloadModel, ChatProtoDataError>(
                e,
            ),
        },
{
    match decode_message(data) {
        None => Err(ChatProtoDataError::InvalidProtobuf),
        Some(msg) => validate(msg),
    }
}

/// What a frame holds.
pub enum FrameModel {
    Text(Seq<char>),
    Binary(Seq<u8>),
}

impl View for TextOrBinary {
    type V = FrameModel;

    open spec fn view(&self) -> FrameModel {
        match self {
            TextOrBinary::Text(t) => FrameModel::Text(t@),
            TextOrBinary::Binary(b) => FrameModel::Binary(b@),
        }
    }
}

/// The chat message that a frame stands for, or why it stands for none:
/// text is refused with its length in bytes; bytes must hold a well-formed
/// envelope; the payload must have an identifier; and a response must pass
/// validation, else the error names the request that it was meant for.
pub open spec fn chat_message_of(frame: FrameModel) -> Result<ChatMessageValue, ChatProtocolError> {
    match frame {
        FrameModel::Text(t) => Err(
            ChatProtocolError::ReceivedTextMessage {
                len: vstd::utf8::encode_utf8(t).len() as usize,
            },
        ),
        FrameModel::Binary(data) => match decode_and_validate_spec(data) {
            Err(e) => Err(ChatProtocolError::DataError(e)),
            Ok(PayloadModel::Request(req)) => match req.id {
                None => Err(ChatProtocolError::RequestMissingId),
                Some(id) => Ok(ChatMessageValue::Request(id, req)),
            },
            Ok(PayloadModel::Response(res)) => match res.id {
                None => Err(ChatProtocolError::ResponseMissingId),
                Some(id) => match response_of(res) {
                    None => Err(ChatProtocolError::InvalidResponse(RequestId(id))),
                    Some(v) => Ok(ChatMessageValue::Response(RequestId(id), v)),
                },
            },
        },
    }
}

impl ChatMessage {
    /// Reads a chat message from a received frame.
    pub fn try_from(message: TextOrBinary) -> (r: Result<ChatMessage, ChatProtocolError>)
        ensures
            match r {
                Ok(m) => chat_message_of(message@) == Ok::<ChatMessageValue, ChatProtocolError>(
                    m@,
                ),
                Err(e) => chat_message_of(message@) == Err::<ChatMessageValue, ChatProtocolError>(
                    e,
                ),
            },
    {
        let data = match message {
            TextOrBinary::Text(text) => {
                return Err(ChatProtocolError::ReceivedTextMessage { len: text.as_str().len() });
            },
            TextOrBinary::Binary(data) => data,
        };
        let payload = match decode_and_validate(data.as_slice()) {
            Ok(p) => p,
            Err(e) => {
                return Err(ChatProtocolError::DataError(e));
            },
        };
        match payload {
            ChatMessageProto::Request(request) => {
                match request.id {
                    Some(id) => Ok(ChatMessage::Request(id, request)),
                    None => Err(ChatProtocolError::RequestMissingId),
                }
            },
            ChatMessageProto::Response(response) => {
                let id: u64 = match response.id {
                    Some(id) => id,
                    None => {
                        return Err(ChatProtocolError::ResponseMissingId);
                    },
                };
                match Response::try_from_proto(response) {
                    Ok(response) => Ok(ChatMessage::Response(RequestId(id), response)),
                    Err(_) => Err(ChatProtocolError::InvalidResponse(RequestId(id))),
                }
            },
        }
    }
}

} // verus!
