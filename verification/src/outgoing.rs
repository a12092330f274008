//! What this side sends: requests of its callers, each with the next
//! identifier of the connection, and responses to the peer's requests.

use vstd::prelude::*;
use crate::codec::{encode_message, lemma_message_round_trip, message_fits};
use crate::driver::OutgoingMeta;
use crate::errors::{InvalidRequestError, SendError};
use crate::headers::{all_headers_visible, format_headers, header_lines};
use crate::ids::{RequestId, RequestIdCounter, id_after};
use crate::message::{ChatMessageValue, ChatProtocolError, FrameModel, PayloadModel, Request};
use crate::message::{chat_message_of, decode_and_validate_spec, is_status_code};
use crate::message::ChatProtoDataError;
use crate::proto::{ChatMessageType, MessageModel, MessageProto, RequestModel, RequestProto};
use crate::proto::{ResponseModel, ResponseProto, TextOrBinary};
use crate::proto::{all_chars, opt_bytes};

verus! {

/// A request that is ready to be sent but for its identifier.
#[derive(Debug, PartialEq)]
pub struct PartialRequestProto {
    pub verb: String,
    pub path: String,
    pub body: Option<Vec<u8>>,
    pub headers: Vec<String>,
}

/// What a [`PartialRequestProto`] holds.
pub struct PartialRequestModel {
    pub verb: Seq<char>,
    pub path: Seq<char>,
    pub body: Option<Seq<u8>>,
    pub headers: Seq<Seq<char>>,
}

impl View for PartialRequestProto {
    type V = PartialRequestModel;

    open spec fn view(&self) -> PartialRequestModel {
        PartialRequestModel {
            verb: self.verb@,
            path: self.path@,
            body: opt_bytes(self.body),
            headers: all_chars(self.headers@),
        }
    }
}

/// The request that is sent for `request`, but for its identifier: verb,
/// path and body as they are, each header as a line.
pub open spec fn partial_of(request: Request) -> PartialRequestModel {
    PartialRequestModel {
        verb: request.method@,
        path: request.path@,
        body: opt_bytes(request.body),
        headers: header_lines(request.headers@, request.headers@.len() as int),
    }
}

/// Makes a caller's request ready to be sent; fails, before anything is
/// sent, where the value of a header is not visible ASCII.
pub fn prepare_request(request: Request) -> (r: Result<PartialRequestProto, SendError>)
    ensures
        match r {
            Ok(p) => all_headers_visible(request.headers@) && p@ == partial_of(request),
            Err(e) => !all_headers_visible(request.headers@) && e == SendError::InvalidRequest(
                InvalidRequestError::InvalidHeader,
            ),
        },
{
    let Request { method, path, headers, body } = request;
    match format_headers(&headers) {
        Ok(lines) => Ok(PartialRequestProto { verb: method, path, body, headers: lines }),
        Err(e) => Err(SendError::InvalidRequest(e)),
    }
}

/// The envelope of the request `p` under the identifier `id`.
pub open spec fn request_envelope(p: PartialRequestModel, id: u64) -> MessageModel {
    MessageModel {
        message_type: Some(1i32),
        request: Some(
            RequestModel {
                verb: Some(p.verb),
                path: Some(p.path),
                body: p.body,
                headers: p.headers,
                id: Some(id),
            },
        ),
        response: None,
    }
}

/// A request on its way to the connection task: what to send, and the slot
/// on which its caller waits.
#[derive(Debug)]
pub struct OutgoingRequest<S> {
    pub request: PartialRequestProto,
    pub response_sender: S,
}

impl<S> OutgoingRequest<S> {
    /// The frame that carries this request under the identifier `id`, and
    /// what to remember of it once the frame is sent.
    pub fn make_message(self, id: u64) -> (r: (TextOrBinary, OutgoingMeta<S>))
        ensures
            r.0@ == FrameModel::Binary(encode_message(request_envelope(self.request@, id))),
            r.1 == OutgoingMeta::SentRequest(RequestId(id), self.response_sender),
    {
        let OutgoingRequest { request, response_sender } = self;
        let PartialRequestProto { verb, path, body, headers } = request;
        let message = RequestProto {
            verb: Some(verb),
            path: Some(path),
            body,
            headers,
            id: Some(id),
        };
        let envelope = MessageProto {
            message_type: Some(ChatMessageType::Request.to_i32()),
            request: Some(message),
            response: None,
        };
        let frame = TextOrBinary::Binary(envelope.encode_to_vec());
        (frame, OutgoingMeta::SentRequest(RequestId(id), response_sender))
    }
}

/// A response to a request of the peer.
#[derive(Clone, Copy, Debug)]
pub struct OutgoingResponse {
    pub id: u64,
    pub status: u16,
}

/// The standard phrase for a status code, where it has one.
pub uninterp spec fn canonical_reason_of(status: u16) -> Option<Seq<char>>;

/// Looks up the standard phrase of a status code:
/// `StatusCode::canonical_reason`, on the code that `StatusCode::from_u16`
/// makes of the number.
#[verifier::external_body]
fn canonical_reason(status: u16) -> (r: Option<String>)
    requires
        is_status_code(status as int),
    ensures
        crate::proto::opt_chars(r) == canonical_reason_of(status),
{
    let code = http::StatusCode::from_u16(status).ok()?;
    code.canonical_reason().map(|reason| reason.to_owned())
}

/// The envelope of the response with `status` to the peer's request `id`:
/// the message is the standard phrase of the status, and there are neither
/// headers nor a body.
pub open spec fn response_envelope(id: u64, status: u16) -> MessageModel {
    MessageModel {
        message_type: Some(2i32),
        request: None,
        response: Some(
            ResponseModel {
                id: Some(id),
                status: Some(status as u32),
                message: canonical_reason_of(status),
                headers: Seq::empty(),
                body: None,
            },
        ),
    }
}

/// The frame that carries the response with `status` to the peer's request
/// `id`.
pub fn response_for_status(id: u64, status: u16) -> (frame: TextOrBinary)
    requires
        is_status_code(status as int),
    ensures
        frame@ == FrameModel::Binary(encode_message(response_envelope(id, status))),
{
    let response = ResponseProto {
        id: Some(id),
        status: Some(status as u32),
        message: canonical_reason(status),
        headers: Vec::new(),
        body: None,
    };
    assert(response@.headers =~= Seq::empty());
    let envelope = MessageProto {
        message_type: Some(ChatMessageType::Response.to_i32()),
        request: None,
        response: Some(response),
    };
    TextOrBinary::Binary(envelope.encode_to_vec())
}

/// Gives the next request of the connection its identifier and makes its
/// frame. The identifier is the next of the connection's counter: the
/// initial one for the first request, and one more, around 2^64, for each
/// request after it.
pub fn next_request<S>(counter: &mut RequestIdCounter, request: OutgoingRequest<S>) -> (r: (
    TextOrBinary,
    OutgoingMeta<S>,
))
    ensures
        final(counter).initial() == old(counter).initial(),
        final(counter).count() == old(counter).count() + 1,
        r.0@ == FrameModel::Binary(
            encode_message(request_envelope(request.request@, old(counter).next_id())),
        ),
        r.1 == OutgoingMeta::SentRequest(
            RequestId(old(counter).next_id()),
            request.response_sender,
        ),
{
    let id: u64 = counter.allocate();
    request.make_message(id)
}

/// Makes the frame of a response to the peer.
pub fn next_response<S>(response: OutgoingResponse) -> (r: (TextOrBinary, OutgoingMeta<S>))
    requires
        is_status_code(response.status as int),
    ensures
        r.0@ == FrameModel::Binary(
            encode_message(response_envelope(response.id, response.status)),
        ),
        r.1 == OutgoingMeta::<S>::ResponseToIncoming,
{
    let OutgoingResponse { id, status } = response;
    (response_for_status(id, status), OutgoingMeta::ResponseToIncoming)
}

/// The frame of a request is read back as that request, under the
/// identifier it was sent with.
pub proof fn lemma_request_frame_read_back(p: PartialRequestModel, id: u64)
    requires
        message_fits(request_envelope(p, id)),
    ensures
        chat_message_of(FrameModel::Binary(encode_message(request_envelope(p, id)))) == Ok::<
            ChatMessageValue,
            ChatProtocolError,
        >(ChatMessageValue::Request(id, request_envelope(p, id).request.unwrap())),
{
    lemma_message_round_trip(request_envelope(p, id));
}

/// The frame of a response is read back as a response with the identifier
/// of the request and the status that was sent.
pub proof fn lemma_response_frame_read_back(id: u64, status: u16)
    requires
        message_fits(response_envelope(id, status)),
    ensures
        decode_and_validate_spec(encode_message(response_envelope(id, status))) == Ok::<
            PayloadModel,
            ChatProtoDataError,
        >(PayloadModel::Response(response_envelope(id, status).response.unwrap())),
        response_envelope(id, status).response.unwrap().id == Some(id),
        response_envelope(id, status).response.unwrap().status == Some(status as u32),
{
    lemma_message_round_trip(response_envelope(id, status));
}

} // verus!
