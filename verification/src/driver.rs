//! The decisions of the connection task: what one event of the channel below
//! does to the table of requests in flight, what is to be delivered to a
//! waiting caller, what is handed to the listener, and whether the task goes
//! on.

use vstd::prelude::*;
use crate::errors::{NextEventError, StreamSendError, TaskExitError, TaskSendError};
use crate::ids::RequestId;
use crate::inflight::{Delivery, InFlightRequests};
use crate::message::{ChatMessage, ChatMessageValue, ChatProtocolError, ResponseValue};
use crate::message::chat_message_of;
use crate::proto::{RequestModel, RequestProto, TextOrBinary};

verus! {

/// Whether a task goes on, and with what.
#[derive(Debug)]
pub enum Outcome<C, F> {
    Continue(C),
    Finished(F),
}

/// What an outgoing frame was sent for.
#[derive(Debug)]
pub enum OutgoingMeta<S> {
    /// A request of this side, with the slot of the caller that waits.
    SentRequest(RequestId, S),
    /// A response to a request of the peer.
    ResponseToIncoming,
}

/// An event of the channel below.
#[derive(Debug)]
pub enum MessageEvent<S> {
    SentPing,
    ReceivedPingPong,
    SentMessage(OutgoingMeta<S>),
    SendFailed(OutgoingMeta<S>, StreamSendError),
    ReceivedMessage(TextOrBinary),
}

/// What the connection task hands to the listener.
#[derive(Debug, PartialEq)]
pub enum IncomingEvent {
    ReceivedRequest { id: u64, request: RequestProto },
}

/// What the connection task does after one event.
#[derive(Debug)]
pub struct Step<S> {
    /// Whether the task goes on, and the request to hand to the listener.
    pub outcome: Outcome<Option<IncomingEvent>, Result<(), TaskExitError>>,
    /// What to tell a waiting caller.
    pub delivery: Option<Delivery<S>>,
}

/// What a [`Step`] holds.
pub struct StepModel<S> {
    pub outcome: Outcome<Option<(u64, RequestModel)>, Result<(), TaskExitError>>,
    pub delivery: Option<(S, Result<ResponseValue, TaskSendError>)>,
}

impl<S> View for Step<S> {
    type V = StepModel<S>;

    open spec fn view(&self) -> StepModel<S> {
        StepModel {
            outcome: match self.outcome {
                Outcome::Continue(Some(IncomingEvent::ReceivedRequest { id, request })) => {
                    Outcome::Continue(Some((id, request@)))
                },
                Outcome::Continue(None) => Outcome::Continue(None),
                Outcome::Finished(r) => Outcome::Finished(r),
            },
            delivery: match self.delivery {
                Some(d) => Some(
                    (
                        d.slot,
                        match d.result {
                            Ok(response) => Ok(response@),
                            Err(e) => Err(e),
                        },
                    ),
                ),
                None => None,
            },
        }
    }
}

/// A step that goes on and does nothing else.
pub open spec fn idle_step<S>() -> StepModel<S> {
    StepModel { outcome: Outcome::Continue(None), delivery: None }
}

/// The step that ends the wait for `id` with `result`: the waiting caller,
/// if there is one, is told; the task goes on either way.
pub open spec fn finish_step<S>(
    table: Map<u64, S>,
    id: RequestId,
    result: Result<ResponseValue, TaskSendError>,
) -> StepModel<S> {
    StepModel {
        outcome: Outcome::Continue(None),
        delivery: if table.contains_key(id.0) {
            Some((table[id.0], result))
        } else {
            None
        },
    }
}

/// The table of requests in flight after an event.
pub open spec fn table_after<S>(
    table: Map<u64, S>,
    event: Outcome<MessageEvent<S>, Result<(), NextEventError>>,
) -> Map<u64, S> {
    match event {
        Outcome::Continue(MessageEvent::SentMessage(OutgoingMeta::SentRequest(id, slot))) => {
            table.insert(id.0, slot)
        },
        Outcome::Continue(MessageEvent::ReceivedMessage(frame)) => match chat_message_of(frame@) {
            Err(ChatProtocolError::InvalidResponse(id)) => table.remove(id.0),
            Ok(ChatMessageValue::Response(id, _)) => table.remove(id.0),
            _ => table,
        },
        _ => table,
    }
}

/// What the task does after an event.
///
/// The end of the channel ends the task, gracefully or with the channel's
/// error. Pings and frames that were sent leave it idle. A frame that could
/// not be sent ends it, after the caller whose request it was is told. A
/// received frame that is no chat message is passed over; an answer, valid or
/// not, ends the wait of its request; a request goes to the listener.
pub open spec fn step_of<S>(
    table: Map<u64, S>,
    event: Outcome<MessageEvent<S>, Result<(), NextEventError>>,
) -> StepModel<S> {
    match event {
        Outcome::Finished(Ok(())) => StepModel {
            outcome: Outcome::Finished(Ok(())),
            delivery: None,
        },
        Outcome::Finished(Err(err)) => StepModel {
            outcome: Outcome::Finished(Err(TaskExitError::WebsocketError(err))),
            delivery: None,
        },
        Outcome::Continue(MessageEvent::SentPing) => idle_step(),
        Outcome::Continue(MessageEvent::ReceivedPingPong) => idle_step(),
        Outcome::Continue(MessageEvent::SentMessage(_)) => idle_step(),
        Outcome::Continue(MessageEvent::SendFailed(meta, send_error)) => StepModel {
            outcome: Outcome::Finished(send_error.as_exit()),
            delivery: match meta {
                OutgoingMeta::SentRequest(_, slot) => Some(
                    (slot, Err(TaskSendError::StreamSendFailed(send_error))),
                ),
                OutgoingMeta::ResponseToIncoming => None,
            },
        },
        Outcome::Continue(MessageEvent::ReceivedMessage(frame)) => match chat_message_of(frame@) {
            Err(ChatProtocolError::InvalidResponse(id)) => finish_step(
                table,
                id,
                Err(TaskSendError::InvalidResponse),
            ),
            Err(_) => idle_step(),
            Ok(ChatMessageValue::Response(id, response)) => finish_step(table, id, Ok(response)),
            Ok(ChatMessageValue::Request(id, request)) => StepModel {
                outcome: Outcome::Continue(Some((id, request))),
                delivery: None,
            },
        },
    }
}

/// Whether the table can take the event: a request that was sent must not
/// be in flight already.
pub open spec fn accepts<S>(
    table: Map<u64, S>,
    event: Outcome<MessageEvent<S>, Result<(), NextEventError>>,
) -> bool {
    match event {
        Outcome::Continue(MessageEvent::SentMessage(OutgoingMeta::SentRequest(id, _))) => {
            !table.contains_key(id.0)
        },
        _ => true,
    }
}

/// Handles one event of the channel below.
pub fn handle_inner_response<S>(
    requests_in_flight: &mut InFlightRequests<S>,
    event: Outcome<MessageEvent<S>, Result<(), NextEventError>>,
) -> (step: Step<S>)
    requires
        accepts(old(requests_in_flight)@, event),
    ensures
        final(requests_in_flight)@ == table_after(old(requests_in_flight)@, event),
        step@ == step_of(old(requests_in_flight)@, event),
{
    match event {
        Outcome::Finished(Ok(())) => {
            return Step { outcome: Outcome::Finished(Ok(())), delivery: None };
        },
        Outcome::Finished(Err(err)) => {
            return Step {
                outcome: Outcome::Finished(Err(TaskExitError::WebsocketError(err))),
                delivery: None,
            };
        },
        Outcome::Continue(MessageEvent::SentPing) => {},
        Outcome::Continue(MessageEvent::ReceivedPingPong) => {},
        Outcome::Continue(MessageEvent::SentMessage(OutgoingMeta::SentRequest(
            id,
            response_sender,
        ))) => {
            requests_in_flight.record_send(id, response_sender);
        },
        Outcome::Continue(MessageEvent::SentMessage(OutgoingMeta::ResponseToIncoming)) => {},
        Outcome::Continue(MessageEvent::SendFailed(meta, send_error)) => {
            let task_exit_status = send_error.exit_status();
            let delivery = match meta {
                OutgoingMeta::SentRequest(_request_id, response_sender) => Some(
                    Delivery {
                        slot: response_sender,
                        result: Err(TaskSendError::StreamSendFailed(send_error)),
                    },
                ),
                OutgoingMeta::ResponseToIncoming => None,
            };
            return Step { outcome: Outcome::Finished(task_exit_status), delivery };
        },
        Outcome::Continue(MessageEvent::ReceivedMessage(message)) => {
            match ChatMessage::try_from(message) {
                Err(ChatProtocolError::InvalidResponse(id)) => {
                    let delivery = requests_in_flight.finish_send(
                        id,
                        Err(TaskSendError::InvalidResponse),
                    );
                    return Step { outcome: Outcome::Continue(None), delivery };
                },
                Err(_) => {},
                Ok(ChatMessage::Response(id, response)) => {
                    let delivery = requests_in_flight.finish_send(id, Ok(response));
                    return Step { outcome: Outcome::Continue(None), delivery };
                },
                Ok(ChatMessage::Request(id, request_proto)) => {
                    return Step {
                        outcome: Outcome::Continue(
                            Some(IncomingEvent::ReceivedRequest { id, request: request_proto }),
                        ),
                        delivery: None,
                    };
                },
            }
        },
    };
    Step { outcome: Outcome::Continue(None), delivery: None }
}

/// The identifier of the request that a frame answers, where it holds a
/// valid response.
pub open spec fn answered_id(frame: TextOrBinary) -> Option<RequestId> {
    match chat_message_of(frame@) {
        Ok(ChatMessageValue::Response(id, _)) => Some(id),
        _ => None,
    }
}

/// The identifier of the request that an event ends the wait for: the one
/// that a response names, valid or not.
pub open spec fn finished_id(frame: TextOrBinary) -> Option<RequestId> {
    match chat_message_of(frame@) {
        Ok(ChatMessageValue::Response(id, _)) => Some(id),
        Err(ChatProtocolError::InvalidResponse(id)) => Some(id),
        _ => None,
    }
}

/// The identifier under which an event puts a request in flight.
pub open spec fn sent_id<S>(event: Outcome<MessageEvent<S>, Result<(), NextEventError>>) -> Option<
    u64,
> {
    match event {
        Outcome::Continue(MessageEvent::SentMessage(OutgoingMeta::SentRequest(id, _))) => Some(
            id.0,
        ),
        _ => None,
    }
}

/// The event of a received frame.
pub open spec fn received<S>(frame: TextOrBinary) -> Outcome<
    MessageEvent<S>,
    Result<(), NextEventError>,
> {
    Outcome::Continue(MessageEvent::ReceivedMessage(frame))
}

/// An answer goes to the caller whose request it answers, and to nobody
/// else: it is delivered to the slot that was recorded under its identifier,
/// and with that the identifier leaves the table, so that a second answer
/// with the same identifier finds nobody.
pub proof fn lemma_answer_delivered_once<S>(
    table: Map<u64, S>,
    frame: TextOrBinary,
    again: TextOrBinary,
)
    requires
        answered_id(frame) is Some,
        answered_id(again) == answered_id(frame),
    ensures
        step_of(table, received(frame)).delivery is Some <==> table.contains_key(
            answered_id(frame).unwrap().0,
        ),
        step_of(table, received(frame)).delivery is Some ==> step_of(
            table,
            received(frame),
        ).delivery.unwrap().0 == table[answered_id(frame).unwrap().0],
        step_of(table, received(frame)).delivery is Some ==> step_of(
            table,
            received(frame),
        ).delivery.unwrap().1 is Ok,
        !table_after(table, received(frame)).contains_key(answered_id(frame).unwrap().0),
        forall|other: u64|
            other != answered_id(frame).unwrap().0 ==> (table_after(
                table,
                received(frame),
            ).contains_key(other) <==> table.contains_key(other)),
        step_of(table_after(table, received(frame)), received(again)) == idle_step::<S>(),
{
}

/// A frame of text is passed over: the task goes on, nobody is told
/// anything, and the requests in flight stay as they are.
pub proof fn lemma_text_frame_passed_over<S>(table: Map<u64, S>, text: String)
    ensures
        step_of(table, received(TextOrBinary::Text(text))) == idle_step::<S>(),
        table_after(table, received(TextOrBinary::Text(text))) == table,
{
}

/// A response to a request that is not in flight has no effect: the task
/// goes on, neither the listener nor any caller is told, and the table stays
/// as it is.
pub proof fn lemma_unknown_response_ignored<S>(table: Map<u64, S>, frame: TextOrBinary)
    requires
        finished_id(frame) is Some,
        !table.contains_key(finished_id(frame).unwrap().0),
    ensures
        step_of(table, received(frame)) == idle_step::<S>(),
        table_after(table, received(frame)) == table,
{
    assert(table.remove(finished_id(frame).unwrap().0) =~= table);
}

/// Only a request that was sent adds to the table, and only under its own
/// identifier; no event but the end of the channel or a failed send ends the
/// task.
pub proof fn lemma_step_shape<S>(
    table: Map<u64, S>,
    event: Outcome<MessageEvent<S>, Result<(), NextEventError>>,
)
    ensures
        step_of(table, event).outcome is Finished <==> (event is Finished || (event
            is Continue && event->Continue_0 is SendFailed)),
        forall|id: u64|
            table_after(table, event).contains_key(id) && !table.contains_key(id) ==> sent_id(
                event,
            ) == Some(id),
{
}

/// An answer reaches the caller that sent the request: once a request was
/// sent under an identifier, a valid response with that identifier is
/// delivered to the slot that the request came with.
pub proof fn lemma_answer_reaches_its_caller<S>(
    table: Map<u64, S>,
    id: RequestId,
    slot: S,
    frame: TextOrBinary,
)
    requires
        answered_id(frame) == Some(id),
    ensures
        ({
            let sent = Outcome::Continue(
                MessageEvent::SentMessage(OutgoingMeta::SentRequest(id, slot)),
            );
            let step = step_of(table_after(table, sent), received(frame));
            &&& step.delivery is Some
            &&& step.delivery.unwrap().0 == slot
            &&& step.delivery.unwrap().1 is Ok
            &&& step.outcome == Outcome::<
                Option<(u64, RequestModel)>,
                Result<(), TaskExitError>,
            >::Continue(None)
        }),
{
}

} // verus!
