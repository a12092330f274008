use chat_transport::chat::{task_action, Chat, ListenerEvent, TaskAction};
use chat_transport::driver::{handle_inner_response, MessageEvent, Outcome, OutgoingMeta, Step};
use chat_transport::errors::{FinishError, InvalidRequestError, NextEventError, SendError};
use chat_transport::errors::{StreamSendError, TaskErrorState, TaskExitError, TaskSendError};
use chat_transport::headers::Header;
use chat_transport::ids::RequestId;
use chat_transport::inflight::InFlightRequests;
use chat_transport::lifecycle::{reply_outcome, TaskState};
use chat_transport::message::{ChatMessage, ChatProtoDataError, ChatProtocolError};
use chat_transport::message::{Request, Response};
use chat_transport::proto::{MessageProto, RequestProto, ResponseProto, TextOrBinary};

type Event = Outcome<MessageEvent<usize>, Result<(), NextEventError>>;

type Handle = Chat<&'static str, &'static str, &'static str, ()>;

fn get_request(path: &str) -> Request {
    Request {
        method: "GET".to_string(),
        path: path.to_string(),
        headers: vec![Header { name: "req-header".to_string(), value: b"value".to_vec() }],
        body: None,
    }
}

fn incoming_request(id: u64, path: &str) -> Event {
    let envelope = MessageProto {
        message_type: Some(1),
        request: Some(RequestProto {
            verb: Some("GET".to_string()),
            path: Some(path.to_string()),
            body: None,
            headers: vec!["req-header: value".to_string()],
            id: Some(id),
        }),
        response: None,
    };
    Outcome::Continue(MessageEvent::ReceivedMessage(TextOrBinary::Binary(
        envelope.encode_to_vec(),
    )))
}

fn incoming_response(id: u64, status: u32) -> Event {
    let envelope = MessageProto {
        message_type: Some(2),
        request: None,
        response: Some(ResponseProto {
            id: Some(id),
            status: Some(status),
            message: None,
            headers: vec!["resp-header: value".to_string()],
            body: None,
        }),
    };
    Outcome::Continue(MessageEvent::ReceivedMessage(TextOrBinary::Binary(
        envelope.encode_to_vec(),
    )))
}

fn is_idle(step: &Step<usize>) -> bool {
    matches!(step.outcome, Outcome::Continue(None)) && step.delivery.is_none()
}

#[test]
fn response_for_unknown_request_is_ignored() {
    let mut table: InFlightRequests<usize> = InFlightRequests::new();
    table.record_send(RequestId(5), 50);
    let step = handle_inner_response(&mut table, incoming_response(6, 200));
    assert!(is_idle(&step));
    assert_eq!(table.len(), 1);
    assert!(table.contains(RequestId(5)));
    // The answer to the request in flight is delivered once.
    let step = handle_inner_response(&mut table, incoming_response(5, 200));
    assert_eq!(step.delivery.map(|d| d.slot), Some(50));
    let step = handle_inner_response(&mut table, incoming_response(5, 200));
    assert!(is_idle(&step));
}

#[test]
fn invalid_response_is_reported_to_its_caller() {
    let mut table: InFlightRequests<usize> = InFlightRequests::new();
    table.record_send(RequestId(5), 50);
    // A status of two digits is no status.
    let step = handle_inner_response(&mut table, incoming_response(5, 99));
    assert!(matches!(step.outcome, Outcome::Continue(None)));
    let delivery = step.delivery.expect("the caller is told");
    assert_eq!(delivery.slot, 50);
    assert_eq!(delivery.result, Err(TaskSendError::InvalidResponse));
    assert_eq!(reply_outcome(Some(delivery.result)), Err(SendError::InvalidResponse));
    assert_eq!(table.len(), 0);
    // Nobody waits for the next one.
    let step = handle_inner_response(&mut table, incoming_response(5, 99));
    assert!(is_idle(&step));
}

#[test]
fn pings_and_sent_responses_change_nothing() {
    let mut table: InFlightRequests<usize> = InFlightRequests::new();
    table.record_send(RequestId(5), 50);
    let events: Vec<Event> = vec![
        Outcome::Continue(MessageEvent::SentPing),
        Outcome::Continue(MessageEvent::ReceivedPingPong),
        Outcome::Continue(MessageEvent::SentMessage(OutgoingMeta::ResponseToIncoming)),
    ];
    for event in events {
        let step = handle_inner_response(&mut table, event);
        assert!(is_idle(&step));
        assert_eq!(table.len(), 1);
    }
}

#[test]
fn send_failure_exit_reasons() {
    let mut table: InFlightRequests<usize> = InFlightRequests::new();
    let step = handle_inner_response(
        &mut table,
        Outcome::Continue(MessageEvent::SendFailed(
            OutgoingMeta::ResponseToIncoming,
            StreamSendError::ConnectionAlreadyClosed,
        )),
    );
    assert!(step.delivery.is_none());
    assert!(matches!(step.outcome, Outcome::Finished(Ok(()))));

    let step = handle_inner_response(
        &mut table,
        Outcome::Continue(MessageEvent::SendFailed(
            OutgoingMeta::SentRequest(RequestId(1), 9),
            StreamSendError::MessageTooLarge { size: 100, max_size: 64 },
        )),
    );
    let delivery = step.delivery.expect("the caller is told");
    assert_eq!(
        reply_outcome(Some(delivery.result)),
        Err(SendError::MessageTooLarge { size: 100 })
    );
    assert!(matches!(
        step.outcome,
        Outcome::Finished(Err(TaskExitError::SendTooLarge { size: 100, max_size: 64 }))
    ));

    let protocol = tungstenite::error::ProtocolError::ResetWithoutClosingHandshake;
    let step = handle_inner_response(
        &mut table,
        Outcome::Continue(MessageEvent::SendFailed(
            OutgoingMeta::SentRequest(RequestId(2), 10),
            StreamSendError::WebSocketProtocol(protocol.clone()),
        )),
    );
    let delivery = step.delivery.expect("the caller is told");
    assert_eq!(reply_outcome(Some(delivery.result)), Err(SendError::Protocol(protocol.clone())));
    match step.outcome {
        Outcome::Finished(Err(TaskExitError::SendProtocol(e))) => assert_eq!(e, protocol),
        other => panic!("unexpected outcome {other:?}"),
    }

    let step = handle_inner_response(
        &mut table,
        Outcome::Continue(MessageEvent::SendFailed(
            OutgoingMeta::SentRequest(RequestId(3), 11),
            StreamSendError::ConnectionAlreadyClosed,
        )),
    );
    let delivery = step.delivery.expect("the caller is told");
    assert_eq!(
        reply_outcome(Some(delivery.result)),
        Err(SendError::Disconnected { reason: "task failure due to send failure" })
    );
}

#[test]
fn frames_are_classified() {
    assert_eq!(
        ChatMessage::try_from(TextOrBinary::Text("h\u{e9}llo".to_string())),
        Err(ChatProtocolError::ReceivedTextMessage { len: 6 })
    );
    assert_eq!(
        ChatMessage::try_from(TextOrBinary::Binary(vec![0x0a])),
        Err(ChatProtocolError::DataError(ChatProtoDataError::InvalidProtobuf))
    );
    let classify = |envelope: MessageProto| {
        ChatMessage::try_from(TextOrBinary::Binary(envelope.encode_to_vec()))
    };
    let request = || RequestProto { id: Some(1), ..RequestProto::empty() };
    let response = || ResponseProto { id: Some(2), status: Some(200), ..ResponseProto::empty() };
    let data = |e| Err(ChatProtocolError::DataError(e));

    assert_eq!(
        classify(MessageProto { message_type: None, request: Some(request()), response: None }),
        data(ChatProtoDataError::UnknownMessageType)
    );
    assert_eq!(
        classify(MessageProto { message_type: Some(0), request: None, response: None }),
        data(ChatProtoDataError::UnknownMessageType)
    );
    assert_eq!(
        classify(MessageProto { message_type: Some(3), request: Some(request()), response: None }),
        data(ChatProtoDataError::InvalidMessageType(3))
    );
    assert_eq!(
        classify(MessageProto {
            message_type: Some(1),
            request: Some(request()),
            response: Some(response()),
        }),
        data(ChatProtoDataError::RequestHasResponse)
    );
    assert_eq!(
        classify(MessageProto { message_type: Some(1), request: None, response: Some(response()) }),
        data(ChatProtoDataError::RequestHasResponse)
    );
    assert_eq!(
        classify(MessageProto {
            message_type: Some(2),
            request: Some(request()),
            response: Some(response()),
        }),
        data(ChatProtoDataError::ResponseHasRequest)
    );
    assert_eq!(
        classify(MessageProto { message_type: Some(2), request: Some(request()), response: None }),
        data(ChatProtoDataError::ResponseHasRequest)
    );
    assert_eq!(
        classify(MessageProto { message_type: Some(1), request: None, response: None }),
        data(ChatProtoDataError::MissingPayload)
    );
    assert_eq!(
        classify(MessageProto { message_type: Some(2), request: None, response: None }),
        data(ChatProtoDataError::MissingPayload)
    );
    assert_eq!(
        classify(MessageProto {
            message_type: Some(1),
            request: Some(RequestProto::empty()),
            response: None,
        }),
        Err(ChatProtocolError::RequestMissingId)
    );
    assert_eq!(
        classify(MessageProto {
            message_type: Some(2),
            request: None,
            response: Some(ResponseProto { status: Some(200), ..ResponseProto::empty() }),
        }),
        Err(ChatProtocolError::ResponseMissingId)
    );
    assert_eq!(
        classify(MessageProto {
            message_type: Some(2),
            request: None,
            response: Some(ResponseProto { id: Some(2), ..ResponseProto::empty() }),
        }),
        Err(ChatProtocolError::InvalidResponse(RequestId(2)))
    );
    assert_eq!(
        classify(MessageProto { message_type: Some(1), request: Some(request()), response: None }),
        Ok(ChatMessage::Request(1, request()))
    );
    assert_eq!(
        classify(MessageProto { message_type: Some(2), request: None, response: Some(response()) }),
        Ok(ChatMessage::Response(
            RequestId(2),
            Response { status: 200, message: None, body: None, headers: vec![] }
        ))
    );
}

#[test]
fn invalid_header_is_refused_before_the_state_is_looked_at() {
    let state: TaskState<&str, &str, &str> = TaskState::Finished(Ok(()));
    let mut request = get_request("/");
    request.headers.push(Header { name: "bad".to_string(), value: vec![0xc3, 0xa9] });
    assert_eq!(
        Handle::send(&state, request),
        Err(SendError::InvalidRequest(InvalidRequestError::InvalidHeader))
    );
    assert_eq!(
        Handle::send(&state, get_request("/")),
        Err(SendError::Disconnected { reason: "task already ended gracefully" })
    );
}

#[test]
fn send_hands_out_the_queue_and_the_request() {
    let chat: Handle = Chat::new("requests", "responses", "task", None);
    let mut request = get_request("/path?query");
    request.method = "PUT".to_string();
    request.body = Some(vec![1, 2, 3]);
    request.headers.push(Header { name: "x-tab".to_string(), value: b"a\tb ~".to_vec() });
    let (tx, partial) = Handle::send(&chat.state, request).expect("accepted");
    assert_eq!(*tx, "requests");
    assert_eq!(partial.verb, "PUT");
    assert_eq!(partial.path, "/path?query");
    assert_eq!(partial.body, Some(vec![1, 2, 3]));
    assert_eq!(
        partial.headers,
        vec!["req-header: value".to_string(), "x-tab: a\tb ~".to_string()]
    );
}

#[test]
fn end_is_told_once() {
    let mut table: InFlightRequests<usize> = InFlightRequests::new();
    let events: Vec<Event> = vec![
        Outcome::Continue(MessageEvent::SentPing),
        incoming_request(1, "/a"),
        Outcome::Continue(MessageEvent::ReceivedMessage(TextOrBinary::Text("?".to_string()))),
        incoming_request(2, "/b"),
        Outcome::Finished(Err(NextEventError::ServerIdleTimeout(
            std::time::Duration::from_secs(30),
        ))),
        incoming_request(3, "/c"),
        Outcome::Finished(Ok(())),
    ];

    let mut requests: Vec<u64> = Vec::new();
    let mut ends = 0;
    let mut taken = 0;
    let mut task_result = None;
    for event in events {
        taken += 1;
        let step = handle_inner_response(&mut table, event);
        match task_action(step.outcome, "weak") {
            TaskAction::Idle => {}
            TaskAction::Dispatch(ListenerEvent::ReceivedMessage(request, _responder)) => {
                requests.push(request.id.expect("has an identifier"));
            }
            TaskAction::Dispatch(ListenerEvent::Finished(result)) => {
                panic!("the end is not dispatched: {result:?}")
            }
            TaskAction::Finish(result, event) => {
                assert!(matches!(
                    event,
                    ListenerEvent::Finished(Err(FinishError::Error(
                        TaskExitError::WebsocketError(NextEventError::ServerIdleTimeout(_))
                    )))
                ));
                ends += 1;
                task_result = Some(result);
                // The task takes no further event.
                break;
            }
        }
    }
    assert_eq!(requests, vec![1, 2]);
    assert_eq!(ends, 1);
    assert_eq!(taken, 5);
    assert_eq!(
        task_result,
        Some(Err(TaskErrorState::ServerIdleTooLong(std::time::Duration::from_secs(30))))
    );
}
