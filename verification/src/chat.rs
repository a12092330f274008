//! The handle of a connection and what passes between it, the connection
//! task and the listener.

use std::time::Duration;
use vstd::prelude::*;
use crate::driver::{IncomingEvent, Outcome};
use crate::errors::{FinishError, InvalidRequestError, SendError, TaskErrorState, TaskExitError};
use crate::headers::all_headers_visible;
use crate::lifecycle::TaskState;
use crate::listener::ListenerState;
use crate::message::{Request, is_status_code};
use crate::outgoing::{OutgoingResponse, PartialRequestProto, partial_of, prepare_request};
use crate::proto::RequestProto;

verus! {

/// The configuration of a connection, fixed when it is made.
#[derive(Clone, Copy, Debug)]
pub struct Config {
    /// How long to wait for traffic before sending a ping.
    pub local_idle_timeout: Duration,
    /// How long to wait for the peer before giving the connection up.
    pub remote_idle_timeout: Duration,
    /// The identifier of the first outgoing request.
    pub initial_request_id: u64,
}

/// The timing of the channel below.
#[derive(Clone, Copy, Debug)]
pub struct TransportConfig {
    pub local_idle_timeout: Duration,
    pub remote_idle_ping_timeout: Duration,
    pub remote_idle_disconnect_timeout: Duration,
}

impl Config {
    /// The timing that the channel below is given: it is pinged after the
    /// local idle time, on either side's silence, and given up after the
    /// remote idle time.
    pub fn transport_config(&self) -> (t: TransportConfig)
        ensures
            t.local_idle_timeout == self.local_idle_timeout,
            t.remote_idle_ping_timeout == self.local_idle_timeout,
            t.remote_idle_disconnect_timeout == self.remote_idle_timeout,
    {
        TransportConfig {
            local_idle_timeout: self.local_idle_timeout,
            remote_idle_ping_timeout: self.local_idle_timeout,
            remote_idle_disconnect_timeout: self.remote_idle_timeout,
        }
    }
}

/// The means to answer one request of the peer. `T` is the weak end of the
/// queue of responses: it does not keep the connection alive.
#[derive(Debug)]
pub struct Responder<T> {
    id: u64,
    tx: T,
}

impl<T> Responder<T> {
    /// The identifier of the request that this answers.
    pub closed spec fn request_id(self) -> u64 {
        self.id
    }

    /// The queue that the answer goes to.
    pub closed spec fn queue(self) -> T {
        self.tx
    }

    /// A responder for the peer's request `id`.
    pub fn new(id: u64, tx: T) -> (r: Self)
        ensures
            r.request_id() == id,
            r.queue() == tx,
    {
        Responder { id, tx }
    }

    /// Sends the response with `status` for the request. `send` puts a
    /// response on the queue and says whether the queue took it: it does not
    /// where the connection task is gone, and then the error says so.
    pub fn send_response<F: FnOnce(T, OutgoingResponse) -> bool>(self, status: u16, send: F) -> (r:
        Result<(), SendError>)
        requires
            is_status_code(status as int),
            send.requires((self.queue(), OutgoingResponse { id: self.request_id(), status })),
        ensures
            match r {
                Ok(()) => send.ensures(
                    (self.queue(), OutgoingResponse { id: self.request_id(), status }),
                    true,
                ),
                Err(e) => send.ensures(
                    (self.queue(), OutgoingResponse { id: self.request_id(), status }),
                    false,
                ) && e == (SendError::Disconnected {
                    reason: "task exited without receiving response",
                }),
            },
    {
        let Responder { id, tx } = self;
        if send(tx, OutgoingResponse { id, status }) {
            Ok(())
        } else {
            Err(SendError::Disconnected { reason: "task exited without receiving response" })
        }
    }
}

/// What the listener is told.
#[derive(Debug)]
pub enum ListenerEvent<T> {
    /// A request was received from the peer; the responder answers it.
    ReceivedMessage(RequestProto, Responder<T>),
    /// The connection has ended: gracefully, or as the error says.
    Finished(Result<(), FinishError>),
}

/// The event for a request of the peer.
pub fn received_event<T>(incoming: IncomingEvent, weak_response_tx: T) -> (event: ListenerEvent<T>)
    ensures
        event is ReceivedMessage,
        event->ReceivedMessage_0 == incoming->request,
        event->ReceivedMessage_1.request_id() == incoming->id,
        event->ReceivedMessage_1.queue() == weak_response_tx,
{
    match incoming {
        IncomingEvent::ReceivedRequest { id, request } => ListenerEvent::ReceivedMessage(
            request,
            Responder::new(id, weak_response_tx),
        ),
    }
}

/// The end of the connection task: what the handle remembers of it, and the
/// one event that tells the listener.
pub fn finish_task<T>(result: Result<(), TaskExitError>) -> (r: (
    Result<(), TaskErrorState>,
    ListenerEvent<T>,
))
    ensures
        match result {
            Ok(()) => r.0 == Ok::<(), TaskErrorState>(()) && r.1 == ListenerEvent::<T>::Finished(
                Ok(()),
            ),
            Err(e) => r.0 == Err::<(), TaskErrorState>(TaskErrorState::of_exit(&e)) && r.1
                == ListenerEvent::<T>::Finished(Err(FinishError::Error(e))),
        },
{
    match result {
        Ok(()) => (Ok(()), ListenerEvent::Finished(Ok(()))),
        Err(e) => {
            let state = TaskErrorState::from_exit_error(&e);
            (Err(state), ListenerEvent::Finished(Err(FinishError::Error(e))))
        },
    }
}

/// The event that tells the listener of a task that ended by a panic.
pub fn unwind_event<T>() -> (event: ListenerEvent<T>)
    ensures
        event == ListenerEvent::<T>::Finished(Err(FinishError::Unknown)),
{
    ListenerEvent::Finished(Err(FinishError::Unknown))
}

/// The handle of a connection: what is known of its task, and the slot of
/// its listener. `Q` and `R` are the sending ends of the queues of requests
/// and responses, `J` is what the end of the task is awaited on, and `L` is
/// the listener.
///
/// Whoever runs the connection keeps each of the two parts behind a lock of
/// its own, so each operation of the handle takes the part it works on.
pub struct Chat<Q, R, J, L> {
    pub state: TaskState<Q, R, J>,
    pub incoming_event_listener: ListenerState<L>,
}

/// The error with which a `send` fails before anything is sent; `None` where
/// the request is handed to the task. An invalid header is found first; then
/// a connection that is gone or going refuses the request.
pub open spec fn send_error_of<Q, R, J>(state: TaskState<Q, R, J>, request: Request) -> Option<
    SendError,
> {
    if !all_headers_visible(request.headers@) {
        Some(SendError::InvalidRequest(InvalidRequestError::InvalidHeader))
    } else {
        state.send_refusal()
    }
}

impl<Q, R, J, L> Chat<Q, R, J, L> {
    /// The handle of a task that was just started.
    pub fn new(request_tx: Q, response_tx: R, task: J, listener: Option<L>) -> (chat: Self)
        ensures
            chat.state == (TaskState::MaybeStillRunning { request_tx, response_tx, task }),
            chat.incoming_event_listener == ListenerState::NotRunning(listener),
    {
        Chat {
            state: TaskState::new(request_tx, response_tx, task),
            incoming_event_listener: ListenerState::new(listener),
        }
    }

    /// The first part of sending a request: the request is made ready and
    /// the state is looked at. Where neither refuses it, the request is to be
    /// put on the queue that comes back.
    pub fn send(state: &TaskState<Q, R, J>, request: Request) -> (r: Result<
        (&Q, PartialRequestProto),
        SendError,
    >)
        ensures
            match r {
                Ok((tx, p)) => send_error_of(*state, request) is None && state.request_queue()
                    == Some(*tx) && p@ == partial_of(request),
                Err(e) => send_error_of(*state, request) == Some(e),
            },
    {
        let request = match prepare_request(request) {
            Ok(p) => p,
            Err(e) => {
                return Err(e);
            },
        };
        match state.request_sender() {
            Ok(tx) => Ok((tx, request)),
            Err(e) => Err(e),
        }
    }

    /// Asks the connection to end. What comes back is to be dropped. After
    /// this, `send` fails; a second call does nothing.
    pub fn disconnect(state: &mut TaskState<Q, R, J>) -> (dropped: Option<(Q, R)>)
        ensures
            *final(state) == old(state).after_disconnect(),
            dropped == old(state).senders(),
            final(state).send_refusal() is Some,
            final(state).send_refusal().unwrap().is_disconnected(),
    {
        state.disconnect()
    }

    /// Sets the listener, or removes it with `None`.
    pub fn set_listener(incoming_event_listener: &mut ListenerState<L>, listener: Option<L>)
        ensures
            *final(incoming_event_listener) == old(incoming_event_listener).after_set(listener),
    {
        incoming_event_listener.set_listener(listener);
    }
}

/// After a disconnect every `send` fails: with the error for its header
/// where the request has a header whose value is not visible ASCII, and else
/// with the word that the connection is gone.
pub proof fn lemma_send_fails_after_disconnect<Q, R, J>(state: TaskState<Q, R, J>, request: Request)
    ensures
        send_error_of(state.after_disconnect(), request) is Some,
        all_headers_visible(request.headers@) ==> send_error_of(
            state.after_disconnect(),
            request,
        ).unwrap().is_disconnected(),
        !all_headers_visible(request.headers@) ==> send_error_of(
            state.after_disconnect(),
            request,
        ) == Some(SendError::InvalidRequest(InvalidRequestError::InvalidHeader)),
{
}

/// What the connection task does with the outcome of a step.
#[derive(Debug)]
pub enum TaskAction<T> {
    /// Nothing: the task takes the next event.
    Idle,
    /// The listener is told of a request, then the task takes the next
    /// event.
    Dispatch(ListenerEvent<T>),
    /// The task ends: it returns the state, and the listener is told.
    Finish(Result<(), TaskErrorState>, ListenerEvent<T>),
}

impl<T> TaskAction<T> {
    /// Whether the task ends with this action.
    pub open spec fn is_last(self) -> bool {
        self is Finish
    }

    /// Whether this action tells the listener that the connection ended.
    pub open spec fn tells_end(self) -> bool {
        match self {
            TaskAction::Idle => false,
            TaskAction::Dispatch(event) => event is Finished,
            TaskAction::Finish(_, event) => event is Finished,
        }
    }
}

/// Decides what the connection task does with the outcome of a step: a
/// request of the peer goes to the listener with the means to answer it, the
/// end of the connection ends the task and is told to the listener, and
/// anything else is passed over.
pub fn task_action<T>(
    outcome: Outcome<Option<IncomingEvent>, Result<(), TaskExitError>>,
    weak_response_tx: T,
) -> (action: TaskAction<T>)
    ensures
        action.is_last() <==> outcome is Finished,
        action.tells_end() <==> outcome is Finished,
        match outcome {
            Outcome::Continue(None) => action is Idle,
            Outcome::Continue(Some(IncomingEvent::ReceivedRequest { id, request })) => {
                &&& action is Dispatch
                &&& action->Dispatch_0 is ReceivedMessage
                &&& action->Dispatch_0->ReceivedMessage_0 == request
                &&& action->Dispatch_0->ReceivedMessage_1.request_id() == id
                &&& action->Dispatch_0->ReceivedMessage_1.queue() == weak_response_tx
            },
            Outcome::Finished(Ok(())) => action == TaskAction::<T>::Finish(
                Ok(()),
                ListenerEvent::Finished(Ok(())),
            ),
            Outcome::Finished(Err(e)) => {
                action == TaskAction::<T>::Finish(
                    Err(TaskErrorState::of_exit(&e)),
                    ListenerEvent::Finished(Err(FinishError::Error(e))),
                )
            },
        },
{
    match outcome {
        Outcome::Continue(None) => TaskAction::Idle,
        Outcome::Continue(Some(incoming)) => TaskAction::Dispatch(
            received_event(incoming, weak_response_tx),
        ),
        Outcome::Finished(result) => {
            let (state, event) = finish_task(result);
            TaskAction::Finish(state, event)
        },
    }
}

/// The number of outcomes that the task takes from `outcomes`: it stops
/// behind the first that ends it.
pub open spec fn steps_taken<C, F>(outcomes: Seq<Outcome<C, F>>) -> nat
    decreases outcomes.len(),
{
    if outcomes.len() == 0 {
        0
    } else if outcomes[0] is Finished {
        1
    } else {
        1 + steps_taken(outcomes.skip(1))
    }
}

/// The number of times that the listener is told of the end while the task
/// takes its outcomes from `outcomes`.
pub open spec fn ends_told<C, F>(outcomes: Seq<Outcome<C, F>>) -> nat
    decreases outcomes.len(),
{
    if outcomes.len() == 0 {
        0
    } else if outcomes[0] is Finished {
        1
    } else {
        ends_told(outcomes.skip(1))
    }
}

/// The listener is told of the end at most once, and exactly once where the
/// connection ends; the outcome that ends the connection is the last that
/// the task takes.
pub proof fn lemma_end_told_once<C, F>(outcomes: Seq<Outcome<C, F>>)
    ensures
        ends_told(outcomes) <= 1,
        ends_told(outcomes) == 1 <==> exists|i: int|
            0 <= i < outcomes.len() && (#[trigger] outcomes[i]) is Finished,
        steps_taken(outcomes) <= outcomes.len(),
        ends_told(outcomes) == 1 ==> outcomes[steps_taken(outcomes) - 1] is Finished,
        forall|i: int|
            0 <= i < steps_taken(outcomes) - 1 ==> !((#[trigger] outcomes[i]) is Finished),
    decreases outcomes.len(),
{
    if outcomes.len() > 0 && !(outcomes[0] is Finished) {
        let rest = outcomes.skip(1);
        lemma_end_told_once(rest);
        if ends_told(rest) == 1 {
            let i = choose|i: int| 0 <= i < rest.len() && (#[trigger] rest[i]) is Finished;
            assert(outcomes[i + 1] is Finished);
            assert(outcomes[steps_taken(outcomes) - 1] == rest[steps_taken(rest) - 1]);
        } else {
            assert forall|i: int| 0 <= i < outcomes.len() implies !((#[trigger] outcomes[i])
                is Finished) by {
                if i > 0 {
                    assert(rest[i - 1] == outcomes[i]);
                }
            }
        }
        assert forall|i: int| 0 <= i < steps_taken(outcomes) - 1 implies !((
        #[trigger] outcomes[i]) is Finished) by {
            if i > 0 {
                assert(rest[i - 1] == outcomes[i]);
            }
        }
    } else if outcomes.len() > 0 {
        assert(outcomes[0] is Finished);
    }
}

} // verus!
