//! What the handle knows of its connection task, and what follows from it
//! for `send` and `disconnect`.
//!
//! The state only moves forward: from a task that may still run, to one
//! that was told to end, to one that has ended.

use vstd::prelude::*;
use crate::errors::{SendError, TaskErrorState, TaskSendError};
use crate::message::Response;

verus! {

/// The last known state of the connection task. `Q` is the sending end of
/// the queue of requests, `R` that of the queue of responses, and `J` is
/// what the end of the task is awaited on.
#[derive(Debug)]
pub enum TaskState<Q, R, J> {
    /// The task isn't known to have finished, and might still be listening.
    MaybeStillRunning { request_tx: Q, response_tx: R, task: J },
    /// The task has been told to end and should end soon.
    SignaledToEnd(J),
    /// The task has ended with the given state.
    Finished(Result<(), TaskErrorState>),
}

/// How a task that was joined has ended.
#[derive(Debug)]
pub enum Joined {
    /// The task returned.
    Returned(Result<(), TaskErrorState>),
    /// The task panicked.
    Panicked,
}

/// The error for a `send` on a connection whose task has ended as
/// `finished` says, by what `on_graceful` names a graceful end.
pub open spec fn ended_error(
    finished: Result<(), TaskErrorState>,
    on_graceful: &'static str,
) -> SendError {
    match finished {
        Ok(()) => SendError::Disconnected { reason: on_graceful },
        Err(state) => SendError::Disconnected { reason: state.reason() },
    }
}

impl<Q, R, J> TaskState<Q, R, J> {
    /// How far the state has moved: 0 while the task may run, 1 once it was
    /// told to end, 2 when it has ended.
    pub open spec fn rank(self) -> nat {
        match self {
            TaskState::MaybeStillRunning { .. } => 0,
            TaskState::SignaledToEnd(_) => 1,
            TaskState::Finished(_) => 2,
        }
    }

    /// The state after a disconnect.
    pub open spec fn after_disconnect(self) -> TaskState<Q, R, J> {
        match self {
            TaskState::MaybeStillRunning { request_tx, response_tx, task } => {
                TaskState::SignaledToEnd(task)
            },
            state => state,
        }
    }

    /// The error with which a `send` fails at once; `None` where the request
    /// can be handed to the task.
    pub open spec fn send_refusal(self) -> Option<SendError> {
        match self {
            TaskState::MaybeStillRunning { .. } => None,
            TaskState::SignaledToEnd(_) => Some(
                SendError::Disconnected { reason: "task was already signalled to end" },
            ),
            TaskState::Finished(finished) => Some(
                ended_error(finished, "task already ended gracefully"),
            ),
        }
    }

    /// The sending ends of both queues, while the handle holds them.
    pub open spec fn senders(self) -> Option<(Q, R)> {
        match self {
            TaskState::MaybeStillRunning { request_tx, response_tx, .. } => Some(
                (request_tx, response_tx),
            ),
            _ => None,
        }
    }

    /// The queue of requests, while the handle holds it.
    pub open spec fn request_queue(self) -> Option<Q> {
        match self {
            TaskState::MaybeStillRunning { request_tx, .. } => Some(request_tx),
            _ => None,
        }
    }

    /// The state of a task that was just started.
    pub fn new(request_tx: Q, response_tx: R, task: J) -> (state: Self)
        ensures
            state == (TaskState::MaybeStillRunning { request_tx, response_tx, task }),
            state.rank() == 0,
    {
        TaskState::MaybeStillRunning { request_tx, response_tx, task }
    }

    /// Takes the state out and leaves a finished one in its place.
    fn take(&mut self) -> (state: Self)
        ensures
            state == *old(self),
            *final(self) == TaskState::<Q, R, J>::Finished(Ok(())),
    {
        let mut state = TaskState::Finished(Ok(()));
        std::mem::swap(self, &mut state);
        state
    }

    /// Asks the task to end. The sending ends of both queues come back, to
    /// be dropped: that is the signal. A second call changes nothing and
    /// gives nothing back.
    pub fn disconnect(&mut self) -> (dropped: Option<(Q, R)>)
        ensures
            *final(self) == old(self).after_disconnect(),
            dropped == old(self).senders(),
            final(self).senders() is None,
    {
        match self.take() {
            TaskState::MaybeStillRunning { request_tx, response_tx, task } => {
                *self = TaskState::SignaledToEnd(task);
                Some((request_tx, response_tx))
            },
            state => {
                *self = state;
                None
            },
        }
    }

    /// The queue on which a `send` hands its request to the task, or the
    /// error with which it fails at once.
    pub fn request_sender(&self) -> (r: Result<&Q, SendError>)
        ensures
            match r {
                Ok(tx) => self.send_refusal() is None && self.request_queue() == Some(*tx),
                Err(e) => self.send_refusal() == Some(e),
            },
    {
        match self {
            TaskState::MaybeStillRunning { request_tx, response_tx: _, task: _ } => Ok(request_tx),
            TaskState::SignaledToEnd(_) => Err(
                SendError::Disconnected { reason: "task was already signalled to end" },
            ),
            TaskState::Finished(Ok(())) => Err(
                SendError::Disconnected { reason: "task already ended gracefully" },
            ),
            TaskState::Finished(Err(err)) => Err(SendError::from_task_error_state(err)),
        }
    }

    /// The task to await, unless it has ended before. While the task is
    /// awaited the state stays as it is.
    pub fn task_mut(&mut self) -> (r: Option<&mut J>)
        ensures
            match *old(self) {
                TaskState::MaybeStillRunning { request_tx, response_tx, task } => r is Some
                    && *r->Some_0 == task && *final(self) == (TaskState::MaybeStillRunning {
                    request_tx,
                    response_tx,
                    task: *final(r->Some_0),
                }),
                TaskState::SignaledToEnd(task) => r is Some && *r->Some_0 == task && *final(self)
                    == TaskState::<Q, R, J>::SignaledToEnd(*final(r->Some_0)),
                TaskState::Finished(_) => r is None && *final(self) == *old(self),
            },
    {
        match self {
            TaskState::MaybeStillRunning { request_tx: _, response_tx: _, task } => Some(task),
            TaskState::SignaledToEnd(task) => Some(task),
            TaskState::Finished(_) => None,
        }
    }

    /// The error for the `send` whose request the task did not take, where
    /// the task is known to have ended.
    pub fn send_failure(&self) -> (e: Option<SendError>)
        ensures
            e == self.send_failure_of(),
    {
        match self {
            TaskState::Finished(Ok(())) => Some(
                SendError::Disconnected { reason: "task ended gracefully before sending request" },
            ),
            TaskState::Finished(Err(state)) => Some(SendError::from_task_error_state(state)),
            _ => None,
        }
    }

    /// Records how the task ended, once it was joined, and gives the error
    /// for the `send` whose request the task did not take. A state that is
    /// finished stays as it is: this is for a task that was not known to
    /// have ended.
    pub fn finish(&mut self, joined: Joined) -> (e: SendError)
        requires
            !(*old(self) is Finished),
        ensures
            *final(self) == TaskState::<Q, R, J>::Finished(end_state(joined)),
            Some(e) == final(self).send_failure_of(),
            e.is_disconnected(),
    {
        let finish_state = match joined {
            Joined::Returned(state) => state,
            Joined::Panicked => Err(TaskErrorState::Panic),
        };
        let e = match &finish_state {
            Ok(()) => SendError::Disconnected {
                reason: "task ended gracefully before sending request",
            },
            Err(state) => SendError::from_task_error_state(state),
        };
        *self = TaskState::Finished(finish_state);
        e
    }

    /// What [`Self::send_failure`] returns.
    pub open spec fn send_failure_of(self) -> Option<SendError> {
        match self {
            TaskState::Finished(finished) => Some(
                ended_error(finished, "task ended gracefully before sending request"),
            ),
            _ => None,
        }
    }
}

/// The state in which a joined task has ended.
pub open spec fn end_state(joined: Joined) -> Result<(), TaskErrorState> {
    match joined {
        Joined::Returned(state) => state,
        Joined::Panicked => Err(TaskErrorState::Panic),
    }
}

/// What a `send` returns once its wait for the answer is over.
pub open spec fn reply_of(received: Option<Result<Response, TaskSendError>>) -> Result<
    Response,
    SendError,
> {
    match received {
        None => Err(SendError::Disconnected { reason: "response channel sender was dropped" }),
        Some(Ok(response)) => Ok(response),
        Some(Err(e)) => Err(e.as_send_error()),
    }
}

/// Turns what arrived on the caller's slot into the result of its `send`:
/// `None` stands for a slot whose other end was dropped.
pub fn reply_outcome(received: Option<Result<Response, TaskSendError>>) -> (r: Result<
    Response,
    SendError,
>)
    ensures
        r == reply_of(received),
{
    match received {
        None => Err(SendError::Disconnected { reason: "response channel sender was dropped" }),
        Some(Ok(response)) => Ok(response),
        Some(Err(e)) => Err(SendError::from_task_send_error(e)),
    }
}

/// The state never moves backwards, and a finished state is final: a
/// disconnect moves a task that may run to one that was told to end and
/// leaves every other state as it is.
pub proof fn lemma_state_moves_forward<Q, R, J>(state: TaskState<Q, R, J>)
    ensures
        state.after_disconnect().rank() >= state.rank(),
        state.after_disconnect().rank() >= 1,
        state.rank() >= 1 ==> state.after_disconnect() == state,
{
}

/// After a disconnect every `send` fails at once, and says that the
/// connection is gone.
pub proof fn lemma_send_after_disconnect<Q, R, J>(state: TaskState<Q, R, J>)
    ensures
        state.after_disconnect().send_refusal() is Some,
        state.after_disconnect().send_refusal().unwrap().is_disconnected(),
        state.after_disconnect().after_disconnect().send_refusal() is Some,
{
}

/// A second disconnect is the first one: the state is the same, and there
/// is nothing left to drop.
pub proof fn lemma_disconnect_idempotent<Q, R, J>(state: TaskState<Q, R, J>)
    ensures
        state.after_disconnect().after_disconnect() == state.after_disconnect(),
        !(state.after_disconnect() is MaybeStillRunning),
{
}

} // verus!
