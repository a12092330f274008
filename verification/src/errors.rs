//! The errors of the transport, and how one kind is derived from another.

use vstd::prelude::*;

verus! {

/// The kind of an operating-system I/O failure.
#[verifier::external_type_specification]
#[verifier::external_body]
pub struct ExIoErrorKind(std::io::ErrorKind);

/// A violation of the WebSocket protocol, as the frame codec reports it.
#[verifier::external_type_specification]
#[verifier::external_body]
pub struct ExProtocolError(tungstenite::error::ProtocolError);

/// A failure of the frame codec.
#[verifier::external_type_specification]
#[verifier::external_body]
pub struct ExWebSocketError(tungstenite::Error);

/// The status code of a WebSocket close frame.
#[verifier::external_type_specification]
#[verifier::external_body]
pub struct ExCloseCode(tungstenite::protocol::frame::coding::CloseCode);

/// Why an outgoing frame could not be written.
#[derive(Debug, PartialEq)]
pub enum StreamSendError {
    Io(std::io::ErrorKind),
    ConnectionAlreadyClosed,
    MessageTooLarge { size: usize, max_size: usize },
    WebSocketProtocol(tungstenite::error::ProtocolError),
}

/// Why the frame codec stopped producing events.
#[derive(Debug)]
pub enum NextEventError {
    PingFailed(tungstenite::Error),
    CloseFailed(tungstenite::Error),
    AbnormalServerClose { code: tungstenite::protocol::frame::coding::CloseCode, reason: String },
    ReceiveError(tungstenite::Error),
    ServerIdleTimeout(std::time::Duration),
    UnexpectedConnectionClose,
}

/// Why a request was refused before it was handed to the connection.
#[derive(Debug, PartialEq, Eq)]
pub enum InvalidRequestError {
    InvalidHeader,
}

/// Why a `send` did not produce a response.
#[derive(Debug, PartialEq)]
pub enum SendError {
    /// The chat service is no longer connected.
    Disconnected { reason: &'static str },
    /// An OS-level I/O error occurred.
    Io(std::io::ErrorKind),
    /// The message is larger than the configured limit.
    MessageTooLarge { size: usize },
    /// A protocol-level error occurred.
    Protocol(tungstenite::error::ProtocolError),
    /// The response was malformed.
    InvalidResponse,
    /// The request was invalid.
    InvalidRequest(InvalidRequestError),
}

/// Why the connection task finished unexpectedly.
#[derive(Debug)]
pub enum TaskExitError {
    WebsocketError(NextEventError),
    SendIo(std::io::ErrorKind),
    SendTooLarge { size: usize, max_size: usize },
    SendProtocol(tungstenite::error::ProtocolError),
}

/// What the listener is told when the connection ends badly.
#[derive(Debug)]
pub enum FinishError {
    Error(TaskExitError),
    /// The task exited for an unknown reason.
    Unknown,
}

/// Why one outgoing request failed.
#[derive(Debug, PartialEq)]
pub enum TaskSendError {
    /// Writing the frame failed.
    StreamSendFailed(StreamSendError),
    /// The peer's answer did not pass validation.
    InvalidResponse,
}

/// How the connection task ended, as the handle remembers it.
#[derive(Debug, PartialEq)]
pub enum TaskErrorState {
    Panic,
    SendFailed,
    AbnormalServerClose { code: tungstenite::protocol::frame::coding::CloseCode, reason: String },
    ReceiveFailed,
    ServerIdleTooLong(std::time::Duration),
    UnexpectedConnectionClose,
}

/// Copies a protocol error: `<ProtocolError as Clone>::clone`, which returns
/// a value equal to the one it was given.
#[verifier::external_body]
pub(crate) fn clone_protocol_error(e: &tungstenite::error::ProtocolError) -> (copy:
    tungstenite::error::ProtocolError)
    ensures
        copy == *e,
{
    e.clone()
}

impl TaskErrorState {
    /// The short diagnosis that a caller of `send` is given for this ending.
    pub open spec fn reason(&self) -> &'static str {
        match self {
            TaskErrorState::SendFailed => "send failed",
            TaskErrorState::Panic => "chat task panicked",
            TaskErrorState::AbnormalServerClose { .. } => "server closed abnormally",
            TaskErrorState::ReceiveFailed => "receive failed",
            TaskErrorState::ServerIdleTooLong(_) => "server idle too long",
            TaskErrorState::UnexpectedConnectionClose => "server closed unexpectedly",
        }
    }

    /// What the handle remembers of the exit error `exit`: a failed ping,
    /// close or send is a failed send; the other ends keep their detail.
    pub open spec fn of_exit(exit: &TaskExitError) -> TaskErrorState {
        match exit {
            TaskExitError::WebsocketError(NextEventError::PingFailed(_)) => {
                TaskErrorState::SendFailed
            },
            TaskExitError::WebsocketError(NextEventError::CloseFailed(_)) => {
                TaskErrorState::SendFailed
            },
            TaskExitError::WebsocketError(
                NextEventError::AbnormalServerClose { code, reason },
            ) => TaskErrorState::AbnormalServerClose { code: *code, reason: *reason },
            TaskExitError::WebsocketError(NextEventError::ReceiveError(_)) => {
                TaskErrorState::ReceiveFailed
            },
            TaskExitError::WebsocketError(NextEventError::ServerIdleTimeout(d)) => {
                TaskErrorState::ServerIdleTooLong(*d)
            },
            TaskExitError::WebsocketError(NextEventError::UnexpectedConnectionClose) => {
                TaskErrorState::UnexpectedConnectionClose
            },
            TaskExitError::SendIo(_) => TaskErrorState::SendFailed,
            TaskExitError::SendTooLarge { .. } => TaskErrorState::SendFailed,
            TaskExitError::SendProtocol(_) => TaskErrorState::SendFailed,
        }
    }

    /// What the handle remembers of an exit error.
    pub fn from_exit_error(value: &TaskExitError) -> (state: TaskErrorState)
        ensures
            state == Self::of_exit(value),
    {
        match value {
            TaskExitError::WebsocketError(next) => match next {
                NextEventError::PingFailed(_) => TaskErrorState::SendFailed,
                NextEventError::CloseFailed(_) => TaskErrorState::SendFailed,
                NextEventError::AbnormalServerClose { code, reason } => {
                    TaskErrorState::AbnormalServerClose { code: *code, reason: reason.clone() }
                },
                NextEventError::ReceiveError(_) => TaskErrorState::ReceiveFailed,
                NextEventError::ServerIdleTimeout(duration) => TaskErrorState::ServerIdleTooLong(
                    *duration,
                ),
                NextEventError::UnexpectedConnectionClose => {
                    TaskErrorState::UnexpectedConnectionClose
                },
            },
            TaskExitError::SendIo(_) => TaskErrorState::SendFailed,
            TaskExitError::SendTooLarge { .. } => TaskErrorState::SendFailed,
            TaskExitError::SendProtocol(_) => TaskErrorState::SendFailed,
        }
    }
}

impl StreamSendError {
    /// The error that the caller of `send` sees when writing its frame failed.
    pub open spec fn as_send_error(&self) -> SendError {
        match self {
            StreamSendError::Io(kind) => SendError::Io(*kind),
            StreamSendError::ConnectionAlreadyClosed => SendError::Disconnected {
                reason: "task failure due to send failure",
            },
            StreamSendError::MessageTooLarge { size, max_size } => SendError::MessageTooLarge {
                size: *size,
            },
            StreamSendError::WebSocketProtocol(e) => SendError::Protocol(*e),
        }
    }

    /// How the connection task ends after this failure: gracefully when the
    /// connection was closed already, with an error otherwise.
    pub open spec fn as_exit(&self) -> Result<(), TaskExitError> {
        match self {
            StreamSendError::ConnectionAlreadyClosed => Ok(()),
            StreamSendError::Io(kind) => Err(TaskExitError::SendIo(*kind)),
            StreamSendError::MessageTooLarge { size, max_size } => Err(
                TaskExitError::SendTooLarge { size: *size, max_size: *max_size },
            ),
            StreamSendError::WebSocketProtocol(e) => Err(TaskExitError::SendProtocol(*e)),
        }
    }

    /// Computes [`Self::as_exit`].
    pub fn exit_status(&self) -> (status: Result<(), TaskExitError>)
        ensures
            status == self.as_exit(),
    {
        match self {
            StreamSendError::ConnectionAlreadyClosed => Ok(()),
            StreamSendError::Io(kind) => Err(TaskExitError::SendIo(*kind)),
            StreamSendError::MessageTooLarge { size, max_size } => Err(
                TaskExitError::SendTooLarge { size: *size, max_size: *max_size },
            ),
            StreamSendError::WebSocketProtocol(e) => Err(
                TaskExitError::SendProtocol(clone_protocol_error(e)),
            ),
        }
    }
}

impl TaskSendError {
    /// The error that the caller of `send` sees for this failure.
    pub open spec fn as_send_error(&self) -> SendError {
        match self {
            TaskSendError::StreamSendFailed(e) => e.as_send_error(),
            TaskSendError::InvalidResponse => SendError::InvalidResponse,
        }
    }
}

impl SendError {
    /// The error for a `send` on a connection whose task ended as `value` says.
    pub fn from_task_error_state(value: &TaskErrorState) -> (e: SendError)
        ensures
            e == (SendError::Disconnected { reason: value.reason() }),
    {
        match value {
            TaskErrorState::SendFailed => SendError::Disconnected { reason: "send failed" },
            TaskErrorState::Panic => SendError::Disconnected { reason: "chat task panicked" },
            TaskErrorState::AbnormalServerClose { .. } => SendError::Disconnected {
                reason: "server closed abnormally",
            },
            TaskErrorState::ReceiveFailed => SendError::Disconnected { reason: "receive failed" },
            TaskErrorState::ServerIdleTooLong(_) => SendError::Disconnected {
                reason: "server idle too long",
            },
            TaskErrorState::UnexpectedConnectionClose => SendError::Disconnected {
                reason: "server closed unexpectedly",
            },
        }
    }

    /// The error for a request whose frame could not be written.
    pub fn from_stream_error(value: &StreamSendError) -> (e: SendError)
        ensures
            e == value.as_send_error(),
    {
        match value {
            StreamSendError::Io(kind) => SendError::Io(*kind),
            StreamSendError::ConnectionAlreadyClosed => SendError::Disconnected {
                reason: "task failure due to send failure",
            },
            StreamSendError::MessageTooLarge { size, max_size: _ } => SendError::MessageTooLarge {
                size: *size,
            },
            StreamSendError::WebSocketProtocol(e) => SendError::Protocol(clone_protocol_error(e)),
        }
    }

    /// The error for a request that the connection task gave up on.
    pub fn from_task_send_error(value: TaskSendError) -> (e: SendError)
        ensures
            e == value.as_send_error(),
    {
        match value {
            TaskSendError::StreamSendFailed(send_error) => SendError::from_stream_error(
                &send_error,
            ),
            TaskSendError::InvalidResponse => SendError::InvalidResponse,
        }
    }

    /// Whether this error says that the connection is gone or going.
    pub open spec fn is_disconnected(&self) -> bool {
        *self is Disconnected
    }
}

impl From<TaskSendError> for SendError {
    fn from(value: TaskSendError) -> (e: SendError) {
        SendError::from_task_send_error(value)
    }
}

impl vstd::std_specs::convert::FromSpecImpl<TaskSendError> for SendError {
    open spec fn obeys_from_spec() -> bool {
        true
    }

    open spec fn from_spec(value: TaskSendError) -> SendError {
        value.as_send_error()
    }
}

impl<'a> From<&'a StreamSendError> for SendError {
    fn from(value: &'a StreamSendError) -> (e: SendError) {
        SendError::from_stream_error(value)
    }
}

impl<'a> vstd::std_specs::convert::FromSpecImpl<&'a StreamSendError> for SendError {
    open spec fn obeys_from_spec() -> bool {
        true
    }

    open spec fn from_spec(value: &'a StreamSendError) -> SendError {
        value.as_send_error()
    }
}

impl<'a> From<&'a TaskErrorState> for SendError {
    fn from(value: &'a TaskErrorState) -> (e: SendError) {
        SendError::from_task_error_state(value)
    }
}

impl<'a> vstd::std_specs::convert::FromSpecImpl<&'a TaskErrorState> for SendError {
    open spec fn obeys_from_spec() -> bool {
        true
    }

    open spec fn from_spec(value: &'a TaskErrorState) -> SendError {
        SendError::Disconnected { reason: value.reason() }
    }
}

impl From<StreamSendError> for SendError {
    fn from(value: StreamSendError) -> (e: SendError) {
        SendError::from_stream_error(&value)
    }
}

impl vstd::std_specs::convert::FromSpecImpl<StreamSendError> for SendError {
    open spec fn obeys_from_spec() -> bool {
        true
    }

    open spec fn from_spec(value: StreamSendError) -> SendError {
        value.as_send_error()
    }
}

impl<'a> From<&'a TaskExitError> for TaskErrorState {
    fn from(value: &'a TaskExitError) -> (state: TaskErrorState) {
        TaskErrorState::from_exit_error(value)
    }
}

impl<'a> vstd::std_specs::convert::FromSpecImpl<&'a TaskExitError> for TaskErrorState {
    open spec fn obeys_from_spec() -> bool {
        true
    }

    open spec fn from_spec(value: &'a TaskExitError) -> TaskErrorState {
        TaskErrorState::of_exit(value)
    }
}

} // verus!
