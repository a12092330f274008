//! Core of a client-side chat transport: a full-duplex request/response
//! protocol over one channel of binary frames, on which both sides may send
//! requests and answers are matched to requests by a 64-bit identifier.
//!
//! The library holds every decision of the transport as a function with a
//! contract, and leaves awaiting, locking and spawning to its user:
//!
//! - [`wire`] and [`codec`] read and write the envelope's bytes;
//! - [`proto`], [`headers`] and [`message`] hold the envelope as values and
//!   tell a valid message from an invalid one;
//! - [`ids`] and [`outgoing`] give requests their identifiers and make
//!   the frames to send;
//! - [`inflight`] and [`driver`] decide what an event of the connection
//!   does to the requests in flight, to their callers and to the task;
//! - [`listener`] guards the listener against overlapping calls;
//! - [`lifecycle`] and [`chat`] follow the connection task from its start to
//!   its end, and say what `send` and `disconnect` do in each state;
//! - [`errors`] holds the errors and how one follows from another;
//! - [`backup`] checks the references between the frames of a backup.

pub mod backup;
pub mod chat;
pub mod codec;
pub mod driver;
pub mod errors;
pub mod headers;
pub mod ids;
pub mod inflight;
pub mod lifecycle;
pub mod listener;
pub mod message;
pub mod outgoing;
pub mod proto;
pub mod wire;
