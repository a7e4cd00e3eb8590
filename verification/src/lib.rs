//! The server's side of a chat connection: the frames that clients and server exchange, and the
//! state machine that reads, queues and sends messages on a non-blocking socket.
//!
//! The socket itself stays outside. A [`connection::Connection`] is told of events, asks for actions
//! (read this much, write these bytes, register like this) and is told what came of them.

pub mod connection;
pub mod event;
pub mod laws;
pub mod message;
pub mod readiness;
pub mod state;
pub mod text;
pub mod wire;
