//! What passes between a connection and the code that owns its socket: the events that the
//! connection is told of, and the actions that it asks for.
//!
//! The socket's answer to a read or a write has the shape of mio's `try_read` and `try_write`:
//! `Ok(None)` where the call would have blocked, `Ok(Some(..))` where something was moved, and an
//! error `E`, handed on unread, where the call failed.

use crate::message::{Message, MessageType, MessageView};
use crate::readiness::{EventKind, PollKind};
use std::rc::Rc;
use vstd::prelude::*;

verus! {

/// Why a message could not be read.
#[derive(Debug, PartialEq, Eq)]
pub enum ReadError<E> {
    /// A header was handed in where a body is due.
    InvalidMessageType,
    /// The header names a command that does not exist.
    UnknownCommand,
    /// Too little of the header arrived.
    InvalidMessageLength,
    /// Less of the body arrived than the header announced.
    NotEnoughBytes,
    /// The socket failed.
    Io(E),
}

impl<E> ReadError<E> {
    /// What to tell of invalid data; `None` where the socket failed, which has an error of its own.
    pub fn description(&self) -> (text: Option<&'static str>)
        ensures
            match *self {
                ReadError::InvalidMessageType => text is Some && text->0@
                    == "Invalid message type"@,
                ReadError::UnknownCommand => text is Some && text->0@
                    == "Invalid message type received"@,
                ReadError::InvalidMessageLength => text is Some && text->0@
                    == "Invalid message length"@,
                ReadError::NotEnoughBytes => text is Some && text->0@
                    == "Did not read enough bytes"@,
                ReadError::Io(_) => text is None,
            },
    {
        match self {
            ReadError::InvalidMessageType => Some("Invalid message type"),
            ReadError::UnknownCommand => Some("Invalid message type received"),
            ReadError::InvalidMessageLength => Some("Invalid message length"),
            ReadError::NotEnoughBytes => Some("Did not read enough bytes"),
            ReadError::Io(_) => None,
        }
    }
}

/// The bytes of a socket's answer to a read.
pub open spec fn answer_view<E>(answer: Result<Option<Vec<u8>>, E>) -> Result<
    Option<Seq<u8>>,
    E,
> {
    match answer {
        Ok(Some(bytes)) => Ok(Some(bytes@)),
        Ok(None) => Ok(None),
        Err(e) => Err(e),
    }
}

/// What a connection that reads a message is told.
pub enum ReadEvent<E> {
    /// The socket is readable.
    Ready,
    /// The socket's answer to `ReadAction::ReadHeader`.
    Header(Result<Option<Vec<u8>>, E>),
    /// The socket's answer to `ReadAction::ReadBody`, with the kind of message that it named.
    Body(MessageType, Result<Option<Vec<u8>>, E>),
}

/// What a connection that reads a message asks for.
#[derive(Debug, PartialEq, Eq)]
pub enum ReadAction<E> {
    /// Read once, at most as many bytes as a header has.
    ReadHeader,
    /// Read once, at most `limit` bytes.
    ReadBody { msg_type: MessageType, limit: u32 },
    /// Nothing more: the event was handled, with this result.
    Done(Result<Option<Message>, ReadError<E>>),
}

/// The contents of a `ReadEvent`.
pub enum ReadEventView<E> {
    Ready,
    Header(Result<Option<Seq<u8>>, E>),
    Body(MessageType, Result<Option<Seq<u8>>, E>),
}

impl<E> View for ReadEvent<E> {
    type V = ReadEventView<E>;

    open spec fn view(&self) -> ReadEventView<E> {
        match *self {
            ReadEvent::Ready => ReadEventView::Ready,
            ReadEvent::Header(answer) => ReadEventView::Header(answer_view(answer)),
            ReadEvent::Body(msg_type, answer) => ReadEventView::Body(msg_type, answer_view(answer)),
        }
    }
}

/// The contents of a `ReadAction`.
pub enum ReadActionView<E> {
    ReadHeader,
    ReadBody { msg_type: MessageType, limit: nat },
    Done(Result<Option<MessageView>, ReadError<E>>),
}

impl<E> View for ReadAction<E> {
    type V = ReadActionView<E>;

    open spec fn view(&self) -> ReadActionView<E> {
        match *self {
            ReadAction::ReadHeader => ReadActionView::ReadHeader,
            ReadAction::ReadBody { msg_type, limit } => ReadActionView::ReadBody {
                msg_type,
                limit: limit as nat,
            },
            ReadAction::Done(Ok(Some(msg))) => ReadActionView::Done(Ok(Some(msg@))),
            ReadAction::Done(Ok(None)) => ReadActionView::Done(Ok(None)),
            ReadAction::Done(Err(e)) => ReadActionView::Done(Err(e)),
        }
    }
}

/// What a connection that sends its messages is told.
pub enum WriteEvent<E> {
    /// The socket is writable.
    Ready,
    /// The socket's answer to `WriteAction::Send`, with the message that it named.
    Sent(Rc<Message>, Result<Option<usize>, E>),
}

/// What a connection that sends its messages asks for.
#[derive(Debug, PartialEq, Eq)]
pub enum WriteAction<E> {
    /// Write `bytes` once; they are the frame of `msg`.
    Send { msg: Rc<Message>, bytes: Vec<u8> },
    /// Nothing more: the event was handled, with this result.
    Done(Result<(), E>),
}

/// The contents of a `WriteAction`.
pub enum WriteActionView<E> {
    Send { msg: Rc<Message>, bytes: Seq<u8> },
    Done(Result<(), E>),
}

impl<E> View for WriteAction<E> {
    type V = WriteActionView<E>;

    open spec fn view(&self) -> WriteActionView<E> {
        match *self {
            WriteAction::Send { msg, bytes } => WriteActionView::Send { msg, bytes: bytes@ },
            WriteAction::Done(result) => WriteActionView::Done(result),
        }
    }
}

/// What a connection that sends the header of a message alone is told.
pub enum LengthEvent<E> {
    /// The header is to be sent.
    Ready,
    /// The socket's answer to `LengthAction::Send`.
    Sent(Result<Option<usize>, E>),
}

/// What a connection that sends the header of a message alone asks for.
#[derive(Debug, PartialEq, Eq)]
pub enum LengthAction<E> {
    /// Write these bytes once.
    Send(Vec<u8>),
    /// Nothing more. `Some` means that the header is out, `None` that the socket would have blocked.
    Done(Result<Option<()>, E>),
}

/// The contents of a `LengthAction`.
pub enum LengthActionView<E> {
    Send(Seq<u8>),
    Done(Result<Option<()>, E>),
}

impl<E> View for LengthAction<E> {
    type V = LengthActionView<E>;

    open spec fn view(&self) -> LengthActionView<E> {
        match *self {
            LengthAction::Send(bytes) => LengthActionView::Send(bytes@),
            LengthAction::Done(result) => LengthActionView::Done(result),
        }
    }
}

/// How a socket is to be registered with the event loop.
pub struct Registration {
    pub token: mio::Token,
    pub interest: mio::EventSet,
    pub opts: mio::PollOpt,
}

/// The contents of a `Registration`.
#[verifier::ext_equal]
pub struct RegistrationView {
    pub token: mio::Token,
    pub interest: Set<EventKind>,
    pub opts: Set<PollKind>,
}

impl View for Registration {
    type V = RegistrationView;

    open spec fn view(&self) -> RegistrationView {
        RegistrationView {
            token: self.token,
            interest: crate::readiness::event_kinds(self.interest),
            opts: crate::readiness::poll_kinds(self.opts),
        }
    }
}

/// What a connection that is registered with the event loop is told.
pub enum RegisterEvent<E> {
    /// The connection is to be registered.
    Requested,
    /// The event loop's answer to `RegisterAction::Submit`.
    Answered(Result<(), E>),
}

/// What a connection that is registered with the event loop asks for.
pub enum RegisterAction<E> {
    /// Hand this registration to the event loop.
    Submit(Registration),
    /// Nothing more: the request was handled, with this result.
    Done(Result<(), E>),
}

/// The contents of a `RegisterAction`.
#[verifier::ext_equal]
pub enum RegisterActionView<E> {
    Submit(RegistrationView),
    Done(Result<(), E>),
}

impl<E> View for RegisterAction<E> {
    type V = RegisterActionView<E>;

    open spec fn view(&self) -> RegisterActionView<E> {
        match *self {
            RegisterAction::Submit(registration) => RegisterActionView::Submit(registration@),
            RegisterAction::Done(result) => RegisterActionView::Done(result),
        }
    }
}

} // verus!
