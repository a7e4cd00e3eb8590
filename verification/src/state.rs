//! The state of a connection as a mathematical value, and how each event changes it.

use crate::event::{
    LengthActionView, LengthEvent, ReadActionView, ReadError, ReadEventView, RegisterActionView,
    RegisterEvent, RegistrationView, WriteActionView, WriteEvent,
};
use crate::message::{Message, MessageHeader, MessageType, MessageView};
use crate::readiness::{EventKind, PollKind};
use std::rc::Rc;
use vstd::prelude::*;

verus! {

/// The contents of a `Connection`.
#[verifier::ext_equal]
pub struct ConnectionView {
    pub token: mio::Token,
    /// The events that the connection waits for.
    pub interest: Set<EventKind>,
    /// The messages to send; the last one goes first.
    pub queue: Seq<Rc<Message>>,
    pub idle: bool,
    pub reset: bool,
    /// The length of a body that could not be read at once.
    pub read_continuation: Option<u64>,
    /// The kind of message that this body belongs to, and how much to read of it.
    pub pending: Option<(MessageType, u32)>,
    /// Whether the last write would have blocked.
    pub write_continuation: bool,
    pub username: Seq<char>,
}

/// How many bytes of a header must have arrived for it to be looked at.
pub const MIN_HEADER_LEN: usize = 5;

/// Whether the lengths that a header announces can be added up in 32 bits.
pub open spec fn lengths_fit(header: Seq<u8>) -> bool {
    crate::wire::header_word(header, 1) + crate::wire::header_word(header, 2) <= u32::MAX
}

/// Whether the lengths that a header announces, read as signed numbers, can be added to the length
/// of the header, one after the other, in 32 bits.
pub open spec fn signed_lengths_fit(header: Seq<u8>) -> bool {
    let name_len = crate::wire::signed_value(crate::wire::header_word(header, 1));
    let msg_len = crate::wire::signed_value(crate::wire::header_word(header, 2));
    &&& 12 + name_len <= i32::MAX
    &&& i32::MIN <= 12 + name_len + msg_len <= i32::MAX
}

/// Whether name and text of a body are valid UTF-8.
pub open spec fn body_is_text(msg_type: MessageType, body: Seq<u8>) -> bool {
    match msg_type {
        MessageType::Login { .. } => vstd::utf8::valid_utf8(body),
        MessageType::Message { name_len, .. } => {
            &&& vstd::utf8::valid_utf8(body.subrange(0, name_len as int))
            &&& vstd::utf8::valid_utf8(body.subrange(name_len as int, body.len() as int))
        },
        MessageType::Logout => true,
        MessageType::List => true,
    }
}

/// The header that was received, once enough of it arrived.
pub open spec fn decoded_header(header: Seq<u8>) -> Option<MessageHeader> {
    let name_len = crate::wire::header_word(header, 1);
    let msg_len = crate::wire::header_word(header, 2);
    match MessageType::spec_from_words(
        crate::wire::header_word(header, 0),
        name_len as u32,
        msg_len as u32,
    ) {
        Some(msg_type) => Some(
            MessageHeader {
                message_length: (name_len + msg_len) as u64,
                message_data: Some(msg_type),
            },
        ),
        None => None,
    }
}

/// The length of a whole frame by its header, with both lengths read as signed numbers. A negative
/// sum is extended to 64 bits.
pub open spec fn decoded_length(header: Seq<u8>) -> int {
    let sum = 12 + crate::wire::signed_value(crate::wire::header_word(header, 1))
        + crate::wire::signed_value(crate::wire::header_word(header, 2));
    if sum >= 0 {
        sum
    } else {
        sum + 0x1_0000_0000_0000_0000
    }
}

impl ConnectionView {
    /// A connection that was just accepted.
    pub open spec fn accepted(token: mio::Token) -> ConnectionView {
        ConnectionView {
            token,
            interest: set![EventKind::Hup],
            queue: Seq::empty(),
            idle: true,
            reset: false,
            read_continuation: None,
            pending: None,
            write_continuation: false,
            username: Seq::empty(),
        }
    }

    /// What always holds of a connection between two calls: it waits for the peer to hang up, and
    /// where there is something to send, for room to write; and where a body is to be read again,
    /// its kind and its length are both known, and agree.
    pub open spec fn well_formed(self) -> bool {
        &&& self.interest.contains(EventKind::Hup)
        &&& self.queue.len() > 0 ==> self.interest.contains(EventKind::Writable)
        &&& match self.pending {
            Some(body) => {
                &&& body.1 == body.0.spec_body_len()
                &&& self.read_continuation == Some(body.1 as u64)
            },
            None => self.read_continuation is None,
        }
    }

    // Reading.

    /// What the socket's answer to the read of a header says of the message to come. A connection
    /// that resumes a read does not look at the answer.
    pub open spec fn message_info<E>(self, answer: Result<Option<Seq<u8>>, E>) -> Result<
        Option<MessageHeader>,
        ReadError<E>,
    > {
        match self.read_continuation {
            Some(n) => Ok(Some(MessageHeader { message_length: n, message_data: None })),
            None => match answer {
                Ok(None) => Ok(None),
                Ok(Some(bytes)) => if bytes.len() < MIN_HEADER_LEN {
                    Err(ReadError::InvalidMessageLength)
                } else {
                    match decoded_header(bytes) {
                        Some(header) => Ok(Some(header)),
                        None => Err(ReadError::UnknownCommand),
                    }
                },
                Err(e) => Err(ReadError::Io(e)),
            },
        }
    }

    /// What the socket's answer to the read of a header says of the length of the frame. A
    /// connection that resumes a read does not look at the answer.
    pub open spec fn message_length<E>(self, answer: Result<Option<Seq<u8>>, E>) -> Result<
        Option<u64>,
        ReadError<E>,
    > {
        match self.read_continuation {
            Some(n) => Ok(Some(n)),
            None => match answer {
                Ok(None) => Ok(None),
                Ok(Some(bytes)) => if bytes.len() < crate::wire::HEADER_LEN {
                    Err(ReadError::InvalidMessageLength)
                } else {
                    Ok(Some(decoded_length(bytes) as u64))
                },
                Err(e) => Err(ReadError::Io(e)),
            },
        }
    }

    /// The message that a whole body makes. One without a name comes from the user who is known.
    pub open spec fn received(self, msg_type: MessageType, body: Seq<u8>) -> MessageView {
        match msg_type {
            MessageType::Login { .. } => MessageView {
                username: vstd::utf8::decode_utf8(body),
                msg_type,
                text: None,
            },
            MessageType::Message { name_len, .. } => MessageView {
                username: vstd::utf8::decode_utf8(body.subrange(0, name_len as int)),
                msg_type,
                text: Some(
                    vstd::utf8::decode_utf8(body.subrange(name_len as int, body.len() as int)),
                ),
            },
            MessageType::Logout => MessageView { username: self.username, msg_type, text: None },
            MessageType::List => MessageView { username: self.username, msg_type, text: None },
        }
    }

    /// Whether an answer to the read of a header can be handled.
    pub open spec fn accepts_header<E>(self, answer: Result<Option<Seq<u8>>, E>) -> bool {
        self.read_continuation is None ==> match answer {
            Ok(Some(bytes)) => {
                &&& bytes.len() <= crate::wire::HEADER_LEN
                &&& bytes.len() >= MIN_HEADER_LEN ==> lengths_fit(bytes)
            },
            _ => true,
        }
    }

    /// Whether an answer to the read of a header can be handled where the length is asked for.
    pub open spec fn accepts_length<E>(self, answer: Result<Option<Seq<u8>>, E>) -> bool {
        self.read_continuation is None ==> match answer {
            Ok(Some(bytes)) => {
                &&& bytes.len() <= crate::wire::HEADER_LEN
                &&& bytes.len() == crate::wire::HEADER_LEN ==> signed_lengths_fit(bytes)
            },
            _ => true,
        }
    }

    /// Whether a read event can be handled: no more arrived than was asked for, lengths can be
    /// added up, and a whole body is text.
    pub open spec fn accepts<E>(self, event: ReadEventView<E>) -> bool {
        match event {
            ReadEventView::Ready => true,
            ReadEventView::Header(answer) => self.accepts_header(answer),
            ReadEventView::Body(msg_type, answer) => {
                &&& msg_type.spec_body_len() <= u32::MAX
                &&& match answer {
                    Ok(Some(body)) => {
                        &&& body.len() <= msg_type.spec_body_len()
                        &&& body.len() == msg_type.spec_body_len() ==> body_is_text(msg_type, body)
                    },
                    _ => true,
                }
            },
        }
    }

    /// What a connection asks for after a read event.
    pub open spec fn read_action<E>(self, event: ReadEventView<E>) -> ReadActionView<E> {
        match event {
            ReadEventView::Ready => match self.pending {
                Some(body) => ReadActionView::ReadBody { msg_type: body.0, limit: body.1 as nat },
                None => ReadActionView::ReadHeader,
            },
            ReadEventView::Header(answer) => match self.message_info(answer) {
                Ok(None) => ReadActionView::Done(Ok(None)),
                Ok(Some(header)) => match header.message_data {
                    Some(msg_type) => ReadActionView::ReadBody {
                        msg_type,
                        limit: msg_type.spec_body_len(),
                    },
                    None => ReadActionView::Done(Err(ReadError::InvalidMessageType)),
                },
                Err(e) => ReadActionView::Done(Err(e)),
            },
            ReadEventView::Body(msg_type, answer) => match answer {
                Ok(None) => ReadActionView::Done(Ok(None)),
                Ok(Some(body)) => if body.len() < msg_type.spec_body_len() {
                    ReadActionView::Done(Err(ReadError::NotEnoughBytes))
                } else {
                    ReadActionView::Done(Ok(Some(self.received(msg_type, body))))
                },
                Err(e) => ReadActionView::Done(Err(ReadError::Io(e))),
            },
        }
    }

    /// The state after a read event.
    pub open spec fn after_read<E>(self, event: ReadEventView<E>) -> ConnectionView {
        match event {
            ReadEventView::Body(msg_type, Ok(None)) => ConnectionView {
                read_continuation: Some(msg_type.spec_body_len() as u64),
                pending: Some((msg_type, msg_type.spec_body_len() as u32)),
                ..self
            },
            ReadEventView::Body(msg_type, Ok(Some(body))) => if body.len()
                < msg_type.spec_body_len() {
                self
            } else {
                ConnectionView {
                    read_continuation: None,
                    pending: None,
                    username: self.received(msg_type, body).username,
                    ..self
                }
            },
            _ => self,
        }
    }

    // Writing.

    /// The state after a message was queued.
    pub open spec fn after_queueing(self, message: Rc<Message>) -> ConnectionView {
        ConnectionView {
            queue: self.queue.push(message),
            interest: self.interest.insert(EventKind::Writable),
            ..self
        }
    }

    /// The state in which write events are waited for only while there is something to send.
    pub open spec fn settled(self) -> ConnectionView {
        if self.queue.len() == 0 {
            ConnectionView { interest: self.interest.remove(EventKind::Writable), ..self }
        } else {
            self
        }
    }

    /// Whether the message that goes next, if there is one, can be sent.
    pub open spec fn next_complete(self) -> bool {
        self.queue.len() > 0 ==> self.queue.last()@.complete()
    }

    /// What a connection asks for after a write event.
    pub open spec fn write_action<E>(self, event: WriteEvent<E>) -> WriteActionView<E> {
        match event {
            WriteEvent::Ready => if self.queue.len() == 0 {
                WriteActionView::Done(Ok(()))
            } else {
                WriteActionView::Send { msg: self.queue.last(), bytes: self.queue.last()@.frame() }
            },
            WriteEvent::Sent(_, Ok(_)) => WriteActionView::Done(Ok(())),
            WriteEvent::Sent(_, Err(e)) => WriteActionView::Done(Err(e)),
        }
    }

    /// The state after a write event.
    pub open spec fn after_write<E>(self, event: WriteEvent<E>) -> ConnectionView {
        match event {
            WriteEvent::Ready => if self.queue.len() == 0 {
                self.settled()
            } else {
                ConnectionView { queue: self.queue.drop_last(), ..self }
            },
            WriteEvent::Sent(msg, Ok(None)) => ConnectionView {
                queue: self.queue.push(msg),
                write_continuation: true,
                ..self
            },
            WriteEvent::Sent(_, Ok(Some(_))) => (ConnectionView {
                write_continuation: false,
                ..self
            }).settled(),
            WriteEvent::Sent(_, Err(_)) => self,
        }
    }

    /// What a connection asks for when it sends the header of a message alone.
    pub open spec fn length_action<E>(self, msg: MessageView, event: LengthEvent<E>) -> LengthActionView<
        E,
    > {
        match event {
            LengthEvent::Ready => if self.write_continuation {
                LengthActionView::Done(Ok(Some(())))
            } else {
                LengthActionView::Send(msg.header())
            },
            LengthEvent::Sent(Ok(None)) => LengthActionView::Done(Ok(None)),
            LengthEvent::Sent(Ok(Some(_))) => LengthActionView::Done(Ok(Some(()))),
            LengthEvent::Sent(Err(e)) => LengthActionView::Done(Err(e)),
        }
    }

    // Registering.

    /// How the connection is registered.
    pub open spec fn registration(self) -> RegistrationView {
        RegistrationView {
            token: self.token,
            interest: self.interest,
            opts: set![PollKind::Edge, PollKind::Oneshot],
        }
    }

    /// The state in which the connection waits for something to read.
    pub open spec fn listening(self) -> ConnectionView {
        ConnectionView { interest: self.interest.insert(EventKind::Readable), ..self }
    }

    /// What a connection asks for when it is registered again.
    pub open spec fn reregister_action<E>(self, event: RegisterEvent<E>) -> RegisterActionView<E> {
        match event {
            RegisterEvent::Requested => RegisterActionView::Submit(self.registration()),
            RegisterEvent::Answered(answer) => RegisterActionView::Done(answer),
        }
    }

    /// The state after a step of registering again.
    pub open spec fn after_reregister<E>(self, event: RegisterEvent<E>) -> ConnectionView {
        match event {
            RegisterEvent::Requested => self,
            RegisterEvent::Answered(Ok(_)) => ConnectionView { idle: false, ..self },
            RegisterEvent::Answered(Err(_)) => self,
        }
    }

    /// What a connection asks for when it is registered for the first time.
    pub open spec fn register_action<E>(self, event: RegisterEvent<E>) -> RegisterActionView<E> {
        match event {
            RegisterEvent::Requested => RegisterActionView::Submit(self.listening().registration()),
            RegisterEvent::Answered(answer) => RegisterActionView::Done(answer),
        }
    }

    /// The state after a step of registering for the first time.
    pub open spec fn after_register<E>(self, event: RegisterEvent<E>) -> ConnectionView {
        match event {
            RegisterEvent::Requested => self.listening(),
            _ => self.after_reregister(event),
        }
    }
}

} // verus!
