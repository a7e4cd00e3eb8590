//! A connection to one client: what was asked of it, what it has to send, and how it reads.

use crate::event::{
    LengthAction, LengthEvent, ReadAction, ReadError, ReadEvent, RegisterAction, RegisterEvent,
    Registration, WriteAction, WriteEvent,
};
use crate::message::{Message, MessageHeader, MessageType};
use crate::readiness::EventKind;
use crate::state::{ConnectionView, MIN_HEADER_LEN};
use crate::wire::HEADER_LEN;
use mio::{EventSet, PollOpt, Token};
use std::rc::Rc;
use vstd::prelude::*;

verus! {

/// The state of a connection that the server accepted from a client. The socket itself belongs to
/// the caller, who does what the connection asks for and tells it what came of it.
pub struct Connection {
    // token used to register with the event loop
    pub token: Token,
    // set of events we are interested in
    interest: EventSet,
    // messages waiting to be sent out
    send_queue: Vec<Rc<Message>>,
    // whether the connection needs to be (re)registered
    is_idle: bool,
    // whether the connection is reset
    is_reset: bool,
    // the length of a body whose read would have blocked
    read_continuation: Option<u64>,
    // the kind of message that this body belongs to, and how much to read of it
    pending: Option<(MessageType, u32)>,
    // whether a write would have blocked
    write_continuation: bool,
    // the name of the user associated with this connection
    pub username: String,
}

impl View for Connection {
    type V = ConnectionView;

    closed spec fn view(&self) -> ConnectionView {
        ConnectionView {
            token: self.token,
            interest: crate::readiness::event_kinds(self.interest),
            queue: self.send_queue@,
            idle: self.is_idle,
            reset: self.is_reset,
            read_continuation: self.read_continuation,
            pending: self.pending,
            write_continuation: self.write_continuation,
            username: self.username@,
        }
    }
}

/// The contents of a connection are its fields, as they are.
proof fn law_connection_contents(conn: Connection)
    ensures
        conn@.token == conn.token,
        conn@.interest == crate::readiness::event_kinds(conn.interest),
        conn@.queue == conn.send_queue@,
        conn@.idle == conn.is_idle,
        conn@.reset == conn.is_reset,
        conn@.read_continuation == conn.read_continuation,
        conn@.pending == conn.pending,
        conn@.write_continuation == conn.write_continuation,
        conn@.username == conn.username@,
{
}

impl Connection {
    pub fn new(token: Token) -> (conn: Connection)
        ensures
            conn@ == ConnectionView::accepted(token),
            conn@.well_formed(),
    {
        Connection {
            token: token,
            interest: EventSet::hup(),
            send_queue: Vec::new(),
            is_idle: true,
            is_reset: false,
            read_continuation: None,
            pending: None,
            write_continuation: false,
            username: String::new(),
        }
    }

    /// Handle a read event from the event loop.
    ///
    /// The caller starts with `ReadEvent::Ready`, does what is asked for and hands back the answer,
    /// until it gets `ReadAction::Done`.
    ///
    /// The handler must continue calling until the result is `Ok(None)`. Where the read of a body
    /// would have blocked, the next read event starts with that body.
    pub fn readable<E>(&mut self, event: ReadEvent<E>) -> (action: ReadAction<E>)
        requires
            old(self)@.accepts(event@),
        ensures
            action@ == old(self)@.read_action(event@),
            final(self)@ == old(self)@.after_read(event@),
            old(self)@.well_formed() ==> final(self)@.well_formed(),
    {
        match event {
            ReadEvent::Ready => match &self.pending {
                Some((msg_type, limit)) => ReadAction::ReadBody {
                    msg_type: msg_type.clone(),
                    limit: *limit,
                },
                None => ReadAction::ReadHeader,
            },
            ReadEvent::Header(answer) => match self.read_message_info(answer) {
                Ok(None) => ReadAction::Done(Ok(None)),
                Ok(Some(header)) => match header.message_data {
                    Some(msg_type) => {
                        let limit: u32 = msg_type.body_len();
                        ReadAction::ReadBody { msg_type, limit }
                    },
                    None => ReadAction::Done(Err(ReadError::InvalidMessageType)),
                },
                Err(e) => ReadAction::Done(Err(e)),
            },
            ReadEvent::Body(msg_type, answer) => self.read_message_body(msg_type, answer),
        }
    }

    /// The last step of `readable`: takes the body of a message.
    fn read_message_body<E>(
        &mut self,
        msg_type: MessageType,
        answer: Result<Option<Vec<u8>>, E>,
    ) -> (action: ReadAction<E>)
        requires
            old(self)@.accepts(ReadEvent::Body(msg_type, answer)@),
        ensures
            action@ == old(self)@.read_action(ReadEvent::Body(msg_type, answer)@),
            final(self)@ == old(self)@.after_read(ReadEvent::Body(msg_type, answer)@),
    {
        let msg_len: u32 = msg_type.body_len();
        match answer {
            Ok(None) => {
                // The header is off the wire already, so what it said is kept for the next time.
                self.read_continuation = Some(msg_len as u64);
                self.pending = Some((msg_type, msg_len));
                ReadAction::Done(Ok(None))
            },
            Ok(Some(body)) => {
                if body.len() < msg_len as usize {
                    return ReadAction::Done(Err(ReadError::NotEnoughBytes));
                }
                let mut body = body;
                self.read_continuation = None;
                self.pending = None;
                let message = match msg_type {
                    MessageType::Login { name_len } => {
                        self.username = String::from_utf8(body).unwrap();
                        Message::new(self.username.clone(), MessageType::Login { name_len }, None)
                    },
                    MessageType::Logout => {
                        Message::new(self.username.clone(), MessageType::Logout, None)
                    },
                    MessageType::Message { name_len, msg_len } => {
                        let text = body.split_off(name_len as usize);
                        self.username = String::from_utf8(body).unwrap();
                        Message::new(
                            self.username.clone(),
                            MessageType::Message { name_len, msg_len },
                            Some(String::from_utf8(text).unwrap()),
                        )
                    },
                    MessageType::List => {
                        Message::new(self.username.clone(), MessageType::List, None)
                    },
                };
                proof {
                    broadcast use vstd::utf8::encode_utf8_decode_utf8;
                }
                ReadAction::Done(Ok(Some(message)))
            },
            Err(e) => ReadAction::Done(Err(ReadError::Io(e))),
        }
    }

    /// What the socket's answer to the read of a header says of the message to come.
    pub fn read_message_info<E>(&self, answer: Result<Option<Vec<u8>>, E>) -> (info: Result<
        Option<MessageHeader>,
        ReadError<E>,
    >)
        requires
            self@.accepts_header(crate::event::answer_view(answer)),
        ensures
            info == self@.message_info(crate::event::answer_view(answer)),
    {
        if let Some(n) = self.read_continuation {
            return Ok(Some(MessageHeader::new(n, None)));
        }
        let bytes = match answer {
            Ok(None) => {
                return Ok(None);
            },
            Ok(Some(bytes)) => bytes,
            Err(e) => {
                return Err(ReadError::Io(e));
            },
        };
        if bytes.len() < MIN_HEADER_LEN {
            return Err(ReadError::InvalidMessageLength);
        }
        let buf = crate::wire::pad_header(&bytes);
        let command: u32 = crate::wire::read_u32(&buf[0..4]);
        let name_len: u32 = crate::wire::read_u32(&buf[4..8]);
        let msg_len: u32 = crate::wire::read_u32(&buf[8..12]);
        proof {
            assert(buf@.subrange(0, 4).subrange(0, 4) =~= buf@.subrange(0, 4));
            assert(buf@.subrange(4, 8).subrange(0, 4) =~= buf@.subrange(4, 8));
            assert(buf@.subrange(8, 12).subrange(0, 4) =~= buf@.subrange(8, 12));
        }
        let data_len = (name_len + msg_len) as u64;
        match MessageType::from_words(command, name_len, msg_len) {
            Some(msg_type) => Ok(Some(MessageHeader::new(data_len, Some(msg_type)))),
            None => Err(ReadError::UnknownCommand),
        }
    }

    /// What the socket's answer to the read of a header says of the length of the frame.
    pub fn read_message_length<E>(&self, answer: Result<Option<Vec<u8>>, E>) -> (length: Result<
        Option<u64>,
        ReadError<E>,
    >)
        requires
            self@.accepts_length(crate::event::answer_view(answer)),
        ensures
            length == self@.message_length(crate::event::answer_view(answer)),
    {
        if let Some(n) = self.read_continuation {
            return Ok(Some(n));
        }
        let bytes = match answer {
            Ok(None) => {
                return Ok(None);
            },
            Ok(Some(bytes)) => bytes,
            Err(e) => {
                return Err(ReadError::Io(e));
            },
        };
        if bytes.len() < HEADER_LEN {
            return Err(ReadError::InvalidMessageLength);
        }
        let name_len: i32 = crate::wire::read_i32(&bytes[4..8]);
        let msg_len: i32 = crate::wire::read_i32(&bytes[8..12]);
        proof {
            assert(crate::wire::padded_header(bytes@) =~= bytes@);
            assert(bytes@.subrange(4, 8).subrange(0, 4) =~= bytes@.subrange(4, 8));
            assert(bytes@.subrange(8, 12).subrange(0, 4) =~= bytes@.subrange(8, 12));
        }
        let sum: i32 = 12 + name_len + msg_len;
        let length: u64 = #[verifier::truncate] (sum as u64);
        assert(sum >= 0 ==> length == sum) by (bit_vector)
            requires
                length == sum as u64,
        ;
        assert(sum < 0 ==> length == sum + 0x1_0000_0000_0000_0000) by (bit_vector)
            requires
                length == sum as u64,
        ;
        Ok(Some(length))
    }

    /// Whether a read event can be handed to `readable`: no more arrived than was asked for, the
    /// lengths in a header can be added up, and a whole body is text.
    pub fn accepts<E>(&self, event: &ReadEvent<E>) -> (accepted: bool)
        ensures
            accepted == self@.accepts(event@),
    {
        match event {
            ReadEvent::Ready => true,
            ReadEvent::Header(Ok(Some(bytes))) => {
                if self.read_continuation.is_some() {
                    true
                } else if bytes.len() > HEADER_LEN {
                    false
                } else if bytes.len() < MIN_HEADER_LEN {
                    true
                } else {
                    let buf = crate::wire::pad_header(bytes);
                    let name_len: u32 = crate::wire::read_u32(&buf[4..8]);
                    let msg_len: u32 = crate::wire::read_u32(&buf[8..12]);
                    proof {
                        assert(buf@.subrange(4, 8).subrange(0, 4) =~= buf@.subrange(4, 8));
                        assert(buf@.subrange(8, 12).subrange(0, 4) =~= buf@.subrange(8, 12));
                    }
                    name_len.checked_add(msg_len).is_some()
                }
            },
            ReadEvent::Header(_) => true,
            ReadEvent::Body(msg_type, answer) => {
                if let MessageType::Message { name_len, msg_len } = msg_type {
                    if name_len.checked_add(*msg_len).is_none() {
                        return false;
                    }
                }
                match answer {
                    Ok(Some(body)) => {
                        let msg_len: u32 = msg_type.body_len();
                        if body.len() > msg_len as usize {
                            false
                        } else if body.len() < msg_len as usize {
                            true
                        } else {
                            is_text(msg_type, body)
                        }
                    },
                    _ => true,
                }
            },
        }
    }

    /// Handle a write event from the event loop.
    ///
    /// Send one message from the send queue to the client. If the queue is empty, before or after
    /// that, remove interest in write events.
    ///
    /// The caller starts with `WriteEvent::Ready`, does what is asked for and hands back the answer,
    /// until it gets `WriteAction::Done`. A message that the socket did not take goes back into the
    /// queue. One that it failed on is dropped, and the error is all that comes of the event.
    pub fn writable<E>(&mut self, event: WriteEvent<E>) -> (action: WriteAction<E>)
        requires
            event is Ready ==> old(self)@.next_complete(),
        ensures
            action@ == old(self)@.write_action(event),
            final(self)@ == old(self)@.after_write(event),
            old(self)@.well_formed() && (event is Sent ==> old(self)@.interest.contains(
                EventKind::Writable,
            )) ==> final(self)@.well_formed(),
    {
        let result = match event {
            WriteEvent::Ready => match self.send_queue.pop() {
                Some(msg) => {
                    let bytes = msg.frame();
                    return WriteAction::Send { msg, bytes };
                },
                None => Ok(()),
            },
            WriteEvent::Sent(msg, Ok(None)) => {
                // put message back into the queue so we can try again
                self.send_queue.push(msg);
                self.write_continuation = true;
                Ok(())
            },
            WriteEvent::Sent(_, Ok(Some(_))) => {
                self.write_continuation = false;
                Ok(())
            },
            WriteEvent::Sent(_, Err(e)) => {
                return WriteAction::Done(Err(e));
            },
        };
        if self.send_queue.is_empty() {
            self.interest.remove(EventSet::writable());
        }
        assert(self@ =~= old(self)@.after_write(event));
        WriteAction::Done(result)
    }

    /// Whether the message that goes next, if there is one, can be sent.
    pub fn next_complete(&self) -> (complete: bool)
        ensures
            complete == self@.next_complete(),
    {
        let len = self.send_queue.len();
        len == 0 || self.send_queue[len - 1].is_complete()
    }

    /// Send the header of a message alone, unless a write is being tried again.
    pub fn write_message_length<E>(&self, msg: &Rc<Message>, event: LengthEvent<E>) -> (action:
        LengthAction<E>)
        requires
            event is Ready && !self@.write_continuation ==> msg@.complete(),
        ensures
            action@ == self@.length_action(msg@, event),
    {
        match event {
            LengthEvent::Ready => {
                if self.write_continuation {
                    LengthAction::Done(Ok(Some(())))
                } else {
                    LengthAction::Send(msg.header())
                }
            },
            LengthEvent::Sent(Ok(None)) => LengthAction::Done(Ok(None)),
            LengthEvent::Sent(Ok(Some(_))) => LengthAction::Done(Ok(Some(()))),
            LengthEvent::Sent(Err(e)) => LengthAction::Done(Err(e)),
        }
    }

    /// Queue an outgoing message to the client.
    ///
    /// This will cause the connection to register interests in write events with the event loop.
    /// The connection can still safely have an interest in read events. The read and write buffers
    /// operate independently of each other.
    pub fn send_message<E>(&mut self, message: Rc<Message>) -> (result: Result<(), E>)
        ensures
            result == Ok::<(), E>(()),
            final(self)@ == old(self)@.after_queueing(message),
            old(self)@.well_formed() ==> final(self)@.well_formed(),
    {
        self.send_queue.push(message);
        if !self.interest.is_writable() {
            self.interest.insert(EventSet::writable());
        }
        assert(self@ =~= old(self)@.after_queueing(message));
        Ok(())
    }

    /// Register interest in read events with the event loop.
    ///
    /// This will let our connection accept reads starting next event loop tick.
    pub fn register<E>(&mut self, event: RegisterEvent<E>) -> (action: RegisterAction<E>)
        ensures
            action@ == old(self)@.register_action(event),
            final(self)@ == old(self)@.after_register(event),
            old(self)@.well_formed() ==> final(self)@.well_formed(),
    {
        match event {
            RegisterEvent::Requested => {
                self.interest.insert(EventSet::readable());
                assert(self@ =~= old(self)@.listening());
                RegisterAction::Submit(self.registration())
            },
            RegisterEvent::Answered(answer) => RegisterAction::Done(self.registered(answer)),
        }
    }

    /// Re-register interest in read events with the event loop.
    pub fn reregister<E>(&mut self, event: RegisterEvent<E>) -> (action: RegisterAction<E>)
        ensures
            action@ == old(self)@.reregister_action(event),
            final(self)@ == old(self)@.after_reregister(event),
            old(self)@.well_formed() ==> final(self)@.well_formed(),
    {
        match event {
            RegisterEvent::Requested => RegisterAction::Submit(self.registration()),
            RegisterEvent::Answered(answer) => RegisterAction::Done(self.registered(answer)),
        }
    }

    /// How the connection is registered.
    fn registration(&self) -> (registration: Registration)
        ensures
            registration@ == self@.registration(),
    {
        let opts = crate::readiness::poll_union(PollOpt::edge(), PollOpt::oneshot());
        let registration = Registration { token: self.token, interest: self.interest, opts };
        assert(registration@ =~= self@.registration());
        registration
    }

    /// Takes the event loop's answer to a registration: one that succeeded ends idleness.
    fn registered<E>(&mut self, answer: Result<(), E>) -> (result: Result<(), E>)
        ensures
            result == answer,
            final(self)@ == old(self)@.after_reregister(RegisterEvent::Answered(answer)),
    {
        if answer.is_ok() {
            self.is_idle = false;
        }
        answer
    }

    pub fn mark_reset(&mut self)
        ensures
            final(self)@ == (ConnectionView { reset: true, ..old(self)@ }),
            old(self)@.well_formed() ==> final(self)@.well_formed(),
    {
        self.is_reset = true;
    }

    pub fn is_reset(&self) -> (reset: bool)
        ensures
            reset == self@.reset,
    {
        self.is_reset
    }

    pub fn mark_idle(&mut self)
        ensures
            final(self)@ == (ConnectionView { idle: true, ..old(self)@ }),
            old(self)@.well_formed() ==> final(self)@.well_formed(),
    {
        self.is_idle = true;
    }

    pub fn is_idle(&self) -> (idle: bool)
        ensures
            idle == self@.idle,
    {
        self.is_idle
    }

    pub fn has_write_queued(&self) -> (queued: bool)
        ensures
            queued == self@.interest.contains(EventKind::Writable),
    {
        self.interest.is_writable()
    }
}

/// Whether name and text of a whole body are valid UTF-8.
fn is_text(msg_type: &MessageType, body: &Vec<u8>) -> (text: bool)
    requires
        msg_type.spec_body_len() == body@.len(),
    ensures
        text == crate::state::body_is_text(*msg_type, body@),
{
    match msg_type {
        MessageType::Login { name_len: _ } => {
            String::from_utf8(vstd::slice::slice_to_vec(body.as_slice())).is_ok()
        },
        MessageType::Message { name_len, msg_len: _ } => {
            let (name, text) = body.as_slice().split_at(*name_len as usize);
            String::from_utf8(vstd::slice::slice_to_vec(name)).is_ok() && String::from_utf8(
                vstd::slice::slice_to_vec(text),
            ).is_ok()
        },
        MessageType::Logout => true,
        MessageType::List => true,
    }
}

} // verus!
