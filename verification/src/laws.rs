//! What holds of messages and connections across several calls.

use crate::event::{
    ReadActionView, ReadEventView, RegisterActionView, RegisterEvent, WriteActionView,
    WriteEvent,
};
use crate::message::{Message, MessageHeader, MessageType, MessageView};
use crate::readiness::EventKind;
use crate::state::ConnectionView;
use std::rc::Rc;
use vstd::prelude::*;

pub mod messages;
pub mod reading;
pub mod registering;
pub mod views;
pub mod writing;

verus! {

// Frames.

/// The number of a kind, together with the lengths that the kind announces, tells the kind.
pub proof fn law_command_tells_kind(msg_type: MessageType, name_len: u32, msg_len: u32)
    ensures
        MessageType::spec_from_words(msg_type.spec_command(), name_len, msg_len) == Some(
            match msg_type {
                MessageType::Login { .. } => MessageType::Login { name_len },
                MessageType::Logout => MessageType::Logout,
                MessageType::Message { .. } => MessageType::Message { name_len, msg_len },
                MessageType::List => MessageType::List,
            },
        ),
{
}

/// The kind of a message with the lengths that its frame announces.
pub open spec fn announced(msg: MessageView) -> MessageType {
    let name_len = msg.name_bytes().len() as u32;
    let msg_len = msg.line_bytes().len() as u32;
    match msg.msg_type {
        MessageType::Login { .. } => MessageType::Login { name_len },
        MessageType::Logout => MessageType::Logout,
        MessageType::Message { .. } => MessageType::Message { name_len, msg_len },
        MessageType::List => MessageType::List,
    }
}

/// A frame in which `name` says `text`.
pub open spec fn said_frame(name: Seq<char>, text: Seq<char>) -> Seq<u8> {
    let n = vstd::utf8::encode_utf8(name);
    let t = vstd::utf8::encode_utf8(text);
    crate::wire::header_bytes(2, n.len(), t.len()) + n + t
}

/// A header whose two lengths can be added up in 32 bits is read back as what it was made from.
pub proof fn law_header_is_decoded(command: nat, name_len: nat, msg_len: nat)
    requires
        command <= 3,
        name_len + msg_len <= u32::MAX,
    ensures
        crate::state::lengths_fit(crate::wire::header_bytes(command, name_len, msg_len)),
        crate::state::decoded_header(crate::wire::header_bytes(command, name_len, msg_len))
            == Some(
            MessageHeader {
                message_length: (name_len + msg_len) as u64,
                message_data: MessageType::spec_from_words(
                    command,
                    name_len as u32,
                    msg_len as u32,
                ),
            },
        ),
{
    crate::wire::law_header_reads_back(command, name_len, msg_len);
}

/// What a client says is received as it was said: the header of its frame asks for the rest, and
/// the rest gives the name and the text.
pub proof fn law_said_is_received<E>(conn: ConnectionView, name: Seq<char>, text: Seq<char>)
    requires
        conn.read_continuation is None,
        conn.pending is None,
        vstd::utf8::encode_utf8(name).len() + vstd::utf8::encode_utf8(text).len() <= u32::MAX,
    ensures
        ({
            let frame = said_frame(name, text);
            let header = ReadEventView::<E>::Header(Ok(Some(frame.subrange(0, 12))));
            let kind = MessageType::Message {
                name_len: vstd::utf8::encode_utf8(name).len() as u32,
                msg_len: vstd::utf8::encode_utf8(text).len() as u32,
            };
            let body = ReadEventView::<E>::Body(
                kind,
                Ok(Some(frame.subrange(12, frame.len() as int))),
            );
            &&& conn.accepts(header)
            &&& conn.read_action(header) == ReadActionView::<E>::ReadBody {
                msg_type: kind,
                limit: (frame.len() - 12) as nat,
            }
            &&& conn.after_read(header) == conn
            &&& conn.accepts(body)
            &&& conn.read_action(body) == ReadActionView::<E>::Done(
                Ok(Some(MessageView { username: name, msg_type: kind, text: Some(text) })),
            )
            &&& conn.after_read(body) == (ConnectionView { username: name, ..conn })
        }),
{
    let n = vstd::utf8::encode_utf8(name);
    let t = vstd::utf8::encode_utf8(text);
    let frame = said_frame(name, text);
    law_header_is_decoded(2, n.len(), t.len());
    crate::wire::law_header_reads_back(2, n.len(), t.len());
    assert(frame.subrange(0, 12) =~= crate::wire::header_bytes(2, n.len(), t.len()));
    let body = frame.subrange(12, frame.len() as int);
    assert(body =~= n + t);
    assert(body.subrange(0, n.len() as int) =~= n);
    assert(body.subrange(n.len() as int, body.len() as int) =~= t);
    vstd::utf8::encode_utf8_valid_utf8(name);
    vstd::utf8::encode_utf8_valid_utf8(text);
    vstd::utf8::encode_utf8_decode_utf8(name);
    vstd::utf8::encode_utf8_decode_utf8(text);
}

/// A client that logs in is received under its name, and the connection remembers the name. What the
/// header says of a text is not looked at.
pub proof fn law_login_is_received<E>(conn: ConnectionView, name: Seq<char>, msg_len: nat)
    requires
        conn.read_continuation is None,
        conn.pending is None,
        vstd::utf8::encode_utf8(name).len() + msg_len <= u32::MAX,
    ensures
        ({
            let n = vstd::utf8::encode_utf8(name);
            let header = ReadEventView::<E>::Header(
                Ok(Some(crate::wire::header_bytes(0, n.len(), msg_len))),
            );
            let kind = MessageType::Login { name_len: n.len() as u32 };
            let body = ReadEventView::<E>::Body(kind, Ok(Some(n)));
            &&& conn.accepts(header)
            &&& conn.read_action(header) == ReadActionView::<E>::ReadBody {
                msg_type: kind,
                limit: n.len(),
            }
            &&& conn.after_read(header) == conn
            &&& conn.accepts(body)
            &&& conn.read_action(body) == ReadActionView::<E>::Done(
                Ok(Some(MessageView { username: name, msg_type: kind, text: None })),
            )
            &&& conn.after_read(body) == (ConnectionView { username: name, ..conn })
        }),
{
    let n = vstd::utf8::encode_utf8(name);
    law_header_is_decoded(0, n.len(), msg_len);
    crate::wire::law_header_reads_back(0, n.len(), msg_len);
    vstd::utf8::encode_utf8_valid_utf8(name);
    vstd::utf8::encode_utf8_decode_utf8(name);
}

/// A client that logs out or asks for the list is received under the name that the connection
/// remembers. No body is read, whatever lengths the header gives.
pub proof fn law_bare_header_is_received<E>(
    conn: ConnectionView,
    kind: MessageType,
    name_len: nat,
    msg_len: nat,
)
    requires
        conn.read_continuation is None,
        conn.pending is None,
        kind is Logout || kind is List,
        name_len + msg_len <= u32::MAX,
    ensures
        ({
            let header = ReadEventView::<E>::Header(
                Ok(Some(crate::wire::header_bytes(kind.spec_command(), name_len, msg_len))),
            );
            let body = ReadEventView::<E>::Body(kind, Ok(Some(Seq::empty())));
            &&& conn.accepts(header)
            &&& conn.read_action(header) == ReadActionView::<E>::ReadBody {
                msg_type: kind,
                limit: 0,
            }
            &&& conn.after_read(header) == conn
            &&& conn.accepts(body)
            &&& conn.read_action(body) == ReadActionView::<E>::Done(
                Ok(Some(MessageView { username: conn.username, msg_type: kind, text: None })),
            )
            &&& conn.after_read(body) == conn
        }),
{
    law_header_is_decoded(kind.spec_command(), name_len, msg_len);
    crate::wire::law_header_reads_back(kind.spec_command(), name_len, msg_len);
}

/// A header of which the end is missing, but no more than seven bytes, counts as one with zeros
/// there.
pub proof fn law_missing_header_bytes_are_zero<E>(conn: ConnectionView, bytes: Seq<u8>)
    requires
        crate::state::MIN_HEADER_LEN <= bytes.len() <= crate::wire::HEADER_LEN,
    ensures
        conn.read_action(ReadEventView::<E>::Header(Ok(Some(bytes)))) == conn.read_action(
            ReadEventView::<E>::Header(Ok(Some(crate::wire::padded_header(bytes)))),
        ),
{
    let padded = crate::wire::padded_header(bytes);
    assert(crate::wire::padded_header(padded) =~= padded);
}

/// A frame that a connection sends is announced by its own header: the kind, the length of the name
/// and the length of the line. The name and the line follow in that order, and nothing else.
pub proof fn law_frame_announces_itself(msg: MessageView)
    requires
        msg.complete(),
        msg.name_bytes().len() + msg.line_bytes().len() <= u32::MAX,
    ensures
        ({
            let frame = msg.frame();
            let name_end = 12 + msg.name_bytes().len();
            &&& frame.len() == name_end + msg.line_bytes().len()
            &&& crate::state::decoded_header(frame.subrange(0, 12)) == Some(
                MessageHeader {
                    message_length: (frame.len() - 12) as u64,
                    message_data: Some(announced(msg)),
                },
            )
            &&& vstd::utf8::valid_utf8(frame.subrange(12, name_end as int))
            &&& vstd::utf8::decode_utf8(frame.subrange(12, name_end as int)) == msg.username
            &&& vstd::utf8::valid_utf8(frame.subrange(name_end as int, frame.len() as int))
            &&& vstd::utf8::decode_utf8(frame.subrange(name_end as int, frame.len() as int))
                == msg.rendered()
        }),
{
    let frame = msg.frame();
    let n = msg.name_bytes();
    let l = msg.line_bytes();
    law_header_is_decoded(msg.msg_type.spec_command(), n.len(), l.len());
    crate::wire::law_header_reads_back(msg.msg_type.spec_command(), n.len(), l.len());
    assert(frame.subrange(0, 12) =~= msg.header());
    assert(frame.subrange(12, 12 + n.len() as int) =~= n);
    assert(frame.subrange(12 + n.len() as int, frame.len() as int) =~= l);
    vstd::utf8::encode_utf8_valid_utf8(msg.username);
    vstd::utf8::encode_utf8_decode_utf8(msg.username);
    vstd::utf8::encode_utf8_valid_utf8(msg.rendered());
    vstd::utf8::encode_utf8_decode_utf8(msg.rendered());
}

/// The length that is read off the header of a frame is the length of the frame.
#[verifier::spinoff_prover]
pub proof fn law_frame_length_is_read(msg: MessageView)
    requires
        msg.complete(),
        msg.frame().len() <= i32::MAX,
    ensures
        crate::state::signed_lengths_fit(msg.frame().subrange(0, 12)),
        crate::state::decoded_length(msg.frame().subrange(0, 12)) == msg.frame().len(),
{
    let n = msg.name_bytes().len();
    let l = msg.line_bytes().len();
    let frame = msg.frame();
    let header = msg.header();
    crate::wire::law_header_reads_back(msg.msg_type.spec_command(), n, l);
    assert(frame.len() == 12 + n + l);
    assert(frame.subrange(0, 12) =~= header);
    assert(crate::wire::header_word(header, 1) == n);
    assert(crate::wire::header_word(header, 2) == l);
}

/// A message that a connection sends, read by another connection, comes out under the same name and
/// with the line it is shown as for its text.
pub proof fn law_sent_line_is_received<E>(conn: ConnectionView, msg: MessageView)
    requires
        conn.read_continuation is None,
        conn.pending is None,
        msg.msg_type is Message,
        msg.complete(),
        msg.name_bytes().len() + msg.line_bytes().len() <= u32::MAX,
    ensures
        ({
            let frame = msg.frame();
            let header = ReadEventView::<E>::Header(Ok(Some(frame.subrange(0, 12))));
            let body = ReadEventView::<E>::Body(
                announced(msg),
                Ok(Some(frame.subrange(12, frame.len() as int))),
            );
            &&& conn.accepts(header)
            &&& conn.read_action(header) == ReadActionView::<E>::ReadBody {
                msg_type: announced(msg),
                limit: (frame.len() - 12) as nat,
            }
            &&& conn.accepts(body)
            &&& conn.read_action(body) == ReadActionView::<E>::Done(
                Ok(
                    Some(
                        MessageView {
                            username: msg.username,
                            msg_type: announced(msg),
                            text: Some(msg.rendered()),
                        },
                    ),
                ),
            )
        }),
{
    assert(msg.frame() =~= said_frame(msg.username, msg.rendered()));
    law_said_is_received::<E>(conn, msg.username, msg.rendered());
}

// Reading.

/// A read event that ends in an error leaves the connection as it was.
pub proof fn law_failed_read_changes_nothing<E>(conn: ConnectionView, event: ReadEventView<E>)
    ensures
        conn.read_action(event) matches ReadActionView::Done(Err(_)) ==> conn.after_read(event)
            == conn,
{
}

/// After a message was received the connection knows its user, and no read is left to be resumed.
pub proof fn law_user_is_remembered<E>(conn: ConnectionView, event: ReadEventView<E>)
    ensures
        conn.read_action(event) matches ReadActionView::Done(Ok(Some(msg)))
            ==> conn.after_read(event).username == msg.username && conn.after_read(
            event,
        ).read_continuation is None && conn.after_read(event).pending is None,
{
}

/// A read event starts with as many bytes as the connection noted that it is still to read, or, where
/// it noted nothing, with a header.
pub proof fn law_read_starts_with_what_is_due<E>(conn: ConnectionView)
    requires
        conn.well_formed(),
    ensures
        match conn.read_continuation {
            Some(n) => conn.read_action(ReadEventView::<E>::Ready) matches ReadActionView::ReadBody {
                msg_type,
                limit,
            } && limit == n && limit == msg_type.spec_body_len(),
            None => conn.read_action(ReadEventView::<E>::Ready) is ReadHeader,
        },
{
}

/// Where the read of a body would have blocked, the next read event asks for the same body again, as
/// often as it blocks. Once the body is there, the message comes out as if it had come at once.
pub proof fn law_blocked_body_is_resumed<E, F>(
    conn: ConnectionView,
    msg_type: MessageType,
    body: Seq<u8>,
)
    requires
        msg_type.spec_body_len() <= u32::MAX,
        body.len() == msg_type.spec_body_len(),
        crate::state::body_is_text(msg_type, body),
    ensures
        ({
            let blocked = conn.after_read(ReadEventView::<E>::Body(msg_type, Ok(None)));
            let again = ReadEventView::<F>::Body(msg_type, Ok(None));
            let rest = ReadEventView::<F>::Body(msg_type, Ok(Some(body)));
            &&& conn.read_action(ReadEventView::<E>::Body(msg_type, Ok(None)))
                == ReadActionView::<E>::Done(Ok(None))
            &&& blocked.read_action(ReadEventView::<F>::Ready) == ReadActionView::<F>::ReadBody {
                msg_type,
                limit: msg_type.spec_body_len(),
            }
            &&& blocked.after_read(ReadEventView::<F>::Ready) == blocked
            &&& blocked.accepts(again)
            &&& blocked.after_read(again) == blocked
            &&& blocked.accepts(rest)
            &&& blocked.read_action(rest) == ReadActionView::<F>::Done(
                Ok(Some(conn.received(msg_type, body))),
            )
            &&& blocked.read_action(rest) == conn.read_action(rest)
            &&& blocked.after_read(rest) == conn.after_read(rest)
            &&& blocked.after_read(rest).read_continuation is None
            &&& blocked.after_read(rest).pending is None
        }),
{
}

// Writing.

/// The state after a whole write event, in which the socket answers `answer` to the frame that it is
/// given, if it is given one.
pub open spec fn after_writable<E>(
    conn: ConnectionView,
    answer: Result<Option<usize>, E>,
) -> ConnectionView {
    let ready = conn.after_write(WriteEvent::<E>::Ready);
    if conn.queue.len() == 0 {
        ready
    } else {
        ready.after_write(WriteEvent::Sent(conn.queue.last(), answer))
    }
}

/// The message that was queued last is the one that the next write event sends, in its frame; with
/// it out, the queue is what it was before.
pub proof fn law_last_queued_goes_first<E>(conn: ConnectionView, message: Rc<Message>, n: usize)
    ensures
        conn.after_queueing(message).write_action(WriteEvent::<E>::Ready)
            == (WriteActionView::<E>::Send { msg: message, bytes: message@.frame() }),
        after_writable::<E>(conn.after_queueing(message), Ok(Some(n))).queue == conn.queue,
{
    assert(conn.queue.push(message).drop_last() =~= conn.queue);
}

/// A message that the socket did not take stays where it was, and the next write event sends the
/// same bytes again.
pub proof fn law_blocked_message_is_kept<E>(conn: ConnectionView)
    requires
        conn.queue.len() > 0,
    ensures
        after_writable::<E>(conn, Ok(None)) == (ConnectionView {
            write_continuation: true,
            ..conn
        }),
        after_writable::<E>(conn, Ok(None)).write_action(WriteEvent::<E>::Ready)
            == conn.write_action(WriteEvent::<E>::Ready),
{
    assert(conn.queue.drop_last().push(conn.queue.last()) =~= conn.queue);
}

/// A write event sends one message: one that was taken, and one that the socket failed on, is gone
/// from the queue, and the others stay in their order.
pub proof fn law_one_message_leaves<E>(conn: ConnectionView, n: usize, e: E)
    requires
        conn.queue.len() > 0,
    ensures
        after_writable::<E>(conn, Ok(Some(n))).queue == conn.queue.drop_last(),
        !after_writable::<E>(conn, Ok(Some(n))).write_continuation,
        after_writable::<E>(conn, Err(e)) == (ConnectionView {
            queue: conn.queue.drop_last(),
            ..conn
        }),
{
}

/// After a write event that did not fail, the connection waits for room to write if and only if it
/// has something to send.
pub proof fn law_write_interest_follows_queue<E>(
    conn: ConnectionView,
    answer: Result<Option<usize>, E>,
)
    requires
        conn.well_formed(),
        conn.queue.len() == 0 || answer is Ok,
    ensures
        after_writable(conn, answer).interest.contains(EventKind::Writable) <==> after_writable(
            conn,
            answer,
        ).queue.len() > 0,
{
    if conn.queue.len() > 0 {
        assert(conn.queue.drop_last().push(conn.queue.last()) =~= conn.queue);
    }
}

/// The state after `k` write events, to each of which the socket answers that it took `n` bytes.
pub open spec fn after_writes(conn: ConnectionView, k: nat, n: usize) -> ConnectionView
    decreases k,
{
    if k == 0 {
        conn
    } else {
        after_writable::<()>(after_writes(conn, (k - 1) as nat, n), Ok(Some(n)))
    }
}

/// As many write events as there are messages empty the queue, the message queued last first, and
/// end the wait for room to write.
#[verifier::spinoff_prover]
pub proof fn law_writes_drain_queue(conn: ConnectionView, k: nat, n: usize)
    requires
        k <= conn.queue.len(),
    ensures
        after_writes(conn, k, n).queue == conn.queue.subrange(0, conn.queue.len() - k),
        k < conn.queue.len() ==> after_writes(conn, k, n).write_action(WriteEvent::<()>::Ready) == (
        WriteActionView::<()>::Send {
            msg: conn.queue[conn.queue.len() - 1 - k],
            bytes: conn.queue[conn.queue.len() - 1 - k]@.frame(),
        }),
        0 < k == conn.queue.len() ==> !after_writes(conn, k, n).interest.contains(
            EventKind::Writable,
        ),
    decreases k,
{
    if k == 0 {
        assert(conn.queue.subrange(0, conn.queue.len() as int) =~= conn.queue);
    } else {
        law_writes_drain_queue(conn, (k - 1) as nat, n);
        let before = after_writes(conn, (k - 1) as nat, n);
        let after = after_writes(conn, k, n);
        assert(after == after_writable::<()>(before, Ok(Some(n))));
        assert(before.queue.drop_last() =~= conn.queue.subrange(0, conn.queue.len() - k));
        assert(after.queue == before.queue.drop_last());
    }
}

// Reading beside writing.

/// Reading leaves alone what is to be sent and what is waited for.
pub proof fn law_reading_leaves_writing_alone<E>(conn: ConnectionView, event: ReadEventView<E>)
    ensures
        ({
            let after = conn.after_read(event);
            &&& after.queue == conn.queue
            &&& after.interest == conn.interest
            &&& after.write_continuation == conn.write_continuation
        }),
{
}

/// Queueing and sending leave alone what is being read, and the interest in read events.
pub proof fn law_writing_leaves_reading_alone<E>(
    conn: ConnectionView,
    event: WriteEvent<E>,
    message: Rc<Message>,
)
    ensures
        ({
            let after = conn.after_write(event);
            &&& after.read_continuation == conn.read_continuation
            &&& after.pending == conn.pending
            &&& after.username == conn.username
            &&& after.interest.contains(EventKind::Readable) == conn.interest.contains(
                EventKind::Readable,
            )
        }),
        ({
            let after = conn.after_queueing(message);
            &&& after.read_continuation == conn.read_continuation
            &&& after.pending == conn.pending
            &&& after.username == conn.username
            &&& after.interest.contains(EventKind::Readable) == conn.interest.contains(
                EventKind::Readable,
            )
        }),
{
}

/// A read and a write may come in either order: each asks for the same, and the state is the same.
pub proof fn law_reading_and_writing_commute<E, F>(
    conn: ConnectionView,
    read: ReadEventView<E>,
    write: WriteEvent<F>,
)
    ensures
        conn.after_read(read).after_write(write) == conn.after_write(write).after_read(read),
        conn.after_write(write).read_action(read) == conn.read_action(read),
        conn.after_read(read).write_action(write) == conn.write_action(write),
{
}

/// A read and the queueing of a message may come in either order.
pub proof fn law_reading_and_queueing_commute<E>(
    conn: ConnectionView,
    read: ReadEventView<E>,
    message: Rc<Message>,
)
    ensures
        conn.after_read(read).after_queueing(message) == conn.after_queueing(message).after_read(
            read,
        ),
        conn.after_queueing(message).read_action(read) == conn.read_action(read),
{
}

// Registering.

/// A connection with a message to send is registered for write events, and still for read events if
/// it was listening before.
pub proof fn law_queueing_registers_write_interest<E>(conn: ConnectionView, message: Rc<Message>)
    ensures
        conn.after_queueing(message).reregister_action(RegisterEvent::<E>::Requested) matches
            RegisterActionView::Submit(registration) && registration.token == conn.token
            && registration.interest.contains(EventKind::Writable) && (conn.interest.contains(
            EventKind::Readable,
        ) ==> registration.interest.contains(EventKind::Readable)),
{
}

/// Once a connection was registered it listens for reads, whatever happens to it after that.
pub proof fn law_read_interest_is_kept<E>(
    conn: ConnectionView,
    read: ReadEventView<E>,
    write: WriteEvent<E>,
    register: RegisterEvent<E>,
    message: Rc<Message>,
)
    ensures
        conn.after_register(RegisterEvent::<E>::Requested).interest.contains(EventKind::Readable),
        conn.interest.contains(EventKind::Readable) ==> {
            &&& conn.after_read(read).interest.contains(EventKind::Readable)
            &&& conn.after_write(write).interest.contains(EventKind::Readable)
            &&& conn.after_queueing(message).interest.contains(EventKind::Readable)
            &&& conn.after_register(register).interest.contains(EventKind::Readable)
            &&& conn.after_reregister(register).interest.contains(EventKind::Readable)
        },
{
}

/// A registration that was refused leaves the connection as idle as it was; one that was accepted
/// ends its idleness.
pub proof fn law_registration_ends_idleness<E>(conn: ConnectionView, answer: Result<(), E>)
    ensures
        conn.after_register(RegisterEvent::Answered(answer)).idle == (conn.idle && answer is Err),
        conn.after_reregister(RegisterEvent::Answered(answer)).idle == (conn.idle && answer is Err),
{
}

// Invariants.

/// Every operation keeps a connection well formed.
pub proof fn law_operations_keep_well_formed<E>(
    conn: ConnectionView,
    read: ReadEventView<E>,
    answer: Result<Option<usize>, E>,
    register: RegisterEvent<E>,
    message: Rc<Message>,
)
    requires
        conn.well_formed(),
        conn.accepts(read),
    ensures
        conn.after_read(read).well_formed(),
        conn.after_write(WriteEvent::<E>::Ready).well_formed(),
        after_writable(conn, answer).well_formed(),
        conn.after_queueing(message).well_formed(),
        conn.after_register(register).well_formed(),
        conn.after_reregister(register).well_formed(),
{
}

/// A connection that was marked as reset stays so.
pub proof fn law_reset_is_kept<E>(
    conn: ConnectionView,
    read: ReadEventView<E>,
    write: WriteEvent<E>,
    register: RegisterEvent<E>,
    message: Rc<Message>,
)
    ensures
        conn.after_read(read).reset == conn.reset,
        conn.after_write(write).reset == conn.reset,
        conn.after_queueing(message).reset == conn.reset,
        conn.after_register(register).reset == conn.reset,
        conn.after_reregister(register).reset == conn.reset,
{
}

} // verus!
