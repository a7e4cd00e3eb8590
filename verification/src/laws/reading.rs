//! What comes of each read event, on every connection.

use crate::event::{ReadActionView, ReadError, ReadEventView};
use crate::message::{MessageHeader, MessageType, MessageView};
use crate::state::ConnectionView;
use vstd::prelude::*;

verus! {

/// A read event begins with the body that is due, and with a header where none is; that alone changes
/// nothing.
pub proof fn law_ready_asks_for_what_is_due<E>(conn: ConnectionView)
    ensures
        conn.pending matches Some(due) ==> conn.read_action(ReadEventView::<E>::Ready) == (
        ReadActionView::<E>::ReadBody { msg_type: due.0, limit: due.1 as nat }),
        conn.pending is None ==> conn.read_action(ReadEventView::<E>::Ready)
            == ReadActionView::<E>::ReadHeader,
        conn.after_read(ReadEventView::<E>::Ready) == conn,
{
}

/// No answer to the read of a header changes the connection.
pub proof fn law_header_changes_nothing<E>(
    conn: ConnectionView,
    answer: Result<Option<Seq<u8>>, E>,
)
    ensures
        conn.after_read(ReadEventView::Header(answer)) == conn,
{
}

/// Where nothing more is to be read, the event ends without a message and without an error.
pub proof fn law_blocked_header_ends_event<E>(conn: ConnectionView)
    requires
        conn.read_continuation is None,
    ensures
        conn.read_action(ReadEventView::<E>::Header(Ok(None))) == ReadActionView::<E>::Done(
            Ok(None),
        ),
        conn.message_info::<E>(Ok(None)) == Ok::<Option<MessageHeader>, ReadError<E>>(None),
        conn.message_length::<E>(Ok(None)) == Ok::<Option<u64>, ReadError<E>>(None),
{
}

/// An error of the socket is handed on as it is, and changes nothing.
pub proof fn law_socket_error_is_handed_on<E>(conn: ConnectionView, kind: MessageType, e: E)
    ensures
        conn.read_continuation is None ==> {
            &&& conn.read_action(ReadEventView::Header(Err(e))) == ReadActionView::<E>::Done(
                Err(ReadError::Io(e)),
            )
            &&& conn.message_info(Err(e)) == Err::<Option<MessageHeader>, ReadError<E>>(
                ReadError::Io(e),
            )
            &&& conn.message_length(Err(e)) == Err::<Option<u64>, ReadError<E>>(ReadError::Io(e))
        },
        conn.read_action(ReadEventView::Body(kind, Err(e))) == ReadActionView::<E>::Done(
            Err(ReadError::Io(e)),
        ),
        conn.after_read(ReadEventView::Body(kind, Err(e))) == conn,
{
}

/// Where a body is due, the answer to the read of a header is not looked at.
pub proof fn law_no_header_where_body_is_due<E>(
    conn: ConnectionView,
    n: u64,
    answer: Result<Option<Seq<u8>>, E>,
)
    requires
        conn.read_continuation == Some(n),
    ensures
        conn.read_action(ReadEventView::Header(answer)) == ReadActionView::<E>::Done(
            Err(ReadError::InvalidMessageType),
        ),
        conn.message_info(answer) == Ok::<Option<MessageHeader>, ReadError<E>>(
            Some(MessageHeader { message_length: n, message_data: None }),
        ),
        conn.message_length(answer) == Ok::<Option<u64>, ReadError<E>>(Some(n)),
{
}

/// A header of which fewer than five bytes arrived is refused for its length, whatever they are.
pub proof fn law_short_header_is_refused<E>(conn: ConnectionView, bytes: Seq<u8>)
    requires
        conn.read_continuation is None,
        bytes.len() < 5,
    ensures
        conn.read_action(ReadEventView::<E>::Header(Ok(Some(bytes))))
            == ReadActionView::<E>::Done(Err(ReadError::InvalidMessageLength)),
        conn.message_info::<E>(Ok(Some(bytes))) == Err::<Option<MessageHeader>, ReadError<E>>(
            ReadError::InvalidMessageLength,
        ),
{
}

/// A header with a command above three is refused for its command.
pub proof fn law_unknown_command_is_refused<E>(conn: ConnectionView, bytes: Seq<u8>)
    requires
        conn.read_continuation is None,
        5 <= bytes.len() <= 12,
        crate::wire::header_word(bytes, 0) > 3,
    ensures
        conn.read_action(ReadEventView::<E>::Header(Ok(Some(bytes))))
            == ReadActionView::<E>::Done(Err(ReadError::UnknownCommand)),
        conn.message_info::<E>(Ok(Some(bytes))) == Err::<Option<MessageHeader>, ReadError<E>>(
            ReadError::UnknownCommand,
        ),
{
}

/// A header with a known command asks for the body that it announces: as many bytes as the second
/// word says for a login, as both lengths together for something said, and none for the rest.
pub proof fn law_header_asks_for_its_body<E>(conn: ConnectionView, bytes: Seq<u8>)
    requires
        conn.read_continuation is None,
        5 <= bytes.len() <= 12,
        crate::wire::header_word(bytes, 0) <= 3,
    ensures
        conn.read_action(ReadEventView::<E>::Header(Ok(Some(bytes)))) matches
            ReadActionView::ReadBody { msg_type, limit } && match msg_type {
            MessageType::Login { name_len } => {
                &&& crate::wire::header_word(bytes, 0) == 0
                &&& name_len == crate::wire::header_word(bytes, 1)
                &&& limit == name_len
            },
            MessageType::Logout => crate::wire::header_word(bytes, 0) == 1 && limit == 0,
            MessageType::Message { name_len, msg_len } => {
                &&& crate::wire::header_word(bytes, 0) == 2
                &&& name_len == crate::wire::header_word(bytes, 1)
                &&& msg_len == crate::wire::header_word(bytes, 2)
                &&& limit == name_len + msg_len
            },
            MessageType::List => crate::wire::header_word(bytes, 0) == 3 && limit == 0,
        },
{
    crate::wire::law_words_lie_in_a_row(bytes, 1);
    crate::wire::law_words_lie_in_a_row(bytes, 2);
}

/// The header that is made of a known command gives the kind that is asked for, and the sum of both
/// lengths.
pub proof fn law_header_info_is_exact<E>(conn: ConnectionView, bytes: Seq<u8>)
    requires
        conn.read_continuation is None,
        5 <= bytes.len() <= 12,
        crate::wire::header_word(bytes, 0) <= 3,
        crate::wire::header_word(bytes, 1) + crate::wire::header_word(bytes, 2) <= u32::MAX,
    ensures
        ({
            &&& conn.message_info::<E>(Ok(Some(bytes))) matches Ok(Some(header))
            &&& header.message_length == crate::wire::header_word(bytes, 1)
                + crate::wire::header_word(bytes, 2)
            &&& header.message_data matches Some(kind)
            &&& conn.read_action(ReadEventView::<E>::Header(Ok(Some(bytes)))) matches
                ReadActionView::ReadBody { msg_type, .. }
            &&& msg_type == kind
        }),
{
}

/// The length of a frame can be read off a header that arrived whole: twelve bytes and both lengths as
/// signed numbers, modulo 2^64. Less than a whole header is refused.
pub proof fn law_frame_length_is_exact<E>(conn: ConnectionView, bytes: Seq<u8>)
    requires
        conn.read_continuation is None,
        bytes.len() <= 12,
    ensures
        bytes.len() < 12 ==> conn.message_length::<E>(Ok(Some(bytes))) == Err::<
            Option<u64>,
            ReadError<E>,
        >(ReadError::InvalidMessageLength),
        bytes.len() == 12 ==> (conn.message_length::<E>(Ok(Some(bytes))) matches Ok(Some(n)) && (n
            - 12 - crate::wire::signed_value(crate::wire::header_word(bytes, 1))
            - crate::wire::signed_value(crate::wire::header_word(bytes, 2)))
            % 0x1_0000_0000_0000_0000 == 0),
{
    crate::wire::law_words_lie_in_a_row(bytes, 1);
    crate::wire::law_words_lie_in_a_row(bytes, 2);
}

/// Where the read of a body would have blocked, the event ends without a message, and the connection
/// notes the kind and the length of the body, and nothing else.
pub proof fn law_blocked_body_is_noted<E>(conn: ConnectionView, kind: MessageType)
    requires
        kind.spec_body_len() <= u32::MAX,
    ensures
        conn.read_action(ReadEventView::<E>::Body(kind, Ok(None))) == ReadActionView::<E>::Done(
            Ok(None),
        ),
        ({
            let after = conn.after_read(ReadEventView::<E>::Body(kind, Ok(None)));
            &&& after.read_continuation matches Some(n) && n == kind.spec_body_len()
            &&& after.pending matches Some(due) && due.0 == kind && due.1 == kind.spec_body_len()
            &&& after == (ConnectionView {
                read_continuation: after.read_continuation,
                pending: after.pending,
                ..conn
            })
        }),
{
}

/// A body that is shorter than announced is refused, whatever its kind and its bytes, and changes
/// nothing.
pub proof fn law_short_body_is_refused<E>(conn: ConnectionView, kind: MessageType, body: Seq<u8>)
    requires
        body.len() < kind.spec_body_len(),
    ensures
        conn.read_action(ReadEventView::<E>::Body(kind, Ok(Some(body))))
            == ReadActionView::<E>::Done(Err(ReadError::NotEnoughBytes)),
        conn.after_read(ReadEventView::<E>::Body(kind, Ok(Some(body)))) == conn,
{
}

/// The body of a login is its name: the message carries the name whose encoding the body is, its kind
/// and no text.
pub proof fn law_login_body_is_name<E>(conn: ConnectionView, name_len: u32, body: Seq<u8>)
    requires
        body.len() == name_len,
        vstd::utf8::valid_utf8(body),
    ensures
        conn.read_action(
            ReadEventView::<E>::Body(MessageType::Login { name_len }, Ok(Some(body))),
        ) matches ReadActionView::Done(Ok(Some(msg))) && msg.msg_type == (MessageType::Login {
            name_len,
        }) && msg.text is None && vstd::utf8::encode_utf8(msg.username) == body,
{
    vstd::utf8::decode_utf8_encode_utf8(body);
}

/// The body of something said is its name followed by its text: the message carries both, each as the
/// text whose encoding its part of the body is.
pub proof fn law_said_body_is_name_and_text<E>(
    conn: ConnectionView,
    name_len: u32,
    msg_len: u32,
    body: Seq<u8>,
)
    requires
        body.len() == name_len + msg_len,
        vstd::utf8::valid_utf8(body.subrange(0, name_len as int)),
        vstd::utf8::valid_utf8(body.subrange(name_len as int, body.len() as int)),
    ensures
        ({
            let kind = MessageType::Message { name_len, msg_len };
            &&& conn.read_action(ReadEventView::<E>::Body(kind, Ok(Some(body)))) matches
                ReadActionView::Done(Ok(Some(msg)))
            &&& msg.msg_type == kind
            &&& vstd::utf8::encode_utf8(msg.username) == body.subrange(0, name_len as int)
            &&& msg.text matches Some(text)
            &&& vstd::utf8::encode_utf8(text) == body.subrange(name_len as int, body.len() as int)
        }),
{
    vstd::utf8::decode_utf8_encode_utf8(body.subrange(0, name_len as int));
    vstd::utf8::decode_utf8_encode_utf8(body.subrange(name_len as int, body.len() as int));
}

/// A logout and a list have no body: the message carries the name that the connection knows.
pub proof fn law_bodiless_kinds_take_known_name<E>(conn: ConnectionView, kind: MessageType)
    requires
        kind is Logout || kind is List,
    ensures
        conn.read_action(ReadEventView::<E>::Body(kind, Ok(Some(Seq::empty()))))
            == ReadActionView::<E>::Done(
            Ok(Some(MessageView { username: conn.username, msg_type: kind, text: None })),
        ),
{
}

/// A whole body settles the read: nothing is due any more, the name of the message is the one that the
/// connection knows from then on, and the rest is as it was.
pub proof fn law_whole_body_settles_read<E>(
    conn: ConnectionView,
    kind: MessageType,
    body: Seq<u8>,
)
    requires
        body.len() == kind.spec_body_len(),
    ensures
        conn.read_action(ReadEventView::<E>::Body(kind, Ok(Some(body)))) matches
            ReadActionView::Done(Ok(Some(msg))) && conn.after_read(
            ReadEventView::<E>::Body(kind, Ok(Some(body))),
        ) == (ConnectionView {
            username: msg.username,
            read_continuation: None,
            pending: None,
            ..conn
        }),
{
}

/// Which read events can be handled: any beginning, any answer that brought nothing, any header of at
/// most twelve bytes whose lengths add up in 32 bits or that is too short to be looked at.
pub proof fn law_header_events_accepted<E>(conn: ConnectionView, bytes: Seq<u8>, e: E)
    ensures
        conn.accepts(ReadEventView::<E>::Ready),
        conn.accepts(ReadEventView::<E>::Header(Ok(None))),
        conn.accepts(ReadEventView::<E>::Header(Err(e))),
        conn.accepts_header::<E>(Ok(Some(bytes))) == conn.accepts(
            ReadEventView::<E>::Header(Ok(Some(bytes))),
        ),
        conn.accepts(ReadEventView::<E>::Header(Ok(Some(bytes)))) <==> {
            ||| conn.read_continuation is Some
            ||| bytes.len() < 5
            ||| bytes.len() <= 12 && crate::wire::header_word(bytes, 1) + crate::wire::header_word(
                bytes,
                2,
            ) <= u32::MAX
        },
{
}

/// Which answers can be handled where the length of a frame is asked for: any that brought nothing,
/// and any header of at most twelve bytes that is not whole or whose signed lengths add up in 32 bits.
pub proof fn law_length_answers_accepted<E>(conn: ConnectionView, bytes: Seq<u8>, e: E)
    ensures
        conn.accepts_length::<E>(Ok(None)),
        conn.accepts_length::<E>(Err(e)),
        conn.accepts_length::<E>(Ok(Some(bytes))) <==> {
            let name_len = crate::wire::signed_value(crate::wire::header_word(bytes, 1));
            let msg_len = crate::wire::signed_value(crate::wire::header_word(bytes, 2));
            ||| conn.read_continuation is Some
            ||| bytes.len() < 12
            ||| bytes.len() == 12 && 12 + name_len <= i32::MAX && i32::MIN <= 12 + name_len
                + msg_len <= i32::MAX
        },
{
}

/// Which bodies can be handled: any that is cut short, and any that is whole and text in each of its
/// parts, as long as the announced length fits in 32 bits.
pub proof fn law_body_events_accepted<E>(
    conn: ConnectionView,
    kind: MessageType,
    body: Seq<u8>,
    e: E,
)
    ensures
        conn.accepts(ReadEventView::<E>::Body(kind, Ok(None))) <==> kind.spec_body_len()
            <= u32::MAX,
        conn.accepts(ReadEventView::<E>::Body(kind, Err(e))) <==> kind.spec_body_len() <= u32::MAX,
        conn.accepts(ReadEventView::<E>::Body(kind, Ok(Some(body)))) <==> {
            &&& kind.spec_body_len() <= u32::MAX
            &&& body.len() <= kind.spec_body_len()
            &&& body.len() == kind.spec_body_len() ==> match kind {
                MessageType::Login { .. } => vstd::utf8::valid_utf8(body),
                MessageType::Message { name_len, .. } => {
                    &&& vstd::utf8::valid_utf8(body.subrange(0, name_len as int))
                    &&& vstd::utf8::valid_utf8(body.subrange(name_len as int, body.len() as int))
                },
                MessageType::Logout => true,
                MessageType::List => true,
            }
        },
{
}

} // verus!
