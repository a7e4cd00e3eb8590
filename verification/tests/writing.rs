use std::rc::Rc;

use chat_connection::connection::Connection;
use chat_connection::event::{
    LengthAction, LengthEvent, ReadAction, ReadEvent, RegisterAction, RegisterEvent, Registration,
    WriteAction, WriteEvent,
};
use chat_connection::message::{Message, MessageType};
use mio::{EventSet, PollOpt, Token};

fn said(text: &str) -> Rc<Message> {
    let msg_type = MessageType::Message { name_len: 3, msg_len: text.len() as u32 };
    Rc::new(Message::new("ann".to_string(), msg_type, Some(text.to_string())))
}

fn queue(conn: &mut Connection, msg: &Rc<Message>) {
    let result: Result<(), u8> = conn.send_message(msg.clone());
    assert_eq!(result, Ok(()));
}

/// Handles one write event; the socket answers `answer`. Gives what was sent, and the result.
fn write(
    conn: &mut Connection,
    answer: Result<Option<usize>, u8>,
) -> (Option<Vec<u8>>, Result<(), u8>) {
    assert!(conn.next_complete());
    match conn.writable(WriteEvent::Ready) {
        WriteAction::Send { msg, bytes } => match conn.writable(WriteEvent::Sent(msg, answer)) {
            WriteAction::Done(result) => (Some(bytes), result),
            WriteAction::Send { .. } => panic!("sent twice"),
        },
        WriteAction::Done(result) => (None, result),
    }
}

fn submitted(action: RegisterAction<u8>) -> Registration {
    match action {
        RegisterAction::Submit(registration) => registration,
        RegisterAction::Done(_) => panic!("nothing submitted"),
    }
}

#[test]
fn a_new_connection_is_idle_and_waits_for_a_hang_up() {
    let mut conn = Connection::new(Token(5));
    assert_eq!(conn.token, Token(5));
    assert_eq!(conn.username, "");
    assert!(conn.is_idle());
    assert!(!conn.is_reset());
    assert!(!conn.has_write_queued());
    let registration = submitted(conn.reregister(RegisterEvent::Requested));
    assert_eq!(registration.interest, EventSet::hup());
}

#[test]
fn queueing_asks_for_write_events() {
    let mut conn = Connection::new(Token(5));
    submitted(conn.register(RegisterEvent::Requested));
    queue(&mut conn, &said("hi"));
    assert!(conn.has_write_queued());
    queue(&mut conn, &said("again"));
    assert!(conn.has_write_queued());
    let registration = submitted(conn.reregister(RegisterEvent::Requested));
    assert!(registration.interest.is_writable());
    assert!(registration.interest.is_readable());
    assert!(registration.interest.is_hup());
    assert!(!registration.interest.is_error());
}

#[test]
fn an_empty_queue_has_nothing_to_send() {
    let mut conn = Connection::new(Token(5));
    assert_eq!(write(&mut conn, Ok(Some(0))), (None, Ok(())));
    assert!(!conn.has_write_queued());
}

#[test]
fn sends_the_frame_of_a_message() {
    let mut conn = Connection::new(Token(5));
    queue(&mut conn, &said("hi"));
    let mut frame = vec![2, 0, 0, 0, 3, 0, 0, 0, 7, 0, 0, 0];
    frame.extend_from_slice(b"annann: hi");
    assert_eq!(write(&mut conn, Ok(Some(22))), (Some(frame), Ok(())));
    assert!(!conn.has_write_queued());
}

#[test]
fn the_message_queued_last_goes_first() {
    let mut conn = Connection::new(Token(5));
    let (first, second) = (said("one"), said("two"));
    queue(&mut conn, &first);
    queue(&mut conn, &second);
    assert_eq!(write(&mut conn, Ok(Some(1))).0, Some(second.frame()));
    assert!(conn.has_write_queued());
    assert_eq!(write(&mut conn, Ok(Some(1))).0, Some(first.frame()));
    assert!(!conn.has_write_queued());
    assert_eq!(write(&mut conn, Ok(Some(1))).0, None);
}

#[test]
fn a_blocked_message_is_tried_again() {
    let mut conn = Connection::new(Token(5));
    let msg = said("hi");
    queue(&mut conn, &said("first"));
    queue(&mut conn, &msg);
    for _ in 0..3 {
        assert_eq!(write(&mut conn, Ok(None)), (Some(msg.frame()), Ok(())));
        assert!(conn.has_write_queued());
    }
    assert_eq!(write(&mut conn, Ok(Some(9))), (Some(msg.frame()), Ok(())));
    assert_eq!(write(&mut conn, Ok(Some(9))).0, Some(said("first").frame()));
}

#[test]
fn a_message_that_the_socket_fails_on_is_dropped() {
    let mut conn = Connection::new(Token(5));
    queue(&mut conn, &said("first"));
    queue(&mut conn, &said("second"));
    assert_eq!(write(&mut conn, Err(4)), (Some(said("second").frame()), Err(4)));
    assert_eq!(write(&mut conn, Ok(Some(9))).0, Some(said("first").frame()));
}

#[test]
fn an_empty_queue_ends_the_wait_for_write_events() {
    let mut conn = Connection::new(Token(5));
    queue(&mut conn, &said("only"));
    assert_eq!(write(&mut conn, Err(4)).1, Err(4));
    assert!(conn.has_write_queued());
    assert_eq!(write(&mut conn, Ok(Some(0))), (None, Ok(())));
    assert!(!conn.has_write_queued());
}

#[test]
fn tells_when_the_next_message_has_no_text() {
    let mut conn = Connection::new(Token(5));
    let kind = MessageType::Message { name_len: 0, msg_len: 0 };
    queue(&mut conn, &Rc::new(Message::new(String::new(), kind, None)));
    assert!(!conn.next_complete());
    queue(&mut conn, &said("hi"));
    assert!(conn.next_complete());
}

#[test]
fn sends_a_header_alone() {
    let mut conn = Connection::new(Token(5));
    let msg = said("hi");
    let action = conn.write_message_length::<u8>(&msg, LengthEvent::Ready);
    assert_eq!(action, LengthAction::Send(vec![2, 0, 0, 0, 3, 0, 0, 0, 7, 0, 0, 0]));
    let sent = |answer| conn.write_message_length::<u8>(&msg, LengthEvent::Sent(answer));
    assert_eq!(sent(Ok(None)), LengthAction::Done(Ok(None)));
    assert_eq!(sent(Ok(Some(12))), LengthAction::Done(Ok(Some(()))));
    assert_eq!(sent(Err(2)), LengthAction::Done(Err(2)));
    queue(&mut conn, &msg);
    write(&mut conn, Ok(None)).1.unwrap();
    let action = conn.write_message_length::<u8>(&msg, LengthEvent::Ready);
    assert_eq!(action, LengthAction::Done(Ok(Some(()))));
    write(&mut conn, Ok(Some(1))).1.unwrap();
    let action = conn.write_message_length::<u8>(&msg, LengthEvent::Ready);
    assert_eq!(action, LengthAction::Send(msg.header()));
}

#[test]
fn registers_for_reads() {
    let mut conn = Connection::new(Token(9));
    let registration = submitted(conn.register(RegisterEvent::Requested));
    assert_eq!(registration.token, Token(9));
    assert_eq!(registration.interest, EventSet::hup() | EventSet::readable());
    assert_eq!(registration.opts, PollOpt::edge() | PollOpt::oneshot());
    assert!(conn.is_idle());
    let done = conn.register(RegisterEvent::Answered(Err(3u8)));
    assert!(matches!(done, RegisterAction::Done(Err(3))));
    assert!(conn.is_idle());
    let done = conn.register::<u8>(RegisterEvent::Answered(Ok(())));
    assert!(matches!(done, RegisterAction::Done(Ok(()))));
    assert!(!conn.is_idle());
}

#[test]
fn registers_again() {
    let mut conn = Connection::new(Token(9));
    submitted(conn.register(RegisterEvent::Requested));
    conn.register::<u8>(RegisterEvent::Answered(Ok(())));
    conn.mark_idle();
    assert!(conn.is_idle());
    let registration = submitted(conn.reregister(RegisterEvent::Requested));
    assert_eq!(registration.token, Token(9));
    assert_eq!(registration.interest, EventSet::hup() | EventSet::readable());
    assert_eq!(registration.opts, PollOpt::edge() | PollOpt::oneshot());
    let done = conn.reregister(RegisterEvent::Answered(Err(3u8)));
    assert!(matches!(done, RegisterAction::Done(Err(3))));
    assert!(conn.is_idle());
    let done = conn.reregister::<u8>(RegisterEvent::Answered(Ok(())));
    assert!(matches!(done, RegisterAction::Done(Ok(()))));
    assert!(!conn.is_idle());
}

#[test]
fn a_reset_is_kept() {
    let mut conn = Connection::new(Token(9));
    conn.mark_reset();
    queue(&mut conn, &said("hi"));
    write(&mut conn, Ok(Some(1))).1.unwrap();
    conn.register::<u8>(RegisterEvent::Answered(Ok(())));
    conn.mark_idle();
    assert!(conn.is_reset());
}

#[test]
fn reads_and_writes_do_not_disturb_each_other() {
    let mut conn = Connection::new(Token(9));
    let msg = said("hi");
    queue(&mut conn, &msg);
    let login = MessageType::Login { name_len: 3 };
    let action: ReadAction<u8> =
        conn.readable(ReadEvent::Body(login, Ok(Some(b"bob".to_vec()))));
    assert!(matches!(action, ReadAction::Done(Ok(Some(_)))));
    assert!(conn.has_write_queued());
    assert_eq!(write(&mut conn, Ok(Some(1))).0, Some(msg.frame()));
    assert_eq!(conn.username, "bob");
    let action: ReadAction<u8> = conn.readable(ReadEvent::Ready);
    assert_eq!(action, ReadAction::ReadHeader);
}
