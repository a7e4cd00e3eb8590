use chat_connection::connection::Connection;
use chat_connection::event::{ReadAction, ReadError, ReadEvent};
use chat_connection::message::{Message, MessageHeader, MessageType};
use mio::Token;

type Answer = Result<Option<Vec<u8>>, u8>;

fn connection() -> Connection {
    Connection::new(Token(1))
}

fn header(command: u32, name_len: u32, msg_len: u32) -> Vec<u8> {
    let mut bytes = command.to_le_bytes().to_vec();
    bytes.extend_from_slice(&name_len.to_le_bytes());
    bytes.extend_from_slice(&msg_len.to_le_bytes());
    bytes
}

/// Reads one whole frame, of which the socket holds `header` and `body`.
fn read(conn: &mut Connection, header: Vec<u8>, body: &[u8]) -> Result<Option<Message>, ReadError<u8>> {
    let mut event = ReadEvent::Ready;
    loop {
        assert!(conn.accepts(&event));
        event = match conn.readable(event) {
            ReadAction::ReadHeader => ReadEvent::Header(Ok(Some(header.clone()))),
            ReadAction::ReadBody { msg_type, limit } => {
                let end = body.len().min(limit as usize);
                ReadEvent::Body(msg_type, Ok(Some(body[..end].to_vec())))
            }
            ReadAction::Done(result) => return result,
        };
    }
}

#[test]
fn asks_for_a_header_first() {
    let mut conn = connection();
    let action: ReadAction<u8> = conn.readable(ReadEvent::Ready);
    assert_eq!(action, ReadAction::ReadHeader);
}

#[test]
fn receives_a_login() {
    let mut conn = connection();
    let msg = read(&mut conn, header(0, 3, 0), b"ann").unwrap().unwrap();
    assert_eq!(
        msg,
        Message::new("ann".to_string(), MessageType::Login { name_len: 3 }, None)
    );
    assert_eq!(conn.username, "ann");
}

#[test]
fn receives_what_was_said() {
    let mut conn = connection();
    let msg = read(&mut conn, header(2, 3, 5), b"annhello").unwrap().unwrap();
    let kind = MessageType::Message { name_len: 3, msg_len: 5 };
    assert_eq!(msg, Message::new("ann".to_string(), kind, Some("hello".to_string())));
    assert_eq!(msg.get_message(), "ann: hello");
    assert_eq!(conn.username, "ann");
}

#[test]
fn receives_text_beyond_ascii() {
    let mut conn = connection();
    let body = "žofie€".as_bytes();
    let name_len = "žofie".len() as u32;
    let msg = read(&mut conn, header(2, name_len, 3), body).unwrap().unwrap();
    assert_eq!(msg.username, "žofie");
    assert_eq!(msg.get_message(), "žofie: €");
}

#[test]
fn remembers_the_user() {
    let mut conn = connection();
    read(&mut conn, header(0, 3, 0), b"ann").unwrap();
    let list = read(&mut conn, header(3, 0, 0), b"").unwrap().unwrap();
    assert_eq!(list, Message::new("ann".to_string(), MessageType::List, None));
    let logout = read(&mut conn, header(1, 9, 9), b"left on the wire").unwrap().unwrap();
    assert_eq!(logout, Message::new("ann".to_string(), MessageType::Logout, None));
    assert_eq!(conn.username, "ann");
}

#[test]
fn asks_for_the_body_by_its_length() {
    let mut conn = connection();
    let action: ReadAction<u8> = conn.readable(ReadEvent::Header(Ok(Some(header(2, 300, 2)))));
    let kind = MessageType::Message { name_len: 300, msg_len: 2 };
    assert_eq!(action, ReadAction::ReadBody { msg_type: kind, limit: 302 });
    let action: ReadAction<u8> = conn.readable(ReadEvent::Header(Ok(Some(header(0, 7, 9)))));
    let kind = MessageType::Login { name_len: 7 };
    assert_eq!(action, ReadAction::ReadBody { msg_type: kind, limit: 7 });
}

#[test]
fn a_blocked_header_is_no_message() {
    let mut conn = connection();
    let answer: Answer = Ok(None);
    assert_eq!(conn.readable(ReadEvent::Header(answer)), ReadAction::Done(Ok(None)));
    let again: ReadAction<u8> = conn.readable(ReadEvent::Ready);
    assert_eq!(again, ReadAction::ReadHeader);
}

#[test]
fn a_blocked_body_is_resumed() {
    let mut conn = connection();
    let action: ReadAction<u8> = conn.readable(ReadEvent::Header(Ok(Some(header(0, 3, 0)))));
    let kind = MessageType::Login { name_len: 3 };
    assert_eq!(action, ReadAction::ReadBody { msg_type: kind.clone(), limit: 3 });
    for _ in 0..2 {
        let blocked: Answer = Ok(None);
        let action = conn.readable(ReadEvent::Body(kind.clone(), blocked));
        assert_eq!(action, ReadAction::Done(Ok(None)));
        let again: ReadAction<u8> = conn.readable(ReadEvent::Ready);
        assert_eq!(again, ReadAction::ReadBody { msg_type: kind.clone(), limit: 3 });
    }
    assert_eq!(conn.username, "");
    let whole: Answer = Ok(Some(b"bob".to_vec()));
    let action = conn.readable(ReadEvent::Body(kind.clone(), whole));
    let msg = Message::new("bob".to_string(), kind, None);
    assert_eq!(action, ReadAction::Done(Ok(Some(msg))));
    assert_eq!(conn.username, "bob");
    let next: ReadAction<u8> = conn.readable(ReadEvent::Ready);
    assert_eq!(next, ReadAction::ReadHeader);
}

#[test]
fn a_resumed_read_gives_name_and_text() {
    let mut conn = connection();
    let kind = MessageType::Message { name_len: 3, msg_len: 5 };
    let blocked: Answer = Ok(None);
    conn.readable(ReadEvent::Body(kind.clone(), blocked));
    let msg = read(&mut conn, vec![], b"annhello").unwrap().unwrap();
    assert_eq!(msg, Message::new("ann".to_string(), kind, Some("hello".to_string())));
    let next = read(&mut conn, header(1, 0, 0), b"").unwrap().unwrap();
    assert_eq!(next, Message::new("ann".to_string(), MessageType::Logout, None));
}

#[test]
fn a_resumed_read_that_fails_can_be_tried_again() {
    let mut conn = connection();
    let kind = MessageType::Login { name_len: 3 };
    let blocked: Answer = Ok(None);
    conn.readable(ReadEvent::Body(kind.clone(), blocked));
    let failed: Answer = Err(7);
    let action = conn.readable(ReadEvent::Body(kind.clone(), failed));
    assert_eq!(action, ReadAction::Done(Err(ReadError::Io(7))));
    let again: ReadAction<u8> = conn.readable(ReadEvent::Ready);
    assert_eq!(again, ReadAction::ReadBody { msg_type: kind, limit: 3 });
}

#[test]
fn no_header_is_taken_where_a_body_is_due() {
    let mut conn = connection();
    let kind = MessageType::Message { name_len: 3, msg_len: 5 };
    let blocked: Answer = Ok(None);
    conn.readable(ReadEvent::Body(kind, blocked));
    let info = conn.read_message_info::<u8>(Ok(None));
    assert_eq!(info, Ok(Some(MessageHeader { message_length: 8, message_data: None })));
    let late: ReadAction<u8> = conn.readable(ReadEvent::Header(Ok(Some(header(1, 0, 0)))));
    assert_eq!(late, ReadAction::Done(Err(ReadError::InvalidMessageType)));
    assert_eq!(conn.read_message_length::<u8>(Err(1)), Ok(Some(8)));
}

#[test]
fn a_short_header_is_filled_up_with_zeros() {
    let mut conn = connection();
    let action: ReadAction<u8> = conn.readable(ReadEvent::Header(Ok(Some(vec![2, 0, 0, 0, 6]))));
    let kind = MessageType::Message { name_len: 6, msg_len: 0 };
    assert_eq!(action, ReadAction::ReadBody { msg_type: kind, limit: 6 });
}

#[test]
fn a_header_of_four_bytes_is_too_short() {
    let mut conn = connection();
    let action: ReadAction<u8> = conn.readable(ReadEvent::Header(Ok(Some(vec![2, 0, 0, 0]))));
    assert_eq!(action, ReadAction::Done(Err(ReadError::InvalidMessageLength)));
    let action: ReadAction<u8> = conn.readable(ReadEvent::Header(Ok(Some(vec![]))));
    assert_eq!(action, ReadAction::Done(Err(ReadError::InvalidMessageLength)));
}

#[test]
fn an_unknown_command_is_refused() {
    let mut conn = connection();
    assert_eq!(read(&mut conn, header(4, 0, 0), b""), Err(ReadError::UnknownCommand));
    assert_eq!(read(&mut conn, header(0x100, 0, 0), b""), Err(ReadError::UnknownCommand));
}

#[test]
fn too_little_of_a_body_is_refused() {
    let mut conn = connection();
    read(&mut conn, header(0, 3, 0), b"ann").unwrap();
    assert_eq!(read(&mut conn, header(2, 3, 5), b"bobhell"), Err(ReadError::NotEnoughBytes));
    assert_eq!(conn.username, "ann");
    let again: ReadAction<u8> = conn.readable(ReadEvent::Ready);
    assert_eq!(again, ReadAction::ReadHeader);
}

#[test]
fn hands_on_errors_of_the_socket() {
    let mut conn = connection();
    let answer: Answer = Err(7);
    assert_eq!(conn.readable(ReadEvent::Header(answer)), ReadAction::Done(Err(ReadError::Io(7))));
    let answer: Answer = Err(8);
    assert_eq!(
        conn.readable(ReadEvent::Body(MessageType::List, answer)),
        ReadAction::Done(Err(ReadError::Io(8)))
    );
}

#[test]
fn describes_errors() {
    assert_eq!(ReadError::<u8>::InvalidMessageType.description(), Some("Invalid message type"));
    assert_eq!(
        ReadError::<u8>::UnknownCommand.description(),
        Some("Invalid message type received")
    );
    assert_eq!(
        ReadError::<u8>::InvalidMessageLength.description(),
        Some("Invalid message length")
    );
    assert_eq!(ReadError::<u8>::NotEnoughBytes.description(), Some("Did not read enough bytes"));
    assert_eq!(ReadError::Io(1u8).description(), None);
}

#[test]
fn knows_what_it_cannot_handle() {
    let conn = connection();
    let fits = |bytes: Vec<u8>| conn.accepts::<u8>(&ReadEvent::Header(Ok(Some(bytes))));
    assert!(fits(header(0, u32::MAX, 0)));
    assert!(!fits(header(1, u32::MAX, 1)));
    assert!(!fits(vec![0; 13]));
    assert!(fits(vec![0; 4]));
    let body = |kind: MessageType, bytes: &[u8]| {
        conn.accepts::<u8>(&ReadEvent::Body(kind, Ok(Some(bytes.to_vec()))))
    };
    assert!(body(MessageType::Login { name_len: 2 }, "é".as_bytes()));
    assert!(!body(MessageType::Login { name_len: 2 }, &[0xc3, 0x28]));
    assert!(!body(MessageType::Login { name_len: 1 }, b"ab"));
    assert!(body(MessageType::Login { name_len: 3 }, &[0xff]));
    let split = MessageType::Message { name_len: 1, msg_len: 1 };
    assert!(!body(split, "é".as_bytes()));
    let too_long = MessageType::Message { name_len: u32::MAX, msg_len: 1 };
    assert!(!conn.accepts::<u8>(&ReadEvent::Body(too_long, Ok(None))));
    assert!(body(MessageType::List, b""));
    assert!(conn.accepts::<u8>(&ReadEvent::Ready));
}

#[test]
fn reads_what_a_header_says() {
    let conn = connection();
    let info = conn.read_message_info::<u8>(Ok(Some(header(2, 3, 5))));
    let kind = MessageType::Message { name_len: 3, msg_len: 5 };
    assert_eq!(info, Ok(Some(MessageHeader { message_length: 8, message_data: Some(kind) })));
    let info = conn.read_message_info::<u8>(Ok(Some(header(3, 0x102_0304, 0))));
    assert_eq!(
        info,
        Ok(Some(MessageHeader {
            message_length: 0x102_0304,
            message_data: Some(MessageType::List)
        }))
    );
    assert_eq!(conn.read_message_info::<u8>(Ok(None)), Ok(None));
    assert_eq!(conn.read_message_info(Err(3u8)), Err(ReadError::Io(3)));
}

#[test]
fn reads_the_length_of_a_frame() {
    let conn = connection();
    assert_eq!(conn.read_message_length::<u8>(Ok(Some(header(2, 3, 5)))), Ok(Some(20)));
    assert_eq!(conn.read_message_length::<u8>(Ok(Some(header(9, 0x100, 0)))), Ok(Some(268)));
    assert_eq!(conn.read_message_length::<u8>(Ok(None)), Ok(None));
    assert_eq!(conn.read_message_length(Err(3u8)), Err(ReadError::Io(3)));
    assert_eq!(
        conn.read_message_length::<u8>(Ok(Some(vec![0; 11]))),
        Err(ReadError::InvalidMessageLength)
    );
}

#[test]
fn a_negative_length_is_extended() {
    let conn = connection();
    let bytes = header(2, (-20i32) as u32, 0);
    assert_eq!(conn.read_message_length::<u8>(Ok(Some(bytes))), Ok(Some((-8i64) as u64)));
}

#[test]
fn a_sent_line_is_received() {
    let kind = MessageType::Message { name_len: 3, msg_len: 2 };
    let sent = Message::new("ann".to_string(), kind, Some("hi".to_string()));
    let frame = sent.frame();
    let mut conn = connection();
    let got = read(&mut conn, frame[..12].to_vec(), &frame[12..]).unwrap().unwrap();
    let kind = MessageType::Message { name_len: 3, msg_len: 7 };
    assert_eq!(got, Message::new("ann".to_string(), kind, Some("ann: hi".to_string())));
}

#[test]
fn the_name_of_a_sent_login_is_received() {
    let sent = Message::new("ann".to_string(), MessageType::Login { name_len: 3 }, None);
    let frame = sent.frame();
    let mut conn = connection();
    let got = read(&mut conn, frame[..12].to_vec(), &frame[12..]).unwrap().unwrap();
    assert_eq!(got, sent);
}

#[test]
fn the_length_of_a_sent_frame_is_read() {
    let sent = Message::new("ann".to_string(), MessageType::Logout, None);
    let frame = sent.frame();
    let conn = connection();
    let length = conn.read_message_length::<u8>(Ok(Some(frame[..12].to_vec())));
    assert_eq!(length, Ok(Some(frame.len() as u64)));
}
