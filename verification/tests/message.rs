use chat_connection::message::{Message, MessageHeader, MessageType};

fn login(name: &str) -> Message {
    Message::new(name.to_string(), MessageType::Login { name_len: name.len() as u32 }, None)
}

fn said(name: &str, text: &str) -> Message {
    let msg_type =
        MessageType::Message { name_len: name.len() as u32, msg_len: text.len() as u32 };
    Message::new(name.to_string(), msg_type, Some(text.to_string()))
}

#[test]
fn shows_a_login() {
    assert_eq!(login("ann").get_message(), "<<<ann has joined the room>>>");
}

#[test]
fn shows_a_logout() {
    let msg = Message::new("ann".to_string(), MessageType::Logout, None);
    assert_eq!(msg.get_message(), "<<<ann has left the room>>>");
}

#[test]
fn shows_what_was_said() {
    assert_eq!(said("ann", "hi").get_message(), "ann: hi");
    assert_eq!(said("", "").get_message(), ": ");
}

#[test]
fn shows_a_list() {
    let msg = Message::new("ann".to_string(), MessageType::List, Some("ann, bob".to_string()));
    assert_eq!(msg.get_message(), "ann, bob");
    let empty = Message::new("ann".to_string(), MessageType::List, None);
    assert_eq!(empty.get_message(), "");
}

#[test]
fn puts_the_name_before_the_line() {
    assert_eq!(said("ann", "hi").get_send_message(), "annann: hi");
    assert_eq!(login("bob").get_send_message(), "bob<<<bob has joined the room>>>");
}

#[test]
fn tells_lists_from_other_kinds() {
    assert!(Message::new(String::new(), MessageType::List, None).is_list());
    assert!(!Message::new(String::new(), MessageType::Logout, None).is_list());
    assert!(!login("ann").is_list());
    assert!(!said("ann", "hi").is_list());
}

#[test]
fn only_what_was_said_needs_a_text() {
    let kind = MessageType::Message { name_len: 0, msg_len: 0 };
    assert!(!Message::new(String::new(), kind, None).is_complete());
    assert!(said("ann", "hi").is_complete());
    assert!(login("ann").is_complete());
    assert!(Message::new(String::new(), MessageType::List, None).is_complete());
}

#[test]
fn frames_what_was_said() {
    let frame = said("ann", "hi").frame();
    assert_eq!(&frame[..12], &[2, 0, 0, 0, 3, 0, 0, 0, 7, 0, 0, 0]);
    assert_eq!(&frame[12..], b"annann: hi");
    assert_eq!(said("ann", "hi").header(), &frame[..12]);
}

#[test]
fn header_counts_bytes_and_not_characters() {
    let frame = said("é", "ü").frame();
    assert_eq!(&frame[..12], &[2, 0, 0, 0, 2, 0, 0, 0, 6, 0, 0, 0]);
    assert_eq!(&frame[12..], "éé: ü".as_bytes());
}

#[test]
fn header_words_put_the_low_byte_first() {
    let text = "x".repeat(0x1_0203 - 5);
    let frame = said("ann", &text).frame();
    assert_eq!(&frame[8..12], &[3, 2, 1, 0]);
    assert_eq!(frame.len(), 12 + 3 + 0x1_0203);
}

#[test]
fn numbers_the_kinds() {
    assert_eq!(MessageType::Login { name_len: 1 }.command(), 0);
    assert_eq!(MessageType::Logout.command(), 1);
    assert_eq!(MessageType::Message { name_len: 1, msg_len: 2 }.command(), 2);
    assert_eq!(MessageType::List.command(), 3);
}

#[test]
fn knows_the_kinds_by_number() {
    assert_eq!(MessageType::from_words(0, 7, 9), Some(MessageType::Login { name_len: 7 }));
    assert_eq!(MessageType::from_words(1, 7, 9), Some(MessageType::Logout));
    assert_eq!(
        MessageType::from_words(2, 7, 9),
        Some(MessageType::Message { name_len: 7, msg_len: 9 })
    );
    assert_eq!(MessageType::from_words(3, 7, 9), Some(MessageType::List));
    assert_eq!(MessageType::from_words(4, 7, 9), None);
}

#[test]
fn knows_the_length_of_a_body() {
    assert_eq!(MessageType::Login { name_len: 7 }.body_len(), 7);
    assert_eq!(MessageType::Logout.body_len(), 0);
    assert_eq!(MessageType::Message { name_len: 7, msg_len: 9 }.body_len(), 16);
    assert_eq!(MessageType::List.body_len(), 0);
}

#[test]
fn clones_are_equal() {
    let msg = said("ann", "hi");
    assert_eq!(msg.clone(), msg);
    assert_eq!(login("ann").clone(), login("ann"));
    assert_eq!(MessageType::List.clone(), MessageType::List);
}

#[test]
fn makes_a_header() {
    let header = MessageHeader::new(5, Some(MessageType::Logout));
    assert_eq!(header.message_length, 5);
    assert_eq!(header.message_data, Some(MessageType::Logout));
}
