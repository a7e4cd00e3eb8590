//! Chat messages: their kinds, the text they are shown as, and the frames they are sent in.

use vstd::prelude::*;

verus! {

/// The kind of a message, with the lengths in bytes that its frame announces.
#[derive(Debug, PartialEq, Eq, Structural)]
pub enum MessageType {
    /// A user joins.
    Login { name_len: u32 },
    /// A user leaves.
    Logout,
    /// A user says something.
    Message { name_len: u32, msg_len: u32 },
    /// A user asks who is there, or the answer to that.
    List,
}

impl MessageType {
    /// The number that stands for this kind in a frame.
    pub open spec fn spec_command(self) -> nat {
        match self {
            MessageType::Login { .. } => 0,
            MessageType::Logout => 1,
            MessageType::Message { .. } => 2,
            MessageType::List => 3,
        }
    }

    /// How many bytes follow the header of a frame of this kind that a client sends.
    pub open spec fn spec_body_len(self) -> nat {
        match self {
            MessageType::Login { name_len } => name_len as nat,
            MessageType::Logout => 0,
            MessageType::Message { name_len, msg_len } => (name_len + msg_len) as nat,
            MessageType::List => 0,
        }
    }

    /// The kind that a header with these three words announces, if there is one.
    pub open spec fn spec_from_words(command: nat, name_len: u32, msg_len: u32) -> Option<
        MessageType,
    > {
        if command == 0 {
            Some(MessageType::Login { name_len })
        } else if command == 1 {
            Some(MessageType::Logout)
        } else if command == 2 {
            Some(MessageType::Message { name_len, msg_len })
        } else if command == 3 {
            Some(MessageType::List)
        } else {
            None
        }
    }

    /// The number that stands for this kind in a frame.
    pub fn command(&self) -> (command: i32)
        ensures
            command as int == self.spec_command(),
    {
        match self {
            MessageType::Login { name_len: _ } => 0,
            MessageType::Logout => 1,
            MessageType::Message { name_len: _, msg_len: _ } => 2,
            MessageType::List => 3,
        }
    }

    /// How many bytes follow the header of a frame of this kind that a client sends.
    pub fn body_len(&self) -> (len: u32)
        requires
            self.spec_body_len() <= u32::MAX,
        ensures
            len as nat == self.spec_body_len(),
    {
        match self {
            MessageType::Login { name_len } => *name_len,
            MessageType::Logout => 0,
            MessageType::Message { name_len, msg_len } => *name_len + *msg_len,
            MessageType::List => 0,
        }
    }

    /// The kind that a header with these three words announces, if there is one.
    pub fn from_words(command: u32, name_len: u32, msg_len: u32) -> (msg_type: Option<MessageType>)
        ensures
            msg_type == MessageType::spec_from_words(command as nat, name_len, msg_len),
    {
        match command {
            0 => Some(MessageType::Login { name_len }),
            1 => Some(MessageType::Logout),
            2 => Some(MessageType::Message { name_len, msg_len }),
            3 => Some(MessageType::List),
            _ => None,
        }
    }
}

impl Clone for MessageType {
    fn clone(&self) -> (copy: MessageType)
        ensures
            copy == *self,
    {
        match self {
            MessageType::Login { name_len } => MessageType::Login { name_len: *name_len },
            MessageType::Logout => MessageType::Logout,
            MessageType::Message { name_len, msg_len } => MessageType::Message {
                name_len: *name_len,
                msg_len: *msg_len,
            },
            MessageType::List => MessageType::List,
        }
    }
}

/// What is known of a frame once its header was read.
#[derive(Debug, PartialEq, Eq, Structural)]
pub struct MessageHeader {
    /// The length of name and text together, or of the body that is still to come.
    pub message_length: u64,
    /// The kind of the message; `None` where a read is resumed, since no header is read then.
    pub message_data: Option<MessageType>,
}

impl MessageHeader {
    pub fn new(length: u64, message: Option<MessageType>) -> (header: MessageHeader)
        ensures
            header == (MessageHeader { message_length: length, message_data: message }),
    {
        MessageHeader { message_length: length, message_data: message }
    }
}

/// The contents of a `Message`.
#[verifier::ext_equal]
pub struct MessageView {
    pub username: Seq<char>,
    pub msg_type: MessageType,
    pub text: Option<Seq<char>>,
}

impl MessageView {
    /// Whether the message can be shown: what a user says needs a text.
    pub open spec fn complete(self) -> bool {
        self.msg_type is Message ==> self.text is Some
    }

    /// The line that the message is shown as.
    pub open spec fn rendered(self) -> Seq<char> {
        match self.msg_type {
            MessageType::Login { .. } => "<<<"@ + self.username + " has joined the room>>>"@,
            MessageType::Logout => "<<<"@ + self.username + " has left the room>>>"@,
            MessageType::Message { .. } => self.username + ": "@ + self.text->0,
            MessageType::List => match self.text {
                Some(text) => text,
                None => Seq::empty(),
            },
        }
    }

    /// The encoded user name.
    pub open spec fn name_bytes(self) -> Seq<u8> {
        vstd::utf8::encode_utf8(self.username)
    }

    /// The encoded line that the message is shown as.
    pub open spec fn line_bytes(self) -> Seq<u8> {
        vstd::utf8::encode_utf8(self.rendered())
    }

    /// The header of the frame that the message is sent in.
    pub open spec fn header(self) -> Seq<u8> {
        crate::wire::header_bytes(
            self.msg_type.spec_command(),
            self.name_bytes().len(),
            self.line_bytes().len(),
        )
    }

    /// The frame that the message is sent in: header, user name, line.
    pub open spec fn frame(self) -> Seq<u8> {
        self.header() + self.name_bytes() + self.line_bytes()
    }
}

/// A message of the chat, from or to a client.
#[derive(Debug, PartialEq, Eq)]
pub struct Message {
    pub username: String,
    pub msg_type: MessageType,
    text: Option<String>,
}

impl View for Message {
    type V = MessageView;

    closed spec fn view(&self) -> MessageView {
        MessageView {
            username: self.username@,
            msg_type: self.msg_type,
            text: text_view(self.text),
        }
    }
}

/// The contents of a message are its name, its kind and the characters of its text, as they are.
proof fn law_message_contents(msg: Message)
    ensures
        msg@.username == msg.username@,
        msg@.msg_type == msg.msg_type,
        msg@.text is Some <==> msg.text is Some,
        msg.text matches Some(text) ==> msg@.text == Some(text@),
{
}

/// The characters of a text, where there is one.
pub open spec fn text_view(text: Option<String>) -> Option<Seq<char>> {
    match text {
        Some(text) => Some(text@),
        None => None,
    }
}

impl Clone for Message {
    fn clone(&self) -> (copy: Message)
        ensures
            copy@ == self@,
    {
        Message {
            username: self.username.clone(),
            msg_type: self.msg_type.clone(),
            text: self.text.clone(),
        }
    }
}

impl Message {
    pub fn new(name: String, msg_type: MessageType, message: Option<String>) -> (msg: Message)
        ensures
            msg@ == (MessageView { username: name@, msg_type, text: text_view(message) }),
    {
        Message { username: name, msg_type: msg_type, text: message }
    }

    /// Whether the message can be shown and sent.
    pub fn is_complete(&self) -> (complete: bool)
        ensures
            complete == self@.complete(),
    {
        match self.msg_type {
            MessageType::Message { name_len: _, msg_len: _ } => self.text.is_some(),
            _ => true,
        }
    }

    /// The line that the message is shown as.
    pub fn get_message(&self) -> (line: String)
        requires
            self@.complete(),
        ensures
            line@ == self@.rendered(),
    {
        let mut message = String::new();
        match self.msg_type {
            MessageType::Login { name_len: _ } => {
                message.append("<<<");
                message.append(self.username.as_str());
                message.append(" has joined the room>>>");
            },
            MessageType::Logout => {
                message.append("<<<");
                message.append(self.username.as_str());
                message.append(" has left the room>>>");
            },
            MessageType::Message { name_len: _, msg_len: _ } => {
                message.append(self.username.as_str());
                message.append(": ");
                match &self.text {
                    Some(text) => {
                        message.append(text.as_str());
                    },
                    None => {},
                }
            },
            MessageType::List => {
                match &self.text {
                    Some(text) => {
                        message.append(text.as_str());
                    },
                    None => {},
                }
            },
        }
        assert(message@ =~= self@.rendered());
        message
    }

    /// The user name followed by the line that the message is shown as.
    pub fn get_send_message(&self) -> (text: String)
        requires
            self@.complete(),
        ensures
            text@ == self@.username + self@.rendered(),
    {
        let msg_text = self.get_message();
        let mut msg_to_send = String::new();
        msg_to_send.append(self.username.as_str());
        msg_to_send.append(msg_text.as_str());
        assert(msg_to_send@ =~= self@.username + self@.rendered());
        msg_to_send
    }

    pub fn is_list(&self) -> (list: bool)
        ensures
            list == (self@.msg_type is List),
    {
        match self.msg_type {
            MessageType::List => true,
            _ => false,
        }
    }

    /// The header of the frame that the message is sent in.
    pub fn header(&self) -> (header: Vec<u8>)
        requires
            self@.complete(),
        ensures
            header@ == self@.header(),
    {
        let line = self.get_message();
        let line_len = line.as_str().as_bytes().len();
        let name_len = self.username.as_str().as_bytes().len();
        crate::wire::encode_header(self.msg_type.command(), name_len, line_len)
    }

    /// The frame that the message is sent in.
    pub fn frame(&self) -> (frame: Vec<u8>)
        requires
            self@.complete(),
        ensures
            frame@ == self@.frame(),
    {
        let mut frame = self.header();
        let msg_bytes = self.get_send_message();
        frame.extend_from_slice(msg_bytes.as_str().as_bytes());
        proof {
            crate::text::law_encode_concat(self@.username, self@.rendered());
        }
        assert(frame@ =~= self@.frame());
        frame
    }
}

} // verus!
