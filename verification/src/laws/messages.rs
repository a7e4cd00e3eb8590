//! What is shown of a message, and what is sent of it.

use crate::message::{MessageType, MessageView};
use vstd::prelude::*;

verus! {

/// The numbers of the four kinds.
pub proof fn law_kinds_are_numbered(kind: MessageType)
    ensures
        kind.spec_command() == 0 <==> kind is Login,
        kind.spec_command() == 1 <==> kind is Logout,
        kind.spec_command() == 2 <==> kind is Message,
        kind.spec_command() == 3 <==> kind is List,
{
}

/// What the three words of a header announce: a login has the length of its name, something said has
/// both lengths, and no number above three means anything.
pub proof fn law_words_announce_kinds(command: nat, name_len: u32, msg_len: u32)
    ensures
        command == 0 ==> MessageType::spec_from_words(command, name_len, msg_len) == Some(
            MessageType::Login { name_len },
        ),
        command == 1 ==> MessageType::spec_from_words(command, name_len, msg_len) == Some(
            MessageType::Logout,
        ),
        command == 2 ==> MessageType::spec_from_words(command, name_len, msg_len) == Some(
            MessageType::Message { name_len, msg_len },
        ),
        command == 3 ==> MessageType::spec_from_words(command, name_len, msg_len) == Some(
            MessageType::List,
        ),
        command > 3 ==> MessageType::spec_from_words(command, name_len, msg_len) is None,
{
}

/// A login is followed by its name, something said by its name and its text, and the other kinds by
/// nothing.
pub proof fn law_bodies_have_their_lengths(name_len: u32, msg_len: u32)
    ensures
        (MessageType::Login { name_len }).spec_body_len() == name_len,
        (MessageType::Message { name_len, msg_len }).spec_body_len() == name_len + msg_len,
        MessageType::Logout.spec_body_len() == 0,
        MessageType::List.spec_body_len() == 0,
{
}

/// The only message that cannot be shown is one that a user said without a text.
pub proof fn law_only_said_needs_text(msg: MessageView)
    ensures
        !msg.complete() <==> msg.msg_type is Message && msg.text is None,
{
}

/// What a user said is shown as the name, a colon and a space, and the text.
pub proof fn law_said_line(msg: MessageView, text: Seq<char>)
    requires
        msg.msg_type is Message,
        msg.text == Some(text),
    ensures
        msg.rendered() == msg.username + seq![':', ' '] + text,
{
    reveal_strlit(": ");
    assert(": "@ =~= seq![':', ' ']);
}

/// A login is shown as the name between the marks of the room, whatever text came with it.
pub proof fn law_login_line(msg: MessageView)
    requires
        msg.msg_type is Login,
    ensures
        msg.rendered() == "<<<"@ + msg.username + " has joined the room>>>"@,
{
}

/// A logout is shown as the name between the marks of the room, whatever text came with it.
pub proof fn law_logout_line(msg: MessageView)
    requires
        msg.msg_type is Logout,
    ensures
        msg.rendered() == "<<<"@ + msg.username + " has left the room>>>"@,
{
}

/// A list is shown as its text alone, and as nothing where it has none; the name is not shown.
pub proof fn law_list_line(msg: MessageView)
    requires
        msg.msg_type is List,
    ensures
        msg.text matches Some(text) ==> msg.rendered() == text,
        msg.text is None ==> msg.rendered() == Seq::<char>::empty(),
{
}

/// A frame holds, and holds nothing else than: the number of the kind, the lengths in bytes of name
/// and line modulo 2^32, the encoded name, and the encoded line.
pub proof fn law_frame_layout(msg: MessageView)
    ensures
        ({
            let name = vstd::utf8::encode_utf8(msg.username);
            let line = vstd::utf8::encode_utf8(msg.rendered());
            let name_end = 12 + name.len() as int;
            let frame = msg.frame();
            &&& frame.len() == name_end + line.len()
            &&& crate::wire::word_value(frame.subrange(0, 4)) == msg.msg_type.spec_command()
            &&& crate::wire::word_value(frame.subrange(4, 8)) == name.len() % 0x1_0000_0000
            &&& crate::wire::word_value(frame.subrange(8, 12)) == line.len() % 0x1_0000_0000
            &&& frame.subrange(12, name_end) == name
            &&& frame.subrange(name_end, frame.len() as int) == line
        }),
{
    let name = msg.name_bytes();
    let line = msg.line_bytes();
    let frame = msg.frame();
    let command = msg.msg_type.spec_command();
    crate::wire::law_word_reads_back(command);
    crate::wire::law_word_reads_back(name.len());
    crate::wire::law_word_reads_back(line.len());
    assert(frame.subrange(0, 4) =~= crate::wire::word_bytes(command));
    assert(frame.subrange(4, 8) =~= crate::wire::word_bytes(name.len()));
    assert(frame.subrange(8, 12) =~= crate::wire::word_bytes(line.len()));
    assert(frame.subrange(12, 12 + name.len() as int) =~= name);
    assert(frame.subrange(12 + name.len() as int, frame.len() as int) =~= line);
}

/// The header that can be sent alone is the first twelve bytes of the frame.
pub proof fn law_header_starts_frame(msg: MessageView)
    ensures
        msg.header().len() == 12,
        msg.header() == msg.frame().subrange(0, 12),
{
    assert(msg.header() =~= msg.frame().subrange(0, 12));
}

} // verus!
