//! What the contents of events and actions are.

use crate::event::{
    LengthAction, LengthActionView, ReadAction, ReadActionView, ReadError, ReadEvent, ReadEventView,
    RegisterAction, RegisterActionView, Registration, WriteAction, WriteActionView,
};
use crate::message::{Message, MessageType};
use std::rc::Rc;
use vstd::prelude::*;

verus! {

/// A read event keeps every byte of the socket's answer, its error, and the kind that it names.
pub proof fn law_read_event_contents<E>(kind: MessageType, bytes: Vec<u8>, e: E)
    ensures
        ReadEvent::<E>::Ready@ == ReadEventView::<E>::Ready,
        ReadEvent::<E>::Header(Ok(None))@ == ReadEventView::<E>::Header(Ok(None)),
        ReadEvent::<E>::Header(Ok(Some(bytes)))@ == ReadEventView::<E>::Header(Ok(Some(bytes@))),
        ReadEvent::<E>::Header(Err(e))@ == ReadEventView::<E>::Header(Err(e)),
        ReadEvent::<E>::Body(kind, Ok(None))@ == ReadEventView::<E>::Body(kind, Ok(None)),
        ReadEvent::<E>::Body(kind, Ok(Some(bytes)))@ == ReadEventView::<E>::Body(
            kind,
            Ok(Some(bytes@)),
        ),
        ReadEvent::<E>::Body(kind, Err(e))@ == ReadEventView::<E>::Body(kind, Err(e)),
{
}

/// The bytes of an answer are all of its bytes; an answer without any, and an error, stay what they are.
pub proof fn law_answer_contents<E>(bytes: Vec<u8>, e: E)
    ensures
        crate::event::answer_view::<E>(Ok(Some(bytes))) == Ok::<Option<Seq<u8>>, E>(Some(bytes@)),
        crate::event::answer_view::<E>(Ok(None)) == Ok::<Option<Seq<u8>>, E>(None),
        crate::event::answer_view::<E>(Err(e)) == Err::<Option<Seq<u8>>, E>(e),
{
}

/// A read action keeps the kind and the limit that it names, the message and the error.
pub proof fn law_read_action_contents<E>(
    kind: MessageType,
    limit: u32,
    msg: Message,
    e: ReadError<E>,
)
    ensures
        ReadAction::<E>::ReadHeader@ == ReadActionView::<E>::ReadHeader,
        (ReadAction::<E>::ReadBody { msg_type: kind, limit })@ == (ReadActionView::<E>::ReadBody {
            msg_type: kind,
            limit: limit as nat,
        }),
        ReadAction::<E>::Done(Ok(Some(msg)))@ == ReadActionView::<E>::Done(Ok(Some(msg@))),
        ReadAction::<E>::Done(Ok(None))@ == ReadActionView::<E>::Done(Ok(None)),
        ReadAction::<E>::Done(Err(e))@ == ReadActionView::<E>::Done(Err(e)),
{
}

/// A write action keeps the message, every byte of the frame, and the result.
pub proof fn law_write_action_contents<E>(msg: Rc<Message>, bytes: Vec<u8>, result: Result<(), E>)
    ensures
        (WriteAction::<E>::Send { msg, bytes })@ == (WriteActionView::<E>::Send {
            msg,
            bytes: bytes@,
        }),
        WriteAction::<E>::Done(result)@ == WriteActionView::<E>::Done(result),
{
}

/// The action of sending a header alone keeps every byte of the header, and the result.
pub proof fn law_length_action_contents<E>(bytes: Vec<u8>, result: Result<Option<()>, E>)
    ensures
        LengthAction::<E>::Send(bytes)@ == LengthActionView::<E>::Send(bytes@),
        LengthAction::<E>::Done(result)@ == LengthActionView::<E>::Done(result),
{
}

/// A registration holds its token, its events and its options, and the action keeps it whole, or the
/// result.
pub proof fn law_register_action_contents<E>(registration: Registration, result: Result<(), E>)
    ensures
        registration@.token == registration.token,
        registration@.interest == crate::readiness::event_kinds(registration.interest),
        registration@.opts == crate::readiness::poll_kinds(registration.opts),
        RegisterAction::<E>::Submit(registration)@ == RegisterActionView::<E>::Submit(
            registration@,
        ),
        RegisterAction::<E>::Done(result)@ == RegisterActionView::<E>::Done(result),
{
}

/// A text is the characters of its string, where there is one.
pub proof fn law_text_contents(text: String)
    ensures
        crate::message::text_view(Some(text)) == Some(text@),
        crate::message::text_view(None) is None,
{
}

} // verus!
