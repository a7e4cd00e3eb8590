//! What comes of each write event, on every connection.

use crate::event::{LengthActionView, LengthEvent, WriteActionView, WriteEvent};
use crate::message::{Message, MessageView};
use crate::readiness::EventKind;
use crate::state::ConnectionView;
use std::rc::Rc;
use vstd::prelude::*;

verus! {

/// Queueing puts the message behind the others and waits for room to write, and does nothing else.
pub proof fn law_queueing_adds_one(conn: ConnectionView, message: Rc<Message>)
    ensures
        ({
            let after = conn.after_queueing(message);
            &&& after.queue.len() == conn.queue.len() + 1
            &&& after.queue.drop_last() == conn.queue
            &&& after.queue.last() == message
            &&& forall|kind: EventKind| #[trigger]
                after.interest.contains(kind) <==> conn.interest.contains(kind)
                    || kind is Writable
            &&& after == (ConnectionView { queue: after.queue, interest: after.interest, ..conn })
        }),
{
    assert(conn.after_queueing(message).queue.drop_last() =~= conn.queue);
}

/// With nothing to send, a write event ends at once: no frame is written, write events are not waited
/// for any more, and nothing else changes.
pub proof fn law_empty_queue_ends_event<E>(conn: ConnectionView)
    requires
        conn.queue.len() == 0,
    ensures
        conn.write_action(WriteEvent::<E>::Ready) == WriteActionView::<E>::Done(Ok(())),
        ({
            let after = conn.after_write(WriteEvent::<E>::Ready);
            &&& forall|kind: EventKind| #[trigger]
                after.interest.contains(kind) <==> conn.interest.contains(kind) && !(
                kind is Writable)
            &&& after == (ConnectionView { interest: after.interest, ..conn })
        }),
{
}

/// With something to send, a write event takes the last message out of the queue and asks for its
/// frame to be written; nothing else changes yet.
pub proof fn law_ready_sends_last_message<E>(conn: ConnectionView)
    requires
        conn.queue.len() > 0,
    ensures
        conn.write_action(WriteEvent::<E>::Ready) matches WriteActionView::Send { msg, bytes } && msg
            == conn.queue[conn.queue.len() - 1] && bytes == msg@.frame(),
        conn.after_write(WriteEvent::<E>::Ready) == (ConnectionView {
            queue: conn.queue.subrange(0, conn.queue.len() - 1),
            ..conn
        }),
{
    assert(conn.queue.drop_last() =~= conn.queue.subrange(0, conn.queue.len() - 1));
}

/// The answer to a write ends the event: one write event writes one frame, whatever the message, and
/// fails only where the socket failed, with its error.
pub proof fn law_answer_ends_write_event<E>(
    conn: ConnectionView,
    msg: Rc<Message>,
    answer: Result<Option<usize>, E>,
)
    ensures
        conn.write_action(WriteEvent::Sent(msg, answer)) matches WriteActionView::Done(result) && (
        answer is Ok ==> result is Ok) && (answer matches Err(e) ==> result == Err::<(), E>(e)),
{
}

/// A message that was taken does not come back: the queue stays, no write is being tried again, and
/// write events are waited for as before if something is left, and else no more.
pub proof fn law_taken_message_is_gone<E>(conn: ConnectionView, msg: Rc<Message>, n: usize)
    ensures
        ({
            let after = conn.after_write(WriteEvent::<E>::Sent(msg, Ok(Some(n))));
            &&& after.queue == conn.queue
            &&& !after.write_continuation
            &&& forall|kind: EventKind| #[trigger]
                after.interest.contains(kind) <==> conn.interest.contains(kind) && !(
                kind is Writable && conn.queue.len() == 0)
            &&& after == (ConnectionView {
                write_continuation: false,
                interest: after.interest,
                ..conn
            })
        }),
{
}

/// A message that was not taken is the last in the queue again, and the write is noted as one to be
/// tried again; nothing else changes.
pub proof fn law_refused_message_comes_back<E>(conn: ConnectionView, msg: Rc<Message>)
    ensures
        ({
            let after = conn.after_write(WriteEvent::<E>::Sent(msg, Ok(None)));
            &&& after.queue.len() == conn.queue.len() + 1
            &&& after.queue.drop_last() == conn.queue
            &&& after.queue.last() == msg
            &&& after == (ConnectionView { queue: after.queue, write_continuation: true, ..conn })
        }),
{
    assert(conn.queue.push(msg).drop_last() =~= conn.queue);
}

/// A write that failed changes nothing.
pub proof fn law_failed_write_changes_nothing<E>(conn: ConnectionView, msg: Rc<Message>, e: E)
    ensures
        conn.after_write(WriteEvent::Sent(msg, Err(e))) == conn,
{
}

/// A write event can be handled unless the message that goes next was said without a text.
pub proof fn law_next_message_must_be_complete(conn: ConnectionView)
    ensures
        !conn.next_complete() <==> conn.queue.len() > 0 && conn.queue[conn.queue.len()
            - 1]@.msg_type is Message && conn.queue[conn.queue.len() - 1]@.text is None,
{
}

/// The header of a message is sent alone unless a write is being tried again, and then it counts as
/// out already.
pub proof fn law_header_is_sent_once<E>(conn: ConnectionView, msg: MessageView)
    ensures
        !conn.write_continuation ==> conn.length_action(msg, LengthEvent::<E>::Ready)
            == LengthActionView::<E>::Send(msg.frame().subrange(0, 12)),
        conn.write_continuation ==> conn.length_action(msg, LengthEvent::<E>::Ready)
            == LengthActionView::<E>::Done(Ok(Some(()))),
{
    crate::laws::messages::law_header_starts_frame(msg);
}

/// The socket's answer to a header that is sent alone says whether it is out, would have blocked or
/// failed, whatever the message.
pub proof fn law_header_answer_is_told<E>(conn: ConnectionView, msg: MessageView, n: usize, e: E)
    ensures
        conn.length_action(msg, LengthEvent::<E>::Sent(Ok(Some(n))))
            == LengthActionView::<E>::Done(Ok(Some(()))),
        conn.length_action(msg, LengthEvent::<E>::Sent(Ok(None)))
            == LengthActionView::<E>::Done(Ok(None)),
        conn.length_action(msg, LengthEvent::Sent(Err(e))) == LengthActionView::<E>::Done(Err(e)),
{
}

} // verus!
