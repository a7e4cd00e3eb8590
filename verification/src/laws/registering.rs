//! How a connection begins, and what comes of registering it.

use crate::event::{RegisterActionView, RegisterEvent};
use crate::readiness::{EventKind, PollKind};
use crate::state::ConnectionView;
use vstd::prelude::*;

verus! {

/// A connection that was just accepted is idle, waits for a hang-up alone, has nothing to send, nothing
/// due, no user, and is not reset.
pub proof fn law_accepted_connection_is_fresh(token: mio::Token)
    ensures
        ({
            let conn = ConnectionView::accepted(token);
            &&& conn.token == token
            &&& forall|kind: EventKind| #[trigger] conn.interest.contains(kind) <==> kind is Hup
            &&& conn.queue.len() == 0
            &&& conn.idle
            &&& !conn.reset
            &&& conn.read_continuation is None
            &&& conn.pending is None
            &&& !conn.write_continuation
            &&& conn.username.len() == 0
        }),
{
}

/// What a well-formed connection is.
pub proof fn law_well_formed_means(conn: ConnectionView)
    ensures
        conn.well_formed() <==> {
            &&& conn.interest.contains(EventKind::Hup)
            &&& conn.queue.len() == 0 || conn.interest.contains(EventKind::Writable)
            &&& conn.pending is Some <==> conn.read_continuation is Some
            &&& conn.pending matches Some(due) ==> due.1 == due.0.spec_body_len()
                && conn.read_continuation == Some(due.1 as u64)
        },
{
}

/// Registering again submits the connection's token, exactly the events that it waits for, edge
/// triggering and the one-shot option; it changes nothing yet.
pub proof fn law_reregister_submits_interest<E>(conn: ConnectionView)
    ensures
        conn.reregister_action(RegisterEvent::<E>::Requested) matches RegisterActionView::Submit(r)
            && r.token == conn.token && r.interest == conn.interest && (forall|kind: PollKind|
            #[trigger]
            r.opts.contains(kind) <==> kind is Edge || kind is Oneshot),
        conn.after_reregister(RegisterEvent::<E>::Requested) == conn,
{
}

/// Registering adds read events to what the connection waits for, and submits just that.
pub proof fn law_register_listens<E>(conn: ConnectionView)
    ensures
        ({
            let after = conn.after_register(RegisterEvent::<E>::Requested);
            &&& forall|kind: EventKind| #[trigger]
                after.interest.contains(kind) <==> conn.interest.contains(kind)
                    || kind is Readable
            &&& after == (ConnectionView { interest: after.interest, ..conn })
        }),
        conn.register_action(RegisterEvent::<E>::Requested) matches RegisterActionView::Submit(r)
            && r.token == conn.token && r.interest == conn.after_register(
            RegisterEvent::<E>::Requested,
        ).interest && (forall|kind: PollKind| #[trigger]
            r.opts.contains(kind) <==> kind is Edge || kind is Oneshot),
{
}

/// The event loop's answer is the result of registering. It ends idleness if it is good, and changes
/// nothing else.
pub proof fn law_answer_ends_registering<E>(conn: ConnectionView, answer: Result<(), E>)
    ensures
        conn.register_action(RegisterEvent::Answered(answer)) == RegisterActionView::Done(answer),
        conn.reregister_action(RegisterEvent::Answered(answer)) == RegisterActionView::Done(answer),
        answer is Ok ==> conn.after_register(RegisterEvent::Answered(answer)) == (ConnectionView {
            idle: false,
            ..conn
        }),
        answer is Ok ==> conn.after_reregister(RegisterEvent::Answered(answer)) == (
        ConnectionView { idle: false, ..conn }),
        answer is Err ==> conn.after_register(RegisterEvent::Answered(answer)) == conn,
        answer is Err ==> conn.after_reregister(RegisterEvent::Answered(answer)) == conn,
{
}

} // verus!
