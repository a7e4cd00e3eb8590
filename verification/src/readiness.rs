//! What the library uses of mio: the token that names a connection in the event loop, the set of
//! events that a connection waits for, and the options of a registration.

use mio::PollOpt;
use vstd::prelude::*;

verus! {

/// The kinds of event that an `EventSet` can hold.
pub enum EventKind {
    /// There is something to read.
    Readable,
    /// There is room to write.
    Writable,
    /// The socket failed.
    Error,
    /// The peer hung up.
    Hup,
}

/// The options that a `PollOpt` can hold.
pub enum PollKind {
    /// Report an event once for each change.
    Edge,
    /// Report an event as long as its cause lasts.
    Level,
    /// Report one event, and nothing more until the socket is registered again.
    Oneshot,
}

/// mio's `Token`, carried through unread.
#[verifier::external_type_specification]
#[verifier::external_body]
pub struct ExToken(mio::Token);

/// mio's `EventSet`, a set of kinds of event.
#[verifier::external_type_specification]
#[verifier::external_body]
pub struct ExEventSet(mio::EventSet);

/// mio's `PollOpt`, a set of options.
#[verifier::external_type_specification]
#[verifier::external_body]
pub struct ExPollOpt(mio::PollOpt);

/// The kinds of event that `events` holds.
pub uninterp spec fn event_kinds(events: mio::EventSet) -> Set<EventKind>;

/// The options that `opts` holds.
pub uninterp spec fn poll_kinds(opts: mio::PollOpt) -> Set<PollKind>;

/// `EventSet::hup` of mio: the set of the hang-up event alone.
pub assume_specification[ mio::EventSet::hup ]() -> (events: mio::EventSet)
    ensures
        event_kinds(events) == set![EventKind::Hup],
;

/// `EventSet::readable` of mio: the set of the readable event alone.
pub assume_specification[ mio::EventSet::readable ]() -> (events: mio::EventSet)
    ensures
        event_kinds(events) == set![EventKind::Readable],
;

/// `EventSet::writable` of mio: the set of the writable event alone.
pub assume_specification[ mio::EventSet::writable ]() -> (events: mio::EventSet)
    ensures
        event_kinds(events) == set![EventKind::Writable],
;

/// `EventSet::insert` of mio: adds the events of `other`.
pub assume_specification[ mio::EventSet::insert ](events: &mut mio::EventSet, other: mio::EventSet)
    ensures
        event_kinds(*final(events)) == event_kinds(*old(events)).union(event_kinds(other)),
;

/// `EventSet::remove` of mio: takes out the events of `other`.
pub assume_specification[ mio::EventSet::remove ](events: &mut mio::EventSet, other: mio::EventSet)
    ensures
        event_kinds(*final(events)) == event_kinds(*old(events)).difference(event_kinds(other)),
;

/// `EventSet::is_writable` of mio: whether the writable event is in the set.
pub assume_specification[ mio::EventSet::is_writable ](events: &mio::EventSet) -> (writable: bool)
    ensures
        writable == event_kinds(*events).contains(EventKind::Writable),
;

/// `PollOpt::edge` of mio: edge triggering alone.
pub assume_specification[ mio::PollOpt::edge ]() -> (opts: mio::PollOpt)
    ensures
        poll_kinds(opts) == set![PollKind::Edge],
;

/// `PollOpt::oneshot` of mio: the one-shot option alone.
pub assume_specification[ mio::PollOpt::oneshot ]() -> (opts: mio::PollOpt)
    ensures
        poll_kinds(opts) == set![PollKind::Oneshot],
;

/// Calls the `|` operator of mio's `PollOpt`, which gives the options that either operand holds.
#[verifier::external_body]
pub(crate) fn poll_union(a: PollOpt, b: PollOpt) -> (opts: PollOpt)
    ensures
        poll_kinds(opts) == poll_kinds(a).union(poll_kinds(b)),
{
    a | b
}

} // verus!
