use vstd::prelude::*;

use crate::handoff::{deliver_spec, poll_spec, PollStep, SharedState};

verus! {

/// Kind code that the engine gives to a message carrying an event.
pub const MESSAGE_EVENT: i32 = 1;

/// Kind code that the engine gives to a message carrying a sync point.
pub const MESSAGE_SYNC_POINT: i32 = 2;

/// An event delivered by the engine, held by the address of its native handle. Only the
/// decoding of a receive callback makes one.
#[derive(Debug)]
pub struct Event {
    handle: usize,
}

/// A sync point delivered by the engine, held by the address of its native handle. Only the
/// decoding of a receive callback makes one.
#[derive(Debug)]
pub struct SyncPoint {
    handle: usize,
}

impl View for Event {
    type V = usize;

    closed spec fn view(&self) -> usize {
        self.handle
    }
}

impl View for SyncPoint {
    type V = usize;

    closed spec fn view(&self) -> usize {
        self.handle
    }
}

impl Event {
    /// The address of the native event.
    pub fn handle(&self) -> (h: usize)
        ensures
            h == self@,
    {
        self.handle
    }
}

impl SyncPoint {
    /// The address of the native sync point.
    pub fn handle(&self) -> (h: usize)
        ensures
            h == self@,
    {
        self.handle
    }
}

/// A message received from the engine.
#[derive(Debug)]
pub enum Message {
    Event(Event),
    SyncPoint(SyncPoint),
}

/// Whether `res` is what a receive callback of the engine yields for the reported outcome and
/// handle: an event for kind 1, a sync point for kind 2, each with that handle; nothing for any
/// other kind; the engine's error unchanged.
pub open spec fn decoded<E>(outcome: Result<i32, E>, data: usize, res: Result<Option<Message>, E>) -> bool {
    match outcome {
        Ok(kind) => if kind == MESSAGE_EVENT {
            res matches Ok(Some(Message::Event(e))) && e@ == data
        } else if kind == MESSAGE_SYNC_POINT {
            res matches Ok(Some(Message::SyncPoint(p))) && p@ == data
        } else {
            res matches Ok(None)
        },
        Err(e) => res == Err::<Option<Message>, E>(e),
    }
}

impl Message {
    /// Turns the outcome that the engine reports to a receive callback into the message it
    /// carries: an event for kind 1, a sync point for kind 2, nothing for any other kind; an
    /// error is handed on unchanged.
    pub fn from_callback<E>(outcome: Result<i32, E>, data: usize) -> (res: Result<Option<Message>, E>)
        ensures
            decoded(outcome, data, res),
            outcome == Ok::<i32, E>(MESSAGE_EVENT) ==> (res matches Ok(Some(Message::Event(e)))
                && e@ == data),
            outcome == Ok::<i32, E>(MESSAGE_SYNC_POINT) ==> (res matches Ok(
                Some(Message::SyncPoint(p)),
            ) && p@ == data),
    {
        match outcome {
            Ok(kind) => {
                if kind == MESSAGE_EVENT {
                    Ok(Some(Message::Event(Event { handle: data })))
                } else if kind == MESSAGE_SYNC_POINT {
                    Ok(Some(Message::SyncPoint(SyncPoint { handle: data })))
                } else {
                    Ok(None)
                }
            },
            Err(e) => Err(e),
        }
    }
}

/// For every reported handle, whatever is decoded from kind 1 is an event that carries exactly
/// that handle, and whatever is decoded from kind 2 is a sync point that carries exactly that
/// handle: the full address, nothing cut or shifted.
pub proof fn lemma_decoding_keeps_handle<E>(data: usize, res: Result<Option<Message>, E>)
    ensures
        decoded(Ok(MESSAGE_EVENT), data, res) ==> (res matches Ok(Some(Message::Event(e))) && e@
            == data),
        decoded(Ok(MESSAGE_SYNC_POINT), data, res) ==> (res matches Ok(
            Some(Message::SyncPoint(p)),
        ) && p@ == data),
{
}

/// Two callbacks of the same kind that report different handles decode to messages with
/// different handles, so no two native objects are confused.
pub proof fn lemma_decoding_tells_handles_apart<E>(
    kind: i32,
    d1: usize,
    d2: usize,
    r1: Result<Option<Message>, E>,
    r2: Result<Option<Message>, E>,
)
    requires
        decoded(Ok(kind), d1, r1),
        decoded(Ok(kind), d2, r2),
        d1 != d2,
    ensures
        kind == MESSAGE_EVENT ==> (r1 matches Ok(Some(Message::Event(e1))) && r2 matches Ok(
            Some(Message::Event(e2)),
        ) && e1@ != e2@),
        kind == MESSAGE_SYNC_POINT ==> (r1 matches Ok(Some(Message::SyncPoint(p1))) && r2 matches Ok(
            Some(Message::SyncPoint(p2)),
        ) && p1@ != p2@),
{
}

/// The receive callback's work on the shared state: decode what the engine reported, store it
/// as the outcome of the pending receive, and hand back the waker to wake.
pub fn on_message<W, E>(
    shared: &mut SharedState<W, Result<Option<Message>, E>>,
    outcome: Result<i32, E>,
    data: usize,
) -> (woken: Option<W>)
    ensures
        final(shared).result matches Some(r) && decoded(outcome, data, r)
            && (*final(shared), woken) == deliver_spec(*old(shared), r),
{
    let msg = Message::from_callback(outcome, data);
    shared.deliver(msg)
}

/// A receive that has been started and then completed by the engine's callback resolves, at the
/// next poll, to what the callback decoded: an event, a sync point, nothing, or the engine's
/// error.
pub proof fn lemma_receive_resolves_to_decoded<W, E>(
    shared: SharedState<W, Result<Option<Message>, E>>,
    outcome: Result<i32, E>,
    data: usize,
    msg: Result<Option<Message>, E>,
    waker: W,
)
    requires
        decoded(outcome, data, msg),
    ensures
        poll_spec(deliver_spec(shared, msg).0, true, waker).2 == PollStep::Ready(msg),
{
}

} // verus!
