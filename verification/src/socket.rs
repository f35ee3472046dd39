use vstd::prelude::*;

use crate::handoff::{deliver_spec, poll_spec, PollStep, SharedState};

verus! {

/// A bound socket, held by the address of its native handle. Only the decoding of a bind
/// callback makes one, and it is neither copied nor cloned.
#[derive(Debug)]
pub struct Socket {
    handle: usize,
}

impl View for Socket {
    type V = usize;

    closed spec fn view(&self) -> usize {
        self.handle
    }
}

impl Socket {
    /// The address of the native socket.
    pub fn handle(&self) -> (h: usize)
        ensures
            h == self@,
    {
        self.handle
    }
}

/// Whether `res` is what a bind callback of the engine yields for the reported outcome: the
/// socket with the reported handle on success, the engine's error unchanged otherwise.
pub open spec fn bound<E>(outcome: Result<usize, E>, res: Result<Socket, E>) -> bool {
    match outcome {
        Ok(handle) => res matches Ok(s) && s@ == handle,
        Err(e) => res == Err::<Socket, E>(e),
    }
}

impl Socket {
    /// Turns the outcome that the engine reports to a bind callback into the socket: the
    /// handle it reports on success, the error unchanged otherwise.
    pub fn from_bind_outcome<E>(outcome: Result<usize, E>) -> (res: Result<Socket, E>)
        ensures
            bound(outcome, res),
            outcome matches Ok(h) ==> (res matches Ok(s) && s@ == h),
            outcome matches Err(e) ==> res == Err::<Socket, E>(e),
    {
        match outcome {
            Ok(handle) => Ok(Socket { handle }),
            Err(e) => Err(e),
        }
    }
}

/// For every reported handle, a successful bind decodes to a socket that carries exactly that
/// handle: the full address, nothing cut or shifted.
pub proof fn lemma_bind_keeps_handle<E>(handle: usize, res: Result<Socket, E>)
    ensures
        bound(Ok(handle), res) ==> (res matches Ok(s) && s@ == handle),
{
}

/// Two successful binds that report different handles decode to sockets with different handles.
pub proof fn lemma_bind_tells_handles_apart<E>(
    h1: usize,
    h2: usize,
    r1: Result<Socket, E>,
    r2: Result<Socket, E>,
)
    requires
        bound(Ok(h1), r1),
        bound(Ok(h2), r2),
        h1 != h2,
    ensures
        r1 matches Ok(s1) && r2 matches Ok(s2) && s1@ != s2@,
{
}

/// The bind callback's work on the shared state: store the bound socket, or the error, as the
/// outcome of the pending bind, and hand back the waker to wake.
pub fn on_bound<W, E>(shared: &mut SharedState<W, Result<Socket, E>>, outcome: Result<usize, E>) -> (woken: Option<W>)
    ensures
        final(shared).result matches Some(r) && bound(outcome, r)
            && (*final(shared), woken) == deliver_spec(*old(shared), r),
{
    let sock = Socket::from_bind_outcome(outcome);
    shared.deliver(sock)
}

/// A bind that has been started and then completed by the engine's callback resolves, at the
/// next poll, to what the callback decoded: the socket with the reported handle, or the
/// engine's error.
pub proof fn lemma_bind_resolves_to_socket<W, E>(
    shared: SharedState<W, Result<Socket, E>>,
    outcome: Result<usize, E>,
    sock: Result<Socket, E>,
    waker: W,
)
    requires
        bound(outcome, sock),
    ensures
        poll_spec(deliver_spec(shared, sock).0, true, waker).2 == PollStep::Ready(sock),
{
}

} // verus!
