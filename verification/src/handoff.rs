//! The hand-off between a pending future and the engine callback that completes it.
//!
//! A future that waits on the engine is polled by an executor, while the engine reports the
//! outcome from a callback of its own. Both sides share one `SharedState`: the poll side
//! registers the waker to call and collects the result, the callback side stores the result
//! and takes the waker to wake. The functions here are the decisions each side makes; the
//! locking, the native call and the waking itself are done by the caller.
use vstd::prelude::*;

verus! {

/// State shared between a future and the callback that completes it.
pub struct SharedState<W, R> {
    /// The waker of the task that polled last, until the callback takes it.
    pub waker: Option<W>,
    /// The outcome that the callback stored, until a poll takes it.
    pub result: Option<R>,
}

/// What a poll of the future asks its caller to do.
pub enum PollStep<R> {
    /// This is the first poll: start the native operation now.
    Start,
    /// The operation is complete with this outcome.
    Ready(R),
    /// The operation is still running; the waker has been registered.
    Pending,
}

/// The state, the invoked flag and the step after one poll with the given waker.
pub open spec fn poll_spec<W, R>(state: SharedState<W, R>, invoked: bool, waker: W) -> (
    SharedState<W, R>,
    bool,
    PollStep<R>,
) {
    if !invoked {
        (SharedState { waker: Some(waker), result: state.result }, true, PollStep::Start)
    } else {
        match state.result {
            Some(r) => (SharedState { waker: state.waker, result: None }, true, PollStep::Ready(r)),
            None => (SharedState { waker: Some(waker), result: None }, true, PollStep::Pending),
        }
    }
}

/// The state after the callback stores an outcome, and the waker it is to wake.
pub open spec fn deliver_spec<W, R>(state: SharedState<W, R>, result: R) -> (
    SharedState<W, R>,
    Option<W>,
) {
    (SharedState { waker: None, result: Some(result) }, state.waker)
}

/// The step that follows the start of the native operation: an immediate error completes the
/// future with that error, an accepted start leaves it pending.
pub open spec fn started_spec<T, E>(res: Result<(), E>) -> PollStep<Result<T, E>> {
    match res {
        Ok(()) => PollStep::Pending,
        Err(e) => PollStep::Ready(Err(e)),
    }
}

impl<W, R> SharedState<W, R> {
    /// A fresh shared state: no waker registered, no outcome stored.
    pub fn new() -> (s: Self)
        ensures
            s.waker is None,
            s.result is None,
    {
        SharedState { waker: None, result: None }
    }

    /// One poll of the future. The first poll registers the waker, marks the operation as
    /// invoked and asks the caller to start it. A later poll returns the stored outcome if the
    /// callback has delivered one, taking it out of the state; otherwise it registers the new
    /// waker, in case the task has moved, and stays pending.
    pub fn poll(&mut self, invoked: &mut bool, waker: W) -> (step: PollStep<R>)
        ensures
            (*final(self), *final(invoked), step) == poll_spec(*old(self), *old(invoked), waker),
    {
        if !*invoked {
            self.waker = Some(waker);
            *invoked = true;
            PollStep::Start
        } else {
            match self.result.take() {
                Some(r) => PollStep::Ready(r),
                None => {
                    self.waker = Some(waker);
                    PollStep::Pending
                },
            }
        }
    }

    /// What the callback does with the outcome: store it and take the registered waker, which
    /// the caller then wakes.
    pub fn deliver(&mut self, result: R) -> (woken: Option<W>)
        ensures
            (*final(self), woken) == deliver_spec(*old(self), result),
    {
        self.result = Some(result);
        self.waker.take()
    }
}

/// The step after the caller has started the native operation on the first poll.
pub fn started<T, E>(res: Result<(), E>) -> (step: PollStep<Result<T, E>>)
    ensures
        step == started_spec::<T, E>(res),
{
    match res {
        Ok(()) => PollStep::Pending,
        Err(e) => PollStep::Ready(Err(e)),
    }
}

/// Only the first poll starts the native operation, and every poll leaves the future marked
/// as invoked, so no later poll starts it again.
pub proof fn lemma_started_once<W, R>(state: SharedState<W, R>, invoked: bool, w1: W, w2: W)
    ensures
        poll_spec(state, invoked, w1).1,
        (poll_spec(state, invoked, w1).2 is Start) <==> !invoked,
        !(poll_spec(poll_spec(state, invoked, w1).0, poll_spec(state, invoked, w1).1, w2).2 is Start),
{
}

/// A poll that does not complete the future registers its waker, and that waker is the one the
/// callback takes to wake.
pub proof fn lemma_callback_wakes_latest_waker<W, R>(
    state: SharedState<W, R>,
    invoked: bool,
    waker: W,
    result: R,
)
    requires
        !(poll_spec(state, invoked, waker).2 is Ready),
    ensures
        deliver_spec(poll_spec(state, invoked, waker).0, result).1 == Some(waker),
{
}

/// Once the operation has been started, the outcome the callback delivers is exactly what the
/// next poll returns, and the shared state no longer holds it.
pub proof fn lemma_delivered_outcome_is_returned<W, R>(state: SharedState<W, R>, result: R, waker: W)
    ensures
        poll_spec(deliver_spec(state, result).0, true, waker).2 == PollStep::Ready(result),
        poll_spec(deliver_spec(state, result).0, true, waker).0.result is None,
{
}

/// An outcome is returned once: after the poll that returned it, polls stay pending until the
/// callback delivers again.
pub proof fn lemma_outcome_returned_once<W, R>(state: SharedState<W, R>, w1: W, w2: W)
    requires
        poll_spec(state, true, w1).2 is Ready,
    ensures
        poll_spec(poll_spec(state, true, w1).0, true, w2).2 is Pending,
{
}

/// The callback wakes at most once: after it has taken the waker, a second delivery finds
/// nothing to wake.
pub proof fn lemma_callback_wakes_once<W, R>(state: SharedState<W, R>, r1: R, r2: R)
    ensures
        deliver_spec(deliver_spec(state, r1).0, r2).1 is None,
{
}

/// A whole run from a fresh state: the first poll starts the operation and stays pending once
/// the start is accepted, the callback wakes the waker of that poll, and the next poll returns
/// the delivered outcome.
pub proof fn lemma_complete_run<W, T, E>(w1: W, w2: W, outcome: Result<T, E>)
    ensures
        ({
            let s0 = SharedState::<W, Result<T, E>> { waker: None, result: None };
            let (s1, i1, step1) = poll_spec(s0, false, w1);
            let (s2, woken) = deliver_spec(s1, outcome);
            let (s3, i3, step3) = poll_spec(s2, i1, w2);
            &&& step1 is Start
            &&& started_spec::<T, E>(Ok(())) is Pending
            &&& woken == Some(w1)
            &&& step3 == PollStep::Ready(outcome)
            &&& s3.result is None
        }),
{
}

/// One thing that happens to a pending operation: a poll by the executor with its waker, or a
/// delivery by the engine's callback.
pub enum Action<W, R> {
    Poll(W),
    Deliver(R),
}

/// The state and invoked flag after one action, and the step a poll yields.
pub open spec fn apply_action<W, R>(st: (SharedState<W, R>, bool), a: Action<W, R>) -> (
    (SharedState<W, R>, bool),
    Option<PollStep<R>>,
) {
    match a {
        Action::Poll(w) => {
            let (s, i, step) = poll_spec(st.0, st.1, w);
            ((s, i), Some(step))
        },
        Action::Deliver(r) => ((deliver_spec(st.0, r).0, st.1), None),
    }
}

/// The state and invoked flag after a sequence of actions.
pub open spec fn run_after<W, R>(st: (SharedState<W, R>, bool), acts: Seq<Action<W, R>>) -> (
    SharedState<W, R>,
    bool,
)
    decreases acts.len(),
{
    if acts.len() == 0 {
        st
    } else {
        apply_action(run_after(st, acts.drop_last()), acts.last()).0
    }
}

/// The step that the last action of a non-empty sequence yields.
pub open spec fn last_step<W, R>(st: (SharedState<W, R>, bool), acts: Seq<Action<W, R>>) -> Option<
    PollStep<R>,
> {
    apply_action(run_after(st, acts.drop_last()), acts.last()).1
}

/// Whether a sequence of actions holds a poll.
pub open spec fn has_poll<W, R>(acts: Seq<Action<W, R>>) -> bool
    decreases acts.len(),
{
    acts.len() > 0 && (has_poll(acts.drop_last()) || acts.last() is Poll)
}

/// How many deliveries a sequence of actions holds.
pub open spec fn deliveries<W, R>(acts: Seq<Action<W, R>>) -> nat
    decreases acts.len(),
{
    if acts.len() == 0 {
        0
    } else {
        deliveries(acts.drop_last()) + if acts.last() is Deliver {
            1nat
        } else {
            0nat
        }
    }
}

/// How many polls of a run start the native operation.
pub open spec fn starts<W, R>(st: (SharedState<W, R>, bool), acts: Seq<Action<W, R>>) -> nat
    decreases acts.len(),
{
    if acts.len() == 0 {
        0
    } else {
        starts(st, acts.drop_last()) + if last_step(st, acts) == Some(PollStep::<R>::Start) {
            1nat
        } else {
            0nat
        }
    }
}

/// How many polls of a run complete the future.
pub open spec fn readies<W, R>(st: (SharedState<W, R>, bool), acts: Seq<Action<W, R>>) -> nat
    decreases acts.len(),
{
    if acts.len() == 0 {
        0
    } else {
        readies(st, acts.drop_last()) + if last_step(st, acts) matches Some(PollStep::Ready(_)) {
            1nat
        } else {
            0nat
        }
    }
}

/// Whether every poll of a run that completes the future returns an outcome that was stored
/// at the outset or delivered by an earlier action.
pub open spec fn ready_outcomes_delivered<W, R>(
    st: (SharedState<W, R>, bool),
    acts: Seq<Action<W, R>>,
) -> bool
    decreases acts.len(),
{
    acts.len() == 0 || {
        &&& ready_outcomes_delivered(st, acts.drop_last())
        &&& forall|r: R|
            last_step(st, acts) == Some(PollStep::Ready(r)) ==> st.0.result == Some(r)
                || acts.drop_last().contains(Action::Deliver(r))
    }
}

/// Over any sequence of polls and deliveries, the native operation is started exactly once if
/// the future was not yet invoked and is polled at all, never otherwise; from the first poll on
/// the future stays invoked.
pub proof fn lemma_run_starts_once<W, R>(st: (SharedState<W, R>, bool), acts: Seq<Action<W, R>>)
    ensures
        starts(st, acts) == if !st.1 && has_poll(acts) {
            1nat
        } else {
            0nat
        },
        run_after(st, acts).1 == (st.1 || has_poll(acts)),
    decreases acts.len(),
{
    if acts.len() > 0 {
        lemma_run_starts_once(st, acts.drop_last());
    }
}

/// Over any sequence of polls and deliveries, no outcome is returned twice: the polls that
/// complete the future, plus an outcome still held at the end, are at most the deliveries plus
/// an outcome held at the outset.
pub proof fn lemma_run_returns_each_outcome_once<W, R>(
    st: (SharedState<W, R>, bool),
    acts: Seq<Action<W, R>>,
)
    ensures
        readies(st, acts) + (if run_after(st, acts).0.result is Some {
            1nat
        } else {
            0nat
        }) <= deliveries(acts) + (if st.0.result is Some {
            1nat
        } else {
            0nat
        }),
    decreases acts.len(),
{
    if acts.len() > 0 {
        lemma_run_returns_each_outcome_once(st, acts.drop_last());
    }
}

proof fn lemma_held_outcome_delivered<W, R>(st: (SharedState<W, R>, bool), acts: Seq<Action<W, R>>)
    ensures
        forall|r: R|
            run_after(st, acts).0.result == Some(r) ==> st.0.result == Some(r) || acts.contains(
                Action::Deliver(r),
            ),
    decreases acts.len(),
{
    if acts.len() > 0 {
        let pre = acts.drop_last();
        lemma_held_outcome_delivered(st, pre);
        assert forall|r: R| run_after(st, acts).0.result == Some(r) implies st.0.result == Some(r)
            || acts.contains(Action::Deliver(r)) by {
            if acts.last() == Action::<W, R>::Deliver(r) {
                assert(acts[acts.len() - 1] == Action::<W, R>::Deliver(r));
            } else if pre.contains(Action::Deliver(r)) {
                let i = choose|i: int| 0 <= i < pre.len() && pre[i] == Action::<W, R>::Deliver(r);
                assert(acts[i] == Action::<W, R>::Deliver(r));
            }
        }
    }
}

/// Over any sequence of polls and deliveries, every poll that completes the future returns an
/// outcome that a delivery before it stored (or that was stored at the outset).
pub proof fn lemma_run_returns_delivered_outcomes<W, R>(
    st: (SharedState<W, R>, bool),
    acts: Seq<Action<W, R>>,
)
    ensures
        ready_outcomes_delivered(st, acts),
    decreases acts.len(),
{
    if acts.len() > 0 {
        lemma_run_returns_delivered_outcomes(st, acts.drop_last());
        lemma_held_outcome_delivered(st, acts.drop_last());
    }
}

/// A run of a fresh future, with the engine's callback delivering at most once: if the future
/// is polled at all, the native operation is started exactly once, at most one poll completes
/// the future, and a poll that does returns the delivered outcome.
pub proof fn lemma_fresh_run<W, R>(acts: Seq<Action<W, R>>)
    requires
        deliveries(acts) <= 1,
    ensures
        ({
            let st = (SharedState::<W, R> { waker: None, result: None }, false);
            &&& starts(st, acts) == if has_poll(acts) {
                1nat
            } else {
                0nat
            }
            &&& readies(st, acts) <= 1
            &&& ready_outcomes_delivered(st, acts)
        }),
{
    let st = (SharedState::<W, R> { waker: None, result: None }, false);
    lemma_run_starts_once(st, acts);
    lemma_run_returns_each_outcome_once(st, acts);
    lemma_run_returns_delivered_outcomes(st, acts);
}

} // verus!
