//! Settlement of host awaitables.
//!
//! A scheduled operation runs on a worker of the background engine. Its
//! outcome must reach the host's awaitable on the host's own execution
//! context, exactly once, with any native failure translated first. The
//! decisions of that path are a state machine: the embedding code feeds
//! it events and carries out the actions it answers with.

use vstd::prelude::*;
use crate::error::{BridgeError, NativeError, translate};

verus! {

/// The final value of an awaitable.
#[derive(Debug, PartialEq, Eq)]
pub enum Settlement<T> {
    /// The operation succeeded with a value.
    Resolved(T),
    /// The operation failed; the error is already translated.
    Rejected(BridgeError),
}

/// The settlement that an engine outcome leads to.
pub open spec fn settlement_of<T>(outcome: Result<T, NativeError>) -> Settlement<T> {
    match outcome {
        Ok(value) => Settlement::Resolved(value),
        Err(e) => Settlement::Rejected(e.translated()),
    }
}

/// Turns the outcome of a native operation into a settlement,
/// translating a native failure for the host.
pub fn settle<T>(outcome: Result<T, NativeError>) -> (settlement: Settlement<T>)
    ensures
        settlement == settlement_of(outcome),
{
    match outcome {
        Ok(value) => Settlement::Resolved(value),
        Err(e) => Settlement::Rejected(translate(e)),
    }
}

/// Where an awaitable stands.
#[derive(Debug, PartialEq, Eq)]
pub enum Awaitable<T> {
    /// The operation is scheduled and the engine has not reported.
    Pending,
    /// The engine has reported. The settlement waits to be applied on the
    /// host's context.
    Ready(Settlement<T>),
    /// The awaitable was resolved or rejected.
    Settled,
    /// The host gave the awaitable up before it was settled.
    Abandoned,
}

/// What happens to an awaitable.
#[derive(Debug, PartialEq, Eq)]
pub enum Event<T> {
    /// A worker finished the operation with this outcome.
    Finished(Result<T, NativeError>),
    /// The host's context has come to handle what was posted to it.
    HostTurn,
    /// The host dropped the awaitable.
    Dropped,
}

/// What the embedding code has to do in answer to an event.
#[derive(Debug, PartialEq, Eq)]
pub enum Action<T> {
    /// Nothing. An outcome that came with the event is discarded.
    Nothing,
    /// Ask the host's context for a turn. Host objects are not touched.
    PostToHost,
    /// Resolve the awaitable with the value, on the host's context.
    Resolve(T),
    /// Reject the awaitable with the error, on the host's context.
    Reject(BridgeError),
}

impl<T> Action<T> {
    /// Whether the action settles the awaitable.
    pub open spec fn settles(self) -> bool {
        self is Resolve || self is Reject
    }
}

/// The action that applies a settlement.
pub open spec fn delivery<T>(settlement: Settlement<T>) -> Action<T> {
    match settlement {
        Settlement::Resolved(value) => Action::Resolve(value),
        Settlement::Rejected(e) => Action::Reject(e),
    }
}

impl<T> Awaitable<T> {
    /// The state after `event` and the action that the event calls for.
    ///
    /// Only the first outcome counts, and it is applied on the first host
    /// turn after it. A dropped awaitable is never settled: the operation
    /// is not cancelled, and its outcome is discarded when it comes.
    pub open spec fn next(self, event: Event<T>) -> (Awaitable<T>, Action<T>) {
        match (self, event) {
            (Awaitable::Pending, Event::Finished(outcome)) => (
                Awaitable::Ready(settlement_of(outcome)),
                Action::PostToHost,
            ),
            (Awaitable::Pending, Event::Dropped) => (Awaitable::Abandoned, Action::Nothing),
            (Awaitable::Ready(settlement), Event::HostTurn) => (
                Awaitable::Settled,
                delivery(settlement),
            ),
            (Awaitable::Ready(_), Event::Dropped) => (Awaitable::Abandoned, Action::Nothing),
            (state, _) => (state, Action::Nothing),
        }
    }

    /// The awaitable of an operation that has just been scheduled.
    pub fn new() -> (awaitable: Self)
        ensures
            awaitable == Awaitable::<T>::Pending,
    {
        Awaitable::Pending
    }

    /// Whether the awaitable was resolved or rejected.
    pub fn is_settled(&self) -> (settled: bool)
        ensures
            settled == (*self is Settled),
    {
        match self {
            Awaitable::Settled => true,
            _ => false,
        }
    }

    /// Takes one event and says what to do.
    pub fn step(self, event: Event<T>) -> (r: (Awaitable<T>, Action<T>))
        ensures
            r == self.next(event),
    {
        match self {
            Awaitable::Pending => match event {
                Event::Finished(outcome) => (Awaitable::Ready(settle(outcome)), Action::PostToHost),
                Event::Dropped => (Awaitable::Abandoned, Action::Nothing),
                Event::HostTurn => (Awaitable::Pending, Action::Nothing),
            },
            Awaitable::Ready(settlement) => match event {
                Event::HostTurn => match settlement {
                    Settlement::Resolved(value) => (Awaitable::Settled, Action::Resolve(value)),
                    Settlement::Rejected(e) => (Awaitable::Settled, Action::Reject(e)),
                },
                Event::Dropped => (Awaitable::Abandoned, Action::Nothing),
                Event::Finished(_) => (Awaitable::Ready(settlement), Action::Nothing),
            },
            Awaitable::Settled => (Awaitable::Settled, Action::Nothing),
            Awaitable::Abandoned => (Awaitable::Abandoned, Action::Nothing),
        }
    }
}

/// The state that a sequence of events leads to, and the actions that
/// the events call for, one for each event and in their order.
pub open spec fn run<T>(state: Awaitable<T>, events: Seq<Event<T>>) -> (
    Awaitable<T>,
    Seq<Action<T>>,
)
    decreases events.len(),
{
    if events.len() == 0 {
        (state, Seq::empty())
    } else {
        let (mid, action) = state.next(events[0]);
        let (last, rest) = run(mid, events.drop_first());
        (last, seq![action] + rest)
    }
}

/// How many of the actions settle the awaitable.
pub open spec fn settlements<T>(actions: Seq<Action<T>>) -> nat
    decreases actions.len(),
{
    if actions.len() == 0 {
        0
    } else {
        let first: nat = if actions[0].settles() {
            1
        } else {
            0
        };
        first + settlements(actions.drop_first())
    }
}

/// Every event is answered by one action.
pub proof fn one_action_for_each_event<T>(state: Awaitable<T>, events: Seq<Event<T>>)
    ensures
        run(state, events).1.len() == events.len(),
    decreases events.len(),
{
    if events.len() > 0 {
        one_action_for_each_event(state.next(events[0]).0, events.drop_first());
    }
}

/// Host objects are touched on the host's context only: an action that
/// resolves or rejects answers a host turn, never the report of a worker
/// and never a drop.
pub proof fn settling_needs_a_host_turn<T>(state: Awaitable<T>, event: Event<T>)
    ensures
        state.next(event).1.settles() ==> event is HostTurn && state is Ready
            && state.next(event).0 is Settled,
        state.next(event).1 is PostToHost ==> event is Finished && state is Pending,
{
}

/// An awaitable is settled at most once, whatever happens to it and in
/// whatever order; once settled or abandoned, never again. One that was
/// scheduled ends up settled exactly when it was settled once.
pub proof fn settles_at_most_once<T>(state: Awaitable<T>, events: Seq<Event<T>>)
    ensures
        settlements(run(state, events).1) <= 1,
        state is Settled || state is Abandoned ==> settlements(run(state, events).1) == 0
            && run(state, events).0 == state,
        state is Pending || state is Ready ==> (run(state, events).0 is Settled <==> settlements(
            run(state, events).1,
        ) == 1),
    decreases events.len(),
{
    if events.len() > 0 {
        let (mid, action) = state.next(events[0]);
        let rest = run(mid, events.drop_first()).1;
        settles_at_most_once(mid, events.drop_first());
        assert((seq![action] + rest).drop_first() =~= rest);
        assert((seq![action] + rest)[0] == action);
    }
}

/// The first outcome wins and is delivered unchanged: an action that
/// settles answers a host turn, and it applies the settlement of the
/// first outcome that a worker reported. No worker had reported before,
/// and the awaitable was not dropped in between.
pub proof fn settlement_is_first_outcome<T>(events: Seq<Event<T>>, at: int)
    requires
        0 <= at < events.len(),
        run(Awaitable::<T>::Pending, events).1[at].settles(),
    ensures
        events[at] is HostTurn,
        exists|first: int|
            0 <= first < at && (#[trigger] events[first]) is Finished && run(
                Awaitable::<T>::Pending,
                events,
            ).1[at] == delivery(settlement_of(events[first]->Finished_0)) && (forall|k: int|
                0 <= k < first ==> (#[trigger] events[k]) is HostTurn) && (forall|k: int|
                first < k < at ==> (#[trigger] events[k]) is Finished),
    decreases events.len(),
{
    let rest = events.drop_first();
    let (mid, action) = Awaitable::<T>::Pending.next(events[0]);
    let tail = run(mid, rest).1;
    assert(run(Awaitable::<T>::Pending, events).1 == seq![action] + tail);
    one_action_for_each_event(mid, rest);
    assert(at > 0);
    assert((seq![action] + tail)[at] == tail[at - 1]);
    match events[0] {
        Event::Finished(outcome) => {
            settlement_after_outcome(settlement_of(outcome), rest, at - 1);
            assert(events[0] is Finished);
            assert forall|k: int| 0 < k < at implies (#[trigger] events[k]) is Finished by {
                assert(events[k] == rest[k - 1]);
            }
            assert(events[at] == rest[at - 1]);
        },
        Event::HostTurn => {
            settlement_is_first_outcome(rest, at - 1);
            let first = choose|first: int|
                0 <= first < at - 1 && (#[trigger] rest[first]) is Finished && run(
                    Awaitable::<T>::Pending,
                    rest,
                ).1[at - 1] == delivery(settlement_of(rest[first]->Finished_0)) && (forall|k: int|
                    0 <= k < first ==> (#[trigger] rest[k]) is HostTurn) && (forall|k: int|
                    first < k < at - 1 ==> (#[trigger] rest[k]) is Finished);
            assert(events[first + 1] == rest[first]);
            assert(events[at] == rest[at - 1]);
            assert forall|k: int| 0 <= k < first + 1 implies (#[trigger] events[k]) is HostTurn by {
                if k > 0 {
                    assert(events[k] == rest[k - 1]);
                }
            }
            assert forall|k: int| first + 1 < k < at implies (#[trigger] events[k]) is Finished by {
                assert(events[k] == rest[k - 1]);
            }
        },
        Event::Dropped => {
            settles_at_most_once(mid, rest);
            never_settles(mid, rest, at - 1);
        },
    }
}

/// After an outcome was reported, the only settlement is that of the
/// outcome, on the first host turn; only further reports come before.
proof fn settlement_after_outcome<T>(settlement: Settlement<T>, events: Seq<Event<T>>, at: int)
    requires
        0 <= at < events.len(),
        run(Awaitable::Ready(settlement), events).1.len() == events.len(),
        run(Awaitable::Ready(settlement), events).1[at].settles(),
    ensures
        events[at] is HostTurn,
        run(Awaitable::Ready(settlement), events).1[at] == delivery(settlement),
        forall|k: int| 0 <= k < at ==> (#[trigger] events[k]) is Finished,
    decreases events.len(),
{
    let rest = events.drop_first();
    let (mid, action) = Awaitable::Ready(settlement).next(events[0]);
    let tail = run(mid, rest).1;
    assert(run(Awaitable::Ready(settlement), events).1 == seq![action] + tail);
    one_action_for_each_event(mid, rest);
    if at == 0 {
        assert((seq![action] + tail)[0] == action);
    } else {
        assert((seq![action] + tail)[at] == tail[at - 1]);
        match events[0] {
            Event::Finished(_) => {
                settlement_after_outcome(settlement, rest, at - 1);
                assert(events[at] == rest[at - 1]);
                assert forall|k: int| 0 <= k < at implies (#[trigger] events[k]) is Finished by {
                    if k > 0 {
                        assert(events[k] == rest[k - 1]);
                    }
                }
            },
            _ => {
                never_settles(mid, rest, at - 1);
            },
        }
    }
}

/// A settled or abandoned awaitable answers no event by settling.
proof fn never_settles<T>(state: Awaitable<T>, events: Seq<Event<T>>, at: int)
    requires
        state is Settled || state is Abandoned,
        0 <= at < events.len(),
    ensures
        run(state, events).1.len() == events.len(),
        !run(state, events).1[at].settles(),
    decreases events.len(),
{
    let rest = events.drop_first();
    let (mid, action) = state.next(events[0]);
    let tail = run(mid, rest).1;
    one_action_for_each_event(state, events);
    one_action_for_each_event(mid, rest);
    if at == 0 {
        assert((seq![action] + tail)[0] == action);
    } else {
        never_settles(mid, rest, at - 1);
        assert((seq![action] + tail)[at] == tail[at - 1]);
    }
}

} // verus!
