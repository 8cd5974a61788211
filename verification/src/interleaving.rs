//! Many operations in flight at once.
//!
//! Operations that were dispatched independently share nothing but the
//! engine. Their events reach the bridge in an order that nobody
//! controls. The laws of this module say that the order does not matter:
//! what happens to one awaitable depends on its own events alone.

use vstd::prelude::*;
use crate::bridge::{Action, Awaitable, Event, run, settlements, settles_at_most_once};

verus! {

/// Hands `event` to the awaitable at position `target`, leaving the
/// others as they are. An event for a position that does not exist
/// changes nothing.
pub open spec fn deliver_to<T>(states: Seq<Awaitable<T>>, target: int, event: Event<T>) -> (
    Seq<Awaitable<T>>,
    Action<T>,
) {
    if 0 <= target < states.len() {
        let (state, action) = states[target].next(event);
        (states.update(target, state), action)
    } else {
        (states, Action::Nothing)
    }
}

/// The states that a trace of addressed events leads to, and the action
/// that answers each event, addressed like the event.
pub open spec fn run_all<T>(states: Seq<Awaitable<T>>, trace: Seq<(int, Event<T>)>) -> (
    Seq<Awaitable<T>>,
    Seq<(int, Action<T>)>,
)
    decreases trace.len(),
{
    if trace.len() == 0 {
        (states, Seq::empty())
    } else {
        let (mid, action) = deliver_to(states, trace[0].0, trace[0].1);
        let (last, rest) = run_all(mid, trace.drop_first());
        (last, seq![(trace[0].0, action)] + rest)
    }
}

/// The items of an addressed sequence that belong to position `k`, in
/// their order.
pub open spec fn addressed_to<A>(items: Seq<(int, A)>, k: int) -> Seq<A>
    decreases items.len(),
{
    if items.len() == 0 {
        Seq::empty()
    } else if items[0].0 == k {
        seq![items[0].1] + addressed_to(items.drop_first(), k)
    } else {
        addressed_to(items.drop_first(), k)
    }
}

/// Operations in flight do not disturb one another: however the events
/// of several awaitables are interleaved, each awaitable ends in the
/// state, and is answered by the actions, that its own events alone
/// lead to.
pub proof fn interleaving_is_irrelevant<T>(
    states: Seq<Awaitable<T>>,
    trace: Seq<(int, Event<T>)>,
    k: int,
)
    requires
        0 <= k < states.len(),
    ensures
        run_all(states, trace).0.len() == states.len(),
        run_all(states, trace).0[k] == run(states[k], addressed_to(trace, k)).0,
        addressed_to(run_all(states, trace).1, k) == run(states[k], addressed_to(trace, k)).1,
    decreases trace.len(),
{
    if trace.len() > 0 {
        let (mid, action) = deliver_to(states, trace[0].0, trace[0].1);
        let rest = trace.drop_first();
        let tail = run_all(mid, rest).1;
        interleaving_is_irrelevant(mid, rest, k);
        let answers = seq![(trace[0].0, action)] + tail;
        assert(answers.drop_first() =~= tail);
        assert(answers[0] == (trace[0].0, action));
        if trace[0].0 == k {
            let own = addressed_to(trace, k);
            assert(own == seq![trace[0].1] + addressed_to(rest, k));
            assert(own.drop_first() =~= addressed_to(rest, k));
            assert(own[0] == trace[0].1);
        }
    }
}

/// Each of several operations in flight is settled at most once,
/// whatever the order in which they finish, and one that was scheduled
/// ends up settled exactly when it was settled once.
pub proof fn each_settles_at_most_once<T>(
    states: Seq<Awaitable<T>>,
    trace: Seq<(int, Event<T>)>,
    k: int,
)
    requires
        0 <= k < states.len(),
    ensures
        settlements(addressed_to(run_all(states, trace).1, k)) <= 1,
        states[k] is Pending ==> (run_all(states, trace).0[k] is Settled <==> settlements(
            addressed_to(run_all(states, trace).1, k),
        ) == 1),
{
    interleaving_is_irrelevant(states, trace, k);
    settles_at_most_once(states[k], addressed_to(trace, k));
}

} // verus!
