//! The logical state machine of a signal.
//!
//! A signal is in one of two states, described by its pending flag: idle
//! (`pending == false`, no unconsumed notification) or signaled
//! (`pending == true`, exactly one unconsumed notification). Multiple
//! notifications collapse into that single flag; a completed wait consumes it.

use vstd::prelude::*;

verus! {

/// The state of the pending flag after a notify: set, whatever it was before.
pub open spec fn after_notify(pending: bool) -> bool {
    true
}

/// The state of the pending flag after a wait completes: the one pending
/// notification is consumed, leaving the signal idle.
pub open spec fn after_consume(pending: bool) -> bool {
    false
}

/// Whether a wait that observes this flag returns without blocking.
pub open spec fn wait_ready(pending: bool) -> bool {
    pending
}

/// One event on the signal, as seen under its lock.
///
/// `Notify` is a notify call's critical section; `Consume` is the final step
/// of a completing wait; `SpuriousWake` is a waiter waking, observing the
/// flag unchanged, and blocking again.
pub enum SignalEvent {
    Notify,
    Consume,
    SpuriousWake,
}

/// The pending flag after one event.
pub open spec fn step(pending: bool, event: SignalEvent) -> bool {
    match event {
        SignalEvent::Notify => after_notify(pending),
        SignalEvent::Consume => after_consume(pending),
        SignalEvent::SpuriousWake => pending,
    }
}

/// The pending flag after a sequence of events, applied in order.
pub open spec fn run(pending: bool, events: Seq<SignalEvent>) -> bool
    decreases events.len(),
{
    if events.len() == 0 {
        pending
    } else {
        run(step(pending, events[0]), events.skip(1))
    }
}

/// No lost wakeup: after a notify the signal is ready, so a wait that starts
/// later returns without blocking, whatever state the notify found.
pub proof fn lemma_no_lost_wakeup(pending: bool)
    ensures
        wait_ready(after_notify(pending)),
{
}

/// Single consumption: one notify followed by one completed wait leaves the
/// signal idle again, so a further wait is not ready and blocks until the
/// next notify.
pub proof fn lemma_single_consumption(pending: bool)
    ensures
        after_consume(after_notify(pending)) == false,
        !wait_ready(after_consume(after_notify(pending))),
{
}

/// Idempotent notify: a second notify with no intervening wait leaves the
/// signal exactly as the first did — nothing is queued beyond the flag.
pub proof fn lemma_notify_idempotent(pending: bool)
    ensures
        after_notify(after_notify(pending)) == after_notify(pending),
{
}

/// Blocking correctness: starting idle, no sequence of events that contains
/// no notify ever makes the signal ready — a waiter stays blocked through any
/// number of spurious wakeups and competing consumptions.
pub proof fn lemma_blocks_without_notify(events: Seq<SignalEvent>)
    requires
        forall|i: int| 0 <= i < events.len() ==> events[i] != SignalEvent::Notify,
    ensures
        run(false, events) == false,
        !wait_ready(run(false, events)),
    decreases events.len(),
{
    if events.len() > 0 {
        assert(step(false, events[0]) == false);
        let rest = events.skip(1);
        assert(forall|i: int| 0 <= i < rest.len() ==> rest[i] == events[i + 1]);
        lemma_blocks_without_notify(rest);
    }
}

} // verus!
