//! The signal listener's forwarding decisions.
//!
//! The listener runs beside the control loop, blocks until the next watched
//! OS signal arrives, and forwards it as an event onto the queue. A failed
//! enqueue is not an error: it means the consumer side is gone (or the queue
//! is full, which the producer treats the same way), and it is the listener's
//! only shutdown cue. The decision after each delivery attempt is modelled
//! here and proved; the blocking wait for the next signal stays with the OS.

use crate::channel::{EventQueue, EVENT_QUEUE_CAPACITY};
use crate::event::SignalEvent;
use vstd::prelude::*;

verus! {

/// Whether the listener keeps waiting for further signals or ends its loop.
#[derive(Clone, Copy, Debug, PartialEq, Eq, Structural)]
pub enum ListenerDecision {
    /// The event was enqueued; block for the next signal.
    Continue,
    /// The enqueue failed; terminate the listener.
    Stop,
}

/// How many of `raised` events a listener run enqueues onto a queue that
/// starts open (or not) with `backlog` events already in it: none once the
/// queue is closed, otherwise as many as the spare capacity takes.
pub open spec fn spec_delivered(open: bool, backlog: nat, raised: nat) -> nat {
    if !open || backlog >= EVENT_QUEUE_CAPACITY {
        0
    } else if raised <= EVENT_QUEUE_CAPACITY - backlog {
        raised
    } else {
        (EVENT_QUEUE_CAPACITY - backlog) as nat
    }
}

/// How many delivery attempts the same run makes before it ends: one per
/// enqueued event, plus the single failed attempt on which it stops — the
/// listener never outlives the queue by more than that one attempt.
pub open spec fn spec_iterations(open: bool, backlog: nat, raised: nat) -> nat {
    let d = spec_delivered(open, backlog, raised);
    if d == raised {
        raised
    } else {
        d + 1
    }
}

/// One iteration of the listener loop: attempt to enqueue the event just
/// raised, then decide whether to keep listening. Stops exactly when the
/// enqueue failed, and an event is enqueued exactly when it decides to
/// continue.
pub fn forward_event(queue: &mut EventQueue, event: SignalEvent) -> (d: ListenerDecision)
    ensures
        final(queue).is_open() == old(queue).is_open(),
        d is Continue <==> old(queue).is_open() && old(queue)@.len() < EVENT_QUEUE_CAPACITY,
        d is Continue ==> final(queue)@ == old(queue)@.push(event),
        d is Stop ==> final(queue)@ == old(queue)@,
{
    match queue.send(event) {
        Ok(_) => ListenerDecision::Continue,
        Err(_) => ListenerDecision::Stop,
    }
}

/// Runs the listener over a whole stream of raised signals, forwarding each
/// in raise order until an enqueue fails. Returns how many delivery attempts
/// it made. The queue gains exactly the longest prefix of the stream that
/// fits while it is open — delivery order equals raise order, nothing is
/// duplicated, and nothing that fits is dropped.
pub fn run_listener(queue: &mut EventQueue, raised: &Vec<SignalEvent>) -> (n: usize)
    ensures
        final(queue).is_open() == old(queue).is_open(),
        final(queue)@ == old(queue)@ + raised@.take(
            spec_delivered(old(queue).is_open(), old(queue)@.len(), raised@.len()) as int,
        ),
        n == spec_iterations(old(queue).is_open(), old(queue)@.len(), raised@.len()),
{
    let ghost open0 = old(queue).is_open();
    let ghost backlog0 = old(queue)@.len();
    let mut i: usize = 0;
    proof {
        assert(old(queue)@ + raised@.take(0) =~= old(queue)@);
    }
    while i < raised.len()
        invariant
            i <= raised@.len(),
            open0 == old(queue).is_open(),
            backlog0 == old(queue)@.len(),
            queue.is_open() == open0,
            queue@ == old(queue)@ + raised@.take(i as int),
            i > 0 ==> open0 && backlog0 + i <= EVENT_QUEUE_CAPACITY,
        decreases raised@.len() - i,
    {
        let event = raised[i];
        let decision = forward_event(queue, event);
        match decision {
            ListenerDecision::Continue => {
                proof {
                    assert(queue@ =~= old(queue)@ + raised@.take(i as int + 1));
                }
                i = i + 1;
            },
            ListenerDecision::Stop => {
                proof {
                    assert(spec_delivered(open0, backlog0, raised@.len()) == i);
                }
                return i + 1;
            },
        }
    }
    proof {
        assert(spec_delivered(open0, backlog0, raised@.len()) == i);
    }
    i
}

/// Law: once the queue's consumer side is gone, the listener terminates
/// within one signal-delivery cycle — however many signals are still raised,
/// it makes exactly one more delivery attempt, enqueues nothing, and stops.
/// No listener is leaked past the control loop's exit.
pub proof fn lemma_closed_queue_stops_listener(backlog: nat, raised: nat)
    requires
        raised > 0,
    ensures
        spec_delivered(false, backlog, raised) == 0,
        spec_iterations(false, backlog, raised) == 1,
{
}

/// Law: while the queue is open and the raised signals fit in its spare
/// capacity, every one of them is delivered — raised back-to-back faster
/// than the consumer drains them or not, none is lost and none is attempted
/// twice.
pub proof fn lemma_open_queue_delivers_all(backlog: nat, raised: nat)
    requires
        backlog + raised <= EVENT_QUEUE_CAPACITY,
    ensures
        spec_delivered(true, backlog, raised) == raised,
        spec_iterations(true, backlog, raised) == raised,
{
}

} // verus!
