//! The control loop's dispatch: from received events to actions.
//!
//! The consumer blocks on the event queue and, for each event, performs one
//! of two actions: reload the page through the driver session, or terminate.
//! The loop has one active state and one terminal state; it ends either on a
//! terminate-trigger or when the stream of events ends. The decision is pure
//! and is modelled in full: [`control_trace`] gives the exact sequence of
//! actions the loop performs on any stream of events.

use crate::channel::{EventQueue, RecvResult};
use crate::event::SignalEvent;
use vstd::prelude::*;

verus! {

/// What the control loop does with one received event.
#[derive(Clone, Copy, Debug, PartialEq, Eq, Structural)]
pub enum Action {
    /// Invoke the driver session's page-refresh operation.
    Refresh,
    /// Leave the loop and let the process exit normally.
    Exit,
}

/// The action taken for one event: a reload-trigger refreshes the page, a
/// terminate-trigger ends the loop.
pub open spec fn spec_dispatch(event: SignalEvent) -> Action {
    match event {
        SignalEvent::Reload => Action::Refresh,
        SignalEvent::Terminate => Action::Exit,
    }
}

/// Decides the action for one received event. This is the whole of the
/// loop's per-event logic: the caller refreshes the page on
/// [`Action::Refresh`] and breaks out of its loop on [`Action::Exit`].
pub fn dispatch(event: SignalEvent) -> (a: Action)
    ensures
        a == spec_dispatch(event),
{
    match event {
        SignalEvent::Reload => Action::Refresh,
        SignalEvent::Terminate => Action::Exit,
    }
}

/// The exact sequence of actions the control loop performs on a stream of
/// events: one `Refresh` per reload-trigger, in arrival order, up to and
/// including the `Exit` for the first terminate-trigger; events after the
/// first terminate-trigger are never received because the loop has exited.
/// A stream with no terminate-trigger yields only the refreshes, the loop
/// then ending with the stream itself.
pub open spec fn control_trace(events: Seq<SignalEvent>) -> Seq<Action>
    decreases events.len(),
{
    if events.len() == 0 {
        Seq::<Action>::empty()
    } else if events[0] is Terminate {
        seq![Action::Exit]
    } else {
        seq![Action::Refresh] + control_trace(events.drop_first())
    }
}

/// Runs the control loop's decisions over a whole stream of delivered
/// events, returning the actions performed in order. The running process
/// interleaves this decision with the driver calls; the trace is the same.
pub fn run_control(events: &Vec<SignalEvent>) -> (trace: Vec<Action>)
    ensures
        trace@ == control_trace(events@),
{
    let mut trace: Vec<Action> = Vec::new();
    let mut i: usize = 0;
    proof {
        assert(events@.skip(0) =~= events@);
        assert(Seq::<Action>::empty() + control_trace(events@) =~= control_trace(events@));
    }
    while i < events.len()
        invariant
            i <= events@.len(),
            control_trace(events@) == trace@ + control_trace(events@.skip(i as int)),
        decreases events@.len() - i,
    {
        let event = events[i];
        let action = dispatch(event);
        trace.push(action);
        match action {
            Action::Exit => {
                proof {
                    assert(control_trace(events@.skip(i as int)) =~= seq![Action::Exit]);
                    assert(control_trace(events@) =~= trace@);
                }
                return trace;
            },
            Action::Refresh => {
                proof {
                    let rest = events@.skip(i as int);
                    assert(rest.drop_first() =~= events@.skip(i as int + 1));
                    assert(control_trace(events@) =~= trace@ + control_trace(
                        events@.skip(i as int + 1),
                    ));
                }
                i = i + 1;
            },
        }
    }
    proof {
        assert(events@.skip(i as int) =~= Seq::<SignalEvent>::empty());
        assert(control_trace(events@) =~= trace@);
    }
    trace
}

/// How many of the enqueued events the control loop receives before it is
/// done with them: everything up to and including the first
/// terminate-trigger, or everything if there is none.
pub open spec fn events_consumed(events: Seq<SignalEvent>) -> nat
    decreases events.len(),
{
    if events.len() == 0 {
        0
    } else if events[0] is Terminate {
        1
    } else {
        1 + events_consumed(events.drop_first())
    }
}

proof fn lemma_events_consumed_of_reload_prefix(events: Seq<SignalEvent>, k: int)
    requires
        0 <= k <= events.len(),
        forall|j: int| 0 <= j < k ==> events[j] is Reload,
    ensures
        k == events.len() ==> events_consumed(events) == k,
        k < events.len() && events[k] is Terminate ==> events_consumed(events) == k + 1,
    decreases k,
{
    if k > 0 {
        lemma_events_consumed_of_reload_prefix(events.drop_first(), k - 1);
    }
}

/// Runs the control loop against the event queue itself, the way the
/// process does: block on the queue, receive one event, act, repeat. It
/// performs exactly [`control_trace`] of the enqueued backlog, stops at the
/// first terminate-trigger without receiving what follows it, and otherwise
/// stops when the queue has nothing more to deliver — where a live consumer
/// would block for the next signal.
pub fn pump(queue: &mut EventQueue) -> (trace: Vec<Action>)
    ensures
        trace@ == control_trace(old(queue)@),
        final(queue)@ == old(queue)@.skip(events_consumed(old(queue)@) as int),
        final(queue).is_open() == old(queue).is_open(),
{
    let ghost events0 = old(queue)@;
    let ghost mut k: int = 0;
    let mut trace: Vec<Action> = Vec::new();
    proof {
        assert(events0.skip(0) =~= events0);
        assert(Seq::<Action>::empty() + control_trace(events0) =~= control_trace(events0));
    }
    loop
        invariant
            events0 == old(queue)@,
            0 <= k <= events0.len(),
            queue.is_open() == old(queue).is_open(),
            queue@ == events0.skip(k),
            forall|j: int| 0 <= j < k ==> events0[j] is Reload,
            control_trace(events0) == trace@ + control_trace(events0.skip(k)),
        decreases events0.len() - k,
    {
        let received = queue.recv();
        match received {
            RecvResult::Received(event) => {
                let action = dispatch(event);
                trace.push(action);
                match action {
                    Action::Exit => {
                        proof {
                            assert(events0.skip(k)[0] == events0[k]);
                            assert(events0[k] is Terminate);
                            assert(control_trace(events0.skip(k)) =~= seq![Action::Exit]);
                            assert(control_trace(events0) =~= trace@);
                            lemma_events_consumed_of_reload_prefix(events0, k);
                            assert(queue@ =~= events0.skip(events_consumed(events0) as int));
                        }
                        return trace;
                    },
                    Action::Refresh => {
                        proof {
                            let rest = events0.skip(k);
                            assert(rest.drop_first() =~= events0.skip(k + 1));
                            assert(control_trace(events0) =~= trace@ + control_trace(
                                events0.skip(k + 1),
                            ));
                            k = k + 1;
                        }
                    },
                }
            },
            RecvResult::Empty | RecvResult::Closed => {
                proof {
                    assert(k == events0.len());
                    assert(control_trace(events0.skip(k)) =~= Seq::<Action>::empty());
                    assert(control_trace(events0) =~= trace@);
                    lemma_events_consumed_of_reload_prefix(events0, k);
                }
                return trace;
            },
        }
    }
}

/// `n` page-refresh actions and nothing else.
pub open spec fn refreshes(n: nat) -> Seq<Action> {
    Seq::new(n, |i: int| Action::Refresh)
}

/// Law: for any stream of reload-triggers followed eventually by one
/// terminate-trigger, the control loop invokes the reload action exactly
/// once per reload-trigger received, in arrival order, and then exits
/// without invoking it again — whatever is raised after that terminate-
/// trigger is never acted on.
pub proof fn lemma_reloads_then_terminate(events: Seq<SignalEvent>, n: int)
    requires
        0 <= n < events.len(),
        forall|i: int| 0 <= i < n ==> events[i] is Reload,
        events[n] is Terminate,
    ensures
        control_trace(events) == refreshes(n as nat).push(Action::Exit),
    decreases n,
{
    if n == 0 {
        assert(control_trace(events) =~= refreshes(0).push(Action::Exit));
    } else {
        let rest = events.drop_first();
        assert(forall|i: int| 0 <= i < n - 1 ==> rest[i] is Reload);
        lemma_reloads_then_terminate(rest, n - 1);
        assert(control_trace(events) =~= refreshes(n as nat).push(Action::Exit));
    }
}

} // verus!
