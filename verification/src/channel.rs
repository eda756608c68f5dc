//! The bounded, ordered event queue between the listener and the control
//! loop.
//!
//! The two components communicate through one bounded FIFO queue of signal
//! events, capacity 100. Delivery order equals arrival order, and no event is
//! duplicated or dropped while there is room. Closing the queue models the
//! consumer side going away: it is the listener's only shutdown cue, not an
//! error. The running process carries the queue on a concurrency primitive
//! with these same contracts; this type is the queue itself, with the
//! contracts proved.

use crate::event::SignalEvent;
use vstd::prelude::*;

verus! {

/// How many events the queue holds at most. Far above any realistic signal
/// rate, so nothing is lost under normal load.
pub const EVENT_QUEUE_CAPACITY: usize = 100;

/// Why an event could not be enqueued. Either way the producer treats the
/// queue as gone and shuts down.
#[derive(Clone, Copy, Debug, PartialEq, Eq, Structural)]
pub enum SendError {
    /// The consumer side has been dropped; the listener's normal shutdown cue.
    Disconnected,
    /// The queue already holds its full capacity of undelivered events.
    Full,
}

/// What one receive attempt yields.
#[derive(Clone, Copy, Debug, PartialEq, Eq, Structural)]
pub enum RecvResult {
    /// The oldest undelivered event, removed from the queue.
    Received(SignalEvent),
    /// The queue is empty and still open: nothing to deliver yet, and a
    /// blocking consumer would wait here.
    Empty,
    /// The queue is empty and closed: the end-of-stream indication on which
    /// the control loop exits.
    Closed,
}

/// A bounded FIFO queue of signal events: the sole synchronization point
/// between the signal listener and the control loop. Its view is the sequence
/// of undelivered events, oldest first.
pub struct EventQueue {
    items: Vec<SignalEvent>,
    open: bool,
}

impl View for EventQueue {
    type V = Seq<SignalEvent>;

    closed spec fn view(&self) -> Seq<SignalEvent> {
        self.items@
    }
}

impl EventQueue {
    /// Whether the consumer side is still attached. Once closed, a queue
    /// never reopens.
    pub closed spec fn is_open(&self) -> bool {
        self.open
    }

    /// A fresh queue: empty and open.
    pub fn new() -> (q: EventQueue)
        ensures
            q@ == Seq::<SignalEvent>::empty(),
            q.is_open(),
    {
        EventQueue { items: Vec::new(), open: true }
    }

    /// How many events are queued and undelivered.
    pub fn len(&self) -> (n: usize)
        ensures
            n == self@.len(),
    {
        self.items.len()
    }

    /// Appends one event behind all earlier ones, so that delivery order
    /// equals arrival order. Fails without enqueueing when the queue is
    /// closed — the producer's shutdown cue — or already full.
    pub fn send(&mut self, event: SignalEvent) -> (r: Result<(), SendError>)
        ensures
            final(self).is_open() == old(self).is_open(),
            !old(self).is_open() ==> r == Err::<(), SendError>(SendError::Disconnected)
                && final(self)@ == old(self)@,
            old(self).is_open() && old(self)@.len() >= EVENT_QUEUE_CAPACITY ==> r == Err::<
                (),
                SendError,
            >(SendError::Full) && final(self)@ == old(self)@,
            old(self).is_open() && old(self)@.len() < EVENT_QUEUE_CAPACITY ==> r == Ok::<
                (),
                SendError,
            >(()) && final(self)@ == old(self)@.push(event),
    {
        if !self.open {
            Err(SendError::Disconnected)
        } else if self.items.len() >= EVENT_QUEUE_CAPACITY {
            Err(SendError::Full)
        } else {
            self.items.push(event);
            Ok(())
        }
    }

    /// Removes and returns the oldest undelivered event. On an empty queue it
    /// reports instead whether the stream has ended (closed) or the consumer
    /// would have to wait (still open).
    pub fn recv(&mut self) -> (r: RecvResult)
        ensures
            final(self).is_open() == old(self).is_open(),
            old(self)@.len() > 0 ==> r == RecvResult::Received(old(self)@[0]) && final(self)@
                == old(self)@.drop_first(),
            old(self)@.len() == 0 ==> final(self)@ == old(self)@ && r == (if old(self).is_open() {
                RecvResult::Empty
            } else {
                RecvResult::Closed
            }),
    {
        if self.items.len() > 0 {
            let event = self.items.remove(0);
            RecvResult::Received(event)
        } else if self.open {
            RecvResult::Empty
        } else {
            RecvResult::Closed
        }
    }

    /// Receives every undelivered event at once, oldest first: what comes
    /// out is exactly what went in, in arrival order. This is the FIFO
    /// delivery guarantee in one piece; the control loop takes the same
    /// events one [`Self::recv`] at a time.
    pub fn drain(&mut self) -> (events: Vec<SignalEvent>)
        ensures
            final(self).is_open() == old(self).is_open(),
            final(self)@ == Seq::<SignalEvent>::empty(),
            events@ == old(self)@,
    {
        let mut events: Vec<SignalEvent> = Vec::new();
        while self.items.len() > 0
            invariant
                self.open == old(self).is_open(),
                events@ + self.items@ == old(self)@,
            decreases self.items.len(),
        {
            let event = self.items.remove(0);
            events.push(event);
            proof {
                assert(events@ + self.items@ =~= old(self)@);
            }
        }
        proof {
            assert(events@ =~= old(self)@);
        }
        events
    }

    /// Drops the consumer side. Undelivered events stay where they are, but
    /// every later send fails: the one way the listener is ever stopped.
    pub fn close(&mut self)
        ensures
            !final(self).is_open(),
            final(self)@ == old(self)@,
    {
        self.open = false;
    }
}

} // verus!
