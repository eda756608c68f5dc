use web_refresh::channel::{EventQueue, RecvResult, SendError, EVENT_QUEUE_CAPACITY};
use web_refresh::control::{pump, Action};
use web_refresh::event::SignalEvent;
use web_refresh::listener::{forward_event, run_listener, ListenerDecision};

#[test]
fn new_queue_is_empty() {
    let q = EventQueue::new();
    assert_eq!(q.len(), 0);
}

#[test]
fn recv_on_empty_open_queue_would_block() {
    let mut q = EventQueue::new();
    assert_eq!(q.recv(), RecvResult::Empty);
}

#[test]
fn recv_on_empty_closed_queue_reports_end_of_stream() {
    let mut q = EventQueue::new();
    q.close();
    assert_eq!(q.recv(), RecvResult::Closed);
}

#[test]
fn delivery_order_equals_raise_order() {
    // FIFO across an interleaving of reload- and terminate-triggers.
    let raised = vec![
        SignalEvent::Reload,
        SignalEvent::Terminate,
        SignalEvent::Reload,
        SignalEvent::Reload,
        SignalEvent::Terminate,
    ];
    let mut q = EventQueue::new();
    for e in &raised {
        assert_eq!(q.send(*e), Ok(()));
    }
    for e in &raised {
        assert_eq!(q.recv(), RecvResult::Received(*e));
    }
    assert_eq!(q.recv(), RecvResult::Empty);
}

#[test]
fn drain_returns_events_in_arrival_order() {
    let mut q = EventQueue::new();
    q.send(SignalEvent::Terminate).unwrap();
    q.send(SignalEvent::Reload).unwrap();
    q.send(SignalEvent::Terminate).unwrap();
    let events = q.drain();
    assert_eq!(
        events,
        vec![
            SignalEvent::Terminate,
            SignalEvent::Reload,
            SignalEvent::Terminate
        ]
    );
    assert_eq!(q.len(), 0);
}

#[test]
fn send_to_closed_queue_is_disconnected() {
    let mut q = EventQueue::new();
    q.close();
    assert_eq!(
        q.send(SignalEvent::Reload),
        Err(SendError::Disconnected)
    );
    assert_eq!(q.len(), 0);
}

#[test]
fn close_keeps_undelivered_events() {
    let mut q = EventQueue::new();
    q.send(SignalEvent::Reload).unwrap();
    q.close();
    assert_eq!(q.recv(), RecvResult::Received(SignalEvent::Reload));
    assert_eq!(q.recv(), RecvResult::Closed);
}

#[test]
fn send_to_full_queue_fails_without_losing_events() {
    let mut q = EventQueue::new();
    for _ in 0..EVENT_QUEUE_CAPACITY {
        assert_eq!(q.send(SignalEvent::Reload), Ok(()));
    }
    assert_eq!(q.len(), EVENT_QUEUE_CAPACITY);
    assert_eq!(q.send(SignalEvent::Terminate), Err(SendError::Full));
    assert_eq!(q.len(), EVENT_QUEUE_CAPACITY);
}

#[test]
fn forward_event_enqueues_and_continues() {
    let mut q = EventQueue::new();
    let d = forward_event(&mut q, SignalEvent::Reload);
    assert_eq!(d, ListenerDecision::Continue);
    assert_eq!(q.recv(), RecvResult::Received(SignalEvent::Reload));
}

#[test]
fn forward_event_stops_once_consumer_is_gone() {
    // The listener terminates within one delivery cycle of the consumer
    // being dropped.
    let mut q = EventQueue::new();
    q.close();
    let d = forward_event(&mut q, SignalEvent::Reload);
    assert_eq!(d, ListenerDecision::Stop);
    assert_eq!(q.len(), 0);
}

#[test]
fn back_to_back_reloads_are_both_delivered_in_order() {
    // Scenario: two reload-triggers raised faster than the consumer drains
    // them: both are eventually delivered and processed, in order, no loss.
    let raised = vec![SignalEvent::Reload, SignalEvent::Reload];
    let mut q = EventQueue::new();
    let n = run_listener(&mut q, &raised);
    assert_eq!(n, 2);
    assert_eq!(q.recv(), RecvResult::Received(SignalEvent::Reload));
    assert_eq!(q.recv(), RecvResult::Received(SignalEvent::Reload));
    assert_eq!(q.recv(), RecvResult::Empty);
}

#[test]
fn listener_run_on_closed_queue_stops_after_one_attempt() {
    let raised = vec![
        SignalEvent::Reload,
        SignalEvent::Reload,
        SignalEvent::Terminate,
    ];
    let mut q = EventQueue::new();
    q.close();
    let n = run_listener(&mut q, &raised);
    assert_eq!(n, 1);
    assert_eq!(q.len(), 0);
}

#[test]
fn listener_run_on_full_queue_stops_after_one_attempt() {
    let mut q = EventQueue::new();
    for _ in 0..EVENT_QUEUE_CAPACITY {
        q.send(SignalEvent::Reload).unwrap();
    }
    let raised = vec![SignalEvent::Terminate, SignalEvent::Terminate];
    let n = run_listener(&mut q, &raised);
    assert_eq!(n, 1);
    assert_eq!(q.len(), EVENT_QUEUE_CAPACITY);
}

#[test]
fn pump_acts_on_backlog_in_order_and_stops_at_terminate() {
    let raised = vec![
        SignalEvent::Reload,
        SignalEvent::Reload,
        SignalEvent::Terminate,
        SignalEvent::Reload,
    ];
    let mut q = EventQueue::new();
    run_listener(&mut q, &raised);
    let trace = pump(&mut q);
    assert_eq!(trace, vec![Action::Refresh, Action::Refresh, Action::Exit]);
    // The event raised after the terminate-trigger was never received.
    assert_eq!(q.recv(), RecvResult::Received(SignalEvent::Reload));
}

#[test]
fn pump_on_empty_queue_does_nothing() {
    let mut q = EventQueue::new();
    assert_eq!(pump(&mut q), Vec::<Action>::new());
}

#[test]
fn pump_after_listener_run_gives_one_refresh_per_reload() {
    // End to end through queue and loop: three reload-triggers, then the
    // terminate-trigger.
    let raised = vec![
        SignalEvent::Reload,
        SignalEvent::Reload,
        SignalEvent::Reload,
        SignalEvent::Terminate,
    ];
    let mut q = EventQueue::new();
    let n = run_listener(&mut q, &raised);
    assert_eq!(n, 4);
    let trace = pump(&mut q);
    assert_eq!(
        trace,
        vec![
            Action::Refresh,
            Action::Refresh,
            Action::Refresh,
            Action::Exit
        ]
    );
    assert_eq!(q.recv(), RecvResult::Empty);
}

#[test]
fn listener_run_delivers_longest_prefix_that_fits() {
    let mut q = EventQueue::new();
    for _ in 0..EVENT_QUEUE_CAPACITY - 1 {
        q.send(SignalEvent::Reload).unwrap();
    }
    let raised = vec![SignalEvent::Terminate, SignalEvent::Reload];
    let n = run_listener(&mut q, &raised);
    // One event fits; the failed attempt on the second ends the run.
    assert_eq!(n, 2);
    let events = q.drain();
    assert_eq!(events.len(), EVENT_QUEUE_CAPACITY);
    assert_eq!(events[EVENT_QUEUE_CAPACITY - 1], SignalEvent::Terminate);
}
