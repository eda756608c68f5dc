use web_refresh::control::{dispatch, run_control, Action};
use web_refresh::event::{classify_signal, SignalEvent};

const SIGUSR1: i32 = 10;
const SIGINT: i32 = 2;

#[test]
fn reload_signal_classifies_as_reload() {
    assert_eq!(
        classify_signal(SIGUSR1, SIGUSR1, SIGINT),
        Some(SignalEvent::Reload)
    );
}

#[test]
fn terminate_signal_classifies_as_terminate() {
    assert_eq!(
        classify_signal(SIGINT, SIGUSR1, SIGINT),
        Some(SignalEvent::Terminate)
    );
}

#[test]
fn unwatched_signal_classifies_as_none() {
    assert_eq!(classify_signal(15, SIGUSR1, SIGINT), None);
}

#[test]
fn dispatch_reload_refreshes() {
    assert_eq!(dispatch(SignalEvent::Reload), Action::Refresh);
}

#[test]
fn dispatch_terminate_exits() {
    assert_eq!(dispatch(SignalEvent::Terminate), Action::Exit);
}

#[test]
fn three_reloads_then_terminate() {
    // Scenario: raise the reload-trigger three times, then the
    // terminate-trigger: exactly three reload calls, in order, then a clean
    // exit.
    let events = vec![
        SignalEvent::Reload,
        SignalEvent::Reload,
        SignalEvent::Reload,
        SignalEvent::Terminate,
    ];
    let trace = run_control(&events);
    assert_eq!(
        trace,
        vec![
            Action::Refresh,
            Action::Refresh,
            Action::Refresh,
            Action::Exit
        ]
    );
}

#[test]
fn immediate_terminate() {
    // Scenario: raise the terminate-trigger immediately: zero reload calls,
    // clean exit.
    let events = vec![SignalEvent::Terminate];
    let trace = run_control(&events);
    assert_eq!(trace, vec![Action::Exit]);
}

#[test]
fn nothing_after_terminate_is_acted_on() {
    let events = vec![
        SignalEvent::Reload,
        SignalEvent::Terminate,
        SignalEvent::Reload,
        SignalEvent::Terminate,
    ];
    let trace = run_control(&events);
    assert_eq!(trace, vec![Action::Refresh, Action::Exit]);
}

#[test]
fn stream_end_without_terminate_just_stops() {
    let events = vec![SignalEvent::Reload, SignalEvent::Reload];
    let trace = run_control(&events);
    assert_eq!(trace, vec![Action::Refresh, Action::Refresh]);
}

#[test]
fn empty_stream_does_nothing() {
    let events: Vec<SignalEvent> = vec![];
    let trace = run_control(&events);
    assert_eq!(trace, Vec::<Action>::new());
}
