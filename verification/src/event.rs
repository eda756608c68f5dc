//! Signal events and their classification.
//!
//! The listener watches exactly two OS signals: one that triggers a page
//! reload and one that triggers termination. A raw signal number is
//! classified against those two numbers; anything else is not a recognized
//! event.

use vstd::prelude::*;

verus! {

/// One recognized occurrence of a watched OS signal: either the
/// reload-trigger or the terminate-trigger. No payload beyond identity.
#[derive(Clone, Copy, Debug, PartialEq, Eq, Structural)]
pub enum SignalEvent {
    /// The signal that asks for a page reload.
    Reload,
    /// The signal that asks the process to terminate.
    Terminate,
}

/// What a raw signal number means, given the two watched signal numbers.
/// The reload number is tested first, so if the caller passes the same
/// number twice it reads as the reload-trigger.
pub open spec fn spec_classify(
    raw: i32,
    reload_signal: i32,
    terminate_signal: i32,
) -> Option<SignalEvent> {
    if raw == reload_signal {
        Some(SignalEvent::Reload)
    } else if raw == terminate_signal {
        Some(SignalEvent::Terminate)
    } else {
        None
    }
}

/// Translates a raw OS signal number into a [`SignalEvent`], given the two
/// watched signal numbers. Signals outside the watched set are unreachable
/// under the listener's fixed registration, so they classify to `None` and
/// the caller treats them as a logic-invariant violation.
pub fn classify_signal(raw: i32, reload_signal: i32, terminate_signal: i32) -> (r: Option<
    SignalEvent,
>)
    ensures
        r == spec_classify(raw, reload_signal, terminate_signal),
{
    if raw == reload_signal {
        Some(SignalEvent::Reload)
    } else if raw == terminate_signal {
        Some(SignalEvent::Terminate)
    } else {
        None
    }
}

} // verus!
