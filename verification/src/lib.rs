//! Signal-driven page-reload control logic.
//!
//! A background listener turns OS signals into an ordered, bounded stream of
//! events; a single control loop consumes the stream and either reloads the
//! page through a browser-automation session or terminates. This crate holds
//! the verified decision logic: event classification, configuration
//! validation, the bounded FIFO event queue, the listener's forwarding step,
//! and the control loop's dispatch. The process glue (CLI parsing, OS signal
//! registration, threads, the WebDriver session itself) lives outside it.

pub mod channel;
pub mod config;
pub mod control;
pub mod event;
pub mod listener;

use vstd::prelude::*;

verus! {

} // verus!
