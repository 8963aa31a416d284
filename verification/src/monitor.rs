//! Watching the diagnostic stream.
//!
//! The diagnostic stream is read apart from the conversation, for as long as
//! the process lives, so that a process that is busy writing diagnostics can
//! never hold the conversation up. Each line read is handed on as it is; what
//! it means is decided where the lines of a request are read together. The
//! watch ends when the stream closes and when nobody is left to take a line.

use vstd::prelude::*;

verus! {

/// What happened on the watch.
#[derive(Debug)]
pub enum MonitorEvent {
    /// This line was read from the stream.
    Line(String),
    /// The stream has closed, or could not be read.
    Closed,
    /// The line was handed on.
    Forwarded,
    /// The line could not be handed on: nobody is left to take it.
    Refused,
}

/// What the watch does next.
#[derive(Debug)]
pub enum MonitorAction {
    /// Read the next line.
    Read,
    /// Hand this line on.
    Forward(String),
    /// End the watch.
    Stop,
}

/// What the watch does after `event`.
pub open spec fn watch_after(event: MonitorEvent) -> MonitorAction {
    match event {
        MonitorEvent::Line(line) => MonitorAction::Forward(line),
        MonitorEvent::Closed => MonitorAction::Stop,
        MonitorEvent::Forwarded => MonitorAction::Read,
        MonitorEvent::Refused => MonitorAction::Stop,
    }
}

/// Decides what the watch does next. A watch begins with `Read`.
pub fn monitor_step(event: MonitorEvent) -> (action: MonitorAction)
    ensures
        action == watch_after(event),
{
    match event {
        MonitorEvent::Line(line) => MonitorAction::Forward(line),
        MonitorEvent::Closed => MonitorAction::Stop,
        MonitorEvent::Forwarded => MonitorAction::Read,
        MonitorEvent::Refused => MonitorAction::Stop,
    }
}

} // verus!
