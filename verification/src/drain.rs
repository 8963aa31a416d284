//! Gathering the diagnostic lines of one request.
//!
//! Diagnostic lines travel on their own stream and may arrive a little after
//! the completion marker. Whoever owns the receiving end asks the drain what
//! to do, does it, and reports what happened; the drain decides when the
//! lines of the request are all in.
//!
//! First whatever is at hand is taken without waiting. Then the receiving end
//! is polled for a short window, with a pause after each poll that found
//! nothing, until a poll finds nothing although lines were captured, or the
//! window has closed.

use crate::error::{ErrorView, ExifToolError};
use crate::text::texts;
use vstd::prelude::*;

verus! {

/// The pause between two polls, in milliseconds.
pub const POLL_INTERVAL_MS: u64 = 2;

/// The length of the window in which late lines are waited for, in
/// milliseconds, counted from the start of the drain.
pub const POLL_WINDOW_MS: u64 = 10;

/// Where a drain stands.
#[derive(Debug, Clone, Copy)]
pub enum DrainPhase {
    /// Taking what is at hand.
    Immediate,
    /// Polling inside the window.
    Polling,
    /// The lines are all in.
    Finished,
    /// The stream is gone and nothing was captured.
    Failed,
}

/// What the last poll of the receiving end gave.
#[derive(Debug)]
pub enum DrainEvent {
    /// A line was waiting.
    Line(String),
    /// Nothing was waiting.
    Empty,
    /// The sending end is gone for good.
    Disconnected,
    /// The window had closed before the poll was made.
    WindowClosed,
}

/// What to do next.
#[derive(Debug, Clone, Copy)]
pub enum DrainAction {
    /// Poll at once and report the event.
    PollNow,
    /// If the window is still open, poll and report the event; if not,
    /// report `WindowClosed`.
    PollInWindow,
    /// Pause for one interval, then do as for `PollInWindow`.
    PauseThenPoll,
    /// Stop: the drain has finished or failed.
    Stop,
}

/// The phase that follows `phase` when `event` is reported and `captured`
/// lines were held before it.
pub open spec fn next_phase(phase: DrainPhase, captured: nat, event: DrainEvent) -> DrainPhase {
    match phase {
        DrainPhase::Finished => DrainPhase::Finished,
        DrainPhase::Failed => DrainPhase::Failed,
        DrainPhase::Immediate => match event {
            DrainEvent::Line(_) => DrainPhase::Immediate,
            DrainEvent::Empty => DrainPhase::Polling,
            DrainEvent::Disconnected => if captured == 0 {
                DrainPhase::Failed
            } else {
                DrainPhase::Finished
            },
            DrainEvent::WindowClosed => DrainPhase::Finished,
        },
        DrainPhase::Polling => match event {
            DrainEvent::Line(_) => DrainPhase::Polling,
            DrainEvent::Empty => if captured == 0 {
                DrainPhase::Polling
            } else {
                DrainPhase::Finished
            },
            DrainEvent::Disconnected => if captured == 0 {
                DrainPhase::Failed
            } else {
                DrainPhase::Finished
            },
            DrainEvent::WindowClosed => DrainPhase::Finished,
        },
    }
}

/// What is asked of the caller when `event` is reported in `phase` and
/// `captured` lines were held before it.
pub open spec fn next_action(phase: DrainPhase, captured: nat, event: DrainEvent) -> DrainAction {
    match phase {
        DrainPhase::Immediate => match event {
            DrainEvent::Line(_) => DrainAction::PollNow,
            DrainEvent::Empty => DrainAction::PollInWindow,
            _ => DrainAction::Stop,
        },
        DrainPhase::Polling => match event {
            DrainEvent::Line(_) => DrainAction::PollInWindow,
            DrainEvent::Empty => if captured == 0 {
                DrainAction::PauseThenPoll
            } else {
                DrainAction::Stop
            },
            _ => DrainAction::Stop,
        },
        _ => DrainAction::Stop,
    }
}

/// The lines held after `event` is reported in `phase`.
pub open spec fn lines_after(
    phase: DrainPhase,
    captured: Seq<Seq<char>>,
    event: DrainEvent,
) -> Seq<Seq<char>> {
    match event {
        DrainEvent::Line(line) => if phase is Immediate || phase is Polling {
            captured.push(line@)
        } else {
            captured
        },
        _ => captured,
    }
}

/// The drain of one request.
#[derive(Debug)]
pub struct DiagnosticDrain {
    lines: Vec<String>,
    phase: DrainPhase,
}

impl DiagnosticDrain {
    /// The lines captured so far, in the order of their arrival.
    pub closed spec fn captured(&self) -> Seq<Seq<char>> {
        texts(self.lines@)
    }

    /// Where the drain stands.
    pub closed spec fn phase(&self) -> DrainPhase {
        self.phase
    }

    /// A drain that has captured nothing. The caller begins with `PollNow`.
    pub fn new() -> (drain: Self)
        ensures
            drain.captured() == Seq::<Seq<char>>::empty(),
            drain.phase() is Immediate,
    {
        let drain = DiagnosticDrain { lines: Vec::new(), phase: DrainPhase::Immediate };
        assert(drain.captured() =~= Seq::<Seq<char>>::empty());
        drain
    }

    /// Takes in what the last poll gave and says what to do next.
    ///
    /// A line is kept, behind those captured before. A poll that finds
    /// nothing ends the first phase and opens the window; in the window it
    /// ends the drain once a line has been captured, and asks for a pause
    /// before the next poll as long as none has. A stream that is gone fails the drain only if nothing
    /// was captured. Once the drain has finished or failed, nothing changes
    /// it.
    pub fn step(&mut self, event: DrainEvent) -> (action: DrainAction)
        ensures
            final(self).phase() == next_phase(old(self).phase(), old(self).captured().len(), event),
            final(self).captured() == lines_after(old(self).phase(), old(self).captured(), event),
            action == next_action(old(self).phase(), old(self).captured().len(), event),
    {
        let held: usize = self.lines.len();
        proof {
            assert(self.captured().len() == held);
        }
        match self.phase {
            DrainPhase::Finished => DrainAction::Stop,
            DrainPhase::Failed => DrainAction::Stop,
            DrainPhase::Immediate => match event {
                DrainEvent::Line(line) => {
                    self.lines.push(line);
                    assert(texts(self.lines@) =~= texts(old(self).lines@).push(line@));
                    DrainAction::PollNow
                },
                DrainEvent::Empty => {
                    self.phase = DrainPhase::Polling;
                    DrainAction::PollInWindow
                },
                DrainEvent::Disconnected => {
                    self.phase = if held == 0 {
                        DrainPhase::Failed
                    } else {
                        DrainPhase::Finished
                    };
                    DrainAction::Stop
                },
                DrainEvent::WindowClosed => {
                    self.phase = DrainPhase::Finished;
                    DrainAction::Stop
                },
            },
            DrainPhase::Polling => match event {
                DrainEvent::Line(line) => {
                    self.lines.push(line);
                    assert(texts(self.lines@) =~= texts(old(self).lines@).push(line@));
                    DrainAction::PollInWindow
                },
                DrainEvent::Empty => {
                    if held == 0 {
                        DrainAction::PauseThenPoll
                    } else {
                        self.phase = DrainPhase::Finished;
                        DrainAction::Stop
                    }
                },
                DrainEvent::Disconnected => {
                    self.phase = if held == 0 {
                        DrainPhase::Failed
                    } else {
                        DrainPhase::Finished
                    };
                    DrainAction::Stop
                },
                DrainEvent::WindowClosed => {
                    self.phase = DrainPhase::Finished;
                    DrainAction::Stop
                },
            },
        }
    }

    /// What the drain has to show: the lines captured, in order, or the error
    /// of a stream that was gone before it gave any.
    pub fn finish(self) -> (outcome: Result<Vec<String>, ExifToolError>)
        ensures
            self.phase() is Failed ==> outcome is Err && outcome->Err_0@
                == ErrorView::StderrDisconnected,
            !(self.phase() is Failed) ==> outcome is Ok && texts(outcome->Ok_0@)
                == self.captured(),
    {
        match self.phase {
            DrainPhase::Failed => Err(ExifToolError::StderrDisconnected),
            _ => Ok(self.lines),
        }
    }
}

/// A drain fails only when the stream is gone and no line was captured; what
/// was captured before a step is still there after it, in the same order; and
/// the caller is told to stop exactly when the drain has finished or failed.
pub proof fn lemma_drain_keeps_lines(phase: DrainPhase, captured: Seq<Seq<char>>, event: DrainEvent)
    ensures
        captured.is_prefix_of(lines_after(phase, captured, event)),
        next_phase(phase, captured.len(), event) is Failed && !(phase is Failed) ==> event
            is Disconnected && captured.len() == 0,
        next_action(phase, captured.len(), event) is Stop <==> (next_phase(
            phase,
            captured.len(),
            event,
        ) is Finished || next_phase(phase, captured.len(), event) is Failed),
{
}

/// A drain does not outlast its window: whatever its phase and whatever it
/// has captured, it stops when it is told that the window has closed or that
/// the stream is gone.
pub proof fn lemma_drain_stops(phase: DrainPhase, captured: nat)
    ensures
        next_action(phase, captured, DrainEvent::WindowClosed) is Stop,
        next_action(phase, captured, DrainEvent::Disconnected) is Stop,
        captured > 0 && phase is Polling ==> next_action(phase, captured, DrainEvent::Empty)
            is Stop,
{
}

} // verus!
