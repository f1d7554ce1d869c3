//! The retry controller: a bounded number of attempts at running the
//! external stress tool, with a fixed delay between a failed attempt and
//! the next one.
//!
//! The controller is a state machine. It never runs the tool and never
//! waits; it is told what happened and answers with the log line to emit
//! and with what to do next. The program around it performs that and comes
//! back with the next event.

use vstd::prelude::*;
use vstd::string::*;
use crate::ports::{Level, LogEntry, LogLine};
use crate::text::{decimal, decimal_string};

verus! {

/// Retries granted after the first attempt, unless configured otherwise.
pub const DEFAULT_MAX_RETRIES: u64 = 2;

/// Seconds between a failed attempt and the next one, unless configured
/// otherwise.
pub const DEFAULT_DELAY_SECS: u64 = 10;

/// Where the controller stands.
#[derive(Clone, Copy, Debug, PartialEq, Eq, Structural)]
pub enum Phase {
    /// Nothing has been attempted yet.
    Pending,
    /// An attempt is under way.
    Running,
    /// An attempt failed; the next one starts when the delay has elapsed.
    RetryScheduled,
    /// An attempt succeeded. Terminal.
    Succeeded,
    /// The last permitted attempt failed. Terminal.
    Exhausted,
}

/// The controller's whole state.
#[derive(Clone, Copy, Debug, PartialEq, Eq, Structural)]
pub struct RetryState {
    pub phase: Phase,
    /// Retries still permitted after the attempt at hand.
    pub attempts_remaining: u64,
    /// Seconds to wait between a failed attempt and the next one.
    pub fixed_delay: u64,
}

/// What the controller is told.
#[derive(Clone, Debug, PartialEq, Eq)]
pub enum Event {
    /// The command was given.
    Start,
    /// The attempt under way has ended well.
    AttemptSucceeded,
    /// The attempt under way has failed, for the cause given.
    AttemptFailed { cause: String },
    /// The delay before the next attempt has elapsed.
    DelayElapsed,
}

/// An event as contracts see it.
pub enum EventView {
    Start,
    AttemptSucceeded,
    AttemptFailed { cause: Seq<char> },
    DelayElapsed,
}

impl View for Event {
    type V = EventView;

    open spec fn view(&self) -> EventView {
        match *self {
            Event::Start => EventView::Start,
            Event::AttemptSucceeded => EventView::AttemptSucceeded,
            Event::AttemptFailed { cause } => EventView::AttemptFailed { cause: cause@ },
            Event::DelayElapsed => EventView::DelayElapsed,
        }
    }
}

/// How one attempt ended, as contracts see it: well, or with a cause of
/// failure in words.
pub open spec fn outcome_view(outcome: Result<(), String>) -> Result<(), Seq<char>> {
    match outcome {
        Ok(_) => Ok(()),
        Err(cause) => Err(cause@),
    }
}

/// The event that reports how an attempt ended.
pub open spec fn outcome_event(outcome: Result<(), Seq<char>>) -> EventView {
    match outcome {
        Ok(_) => EventView::AttemptSucceeded,
        Err(cause) => EventView::AttemptFailed { cause },
    }
}

impl Event {
    /// The event that reports how an attempt ended.
    pub fn from_outcome(outcome: &Result<(), String>) -> (event: Event)
        ensures
            event@ == outcome_event(outcome_view(*outcome)),
    {
        match outcome {
            Ok(_) => Event::AttemptSucceeded,
            Err(cause) => Event::AttemptFailed { cause: cause.clone() },
        }
    }
}

/// What the caller does after emitting a transition's log line.
#[derive(Clone, Copy, Debug, PartialEq, Eq, Structural)]
pub enum Directive {
    /// Run the tool once and report how it ended.
    RunAttempt,
    /// Wait this many seconds, without holding up other tasks, and report
    /// that the delay has elapsed.
    Sleep { seconds: u64 },
    /// Nothing more: the controller has reached a terminal phase.
    Halt,
}

/// One move of the controller: the state it enters, the one log line that
/// goes with the move, and what the caller does next.
#[derive(Clone, Debug, PartialEq, Eq)]
pub struct Transition {
    pub next: RetryState,
    pub line: LogLine,
    pub directive: Directive,
}

/// A transition as contracts see it.
pub struct TransitionView {
    pub next: RetryState,
    pub line: LogEntry,
    pub directive: Directive,
}

impl View for Transition {
    type V = TransitionView;

    open spec fn view(&self) -> TransitionView {
        TransitionView { next: self.next, line: self.line@, directive: self.directive }
    }
}

/// Text of the line that announces an attempt.
pub open spec fn attempt_text(remaining: nat) -> Seq<char> {
    "Executing CPU stress test. Attempts remaining: "@ + decimal(remaining)
}

/// Text of the line that reports success.
pub open spec fn success_text() -> Seq<char> {
    "CPU stress test executed successfully."@
}

/// Text of the line that announces a retry.
pub open spec fn retry_text(remaining: nat) -> Seq<char> {
    "Retrying CPU stress test. Attempts remaining: "@ + decimal(remaining)
}

/// Text of the line that reports the final failure.
pub open spec fn failure_text(cause: Seq<char>) -> Seq<char> {
    "Error executing CPU stress test: "@ + cause
}

/// The state in which a controller starts.
pub open spec fn initial_state(max_retries: u64, fixed_delay: u64) -> RetryState {
    RetryState { phase: Phase::Pending, attempts_remaining: max_retries, fixed_delay }
}

/// Whether a phase is terminal.
pub open spec fn terminal(phase: Phase) -> bool {
    phase == Phase::Succeeded || phase == Phase::Exhausted
}

/// Whether `event` is one the controller expects in `state`.
///
/// A pending controller expects the start, a running one the end of its
/// attempt, a scheduled one the end of the delay, and a terminal one
/// nothing at all.
pub open spec fn applies(state: RetryState, event: EventView) -> bool {
    match state.phase {
        Phase::Pending => event is Start,
        Phase::Running => event is AttemptSucceeded || event is AttemptFailed,
        Phase::RetryScheduled => event is DelayElapsed,
        Phase::Succeeded => false,
        Phase::Exhausted => false,
    }
}

/// The count of permitted retries once one more attempt has ended.
pub open spec fn one_less(remaining: u64) -> u64 {
    if remaining > 0 {
        (remaining - 1) as u64
    } else {
        0
    }
}

/// The move the controller makes on an event it expects.
pub open spec fn transition(state: RetryState, event: EventView) -> TransitionView {
    match event {
        EventView::AttemptSucceeded => TransitionView {
            next: RetryState {
                phase: Phase::Succeeded,
                attempts_remaining: one_less(state.attempts_remaining),
                fixed_delay: state.fixed_delay,
            },
            line: LogEntry { level: Level::Info, text: success_text() },
            directive: Directive::Halt,
        },
        EventView::AttemptFailed { cause } => if state.attempts_remaining > 0 {
            TransitionView {
                next: RetryState {
                    phase: Phase::RetryScheduled,
                    attempts_remaining: one_less(state.attempts_remaining),
                    fixed_delay: state.fixed_delay,
                },
                line: LogEntry {
                    level: Level::Warn,
                    text: retry_text(state.attempts_remaining as nat),
                },
                directive: Directive::Sleep { seconds: state.fixed_delay },
            }
        } else {
            TransitionView {
                next: RetryState {
                    phase: Phase::Exhausted,
                    attempts_remaining: 0,
                    fixed_delay: state.fixed_delay,
                },
                line: LogEntry { level: Level::Error, text: failure_text(cause) },
                directive: Directive::Halt,
            }
        },
        _ => TransitionView {
            next: RetryState {
                phase: Phase::Running,
                attempts_remaining: state.attempts_remaining,
                fixed_delay: state.fixed_delay,
            },
            line: LogEntry {
                level: Level::Info,
                text: attempt_text(state.attempts_remaining as nat),
            },
            directive: Directive::RunAttempt,
        },
    }
}

fn attempt_line(remaining: u64) -> (line: LogLine)
    ensures
        line@ == (LogEntry { level: Level::Info, text: attempt_text(remaining as nat) }),
{
    let mut message = String::from_str("Executing CPU stress test. Attempts remaining: ");
    let count = decimal_string(remaining);
    message.append(count.as_str());
    LogLine::info(message)
}

fn retry_line(remaining: u64) -> (line: LogLine)
    ensures
        line@ == (LogEntry { level: Level::Warn, text: retry_text(remaining as nat) }),
{
    let mut message = String::from_str("Retrying CPU stress test. Attempts remaining: ");
    let count = decimal_string(remaining);
    message.append(count.as_str());
    LogLine::warn(message)
}

fn failure_line(cause: &str) -> (line: LogLine)
    ensures
        line@ == (LogEntry { level: Level::Error, text: failure_text(cause@) }),
{
    let mut message = String::from_str("Error executing CPU stress test: ");
    message.append(cause);
    LogLine::error(message)
}

impl RetryState {
    /// A controller that has not started, with `max_retries` retries
    /// permitted after the first attempt and `fixed_delay` seconds between
    /// a failed attempt and the next.
    pub fn new(max_retries: u64, fixed_delay: u64) -> (state: RetryState)
        ensures
            state == initial_state(max_retries, fixed_delay),
    {
        RetryState { phase: Phase::Pending, attempts_remaining: max_retries, fixed_delay }
    }

    /// A controller with the default budget and delay.
    pub fn with_defaults() -> (state: RetryState)
        ensures
            state == initial_state(DEFAULT_MAX_RETRIES, DEFAULT_DELAY_SECS),
    {
        RetryState::new(DEFAULT_MAX_RETRIES, DEFAULT_DELAY_SECS)
    }

    /// Whether the controller has reached a terminal phase.
    pub fn is_terminal(&self) -> (b: bool)
        ensures
            b == terminal(self.phase),
    {
        match self.phase {
            Phase::Succeeded => true,
            Phase::Exhausted => true,
            _ => false,
        }
    }

    /// The controller's move on `event`, or `None` where the event is not
    /// one it expects in its phase, in which case nothing is to be logged
    /// or done and the state stands.
    pub fn step(&self, event: &Event) -> (moved: Option<Transition>)
        ensures
            moved is Some <==> applies(*self, event@),
            moved matches Some(t) ==> t@ == transition(*self, event@),
    {
        match (self.phase, event) {
            (Phase::Pending, Event::Start) => Some(self.begin_attempt()),
            (Phase::RetryScheduled, Event::DelayElapsed) => Some(self.begin_attempt()),
            (Phase::Running, Event::AttemptSucceeded) => Some(
                Transition {
                    next: self.after_attempt(Phase::Succeeded),
                    line: LogLine::info(String::from_str("CPU stress test executed successfully.")),
                    directive: Directive::Halt,
                },
            ),
            (Phase::Running, Event::AttemptFailed { cause }) => if self.attempts_remaining > 0 {
                Some(
                    Transition {
                        next: self.after_attempt(Phase::RetryScheduled),
                        line: retry_line(self.attempts_remaining),
                        directive: Directive::Sleep { seconds: self.fixed_delay },
                    },
                )
            } else {
                Some(
                    Transition {
                        next: self.after_attempt(Phase::Exhausted),
                        line: failure_line(cause.as_str()),
                        directive: Directive::Halt,
                    },
                )
            },
            _ => None,
        }
    }

    fn after_attempt(&self, phase: Phase) -> (next: RetryState)
        ensures
            next == (RetryState {
                phase,
                attempts_remaining: one_less(self.attempts_remaining),
                fixed_delay: self.fixed_delay,
            }),
    {
        let remaining: u64 = if self.attempts_remaining > 0 {
            self.attempts_remaining - 1
        } else {
            0
        };
        RetryState { phase, attempts_remaining: remaining, fixed_delay: self.fixed_delay }
    }

    fn begin_attempt(&self) -> (t: Transition)
        ensures
            t@ == transition(*self, EventView::Start),
            t@ == transition(*self, EventView::DelayElapsed),
    {
        Transition {
            next: RetryState {
                phase: Phase::Running,
                attempts_remaining: self.attempts_remaining,
                fixed_delay: self.fixed_delay,
            },
            line: attempt_line(self.attempts_remaining),
            directive: Directive::RunAttempt,
        }
    }
}

/// The budget only ever goes down, by one for each attempt that has
/// ended, as long as anything is left of it; the delay never changes.
pub proof fn law_budget_only_shrinks(state: RetryState, event: EventView)
    requires
        applies(state, event),
    ensures
        transition(state, event).next.fixed_delay == state.fixed_delay,
        transition(state, event).next.attempts_remaining <= state.attempts_remaining,
        transition(state, event).next.attempts_remaining == (if state.phase == Phase::Running {
            one_less(state.attempts_remaining)
        } else {
            state.attempts_remaining
        }),
{
}

/// Every move comes with one line, at the level that its kind calls for:
/// `Info` where an attempt starts or has succeeded, `Warn` where a failed
/// attempt is retried, `Error` where the last attempt has failed. A retry
/// is scheduled exactly when a failed attempt leaves some of the budget,
/// and waits for the configured delay.
pub proof fn law_line_levels(state: RetryState, event: EventView)
    requires
        applies(state, event),
    ensures
        ({
            let moved = transition(state, event);
            match moved.next.phase {
                Phase::Running => moved.directive == Directive::RunAttempt && moved.line.level
                    == Level::Info,
                Phase::RetryScheduled => {
                    &&& event is AttemptFailed && state.attempts_remaining > 0
                    &&& moved.directive == (Directive::Sleep { seconds: state.fixed_delay })
                    &&& moved.line.level == Level::Warn
                },
                Phase::Succeeded => {
                    &&& event is AttemptSucceeded
                    &&& moved.directive == Directive::Halt
                    &&& moved.line.level == Level::Info
                },
                Phase::Exhausted => {
                    &&& event is AttemptFailed && state.attempts_remaining == 0
                    &&& moved.directive == Directive::Halt
                    &&& moved.line.level == Level::Error
                },
                Phase::Pending => false,
            }
        }),
{
}

} // verus!
