//! The task supervisor: which tasks are started, where each of them runs,
//! and when the process ends.
//!
//! The supervisor starts the web server, the listener for the interrupt
//! signal and the command handler, and then waits. It ends the process as
//! soon as the server or the listener is done. The command handler, and the
//! statistics collector it may spawn, are neither waited for nor told to
//! stop.

use vstd::prelude::*;
use vstd::string::*;
use crate::ports::{Level, LogEntry, LogLine};

verus! {

/// Exit code of a graceful shutdown.
pub const EXIT_OK: i32 = 0;

/// Exit code of a failed startup.
pub const EXIT_STARTUP_FAILED: i32 = 1;

/// A concurrent unit of the program.
#[derive(Clone, Copy, Debug, PartialEq, Eq, Structural)]
pub enum Task {
    Server,
    SignalListener,
    CommandHandler,
    StatsCollector,
}

/// Where a task runs.
#[derive(Clone, Copy, Debug, PartialEq, Eq, Structural)]
pub enum ExecutionContext {
    /// The cooperative scheduler's pool, which a blocking call would stall.
    Cooperative,
    /// A worker of its own, which may block freely.
    Dedicated,
}

/// What the supervisor is told.
#[derive(Clone, Copy, Debug, PartialEq, Eq, Structural)]
pub enum SupervisorEvent {
    /// The listener for the interrupt signal could not be installed.
    SignalInstallFailed,
    /// A task has run to its end. For the signal listener that means the
    /// interrupt has arrived.
    Completed(Task),
}

/// Where the supervisor stands.
#[derive(Clone, Copy, Debug, PartialEq, Eq, Structural)]
pub enum Supervision {
    /// Waiting for the server or the signal listener.
    Watching,
    /// The process ends with this exit code.
    Stopped { exit_code: i32 },
}

/// The supervisor's answer to an event: where it stands now, and the line
/// to log, if the event calls for one.
#[derive(Clone, Debug, PartialEq, Eq)]
pub struct Ruling {
    pub next: Supervision,
    pub line: Option<LogLine>,
}

/// A ruling as contracts see it.
pub struct RulingView {
    pub next: Supervision,
    pub line: Option<LogEntry>,
}

impl View for Ruling {
    type V = RulingView;

    open spec fn view(&self) -> RulingView {
        RulingView {
            next: self.next,
            line: match self.line {
                Some(line) => Some(line@),
                None => None,
            },
        }
    }
}

/// The context a task runs in: the statistics collector, whose sampling
/// may block, has a worker of its own; every other task shares the
/// cooperative pool.
pub open spec fn context_of(task: Task) -> ExecutionContext {
    if task == Task::StatsCollector {
        ExecutionContext::Dedicated
    } else {
        ExecutionContext::Cooperative
    }
}

/// Whether an event ends the supervisor's wait.
pub open spec fn decisive(event: SupervisorEvent) -> bool {
    match event {
        SupervisorEvent::SignalInstallFailed => true,
        SupervisorEvent::Completed(task) => task == Task::Server || task == Task::SignalListener,
    }
}

/// The supervisor's answer to `event` when it stands at `state`.
pub open spec fn ruling(state: Supervision, event: SupervisorEvent) -> RulingView {
    if state is Stopped || !decisive(event) {
        RulingView { next: state, line: None }
    } else {
        match event {
            SupervisorEvent::SignalInstallFailed => RulingView {
                next: Supervision::Stopped { exit_code: EXIT_STARTUP_FAILED },
                line: Some(LogEntry { level: Level::Error, text: "Failed to listen for Ctrl+C"@ }),
            },
            SupervisorEvent::Completed(Task::Server) => RulingView {
                next: Supervision::Stopped { exit_code: EXIT_OK },
                line: Some(LogEntry { level: Level::Info, text: "Server started successfully."@ }),
            },
            _ => RulingView {
                next: Supervision::Stopped { exit_code: EXIT_OK },
                line: Some(
                    LogEntry { level: Level::Info, text: "Received Ctrl+C, shutting down."@ },
                ),
            },
        }
    }
}

/// Where the supervisor stands after `events`, in order, from the start.
pub open spec fn supervise(events: Seq<SupervisorEvent>) -> Supervision
    decreases events.len(),
{
    if events.len() == 0 {
        Supervision::Watching
    } else {
        ruling(supervise(events.drop_last()), events.last()).next
    }
}

impl Task {
    /// Where the unit runs.
    pub fn context(self) -> (context: ExecutionContext)
        ensures
            context == context_of(self),
    {
        match self {
            Task::StatsCollector => ExecutionContext::Dedicated,
            _ => ExecutionContext::Cooperative,
        }
    }
}

impl SupervisorEvent {
    /// Whether this event ends the supervisor's wait.
    pub fn is_decisive(self) -> (b: bool)
        ensures
            b == decisive(self),
    {
        match self {
            SupervisorEvent::SignalInstallFailed => true,
            SupervisorEvent::Completed(Task::Server) => true,
            SupervisorEvent::Completed(Task::SignalListener) => true,
            _ => false,
        }
    }
}

/// The tasks that the supervisor starts, in the order in which it starts
/// them.
pub fn startup_tasks() -> (tasks: Vec<Task>)
    ensures
        tasks@ == seq![Task::Server, Task::SignalListener, Task::CommandHandler],
{
    let mut tasks: Vec<Task> = Vec::new();
    tasks.push(Task::Server);
    tasks.push(Task::SignalListener);
    tasks.push(Task::CommandHandler);
    assert(tasks@ =~= seq![Task::Server, Task::SignalListener, Task::CommandHandler]);
    tasks
}

impl Supervision {
    /// The supervisor's answer to `event`.
    ///
    /// While watching, the end of the server or of the signal listener
    /// stops the process with exit code 0, a signal listener that could not
    /// be installed stops it with exit code 1, and each of these comes
    /// with one line for the log. The end of any other task changes
    /// nothing. Once stopped, nothing changes any more.
    pub fn step(self, event: SupervisorEvent) -> (answer: Ruling)
        ensures
            answer@ == ruling(self, event),
    {
        match (self, event) {
            (Supervision::Watching, SupervisorEvent::SignalInstallFailed) => Ruling {
                next: Supervision::Stopped { exit_code: EXIT_STARTUP_FAILED },
                line: Some(LogLine::error(String::from_str("Failed to listen for Ctrl+C"))),
            },
            (Supervision::Watching, SupervisorEvent::Completed(Task::Server)) => Ruling {
                next: Supervision::Stopped { exit_code: EXIT_OK },
                line: Some(LogLine::info(String::from_str("Server started successfully."))),
            },
            (Supervision::Watching, SupervisorEvent::Completed(Task::SignalListener)) => Ruling {
                next: Supervision::Stopped { exit_code: EXIT_OK },
                line: Some(LogLine::info(String::from_str("Received Ctrl+C, shutting down."))),
            },
            _ => Ruling { next: self, line: None },
        }
    }
}

/// The supervisor stops exactly when the server or the signal listener
/// has ended, or the listener could not be installed: it is stopped after
/// a series of events if and only if one of them is decisive.
pub proof fn law_stops_on_first_decisive_event(events: Seq<SupervisorEvent>)
    ensures
        supervise(events) is Stopped <==> exists|i: int|
            0 <= i < events.len() && decisive(#[trigger] events[i]),
    decreases events.len(),
{
    if events.len() > 0 {
        let earlier = events.drop_last();
        law_stops_on_first_decisive_event(earlier);
        if supervise(earlier) is Stopped {
            let i = choose|i: int| 0 <= i < earlier.len() && decisive(#[trigger] earlier[i]);
            assert(decisive(events[i]));
        } else if decisive(events.last()) {
            assert(decisive(events[events.len() - 1]));
        } else {
            assert forall|i: int| 0 <= i < events.len() implies !decisive(
                #[trigger] events[i],
            ) by {
                if i < earlier.len() {
                    assert(events[i] == earlier[i]);
                }
            }
        }
    }
}

/// An interrupt ends the process gracefully without the server: after any
/// events that are not decisive, the end of the signal listener stops the
/// supervisor with exit code 0, and so does the end of the server.
pub proof fn law_interrupt_needs_no_server(events: Seq<SupervisorEvent>)
    requires
        forall|i: int| 0 <= i < events.len() ==> !decisive(#[trigger] events[i]),
    ensures
        supervise(events) == Supervision::Watching,
        supervise(events.push(SupervisorEvent::Completed(Task::SignalListener))) == (
        Supervision::Stopped { exit_code: EXIT_OK }),
        supervise(events.push(SupervisorEvent::Completed(Task::Server))) == (Supervision::Stopped {
            exit_code: EXIT_OK,
        }),
{
    law_stops_on_first_decisive_event(events);
    assert(events.push(SupervisorEvent::Completed(Task::SignalListener)).drop_last() =~= events);
    assert(events.push(SupervisorEvent::Completed(Task::Server)).drop_last() =~= events);
}

} // verus!
