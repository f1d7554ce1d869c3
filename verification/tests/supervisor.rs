use oneforall::ports::{Level, LogLine};
use oneforall::supervisor::{
    startup_tasks, ExecutionContext, Ruling, Supervision, SupervisorEvent, Task, EXIT_OK,
    EXIT_STARTUP_FAILED,
};

fn after(events: &[SupervisorEvent]) -> (Supervision, Vec<LogLine>) {
    let mut state = Supervision::Watching;
    let mut lines = Vec::new();
    for event in events {
        let answer = state.step(*event);
        state = answer.next;
        lines.extend(answer.line);
    }
    (state, lines)
}

#[test]
fn an_immediate_interrupt_stops_without_the_server() {
    let answer = Supervision::Watching.step(SupervisorEvent::Completed(Task::SignalListener));
    assert_eq!(
        answer,
        Ruling {
            next: Supervision::Stopped { exit_code: 0 },
            line: Some(LogLine {
                level: Level::Info,
                message: String::from("Received Ctrl+C, shutting down."),
            }),
        }
    );
}

#[test]
fn the_end_of_the_server_stops_gracefully() {
    let answer = Supervision::Watching.step(SupervisorEvent::Completed(Task::Server));
    assert_eq!(
        answer,
        Ruling {
            next: Supervision::Stopped { exit_code: EXIT_OK },
            line: Some(LogLine {
                level: Level::Info,
                message: String::from("Server started successfully."),
            }),
        }
    );
}

#[test]
fn a_listener_that_cannot_be_installed_aborts_startup() {
    let answer = Supervision::Watching.step(SupervisorEvent::SignalInstallFailed);
    assert_eq!(
        answer,
        Ruling {
            next: Supervision::Stopped { exit_code: EXIT_STARTUP_FAILED },
            line: Some(LogLine {
                level: Level::Error,
                message: String::from("Failed to listen for Ctrl+C"),
            }),
        }
    );
    assert_ne!(EXIT_STARTUP_FAILED, 0);
}

#[test]
fn the_command_task_is_not_waited_for() {
    for task in [Task::CommandHandler, Task::StatsCollector] {
        let answer = Supervision::Watching.step(SupervisorEvent::Completed(task));
        assert_eq!(answer, Ruling { next: Supervision::Watching, line: None });
        assert!(!SupervisorEvent::Completed(task).is_decisive());
    }
}

#[test]
fn the_first_decisive_event_settles_the_exit_code() {
    let (state, lines) = after(&[
        SupervisorEvent::Completed(Task::CommandHandler),
        SupervisorEvent::Completed(Task::SignalListener),
        SupervisorEvent::SignalInstallFailed,
        SupervisorEvent::Completed(Task::Server),
    ]);
    assert_eq!(state, Supervision::Stopped { exit_code: 0 });
    assert_eq!(lines.len(), 1);
    assert_eq!(lines[0].message, "Received Ctrl+C, shutting down.");

    let (state, lines) = after(&[
        SupervisorEvent::SignalInstallFailed,
        SupervisorEvent::Completed(Task::Server),
    ]);
    assert_eq!(state, Supervision::Stopped { exit_code: 1 });
    assert_eq!(lines.len(), 1);
}

#[test]
fn stopped_if_and_only_if_a_decisive_event_came() {
    let all = [
        SupervisorEvent::SignalInstallFailed,
        SupervisorEvent::Completed(Task::Server),
        SupervisorEvent::Completed(Task::SignalListener),
        SupervisorEvent::Completed(Task::CommandHandler),
        SupervisorEvent::Completed(Task::StatsCollector),
    ];
    for first in all {
        for second in all {
            for third in all {
                let events = [first, second, third];
                let (state, lines) = after(&events);
                let decisive = events.iter().any(|event| event.is_decisive());
                assert_eq!(matches!(state, Supervision::Stopped { .. }), decisive);
                assert_eq!(lines.len(), if decisive { 1 } else { 0 });
            }
        }
    }
}

#[test]
fn three_tasks_are_started() {
    assert_eq!(startup_tasks(), vec![Task::Server, Task::SignalListener, Task::CommandHandler]);
}

#[test]
fn only_the_collector_has_a_worker_of_its_own() {
    assert_eq!(Task::StatsCollector.context(), ExecutionContext::Dedicated);
    for task in startup_tasks() {
        assert_eq!(task.context(), ExecutionContext::Cooperative);
    }
}
