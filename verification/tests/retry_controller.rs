use oneforall::ports::{Level, LogLine};
use oneforall::retry::{
    Directive, Event, Phase, RetryState, Transition, DEFAULT_DELAY_SECS, DEFAULT_MAX_RETRIES,
};
use oneforall::transcript::replay;

/// What a caller that obeys the controller saw of one stress command.
struct Observed {
    attempts: usize,
    waits: Vec<u64>,
    lines: Vec<LogLine>,
    end: RetryState,
}

/// Runs the controller to its end against a tool whose attempts end as
/// `script` says; every attempt past the end of the script fails.
fn drive(max_retries: u64, fixed_delay: u64, script: &[Result<(), String>]) -> Observed {
    let mut state = RetryState::new(max_retries, fixed_delay);
    let mut seen = Observed { attempts: 0, waits: Vec::new(), lines: Vec::new(), end: state };
    let mut event = Event::Start;
    loop {
        let moved = state.step(&event).expect("the controller expects this event");
        state = moved.next;
        seen.lines.push(moved.line);
        match moved.directive {
            Directive::RunAttempt => {
                let outcome = script
                    .get(seen.attempts)
                    .cloned()
                    .unwrap_or_else(|| Err(String::from("tool failed")));
                seen.attempts += 1;
                event = Event::from_outcome(&outcome);
            }
            Directive::Sleep { seconds } => {
                seen.waits.push(seconds);
                event = Event::DelayElapsed;
            }
            Directive::Halt => break,
        }
    }
    seen.end = state;
    seen
}

fn count_level(lines: &[LogLine], level: Level) -> usize {
    lines.iter().filter(|line| line.level == level).count()
}

fn failure(cause: &str) -> Result<(), String> {
    Err(String::from(cause))
}

#[test]
fn fails_twice_then_succeeds() {
    let seen = drive(2, 10, &[failure("e1"), failure("e2"), Ok(())]);
    assert_eq!(seen.attempts, 3);
    assert_eq!(count_level(&seen.lines, Level::Warn), 2);
    assert_eq!(count_level(&seen.lines, Level::Error), 0);
    assert_eq!(seen.end.phase, Phase::Succeeded);
    let texts: Vec<&str> = seen.lines.iter().map(|line| line.message.as_str()).collect();
    assert_eq!(
        texts,
        vec![
            "Executing CPU stress test. Attempts remaining: 2",
            "Retrying CPU stress test. Attempts remaining: 2",
            "Executing CPU stress test. Attempts remaining: 1",
            "Retrying CPU stress test. Attempts remaining: 1",
            "Executing CPU stress test. Attempts remaining: 0",
            "CPU stress test executed successfully.",
        ]
    );
    assert_eq!(seen.lines.last().unwrap().level, Level::Info);
    assert_eq!(seen.waits, vec![10, 10]);
}

#[test]
fn always_fails_ends_exhausted() {
    let seen = drive(2, 10, &[]);
    assert_eq!(seen.attempts, 3);
    assert_eq!(seen.end.phase, Phase::Exhausted);
    assert_eq!(seen.end.attempts_remaining, 0);
    assert_eq!(count_level(&seen.lines, Level::Error), 1);
    assert_eq!(count_level(&seen.lines, Level::Warn), 2);
    let last = seen.lines.last().unwrap();
    assert_eq!(last.level, Level::Error);
    assert_eq!(last.message, "Error executing CPU stress test: tool failed");
}

#[test]
fn all_failures_make_one_attempt_more_than_retries() {
    for retries in 0..6u64 {
        let seen = drive(retries, 1, &[]);
        assert_eq!(seen.attempts as u64, retries + 1);
        assert_eq!(seen.end.phase, Phase::Exhausted);
        assert_eq!(seen.waits.len() as u64, retries);
    }
}

#[test]
fn zero_retries_still_attempts_once() {
    let seen = drive(0, 10, &[failure("no luck")]);
    assert_eq!(seen.attempts, 1);
    assert!(seen.waits.is_empty());
    assert_eq!(seen.end.phase, Phase::Exhausted);
    let texts: Vec<&str> = seen.lines.iter().map(|line| line.message.as_str()).collect();
    assert_eq!(
        texts,
        vec![
            "Executing CPU stress test. Attempts remaining: 0",
            "Error executing CPU stress test: no luck",
        ]
    );
}

#[test]
fn stops_at_the_first_success() {
    for retries in 0..5u64 {
        for failures in 0..=retries {
            let mut script: Vec<Result<(), String>> = Vec::new();
            for _ in 0..failures {
                script.push(failure("flaky"));
            }
            script.push(Ok(()));
            script.push(failure("never looked at"));
            let seen = drive(retries, 3, &script);
            assert_eq!(seen.attempts as u64, failures + 1);
            assert!(1 <= seen.attempts && seen.attempts as u64 <= retries + 1);
            assert_eq!(seen.end.phase, Phase::Succeeded);
        }
    }
}

#[test]
fn exactly_one_terminal_line_whatever_the_budget() {
    for retries in 0..5u64 {
        for script in [vec![], vec![Ok(())], vec![failure("x"), Ok(())]] {
            let moves = replay(retries, 10, &{
                let mut full: Vec<Result<(), String>> = script.clone();
                for _ in 0..=retries {
                    full.push(failure("x"));
                }
                full
            });
            let halts: Vec<usize> = moves
                .iter()
                .enumerate()
                .filter(|(_, moved)| moved.directive == Directive::Halt)
                .map(|(at, _)| at)
                .collect();
            assert_eq!(halts, vec![moves.len() - 1]);
            let terminal = &moves[moves.len() - 1];
            assert!(terminal.next.is_terminal());
            match terminal.next.phase {
                Phase::Succeeded => assert_eq!(terminal.line.level, Level::Info),
                Phase::Exhausted => assert_eq!(terminal.line.level, Level::Error),
                other => panic!("a run cannot end in {:?}", other),
            }
        }
    }
}

#[test]
fn one_delay_between_consecutive_attempts() {
    let moves = replay(3, 7, &vec![failure("a"), failure("b"), failure("c"), failure("d")]);
    let directives: Vec<Directive> = moves.iter().map(|moved| moved.directive).collect();
    assert_eq!(
        directives,
        vec![
            Directive::RunAttempt,
            Directive::Sleep { seconds: 7 },
            Directive::RunAttempt,
            Directive::Sleep { seconds: 7 },
            Directive::RunAttempt,
            Directive::Sleep { seconds: 7 },
            Directive::RunAttempt,
            Directive::Halt,
        ]
    );
}

#[test]
fn an_attempt_cannot_start_before_the_delay_has_elapsed() {
    let running = RetryState { phase: Phase::Running, attempts_remaining: 1, fixed_delay: 10 };
    let failed = Event::AttemptFailed { cause: String::from("x") };
    let scheduled = running.step(&failed).unwrap().next;
    assert_eq!(scheduled.phase, Phase::RetryScheduled);
    assert_eq!(scheduled.step(&Event::Start), None);
    assert_eq!(scheduled.step(&Event::AttemptSucceeded), None);
    assert_eq!(scheduled.step(&failed), None);
    let resumed = scheduled.step(&Event::DelayElapsed).unwrap();
    assert_eq!(resumed.directive, Directive::RunAttempt);
    assert_eq!(resumed.next.phase, Phase::Running);
    assert_eq!(resumed.next.attempts_remaining, 0);
}

#[test]
fn unexpected_events_are_refused() {
    let pending = RetryState::new(2, 10);
    assert_eq!(pending.step(&Event::DelayElapsed), None);
    assert_eq!(pending.step(&Event::AttemptSucceeded), None);
    let running = pending.step(&Event::Start).unwrap().next;
    assert_eq!(running.step(&Event::Start), None);
    assert_eq!(running.step(&Event::DelayElapsed), None);
    for phase in [Phase::Succeeded, Phase::Exhausted] {
        let ended = RetryState { phase, attempts_remaining: 0, fixed_delay: 10 };
        assert!(ended.is_terminal());
        assert_eq!(ended.step(&Event::Start), None);
        assert_eq!(ended.step(&Event::AttemptSucceeded), None);
        assert_eq!(ended.step(&Event::DelayElapsed), None);
    }
    assert!(!pending.is_terminal());
    assert!(!running.is_terminal());
}

#[test]
fn each_move_is_exact() {
    let start = RetryState::new(2, 10).step(&Event::Start).unwrap();
    assert_eq!(
        start,
        Transition {
            next: RetryState { phase: Phase::Running, attempts_remaining: 2, fixed_delay: 10 },
            line: LogLine {
                level: Level::Info,
                message: String::from("Executing CPU stress test. Attempts remaining: 2"),
            },
            directive: Directive::RunAttempt,
        }
    );
    let success = start.next.step(&Event::AttemptSucceeded).unwrap();
    assert_eq!(
        success,
        Transition {
            next: RetryState { phase: Phase::Succeeded, attempts_remaining: 1, fixed_delay: 10 },
            line: LogLine {
                level: Level::Info,
                message: String::from("CPU stress test executed successfully."),
            },
            directive: Directive::Halt,
        }
    );
    let retry = start.next.step(&Event::AttemptFailed { cause: String::from("boom") }).unwrap();
    assert_eq!(
        retry,
        Transition {
            next: RetryState {
                phase: Phase::RetryScheduled,
                attempts_remaining: 1,
                fixed_delay: 10
            },
            line: LogLine {
                level: Level::Warn,
                message: String::from("Retrying CPU stress test. Attempts remaining: 2"),
            },
            directive: Directive::Sleep { seconds: 10 },
        }
    );
    let last = RetryState { phase: Phase::Running, attempts_remaining: 0, fixed_delay: 10 };
    let exhausted = last.step(&Event::AttemptFailed { cause: String::from("boom") }).unwrap();
    assert_eq!(
        exhausted,
        Transition {
            next: RetryState { phase: Phase::Exhausted, attempts_remaining: 0, fixed_delay: 10 },
            line: LogLine {
                level: Level::Error,
                message: String::from("Error executing CPU stress test: boom"),
            },
            directive: Directive::Halt,
        }
    );
}

#[test]
fn the_budget_only_ever_goes_down() {
    let moves = replay(4, 2, &vec![failure("a"), failure("b"), Ok(())]);
    let mut before = 4;
    for moved in &moves {
        assert!(moved.next.attempts_remaining <= before);
        assert_eq!(moved.next.fixed_delay, 2);
        before = moved.next.attempts_remaining;
    }
    assert_eq!(before, 1);
}

#[test]
fn defaults_are_two_retries_ten_seconds_apart() {
    assert_eq!(DEFAULT_MAX_RETRIES, 2);
    assert_eq!(DEFAULT_DELAY_SECS, 10);
    assert_eq!(
        RetryState::with_defaults(),
        RetryState { phase: Phase::Pending, attempts_remaining: 2, fixed_delay: 10 }
    );
    assert_eq!(RetryState::new(5, 1).attempts_remaining, 5);
}

#[test]
fn outcomes_become_events() {
    assert_eq!(Event::from_outcome(&Ok(())), Event::AttemptSucceeded);
    assert_eq!(
        Event::from_outcome(&failure("exit 3")),
        Event::AttemptFailed { cause: String::from("exit 3") }
    );
}

#[test]
fn replay_is_the_run_a_caller_sees() {
    let script = vec![failure("one"), failure("two"), Ok(()), failure("unused")];
    let moves = replay(2, 10, &script);
    let seen = drive(2, 10, &script);
    let lines: Vec<LogLine> = moves.iter().map(|moved| moved.line.clone()).collect();
    assert_eq!(lines, seen.lines);
    assert_eq!(moves.last().unwrap().next, seen.end);
    assert_eq!(moves, replay(2, 10, &script[..3].to_vec()));
}

#[test]
fn replay_stops_with_an_attempt_under_way_when_outcomes_run_out() {
    let moves = replay(2, 10, &vec![]);
    assert_eq!(moves.len(), 1);
    assert_eq!(moves[0].directive, Directive::RunAttempt);
    let moves = replay(2, 10, &vec![failure("x")]);
    assert_eq!(moves.len(), 3);
    assert_eq!(moves[2].next.phase, Phase::Running);
    assert_eq!(moves[2].next.attempts_remaining, 1);
}
