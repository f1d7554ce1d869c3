use oneforall::retry::Event;
use oneforall::runner::{judge, ProcessReport};

#[test]
fn exit_status_zero_is_success() {
    assert_eq!(judge(&ProcessReport::Exited { code: 0 }), Ok(()));
}

#[test]
fn other_exit_statuses_fail_with_the_status_in_the_cause() {
    assert_eq!(
        judge(&ProcessReport::Exited { code: 2 }),
        Err(String::from("stress tool exited with status 2"))
    );
    assert_eq!(
        judge(&ProcessReport::Exited { code: -9 }),
        Err(String::from("stress tool exited with status -9"))
    );
    assert_eq!(
        judge(&ProcessReport::Exited { code: i32::MIN }),
        Err(String::from("stress tool exited with status -2147483648"))
    );
}

#[test]
fn a_run_without_exit_status_fails() {
    assert_eq!(
        judge(&ProcessReport::Killed),
        Err(String::from("stress tool ended without an exit status"))
    );
}

#[test]
fn a_tool_that_cannot_be_started_fails_with_the_reason() {
    let report = ProcessReport::LaunchFailed { cause: String::from("No such file or directory") };
    assert_eq!(
        judge(&report),
        Err(String::from("stress tool could not be started: No such file or directory"))
    );
}

#[test]
fn a_judgement_feeds_the_retry_controller() {
    let judged = judge(&ProcessReport::Exited { code: 1 });
    assert_eq!(
        Event::from_outcome(&judged),
        Event::AttemptFailed { cause: String::from("stress tool exited with status 1") }
    );
    assert_eq!(
        Event::from_outcome(&judge(&ProcessReport::Exited { code: 0 })),
        Event::AttemptSucceeded
    );
}
