use powermon::daemon::{
    daemon_next, daemon_running_verdict, format_pid_record, get_pid_file_path, parse_pid_record,
    start_confirmed, start_plan, start_wait_step, stop_plan, stop_wait_step, DaemonPhase,
    LoopStep, RecordState, StartAction, StopAction, START_ATTEMPTS, STOP_ATTEMPTS,
};
use powermon::error::Error;

#[test]
fn record_round_trip() {
    for pid in [0i32, 1, 42, 12345, 99999, i32::MAX, -1, -12345, i32::MIN] {
        let written = format_pid_record(pid);
        let read = parse_pid_record(written.as_str()).unwrap();
        assert_eq!(read, pid);
    }
}

#[test]
fn record_format_is_plain_decimal() {
    assert_eq!(format_pid_record(12345), "12345");
    assert_eq!(format_pid_record(0), "0");
    assert_eq!(format_pid_record(-7), "-7");
}

#[test]
fn record_parse_ignores_surrounding_whitespace() {
    assert_eq!(parse_pid_record("  12345\n").unwrap(), 12345);
    assert_eq!(parse_pid_record("\t+7 ").unwrap(), 7);
    assert_eq!(parse_pid_record("007").unwrap(), 7);
}

#[test]
fn record_parse_rejects_garbage() {
    assert!(matches!(parse_pid_record(""), Err(Error::PidFileError(_))));
    assert!(matches!(parse_pid_record("  \n"), Err(Error::PidFileError(_))));
    assert!(matches!(parse_pid_record("abc"), Err(Error::PidFileError(_))));
    assert!(matches!(parse_pid_record("12x"), Err(Error::PidFileError(_))));
    assert!(matches!(parse_pid_record("-"), Err(Error::PidFileError(_))));
    assert!(matches!(parse_pid_record("99999999999999"), Err(Error::PidFileError(_))));
    assert!(matches!(parse_pid_record("2147483648"), Err(Error::PidFileError(_))));
    assert_eq!(parse_pid_record("2147483647").unwrap(), i32::MAX);
    assert_eq!(parse_pid_record("-2147483648").unwrap(), i32::MIN);
}

#[test]
fn pid_file_path_under_runtime_dir() {
    let path = get_pid_file_path(Some("/run/user/1000".to_string()), 0);
    assert_eq!(path, "/run/user/1000/powermon.pid");
}

#[test]
fn pid_file_path_uid_fallback() {
    let path = get_pid_file_path(None, 1000);
    assert_eq!(path, "/run/user/1000/powermon.pid");
}

#[test]
fn dead_recorded_process_self_heals() {
    // A record naming a process that is not alive: not running, and the
    // stale record is to be removed.
    let (running, remove) = daemon_running_verdict(RecordState::Recorded(99999), false);
    assert_eq!(running, None);
    assert!(remove);
}

#[test]
fn live_recorded_process_is_running() {
    let (running, remove) = daemon_running_verdict(RecordState::Recorded(4321), true);
    assert_eq!(running, Some(4321));
    assert!(!remove);
}

#[test]
fn missing_record_means_not_running() {
    assert_eq!(daemon_running_verdict(RecordState::Missing, false), (None, false));
    assert_eq!(daemon_running_verdict(RecordState::Unreadable, true), (None, false));
}

#[test]
fn stop_with_no_record_succeeds() {
    assert_eq!(stop_plan(RecordState::Missing, false).unwrap(), StopAction::AlreadyStopped);
}

#[test]
fn stop_plans() {
    assert_eq!(
        stop_plan(RecordState::Recorded(7), false).unwrap(),
        StopAction::RemoveStaleRecord
    );
    assert_eq!(
        stop_plan(RecordState::Recorded(7), true).unwrap(),
        StopAction::SignalAndWait(7)
    );
    assert!(matches!(
        stop_plan(RecordState::Unreadable, true),
        Err(Error::PidFileError(_))
    ));
}

#[test]
fn start_is_idempotent() {
    assert_eq!(start_plan(true), StartAction::AlreadyRunning);
    assert_eq!(start_plan(false), StartAction::Fork);
}

#[test]
fn start_confirmation_requires_the_forked_child() {
    assert!(start_confirmed(RecordState::Recorded(7), 7));
    assert!(!start_confirmed(RecordState::Recorded(8), 7));
    assert!(!start_confirmed(RecordState::Missing, 7));
    assert!(!start_confirmed(RecordState::Unreadable, 7));
}

#[test]
fn start_wait_steps() {
    assert!(matches!(start_wait_step(true, 0), LoopStep::Finish(Ok(()))));
    assert!(matches!(start_wait_step(false, 0), LoopStep::Retry));
    assert!(matches!(
        start_wait_step(false, START_ATTEMPTS - 1),
        LoopStep::Finish(Err(Error::DaemonStartFailed))
    ));
}

#[test]
fn stop_wait_steps() {
    assert!(matches!(stop_wait_step(false, 0), LoopStep::Finish(Ok(()))));
    assert!(matches!(stop_wait_step(true, 0), LoopStep::Retry));
    assert!(matches!(
        stop_wait_step(true, STOP_ATTEMPTS - 1),
        LoopStep::Finish(Err(Error::DaemonStopTimeout))
    ));
}

#[test]
fn daemon_phases_follow_the_lifecycle() {
    let next = |p, ok, shutdown| daemon_next(p, ok, shutdown);
    assert_eq!(next(DaemonPhase::InstallHandlers, true, false), DaemonPhase::OpenDevice);
    assert_eq!(next(DaemonPhase::InstallHandlers, false, false), DaemonPhase::ExitFailure);
    assert_eq!(next(DaemonPhase::OpenDevice, true, false), DaemonPhase::FindPipeline);
    assert_eq!(next(DaemonPhase::FindPipeline, true, false), DaemonPhase::CommitOff);
    assert_eq!(next(DaemonPhase::CommitOff, true, false), DaemonPhase::WriteRecord);
    assert_eq!(next(DaemonPhase::CommitOff, false, false), DaemonPhase::ExitFailure);
    // The display is off; a failure to write the record restores it first.
    assert_eq!(next(DaemonPhase::WriteRecord, false, false), DaemonPhase::RestoreThenFail);
    assert_eq!(next(DaemonPhase::RestoreThenFail, true, false), DaemonPhase::ExitFailure);
    assert_eq!(next(DaemonPhase::WriteRecord, true, false), DaemonPhase::Poll);
    assert_eq!(next(DaemonPhase::Poll, true, false), DaemonPhase::Poll);
    assert_eq!(next(DaemonPhase::Poll, true, true), DaemonPhase::Restore);
    assert_eq!(next(DaemonPhase::Poll, false, false), DaemonPhase::Restore);
    // Cleanup goes on whether or not each of its steps succeeds.
    assert_eq!(next(DaemonPhase::Restore, false, true), DaemonPhase::RemoveRecord);
    assert_eq!(next(DaemonPhase::RemoveRecord, false, true), DaemonPhase::ExitSuccess);
}
