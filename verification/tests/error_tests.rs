use powermon::error::{Error, ExitCode};

#[test]
fn exit_code_values() {
    assert_eq!(ExitCode::Success as i32, 0);
    assert_eq!(ExitCode::Error as i32, 1);
    assert_eq!(ExitCode::Usage as i32, 2);
}

#[test]
fn exit_code_from_conversion() {
    assert_eq!(i32::from(ExitCode::Success), 0);
    assert_eq!(i32::from(ExitCode::Error), 1);
    assert_eq!(i32::from(ExitCode::Usage), 2);
}

#[test]
fn all_errors_return_error_exit_code() {
    let errors = [
        Error::UnsupportedEnvironment,
        Error::ProtocolNotSupported,
        Error::NoDisplayFound,
        Error::DaemonStartFailed,
        Error::DaemonStopTimeout,
        Error::ForkError("test".to_string()),
        Error::SignalError("test".to_string()),
        Error::PidFileError("test".to_string()),
        Error::DrmError("test".to_string()),
        Error::SeatError("test".to_string()),
        Error::Io("test".to_string()),
    ];

    for error in errors {
        assert_eq!(
            error.exit_code(),
            ExitCode::Error,
            "Error variant {:?} should return ExitCode::Error",
            error
        );
    }
}

#[test]
fn error_messages_are_non_empty() {
    let errors = [
        Error::UnsupportedEnvironment,
        Error::ProtocolNotSupported,
        Error::NoDisplayFound,
        Error::DaemonStartFailed,
        Error::DaemonStopTimeout,
        Error::ForkError("test".to_string()),
        Error::SignalError("test".to_string()),
        Error::PidFileError("test".to_string()),
        Error::DrmError("test".to_string()),
        Error::SeatError("test".to_string()),
        Error::Io("test".to_string()),
    ];

    for error in errors {
        let message = error.message();
        assert!(
            !message.is_empty(),
            "Error variant {:?} should have a non-empty message",
            error
        );
    }
}

#[test]
fn error_messages_carry_context() {
    assert_eq!(
        Error::ForkError("bad".to_string()).message(),
        "Fork failed: bad"
    );
    assert_eq!(
        Error::Io("closed".to_string()).message(),
        "I/O error: closed"
    );
    assert_eq!(
        Error::DaemonStopTimeout.message(),
        "Daemon did not stop within timeout period"
    );
}
