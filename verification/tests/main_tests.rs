use powermon::error::{Error, ExitCode};

#[test]
fn error_converts_to_exit_code_1() {
    let error = Error::UnsupportedEnvironment;
    let exit_code = error.exit_code();
    assert_eq!(exit_code, ExitCode::Error);
    assert_eq!(exit_code as i32, 1);
}

#[test]
fn error_has_message() {
    let error = Error::ProtocolNotSupported;
    let message = error.message();
    assert!(message.contains("protocol"));
}

#[test]
fn all_error_variants_map_to_exit_code_1() {
    let errors = vec![
        Error::UnsupportedEnvironment,
        Error::ProtocolNotSupported,
        Error::NoDisplayFound,
        Error::DaemonStartFailed,
        Error::DaemonStopTimeout,
    ];

    for err in errors {
        assert_eq!(
            err.exit_code() as i32,
            1,
            "Error {:?} should exit with code 1",
            err
        );
    }
}
