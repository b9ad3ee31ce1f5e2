use powermon::cli::{command_from_commands, Cli, Command};

fn args(list: &[&str]) -> Vec<String> {
    list.iter().map(|s| s.to_string()).collect()
}

#[test]
fn parse_command_on() {
    let cli = Cli::try_parse_from(&args(&["dpms", "on"])).unwrap();
    let command = command_from_commands(cli.command);
    assert!(matches!(command, Command::On));
}

#[test]
fn parse_command_off() {
    let cli = Cli::try_parse_from(&args(&["dpms", "off"])).unwrap();
    let command = command_from_commands(cli.command);
    assert!(matches!(command, Command::Off));
}

#[test]
fn parse_command_status() {
    let cli = Cli::try_parse_from(&args(&["dpms", "status"])).unwrap();
    let command = command_from_commands(cli.command);
    if let Command::Status { json } = command {
        assert!(!json, "Expected json to be false");
    } else {
        panic!("Expected Command::Status, got {:?}", command);
    }
}

#[test]
fn parse_command_status_json() {
    let cli = Cli::try_parse_from(&args(&["dpms", "status", "--json"])).unwrap();
    let command = command_from_commands(cli.command);
    if let Command::Status { json } = command {
        assert!(json, "Expected json to be true");
    } else {
        panic!("Expected Command::Status, got {:?}", command);
    }
}

#[test]
fn parse_invalid_command() {
    let result = Cli::try_parse_from(&args(&["dpms", "foo"]));
    assert!(
        result.is_err(),
        "Expected parsing to fail for invalid command"
    );
}

#[test]
fn usage_error_exit_code() {
    let result = Cli::try_parse_from(&args(&["dpms", "invalid"]));
    assert!(result.is_err());

    let err = result.unwrap_err();
    assert_eq!(err.exit_code(), 2, "Usage errors should exit with code 2");
}

#[test]
fn parse_returns_operation() {
    let command = powermon::cli::parse(&args(&["dpms", "daemon-internal"])).unwrap();
    assert!(matches!(command, Command::DaemonInternal));
}

#[test]
fn parse_rejects_trailing_argument() {
    assert!(powermon::cli::parse(&args(&["dpms", "on", "extra"])).is_err());
    assert!(powermon::cli::parse(&args(&["dpms"])).is_err());
    assert!(powermon::cli::parse(&args(&["dpms", "status", "--json", "--json"])).is_err());
}
