use powermon::error::Error;
use powermon::output::PowerState;
use powermon::tty::{TtyAction, TtyBackend};

#[test]
fn get_power_when_daemon_not_running() {
    let backend = TtyBackend;
    let result = backend.get_power(None);

    assert!(result.is_ok());
    assert_eq!(result.unwrap(), PowerState::On);
}

#[test]
fn get_power_when_daemon_running() {
    let backend = TtyBackend;
    assert_eq!(backend.get_power(Some(4321)).unwrap(), PowerState::Off);
}

#[test]
fn turn_off_twice_starts_one_daemon() {
    let backend = TtyBackend;
    // First request: nothing runs, so the daemon is started.
    assert_eq!(backend.plan_set_power(PowerState::Off, false), TtyAction::StartDaemon);
    // Second request, with the daemon now running: a successful no-op.
    assert_eq!(backend.plan_set_power(PowerState::Off, true), TtyAction::AlreadyDone);
}

#[test]
fn turn_on_without_daemon_is_a_noop() {
    let backend = TtyBackend;
    assert_eq!(backend.plan_set_power(PowerState::On, false), TtyAction::AlreadyDone);
}

#[test]
fn turn_on_with_daemon_stops_it() {
    let backend = TtyBackend;
    assert_eq!(backend.plan_set_power(PowerState::On, true), TtyAction::StopDaemon);
}

#[test]
fn new_passes_the_probe_outcome_through() {
    assert!(TtyBackend::new(None).is_ok());
    let result = TtyBackend::new(Some(Error::DrmError("no device".to_string())));
    assert!(matches!(result, Err(Error::DrmError(_))));
}
