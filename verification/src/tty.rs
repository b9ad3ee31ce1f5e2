//! The console backend's decisions.
//!
//! On a bare console the display is off exactly while the daemon process
//! runs.  Turning the display off therefore means starting the daemon,
//! turning it on means stopping it, and a request that finds the display
//! already in the asked-for state succeeds without doing anything.  The
//! observation "does a daemon run" is made by the shell (through the
//! record file and a liveness probe) and handed in as a plain value.

use vstd::prelude::*;
use crate::error::Error;
use crate::output::PowerState;

verus! {

/// The console backend.  It holds no state of its own: all state lives in
/// the daemon process and its record file.
pub struct TtyBackend;

/// What a power request asks the shell to do.
#[derive(Debug, Clone, Copy, PartialEq, Eq, Structural)]
pub enum TtyAction {
    /// The display is already in the requested state: finish with
    /// success, without side effects.
    AlreadyDone,
    /// Spawn the daemon, which turns the display off and keeps it off.
    StartDaemon,
    /// Signal the daemon to restore the display and exit.
    StopDaemon,
}

/// The action a power request maps to, given whether a daemon runs.
pub open spec fn spec_power_plan(state: PowerState, running: bool) -> TtyAction {
    match state {
        PowerState::Off => if running {
            TtyAction::AlreadyDone
        } else {
            TtyAction::StartDaemon
        },
        PowerState::On => if running {
            TtyAction::StopDaemon
        } else {
            TtyAction::AlreadyDone
        },
    }
}

/// Whether a daemon runs after a power request's action is carried out.
pub open spec fn spec_running_after(state: PowerState, running: bool) -> bool {
    match state {
        PowerState::Off => true,
        PowerState::On => false,
    }
}

impl TtyBackend {
    /// Accept the console backend after the shell's device probe: the
    /// probe's failure, if any, is the constructor's failure.  The probe
    /// opens and at once releases the device, so a request fails fast on
    /// permission problems without contending with a running daemon.
    pub fn new(probe: Option<Error>) -> (r: Result<TtyBackend, Error>)
        ensures
            probe is None ==> r is Ok,
            probe matches Some(e) ==> r == Err::<TtyBackend, Error>(e),
    {
        match probe {
            None => Ok(TtyBackend),
            Some(e) => Err(e),
        }
    }

    /// Decide a power request from the observed daemon state.
    pub fn plan_set_power(&self, state: PowerState, running: bool) -> (r: TtyAction)
        ensures
            r == spec_power_plan(state, running),
    {
        match state {
            PowerState::Off => {
                if running {
                    TtyAction::AlreadyDone
                } else {
                    TtyAction::StartDaemon
                }
            },
            PowerState::On => {
                if running {
                    TtyAction::StopDaemon
                } else {
                    TtyAction::AlreadyDone
                }
            },
        }
    }

    /// The observed power state: the display is off exactly while a
    /// daemon runs.  This never fails.
    pub fn get_power(&self, running: Option<i32>) -> (r: Result<PowerState, Error>)
        ensures
            running is Some ==> r == Ok::<PowerState, Error>(PowerState::Off),
            running is None ==> r == Ok::<PowerState, Error>(PowerState::On),
    {
        match running {
            Some(_) => Ok(PowerState::Off),
            None => Ok(PowerState::On),
        }
    }
}

/// Turning the display off twice in a row starts at most one daemon:
/// whatever ran before, after the first request a daemon runs, and the
/// second request plans no action at all — it succeeds as a no-op.
pub proof fn lemma_turn_off_twice(running: bool)
    ensures
        spec_running_after(PowerState::Off, running),
        spec_power_plan(PowerState::Off, spec_running_after(PowerState::Off, running))
            == TtyAction::AlreadyDone,
{
}

/// Turning the display on when no daemon runs plans no action and leaves
/// none running: success without side effects.
pub proof fn lemma_turn_on_when_idle()
    ensures
        spec_power_plan(PowerState::On, false) == TtyAction::AlreadyDone,
        !spec_running_after(PowerState::On, false),
{
}

} // verus!
