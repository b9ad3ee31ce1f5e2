//! The power-control interface and the command dispatcher.

use vstd::prelude::*;
use crate::cli::Command;
use crate::error::Error;
use crate::output::{spec_status_text, PowerState, StatusOutput};

verus! {

/// What every backend offers: set the displays' power state, and report
/// it.  The graphical and the console backend both implement this; which
/// one serves an invocation is decided once, from the environment.
pub trait PowerBackend {
    /// Put the displays into the given power state.
    fn set_power(&mut self, state: PowerState) -> Result<(), Error>;

    /// Report the displays' current power state.
    fn get_power(&self) -> Result<PowerState, Error>;
}

/// Carry out one command on a backend.  `On` and `Off` produce no output;
/// `Status` renders whatever state the backend reports, in the requested
/// format.  The daemon-internal command is the process shell's own entry
/// and never reaches this dispatcher.
pub fn execute_command<B: PowerBackend>(backend: &mut B, command: Command) -> (r: Result<
    Option<String>,
    Error,
>)
    requires
        !(command is DaemonInternal),
    ensures
        command is On || command is Off ==> (r matches Ok(out) ==> out is None),
        command matches Command::Status { json } ==> (r matches Ok(out) ==> (out matches Some(
            text,
        ) && (text@ == spec_status_text(PowerState::On, json) || text@ == spec_status_text(
            PowerState::Off,
            json,
        )))),
{
    match command {
        Command::On => {
            match backend.set_power(PowerState::On) {
                Ok(()) => Ok(None),
                Err(e) => Err(e),
            }
        },
        Command::Off => {
            match backend.set_power(PowerState::Off) {
                Ok(()) => Ok(None),
                Err(e) => Err(e),
            }
        },
        Command::Status { json } => {
            match backend.get_power() {
                Ok(state) => Ok(Some(StatusOutput::new(state).format(json))),
                Err(e) => Err(e),
            }
        },
        Command::DaemonInternal => vstd::pervasive::unreached(),
    }
}

} // verus!
