//! Power state and status formatting.

use vstd::prelude::*;

verus! {

/// Logical power state of a display output.  Transitions are treated as
/// instantaneous: no intermediate state is modelled.
#[derive(Debug, Clone, Copy, PartialEq, Eq, Structural)]
pub enum PowerState {
    On,
    Off,
}

/// A status report, ready to be rendered as text or JSON.
#[derive(Debug)]
pub struct StatusOutput {
    pub state: PowerState,
}

/// The exact text that a status report renders to.
pub open spec fn spec_status_text(state: PowerState, json: bool) -> Seq<char> {
    if json {
        match state {
            PowerState::On => "{\"power\":\"on\"}"@,
            PowerState::Off => "{\"power\":\"off\"}"@,
        }
    } else {
        match state {
            PowerState::On => "Display: On\n"@,
            PowerState::Off => "Display: Off\n"@,
        }
    }
}

impl StatusOutput {
    /// Create a status report for the given state.
    pub fn new(state: PowerState) -> (r: StatusOutput)
        ensures
            r.state == state,
    {
        StatusOutput { state }
    }

    /// Render the report: human-readable text, or JSON when `json` is set.
    pub fn format(&self, json: bool) -> (r: String)
        ensures
            r@ == spec_status_text(self.state, json),
    {
        if json {
            match self.state {
                PowerState::On => "{\"power\":\"on\"}".to_owned(),
                PowerState::Off => "{\"power\":\"off\"}".to_owned(),
            }
        } else {
            match self.state {
                PowerState::On => "Display: On\n".to_owned(),
                PowerState::Off => "Display: Off\n".to_owned(),
            }
        }
    }
}

} // verus!
