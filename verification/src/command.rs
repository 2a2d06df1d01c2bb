//! What the operator asks for.

use crate::power_state::PowerState;
use vstd::prelude::*;

verus! {

/// The operator's choice: put the stations into a power state, or only show
/// the state they are in.
#[derive(Clone, Copy, Debug, PartialEq, Eq, Structural)]
pub enum Command {
    On,
    Sleep,
    Standby,
    Scan,
}

/// The state that a command asks the stations to enter; `Scan` asks for none.
pub open spec fn target(command: Command) -> Option<PowerState> {
    match command {
        Command::On => Some(PowerState::On),
        Command::Sleep => Some(PowerState::Sleep),
        Command::Standby => Some(PowerState::Standby),
        Command::Scan => None,
    }
}

impl Command {
    /// The state to put the stations into, if the command asks for one.
    pub fn target(self) -> (state: Option<PowerState>)
        ensures
            state == target(self),
    {
        match self {
            Command::On => Some(PowerState::On),
            Command::Sleep => Some(PowerState::Sleep),
            Command::Standby => Some(PowerState::Standby),
            Command::Scan => None,
        }
    }
}

} // verus!
