//! Commands to the outputs of a board.

use vstd::prelude::*;
use crate::buttonsmash::consts::Command;

verus! {

/// Name of an output line.
pub type OutIdx = u8;

/// A command to one output.
#[derive(Clone, Copy, Debug, PartialEq, Eq, Structural)]
pub enum IOCommand {
    /// Invert the output.
    ToggleOutput(OutIdx),
    /// Switch the output on.
    ActivateOutput(OutIdx),
    /// Switch the output off.
    DeactivateOutput(OutIdx),
}

impl IOCommand {
    /// The output that a command is for.
    pub open spec fn spec_output(self) -> OutIdx {
        match self {
            IOCommand::ToggleOutput(out) => out,
            IOCommand::ActivateOutput(out) => out,
            IOCommand::DeactivateOutput(out) => out,
        }
    }

    /// The command to an output that a command of the engine is, if it is one.
    pub open spec fn spec_from_command(command: Command) -> Option<IOCommand> {
        match command {
            Command::ToggleOutput(out) => Some(IOCommand::ToggleOutput(out)),
            Command::ActivateOutput(out) => Some(IOCommand::ActivateOutput(out)),
            Command::DeactivateOutput(out) => Some(IOCommand::DeactivateOutput(out)),
            _ => None,
        }
    }

    /// The output that the command is for.
    pub fn output(&self) -> (out: OutIdx)
        ensures
            out == self.spec_output(),
    {
        match *self {
            IOCommand::ToggleOutput(out) => out,
            IOCommand::ActivateOutput(out) => out,
            IOCommand::DeactivateOutput(out) => out,
        }
    }

    /// The command to an output that a command of the engine is, if it is one.
    pub fn from_command(command: Command) -> (io: Option<IOCommand>)
        ensures
            io == Self::spec_from_command(command),
    {
        match command {
            Command::ToggleOutput(out) => Some(IOCommand::ToggleOutput(out)),
            Command::ActivateOutput(out) => Some(IOCommand::ActivateOutput(out)),
            Command::DeactivateOutput(out) => Some(IOCommand::DeactivateOutput(out)),
            _ => None,
        }
    }
}

} // verus!
