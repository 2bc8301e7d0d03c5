//! Where the requests of the engine go.

use vstd::prelude::*;
use crate::boards::io_router::IOCommand;
use crate::buttonsmash::consts::{Command, ShutterIdx};
use crate::buttonsmash::microvm::Request;
use crate::buttonsmash::shutters::{Cmd, Drive};
use crate::components::interconnect::WhenFull;
use crate::components::message::Message;
use crate::components::status::Problem;

verus! {

/// What the node does on a request of the engine.
#[derive(Clone, Copy, Debug, PartialEq, Eq, Structural)]
pub enum Dispatch {
    /// Hand the command to the output driver.
    Output(IOCommand),
    /// Hand the command to the shutters.
    Shutter(ShutterIdx, Cmd),
    /// Send the message to all nodes, with this policy for a full queue.
    Broadcast(Message, WhenFull),
    /// Report the state of all inputs and outputs.
    Status,
    /// Count the problem.
    Count(Problem),
    /// Nothing.
    Nothing,
}

/// Where a request goes. A trigger of an input is told to the bus, and
/// waits for room in the queue; a layer is no business of the node.
pub open spec fn spec_dispatch(request: Request) -> Dispatch {
    match request {
        Request::Command(Command::ToggleOutput(out)) => Dispatch::Output(
            IOCommand::ToggleOutput(out),
        ),
        Request::Command(Command::ActivateOutput(out)) => Dispatch::Output(
            IOCommand::ActivateOutput(out),
        ),
        Request::Command(Command::DeactivateOutput(out)) => Dispatch::Output(
            IOCommand::DeactivateOutput(out),
        ),
        Request::Command(Command::Shutter(shutter, cmd)) => Dispatch::Shutter(shutter, cmd),
        Request::Command(_) => Dispatch::Nothing,
        Request::SendStatus => Dispatch::Status,
        Request::InputChanged(button) => Dispatch::Broadcast(
            Message::InputChanged { input: button.switch_id, trigger: button.trigger },
            WhenFull::Wait,
        ),
    }
}

/// What follows a command to an output: a change is told to the bus as
/// far as the queue has room, a failure is counted.
pub open spec fn spec_announce(outcome: Result<Message, Problem>) -> Dispatch {
    match outcome {
        Ok(message) => Dispatch::Broadcast(message, WhenFull::Drop),
        Err(problem) => Dispatch::Count(problem),
    }
}

/// The commands to the outputs that a drive of a shutter stands for, in
/// their order. At a start only the release is commanded: the shutter says
/// what follows once it knows how the release went.
pub open spec fn spec_drive_commands(drive: Drive) -> Seq<IOCommand> {
    match drive {
        Drive::Hold => Seq::empty(),
        Drive::Start { release, engage } => seq![IOCommand::DeactivateOutput(release)],
        Drive::Engage(out) => seq![IOCommand::ActivateOutput(out)],
        Drive::Stop { up, down } => seq![
            IOCommand::DeactivateOutput(up),
            IOCommand::DeactivateOutput(down),
        ],
    }
}

/// Decides where a request goes.
pub fn dispatch(request: Request) -> (to: Dispatch)
    ensures
        to == spec_dispatch(request),
{
    match request {
        Request::Command(command) => match command {
            Command::Shutter(shutter, cmd) => Dispatch::Shutter(shutter, cmd),
            _ => match IOCommand::from_command(command) {
                Some(io) => Dispatch::Output(io),
                None => Dispatch::Nothing,
            },
        },
        Request::SendStatus => Dispatch::Status,
        Request::InputChanged(button) => Dispatch::Broadcast(
            Message::InputChanged { input: button.switch_id, trigger: button.trigger },
            WhenFull::Wait,
        ),
    }
}

/// Decides what follows a command to an output.
pub fn announce(outcome: Result<Message, Problem>) -> (to: Dispatch)
    ensures
        to == spec_announce(outcome),
{
    match outcome {
        Ok(message) => Dispatch::Broadcast(message, WhenFull::Drop),
        Err(problem) => Dispatch::Count(problem),
    }
}

/// The commands to the outputs that a drive of a shutter stands for.
pub fn drive_commands(drive: Drive) -> (commands: Vec<IOCommand>)
    ensures
        commands@ == spec_drive_commands(drive),
{
    let mut commands: Vec<IOCommand> = Vec::new();
    match drive {
        Drive::Hold => {},
        Drive::Start { release, engage: _ } => {
            commands.push(IOCommand::DeactivateOutput(release));
        },
        Drive::Engage(out) => {
            commands.push(IOCommand::ActivateOutput(out));
        },
        Drive::Stop { up, down } => {
            commands.push(IOCommand::DeactivateOutput(up));
            commands.push(IOCommand::DeactivateOutput(down));
        },
    }
    assert(commands@ =~= spec_drive_commands(drive));
    commands
}

} // verus!
