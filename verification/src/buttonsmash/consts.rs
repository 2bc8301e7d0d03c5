//! Limits and plain types that the engine shares.

use vstd::prelude::*;
use crate::buttonsmash::shutters::Cmd;
use crate::io::events::{ButtonEvent, Trigger};

verus! {

/// Name of an input line. `0` stands for no physical input.
pub type InIdx = u8;

/// Name of an output line.
pub type OutIdx = u8;

/// Number of a shutter.
pub type ShutterIdx = u8;

/// Number of a layer of bindings.
pub type LayerIdx = u8;

/// Number of a procedure of the program.
pub type ProcIdx = u8;

/// Number of procedures that a program can hold.
pub const MAX_PROCEDURES: usize = 128;

/// Number of registers of the machine.
pub const REGISTERS: usize = 32;

/// Highest layer that a program may push.
pub const MAX_LAYERS: usize = 128;

/// Depth of the layer stack.
pub const MAX_LAYER_STACK: usize = 5;

/// Number of bindings that the table holds.
pub const BINDINGS_COUNT: usize = 30;

/// Depth of the call stack.
pub const MAX_STACK: usize = 3;

/// Number of opcodes that a program can hold.
pub const MAX_OPCODES: usize = 1024;

/// Layer that is current while the layer stack is empty.
pub const DEFAULT_LAYER: LayerIdx = 0;

/// The input that anchors a layer which a program pushed.
pub const VIRTUAL_INPUT: InIdx = 0;

/// What the engine asks of the rest of the node.
#[derive(Clone, Copy, Debug, PartialEq, Eq, Structural)]
pub enum Command {
    /// Invert an output.
    ToggleOutput(OutIdx),
    /// Switch an output on.
    ActivateOutput(OutIdx),
    /// Switch an output off.
    DeactivateOutput(OutIdx),
    /// Enter a layer for as long as the triggering input is held.
    ActivateLayer(LayerIdx),
    /// Leave a layer.
    DeactivateLayer(LayerIdx),
    /// Hand a command to a shutter.
    Shutter(ShutterIdx, Cmd),
    /// Do nothing.
    Noop,
}

/// A change of layer, as other nodes may announce it.
#[derive(Clone, Copy, Debug, PartialEq, Eq, Structural)]
pub enum LayerEvent {
    Activate(u8),
    Deactivate(u8),
}

/// What the engine reacts to.
#[derive(Clone, Copy, Debug, PartialEq, Eq, Structural)]
pub enum Event {
    /// A trigger on an input.
    ButtonEvent(ButtonEvent),
    /// Another node asks for a procedure to run.
    RemoteProcedureCall(ProcIdx),
    /// Another node asks for an output to be inverted.
    RemoteToggle(OutIdx),
    /// Another node asks for an output to be switched on.
    RemoteActivate(OutIdx),
    /// Another node asks for an output to be switched off.
    RemoteDeactivate(OutIdx),
    /// Another node asks for the state of all inputs and outputs.
    RemoteStatusRequest,
}

impl Event {
    pub fn new_button(in_idx: InIdx, trigger: Trigger) -> (event: Self)
        ensures
            event == Event::ButtonEvent(ButtonEvent { switch_id: in_idx, trigger }),
    {
        Event::ButtonEvent(ButtonEvent { switch_id: in_idx, trigger })
    }
}

} // verus!
