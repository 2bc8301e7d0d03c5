//! Instructions of the virtual machine.

use vstd::prelude::*;
use crate::buttonsmash::consts::{InIdx, LayerIdx, OutIdx, ProcIdx, ShutterIdx};

verus! {

/// One instruction. Its arguments fit in a bus frame.
#[derive(Clone, Copy, Debug, PartialEq, Eq, Structural)]
pub enum Opcode {
    /// Do nothing.
    Noop,
    /// Label: the procedure of this number starts here.
    Start(u8),
    /// Return from the procedure, or end the run.
    Stop,
    /// Call a procedure.
    Call(u8),
    /// Call the procedure whose number a register holds, so that one button
    /// can step through several actions.
    CallRegister(u8),
    /// Store a value in a register.
    SetRegister(u8, u8),
    /// Invert an output.
    Toggle(OutIdx),
    /// Switch an output on, whatever its state.
    Activate(OutIdx),
    /// Switch an output off, whatever its state.
    Deactivate(OutIdx),
    /// Enter a layer on top of the current one.
    LayerPush(LayerIdx),
    /// Leave the layer that the program entered last.
    LayerPop,
    /// Drop all layers and enter this one.
    LayerSet(LayerIdx),
    /// Drop all layers: back to the default layer.
    LayerDefault,
    /// Remove all bindings.
    BindClearAll,
    /// On the current layer, bind a short click to a procedure.
    BindShortCall(InIdx, ProcIdx),
    /// On the current layer, bind a long click to a procedure.
    BindLongCall(InIdx, ProcIdx),
    /// On the current layer, bind a press to a procedure.
    BindActivateCall(InIdx, ProcIdx),
    /// On the current layer, bind a release to a procedure.
    BindDeactivateCall(InIdx, ProcIdx),
    /// On the current layer, bind a long hold to a procedure.
    BindLongActivate(InIdx, ProcIdx),
    /// On the current layer, bind the release after a long hold to a procedure.
    BindLongDeactivate(InIdx, ProcIdx),
    /// On the current layer, bind a short click to the toggle of an output.
    BindShortToggle(InIdx, OutIdx),
    /// On the current layer, bind a long click to the toggle of an output.
    BindLongToggle(InIdx, OutIdx),
    /// On the current layer, bind a press to a layer that lasts until the release.
    BindLayerHold(InIdx, LayerIdx),
    /// Give a shutter its two outputs: first the one that lowers it, then the
    /// one that raises it.
    BindShutter(ShutterIdx, OutIdx, OutIdx),
    /// Announce the state of all inputs and outputs.
    SendStatus,
}

} // verus!
