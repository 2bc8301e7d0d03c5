//! The virtual machine that runs the program of a node.
//!
//! A program is a sequence of opcodes in which `Start(p) ... Stop` holds
//! procedure `p`. Procedure 0 runs once when the program is loaded and sets
//! the node up; the others run when a binding or another node calls them.
//! The machine does not act on the world itself: a run returns the requests
//! that it makes, in their order.
//!
//! A broken program cannot go on. Where the machine meets one it stops the
//! run and reports a [`Fault`]; the node is then to halt.

use vstd::prelude::*;
use crate::buttonsmash::bindings::{bound, first_match, lookup, Action, Binding, BindingList};
use crate::buttonsmash::consts::{
    Command,
    Event,
    InIdx,
    LayerIdx,
    ProcIdx,
    MAX_LAYERS,
    MAX_LAYER_STACK,
    MAX_OPCODES,
    MAX_PROCEDURES,
    MAX_STACK,
    REGISTERS,
    VIRTUAL_INPUT,
};
use crate::buttonsmash::layers::{anchored_by, current_layer, Layers};
use crate::buttonsmash::opcodes::Opcode;
use crate::buttonsmash::program::{
    defect,
    is_start,
    is_stop,
    matched,
    procedure_fits,
    procedures_fit,
    spec_defect,
    well_formed,
    Defect,
};
use crate::buttonsmash::shutters::Cmd;
use crate::io::events::{ButtonEvent, Trigger};

verus! {

/// What a run asks of the rest of the node.
#[derive(Clone, Copy, Debug, PartialEq, Eq, Structural)]
pub enum Request {
    /// Hand a command to the outputs or to the shutters.
    Command(Command),
    /// Announce the state of all inputs and outputs.
    SendStatus,
    /// Tell the bus that an input was triggered.
    InputChanged(ButtonEvent),
}

/// Why a run stopped before its end.
#[derive(Clone, Copy, Debug, PartialEq, Eq, Structural)]
pub enum Fault {
    /// A call went deeper than the call stack.
    StackOverflow,
    /// The run met a `Start`.
    StartOpcode,
    /// The procedure to run is not in the program.
    NoProcedure,
    /// The run left the program without meeting a `Stop`.
    EndOfProgram,
    /// An opcode named a register that the machine does not have.
    BadRegister,
    /// An opcode pushed a layer beyond the highest one.
    BadLayer,
    /// The table of bindings was full.
    BindingsFull,
    /// The stack of layers was full.
    LayersFull,
    /// A binding issued a command that the machine cannot carry out.
    UnboundCommand,
    /// What was to be loaded is no program.
    Malformed(Defect),
}

/// What a run did.
#[derive(Debug)]
pub struct Outcome {
    /// The requests that the run made, in their order.
    pub requests: Vec<Request>,
    /// Why the run stopped before its end, if it did.
    pub fault: Option<Fault>,
}

/// A loaded program: its opcodes and, for each procedure, where it starts.
pub struct Program {
    pub opcodes: Seq<Opcode>,
    /// Offset of `Start(p)` for each `p`; 0 for a procedure that the program
    /// does not hold.
    pub procedures: Seq<usize>,
}

/// What a run can change.
pub struct VmState {
    pub layers: Seq<(InIdx, LayerIdx)>,
    pub bindings: Seq<Binding>,
    pub registers: Seq<u8>,
}

/// What one opcode did.
pub struct Step {
    pub state: VmState,
    pub request: Option<Request>,
    pub fault: Option<Fault>,
}

/// What a run did.
pub struct Run {
    pub state: VmState,
    pub requests: Seq<Request>,
    pub fault: Option<Fault>,
}

/// Offset of the last `Start(proc)` among the first `upto` opcodes, 0 if
/// there is none.
pub open spec fn start_of(opcodes: Seq<Opcode>, proc: int, upto: int) -> usize
    decreases upto,
{
    if upto <= 0 {
        0
    } else if opcodes[upto - 1] == Opcode::Start(proc as u8) {
        (upto - 1) as usize
    } else {
        start_of(opcodes, proc, upto - 1)
    }
}

/// The program that a sequence of opcodes loads as.
pub open spec fn loaded(opcodes: Seq<Opcode>) -> Program {
    Program {
        opcodes,
        procedures: Seq::new(
            MAX_PROCEDURES as nat,
            |proc: int| start_of(opcodes, proc, opcodes.len() as int),
        ),
    }
}

impl VmState {
    /// The state of a new machine.
    pub open spec fn initial() -> VmState {
        VmState {
            layers: Seq::empty(),
            bindings: Seq::empty(),
            registers: Seq::new(REGISTERS as nat, |r: int| 0u8),
        }
    }

    pub open spec fn done(self) -> Step {
        Step { state: self, request: None, fault: None }
    }

    pub open spec fn asks(self, request: Request) -> Step {
        Step { state: self, request: Some(request), fault: None }
    }

    pub open spec fn fails(self, fault: Fault) -> Step {
        Step { state: self, request: None, fault: Some(fault) }
    }

    /// Binds a trigger of an input on the current layer.
    pub open spec fn binds(self, idx: InIdx, trigger: Trigger, action: Action, room: nat) -> Step {
        let binding = Binding { idx, trigger, layer: current_layer(self.layers), action };
        match bound(self.bindings, binding, room) {
            Some(bindings) => (VmState { bindings, ..self }).done(),
            None => self.fails(Fault::BindingsFull),
        }
    }

    /// Enters a layer, anchored by an input.
    pub open spec fn enters(self, input: InIdx, layer: LayerIdx) -> Step {
        if self.layers.len() < MAX_LAYER_STACK {
            (VmState { layers: self.layers.push((input, layer)), ..self }).done()
        } else {
            self.fails(Fault::LayersFull)
        }
    }

    /// What an opcode does that neither calls nor returns. `room` is the
    /// number of bindings that the table holds.
    pub open spec fn applies(self, opcode: Opcode, room: nat) -> Step {
        match opcode {
            Opcode::SetRegister(register, value) => if register < REGISTERS {
                (VmState { registers: self.registers.update(register as int, value), ..self }).done()
            } else {
                self.fails(Fault::BadRegister)
            },
            Opcode::Toggle(out) => self.asks(Request::Command(Command::ToggleOutput(out))),
            Opcode::Activate(out) => self.asks(Request::Command(Command::ActivateOutput(out))),
            Opcode::Deactivate(out) => self.asks(Request::Command(Command::DeactivateOutput(out))),
            Opcode::LayerPush(layer) => if layer > MAX_LAYERS {
                self.fails(Fault::BadLayer)
            } else {
                self.enters(VIRTUAL_INPUT, layer)
            },
            Opcode::LayerPop => if anchored_by(self.layers, VIRTUAL_INPUT) {
                (VmState { layers: self.layers.drop_last(), ..self }).done()
            } else {
                self.done()
            },
            Opcode::LayerSet(layer) => (VmState { layers: seq![(VIRTUAL_INPUT, layer)], ..self }).done(),
            Opcode::LayerDefault => (VmState { layers: Seq::empty(), ..self }).done(),
            Opcode::BindClearAll => (VmState { bindings: Seq::empty(), ..self }).done(),
            Opcode::BindShortCall(idx, proc) => self.binds(
                idx,
                Trigger::ShortClick,
                Action::Proc(proc),
                room,
            ),
            Opcode::BindLongCall(idx, proc) => self.binds(
                idx,
                Trigger::LongClick,
                Action::Proc(proc),
                room,
            ),
            Opcode::BindActivateCall(idx, proc) => self.binds(
                idx,
                Trigger::Activated,
                Action::Proc(proc),
                room,
            ),
            Opcode::BindDeactivateCall(idx, proc) => self.binds(
                idx,
                Trigger::Deactivated,
                Action::Proc(proc),
                room,
            ),
            Opcode::BindLongActivate(idx, proc) => self.binds(
                idx,
                Trigger::LongActivated,
                Action::Proc(proc),
                room,
            ),
            Opcode::BindLongDeactivate(idx, proc) => self.binds(
                idx,
                Trigger::LongDeactivated,
                Action::Proc(proc),
                room,
            ),
            Opcode::BindShortToggle(idx, out) => self.binds(
                idx,
                Trigger::ShortClick,
                Action::Single(Command::ToggleOutput(out)),
                room,
            ),
            Opcode::BindLongToggle(idx, out) => self.binds(
                idx,
                Trigger::LongClick,
                Action::Single(Command::ToggleOutput(out)),
                room,
            ),
            Opcode::BindLayerHold(idx, layer) => self.binds(
                idx,
                Trigger::Activated,
                Action::Single(Command::ActivateLayer(layer)),
                room,
            ),
            Opcode::BindShutter(shutter, down, up) => self.asks(
                Request::Command(Command::Shutter(shutter, Cmd::SetIO(down, up))),
            ),
            Opcode::SendStatus => self.asks(Request::SendStatus),
            _ => self.done(),
        }
    }
}

/// The procedure that a calling opcode calls: `Some(Ok(p))`; `Some(Err(f))`
/// where it cannot tell; `None` for an opcode that does not call.
pub open spec fn callee(opcode: Opcode, registers: Seq<u8>) -> Option<Result<ProcIdx, Fault>> {
    match opcode {
        Opcode::Call(proc) => Some(Ok(proc)),
        Opcode::CallRegister(register) => if register < REGISTERS {
            Some(Ok(registers[register as int]))
        } else {
            Some(Err(Fault::BadRegister))
        },
        _ => None,
    }
}

/// The requests with one more, if there is one.
pub open spec fn with_request(requests: Seq<Request>, request: Option<Request>) -> Seq<Request> {
    match request {
        Some(request) => requests.push(request),
        None => requests,
    }
}

/// The run of a procedure from the opcode after offset `pc` up to its
/// `Stop`, `depth` calls deep, after `requests` were made.
///
/// A call runs the called procedure from the offset that the program holds
/// for it and goes on behind the call. It fails where `MAX_STACK` calls are
/// under way already, and where the machine has no such procedure.
pub open spec fn spec_run(
    program: Program,
    state: VmState,
    pc: int,
    depth: nat,
    requests: Seq<Request>,
    room: nat,
) -> Run
    decreases MAX_STACK - depth, program.opcodes.len() - pc,
{
    let next = pc + 1;
    if pc < 0 || next >= program.opcodes.len() {
        Run { state, requests, fault: Some(Fault::EndOfProgram) }
    } else {
        let opcode = program.opcodes[next];
        match callee(opcode, state.registers) {
            Some(Err(fault)) => Run { state, requests, fault: Some(fault) },
            Some(Ok(proc)) => if depth >= MAX_STACK {
                Run { state, requests, fault: Some(Fault::StackOverflow) }
            } else if proc >= MAX_PROCEDURES {
                Run { state, requests, fault: Some(Fault::NoProcedure) }
            } else {
                let called = spec_run(
                    program,
                    state,
                    program.procedures[proc as int] as int,
                    depth + 1,
                    requests,
                    room,
                );
                if called.fault is Some {
                    called
                } else {
                    spec_run(program, called.state, next, depth, called.requests, room)
                }
            },
            None => match opcode {
                Opcode::Stop => Run { state, requests, fault: None },
                Opcode::Start(_) => Run { state, requests, fault: Some(Fault::StartOpcode) },
                _ => {
                    let step = state.applies(opcode, room);
                    if step.fault is Some {
                        Run { state: step.state, requests, fault: step.fault }
                    } else {
                        spec_run(
                            program,
                            step.state,
                            next,
                            depth,
                            with_request(requests, step.request),
                            room,
                        )
                    }
                },
            },
        }
    }
}

/// Whether a program holds a procedure where it says it starts.
pub open spec fn holds_procedure(program: Program, proc: ProcIdx) -> bool {
    &&& proc < MAX_PROCEDURES
    &&& program.procedures[proc as int] < program.opcodes.len()
    &&& program.opcodes[program.procedures[proc as int] as int] == Opcode::Start(proc)
}

/// The run of a procedure that was called from outside the program.
pub open spec fn spec_execute(
    program: Program,
    state: VmState,
    proc: ProcIdx,
    requests: Seq<Request>,
    room: nat,
) -> Run {
    if holds_procedure(program, proc) {
        spec_run(program, state, program.procedures[proc as int] as int, 0, requests, room)
    } else {
        Run { state, requests, fault: Some(Fault::NoProcedure) }
    }
}

/// What the machine does on a trigger of an input, before it tells the bus.
///
/// A release of the input that anchors the current layer leaves that layer
/// and does nothing else. Any other trigger does what the current layer
/// binds it to, and nothing where the layer binds it to nothing.
pub open spec fn spec_button(program: Program, state: VmState, button: ButtonEvent, room: nat) -> Run {
    let none = Seq::<Request>::empty();
    if button.trigger == Trigger::Deactivated && anchored_by(state.layers, button.switch_id) {
        Run { state: VmState { layers: state.layers.drop_last(), ..state }, requests: none, fault: None }
    } else {
        match lookup(state.bindings, button.switch_id, current_layer(state.layers), button.trigger) {
            None => Run { state, requests: none, fault: None },
            Some(binding) => match binding.action {
                Action::Noop => Run { state, requests: none, fault: None },
                Action::Single(Command::ActivateLayer(layer)) => {
                    let step = state.enters(button.switch_id, layer);
                    Run { state: step.state, requests: none, fault: step.fault }
                },
                Action::Single(Command::DeactivateLayer(_)) => Run {
                    state,
                    requests: none,
                    fault: Some(Fault::UnboundCommand),
                },
                Action::Single(command) => Run {
                    state,
                    requests: seq![Request::Command(command)],
                    fault: None,
                },
                Action::Proc(proc) => spec_execute(program, state, proc, none, room),
            },
        }
    }
}

/// What the machine does on an event.
///
/// A trigger of an input is also told to the bus, after all that it led to,
/// unless the run failed.
pub open spec fn spec_event(program: Program, state: VmState, event: Event, room: nat) -> Run {
    let none = Seq::<Request>::empty();
    match event {
        Event::ButtonEvent(button) => {
            let run = spec_button(program, state, button, room);
            if run.fault is Some {
                run
            } else {
                Run { requests: run.requests.push(Request::InputChanged(button)), ..run }
            }
        },
        Event::RemoteProcedureCall(proc) => spec_execute(program, state, proc, none, room),
        Event::RemoteToggle(out) => Run {
            state,
            requests: seq![Request::Command(Command::ToggleOutput(out))],
            fault: None,
        },
        Event::RemoteActivate(out) => Run {
            state,
            requests: seq![Request::Command(Command::ActivateOutput(out))],
            fault: None,
        },
        Event::RemoteDeactivate(out) => Run {
            state,
            requests: seq![Request::Command(Command::DeactivateOutput(out))],
            fault: None,
        },
        Event::RemoteStatusRequest => Run { state, requests: seq![Request::SendStatus], fault: None },
    }
}

/// What loading a sequence of opcodes does. What is no program is not
/// loaded. A program takes the place of the one that the machine held; its
/// procedure 0 runs, and the machine ends on the default layer.
pub open spec fn spec_load(program: Program, state: VmState, opcodes: Seq<Opcode>, room: nat) -> (
    Program,
    Run,
) {
    let none = Seq::<Request>::empty();
    match spec_defect(opcodes) {
        Some(defect) => (
            program,
            Run { state, requests: none, fault: Some(Fault::Malformed(defect)) },
        ),
        None => {
            let run = spec_execute(loaded(opcodes), state, 0, none, room);
            if run.fault is Some {
                (loaded(opcodes), run)
            } else {
                (
                    loaded(opcodes),
                    Run { state: VmState { layers: Seq::empty(), ..run.state }, ..run },
                )
            }
        },
    }
}

/// The index of a program holds, for every procedure of the program, the
/// offset of its `Start`: a procedure can be run if and only if the program
/// starts it somewhere.
pub proof fn lemma_loaded_holds(opcodes: Seq<Opcode>, proc: ProcIdx)
    requires
        opcodes.len() <= MAX_OPCODES,
        procedures_fit(opcodes),
    ensures
        holds_procedure(loaded(opcodes), proc) <==> exists|at: int|
            0 <= at < opcodes.len() && #[trigger] opcodes[at] == Opcode::Start(proc),
{
    lemma_start_of(opcodes, proc, opcodes.len() as int);
    if exists|at: int| 0 <= at < opcodes.len() && #[trigger] opcodes[at] == Opcode::Start(proc) {
        let at = choose|at: int|
            0 <= at < opcodes.len() && #[trigger] opcodes[at] == Opcode::Start(proc);
        assert(procedure_fits(opcodes[at]));
    }
}

proof fn lemma_start_of(opcodes: Seq<Opcode>, proc: ProcIdx, upto: int)
    requires
        0 <= upto <= opcodes.len() <= MAX_OPCODES,
    ensures
        0 <= start_of(opcodes, proc as int, upto) <= upto,
        start_of(opcodes, proc as int, upto) < upto || upto == 0,
        (exists|at: int| 0 <= at < upto && #[trigger] opcodes[at] == Opcode::Start(proc))
            ==> opcodes[start_of(opcodes, proc as int, upto) as int] == Opcode::Start(proc),
        (forall|at: int| 0 <= at < upto ==> #[trigger] opcodes[at] != Opcode::Start(proc)) ==> start_of(
            opcodes,
            proc as int,
            upto,
        ) == 0,
    decreases upto,
{
    if upto > 0 {
        lemma_start_of(opcodes, proc, upto - 1);
        if opcodes[upto - 1] != Opcode::Start(proc) {
            if exists|at: int| 0 <= at < upto && #[trigger] opcodes[at] == Opcode::Start(proc) {
                let at = choose|at: int|
                    0 <= at < upto && #[trigger] opcodes[at] == Opcode::Start(proc);
                assert(at < upto - 1);
            }
        }
    }
}

/// The release of the input that anchors the current layer leaves that
/// layer, so that the stack is one layer less deep, and does nothing else:
/// no binding is looked up, no command is issued, nothing else changes. The
/// bus is told of the release as of any trigger.
pub proof fn lemma_release_leaves_layer(program: Program, state: VmState, input: InIdx, room: nat)
    requires
        anchored_by(state.layers, input),
    ensures
        ({
            let button = ButtonEvent { switch_id: input, trigger: Trigger::Deactivated };
            let run = spec_event(program, state, Event::ButtonEvent(button), room);
            &&& run.fault is None
            &&& run.state.layers == state.layers.drop_last()
            &&& run.state.layers.len() == state.layers.len() - 1
            &&& run.state.bindings == state.bindings
            &&& run.state.registers == state.registers
            &&& run.requests == seq![Request::InputChanged(button)]
        }),
{
    let button = ButtonEvent { switch_id: input, trigger: Trigger::Deactivated };
    let run = spec_event(program, state, Event::ButtonEvent(button), room);
    assert(run.requests =~= seq![Request::InputChanged(button)]);
}

/// A press of a button that is bound to a layer enters that layer with the
/// button as its anchor, so that the release of the same button leaves it
/// again: after both the stack is as before.
pub proof fn lemma_hold_enters_and_leaves(
    program: Program,
    state: VmState,
    input: InIdx,
    layer: LayerIdx,
    room: nat,
)
    requires
        state.layers.len() < MAX_LAYER_STACK,
        lookup(state.bindings, input, current_layer(state.layers), Trigger::Activated) matches Some(
            binding,
        ) && binding.action == Action::Single(Command::ActivateLayer(layer)),
    ensures
        ({
            let press = ButtonEvent { switch_id: input, trigger: Trigger::Activated };
            let release = ButtonEvent { switch_id: input, trigger: Trigger::Deactivated };
            let held = spec_event(program, state, Event::ButtonEvent(press), room);
            let left = spec_event(program, held.state, Event::ButtonEvent(release), room);
            &&& held.fault is None
            &&& held.state.layers == state.layers.push((input, layer))
            &&& current_layer(held.state.layers) == layer
            &&& left.fault is None
            &&& left.state.layers == state.layers
            &&& left.state.bindings == state.bindings
        }),
{
    let press = ButtonEvent { switch_id: input, trigger: Trigger::Activated };
    let held = spec_event(program, state, Event::ButtonEvent(press), room);
    assert(held.state.layers == state.layers.push((input, layer)));
    assert(held.state.layers.drop_last() =~= state.layers);
    lemma_release_leaves_layer(program, held.state, input, room);
}

/// A trigger that is bound to nothing, or to a single command for an
/// output or a shutter, leaves the stack of layers alone unless it is the
/// release of the input that anchors the current layer.
pub proof fn lemma_other_input_keeps_layer(
    program: Program,
    state: VmState,
    button: ButtonEvent,
    room: nat,
)
    requires
        !(button.trigger == Trigger::Deactivated && anchored_by(state.layers, button.switch_id)),
        match lookup(state.bindings, button.switch_id, current_layer(state.layers), button.trigger) {
            Some(binding) => match binding.action {
                Action::Proc(_) => false,
                Action::Single(Command::ActivateLayer(_)) => false,
                _ => true,
            },
            None => true,
        },
    ensures
        spec_event(program, state, Event::ButtonEvent(button), room).state == state,
{
}

/// Whether a table of bindings holds only what the machine can carry out:
/// no binding issues `DeactivateLayer`.
pub open spec fn bindable(bindings: Seq<Binding>) -> bool {
    forall|at: int|
        0 <= at < bindings.len() ==> !((#[trigger] bindings[at]).action matches Action::Single(
            Command::DeactivateLayer(_),
        ))
}

proof fn lemma_binds_bindable(state: VmState, idx: InIdx, trigger: Trigger, action: Action, room: nat)
    requires
        bindable(state.bindings),
        !(action matches Action::Single(Command::DeactivateLayer(_))),
    ensures
        bindable(state.binds(idx, trigger, action, room).state.bindings),
{
    let before = state.bindings;
    let binding = Binding { idx, trigger, layer: current_layer(state.layers), action };
    let after = state.binds(idx, trigger, action, room).state.bindings;
    crate::buttonsmash::bindings::lemma_find_from(
        before,
        idx,
        Some(binding.layer),
        Some(trigger),
        0,
    );
    assert forall|at: int| 0 <= at < after.len() implies !((#[trigger] after[at]).action matches Action::Single(
        Command::DeactivateLayer(_),
    )) by {
        if after[at] != binding {
            assert(0 <= at < before.len() && after[at] == before[at]);
            assert(!(before[at].action matches Action::Single(Command::DeactivateLayer(_))));
        }
    }
}

proof fn lemma_applies_bindable(state: VmState, opcode: Opcode, room: nat)
    requires
        bindable(state.bindings),
    ensures
        bindable(state.applies(opcode, room).state.bindings),
        state.applies(opcode, room).fault != Some(Fault::UnboundCommand),
        state.applies(opcode, room).fault != Some(Fault::EndOfProgram),
{
    match opcode {
        Opcode::BindShortCall(idx, proc) => lemma_binds_bindable(
            state,
            idx,
            Trigger::ShortClick,
            Action::Proc(proc),
            room,
        ),
        Opcode::BindLongCall(idx, proc) => lemma_binds_bindable(
            state,
            idx,
            Trigger::LongClick,
            Action::Proc(proc),
            room,
        ),
        Opcode::BindActivateCall(idx, proc) => lemma_binds_bindable(
            state,
            idx,
            Trigger::Activated,
            Action::Proc(proc),
            room,
        ),
        Opcode::BindDeactivateCall(idx, proc) => lemma_binds_bindable(
            state,
            idx,
            Trigger::Deactivated,
            Action::Proc(proc),
            room,
        ),
        Opcode::BindLongActivate(idx, proc) => lemma_binds_bindable(
            state,
            idx,
            Trigger::LongActivated,
            Action::Proc(proc),
            room,
        ),
        Opcode::BindLongDeactivate(idx, proc) => lemma_binds_bindable(
            state,
            idx,
            Trigger::LongDeactivated,
            Action::Proc(proc),
            room,
        ),
        Opcode::BindShortToggle(idx, out) => lemma_binds_bindable(
            state,
            idx,
            Trigger::ShortClick,
            Action::Single(Command::ToggleOutput(out)),
            room,
        ),
        Opcode::BindLongToggle(idx, out) => lemma_binds_bindable(
            state,
            idx,
            Trigger::LongClick,
            Action::Single(Command::ToggleOutput(out)),
            room,
        ),
        Opcode::BindLayerHold(idx, layer) => lemma_binds_bindable(
            state,
            idx,
            Trigger::Activated,
            Action::Single(Command::ActivateLayer(layer)),
            room,
        ),
        _ => {},
    }
}

/// Whether a `Stop` or a `Start` stands behind an offset of a program.
pub open spec fn ends_behind(opcodes: Seq<Opcode>, pc: int) -> bool {
    exists|at: int| pc < at && (#[trigger] is_stop(opcodes, at) || is_start(opcodes, at))
}

/// A run of a program never leaves the program, and never meets a command
/// that it cannot carry out, as long as the table of bindings held none
/// when it began; nor does the table hold one when it ends.
#[verifier::rlimit(50)]
proof fn lemma_run_is_sound(
    opcodes: Seq<Opcode>,
    state: VmState,
    pc: int,
    depth: nat,
    requests: Seq<Request>,
    room: nat,
)
    requires
        well_formed(opcodes),
        bindable(state.bindings),
        0 <= pc,
        ends_behind(opcodes, pc),
        ends_behind(opcodes, 0),
    ensures
        bindable(spec_run(loaded(opcodes), state, pc, depth, requests, room).state.bindings),
        spec_run(loaded(opcodes), state, pc, depth, requests, room).fault != Some(
            Fault::EndOfProgram,
        ),
        spec_run(loaded(opcodes), state, pc, depth, requests, room).fault != Some(
            Fault::UnboundCommand,
        ),
    decreases MAX_STACK - depth, opcodes.len() - pc,
{
    let program = loaded(opcodes);
    let next = pc + 1;
    let end = choose|at: int| pc < at && (#[trigger] is_stop(opcodes, at) || is_start(opcodes, at));
    assert(next < opcodes.len());
    let opcode = opcodes[next];
    match callee(opcode, state.registers) {
        Some(Ok(proc)) => {
            assert(!is_stop(opcodes, next) && !is_start(opcodes, next));
            assert(is_stop(opcodes, end) || is_start(opcodes, end));
            if depth < MAX_STACK && proc < MAX_PROCEDURES {
                let start = program.procedures[proc as int] as int;
                lemma_start_of(opcodes, proc, opcodes.len() as int);
                if opcodes[start] == Opcode::Start(proc) {
                    assert(is_start(opcodes, start));
                    assert(matched(opcodes, start));
                    let stop = choose|stop: int|
                        #![trigger is_stop(opcodes, stop)]
                        is_stop(opcodes, stop) && start < stop && forall|k: int|
                            start < k < stop ==> !#[trigger] is_start(opcodes, k);
                    assert(is_stop(opcodes, stop) || is_start(opcodes, stop));
                } else {
                    assert(start == 0);
                }
                lemma_run_is_sound(opcodes, state, start, depth + 1, requests, room);
                let called = spec_run(program, state, start, depth + 1, requests, room);
                if called.fault is None {
                    lemma_run_is_sound(opcodes, called.state, next, depth, called.requests, room);
                }
            }
        },
        Some(Err(_)) => {},
        None => {
            match opcode {
                Opcode::Stop => {},
                Opcode::Start(_) => {},
                _ => {
                    assert(!is_stop(opcodes, next) && !is_start(opcodes, next));
                    assert(is_stop(opcodes, end) || is_start(opcodes, end));
                    let step = state.applies(opcode, room);
                    lemma_applies_bindable(state, opcode, room);
                    if step.fault is None {
                        lemma_run_is_sound(
                            opcodes,
                            step.state,
                            next,
                            depth,
                            with_request(requests, step.request),
                            room,
                        );
                    }
                },
            }
        },
    }
}

/// Whatever event a machine with a program meets, the run does not leave
/// the program and does not meet a binding that it cannot carry out, and
/// neither does any later one: the two faults `EndOfProgram` and
/// `UnboundCommand` stay out as long as programs are loaded and bindings are
/// made by programs only.
pub proof fn lemma_event_is_sound(opcodes: Seq<Opcode>, state: VmState, event: Event, room: nat)
    requires
        well_formed(opcodes),
        bindable(state.bindings),
    ensures
        bindable(spec_event(loaded(opcodes), state, event, room).state.bindings),
        spec_event(loaded(opcodes), state, event, room).fault != Some(Fault::EndOfProgram),
        spec_event(loaded(opcodes), state, event, room).fault != Some(Fault::UnboundCommand),
{
    let program = loaded(opcodes);
    match event {
        Event::ButtonEvent(button) => {
            if !(button.trigger == Trigger::Deactivated && anchored_by(
                state.layers,
                button.switch_id,
            )) {
                let found = lookup(
                    state.bindings,
                    button.switch_id,
                    current_layer(state.layers),
                    button.trigger,
                );
                crate::buttonsmash::bindings::lemma_find_from(
                    state.bindings,
                    button.switch_id,
                    Some(current_layer(state.layers)),
                    Some(button.trigger),
                    0,
                );
                match found {
                    Some(binding) => {
                        match binding.action {
                            Action::Proc(proc) => {
                                lemma_execute_is_sound(opcodes, state, proc, Seq::empty(), room);
                            },
                            _ => {},
                        }
                    },
                    None => {},
                }
            }
        },
        Event::RemoteProcedureCall(proc) => {
            lemma_execute_is_sound(opcodes, state, proc, Seq::empty(), room);
        },
        _ => {},
    }
}

/// The same of a procedure that is run from outside the program, and of
/// the loading of the program itself.
pub proof fn lemma_execute_is_sound(
    opcodes: Seq<Opcode>,
    state: VmState,
    proc: ProcIdx,
    requests: Seq<Request>,
    room: nat,
)
    requires
        well_formed(opcodes),
        bindable(state.bindings),
    ensures
        bindable(spec_execute(loaded(opcodes), state, proc, requests, room).state.bindings),
        spec_execute(loaded(opcodes), state, proc, requests, room).fault != Some(
            Fault::EndOfProgram,
        ),
        spec_execute(loaded(opcodes), state, proc, requests, room).fault != Some(
            Fault::UnboundCommand,
        ),
        bindable(spec_load(loaded(opcodes), state, opcodes, room).1.state.bindings),
        spec_load(loaded(opcodes), state, opcodes, room).1.fault != Some(Fault::EndOfProgram),
        spec_load(loaded(opcodes), state, opcodes, room).1.fault != Some(Fault::UnboundCommand),
{
    lemma_held_is_sound(opcodes, state, proc, requests, room);
    lemma_held_is_sound(opcodes, state, 0, Seq::empty(), room);
}

proof fn lemma_held_is_sound(
    opcodes: Seq<Opcode>,
    state: VmState,
    proc: ProcIdx,
    requests: Seq<Request>,
    room: nat,
)
    requires
        well_formed(opcodes),
        bindable(state.bindings),
    ensures
        bindable(spec_execute(loaded(opcodes), state, proc, requests, room).state.bindings),
        spec_execute(loaded(opcodes), state, proc, requests, room).fault != Some(
            Fault::EndOfProgram,
        ),
        spec_execute(loaded(opcodes), state, proc, requests, room).fault != Some(
            Fault::UnboundCommand,
        ),
{
    let program = loaded(opcodes);
    if holds_procedure(program, proc) {
        let start = program.procedures[proc as int] as int;
        assert(is_start(opcodes, start));
        assert(matched(opcodes, start));
        let stop = choose|stop: int|
            #![trigger is_stop(opcodes, stop)]
            is_stop(opcodes, stop) && start < stop && forall|k: int|
                start < k < stop ==> !#[trigger] is_start(opcodes, k);
        assert(is_stop(opcodes, stop) || is_start(opcodes, stop));
        assert(ends_behind(opcodes, start));
        assert(ends_behind(opcodes, 0));
        lemma_run_is_sound(opcodes, state, start, 0, requests, room);
    }
}

/// The machine, with room for `BINDINGS` bindings.
pub struct Executor<const BINDINGS: usize> {
    layers: Layers,
    bindings: BindingList<BINDINGS>,
    opcodes: Vec<Opcode>,
    /// Offset of `Start(p)` for each procedure `p`.
    procedures: [usize; 128],
    /// Registers that hold numbers of procedures.
    registers: [u8; 32],
}

impl<const BINDINGS: usize> Executor<BINDINGS> {
    /// The program that the machine holds.
    pub closed spec fn program(&self) -> Program {
        Program { opcodes: self.opcodes@, procedures: self.procedures@ }
    }

    /// The layers, bindings and registers of the machine.
    pub closed spec fn state(&self) -> VmState {
        VmState { layers: self.layers@, bindings: self.bindings@, registers: self.registers@ }
    }

    /// Whether the machine went from `before` to `self` as a run says, with
    /// the program untouched, and reported what the run did.
    pub open spec fn ran(&self, before: &Self, run: Run, outcome: Outcome) -> bool {
        &&& self.program() == before.program()
        &&& self.state() == run.state
        &&& outcome.requests@ == run.requests
        &&& outcome.fault == run.fault
    }

    /// A machine without a program, on the default layer, with no bindings
    /// and all registers 0.
    pub fn new() -> (vm: Self)
        ensures
            vm.state() == VmState::initial(),
            vm.program() == loaded(Seq::empty()),
    {
        let vm = Executor {
            layers: Layers::new(),
            bindings: BindingList::new(),
            opcodes: Vec::new(),
            procedures: [0usize;128],
            registers: [0u8;32],
        };
        assert(vm.registers@ =~= VmState::initial().registers);
        assert(vm.procedures@ =~= loaded(Seq::empty()).procedures);
        vm
    }

    /// The current layer.
    pub fn current_layer(&self) -> (layer: LayerIdx)
        ensures
            layer == current_layer(self.state().layers),
    {
        self.layers.current()
    }

    /// The stack of layers.
    pub fn layers(&self) -> (layers: &Layers)
        ensures
            layers@ == self.state().layers,
    {
        &self.layers
    }

    /// The table of bindings.
    pub fn bindings(&self) -> (bindings: &BindingList<BINDINGS>)
        ensures
            bindings@ == self.state().bindings,
    {
        &self.bindings
    }

    /// What a register holds; `None` for a register that the machine does
    /// not have.
    pub fn register(&self, register: u8) -> (value: Option<u8>)
        ensures
            value == if register < REGISTERS {
                Some(self.state().registers[register as int])
            } else {
                None
            },
    {
        if (register as usize) < REGISTERS {
            Some(self.registers[register as usize])
        } else {
            None
        }
    }

    /// Finds where each procedure of the program starts.
    fn index_code(&mut self)
        requires
            procedures_fit(old(self).opcodes@),
        ensures
            final(self).program() == loaded(old(self).opcodes@),
            final(self).state() == old(self).state(),
    {
        self.procedures = [0usize;128];
        let mut at: usize = 0;
        while at < self.opcodes.len()
            invariant
                at <= self.opcodes@.len(),
                self.opcodes@ == old(self).opcodes@,
                self.state() == old(self).state(),
                procedures_fit(self.opcodes@),
                forall|proc: int|
                    0 <= proc < MAX_PROCEDURES ==> (#[trigger] self.procedures[proc]) == start_of(
                        self.opcodes@,
                        proc,
                        at as int,
                    ),
            decreases self.opcodes@.len() - at,
        {
            let opcode = self.opcodes[at];
            assert(procedure_fits(self.opcodes@[at as int]));
            if let Opcode::Start(proc) = opcode {
                self.procedures[proc as usize] = at;
            }
            at += 1;
        }
        assert(self.procedures@ =~= loaded(self.opcodes@).procedures);
    }

    fn bind(&mut self, idx: InIdx, trigger: Trigger, action: Action) -> (fault: Option<Fault>)
        ensures
            final(self).program() == old(self).program(),
            final(self).state() == old(self).state().binds(
                idx,
                trigger,
                action,
                BINDINGS as nat,
            ).state,
            fault == old(self).state().binds(idx, trigger, action, BINDINGS as nat).fault,
    {
        let binding = Binding { idx, trigger, layer: self.layers.current(), action };
        match self.bindings.bind(binding) {
            Ok(_) => None,
            Err(_) => Some(Fault::BindingsFull),
        }
    }

    fn enter(&mut self, input: InIdx, layer: LayerIdx) -> (fault: Option<Fault>)
        ensures
            final(self).program() == old(self).program(),
            final(self).state() == old(self).state().enters(input, layer).state,
            fault == old(self).state().enters(input, layer).fault,
    {
        if self.layers.activate(input, layer) {
            None
        } else {
            Some(Fault::LayersFull)
        }
    }

    /// Carries out an opcode that neither calls nor returns.
    fn apply(&mut self, opcode: Opcode) -> (step: (Option<Request>, Option<Fault>))
        ensures
            final(self).program() == old(self).program(),
            final(self).state() == old(self).state().applies(opcode, BINDINGS as nat).state,
            step.0 == old(self).state().applies(opcode, BINDINGS as nat).request,
            step.1 == old(self).state().applies(opcode, BINDINGS as nat).fault,
    {
        match opcode {
            Opcode::SetRegister(register, value) => {
                if (register as usize) < REGISTERS {
                    self.registers[register as usize] = value;
                    (None, None)
                } else {
                    (None, Some(Fault::BadRegister))
                }
            },
            Opcode::Toggle(out) => (Some(Request::Command(Command::ToggleOutput(out))), None),
            Opcode::Activate(out) => (Some(Request::Command(Command::ActivateOutput(out))), None),
            Opcode::Deactivate(out) => (
                Some(Request::Command(Command::DeactivateOutput(out))),
                None,
            ),
            Opcode::LayerPush(layer) => {
                if layer as usize > MAX_LAYERS {
                    (None, Some(Fault::BadLayer))
                } else {
                    (None, self.enter(VIRTUAL_INPUT, layer))
                }
            },
            Opcode::LayerPop => {
                self.layers.maybe_deactivate(VIRTUAL_INPUT);
                (None, None)
            },
            Opcode::LayerSet(layer) => {
                self.layers.reset();
                self.layers.activate(VIRTUAL_INPUT, layer);
                assert(self.layers@ =~= seq![(VIRTUAL_INPUT, layer)]);
                (None, None)
            },
            Opcode::LayerDefault => {
                self.layers.reset();
                (None, None)
            },
            Opcode::BindClearAll => {
                self.bindings.clear();
                (None, None)
            },
            Opcode::BindShortCall(idx, proc) => (
                None,
                self.bind(idx, Trigger::ShortClick, Action::Proc(proc)),
            ),
            Opcode::BindLongCall(idx, proc) => (
                None,
                self.bind(idx, Trigger::LongClick, Action::Proc(proc)),
            ),
            Opcode::BindActivateCall(idx, proc) => (
                None,
                self.bind(idx, Trigger::Activated, Action::Proc(proc)),
            ),
            Opcode::BindDeactivateCall(idx, proc) => (
                None,
                self.bind(idx, Trigger::Deactivated, Action::Proc(proc)),
            ),
            Opcode::BindLongActivate(idx, proc) => (
                None,
                self.bind(idx, Trigger::LongActivated, Action::Proc(proc)),
            ),
            Opcode::BindLongDeactivate(idx, proc) => (
                None,
                self.bind(idx, Trigger::LongDeactivated, Action::Proc(proc)),
            ),
            Opcode::BindShortToggle(idx, out) => (
                None,
                self.bind(idx, Trigger::ShortClick, Action::Single(Command::ToggleOutput(out))),
            ),
            Opcode::BindLongToggle(idx, out) => (
                None,
                self.bind(idx, Trigger::LongClick, Action::Single(Command::ToggleOutput(out))),
            ),
            Opcode::BindLayerHold(idx, layer) => (
                None,
                self.bind(idx, Trigger::Activated, Action::Single(Command::ActivateLayer(layer))),
            ),
            Opcode::BindShutter(shutter, down, up) => (
                Some(Request::Command(Command::Shutter(shutter, Cmd::SetIO(down, up)))),
                None,
            ),
            Opcode::SendStatus => (Some(Request::SendStatus), None),
            _ => (None, None),
        }
    }

    /// The procedure that a calling opcode calls.
    fn callee(&self, opcode: Opcode) -> (target: Option<Result<ProcIdx, Fault>>)
        ensures
            target == callee(opcode, self.state().registers),
    {
        match opcode {
            Opcode::Call(proc) => Some(Ok(proc)),
            Opcode::CallRegister(register) => {
                if (register as usize) < REGISTERS {
                    Some(Ok(self.registers[register as usize]))
                } else {
                    Some(Err(Fault::BadRegister))
                }
            },
            _ => None,
        }
    }

    /// Runs from the opcode after `start` up to the `Stop` of the procedure.
    fn run(&mut self, start: usize, depth: usize, requests: &mut Vec<Request>) -> (fault: Option<
        Fault,
    >)
        requires
            depth <= MAX_STACK,
        ensures
            final(self).program() == old(self).program(),
            ({
                let run = spec_run(
                    old(self).program(),
                    old(self).state(),
                    start as int,
                    depth as nat,
                    old(requests)@,
                    BINDINGS as nat,
                );
                &&& final(self).state() == run.state
                &&& final(requests)@ == run.requests
                &&& fault == run.fault
            }),
        decreases MAX_STACK - depth,
    {
        let ghost program = self.program();
        let ghost whole = spec_run(
            program,
            self.state(),
            start as int,
            depth as nat,
            requests@,
            BINDINGS as nat,
        );
        let mut pc = start;
        loop
            invariant
                depth <= MAX_STACK,
                program == old(self).program(),
                whole == spec_run(
                    program,
                    old(self).state(),
                    start as int,
                    depth as nat,
                    old(requests)@,
                    BINDINGS as nat,
                ),
                self.program() == program,
                whole == spec_run(
                    program,
                    self.state(),
                    pc as int,
                    depth as nat,
                    requests@,
                    BINDINGS as nat,
                ),
            decreases self.opcodes@.len() - pc,
        {
            if pc >= self.opcodes.len() || pc + 1 >= self.opcodes.len() {
                return Some(Fault::EndOfProgram);
            }
            pc = pc + 1;
            let opcode = self.opcodes[pc];
            match self.callee(opcode) {
                Some(Err(fault)) => {
                    return Some(fault);
                },
                Some(Ok(proc)) => {
                    if depth >= MAX_STACK {
                        return Some(Fault::StackOverflow);
                    }
                    if proc as usize >= MAX_PROCEDURES {
                        return Some(Fault::NoProcedure);
                    }
                    let target = self.procedures[proc as usize];
                    let fault = self.run(target, depth + 1, requests);
                    if fault.is_some() {
                        return fault;
                    }
                },
                None => {
                    match opcode {
                        Opcode::Stop => {
                            return None;
                        },
                        Opcode::Start(_) => {
                            return Some(Fault::StartOpcode);
                        },
                        _ => {
                            let (request, fault) = self.apply(opcode);
                            if fault.is_some() {
                                return fault;
                            }
                            if let Some(request) = request {
                                requests.push(request);
                            }
                        },
                    }
                },
            }
        }
    }

    /// Runs a procedure and adds its requests to those made so far.
    fn execute_into(&mut self, proc: ProcIdx, requests: &mut Vec<Request>) -> (fault: Option<Fault>)
        ensures
            final(self).program() == old(self).program(),
            ({
                let run = spec_execute(
                    old(self).program(),
                    old(self).state(),
                    proc,
                    old(requests)@,
                    BINDINGS as nat,
                );
                &&& final(self).state() == run.state
                &&& final(requests)@ == run.requests
                &&& fault == run.fault
            }),
    {
        if proc as usize >= MAX_PROCEDURES {
            return Some(Fault::NoProcedure);
        }
        let start = self.procedures[proc as usize];
        if start >= self.opcodes.len() {
            return Some(Fault::NoProcedure);
        }
        if self.opcodes[start] != Opcode::Start(proc) {
            return Some(Fault::NoProcedure);
        }
        self.run(start, 0, requests)
    }

    /// Runs a procedure. The run stops at a fault.
    pub fn try_execute(&mut self, proc: ProcIdx) -> (outcome: Outcome)
        ensures
            final(self).ran(
                old(self),
                spec_execute(
                    old(self).program(),
                    old(self).state(),
                    proc,
                    Seq::empty(),
                    BINDINGS as nat,
                ),
                outcome,
            ),
    {
        let mut requests: Vec<Request> = Vec::new();
        let fault = self.execute_into(proc, &mut requests);
        Outcome { requests, fault }
    }

    /// Runs a procedure of a program that runs it without a fault.
    pub fn execute(&mut self, proc: ProcIdx) -> (requests: Vec<Request>)
        requires
            spec_execute(
                old(self).program(),
                old(self).state(),
                proc,
                Seq::empty(),
                BINDINGS as nat,
            ).fault is None,
        ensures
            final(self).ran(
                old(self),
                spec_execute(
                    old(self).program(),
                    old(self).state(),
                    proc,
                    Seq::empty(),
                    BINDINGS as nat,
                ),
                Outcome { requests, fault: None },
            ),
    {
        let outcome = self.try_execute(proc);
        outcome.requests
    }

    /// Acts on a trigger of an input, short of telling the bus.
    fn button(&mut self, button: ButtonEvent, requests: &mut Vec<Request>) -> (fault: Option<Fault>)
        requires
            old(requests)@.len() == 0,
        ensures
            final(self).program() == old(self).program(),
            ({
                let run = spec_button(
                    old(self).program(),
                    old(self).state(),
                    button,
                    BINDINGS as nat,
                );
                &&& final(self).state() == run.state
                &&& final(requests)@ == run.requests
                &&& fault == run.fault
            }),
    {
        assert(requests@ =~= Seq::<Request>::empty());
        if button.trigger == Trigger::Deactivated && self.layers.maybe_deactivate(button.switch_id) {
            return None;
        }
        let found = self.bindings.filter(
            button.switch_id,
            Some(self.layers.current()),
            Some(button.trigger),
        );
        match found {
            None => None,
            Some(binding) => match binding.action {
                Action::Noop => None,
                Action::Single(command) => match command {
                    Command::ActivateLayer(layer) => self.enter(button.switch_id, layer),
                    Command::DeactivateLayer(_) => Some(Fault::UnboundCommand),
                    _ => {
                        requests.push(Request::Command(command));
                        assert(requests@ =~= seq![Request::Command(command)]);
                        None
                    },
                },
                Action::Proc(proc) => self.execute_into(proc, requests),
            },
        }
    }

    /// Acts on an event. The run stops at a fault.
    pub fn try_parse_event(&mut self, event: &Event) -> (outcome: Outcome)
        ensures
            final(self).ran(
                old(self),
                spec_event(old(self).program(), old(self).state(), *event, BINDINGS as nat),
                outcome,
            ),
    {
        let mut requests: Vec<Request> = Vec::new();
        let fault = match *event {
            Event::ButtonEvent(button) => {
                let fault = self.button(button, &mut requests);
                if fault.is_none() {
                    requests.push(Request::InputChanged(button));
                }
                fault
            },
            Event::RemoteProcedureCall(proc) => self.execute_into(proc, &mut requests),
            Event::RemoteToggle(out) => {
                requests.push(Request::Command(Command::ToggleOutput(out)));
                None
            },
            Event::RemoteActivate(out) => {
                requests.push(Request::Command(Command::ActivateOutput(out)));
                None
            },
            Event::RemoteDeactivate(out) => {
                requests.push(Request::Command(Command::DeactivateOutput(out)));
                None
            },
            Event::RemoteStatusRequest => {
                requests.push(Request::SendStatus);
                None
            },
        };
        proof {
            let run = spec_event(old(self).program(), old(self).state(), *event, BINDINGS as nat);
            assert(requests@ =~= run.requests);
        }
        Outcome { requests, fault }
    }

    /// Acts on an event that the program handles without a fault.
    pub fn parse_event(&mut self, event: &Event) -> (requests: Vec<Request>)
        requires
            spec_event(
                old(self).program(),
                old(self).state(),
                *event,
                BINDINGS as nat,
            ).fault is None,
        ensures
            final(self).ran(
                old(self),
                spec_event(old(self).program(), old(self).state(), *event, BINDINGS as nat),
                Outcome { requests, fault: None },
            ),
    {
        let outcome = self.try_parse_event(event);
        outcome.requests
    }

    /// Loads a program and runs its procedure 0. The run stops at a fault.
    pub fn try_load_static(&mut self, program: &[Opcode]) -> (outcome: Outcome)
        ensures
            outcome.fault is None ==> well_formed(program@),
            ({
                let load = spec_load(
                    old(self).program(),
                    old(self).state(),
                    program@,
                    BINDINGS as nat,
                );
                &&& final(self).program() == load.0
                &&& final(self).state() == load.1.state
                &&& outcome.requests@ == load.1.requests
                &&& outcome.fault == load.1.fault
            }),
    {
        let mut requests: Vec<Request> = Vec::new();
        assert(requests@ =~= Seq::<Request>::empty());
        if let Some(found) = defect(program) {
            return Outcome { requests, fault: Some(Fault::Malformed(found)) };
        }
        let mut opcodes: Vec<Opcode> = Vec::new();
        let mut at: usize = 0;
        while at < program.len()
            invariant
                at <= program@.len(),
                opcodes@ == program@.subrange(0, at as int),
            decreases program@.len() - at,
        {
            opcodes.push(program[at]);
            assert(opcodes@ =~= program@.subrange(0, at + 1));
            at += 1;
        }
        assert(opcodes@ =~= program@);
        self.opcodes = opcodes;
        self.index_code();
        let fault = self.execute_into(0, &mut requests);
        if fault.is_none() {
            self.layers.reset();
        }
        Outcome { requests, fault }
    }

    /// Loads a program that loads without a fault, and runs its procedure 0.
    pub fn load_static(&mut self, program: &[Opcode]) -> (requests: Vec<Request>)
        requires
            spec_load(
                old(self).program(),
                old(self).state(),
                program@,
                BINDINGS as nat,
            ).1.fault is None,
        ensures
            ({
                let load = spec_load(
                    old(self).program(),
                    old(self).state(),
                    program@,
                    BINDINGS as nat,
                );
                &&& final(self).program() == load.0
                &&& final(self).state() == load.1.state
                &&& requests@ == load.1.requests
            }),
    {
        let outcome = self.try_load_static(program);
        outcome.requests
    }
}

} // verus!
