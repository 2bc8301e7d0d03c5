use io_ctrl::boards::io_router::IOCommand;
use io_ctrl::buttonsmash::bindings::{Action, Binding, BindingList};
use io_ctrl::buttonsmash::consts::{Command, Event};
use io_ctrl::buttonsmash::dispatch::{announce, dispatch, Dispatch};
use io_ctrl::buttonsmash::layers::Layers;
use io_ctrl::buttonsmash::microvm::{Executor, Fault, Request};
use io_ctrl::buttonsmash::opcodes::Opcode;
use io_ctrl::buttonsmash::program::{defect, Defect};
use io_ctrl::buttonsmash::shutters::Cmd;
use io_ctrl::components::interconnect::WhenFull;
use io_ctrl::components::message::{Message, OutputState};
use io_ctrl::components::status::Problem;
use io_ctrl::actuator::PinType;
use io_ctrl::io::event_converter::run_event_converter;
use io_ctrl::io::events::{ButtonEvent, SwitchEvent, SwitchState, Trigger};
use io_ctrl::io::indexed_outputs::{IndexedOutputs, Output, Place};

fn binding(idx: u8, layer: u8, trigger: Trigger, action: Action) -> Binding {
    Binding { idx, trigger, layer, action }
}

#[test]
fn bindings() {
    let mut list: BindingList<30> = BindingList::new();
    assert_eq!(list.len(), 0);
    assert_eq!(list.filter(1, Some(0), Some(Trigger::ShortClick)), None);

    let first = binding(1, 0, Trigger::ShortClick, Action::Single(Command::ToggleOutput(5)));
    let second = binding(1, 0, Trigger::LongClick, Action::Proc(3));
    let third = binding(1, 9, Trigger::ShortClick, Action::Noop);
    let fourth = binding(2, 0, Trigger::ShortClick, Action::Single(Command::ActivateLayer(9)));
    assert!(list.bind(first).is_ok());
    assert!(list.bind(second).is_ok());
    assert!(list.bind(third).is_ok());
    assert!(list.bind(fourth).is_ok());
    assert_eq!(list.len(), 4);

    // Every binding is what a lookup of its key finds.
    for b in [first, second, third, fourth] {
        assert_eq!(list.filter(b.idx, Some(b.layer), Some(b.trigger)), Some(b));
    }
    // No other layer stands in for a layer without the binding.
    assert_eq!(list.filter(2, Some(9), Some(Trigger::ShortClick)), None);
    assert_eq!(list.filter(3, Some(0), Some(Trigger::ShortClick)), None);
    // Without a layer or a trigger the first binding of the input is found.
    assert_eq!(list.filter(1, None, None), Some(first));
    assert_eq!(list.filter(1, Some(9), None), Some(third));
    assert_eq!(list.filter(1, None, Some(Trigger::LongClick)), Some(second));

    // Binding again replaces.
    let again = binding(1, 0, Trigger::ShortClick, Action::Proc(7));
    assert!(list.bind(again).is_ok());
    assert_eq!(list.len(), 4);
    assert_eq!(list.filter(1, Some(0), Some(Trigger::ShortClick)), Some(again));
    assert_eq!(list.filter(1, Some(0), Some(Trigger::LongClick)), Some(second));

    list.clear();
    assert_eq!(list.len(), 0);
    for b in [again, second, third, fourth] {
        assert_eq!(list.filter(b.idx, Some(b.layer), Some(b.trigger)), None);
    }
}

#[test]
fn a_full_table_takes_replacements_only() {
    let mut list: BindingList<3> = BindingList::new();
    for idx in 1..=3u8 {
        assert!(list.bind(binding(idx, 0, Trigger::ShortClick, Action::Noop)).is_ok());
    }
    assert!(list.bind(binding(4, 0, Trigger::ShortClick, Action::Noop)).is_err());
    assert_eq!(list.len(), 3);
    assert_eq!(list.filter(4, Some(0), Some(Trigger::ShortClick)), None);
    let replaced = binding(2, 0, Trigger::ShortClick, Action::Proc(1));
    assert!(list.bind(replaced).is_ok());
    assert_eq!(list.filter(2, Some(0), Some(Trigger::ShortClick)), Some(replaced));
    assert_eq!(list.len(), 3);
}

#[test]
fn layer_stack() {
    let mut layers = Layers::new();
    assert_eq!(layers.current(), 0);
    assert_eq!(layers.depth(), 0);
    assert!(!layers.maybe_deactivate(3));
    assert!(layers.activate(3, 9));
    assert_eq!(layers.current(), 9);
    assert!(layers.activate(0, 4));
    assert_eq!(layers.current(), 4);
    // Another input than the anchor of the top leaves the stack alone.
    assert!(!layers.maybe_deactivate(3));
    assert_eq!(layers.depth(), 2);
    assert!(layers.maybe_deactivate(0));
    assert_eq!(layers.current(), 9);
    assert!(layers.maybe_deactivate(3));
    assert_eq!(layers.depth(), 0);
    assert_eq!(layers.current(), 0);
    for layer in 1..=5u8 {
        assert!(layers.activate(layer, layer));
    }
    assert!(!layers.activate(6, 6));
    assert_eq!(layers.depth(), 5);
    assert_eq!(layers.current(), 5);
    layers.reset();
    assert_eq!(layers.depth(), 0);
}

fn feed(vm: &mut Executor<30>, switch_id: u8, state: SwitchState) -> (Vec<Trigger>, Vec<Request>) {
    let mut triggers = Vec::new();
    let mut requests = Vec::new();
    for event in run_event_converter(&SwitchEvent { switch_id, state }) {
        if let Event::ButtonEvent(button) = event {
            assert_eq!(button.switch_id, switch_id);
            triggers.push(button.trigger);
        }
        let outcome = vm.try_parse_event(&event);
        assert_eq!(outcome.fault, None);
        requests.extend(outcome.requests);
    }
    (triggers, requests)
}

fn commands(requests: &[Request]) -> Vec<Command> {
    let mut commands = Vec::new();
    for request in requests {
        if let Request::Command(command) = request {
            commands.push(*command);
        }
    }
    commands
}

fn echo(switch_id: u8, trigger: Trigger) -> Request {
    Request::InputChanged(ButtonEvent { switch_id, trigger })
}

fn eight_outputs() -> IndexedOutputs {
    let mut table = Vec::new();
    for bit in 0..8u8 {
        table.push(Output { idx: bit + 1, place: Place::Expander(0, bit), pin_type: PinType::ActiveLow });
    }
    IndexedOutputs::new(table, 1).unwrap()
}

#[test]
fn short_click_toggles_an_output() {
    let mut vm: Executor<30> = Executor::new();
    let loaded = vm.try_load_static(&[
        Opcode::Start(0),
        Opcode::LayerDefault,
        Opcode::BindShortToggle(1, 5),
        Opcode::Stop,
    ]);
    assert_eq!(loaded.fault, None);
    assert!(loaded.requests.is_empty());

    let (triggers, pressed) = feed(&mut vm, 1, SwitchState::Activated);
    assert_eq!(triggers, vec![Trigger::Activated]);
    assert_eq!(pressed, vec![echo(1, Trigger::Activated)]);

    let (triggers, released) = feed(&mut vm, 1, SwitchState::Deactivated(150));
    assert_eq!(triggers, vec![Trigger::ShortClick, Trigger::Deactivated]);
    assert_eq!(
        released,
        vec![
            Request::Command(Command::ToggleOutput(5)),
            echo(1, Trigger::ShortClick),
            echo(1, Trigger::Deactivated),
        ]
    );

    // The output driver carries the one toggle out and the bus hears of it once.
    let mut outputs = eight_outputs();
    let mut sent = Vec::new();
    for request in released {
        match dispatch(request) {
            Dispatch::Output(command) => {
                assert_eq!(command, IOCommand::ToggleOutput(5));
                assert!(outputs.request(command).is_ok());
                match announce(outputs.apply(command, true)) {
                    Dispatch::Broadcast(message, policy) => {
                        assert_eq!(policy, WhenFull::Drop);
                        sent.push(message);
                    }
                    other => panic!("{:?}", other),
                }
            }
            Dispatch::Broadcast(message, policy) => {
                assert_eq!(policy, WhenFull::Wait);
                assert!(matches!(message, Message::InputChanged { input: 1, .. }));
            }
            other => panic!("{:?}", other),
        }
    }
    assert_eq!(sent, vec![Message::OutputChanged { output: 5, state: OutputState::On }]);
    assert_eq!(outputs.get(5), Some(true));
}

#[test]
fn long_press_is_no_short_click() {
    let mut vm: Executor<30> = Executor::new();
    let loaded = vm.try_load_static(&[
        Opcode::Start(0),
        Opcode::LayerDefault,
        Opcode::BindShortToggle(1, 5),
        Opcode::BindLongToggle(1, 6),
        Opcode::Stop,
    ]);
    assert_eq!(loaded.fault, None);

    let (_, pressed) = feed(&mut vm, 1, SwitchState::Activated);
    assert!(commands(&pressed).is_empty());
    let (triggers, held) = feed(&mut vm, 1, SwitchState::Active(450));
    assert_eq!(triggers, vec![Trigger::LongActivated]);
    assert!(commands(&held).is_empty());
    let (triggers, released) = feed(&mut vm, 1, SwitchState::Deactivated(500));
    assert_eq!(
        triggers,
        vec![Trigger::LongClick, Trigger::LongDeactivated, Trigger::Deactivated]
    );
    assert_eq!(commands(&released), vec![Command::ToggleOutput(6)]);

    let mut outputs = eight_outputs();
    for command in commands(&released) {
        if let Dispatch::Output(io) = dispatch(Request::Command(command)) {
            assert!(outputs.apply(io, true).is_ok());
        }
    }
    assert_eq!(outputs.get(6), Some(true));
    assert_eq!(outputs.get(5), Some(false));
}

#[test]
fn layer_hold() {
    let mut vm: Executor<30> = Executor::new();
    let loaded = vm.try_load_static(&[
        Opcode::Start(0),
        Opcode::LayerDefault,
        Opcode::BindLayerHold(3, 9),
        Opcode::LayerPush(9),
        Opcode::BindShortToggle(4, 7),
        Opcode::Stop,
    ]);
    assert_eq!(loaded.fault, None);
    // Loading ends on the default layer.
    assert_eq!(vm.current_layer(), 0);
    assert_eq!(vm.layers().depth(), 0);
    assert_eq!(vm.bindings().len(), 2);

    let mut all = Vec::new();
    let (_, requests) = feed(&mut vm, 3, SwitchState::Activated);
    all.extend(requests);
    assert_eq!(vm.current_layer(), 9);
    assert_eq!(vm.layers().depth(), 1);

    let (_, requests) = feed(&mut vm, 4, SwitchState::Activated);
    all.extend(requests);
    let (_, requests) = feed(&mut vm, 4, SwitchState::Deactivated(120));
    all.extend(requests);
    // The release of another input than the anchor leaves the layer alone.
    assert_eq!(vm.layers().depth(), 1);
    assert_eq!(commands(&all), vec![Command::ToggleOutput(7)]);

    let (triggers, requests) = feed(&mut vm, 3, SwitchState::Deactivated(900));
    assert_eq!(
        triggers,
        vec![Trigger::LongClick, Trigger::LongDeactivated, Trigger::Deactivated]
    );
    assert!(commands(&requests).is_empty());
    assert_eq!(vm.layers().depth(), 0);
    assert_eq!(vm.current_layer(), 0);
    all.extend(requests);
    assert_eq!(commands(&all), vec![Command::ToggleOutput(7)]);

    // On the default layer the click of 4 is bound to nothing.
    let (_, requests) = feed(&mut vm, 4, SwitchState::Deactivated(120));
    assert!(commands(&requests).is_empty());
}

#[test]
fn release_of_the_anchor_dispatches_nothing() {
    let mut vm: Executor<30> = Executor::new();
    let loaded = vm.try_load_static(&[
        Opcode::Start(0),
        Opcode::BindLayerHold(3, 9),
        Opcode::LayerPush(9),
        // A release of 3 on layer 9 would toggle output 1, were it looked up.
        Opcode::BindDeactivateCall(3, 1),
        Opcode::Stop,
        Opcode::Start(1),
        Opcode::Toggle(1),
        Opcode::Stop,
    ]);
    assert_eq!(loaded.fault, None);
    let press = Event::new_button(3, Trigger::Activated);
    let release = Event::new_button(3, Trigger::Deactivated);
    assert_eq!(vm.try_parse_event(&press).fault, None);
    assert_eq!(vm.layers().depth(), 1);
    let outcome = vm.try_parse_event(&release);
    assert_eq!(outcome.fault, None);
    assert_eq!(outcome.requests, vec![echo(3, Trigger::Deactivated)]);
    assert_eq!(vm.layers().depth(), 0);
    // With the layer gone the same release is an ordinary trigger again.
    assert_eq!(vm.try_parse_event(&press).fault, None);
    assert_eq!(vm.current_layer(), 9);
    let other = vm.try_parse_event(&Event::new_button(4, Trigger::Deactivated));
    assert_eq!(other.requests, vec![echo(4, Trigger::Deactivated)]);
    assert_eq!(vm.layers().depth(), 1);
}

#[test]
fn procedures_calls_and_registers() {
    let mut vm: Executor<30> = Executor::new();
    let program = [
        Opcode::Start(0),
        Opcode::BindShortCall(1, 1),
        Opcode::SetRegister(4, 2),
        Opcode::Noop,
        Opcode::Stop,
        Opcode::Start(1),
        Opcode::Activate(100),
        Opcode::CallRegister(4),
        Opcode::Deactivate(110),
        Opcode::Stop,
        Opcode::Start(2),
        Opcode::Toggle(7),
        Opcode::SetRegister(4, 3),
        Opcode::Stop,
        Opcode::Start(3),
        Opcode::BindShutter(2, 17, 18),
        Opcode::SendStatus,
        Opcode::SetRegister(4, 2),
        Opcode::Stop,
    ];
    let requests = vm.load_static(&program);
    assert!(requests.is_empty());
    assert_eq!(vm.register(4), Some(2));
    assert_eq!(vm.register(0), Some(0));
    assert_eq!(vm.register(32), None);

    let first = vm.parse_event(&Event::new_button(1, Trigger::ShortClick));
    assert_eq!(
        first,
        vec![
            Request::Command(Command::ActivateOutput(100)),
            Request::Command(Command::ToggleOutput(7)),
            Request::Command(Command::DeactivateOutput(110)),
            echo(1, Trigger::ShortClick),
        ]
    );
    assert_eq!(vm.register(4), Some(3));

    let second = vm.execute(1);
    assert_eq!(
        second,
        vec![
            Request::Command(Command::ActivateOutput(100)),
            Request::Command(Command::Shutter(2, Cmd::SetIO(17, 18))),
            Request::SendStatus,
            Request::Command(Command::DeactivateOutput(110)),
        ]
    );
    assert_eq!(vm.register(4), Some(2));

    let outcome = vm.try_parse_event(&Event::RemoteProcedureCall(2));
    assert_eq!(outcome.fault, None);
    assert_eq!(outcome.requests, vec![Request::Command(Command::ToggleOutput(7))]);
}

#[test]
fn remote_events() {
    let mut vm: Executor<30> = Executor::new();
    let cases = [
        (Event::RemoteToggle(3), Request::Command(Command::ToggleOutput(3))),
        (Event::RemoteActivate(4), Request::Command(Command::ActivateOutput(4))),
        (Event::RemoteDeactivate(5), Request::Command(Command::DeactivateOutput(5))),
        (Event::RemoteStatusRequest, Request::SendStatus),
    ];
    for (event, request) in cases {
        let outcome = vm.try_parse_event(&event);
        assert_eq!(outcome.fault, None);
        assert_eq!(outcome.requests, vec![request]);
    }
}

fn fault_of(program: &[Opcode]) -> Option<Fault> {
    let mut vm: Executor<2> = Executor::new();
    vm.try_load_static(program).fault
}

#[test]
fn faults() {
    assert_eq!(fault_of(&[Opcode::Start(0), Opcode::Stop]), None);
    assert_eq!(fault_of(&[]), Some(Fault::NoProcedure));
    assert_eq!(fault_of(&[Opcode::Start(1), Opcode::Stop]), Some(Fault::NoProcedure));
    assert_eq!(
        fault_of(&[Opcode::Start(0), Opcode::Noop]),
        Some(Fault::Malformed(Defect::UnclosedProcedure))
    );
    assert_eq!(
        fault_of(&[Opcode::Start(0), Opcode::Start(1), Opcode::Stop]),
        Some(Fault::Malformed(Defect::UnclosedProcedure))
    );
    assert_eq!(
        fault_of(&[Opcode::Start(0), Opcode::Stop, Opcode::Start(0), Opcode::Stop]),
        Some(Fault::Malformed(Defect::DuplicateProcedure))
    );
    // A call of a procedure that the program does not hold starts at offset 0.
    assert_eq!(
        fault_of(&[Opcode::Noop, Opcode::Start(0), Opcode::Call(5), Opcode::Stop]),
        Some(Fault::StartOpcode)
    );
    assert_eq!(
        fault_of(&[Opcode::Start(0), Opcode::SetRegister(32, 1), Opcode::Stop]),
        Some(Fault::BadRegister)
    );
    assert_eq!(
        fault_of(&[Opcode::Start(0), Opcode::CallRegister(32), Opcode::Stop]),
        Some(Fault::BadRegister)
    );
    assert_eq!(
        fault_of(&[Opcode::Start(0), Opcode::LayerPush(129), Opcode::Stop]),
        Some(Fault::BadLayer)
    );
    assert_eq!(fault_of(&[Opcode::Start(0), Opcode::LayerPush(128), Opcode::Stop]), None);
    assert_eq!(fault_of(&[Opcode::Start(0), Opcode::LayerSet(200), Opcode::Stop]), None);
    assert_eq!(
        fault_of(&[Opcode::Start(0), Opcode::Call(200), Opcode::Stop]),
        Some(Fault::NoProcedure)
    );
    assert_eq!(
        fault_of(&[Opcode::Start(128), Opcode::Stop]),
        Some(Fault::Malformed(Defect::BadProcedure))
    );
    assert_eq!(
        fault_of(&vec![Opcode::Noop; 1025]),
        Some(Fault::Malformed(Defect::TooLong))
    );
    assert_eq!(defect(&vec![Opcode::Noop; 1024]), None);
    assert_eq!(defect(&[Opcode::Stop, Opcode::Start(127), Opcode::Stop, Opcode::Stop]), None);
    assert_eq!(defect(&[Opcode::Start(1), Opcode::Toggle(1)]), Some(Defect::UnclosedProcedure));
    // A procedure that calls itself runs out of stack.
    assert_eq!(
        fault_of(&[Opcode::Start(0), Opcode::Call(0), Opcode::Stop]),
        Some(Fault::StackOverflow)
    );
    // Three calls deep is as deep as it goes.
    let nested = [
        Opcode::Start(0),
        Opcode::Call(1),
        Opcode::Stop,
        Opcode::Start(1),
        Opcode::Call(2),
        Opcode::Stop,
        Opcode::Start(2),
        Opcode::Call(3),
        Opcode::Stop,
        Opcode::Start(3),
        Opcode::Toggle(1),
        Opcode::Stop,
    ];
    let mut vm: Executor<2> = Executor::new();
    let outcome = vm.try_load_static(&nested);
    assert_eq!(outcome.fault, None);
    assert_eq!(outcome.requests, vec![Request::Command(Command::ToggleOutput(1))]);
    let mut deeper = nested.to_vec();
    deeper[10] = Opcode::Call(4);
    deeper.extend([Opcode::Start(4), Opcode::Stop]);
    assert_eq!(fault_of(&deeper), Some(Fault::StackOverflow));
    // The table of this machine holds two bindings.
    assert_eq!(
        fault_of(&[
            Opcode::Start(0),
            Opcode::BindShortToggle(1, 1),
            Opcode::BindShortToggle(2, 2),
            Opcode::BindShortToggle(1, 3),
            Opcode::BindShortToggle(3, 3),
            Opcode::Stop,
        ]),
        Some(Fault::BindingsFull)
    );
    let mut pushes = vec![Opcode::Start(0)];
    pushes.extend([Opcode::LayerPush(1); 5]);
    pushes.push(Opcode::Stop);
    assert_eq!(fault_of(&pushes), None);
    pushes.insert(1, Opcode::LayerPush(1));
    assert_eq!(fault_of(&pushes), Some(Fault::LayersFull));
}

#[test]
fn a_failed_load_keeps_the_program() {
    let mut vm: Executor<30> = Executor::new();
    let setup = [Opcode::Start(0), Opcode::Stop, Opcode::Start(1), Opcode::Toggle(9), Opcode::Stop];
    assert_eq!(vm.try_load_static(&setup).fault, None);
    let broken = vm.try_load_static(&[Opcode::Start(0), Opcode::Start(1), Opcode::Stop]);
    assert_eq!(broken.fault, Some(Fault::Malformed(Defect::UnclosedProcedure)));
    assert_eq!(vm.execute(1), vec![Request::Command(Command::ToggleOutput(9))]);
}

#[test]
fn the_sixteen_toggles() {
    // Sixteen inputs, each bound to the output of its number; a second
    // `Stop` after the first procedure belongs to no procedure.
    let mut program = vec![Opcode::Start(0), Opcode::LayerDefault];
    for line in 1..=16u8 {
        program.push(Opcode::BindShortToggle(line, line));
    }
    program.extend([
        Opcode::Stop,
        Opcode::Stop,
        Opcode::Start(1),
        Opcode::Activate(100),
        Opcode::Activate(101),
        Opcode::Deactivate(110),
        Opcode::Stop,
    ]);
    let mut vm: Executor<30> = Executor::new();
    assert!(vm.load_static(&program).is_empty());
    assert_eq!(vm.bindings().len(), 16);
    for line in 1..=16u8 {
        let requests = vm.parse_event(&Event::new_button(line, Trigger::ShortClick));
        assert_eq!(commands(&requests), vec![Command::ToggleOutput(line)]);
    }
    assert_eq!(
        vm.execute(1),
        vec![
            Request::Command(Command::ActivateOutput(100)),
            Request::Command(Command::ActivateOutput(101)),
            Request::Command(Command::DeactivateOutput(110)),
        ]
    );
}

#[test]
fn layer_opcodes() {
    let mut vm: Executor<30> = Executor::new();
    let outcome = vm.try_load_static(&[
        Opcode::Start(0),
        Opcode::Stop,
        Opcode::Start(1),
        Opcode::LayerPush(3),
        Opcode::LayerPush(4),
        Opcode::Stop,
        Opcode::Start(2),
        Opcode::LayerPop,
        Opcode::Stop,
        Opcode::Start(3),
        Opcode::LayerSet(8),
        Opcode::Stop,
        Opcode::Start(4),
        Opcode::LayerDefault,
        Opcode::BindClearAll,
        Opcode::Stop,
    ]);
    assert_eq!(outcome.fault, None);
    vm.execute(1);
    assert_eq!(vm.layers().depth(), 2);
    assert_eq!(vm.current_layer(), 4);
    vm.execute(2);
    assert_eq!(vm.current_layer(), 3);
    vm.execute(3);
    assert_eq!(vm.layers().depth(), 1);
    assert_eq!(vm.current_layer(), 8);
    vm.execute(4);
    assert_eq!(vm.layers().depth(), 0);
    assert_eq!(vm.bindings().len(), 0);
}

#[test]
fn requests_go_where_they_belong() {
    assert_eq!(
        dispatch(Request::Command(Command::Shutter(1, Cmd::Open))),
        Dispatch::Shutter(1, Cmd::Open)
    );
    assert_eq!(
        dispatch(Request::Command(Command::ActivateOutput(2))),
        Dispatch::Output(IOCommand::ActivateOutput(2))
    );
    assert_eq!(dispatch(Request::Command(Command::Noop)), Dispatch::Nothing);
    assert_eq!(dispatch(Request::Command(Command::ActivateLayer(2))), Dispatch::Nothing);
    assert_eq!(dispatch(Request::SendStatus), Dispatch::Status);
    assert_eq!(
        dispatch(echo(6, Trigger::LongClick)),
        Dispatch::Broadcast(
            Message::InputChanged { input: 6, trigger: Trigger::LongClick },
            WhenFull::Wait
        )
    );
    assert_eq!(
        announce(Err(Problem::ExpanderOutputError)),
        Dispatch::Count(Problem::ExpanderOutputError)
    );
}
