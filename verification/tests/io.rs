use io_ctrl::actuator::{Action, Actuator, ActuatorCtrl, Command as ActuatorCommand, PinType};
use io_ctrl::boards::io_router::IOCommand;
use io_ctrl::buttonsmash::consts::{Command, Event};
use io_ctrl::components::interconnect::{
    route, route_message, Routed, TimeOfDay, Transmission, TxStep, WhenFull,
};
use io_ctrl::components::message::{Message, MessageRaw, OutputState};
use io_ctrl::components::status::{Blink, Counter, Counters, Pattern, Problem, Status};
use io_ctrl::buttonsmash::shutters::Cmd;
use io_ctrl::io::event_converter::run_event_converter;
use io_ctrl::io::events::{SwitchEvent, SwitchState, Trigger};
use io_ctrl::io::expander_inputs::{ExpanderInputs, ScanRequest};
use io_ctrl::io::indexed_outputs::{IndexedOutputs, Output, PinWrite, Place};
use io_ctrl::io::report::{pace, status_report, IoState, Paced, StatusIO};

const NAMES: [u8; 16] = [1, 2, 3, 4, 5, 6, 7, 8, 9, 10, 11, 12, 13, 14, 15, 16];

fn event(switch_id: u8, state: SwitchState) -> SwitchEvent {
    SwitchEvent { switch_id, state }
}

#[test]
fn scanner_debounces() {
    let mut scanner = ExpanderInputs::new(0x27, NAMES, true);
    assert_eq!(scanner.get_id(), 0x27);
    assert_eq!(scanner.get_indices(), &NAMES);
    assert_eq!(scanner.next_request(), ScanRequest::Configure(0xffff));
    assert_eq!(scanner.get_inputs(), None);
    let step = scanner.configured(true);
    assert!(step.events.is_empty() && !step.problem && !step.dead);
    assert_eq!(scanner.next_request(), ScanRequest::Poll(30));

    // Line 0 (active-low) goes down: one reading is not yet a press.
    assert!(scanner.scanned(Ok(0xfffe)).events.is_empty());
    assert_eq!(scanner.scanned(Ok(0xfffe)).events, vec![event(1, SwitchState::Activated)]);
    assert_eq!(scanner.scanned(Ok(0xfffe)).events, vec![event(1, SwitchState::Active(90))]);
    assert_eq!(scanner.scanned(Ok(0xfffe)).events, vec![event(1, SwitchState::Active(120))]);
    assert_eq!(scanner.scanned(Ok(0xffff)).events, vec![event(1, SwitchState::Deactivated(120))]);
    assert!(scanner.scanned(Ok(0xffff)).events.is_empty());

    // A blip of one reading is noise.
    assert!(scanner.scanned(Ok(0x7fff)).events.is_empty());
    assert!(scanner.scanned(Ok(0xffff)).events.is_empty());

    // Several lines at once come in the order of the lines.
    assert!(scanner.scanned(Ok(0x7ffb)).events.is_empty());
    assert_eq!(
        scanner.scanned(Ok(0x7ffb)).events,
        vec![event(3, SwitchState::Activated), event(16, SwitchState::Activated)]
    );
    assert_eq!(
        scanner.scanned(Ok(0xfffb)).events,
        vec![event(3, SwitchState::Active(90)), event(16, SwitchState::Deactivated(60))]
    );
    let inputs = scanner.get_inputs().unwrap();
    assert_eq!(inputs[2], (3, false));
    assert_eq!(inputs[15], (16, true));
    assert_eq!(inputs[0], (1, true));
}

#[test]
fn scanner_counter_saturates() {
    let mut scanner = ExpanderInputs::new(1, NAMES, false);
    scanner.configured(true);
    scanner.state[4] = u16::MAX - 1;
    assert_eq!(
        scanner.scanned(Ok(!(1 << 4))).events,
        vec![event(5, SwitchState::Active(30 * 65_535))]
    );
    assert_eq!(
        scanner.scanned(Ok(!(1 << 4))).events,
        vec![event(5, SwitchState::Active(30 * 65_535))]
    );
    assert_eq!(scanner.state[4], u16::MAX);
    assert_eq!(
        scanner.scanned(Ok(0xffff)).events,
        vec![event(5, SwitchState::Deactivated(30 * 65_535))]
    );
}

#[test]
fn required_expander_dies_after_sixty_errors() {
    let mut scanner = ExpanderInputs::new(1, NAMES, true);
    let step = scanner.configured(false);
    assert!(step.problem && !step.dead);
    assert_eq!(step.delay_ms, 1000);
    assert_eq!(scanner.next_request(), ScanRequest::Configure(0xffff));
    scanner.configured(true);
    assert!(scanner.scanned(Ok(0xffff)).events.is_empty());
    assert_eq!(scanner.errors, 0);
    for n in 1..=60u16 {
        let step = scanner.scanned(Err(()));
        assert!(step.problem && !step.dead && step.events.is_empty());
        assert_eq!(scanner.errors, n);
        assert_eq!(scanner.get_inputs(), None);
    }
    assert!(scanner.scanned(Err(())).dead);
    // One reading starts the count again.
    scanner.scanned(Ok(0xffff));
    assert_eq!(scanner.errors, 0);
    assert!(!scanner.scanned(Err(())).dead);

    let mut optional = ExpanderInputs::new(2, NAMES, false);
    optional.configured(true);
    for _ in 0..1000 {
        let step = optional.scanned(Err(()));
        assert!(!step.problem && !step.dead);
    }
    assert_eq!(optional.errors, 1000);
    optional.errors = u16::MAX;
    assert!(!optional.scanned(Err(())).dead);
    assert_eq!(optional.errors, u16::MAX);
}

#[test]
fn a_failed_read_keeps_the_counters() {
    let mut scanner = ExpanderInputs::new(1, NAMES, true);
    scanner.configured(true);
    scanner.scanned(Ok(0xfffe));
    scanner.scanned(Err(()));
    assert_eq!(scanner.last_input, 0);
    assert_eq!(scanner.scanned(Ok(0xfffe)).events, vec![event(1, SwitchState::Activated)]);
}

#[test]
fn converter_makes_triggers() {
    let triggers = |state| {
        let mut out = Vec::new();
        for e in run_event_converter(&event(9, state)) {
            match e {
                Event::ButtonEvent(button) => {
                    assert_eq!(button.switch_id, 9);
                    out.push(button.trigger);
                }
                other => panic!("{:?}", other),
            }
        }
        out
    };
    assert_eq!(triggers(SwitchState::Activated), vec![Trigger::Activated]);
    assert_eq!(triggers(SwitchState::Active(399)), vec![]);
    assert_eq!(triggers(SwitchState::Active(400)), vec![Trigger::LongActivated]);
    assert_eq!(triggers(SwitchState::Active(4000)), vec![Trigger::LongActivated]);
    assert_eq!(
        triggers(SwitchState::Deactivated(150)),
        vec![Trigger::ShortClick, Trigger::Deactivated]
    );
    assert_eq!(
        triggers(SwitchState::Deactivated(400)),
        vec![Trigger::ShortClick, Trigger::Deactivated]
    );
    assert_eq!(
        triggers(SwitchState::Deactivated(401)),
        vec![Trigger::LongClick, Trigger::LongDeactivated, Trigger::Deactivated]
    );
    assert_eq!(
        Event::new_button(3, Trigger::LongClick),
        Event::ButtonEvent(io_ctrl::io::events::ButtonEvent {
            switch_id: 3,
            trigger: Trigger::LongClick
        })
    );
}

fn board_outputs() -> IndexedOutputs {
    let mut table = Vec::new();
    for bit in 0..16u8 {
        table.push(Output {
            idx: bit + 1,
            place: Place::Expander(0, bit),
            pin_type: PinType::ActiveLow,
        });
    }
    table.push(Output { idx: 17, place: Place::Native(0), pin_type: PinType::ActiveLow });
    table.push(Output { idx: 18, place: Place::Native(1), pin_type: PinType::ActiveHigh });
    IndexedOutputs::new(table, 1).unwrap()
}

#[test]
fn output_driver_sets_and_toggles() {
    let mut outputs = board_outputs();
    assert_eq!(outputs.find_id(1), Some(0));
    assert_eq!(outputs.find_id(18), Some(17));
    assert_eq!(outputs.find_id(19), None);
    assert_eq!(outputs.get(5), Some(false));
    assert_eq!(outputs.get(0), None);

    // Active-low: on is a low level, so the bit of the word is cleared.
    assert_eq!(
        outputs.request(IOCommand::ActivateOutput(5)),
        Ok(PinWrite::Expander { expander_no: 0, word: 0xffef })
    );
    assert_eq!(outputs.set(5, true, true), Ok(()));
    assert_eq!(outputs.get(5), Some(true));
    assert_eq!(
        outputs.request(IOCommand::ActivateOutput(1)),
        Ok(PinWrite::Expander { expander_no: 0, word: 0xffee })
    );
    assert_eq!(outputs.toggle(1, true), Ok(true));
    assert_eq!(outputs.get(1), Some(true));
    assert_eq!(
        outputs.request(IOCommand::ToggleOutput(5)),
        Ok(PinWrite::Expander { expander_no: 0, word: 0xfffe })
    );
    assert_eq!(outputs.toggle(5, true), Ok(false));
    assert_eq!(outputs.get(5), Some(false));
    assert_eq!(
        outputs.request(IOCommand::DeactivateOutput(1)),
        Ok(PinWrite::Expander { expander_no: 0, word: 0xffff })
    );

    assert_eq!(
        outputs.request(IOCommand::ActivateOutput(17)),
        Ok(PinWrite::Native { pin_no: 0, high: false })
    );
    assert_eq!(
        outputs.request(IOCommand::ActivateOutput(18)),
        Ok(PinWrite::Native { pin_no: 1, high: true })
    );
    assert_eq!(
        outputs.request(IOCommand::ToggleOutput(18)),
        Ok(PinWrite::Native { pin_no: 1, high: true })
    );
    assert_eq!(outputs.set_high(18, true), Ok(()));
    assert_eq!(
        outputs.request(IOCommand::ToggleOutput(18)),
        Ok(PinWrite::Native { pin_no: 1, high: false })
    );
    assert_eq!(outputs.set_low(18, true), Ok(()));
    assert_eq!(outputs.get(18), Some(false));

    // A write that failed, or an output that is not there, changes nothing.
    let before = outputs.get_all();
    assert_eq!(outputs.set(7, true, false), Err(()));
    assert_eq!(outputs.toggle(7, false), Err(()));
    assert_eq!(outputs.set(99, true, true), Err(()));
    assert_eq!(outputs.toggle(99, true), Err(()));
    assert_eq!(outputs.request(IOCommand::ToggleOutput(99)), Err(()));
    assert_eq!(outputs.apply(IOCommand::ToggleOutput(99), true), Err(Problem::ExpanderOutputError));
    assert_eq!(outputs.apply(IOCommand::ToggleOutput(7), false), Err(Problem::ExpanderOutputError));
    assert_eq!(outputs.get_all(), before);

    assert_eq!(
        outputs.apply(IOCommand::ToggleOutput(7), true),
        Ok(Message::OutputChanged { output: 7, state: OutputState::On })
    );
    assert_eq!(
        outputs.apply(IOCommand::DeactivateOutput(7), true),
        Ok(Message::OutputChanged { output: 7, state: OutputState::Off })
    );
    assert_eq!(
        outputs.apply(IOCommand::ActivateOutput(1), true),
        Ok(Message::OutputChanged { output: 1, state: OutputState::On })
    );

    let all = outputs.get_all();
    assert_eq!(all.len(), 18);
    for (at, (idx, on)) in all.iter().enumerate() {
        assert_eq!(*idx as usize, at + 1);
        assert_eq!(Some(*on), outputs.get(*idx));
        assert_eq!(*on, *idx == 1);
    }
}

#[test]
fn output_table_must_fit_the_expanders() {
    let at = |place| vec![Output { idx: 1, place, pin_type: PinType::ActiveHigh }];
    assert!(IndexedOutputs::new(at(Place::Expander(0, 15)), 1).is_some());
    assert!(IndexedOutputs::new(at(Place::Expander(0, 16)), 1).is_none());
    assert!(IndexedOutputs::new(at(Place::Expander(1, 0)), 1).is_none());
    assert!(IndexedOutputs::new(at(Place::Expander(1, 0)), 2).is_some());
    assert!(IndexedOutputs::new(at(Place::Native(200)), 0).is_some());
    assert!(IndexedOutputs::new(Vec::new(), 0).is_some());
    assert_eq!(PinType::ActiveHigh.level(true), true);
    assert_eq!(PinType::ActiveLow.level(true), false);
    let mut high = IndexedOutputs::new(at(Place::Expander(0, 3)), 1).unwrap();
    assert_eq!(
        high.request(IOCommand::DeactivateOutput(1)),
        Ok(PinWrite::Expander { expander_no: 0, word: 0xfff7 })
    );
    assert_eq!(high.set(1, false, true), Ok(()));
    assert_eq!(
        high.request(IOCommand::ActivateOutput(1)),
        Ok(PinWrite::Expander { expander_no: 0, word: 0xffff })
    );
    assert_eq!(IOCommand::from_command(Command::Noop), None);
    assert_eq!(IOCommand::from_command(Command::ToggleOutput(4)), Some(IOCommand::ToggleOutput(4)));
    assert_eq!(IOCommand::DeactivateOutput(6).output(), 6);
}

#[test]
fn status_fan_out() {
    let mut outputs = board_outputs();
    outputs.set(3, true, true).unwrap();
    let mut inputs = ExpanderInputs::new(0x27, NAMES, true);
    inputs.configured(true);
    inputs.scanned(Ok(0xfff5));
    let mut names = NAMES;
    for name in names.iter_mut() {
        *name += 32;
    }
    let mut sensors = ExpanderInputs::new(0x26, names, false);
    sensors.configured(true);
    sensors.scanned(Err(()));

    let scanners = [inputs, sensors];
    let lines = status_report(&outputs, &scanners);
    assert_eq!(lines.len(), 18 + 16 + 16);
    for (at, line) in lines[..18].iter().enumerate() {
        let state = if at == 2 { IoState::On } else { IoState::Off };
        assert_eq!(*line, StatusIO { io: at as u8 + 1, state });
    }
    for (at, line) in lines[18..34].iter().enumerate() {
        let state = if at == 1 || at == 3 { IoState::On } else { IoState::Off };
        assert_eq!(*line, StatusIO { io: at as u8 + 1, state });
    }
    for (at, line) in lines[34..].iter().enumerate() {
        assert_eq!(*line, StatusIO { io: at as u8 + 33, state: IoState::Error });
    }

    let steps = pace(&lines);
    assert_eq!(steps.len(), 2 * 50 - 1);
    for (at, step) in steps.iter().enumerate() {
        if at % 2 == 0 {
            assert_eq!(*step, Paced::Send(lines[at / 2]));
        } else {
            assert_eq!(*step, Paced::Pause(1));
        }
    }
    assert!(pace(&Vec::new()).is_empty());
    assert_eq!(pace(&vec![lines[0]]), vec![Paced::Send(lines[0])]);
}

#[test]
fn bus_drop_under_pressure() {
    // The queue stays full: a frame that waits is retried eight times.
    let mut waiting = Transmission::new(WhenFull::Wait);
    let mut waits = Vec::new();
    let done = loop {
        match waiting.attempted(false) {
            TxStep::RetryAfter(us) => waits.push(us),
            other => break other,
        }
    };
    assert_eq!(waits, vec![600, 1100, 1600, 2100, 2600, 3100, 3600, 4100]);
    assert_eq!(waits.iter().sum::<u32>(), 18_800);
    assert_eq!(done, TxStep::Dropped);
    assert_eq!(Transmission::succeeded(done), Some(false));
    assert_eq!(Transmission::problem(done), Some(Problem::CanDrop));
    assert_eq!(Transmission::problem(TxStep::Sent), None);
    assert_eq!(Transmission::problem(TxStep::RetryAfter(600)), None);
    assert_eq!(waiting.attempted(false), TxStep::Dropped);
    let mut counters = Counters::new();
    assert_eq!(counters.record(Problem::CanDrop), Blink::Warning);
    assert_eq!(counters.can_drop.get(), 1);

    // Room after the third try.
    let mut waiting = Transmission::new(WhenFull::Wait);
    assert_eq!(waiting.attempted(false), TxStep::RetryAfter(600));
    assert_eq!(waiting.attempted(false), TxStep::RetryAfter(1100));
    assert_eq!(waiting.attempted(true), TxStep::Sent);
    assert_eq!(Transmission::succeeded(TxStep::Sent), Some(true));
    assert_eq!(Transmission::succeeded(TxStep::RetryAfter(600)), None);

    let mut dropping = Transmission::new(WhenFull::Drop);
    assert_eq!(dropping.attempted(false), TxStep::Dropped);
    assert_eq!(Transmission::new(WhenFull::Drop).attempted(true), TxStep::Sent);
    let mut blocking = Transmission::new(WhenFull::Block);
    for _ in 0..20 {
        assert_eq!(blocking.attempted(false), TxStep::AwaitSpace);
    }
    assert_eq!(Transmission::succeeded(TxStep::AwaitSpace), None);
    assert_eq!(blocking.attempted(true), TxStep::Sent);
}

#[test]
fn frames_are_routed() {
    let local = 7;
    let set = Message::SetOutput { output: 3, state: OutputState::Toggle };
    assert_eq!(route_message(&set, 7, local), Routed::Event(Event::RemoteToggle(3)));
    assert_eq!(route_message(&set, 0x3f, local), Routed::Event(Event::RemoteToggle(3)));
    assert_eq!(route_message(&set, 8, local), Routed::Ignored);
    assert_eq!(
        route_message(&Message::SetOutput { output: 3, state: OutputState::On }, 7, local),
        Routed::Event(Event::RemoteActivate(3))
    );
    assert_eq!(
        route_message(&Message::SetOutput { output: 3, state: OutputState::Off }, 7, local),
        Routed::Event(Event::RemoteDeactivate(3))
    );
    assert_eq!(
        route_message(&Message::CallProcedure { proc_id: 4 }, 7, local),
        Routed::Event(Event::RemoteProcedureCall(4))
    );
    assert_eq!(
        route_message(&Message::RequestStatus, 0x3f, local),
        Routed::Event(Event::RemoteStatusRequest)
    );
    assert_eq!(
        route_message(&Message::TriggerInput { input: 2, trigger: Trigger::LongClick }, 7, local),
        Routed::Event(Event::new_button(2, Trigger::LongClick))
    );
    assert_eq!(
        route_message(&Message::ShutterCmd { shutter_idx: 1, cmd: Cmd::Open }, 7, local),
        Routed::Shutter(1, Cmd::Open)
    );
    assert_eq!(
        route_message(&Message::Ping { body: 9 }, 7, local),
        Routed::Reply(Message::Pong { body: 9 })
    );
    let time = |day_of_week| Message::TimeAnnouncement {
        year: 2025,
        month: 1,
        day: 2,
        hour: 3,
        minute: 4,
        second: 5,
        day_of_week,
    };
    assert_eq!(
        route_message(&time(6), 0x3f, local),
        Routed::SetTime(TimeOfDay {
            year: 2025,
            month: 1,
            day: 2,
            hour: 3,
            minute: 4,
            second: 5,
            day_of_week: 6
        })
    );
    assert_eq!(route_message(&time(7), 0x3f, local), Routed::Ignored);
    assert_eq!(route_message(&time(1), 7, local), Routed::Ignored);
    for told in [
        Message::OutputChanged { output: 1, state: OutputState::On },
        Message::InputChanged { input: 1, trigger: Trigger::Activated },
        Message::Info { code: 10, arg: 0 },
        Message::Error { code: 1 },
        Message::Status { uptime: 1, inputs: 2, outputs: 3 },
        Message::Pong { body: 1 },
    ] {
        assert_eq!(route_message(&told, 7, local), Routed::Ignored);
        assert_eq!(route_message(&told, 0x3f, local), Routed::Ignored);
    }

    assert_eq!(route(&Ok(set.to_raw(7)), local), Routed::Event(Event::RemoteToggle(3)));
    assert_eq!(route(&Err(()), local), Routed::Dropped(Some(Problem::CanFrameError)));
    assert_eq!(
        route(&Ok(MessageRaw::from_bytes(7, 0x1f, &[])), local),
        Routed::Dropped(Some(Problem::CanFrameError))
    );
    assert_eq!(route(&Ok(MessageRaw::from_bytes(7, 0x08, &[1])), local), Routed::Dropped(None));
}

#[test]
fn actuators() {
    let mut ctrl = ActuatorCtrl::new(vec![
        Actuator::new(PinType::ActiveHigh),
        Actuator::new(PinType::ActiveLow),
    ]);
    assert_eq!(ctrl.execute(ActuatorCommand::new(0, Action::On), 5), true);
    assert_eq!(ctrl.actuators[0].active_since, Some(5));
    assert_eq!(ctrl.execute(ActuatorCommand::new(1, Action::On), 6), false);
    assert_eq!(ctrl.actuators[1].active_since, Some(6));
    assert_eq!(ctrl.execute(ActuatorCommand::new(1, Action::Off), 7), true);
    assert_eq!(ctrl.actuators[1].active_since, None);
    assert_eq!(ctrl.try_execute(ActuatorCommand::new(0, Action::Off), 8), Some(false));
    let before = ctrl.actuators.clone();
    assert_eq!(ctrl.try_execute(ActuatorCommand::new(2, Action::On), 9), None);
    assert_eq!(ctrl.try_execute(ActuatorCommand::new(0, Action::Toggle), 9), None);
    assert_eq!(ctrl.try_execute(ActuatorCommand::new(0, Action::OnBrief(3)), 9), None);
    assert_eq!(ctrl.try_execute(ActuatorCommand::new(0, Action::Rotate), 9), None);
    assert_eq!(ctrl.actuators, before);
}

#[test]
fn counters_and_status_light() {
    let mut counter = Counter::new();
    assert_eq!(counter.get(), 0);
    assert_eq!(counter.inc(), 0);
    assert_eq!(counter.inc(), 1);
    assert_eq!(counter.get(), 2);
    let mut last = Counter { value: u32::MAX };
    assert_eq!(last.inc(), u32::MAX);
    assert_eq!(last.get(), 0);
    assert_eq!(Counter::default(), Counter::new());

    let mut counters = Counters::new();
    assert!(!counters.has_problem());
    let mut status = Status::new();
    assert_eq!(status.pattern, Pattern { on_ms: 200, off_ms: 200, count: 3 });
    for left in [2, 1, 0] {
        status.blinked(&counters);
        assert_eq!(status.pattern.count, left);
    }
    status.blinked(&counters);
    assert_eq!(status.pattern, Blink::Idle.to_time());
    assert_eq!(status.pattern, Pattern { on_ms: 10, off_ms: 3000, count: 0 });

    for problem in [
        Problem::InputQueueFull,
        Problem::OutputQueueFull,
        Problem::ExpanderInputError,
        Problem::ExpanderOutputError,
        Problem::CanFrameError,
        Problem::CanDrop,
    ] {
        let mut one = Counters::new();
        assert_eq!(one.record(problem), Blink::Warning);
        assert!(one.has_problem());
    }
    status.set_state(counters.record(Problem::ExpanderOutputError));
    assert_eq!(counters.expander_output_error.get(), 1);
    assert_eq!(status.pattern, Pattern { on_ms: 100, off_ms: 100, count: 10 });
    for _ in 0..11 {
        status.blinked(&counters);
    }
    assert_eq!(status.pattern, Blink::Attention.to_time());
    assert_eq!(status.pattern, Pattern { on_ms: 300, off_ms: 3000, count: 0 });
    assert_eq!(Blink::Active.to_time(), Pattern { on_ms: 10, off_ms: 50, count: 8 });
    assert_eq!(io_ctrl::status::Message::Init.to_time(), (200, 200));
    assert_eq!(io_ctrl::status::Message::Idle.to_time(), (50, 3000));
    assert_eq!(io_ctrl::status::Message::Transfer.to_time(), (10, 50));
    assert_eq!(io_ctrl::status::Message::Attention.to_time(), (100, 100));
}
