//! From debounced switch events to the triggers that bindings are made of.

use vstd::prelude::*;
use crate::buttonsmash::consts::Event;
use crate::io::events::{ButtonEvent, IoIdx, SwitchEvent, SwitchState, Trigger};

verus! {

/// Longest press that still ends in a short click, in milliseconds.
pub const MAX_SHORT_MS: u32 = 400;

/// The triggers that a state of a switch stands for, in their order.
///
/// A press is `Activated`. A hold counts once it has lasted as long as the
/// longest short click, and is then reported at every poll. A release
/// after a short press is a short click; after a longer one it is a long
/// click and the end of a long hold. Every release ends with `Deactivated`.
pub open spec fn triggers_of(state: SwitchState) -> Seq<Trigger> {
    match state {
        SwitchState::Activated => seq![Trigger::Activated],
        SwitchState::Active(ms) => if ms >= MAX_SHORT_MS {
            seq![Trigger::LongActivated]
        } else {
            Seq::empty()
        },
        SwitchState::Deactivated(ms) => if ms <= MAX_SHORT_MS {
            seq![Trigger::ShortClick, Trigger::Deactivated]
        } else {
            seq![Trigger::LongClick, Trigger::LongDeactivated, Trigger::Deactivated]
        },
    }
}

/// The events of the engine that a switch event stands for.
pub open spec fn events_of(event: SwitchEvent) -> Seq<Event> {
    Seq::new(
        triggers_of(event.state).len(),
        |at: int|
            Event::ButtonEvent(
                ButtonEvent { switch_id: event.switch_id, trigger: triggers_of(event.state)[at] },
            ),
    )
}

fn button(switch_id: IoIdx, trigger: Trigger) -> (event: Event)
    ensures
        event == Event::ButtonEvent(ButtonEvent { switch_id, trigger }),
{
    Event::new_button(switch_id, trigger)
}

/// Converts one switch event into the events of the engine, in the order
/// in which they are to be handed on.
pub fn run_event_converter(input_event: &SwitchEvent) -> (events: Vec<Event>)
    ensures
        events@ == events_of(*input_event),
{
    let id = input_event.switch_id;
    let mut events: Vec<Event> = Vec::new();
    match input_event.state {
        SwitchState::Activated => {
            events.push(button(id, Trigger::Activated));
        },
        SwitchState::Active(ms) => {
            if ms >= MAX_SHORT_MS {
                events.push(button(id, Trigger::LongActivated));
            }
        },
        SwitchState::Deactivated(ms) => {
            if ms <= MAX_SHORT_MS {
                events.push(button(id, Trigger::ShortClick));
            } else {
                events.push(button(id, Trigger::LongClick));
                events.push(button(id, Trigger::LongDeactivated));
            }
            events.push(button(id, Trigger::Deactivated));
        },
    }
    assert(events@ =~= events_of(*input_event));
    events
}

} // verus!
