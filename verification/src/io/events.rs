//! Switch events, as the scanner emits them, and the triggers made of them.

use vstd::prelude::*;

verus! {

/// Name of a logical input or output line.
pub type IoIdx = u8;

/// Debounced state of one input line.
#[derive(Clone, Copy, Debug, PartialEq, Eq, Structural)]
pub enum SwitchState {
    /// The line became active and stayed so through the debounce period.
    Activated,
    /// The line is still active, for this many milliseconds.
    Active(u32),
    /// The line was released after being active for this many milliseconds.
    Deactivated(u32),
}

/// One debounced change of one input line.
#[derive(Clone, Copy, Debug, PartialEq, Eq, Structural)]
pub struct SwitchEvent {
    pub switch_id: IoIdx,
    pub state: SwitchState,
}

/// What a button did, as the bindings see it.
#[derive(Clone, Copy, Debug, PartialEq, Eq, Structural)]
pub enum Trigger {
    /// Released after a press no longer than a short click.
    ShortClick,
    /// Released after a press longer than a short click.
    LongClick,
    /// Pressed, right after the debounce period.
    Activated,
    /// Released, whatever the time.
    Deactivated,
    /// Held for longer than a short click.
    LongActivated,
    /// Released after it had been held for longer than a short click.
    LongDeactivated,
}

/// A trigger on one input.
#[derive(Clone, Copy, Debug, PartialEq, Eq, Structural)]
pub struct ButtonEvent {
    pub switch_id: IoIdx,
    pub trigger: Trigger,
}

impl Trigger {
    /// The number that stands for a trigger on the bus.
    pub open spec fn code(self) -> u8 {
        match self {
            Trigger::ShortClick => 0,
            Trigger::LongClick => 1,
            Trigger::Activated => 2,
            Trigger::Deactivated => 3,
            Trigger::LongActivated => 4,
            Trigger::LongDeactivated => 5,
        }
    }

    /// The trigger that a number stands for, if any.
    pub open spec fn decode(raw: u8) -> Option<Trigger> {
        if raw == 0 {
            Some(Trigger::ShortClick)
        } else if raw == 1 {
            Some(Trigger::LongClick)
        } else if raw == 2 {
            Some(Trigger::Activated)
        } else if raw == 3 {
            Some(Trigger::Deactivated)
        } else if raw == 4 {
            Some(Trigger::LongActivated)
        } else if raw == 5 {
            Some(Trigger::LongDeactivated)
        } else {
            None
        }
    }

    pub fn to_bytes(self) -> (raw: u8)
        ensures
            raw == self.code(),
    {
        match self {
            Trigger::ShortClick => 0,
            Trigger::LongClick => 1,
            Trigger::Activated => 2,
            Trigger::Deactivated => 3,
            Trigger::LongActivated => 4,
            Trigger::LongDeactivated => 5,
        }
    }

    pub fn from_u8(raw: u8) -> (trigger: Option<Trigger>)
        ensures
            trigger == Trigger::decode(raw),
    {
        match raw {
            0 => Some(Trigger::ShortClick),
            1 => Some(Trigger::LongClick),
            2 => Some(Trigger::Activated),
            3 => Some(Trigger::Deactivated),
            4 => Some(Trigger::LongActivated),
            5 => Some(Trigger::LongDeactivated),
            _ => None,
        }
    }

    /// Every trigger survives the trip to its number and back, and only the
    /// numbers of triggers decode.
    pub proof fn lemma_code_roundtrip(t: Trigger, raw: u8)
        ensures
            Trigger::decode(t.code()) == Some(t),
            t.code() <= 5,
            Trigger::decode(raw) is Some ==> Trigger::decode(raw).unwrap().code() == raw,
            Trigger::decode(raw) is Some <==> raw <= 5,
    {
    }
}

} // verus!
