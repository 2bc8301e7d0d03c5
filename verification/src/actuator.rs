//! Actuators: outputs with a wiring, switched by commands.

use vstd::prelude::*;

verus! {

/// How an output is wired.
#[derive(Clone, Copy, Debug, PartialEq, Eq, Structural)]
pub enum PinType {
    /// A high level switches the load on.
    ActiveHigh,
    /// A low level switches the load on.
    ActiveLow,
}

impl PinType {
    /// The level that switches the load on or off: `true` is high.
    pub open spec fn spec_level(self, on: bool) -> bool {
        match self {
            PinType::ActiveHigh => on,
            PinType::ActiveLow => !on,
        }
    }

    /// The level that switches the load on or off: `true` is high.
    pub fn level(self, on: bool) -> (high: bool)
        ensures
            high == self.spec_level(on),
    {
        match self {
            PinType::ActiveHigh => on,
            PinType::ActiveLow => !on,
        }
    }
}

/// What to do with an actuator.
#[derive(Clone, Copy, Debug, PartialEq, Eq, Structural)]
pub enum Action {
    /// Switch it on; nothing changes if it is on.
    On,
    /// Switch it off; nothing changes if it is off.
    Off,
    /// Invert it.
    Toggle,
    /// Switch it on for this many seconds.
    OnBrief(u16),
    /// Step on to the next of several states.
    Rotate,
}

/// A command to one actuator.
#[derive(Clone, Copy, Debug, PartialEq, Eq, Structural)]
pub struct Command {
    pub actuator_idx: usize,
    pub action: Action,
}

impl Command {
    pub fn new(actuator_idx: usize, action: Action) -> (command: Self)
        ensures
            command == (Command { actuator_idx, action }),
    {
        Self { actuator_idx, action }
    }
}

/// One actuator: its wiring and since when it is on, in milliseconds.
#[derive(Clone, Copy, Debug, PartialEq, Eq, Structural)]
pub struct Actuator {
    pub pin_type: PinType,
    pub active_since: Option<u64>,
    /// Longest time for which it may stay on, in milliseconds.
    pub activation_limit: Option<u32>,
}

impl Actuator {
    pub fn new(pin_type: PinType) -> (actuator: Self)
        ensures
            actuator == (Actuator { pin_type, active_since: None, activation_limit: None }),
    {
        Self { pin_type, active_since: None, activation_limit: None }
    }

    /// The actuator after a command at time `now`, and the level to set
    /// its pin to; `None` for an action that actuators do not know yet.
    pub open spec fn spec_execute(self, action: Action, now: u64) -> Option<(Actuator, bool)> {
        match action {
            Action::On => Some(
                (Actuator { active_since: Some(now), ..self }, self.pin_type.spec_level(true)),
            ),
            Action::Off => Some(
                (Actuator { active_since: None, ..self }, self.pin_type.spec_level(false)),
            ),
            _ => None,
        }
    }
}

/// Some actuators, commanded by their numbers.
pub struct ActuatorCtrl {
    pub actuators: Vec<Actuator>,
}

impl ActuatorCtrl {
    /// What a command does: the actuators after it, and the level to set
    /// the pin of the commanded one to. `None` for a command to an actuator
    /// that is not there, and for an action that actuators do not know yet.
    pub open spec fn spec_execute(actuators: Seq<Actuator>, cmd: Command, now: u64) -> Option<
        (Seq<Actuator>, bool),
    > {
        if cmd.actuator_idx < actuators.len() {
            match actuators[cmd.actuator_idx as int].spec_execute(cmd.action, now) {
                Some((actuator, high)) => Some(
                    (actuators.update(cmd.actuator_idx as int, actuator), high),
                ),
                None => None,
            }
        } else {
            None
        }
    }

    pub fn new(actuators: Vec<Actuator>) -> (ctrl: Self)
        ensures
            ctrl.actuators == actuators,
    {
        Self { actuators }
    }

    /// Carries out a command at time `now` and returns the level to set the
    /// pin of the actuator to. A command that cannot be carried out changes
    /// nothing.
    pub fn try_execute(&mut self, cmd: Command, now: u64) -> (high: Option<bool>)
        ensures
            match Self::spec_execute(old(self).actuators@, cmd, now) {
                Some((actuators, level)) => high == Some(level) && final(self).actuators@
                    == actuators,
                None => high is None && final(self).actuators@ == old(self).actuators@,
            },
    {
        if cmd.actuator_idx >= self.actuators.len() {
            return None;
        }
        let actuator = self.actuators[cmd.actuator_idx];
        match cmd.action {
            Action::On => {
                self.actuators[cmd.actuator_idx] = Actuator { active_since: Some(now), ..actuator };
                Some(actuator.pin_type.level(true))
            },
            Action::Off => {
                self.actuators[cmd.actuator_idx] = Actuator { active_since: None, ..actuator };
                Some(actuator.pin_type.level(false))
            },
            _ => None,
        }
    }

    /// Carries out a command that can be carried out, at time `now`, and
    /// returns the level to set the pin of the actuator to.
    pub fn execute(&mut self, cmd: Command, now: u64) -> (high: bool)
        requires
            Self::spec_execute(old(self).actuators@, cmd, now) is Some,
        ensures
            Some((final(self).actuators@, high)) == Self::spec_execute(
                old(self).actuators@,
                cmd,
                now,
            ),
    {
        match self.try_execute(cmd, now) {
            Some(high) => high,
            None => vstd::pervasive::unreached(),
        }
    }
}

} // verus!
