//! Transport policy of the bus: what to do with a frame when the transmit
//! queue is full.
//!
//! The queue itself belongs to the driver. The caller tries to queue the
//! frame, tells [`Transmission::attempted`] how it went and does what the
//! answer says.

use vstd::prelude::*;
use crate::buttonsmash::consts::{Event, ShutterIdx};
use crate::buttonsmash::shutters::Cmd;
use crate::components::message::{
    Message,
    MessageRaw,
    OutputState,
    MSG_CALL_PROC,
    MSG_CALL_SHUTTER,
    MSG_ERROR,
    MSG_INFO,
    MSG_INPUT_CHANGED,
    MSG_OUTPUT_CHANGED,
    MSG_PING,
    MSG_PONG,
    MSG_REQUEST_STATUS,
    MSG_SET_OUTPUT,
    MSG_STATUS,
    MSG_TIME_ANNOUNCEMENT,
    MSG_TRIGGER_INPUT,
};
use crate::components::status::Problem;
use crate::config::BROADCAST_ADDRESS;
use crate::io::events::ButtonEvent;

verus! {

/// Frames that the transmit queue holds, and the receive queue too.
pub const QUEUE_FRAMES: usize = 4;

/// Retries of a frame that waits for room.
pub const TX_RETRIES: u8 = 8;

/// Wait before the first retry, in microseconds: a little more than the
/// longest frame takes at 250 kbit/s.
pub const TX_BACKOFF_START_US: u32 = 600;

/// By how much each wait is longer than the one before, in microseconds.
pub const TX_BACKOFF_STEP_US: u32 = 500;

/// What to do when the transmit queue is full.
#[derive(Clone, Copy, Debug, PartialEq, Eq, Structural)]
pub enum WhenFull {
    /// Give the frame up at once.
    Drop,
    /// Wait for room, however long it takes.
    Block,
    /// Retry a few times, then give the frame up.
    Wait,
}

/// What to do after an attempt to queue a frame.
#[derive(Clone, Copy, Debug, PartialEq, Eq, Structural)]
pub enum TxStep {
    /// The frame is queued: the transmission succeeded.
    Sent,
    /// The frame is given up: count it, the transmission failed.
    Dropped,
    /// Wait until the queue has room and queue the frame then.
    AwaitSpace,
    /// Wait this many microseconds and try again.
    RetryAfter(u32),
}

/// One frame on its way into the transmit queue.
#[derive(Clone, Copy, Debug, PartialEq, Eq, Structural)]
pub struct Transmission {
    pub when_full: WhenFull,
    /// Retries that were asked for so far.
    pub retries: u8,
}

/// Wait before retry number `retry`, counted from 0, in microseconds.
pub open spec fn backoff_us(retry: int) -> int {
    TX_BACKOFF_START_US + TX_BACKOFF_STEP_US * retry
}

/// Sum of the waits before the first `retries` retries, in microseconds.
pub open spec fn total_backoff_us(retries: int) -> int
    decreases retries,
{
    if retries <= 0 {
        0
    } else {
        total_backoff_us(retries - 1) + backoff_us(retries - 1)
    }
}

impl Transmission {
    /// What an attempt that found the queue full leads to.
    pub open spec fn spec_full(self) -> (Transmission, TxStep) {
        match self.when_full {
            WhenFull::Drop => (self, TxStep::Dropped),
            WhenFull::Block => (self, TxStep::AwaitSpace),
            WhenFull::Wait => if self.retries < TX_RETRIES {
                (
                    Transmission { retries: (self.retries + 1) as u8, ..self },
                    TxStep::RetryAfter(backoff_us(self.retries as int) as u32),
                )
            } else {
                (self, TxStep::Dropped)
            },
        }
    }

    /// The transmission after `n` attempts that all found the queue full.
    pub open spec fn spec_after_full(self, n: nat) -> Transmission
        decreases n,
    {
        if n == 0 {
            self
        } else {
            self.spec_after_full((n - 1) as nat).spec_full().0
        }
    }

    pub fn new(when_full: WhenFull) -> (transmission: Self)
        ensures
            transmission == (Transmission { when_full, retries: 0 }),
    {
        Transmission { when_full, retries: 0 }
    }

    /// Takes the outcome of an attempt to queue the frame.
    pub fn attempted(&mut self, queued: bool) -> (step: TxStep)
        ensures
            queued ==> step == TxStep::Sent && *final(self) == *old(self),
            !queued ==> (*final(self), step) == old(self).spec_full(),
    {
        if queued {
            return TxStep::Sent;
        }
        match self.when_full {
            WhenFull::Drop => TxStep::Dropped,
            WhenFull::Block => TxStep::AwaitSpace,
            WhenFull::Wait => {
                if self.retries < TX_RETRIES {
                    let wait: u32 = TX_BACKOFF_START_US + TX_BACKOFF_STEP_US * (self.retries
                        as u32);
                    self.retries = self.retries + 1;
                    TxStep::RetryAfter(wait)
                } else {
                    TxStep::Dropped
                }
            },
        }
    }

    /// The problem to count after an attempt: a frame that was given up.
    pub fn problem(step: TxStep) -> (problem: Option<Problem>)
        ensures
            problem == if step == TxStep::Dropped {
                Some(Problem::CanDrop)
            } else {
                None
            },
    {
        match step {
            TxStep::Dropped => Some(Problem::CanDrop),
            _ => None,
        }
    }

    /// Whether the transmission succeeded, once it has ended. `None` while
    /// the caller still has to wait.
    pub fn succeeded(step: TxStep) -> (done: Option<bool>)
        ensures
            done == match step {
                TxStep::Sent => Some(true),
                TxStep::Dropped => Some(false),
                _ => None::<bool>,
            },
    {
        match step {
            TxStep::Sent => Some(true),
            TxStep::Dropped => Some(false),
            _ => None,
        }
    }

    /// A frame that waits for room is retried eight times, each time after a
    /// longer wait, and is given up at the ninth full queue; all the waits
    /// together take 18.8 ms.
    pub proof fn lemma_wait_gives_up(n: nat)
        requires
            n <= TX_RETRIES,
        ensures
            ({
                let t = (Transmission { when_full: WhenFull::Wait, retries: 0 }).spec_after_full(n);
                &&& t.retries == n
                &&& t.when_full == WhenFull::Wait
                &&& n < TX_RETRIES ==> t.spec_full().1 == TxStep::RetryAfter(
                    (600 + 500 * n) as u32,
                )
                &&& n == TX_RETRIES ==> t.spec_full() == (t, TxStep::Dropped)
            }),
            total_backoff_us(TX_RETRIES as int) == 18_800,
        decreases n,
    {
        if n > 0 {
            Self::lemma_wait_gives_up((n - 1) as nat);
        }
        assert(total_backoff_us(8) == 18_800) by {
            reveal_with_fuel(total_backoff_us, 9);
        }
    }

    /// A frame that may be dropped is tried once; one that blocks is never
    /// given up.
    pub proof fn lemma_drop_and_block(t: Transmission)
        ensures
            t.when_full == WhenFull::Drop ==> t.spec_full() == (t, TxStep::Dropped),
            t.when_full == WhenFull::Block ==> t.spec_full() == (t, TxStep::AwaitSpace),
    {
    }
}

/// A time of day, as a node announces it.
#[derive(Clone, Copy, Debug, PartialEq, Eq, Structural)]
pub struct TimeOfDay {
    pub year: u16,
    pub month: u8,
    pub day: u8,
    pub hour: u8,
    pub minute: u8,
    pub second: u8,
    /// Day of the week, 0 for Monday up to 6 for Sunday.
    pub day_of_week: u8,
}

/// What a node does with a frame that it received.
#[derive(Clone, Copy, Debug, PartialEq, Eq, Structural)]
pub enum Routed {
    /// Hand the event to the engine.
    Event(Event),
    /// Hand the command to the shutters.
    Shutter(ShutterIdx, Cmd),
    /// Set the clock.
    SetTime(TimeOfDay),
    /// Send the message back, under the address of this node.
    Reply(Message),
    /// Nothing: the frame is for another node, or it tells what this node
    /// has no use for.
    Ignored,
    /// Nothing: the frame stands for no message. A problem is to be counted
    /// where one is named.
    Dropped(Option<Problem>),
}

/// Whether a type of message is known.
pub open spec fn known_type(msg_type: u8) -> bool {
    ||| msg_type == MSG_ERROR
    ||| msg_type == MSG_OUTPUT_CHANGED
    ||| msg_type == MSG_INPUT_CHANGED
    ||| msg_type == MSG_SET_OUTPUT
    ||| msg_type == MSG_TRIGGER_INPUT
    ||| msg_type == MSG_CALL_PROC
    ||| msg_type == MSG_CALL_SHUTTER
    ||| msg_type == MSG_REQUEST_STATUS
    ||| msg_type == MSG_STATUS
    ||| msg_type == MSG_TIME_ANNOUNCEMENT
    ||| msg_type == MSG_INFO
    ||| msg_type == MSG_PONG
    ||| msg_type == MSG_PING
}

/// Whether a frame under an address is meant for a node.
pub open spec fn addressed_to(addr: u8, local: u8) -> bool {
    addr == local || addr == BROADCAST_ADDRESS
}

/// What a node does with a message that came under an address.
///
/// Requests are acted on where they are addressed to the node or to all
/// nodes; the time of day only where it is addressed to all. What other
/// nodes tell of themselves is ignored.
pub open spec fn spec_route_message(message: Message, addr: u8, local: u8) -> Routed {
    match message {
        Message::SetOutput { output, state } => if addressed_to(addr, local) {
            Routed::Event(
                match state {
                    OutputState::On => Event::RemoteActivate(output),
                    OutputState::Off => Event::RemoteDeactivate(output),
                    OutputState::Toggle => Event::RemoteToggle(output),
                },
            )
        } else {
            Routed::Ignored
        },
        Message::TriggerInput { input, trigger } => if addressed_to(addr, local) {
            Routed::Event(Event::ButtonEvent(ButtonEvent { switch_id: input, trigger }))
        } else {
            Routed::Ignored
        },
        Message::CallProcedure { proc_id } => if addressed_to(addr, local) {
            Routed::Event(Event::RemoteProcedureCall(proc_id))
        } else {
            Routed::Ignored
        },
        Message::ShutterCmd { shutter_idx, cmd } => if addressed_to(addr, local) {
            Routed::Shutter(shutter_idx, cmd)
        } else {
            Routed::Ignored
        },
        Message::RequestStatus => if addressed_to(addr, local) {
            Routed::Event(Event::RemoteStatusRequest)
        } else {
            Routed::Ignored
        },
        Message::Ping { body } => if addressed_to(addr, local) {
            Routed::Reply(Message::Pong { body })
        } else {
            Routed::Ignored
        },
        Message::TimeAnnouncement { year, month, day, hour, minute, second, day_of_week } => if addr
            == BROADCAST_ADDRESS && day_of_week <= 6 {
            Routed::SetTime(TimeOfDay { year, month, day, hour, minute, second, day_of_week })
        } else {
            Routed::Ignored
        },
        _ => Routed::Ignored,
    }
}

/// What a node does with what the bus handed over: a frame, or an error.
///
/// An error and a frame of an unknown type are counted and dropped; a
/// frame of a known type that stands for no message is dropped.
pub open spec fn spec_route(
    received: Option<(u8, u8, Seq<u8>)>,
    local: u8,
) -> Routed {
    match received {
        None => Routed::Dropped(Some(Problem::CanFrameError)),
        Some((addr, msg_type, payload)) => match Message::spec_decode(msg_type, payload) {
            Some(message) => spec_route_message(message, addr, local),
            None => if known_type(msg_type) {
                Routed::Dropped(None)
            } else {
                Routed::Dropped(Some(Problem::CanFrameError))
            },
        },
    }
}

/// Decides what to do with a message that came under an address.
pub fn route_message(message: &Message, addr: u8, local: u8) -> (routed: Routed)
    ensures
        routed == spec_route_message(*message, addr, local),
{
    let mine = addr == local || addr == BROADCAST_ADDRESS;
    match *message {
        Message::SetOutput { output, state } => {
            if mine {
                Routed::Event(
                    match state {
                        OutputState::On => Event::RemoteActivate(output),
                        OutputState::Off => Event::RemoteDeactivate(output),
                        OutputState::Toggle => Event::RemoteToggle(output),
                    },
                )
            } else {
                Routed::Ignored
            }
        },
        Message::TriggerInput { input, trigger } => {
            if mine {
                Routed::Event(Event::new_button(input, trigger))
            } else {
                Routed::Ignored
            }
        },
        Message::CallProcedure { proc_id } => {
            if mine {
                Routed::Event(Event::RemoteProcedureCall(proc_id))
            } else {
                Routed::Ignored
            }
        },
        Message::ShutterCmd { shutter_idx, cmd } => {
            if mine {
                Routed::Shutter(shutter_idx, cmd)
            } else {
                Routed::Ignored
            }
        },
        Message::RequestStatus => {
            if mine {
                Routed::Event(Event::RemoteStatusRequest)
            } else {
                Routed::Ignored
            }
        },
        Message::Ping { body } => {
            if mine {
                Routed::Reply(Message::Pong { body })
            } else {
                Routed::Ignored
            }
        },
        Message::TimeAnnouncement { year, month, day, hour, minute, second, day_of_week } => {
            if addr == BROADCAST_ADDRESS && day_of_week <= 6 {
                Routed::SetTime(TimeOfDay { year, month, day, hour, minute, second, day_of_week })
            } else {
                Routed::Ignored
            }
        },
        _ => Routed::Ignored,
    }
}

fn is_known_type(msg_type: u8) -> (known: bool)
    ensures
        known == known_type(msg_type),
{
    msg_type == MSG_ERROR || msg_type == MSG_OUTPUT_CHANGED || msg_type == MSG_INPUT_CHANGED
        || msg_type == MSG_SET_OUTPUT || msg_type == MSG_TRIGGER_INPUT || msg_type
        == MSG_CALL_PROC || msg_type == MSG_CALL_SHUTTER || msg_type == MSG_REQUEST_STATUS
        || msg_type == MSG_STATUS || msg_type == MSG_TIME_ANNOUNCEMENT || msg_type == MSG_INFO
        || msg_type == MSG_PONG || msg_type == MSG_PING
}

/// Decides what to do with what the bus handed over.
pub fn route(received: &Result<MessageRaw, ()>, local: u8) -> (routed: Routed)
    ensures
        routed == spec_route(
            match *received {
                Ok(raw) => Some((raw@.addr, raw@.msg_type, raw@.payload)),
                Err(_) => None,
            },
            local,
        ),
{
    match received {
        Err(_) => Routed::Dropped(Some(Problem::CanFrameError)),
        Ok(raw) => {
            let (addr, msg_type) = raw.addr_type();
            match Message::from_raw(raw) {
                Some(message) => route_message(&message, addr, local),
                None => {
                    if is_known_type(msg_type) {
                        Routed::Dropped(None)
                    } else {
                        Routed::Dropped(Some(Problem::CanFrameError))
                    }
                },
            }
        },
    }
}

} // verus!
