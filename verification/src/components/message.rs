//! Messages of the bus and their frames.
//!
//! A frame is addressed by 11 bits, five for the type of the message and six
//! for a node, and carries up to eight bytes. Lower types win the bus, so
//! rare and urgent messages have the low numbers. Numbers are little-endian.

use vstd::prelude::*;
use vstd::slice::slice_subrange;
use crate::buttonsmash::consts::{InIdx, OutIdx, ProcIdx, ShutterIdx};
use crate::buttonsmash::shutters::Cmd;
use crate::components::can_id::{standard_bits, standard_id, standard_raw};
use crate::io::events::Trigger;

verus! {

/// Something went wrong on a node.
pub const MSG_ERROR: u8 = 0x02;

/// An output of the sender changed.
pub const MSG_OUTPUT_CHANGED: u8 = 0x04;

/// An input of the sender changed.
pub const MSG_INPUT_CHANGED: u8 = 0x05;

/// Set an output of the receiver.
pub const MSG_SET_OUTPUT: u8 = 0x08;

/// Act as if an input of the receiver had been triggered.
pub const MSG_TRIGGER_INPUT: u8 = 0x09;

/// Run a procedure of the receiver.
pub const MSG_CALL_PROC: u8 = 0x0A;

/// Command a shutter of the receiver.
pub const MSG_CALL_SHUTTER: u8 = 0x0B;

/// Ask the receiver for its state.
pub const MSG_REQUEST_STATUS: u8 = 0x0D;

/// Periodic state of the sender.
pub const MSG_STATUS: u8 = 0x10;

/// The time of day.
pub const MSG_TIME_ANNOUNCEMENT: u8 = 0x11;

/// Something worth telling happened on a node.
pub const MSG_INFO: u8 = 0x12;

/// Answer to a ping.
pub const MSG_PONG: u8 = 0x1D;

/// Request for an answer.
pub const MSG_PING: u8 = 0x1E;

/// Most bytes that a frame carries.
pub const MAX_PAYLOAD: usize = 8;

/// Codes of the `Info` message.
#[derive(Clone, Copy, Debug, PartialEq, Eq, Structural)]
pub enum InfoCode {
    /// The node started.
    Started,
}

impl InfoCode {
    pub open spec fn code(self) -> u16 {
        10
    }

    pub fn to_bytes(self) -> (raw: u16)
        ensures
            raw == self.code(),
    {
        10
    }
}

/// State of an output, reported or asked for.
#[derive(Clone, Copy, Debug, PartialEq, Eq, Structural)]
pub enum OutputState {
    Off,
    On,
    Toggle,
}

impl OutputState {
    /// The number that stands for a state on the bus.
    pub open spec fn code(self) -> u8 {
        match self {
            OutputState::Off => 0,
            OutputState::On => 1,
            OutputState::Toggle => 2,
        }
    }

    /// The state that a number stands for, if any.
    pub open spec fn decode(raw: u8) -> Option<OutputState> {
        if raw == 0 {
            Some(OutputState::Off)
        } else if raw == 1 {
            Some(OutputState::On)
        } else if raw == 2 {
            Some(OutputState::Toggle)
        } else {
            None
        }
    }

    pub fn to_bytes(self) -> (raw: u8)
        ensures
            raw == self.code(),
    {
        match self {
            OutputState::Off => 0,
            OutputState::On => 1,
            OutputState::Toggle => 2,
        }
    }

    pub fn from_u8(raw: u8) -> (state: Option<OutputState>)
        ensures
            state == OutputState::decode(raw),
    {
        match raw {
            0 => Some(OutputState::Off),
            1 => Some(OutputState::On),
            2 => Some(OutputState::Toggle),
            _ => None,
        }
    }
}

/// Byte `k` of a number, counted from the least significant one.
pub open spec fn byte_of(x: u32, k: u32) -> u8 {
    ((x >> (8 * k) as u32) & 0xff) as u8
}

/// The 16-bit number that two little-endian bytes make.
pub open spec fn le16(b0: u8, b1: u8) -> u16 {
    (b0 as u16) | ((b1 as u16) << 8)
}

/// The 32-bit number that four little-endian bytes make.
pub open spec fn le32(b0: u8, b1: u8, b2: u8, b3: u8) -> u32 {
    (b0 as u32) | ((b1 as u32) << 8) | ((b2 as u32) << 16) | ((b3 as u32) << 24)
}

/// A decoded message.
#[derive(Clone, Copy, Debug, PartialEq, Eq, Structural)]
#[allow(inconsistent_fields)]
pub enum Message {
    /// Something went wrong; the code says what.
    Error { code: u32 },
    /// Something worth telling happened, such as a start.
    Info { code: u16, arg: u32 },
    /// An output of the sender changed.
    OutputChanged { output: OutIdx, state: OutputState },
    /// An input of the sender was triggered.
    InputChanged { input: InIdx, trigger: Trigger },
    /// Request: set, clear or invert an output.
    SetOutput { output: OutIdx, state: OutputState },
    /// Request: act as if an input had been triggered.
    TriggerInput { input: InIdx, trigger: Trigger },
    /// Request: command a shutter.
    ShutterCmd { shutter_idx: ShutterIdx, cmd: Cmd },
    /// Request: report the state of all inputs and outputs.
    RequestStatus,
    /// Request for a `Pong` with the same body.
    Ping { body: u16 },
    /// Answer to a `Ping`.
    Pong { body: u16 },
    /// Periodic state of the sender.
    Status { uptime: u32, inputs: u16, outputs: u16 },
    /// The time of day, for all nodes.
    TimeAnnouncement {
        year: u16,
        month: u8,
        day: u8,
        hour: u8,
        minute: u8,
        second: u8,
        day_of_week: u8,
    },
    /// Request: run a procedure.
    CallProcedure { proc_id: ProcIdx },
}

impl Message {
    /// The type under which a message travels.
    pub open spec fn spec_type(self) -> u8 {
        match self {
            Message::Error { .. } => MSG_ERROR,
            Message::Info { .. } => MSG_INFO,
            Message::OutputChanged { .. } => MSG_OUTPUT_CHANGED,
            Message::InputChanged { .. } => MSG_INPUT_CHANGED,
            Message::SetOutput { .. } => MSG_SET_OUTPUT,
            Message::TriggerInput { .. } => MSG_TRIGGER_INPUT,
            Message::ShutterCmd { .. } => MSG_CALL_SHUTTER,
            Message::RequestStatus => MSG_REQUEST_STATUS,
            Message::Ping { .. } => MSG_PING,
            Message::Pong { .. } => MSG_PONG,
            Message::Status { .. } => MSG_STATUS,
            Message::TimeAnnouncement { .. } => MSG_TIME_ANNOUNCEMENT,
            Message::CallProcedure { .. } => MSG_CALL_PROC,
        }
    }

    /// The bytes that a message travels as.
    pub open spec fn spec_payload(self) -> Seq<u8> {
        match self {
            Message::Error { code } => seq![
                byte_of(code, 0),
                byte_of(code, 1),
                byte_of(code, 2),
                byte_of(code, 3),
            ],
            Message::Info { code, arg } => seq![
                byte_of(code as u32, 0),
                byte_of(code as u32, 1),
                byte_of(arg, 0),
                byte_of(arg, 1),
                byte_of(arg, 2),
                byte_of(arg, 3),
            ],
            Message::OutputChanged { output, state } => seq![output, state.code()],
            Message::InputChanged { input, trigger } => seq![input, trigger.code()],
            Message::SetOutput { output, state } => seq![output, state.code()],
            Message::TriggerInput { input, trigger } => seq![input, trigger.code()],
            Message::ShutterCmd { shutter_idx, cmd } => seq![
                shutter_idx,
                cmd.spec_code(),
                cmd.spec_args().0,
                cmd.spec_args().1,
                0u8,
                0u8,
                0u8,
            ],
            Message::RequestStatus => Seq::empty(),
            Message::Ping { body } => seq![byte_of(body as u32, 0), byte_of(body as u32, 1)],
            Message::Pong { body } => seq![byte_of(body as u32, 0), byte_of(body as u32, 1)],
            Message::Status { uptime, inputs, outputs } => seq![
                byte_of(uptime, 0),
                byte_of(uptime, 1),
                byte_of(uptime, 2),
                byte_of(uptime, 3),
                byte_of(inputs as u32, 0),
                byte_of(inputs as u32, 1),
                byte_of(outputs as u32, 0),
                byte_of(outputs as u32, 1),
            ],
            Message::TimeAnnouncement {
                year,
                month,
                day,
                hour,
                minute,
                second,
                day_of_week,
            } => seq![
                byte_of(year as u32, 0),
                byte_of(year as u32, 1),
                month,
                day,
                hour,
                minute,
                second,
                day_of_week,
            ],
            Message::CallProcedure { proc_id } => seq![proc_id],
        }
    }

    /// The message that a type and its bytes stand for. A type that is not
    /// known, a length that is not the one of the type and a code that names
    /// nothing give no message.
    pub open spec fn spec_decode(msg_type: u8, p: Seq<u8>) -> Option<Message> {
        if msg_type == MSG_ERROR {
            if p.len() == 4 {
                Some(Message::Error { code: le32(p[0], p[1], p[2], p[3]) })
            } else {
                None
            }
        } else if msg_type == MSG_INFO {
            if p.len() == 6 {
                Some(Message::Info { code: le16(p[0], p[1]), arg: le32(p[2], p[3], p[4], p[5]) })
            } else {
                None
            }
        } else if msg_type == MSG_OUTPUT_CHANGED {
            if p.len() == 2 && OutputState::decode(p[1]) is Some {
                Some(
                    Message::OutputChanged {
                        output: p[0],
                        state: OutputState::decode(p[1]).unwrap(),
                    },
                )
            } else {
                None
            }
        } else if msg_type == MSG_INPUT_CHANGED {
            if p.len() == 2 && Trigger::decode(p[1]) is Some {
                Some(Message::InputChanged { input: p[0], trigger: Trigger::decode(p[1]).unwrap() })
            } else {
                None
            }
        } else if msg_type == MSG_SET_OUTPUT {
            if p.len() == 2 && OutputState::decode(p[1]) is Some {
                Some(Message::SetOutput { output: p[0], state: OutputState::decode(p[1]).unwrap() })
            } else {
                None
            }
        } else if msg_type == MSG_TRIGGER_INPUT {
            if p.len() == 2 && Trigger::decode(p[1]) is Some {
                Some(Message::TriggerInput { input: p[0], trigger: Trigger::decode(p[1]).unwrap() })
            } else {
                None
            }
        } else if msg_type == MSG_CALL_SHUTTER {
            if p.len() == 7 && Cmd::spec_decode(p[1], p[2], p[3]) is Some {
                Some(
                    Message::ShutterCmd {
                        shutter_idx: p[0],
                        cmd: Cmd::spec_decode(p[1], p[2], p[3]).unwrap(),
                    },
                )
            } else {
                None
            }
        } else if msg_type == MSG_REQUEST_STATUS {
            if p.len() == 0 {
                Some(Message::RequestStatus)
            } else {
                None
            }
        } else if msg_type == MSG_PING {
            if p.len() == 2 {
                Some(Message::Ping { body: le16(p[0], p[1]) })
            } else {
                None
            }
        } else if msg_type == MSG_PONG {
            if p.len() == 2 {
                Some(Message::Pong { body: le16(p[0], p[1]) })
            } else {
                None
            }
        } else if msg_type == MSG_STATUS {
            if p.len() == 8 {
                Some(
                    Message::Status {
                        uptime: le32(p[0], p[1], p[2], p[3]),
                        inputs: le16(p[4], p[5]),
                        outputs: le16(p[6], p[7]),
                    },
                )
            } else {
                None
            }
        } else if msg_type == MSG_TIME_ANNOUNCEMENT {
            if p.len() == 8 {
                Some(
                    Message::TimeAnnouncement {
                        year: le16(p[0], p[1]),
                        month: p[2],
                        day: p[3],
                        hour: p[4],
                        minute: p[5],
                        second: p[6],
                        day_of_week: p[7],
                    },
                )
            } else {
                None
            }
        } else if msg_type == MSG_CALL_PROC {
            if p.len() == 1 {
                Some(Message::CallProcedure { proc_id: p[0] })
            } else {
                None
            }
        } else {
            None
        }
    }
}

/// Byte `k` of a number, counted from the least significant one.
fn byte(x: u32, k: u32) -> (b: u8)
    requires
        k < 4,
    ensures
        b == byte_of(x, k),
{
    ((x >> (8 * k)) & 0xff) as u8
}

fn read16(b0: u8, b1: u8) -> (x: u16)
    ensures
        x == le16(b0, b1),
{
    (b0 as u16) | ((b1 as u16) << 8)
}

fn read32(b0: u8, b1: u8, b2: u8, b3: u8) -> (x: u32)
    ensures
        x == le32(b0, b1, b2, b3),
{
    (b0 as u32) | ((b1 as u32) << 8) | ((b2 as u32) << 16) | ((b3 as u32) << 24)
}

/// Four little-endian bytes make the number that they were taken from.
pub proof fn lemma_le32_of_bytes(x: u32)
    ensures
        le32(byte_of(x, 0), byte_of(x, 1), byte_of(x, 2), byte_of(x, 3)) == x,
{
    assert((((x >> 0u32) & 0xff) as u8 as u32) | ((((x >> 8u32) & 0xff) as u8 as u32) << 8) | ((((x
        >> 16u32) & 0xff) as u8 as u32) << 16) | ((((x >> 24u32) & 0xff) as u8 as u32) << 24) == x)
        by (bit_vector);
}

/// Two little-endian bytes make the number that they were taken from.
pub proof fn lemma_le16_of_bytes(x: u16)
    ensures
        le16(byte_of(x as u32, 0), byte_of(x as u32, 1)) == x,
{
    let w = x as u32;
    assert(w <= 0xffff);
    assert(w <= 0xffff ==> ((((w >> 0u32) & 0xff) as u8 as u16) | ((((w >> 8u32) & 0xff) as u8
        as u16) << 8)) as u32 == w) by (bit_vector);
}

/// What a frame holds: the node, the type of the message and the bytes.
pub struct RawView {
    pub addr: u8,
    pub msg_type: u8,
    pub payload: Seq<u8>,
}

/// A frame, ready to be sent or just received.
#[derive(Clone, Copy, Debug)]
pub struct MessageRaw {
    /// The node: the sender of an answer, the receiver of a request.
    addr: u8,
    msg_type: u8,
    length: u8,
    data: [u8; 8],
}

impl View for MessageRaw {
    type V = RawView;

    closed spec fn view(&self) -> RawView {
        RawView {
            addr: self.addr,
            msg_type: self.msg_type,
            payload: self.data@.subrange(0, self.length as int),
        }
    }
}

/// The 11-bit identifier made of a type and a node.
pub open spec fn spec_can_addr(msg_type: u8, addr: u8) -> u16 {
    ((msg_type as u16 & 0x1F) << 6) | (addr as u16 & 0x3F)
}

/// The type and the node that an 11-bit identifier is made of.
pub open spec fn spec_split_can_addr(can_addr: u16) -> (u8, u8) {
    (((can_addr >> 6) & 0x1F) as u8, (can_addr & 0x3F) as u8)
}

impl MessageRaw {
    #[verifier::type_invariant]
    spec fn well_formed(self) -> bool {
        self.length <= 8
    }

    fn filled(addr: u8, msg_type: u8, data: &[u8]) -> (raw: Self)
        requires
            data@.len() <= MAX_PAYLOAD,
        ensures
            raw@ == (RawView { addr, msg_type, payload: data@ }),
    {
        let mut bytes: [u8; 8] = [0u8;8];
        let mut i: usize = 0;
        while i < data.len()
            invariant
                i <= data@.len() <= 8,
                forall|k: int| 0 <= k < i ==> bytes[k] == data@[k],
            decreases data@.len() - i,
        {
            bytes[i] = data[i];
            i += 1;
        }
        let raw = Self { addr, msg_type, length: data.len() as u8, data: bytes };
        assert(raw@.payload =~= data@);
        raw
    }

    pub fn from_bytes(addr: u8, msg_type: u8, data: &[u8]) -> (raw: Self)
        requires
            data@.len() <= MAX_PAYLOAD,
        ensures
            raw@ == (RawView { addr, msg_type, payload: data@ }),
    {
        Self::filled(addr, msg_type, data)
    }

    /// The frame that was received under an 11-bit identifier.
    pub fn from_can(can_addr: u16, data: &[u8]) -> (raw: Self)
        requires
            data@.len() <= MAX_PAYLOAD,
        ensures
            raw@ == (RawView {
                addr: spec_split_can_addr(can_addr).1,
                msg_type: spec_split_can_addr(can_addr).0,
                payload: data@,
            }),
    {
        let (msg_type, addr) = Self::split_can_addr(can_addr);
        Self::filled(addr, msg_type, data)
    }

    /// The 11-bit identifier under which the frame travels.
    pub fn to_can_addr(&self) -> (can_addr: u16)
        ensures
            can_addr == spec_can_addr(self@.msg_type, self@.addr),
            can_addr <= 0x7FF,
    {
        let t: u16 = self.msg_type as u16;
        let a: u16 = self.addr as u16;
        assert(((t & 0x1F) << 6) | (a & 0x3F) <= 0x7FF) by (bit_vector);
        ((t & 0x1F) << 6) | (a & 0x3F)
    }

    /// Splits an 11-bit identifier into the type of the message and the node.
    pub fn split_can_addr(can_addr: u16) -> (parts: (u8, u8))
        ensures
            parts == spec_split_can_addr(can_addr),
            parts.0 <= 0x1F,
            parts.1 <= 0x3F,
    {
        assert((can_addr >> 6) & 0x1F <= 0x1F) by (bit_vector);
        assert(can_addr & 0x3F <= 0x3F) by (bit_vector);
        let device_addr: u8 = (can_addr & 0x3F) as u8;
        let msg_type: u8 = ((can_addr >> 6) & 0x1F) as u8;
        (msg_type, device_addr)
    }

    /// The node and the type of the message, in this order.
    pub fn addr_type(&self) -> (parts: (u8, u8))
        ensures
            parts == (self@.addr, self@.msg_type),
    {
        (self.addr, self.msg_type)
    }

    pub fn length(&self) -> (length: u8)
        ensures
            length == self@.payload.len(),
            length <= MAX_PAYLOAD,
    {
        proof {
            use_type_invariant(self);
        }
        self.length
    }

    /// The identifier under which the frame travels, for a driver of the bus.
    pub fn to_can_id(&self) -> (id: embedded_can::Id)
        ensures
            standard_bits(id) == Some(spec_can_addr(self@.msg_type, self@.addr)),
    {
        match standard_id(self.to_can_addr()) {
            Some(id) => id,
            None => vstd::pervasive::unreached(),
        }
    }

    /// The frame that a driver of the bus received. A frame with an extended
    /// identifier, or with more than eight bytes, is an error.
    pub fn from_can_id(id: &embedded_can::Id, data: &[u8]) -> (res: Result<Self, ()>)
        ensures
            res is Ok <==> standard_bits(*id) is Some && data@.len() <= MAX_PAYLOAD,
            res is Ok ==> res.unwrap()@ == (RawView {
                addr: spec_split_can_addr(standard_bits(*id).unwrap()).1,
                msg_type: spec_split_can_addr(standard_bits(*id).unwrap()).0,
                payload: data@,
            }),
    {
        if data.len() > MAX_PAYLOAD {
            return Err(());
        }
        match standard_raw(id) {
            Some(can_addr) => Ok(Self::from_can(can_addr, data)),
            None => Err(()),
        }
    }

    pub fn data_as_slice(&self) -> (data: &[u8])
        ensures
            data@ == self@.payload,
    {
        proof {
            use_type_invariant(self);
        }
        slice_subrange(self.data.as_slice(), 0, self.length as usize)
    }
}

impl Message {
    /// Reads a frame. A frame that stands for no message is dropped.
    pub fn from_raw(raw: &MessageRaw) -> (message: Option<Self>)
        ensures
            message == Message::spec_decode(raw@.msg_type, raw@.payload),
    {
        proof {
            use_type_invariant(raw);
        }
        let d = &raw.data;
        let n = raw.length;
        assert(forall|k: int| 0 <= k < n ==> raw@.payload[k] == d[k]);
        match raw.msg_type {
            MSG_ERROR => {
                if n != 4 {
                    return None;
                }
                Some(Message::Error { code: read32(d[0], d[1], d[2], d[3]) })
            },
            MSG_INFO => {
                if n != 6 {
                    return None;
                }
                Some(
                    Message::Info {
                        code: read16(d[0], d[1]),
                        arg: read32(d[2], d[3], d[4], d[5]),
                    },
                )
            },
            MSG_OUTPUT_CHANGED => {
                if n != 2 {
                    return None;
                }
                match OutputState::from_u8(d[1]) {
                    Some(state) => Some(Message::OutputChanged { output: d[0], state }),
                    None => None,
                }
            },
            MSG_INPUT_CHANGED => {
                if n != 2 {
                    return None;
                }
                match Trigger::from_u8(d[1]) {
                    Some(trigger) => Some(Message::InputChanged { input: d[0], trigger }),
                    None => None,
                }
            },
            MSG_SET_OUTPUT => {
                if n != 2 {
                    return None;
                }
                match OutputState::from_u8(d[1]) {
                    Some(state) => Some(Message::SetOutput { output: d[0], state }),
                    None => None,
                }
            },
            MSG_TRIGGER_INPUT => {
                if n != 2 {
                    return None;
                }
                match Trigger::from_u8(d[1]) {
                    Some(trigger) => Some(Message::TriggerInput { input: d[0], trigger }),
                    None => None,
                }
            },
            MSG_CALL_SHUTTER => {
                if n != 7 {
                    return None;
                }
                match Cmd::from_raw(d[1], d[2], d[3]) {
                    Some(cmd) => Some(Message::ShutterCmd { shutter_idx: d[0], cmd }),
                    None => None,
                }
            },
            MSG_REQUEST_STATUS => {
                if n != 0 {
                    return None;
                }
                Some(Message::RequestStatus)
            },
            MSG_PING => {
                if n != 2 {
                    return None;
                }
                Some(Message::Ping { body: read16(d[0], d[1]) })
            },
            MSG_PONG => {
                if n != 2 {
                    return None;
                }
                Some(Message::Pong { body: read16(d[0], d[1]) })
            },
            MSG_STATUS => {
                if n != 8 {
                    return None;
                }
                Some(
                    Message::Status {
                        uptime: read32(d[0], d[1], d[2], d[3]),
                        inputs: read16(d[4], d[5]),
                        outputs: read16(d[6], d[7]),
                    },
                )
            },
            MSG_TIME_ANNOUNCEMENT => {
                if n != 8 {
                    return None;
                }
                Some(
                    Message::TimeAnnouncement {
                        year: read16(d[0], d[1]),
                        month: d[2],
                        day: d[3],
                        hour: d[4],
                        minute: d[5],
                        second: d[6],
                        day_of_week: d[7],
                    },
                )
            },
            MSG_CALL_PROC => {
                if n != 1 {
                    return None;
                }
                Some(Message::CallProcedure { proc_id: d[0] })
            },
            _ => None,
        }
    }

    /// The frame of a message. `addr` is the node that the frame names: the
    /// receiver of a request, the sender of anything else.
    pub fn to_raw(&self, addr: u8) -> (raw: MessageRaw)
        ensures
            raw@ == (RawView {
                addr,
                msg_type: self.spec_type(),
                payload: self.spec_payload(),
            }),
    {
        let (msg_type, length, data): (u8, u8, [u8; 8]) = match *self {
            Message::Error { code } => (
                MSG_ERROR,
                4,
                [byte(code, 0), byte(code, 1), byte(code, 2), byte(code, 3), 0, 0, 0, 0],
            ),
            Message::Info { code, arg } => (
                MSG_INFO,
                6,
                [
                    byte(code as u32, 0),
                    byte(code as u32, 1),
                    byte(arg, 0),
                    byte(arg, 1),
                    byte(arg, 2),
                    byte(arg, 3),
                    0,
                    0,
                ],
            ),
            Message::OutputChanged { output, state } => (
                MSG_OUTPUT_CHANGED,
                2,
                [output, state.to_bytes(), 0, 0, 0, 0, 0, 0],
            ),
            Message::InputChanged { input, trigger } => (
                MSG_INPUT_CHANGED,
                2,
                [input, trigger.to_bytes(), 0, 0, 0, 0, 0, 0],
            ),
            Message::SetOutput { output, state } => (
                MSG_SET_OUTPUT,
                2,
                [output, state.to_bytes(), 0, 0, 0, 0, 0, 0],
            ),
            Message::TriggerInput { input, trigger } => (
                MSG_TRIGGER_INPUT,
                2,
                [input, trigger.to_bytes(), 0, 0, 0, 0, 0, 0],
            ),
            Message::ShutterCmd { shutter_idx, cmd } => {
                let (code, a, b) = cmd.to_raw();
                (MSG_CALL_SHUTTER, 7, [shutter_idx, code, a, b, 0, 0, 0, 0])
            },
            Message::RequestStatus => (MSG_REQUEST_STATUS, 0, [0, 0, 0, 0, 0, 0, 0, 0]),
            Message::Ping { body } => (
                MSG_PING,
                2,
                [byte(body as u32, 0), byte(body as u32, 1), 0, 0, 0, 0, 0, 0],
            ),
            Message::Pong { body } => (
                MSG_PONG,
                2,
                [byte(body as u32, 0), byte(body as u32, 1), 0, 0, 0, 0, 0, 0],
            ),
            Message::Status { uptime, inputs, outputs } => (
                MSG_STATUS,
                8,
                [
                    byte(uptime, 0),
                    byte(uptime, 1),
                    byte(uptime, 2),
                    byte(uptime, 3),
                    byte(inputs as u32, 0),
                    byte(inputs as u32, 1),
                    byte(outputs as u32, 0),
                    byte(outputs as u32, 1),
                ],
            ),
            Message::TimeAnnouncement { year, month, day, hour, minute, second, day_of_week } => (
                MSG_TIME_ANNOUNCEMENT,
                8,
                [
                    byte(year as u32, 0),
                    byte(year as u32, 1),
                    month,
                    day,
                    hour,
                    minute,
                    second,
                    day_of_week,
                ],
            ),
            Message::CallProcedure { proc_id } => (
                MSG_CALL_PROC,
                1,
                [proc_id, 0, 0, 0, 0, 0, 0, 0],
            ),
        };
        let raw = MessageRaw { addr, msg_type, length, data };
        assert(raw@.payload =~= self.spec_payload());
        raw
    }

    /// A frame that was made of a message reads as that message, and no
    /// message needs more bytes than a frame carries.
    pub proof fn lemma_decode_encode(self)
        ensures
            Message::spec_decode(self.spec_type(), self.spec_payload()) == Some(self),
            self.spec_payload().len() <= MAX_PAYLOAD,
    {
        match self {
            Message::Error { code } => {
                lemma_le32_of_bytes(code);
            },
            Message::Info { code, arg } => {
                lemma_le16_of_bytes(code);
                lemma_le32_of_bytes(arg);
            },
            Message::Ping { body } => {
                lemma_le16_of_bytes(body);
            },
            Message::Pong { body } => {
                lemma_le16_of_bytes(body);
            },
            Message::Status { uptime, inputs, outputs } => {
                lemma_le32_of_bytes(uptime);
                lemma_le16_of_bytes(inputs);
                lemma_le16_of_bytes(outputs);
            },
            Message::TimeAnnouncement { year, .. } => {
                lemma_le16_of_bytes(year);
            },
            _ => {},
        }
    }
}

/// A message that goes over the bus under the address of a node with six
/// bits arrives as the same message under the same address: its type and
/// the node come back from the identifier, and the message from its bytes.
pub proof fn lemma_message_survives_bus(message: Message, addr: u8)
    requires
        addr <= 0x3F,
    ensures
        ({
            let can_addr = spec_can_addr(message.spec_type(), addr);
            let (msg_type, node) = spec_split_can_addr(can_addr);
            &&& can_addr <= 0x7FF
            &&& node == addr
            &&& Message::spec_decode(msg_type, message.spec_payload()) == Some(message)
        }),
{
    message.lemma_decode_encode();
    lemma_can_addr_splits(message.spec_type(), addr);
}

/// An identifier that was made of a type and a node splits into them again,
/// as long as the type has five bits and the node six.
pub proof fn lemma_can_addr_splits(msg_type: u8, addr: u8)
    requires
        msg_type <= 0x1F,
        addr <= 0x3F,
    ensures
        spec_split_can_addr(spec_can_addr(msg_type, addr)) == (msg_type, addr),
        spec_can_addr(msg_type, addr) <= 0x7FF,
{
    let t = msg_type as u16;
    let a = addr as u16;
    assert(t <= 0x1F && a <= 0x3F ==> (((((t & 0x1F) << 6) | (a & 0x3F)) >> 6) & 0x1F) == t)
        by (bit_vector);
    assert(t <= 0x1F && a <= 0x3F ==> ((((t & 0x1F) << 6) | (a & 0x3F)) & 0x3F) == a)
        by (bit_vector);
    assert(((t & 0x1F) << 6) | (a & 0x3F) <= 0x7FF) by (bit_vector);
}

} // verus!
