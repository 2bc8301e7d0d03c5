//! Packets of the serial link between the gateway and its host.
//!
//! The link is a stream of bytes, so every packet starts with two
//! synchronisation bytes; the second one names the kind of packet. A frame of
//! the bus always travels as eleven bytes: the node, the type of the
//! message, the number of bytes in use and eight bytes of room for them.

use vstd::prelude::*;
use vstd::slice::slice_subrange;
use crate::components::message::{MessageRaw, RawView, MAX_PAYLOAD};

verus! {

/// Most bytes that travel over the link at once.
pub const MAX_PACKET_SIZE: usize = 64;

/// Bytes of a frame of the bus in a packet.
pub const CAN_MESSAGE_SIZE: usize = 11;

/// Bytes of a packet that carries a frame of the bus, on the link.
pub const CAN_PACKET_SIZE: usize = 13;

/// Most bytes that `from_slice` takes.
pub const MAX_SLICE: usize = 59;

/// First byte of every packet.
pub const SYNC_BYTE_1: u8 = 0x21;

/// Second byte of a packet that carries a frame of the bus.
pub const SYNC_BYTE_2_CAN: u8 = 0x7C;

/// Second byte of a packet that carries a long frame; such packets are not
/// handled.
pub const SYNC_BYTE_2_FDCAN: u8 = 0x7D;

/// What a packet holds: the number of bytes in use and all its 64 bytes.
pub struct PacketView {
    pub count: nat,
    pub data: Seq<u8>,
}

/// The packet made of some bytes: the bytes, then zeros.
pub open spec fn packet_of(bytes: Seq<u8>) -> PacketView {
    PacketView {
        count: bytes.len(),
        data: Seq::new(
            MAX_PACKET_SIZE as nat,
            |i: int|
                if i < bytes.len() {
                    bytes[i]
                } else {
                    0u8
                },
        ),
    }
}

/// The eleven bytes that stand for a frame of the bus.
pub open spec fn frame_bytes(raw: RawView) -> Seq<u8> {
    Seq::new(
        CAN_MESSAGE_SIZE as nat,
        |i: int|
            if i == 0 {
                raw.addr
            } else if i == 1 {
                raw.msg_type
            } else if i == 2 {
                raw.payload.len() as u8
            } else if i - 3 < raw.payload.len() {
                raw.payload[i - 3]
            } else {
                0u8
            },
    )
}

/// The bytes on the link of a packet that carries a frame of the bus.
pub open spec fn link_bytes(packet: PacketView) -> Seq<u8> {
    seq![SYNC_BYTE_1, SYNC_BYTE_2_CAN] + packet.data.subrange(0, CAN_MESSAGE_SIZE as int)
}

/// Whether bytes from the link start with a whole packet that carries a
/// frame of the bus.
pub open spec fn link_accepts(buf: Seq<u8>) -> bool {
    buf.len() >= CAN_PACKET_SIZE && buf[0] == SYNC_BYTE_1 && buf[1] == SYNC_BYTE_2_CAN
}

/// A packet of the link.
#[derive(Clone, Copy, Debug)]
pub struct CommPacket {
    /// Number of bytes in use.
    count: u8,
    data: [u8; 64],
}

impl View for CommPacket {
    type V = PacketView;

    closed spec fn view(&self) -> PacketView {
        PacketView { count: self.count as nat, data: self.data@ }
    }
}

impl Default for CommPacket {
    fn default() -> (packet: Self)
        ensures
            packet@ == packet_of(Seq::empty()),
    {
        let packet = Self { count: 0, data: [0u8;64] };
        assert(packet@.data =~= packet_of(Seq::empty()).data);
        packet
    }
}

impl CommPacket {
    #[verifier::type_invariant]
    spec fn well_formed(self) -> bool {
        self.count <= MAX_PACKET_SIZE
    }

    pub fn from_slice(data: &[u8]) -> (packet: Self)
        requires
            data@.len() <= MAX_SLICE,
        ensures
            packet@ == packet_of(data@),
    {
        let mut bytes: [u8; 64] = [0u8;64];
        let mut i: usize = 0;
        while i < data.len()
            invariant
                i <= data@.len() <= MAX_SLICE,
                forall|k: int| 0 <= k < i ==> bytes[k] == data@[k],
                forall|k: int| i <= k < 64 ==> bytes[k] == 0,
            decreases data@.len() - i,
        {
            bytes[i] = data[i];
            i += 1;
        }
        let packet = Self { count: data.len() as u8, data: bytes };
        assert(packet@.data =~= packet_of(data@).data);
        packet
    }

    /// The packet that carries a frame of the bus.
    pub fn from_raw_message(raw: &MessageRaw) -> (packet: Self)
        ensures
            packet@ == packet_of(frame_bytes(raw@)),
    {
        let (addr, msg_type) = raw.addr_type();
        let length = raw.length();
        let payload = raw.data_as_slice();
        let mut bytes: [u8; 64] = [0u8;64];
        bytes[0] = addr;
        bytes[1] = msg_type;
        bytes[2] = length;
        let mut i: usize = 0;
        while i < payload.len()
            invariant
                i <= payload@.len() <= MAX_PAYLOAD,
                bytes[0] == addr,
                bytes[1] == msg_type,
                bytes[2] == length,
                forall|k: int| 0 <= k < i ==> bytes[3 + k] == payload@[k],
                forall|k: int| 3 + i <= k < 64 ==> bytes[k] == 0,
            decreases payload@.len() - i,
        {
            bytes[3 + i] = payload[i];
            i += 1;
        }
        let packet = Self { count: CAN_MESSAGE_SIZE as u8, data: bytes };
        assert(packet@.data =~= packet_of(frame_bytes(raw@)).data);
        packet
    }

    /// The frame of the bus that a packet carries; `None` where the packet
    /// claims more bytes than a frame has room for.
    pub fn to_raw_message(&self) -> (raw: Option<MessageRaw>)
        ensures
            raw is Some <==> self@.data[2] <= MAX_PAYLOAD,
            raw is Some ==> raw.unwrap()@ == (RawView {
                addr: self@.data[0],
                msg_type: self@.data[1],
                payload: self@.data.subrange(3, 3 + self@.data[2]),
            }),
    {
        let length = self.data[2] as usize;
        if length > MAX_PAYLOAD {
            return None;
        }
        let body = slice_subrange(self.data.as_slice(), 3, 3 + length);
        Some(MessageRaw::from_bytes(self.data[0], self.data[1], body))
    }

    /// The bytes in use.
    pub fn as_slice(&self) -> (bytes: &[u8])
        ensures
            bytes@ == self@.data.subrange(0, self@.count as int),
            self@.count <= MAX_PACKET_SIZE,
    {
        proof {
            use_type_invariant(self);
        }
        slice_subrange(self.data.as_slice(), 0, self.count as usize)
    }

    /// Reads a packet from the link. Bytes that do not start with a whole
    /// packet that carries a frame of the bus are dropped.
    pub fn deserialize_from(buf: &[u8]) -> (packet: Option<Self>)
        ensures
            packet is Some <==> link_accepts(buf@),
            packet is Some ==> packet.unwrap()@ == packet_of(
                buf@.subrange(2, CAN_PACKET_SIZE as int),
            ),
    {
        if buf.len() < 3 {
            return None;
        }
        if buf[0] != SYNC_BYTE_1 {
            return None;
        }
        if buf[1] != SYNC_BYTE_2_CAN {
            return None;
        }
        if buf.len() - 2 < CAN_MESSAGE_SIZE {
            return None;
        }
        Some(Self::from_slice(slice_subrange(buf, 2, 2 + CAN_MESSAGE_SIZE)))
    }

    /// Writes the packet for the link into a buffer and returns the number
    /// of bytes written: the buffer starts with them.
    pub fn serialize_as_can(&self, buf: &mut [u8]) -> (written: usize)
        requires
            old(buf)@.len() >= CAN_PACKET_SIZE,
        ensures
            written == CAN_PACKET_SIZE,
            final(buf)@.len() == old(buf)@.len(),
            final(buf)@.subrange(0, CAN_PACKET_SIZE as int) == link_bytes(self@),
            final(buf)@.subrange(CAN_PACKET_SIZE as int, old(buf)@.len() as int) == old(
                buf,
            )@.subrange(CAN_PACKET_SIZE as int, old(buf)@.len() as int),
    {
        buf[0] = SYNC_BYTE_1;
        buf[1] = SYNC_BYTE_2_CAN;
        let mut i: usize = 0;
        while i < CAN_MESSAGE_SIZE
            invariant
                i <= CAN_MESSAGE_SIZE,
                buf@.len() == old(buf)@.len(),
                buf@.len() >= CAN_PACKET_SIZE,
                buf@[0] == SYNC_BYTE_1,
                buf@[1] == SYNC_BYTE_2_CAN,
                forall|k: int| 0 <= k < i ==> buf@[2 + k] == self.data[k],
                forall|k: int| CAN_PACKET_SIZE <= k < buf@.len() ==> buf@[k] == old(buf)@[k],
            decreases CAN_MESSAGE_SIZE - i,
        {
            buf[2 + i] = self.data[i];
            i += 1;
        }
        assert(buf@.subrange(0, CAN_PACKET_SIZE as int) =~= link_bytes(self@));
        assert(buf@.subrange(CAN_PACKET_SIZE as int, old(buf)@.len() as int) =~= old(
            buf,
        )@.subrange(CAN_PACKET_SIZE as int, old(buf)@.len() as int));
        CAN_PACKET_SIZE
    }
}

/// A frame of the bus comes back from its packet, and a packet from its
/// bytes on the link.
pub proof fn lemma_packet_roundtrip(raw: RawView)
    requires
        raw.payload.len() <= MAX_PAYLOAD,
    ensures
        ({
            let packet = packet_of(frame_bytes(raw));
            &&& packet.count == CAN_MESSAGE_SIZE
            &&& packet.data[0] == raw.addr
            &&& packet.data[1] == raw.msg_type
            &&& packet.data[2] == raw.payload.len()
            &&& packet.data.subrange(3, 3 + packet.data[2]) == raw.payload
            &&& link_accepts(link_bytes(packet))
            &&& packet_of(link_bytes(packet).subrange(2, CAN_PACKET_SIZE as int)) == packet
        }),
{
    let packet = packet_of(frame_bytes(raw));
    assert(packet.data.subrange(3, 3 + packet.data[2]) =~= raw.payload);
    assert(packet_of(link_bytes(packet).subrange(2, CAN_PACKET_SIZE as int)).data =~= packet.data);
}

} // verus!
