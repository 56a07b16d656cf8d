//! Decoding of what the host sends at the start of a control transfer: the
//! SETUP packet, and the status word that announces each received packet.

use vstd::prelude::*;
use crate::bits::{extract, field};
use crate::fields::{
    GRXSTSP_BCNT_MASK, GRXSTSP_BCNT_SHIFT, GRXSTSP_EPNUM_MASK, GRXSTSP_EPNUM_SHIFT,
    GRXSTSP_PKTSTS_MASK, GRXSTSP_PKTSTS_SHIFT,
};
use crate::types::Direction;

verus! {

/// Length of a SETUP packet in bytes.
pub const SETUP_LEN: usize = 8;

/// The fields of a SETUP packet.
#[derive(Copy, Clone, Debug, PartialEq, Eq, Structural)]
pub struct SetupPacket {
    pub request_type: u8,
    pub request: u8,
    pub value: u16,
    pub index: u16,
    pub length: u16,
}

/// The 16-bit number whose low byte is `low` and whose high byte is `high`.
pub open spec fn word16(low: u8, high: u8) -> u16 {
    (low + 0x100 * high) as u16
}

impl SetupPacket {
    /// The SETUP packet that the first eight of `bytes` hold.
    pub open spec fn of(bytes: Seq<u8>) -> SetupPacket
        recommends
            bytes.len() >= SETUP_LEN,
    {
        SetupPacket {
            request_type: bytes[0],
            request: bytes[1],
            value: word16(bytes[2], bytes[3]),
            index: word16(bytes[4], bytes[5]),
            length: word16(bytes[6], bytes[7]),
        }
    }

    /// The direction of the data stage: the highest bit of the request type.
    pub open spec fn spec_direction(self) -> Direction {
        if self.request_type >= 0x80 {
            Direction::DeviceToHost
        } else {
            Direction::HostToDevice
        }
    }

    /// The direction of the data stage.
    #[verifier::when_used_as_spec(spec_direction)]
    pub fn direction(self) -> (direction: Direction)
        ensures
            direction == self.spec_direction(),
    {
        if self.request_type >= 0x80 {
            Direction::DeviceToHost
        } else {
            Direction::HostToDevice
        }
    }
}

fn join16(low: u8, high: u8) -> (word: u16)
    ensures
        word == word16(low, high),
{
    let low16: u16 = low as u16;
    let high16: u16 = high as u16;
    low16 + 0x100 * high16
}

/// Decodes the SETUP packet at the start of `packet`; there is none when
/// fewer than eight bytes are given.
pub fn decode_setup(packet: &[u8]) -> (setup: Option<SetupPacket>)
    ensures
        setup == if packet@.len() >= SETUP_LEN {
            Some(SetupPacket::of(packet@))
        } else {
            None
        },
{
    if packet.len() < SETUP_LEN {
        return None;
    }
    Some(
        SetupPacket {
            request_type: packet[0],
            request: packet[1],
            value: join16(packet[2], packet[3]),
            index: join16(packet[4], packet[5]),
            length: join16(packet[6], packet[7]),
        },
    )
}

/// Packet status: a data packet was received.
pub const STS_DATA_UPDT: u32 = 2;

/// Packet status: the SETUP stage is over.
pub const STS_SETUP_COMPLETE: u32 = 4;

/// Packet status: a SETUP packet was received.
pub const STS_SETUP_UPDT: u32 = 6;

/// What a word popped from the receive status queue says.
#[derive(Copy, Clone, Debug, PartialEq, Eq, Structural)]
pub struct RxStatus {
    /// The endpoint the packet is for.
    pub endpoint: usize,
    /// The number of bytes of the packet.
    pub byte_count: u32,
    /// The packet status code.
    pub status: u32,
}

impl RxStatus {
    /// The status that `word` encodes: the endpoint in bits 0 to 3, the byte
    /// count in bits 4 to 14, the packet status in bits 17 to 20.
    pub open spec fn of(word: u32) -> RxStatus {
        RxStatus {
            endpoint: (word % 0x10) as usize,
            byte_count: ((word / 0x10) % 0x800) as u32,
            status: ((word / 0x2_0000) % 0x10) as u32,
        }
    }
}

/// Decodes a word popped from the receive status queue.
pub fn decode_rx_status(word: u32) -> (status: RxStatus)
    ensures
        status == RxStatus::of(word),
        status.endpoint < 16,
        status.byte_count < 2048,
        status.status < 16,
{
    assert(field(word, GRXSTSP_EPNUM_MASK, GRXSTSP_EPNUM_SHIFT) == word % 0x10) by (bit_vector);
    assert(field(word, GRXSTSP_BCNT_MASK, GRXSTSP_BCNT_SHIFT) == (word / 0x10) % 0x800)
        by (bit_vector);
    assert(field(word, GRXSTSP_PKTSTS_MASK, GRXSTSP_PKTSTS_SHIFT) == (word / 0x2_0000) % 0x10)
        by (bit_vector);
    RxStatus {
        endpoint: extract(word, GRXSTSP_EPNUM_MASK, GRXSTSP_EPNUM_SHIFT) as usize,
        byte_count: extract(word, GRXSTSP_BCNT_MASK, GRXSTSP_BCNT_SHIFT),
        status: extract(word, GRXSTSP_PKTSTS_MASK, GRXSTSP_PKTSTS_SHIFT),
    }
}

} // verus!
