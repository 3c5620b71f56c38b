//! The Address Resolution Protocol.
use crate::structs::be16;
use vstd::prelude::*;

verus! {

/// What an ARP packet asks for or answers.
#[derive(Debug, Clone, Copy, PartialEq, Eq, Structural)]
pub enum Operation {
    Request,
    Reply,
    Other(u16),
}

impl Operation {
    /// The operation that the number `raw` stands for.
    pub open spec fn of(raw: u16) -> Operation {
        if raw == 1 {
            Operation::Request
        } else if raw == 2 {
            Operation::Reply
        } else {
            Operation::Other(raw)
        }
    }
}

/// What an ARP packet for IPv4 over Ethernet says: the operation and the
/// addresses of both sides.
#[derive(Debug, Clone, Copy, PartialEq, Eq)]
pub struct ArpPacket {
    pub operation: Operation,
    pub src_mac: [u8; 6],
    pub src_addr: [u8; 4],
    pub dest_mac: [u8; 6],
    pub dest_addr: [u8; 4],
}

/// Length in bytes of an ARP packet for IPv4 over Ethernet.
pub const ARP_PACKET_LEN: usize = 28;

impl ArpPacket {
    /// The packet at the start of `data`, if `data` is long enough to hold
    /// one. The address types and sizes in its first six bytes are not
    /// looked at.
    pub open spec fn parse(data: Seq<u8>) -> Option<ArpPacket> {
        if data.len() < ARP_PACKET_LEN {
            None
        } else {
            Some(
                ArpPacket {
                    operation: Operation::of(be16(data, 6)),
                    src_mac: [data[8], data[9], data[10], data[11], data[12], data[13]],
                    src_addr: [data[14], data[15], data[16], data[17]],
                    dest_mac: [data[18], data[19], data[20], data[21], data[22], data[23]],
                    dest_addr: [data[24], data[25], data[26], data[27]],
                },
            )
        }
    }
}

} // verus!
