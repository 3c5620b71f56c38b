//! The Internet Protocol, version 6.
use crate::structs::be16;
use crate::structs::ip::IPProtocol;
use crate::structs::ipv4::{IPv4, IPv4View};
use vstd::prelude::*;

verus! {

/// The fixed header of an IPv6 packet.
#[derive(Debug, Clone, Copy, PartialEq, Eq)]
pub struct IPv6Header {
    pub version: u8,
    pub ds: u8,
    pub ecn: u8,
    pub flow_label: u32,
    pub length: u16,
    pub next_header: IPProtocol,
    pub hop_limit: u8,
    pub source_addr: [u8; 16],
    pub dest_addr: [u8; 16],
}

/// Length in bytes of the fixed IPv6 header.
pub const IPV6_HEADER_LEN: usize = 40;

/// The sixteen bytes of `data` from `at` on.
pub open spec fn addr16(data: Seq<u8>, at: int) -> [u8; 16] {
    [
        data[at],
        data[at + 1],
        data[at + 2],
        data[at + 3],
        data[at + 4],
        data[at + 5],
        data[at + 6],
        data[at + 7],
        data[at + 8],
        data[at + 9],
        data[at + 10],
        data[at + 11],
        data[at + 12],
        data[at + 13],
        data[at + 14],
        data[at + 15],
    ]
}

impl IPv6Header {
    /// The header at the start of `data` and the bytes that follow it, if
    /// `data` is long enough to hold one. The version is not checked, and
    /// extension headers are not followed: `next_header` is the one that
    /// the fixed header names.
    pub open spec fn parse(data: Seq<u8>) -> Option<(IPv6Header, Seq<u8>)> {
        if data.len() < IPV6_HEADER_LEN {
            None
        } else {
            Some(
                (
                    IPv6Header {
                        version: data[0] / 16,
                        ds: ((data[0] % 16) * 4 + data[1] / 64) as u8,
                        ecn: (data[1] / 16) % 4,
                        flow_label: ((data[1] % 16) as int * 0x1_0000 + be16(data, 2) as int)
                            as u32,
                        length: be16(data, 4),
                        next_header: IPProtocol::of(data[6]),
                        hop_limit: data[7],
                        source_addr: addr16(data, 8),
                        dest_addr: addr16(data, 24),
                    },
                    data.skip(IPV6_HEADER_LEN as int),
                ),
            )
        }
    }
}

/// What an IPv6 packet carries: the same as an IPv4 packet.
pub type IPv6 = IPv4;

pub type IPv6View = IPv4View;

} // verus!
