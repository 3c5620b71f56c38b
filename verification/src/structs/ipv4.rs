//! The Internet Protocol, version 4.
use crate::structs::be16;
use crate::structs::ip::IPProtocol;
use crate::structs::tcp::{TcpHeader, TCP, TCPView};
use crate::structs::udp::{UdpHeader, UDP, UDPView};
use vstd::prelude::*;

verus! {

/// The fixed part of an IPv4 header.
#[derive(Debug, Clone, Copy, PartialEq, Eq)]
pub struct IPv4Header {
    pub version: u8,
    /// Header length in 32-bit words, as the packet states it.
    pub ihl: u8,
    pub tos: u8,
    pub length: u16,
    pub id: u16,
    pub flags: u8,
    pub fragment_offset: u16,
    pub ttl: u8,
    pub protocol: IPProtocol,
    pub chksum: u16,
    pub source_addr: [u8; 4],
    pub dest_addr: [u8; 4],
}

/// Length in bytes of the fixed part of an IPv4 header.
pub const IPV4_HEADER_LEN: usize = 20;

impl IPv4Header {
    /// The header at the start of `data` and the bytes that follow its
    /// fixed part, if `data` is long enough to hold one. Neither the version
    /// nor the stated header length is checked, and header options are not
    /// skipped.
    pub open spec fn parse(data: Seq<u8>) -> Option<(IPv4Header, Seq<u8>)> {
        if data.len() < IPV4_HEADER_LEN {
            None
        } else {
            Some(
                (
                    IPv4Header {
                        version: data[0] / 16,
                        ihl: data[0] % 16,
                        tos: data[1],
                        length: be16(data, 2),
                        id: be16(data, 4),
                        flags: data[6] / 32,
                        fragment_offset: (be16(data, 6) % 0x2000) as u16,
                        ttl: data[8],
                        protocol: IPProtocol::of(data[9]),
                        chksum: be16(data, 10),
                        source_addr: [data[12], data[13], data[14], data[15]],
                        dest_addr: [data[16], data[17], data[18], data[19]],
                    },
                    data.skip(IPV4_HEADER_LEN as int),
                ),
            )
        }
    }
}

/// What an IP packet carries.
#[derive(Debug, Clone, PartialEq, Eq)]
pub enum IPv4 {
    TCP(TcpHeader, TCP),
    UDP(UdpHeader, UDP),
    /// Bytes that no decoder took, as they were found.
    Unknown(Vec<u8>),
}

pub enum IPv4View {
    TCP(TcpHeader, TCPView),
    UDP(UdpHeader, UDPView),
    Unknown(Seq<u8>),
}

impl View for IPv4 {
    type V = IPv4View;

    open spec fn view(&self) -> IPv4View {
        match self {
            IPv4::TCP(header, inner) => IPv4View::TCP(*header, inner@),
            IPv4::UDP(header, inner) => IPv4View::UDP(*header, inner@),
            IPv4::Unknown(bytes) => IPv4View::Unknown(bytes@),
        }
    }
}

} // verus!
