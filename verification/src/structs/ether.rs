//! The Ethernet layer.
use crate::structs::arp::ArpPacket;
use crate::structs::be16;
use crate::structs::ipv4::{IPv4, IPv4Header, IPv4View};
use crate::structs::ipv6::{IPv6Header, IPv6, IPv6View};
use vstd::prelude::*;

verus! {

/// The protocol carried by an Ethernet frame, as far as decoding goes on from it.
#[derive(Debug, Clone, Copy, PartialEq, Eq, Structural)]
pub enum EtherType {
    IPv4,
    ARP,
    IPv6,
    Other,
}

impl EtherType {
    /// The protocol that the EtherType number `raw` stands for.
    pub open spec fn of(raw: u16) -> EtherType {
        if raw == 0x0800 {
            EtherType::IPv4
        } else if raw == 0x0806 {
            EtherType::ARP
        } else if raw == 0x86DD {
            EtherType::IPv6
        } else {
            EtherType::Other
        }
    }
}

/// The header of an Ethernet II frame.
#[derive(Debug, Clone, Copy, PartialEq, Eq)]
pub struct EthernetFrame {
    pub source_mac: [u8; 6],
    pub dest_mac: [u8; 6],
    pub ethertype: EtherType,
}

/// Length of an Ethernet II header in bytes.
pub const ETHERNET_HEADER_LEN: usize = 14;

impl EthernetFrame {
    /// The header at the start of `data` and the bytes that follow it, if
    /// `data` is long enough to hold one: destination address, source
    /// address, then the EtherType as a big-endian number.
    pub open spec fn parse(data: Seq<u8>) -> Option<(EthernetFrame, Seq<u8>)> {
        if data.len() < ETHERNET_HEADER_LEN {
            None
        } else {
            Some(
                (
                    EthernetFrame {
                        dest_mac: [data[0], data[1], data[2], data[3], data[4], data[5]],
                        source_mac: [data[6], data[7], data[8], data[9], data[10], data[11]],
                        ethertype: EtherType::of(be16(data, 12)),
                    },
                    data.skip(ETHERNET_HEADER_LEN as int),
                ),
            )
        }
    }
}

/// What an Ethernet frame carries.
#[derive(Debug, Clone, PartialEq, Eq)]
pub enum Ether {
    Arp(ArpPacket),
    IPv4(IPv4Header, IPv4),
    IPv6(IPv6Header, IPv6),
    /// Bytes that no decoder took, as they were found.
    Unknown(Vec<u8>),
}

pub enum EtherView {
    Arp(ArpPacket),
    IPv4(IPv4Header, IPv4View),
    IPv6(IPv6Header, IPv6View),
    Unknown(Seq<u8>),
}

impl View for Ether {
    type V = EtherView;

    open spec fn view(&self) -> EtherView {
        match self {
            Ether::Arp(packet) => EtherView::Arp(*packet),
            Ether::IPv4(header, inner) => EtherView::IPv4(*header, inner@),
            Ether::IPv6(header, inner) => EtherView::IPv6(*header, inner@),
            Ether::Unknown(bytes) => EtherView::Unknown(bytes@),
        }
    }
}

} // verus!
