//! Header parsing, done by the `pktparse` crate.
//!
//! Each function here hands its input to one parser of that crate and copies
//! what comes back into a header of this library. Verus does not look into
//! these bodies: what is stated of them is what the crate's source shows.
use crate::structs::arp::{ArpPacket, Operation};
use crate::structs::ether::{EtherType, EthernetFrame};
use crate::structs::ip::IPProtocol;
use crate::structs::ipv4::IPv4Header;
use crate::structs::ipv6::IPv6Header;
use crate::structs::tcp::TcpHeader;
use crate::structs::udp::UdpHeader;
use pktparse::{arp, ethernet, ip, ipv4, ipv6, tcp, udp};
use vstd::prelude::*;

verus! {

/// `pktparse::ethernet::parse_ethernet_frame`: takes six bytes of destination
/// address, six of source address and a big-endian EtherType, and fails on
/// fewer than fourteen bytes. Of the EtherType only the three protocols that
/// this library decodes are told apart.
#[verifier::external_body]
pub(crate) fn ethernet_frame(data: &[u8]) -> (r: Option<(EthernetFrame, &[u8])>)
    ensures
        match r {
            Some((frame, rest)) => EthernetFrame::parse(data@) == Some((frame, rest@)),
            None => EthernetFrame::parse(data@) is None,
        },
{
    match ethernet::parse_ethernet_frame(data) {
        Ok((rest, f)) => Some((EthernetFrame {
            source_mac: f.source_mac.0, dest_mac: f.dest_mac.0,
            ethertype: match f.ethertype {
                ethernet::EtherType::IPv4 => EtherType::IPv4,
                ethernet::EtherType::ARP => EtherType::ARP,
                ethernet::EtherType::IPv6 => EtherType::IPv6,
                _ => EtherType::Other,
            },
        }, rest)),
        Err(_) => None,
    }
}

/// `pktparse::arp::parse_arp_pkt`: reads the fixed 28 bytes of an ARP packet
/// for IPv4 over Ethernet and fails on fewer. The address types and sizes
/// that it reads first are left out of the result.
#[verifier::external_body]
pub(crate) fn arp_packet(data: &[u8]) -> (r: Option<ArpPacket>)
    ensures
        r == ArpPacket::parse(data@),
{
    match arp::parse_arp_pkt(data) {
        Ok((_, p)) => Some(ArpPacket {
            operation: match p.operation {
                arp::Operation::Request => Operation::Request,
                arp::Operation::Reply => Operation::Reply,
                arp::Operation::Other(raw) => Operation::Other(raw),
            },
            src_mac: p.src_mac.0, src_addr: p.src_addr.octets(),
            dest_mac: p.dest_mac.0, dest_addr: p.dest_addr.octets(),
        }),
        Err(_) => None,
    }
}

/// `pktparse::ipv4::parse_ipv4_header`: reads the twenty bytes of the fixed
/// IPv4 header field by field, most significant bit first, and fails on
/// fewer. It checks no field and leaves header options with the rest. Of the
/// protocol number only TCP and UDP are told apart.
#[verifier::external_body]
pub(crate) fn ipv4_header(data: &[u8]) -> (r: Option<(IPv4Header, &[u8])>)
    ensures
        match r {
            Some((header, rest)) => IPv4Header::parse(data@) == Some((header, rest@)),
            None => IPv4Header::parse(data@) is None,
        },
{
    match ipv4::parse_ipv4_header(data) {
        Ok((rest, h)) => Some((IPv4Header {
            version: h.version, ihl: h.ihl, tos: h.tos, length: h.length, id: h.id,
            flags: h.flags, fragment_offset: h.fragment_offset, ttl: h.ttl,
            protocol: match h.protocol {
                ip::IPProtocol::TCP => IPProtocol::TCP,
                ip::IPProtocol::UDP => IPProtocol::UDP,
                _ => IPProtocol::Other,
            },
            chksum: h.chksum,
            source_addr: h.source_addr.octets(), dest_addr: h.dest_addr.octets(),
        }, rest)),
        Err(_) => None,
    }
}

/// `pktparse::ipv6::parse_ipv6_header`: reads the forty bytes of the fixed
/// IPv6 header and fails on fewer. The traffic class is split into its six
/// bits of differentiated services and two bits of congestion notification.
/// Of the next header only TCP and UDP are told apart.
#[verifier::external_body]
pub(crate) fn ipv6_header(data: &[u8]) -> (r: Option<(IPv6Header, &[u8])>)
    ensures
        match r {
            Some((header, rest)) => IPv6Header::parse(data@) == Some((header, rest@)),
            None => IPv6Header::parse(data@) is None,
        },
{
    match ipv6::parse_ipv6_header(data) {
        Ok((rest, h)) => Some((IPv6Header {
            version: h.version, ds: h.ds, ecn: h.ecn, flow_label: h.flow_label,
            length: h.length, hop_limit: h.hop_limit,
            next_header: match h.next_header {
                ip::IPProtocol::TCP => IPProtocol::TCP,
                ip::IPProtocol::UDP => IPProtocol::UDP,
                _ => IPProtocol::Other,
            },
            source_addr: h.source_addr.octets(), dest_addr: h.dest_addr.octets(),
        }, rest)),
        Err(_) => None,
    }
}

/// `pktparse::tcp::parse_tcp_header`: reads the twenty bytes of the fixed TCP
/// header and fails on fewer. Where the data offset is above five words it
/// steps over that many option bytes, and fails if they are not all there.
/// The options that it decodes on the way are left out of the result.
#[verifier::external_body]
pub(crate) fn tcp_header(data: &[u8]) -> (r: Option<(TcpHeader, &[u8])>)
    ensures
        match r {
            Some((header, rest)) => TcpHeader::parse(data@) == Some((header, rest@)),
            None => TcpHeader::parse(data@) is None,
        },
{
    match tcp::parse_tcp_header(data) {
        Ok((rest, h)) => Some((TcpHeader {
            source_port: h.source_port, dest_port: h.dest_port,
            sequence_no: h.sequence_no, ack_no: h.ack_no,
            data_offset: h.data_offset, reserved: h.reserved,
            flag_urg: h.flag_urg, flag_ack: h.flag_ack, flag_psh: h.flag_psh,
            flag_rst: h.flag_rst, flag_syn: h.flag_syn, flag_fin: h.flag_fin,
            window: h.window, checksum: h.checksum, urgent_pointer: h.urgent_pointer,
        }, rest)),
        Err(_) => None,
    }
}

/// `pktparse::udp::parse_udp_header`: reads four big-endian numbers of two
/// bytes each and fails on fewer than eight bytes.
#[verifier::external_body]
pub(crate) fn udp_header(data: &[u8]) -> (r: Option<(UdpHeader, &[u8])>)
    ensures
        match r {
            Some((header, rest)) => UdpHeader::parse(data@) == Some((header, rest@)),
            None => UdpHeader::parse(data@) is None,
        },
{
    match udp::parse_udp_header(data) {
        Ok((rest, h)) => Some((UdpHeader {
            source_port: h.source_port, dest_port: h.dest_port,
            length: h.length, checksum: h.checksum,
        }, rest)),
        Err(_) => None,
    }
}

} // verus!
