//! The decoders, from the link layer down to the application protocols.
//!
//! Decoding is a cascade: each layer reads its header, picks the decoder of
//! the next layer by what the header names, and hands it the bytes behind
//! the header. Where a layer cannot read its input, the bytes stay in the
//! record as they are, under the nearest variant for unknown data.
use crate::link::DataLink;
use crate::structs::arp::ArpPacket;
use crate::structs::be16;
use crate::structs::ether::{Ether, EtherType, EtherView, EthernetFrame};
use crate::structs::ip::IPProtocol;
use crate::structs::ipv4::{IPv4, IPv4Header, IPv4View};
use crate::structs::ipv6::{IPv6, IPv6Header};
use crate::structs::raw::{Raw, RawView};
use crate::structs::tcp::{TCPView, TcpHeader, TCP};
use crate::structs::udp::{UdpHeader, UDP};
use crate::structs::CentrifugeError;
use crate::wire;
use vstd::prelude::*;
use vstd::slice::{slice_subrange, slice_to_vec};

pub mod dropbox;
pub mod http;
pub mod tcp;
pub mod tls;
pub mod udp;

verus! {

/// Length in bytes of the header of a frame in Linux cooked capture.
pub const SLL_HEADER_LEN: usize = 16;

/// What an IP packet with the protocol `protocol` and the payload `data` carries.
pub open spec fn transport(protocol: IPProtocol, data: Seq<u8>) -> IPv4View {
    match protocol {
        IPProtocol::TCP => match TcpHeader::parse(data) {
            Some((header, rest)) => IPv4View::TCP(header, tcp::payload(rest)),
            None => IPv4View::Unknown(data),
        },
        IPProtocol::UDP => match UdpHeader::parse(data) {
            Some((header, rest)) => IPv4View::UDP(header, udp::payload(rest)),
            None => IPv4View::Unknown(data),
        },
        IPProtocol::Other => IPv4View::Unknown(data),
    }
}

/// What a frame with the EtherType `ethertype` and the payload `data` carries.
pub open spec fn network(ethertype: EtherType, data: Seq<u8>) -> EtherView {
    match ethertype {
        EtherType::IPv4 => match IPv4Header::parse(data) {
            Some((header, rest)) => EtherView::IPv4(header, transport(header.protocol, rest)),
            None => EtherView::Unknown(data),
        },
        EtherType::IPv6 => match IPv6Header::parse(data) {
            Some((header, rest)) => EtherView::IPv6(header, transport(header.next_header, rest)),
            None => EtherView::Unknown(data),
        },
        EtherType::ARP => match ArpPacket::parse(data) {
            Some(packet) => EtherView::Arp(packet),
            None => EtherView::Unknown(data),
        },
        EtherType::Other => EtherView::Unknown(data),
    }
}

/// The EtherType that the version in the first byte of an IP packet goes with.
pub open spec fn ip_version(data: Seq<u8>) -> EtherType {
    if data.len() > 0 && data[0] / 16 == 4 {
        EtherType::IPv4
    } else if data.len() > 0 && data[0] / 16 == 6 {
        EtherType::IPv6
    } else {
        EtherType::Other
    }
}

/// The record that the frame `data` decodes to under the link type `link`.
pub open spec fn decoded(link: DataLink, data: Seq<u8>) -> RawView {
    match link {
        DataLink::Ethernet => match EthernetFrame::parse(data) {
            Some((frame, rest)) => RawView::Ether(frame, network(frame.ethertype, rest)),
            None => RawView::Unknown(data),
        },
        DataLink::Tun => match network(ip_version(data), data) {
            EtherView::Unknown(_) => RawView::Unknown(data),
            inner => RawView::Tun(inner),
        },
        DataLink::Sll => if data.len() < SLL_HEADER_LEN {
            RawView::Unknown(data)
        } else {
            RawView::Sll(
                network(EtherType::of(be16(data, 14)), data.skip(SLL_HEADER_LEN as int)),
            )
        },
    }
}

/// Decodes a TCP segment: its header and what it carries.
///
/// Fails with `WrongProtocol` where `data` does not hold a TCP header with
/// the options that it announces.
pub fn parse_tcp(data: &[u8]) -> (r: Result<(TcpHeader, TCP), CentrifugeError>)
    ensures
        match r {
            Ok((header, inner)) => TcpHeader::parse(data@) matches Some((h, rest)) && h == header
                && inner@ == tcp::payload(rest),
            Err(error) => error == CentrifugeError::WrongProtocol && TcpHeader::parse(data@)
                is None,
        },
{
    match wire::tcp_header(data) {
        Some((header, rest)) => Ok((header, tcp::extract(rest))),
        None => Err(CentrifugeError::WrongProtocol),
    }
}

/// Decodes a UDP datagram: its header and what it carries.
///
/// Fails with `WrongProtocol` where `data` does not hold a UDP header.
pub fn parse_udp(data: &[u8]) -> (r: Result<(UdpHeader, UDP), CentrifugeError>)
    ensures
        match r {
            Ok((header, inner)) => UdpHeader::parse(data@) matches Some((h, rest)) && h == header
                && inner@ == udp::payload(rest),
            Err(error) => error == CentrifugeError::WrongProtocol && UdpHeader::parse(data@)
                is None,
        },
{
    match wire::udp_header(data) {
        Some((header, rest)) => Ok((header, udp::extract(rest))),
        None => Err(CentrifugeError::WrongProtocol),
    }
}

/// Decodes what an IP packet carries, by the protocol that its header names.
pub fn parse_transport(protocol: IPProtocol, remaining: &[u8]) -> (r: IPv4)
    ensures
        r@ == transport(protocol, remaining@),
{
    match protocol {
        IPProtocol::TCP => match parse_tcp(remaining) {
            Ok((header, inner)) => IPv4::TCP(header, inner),
            Err(_) => IPv4::Unknown(slice_to_vec(remaining)),
        },
        IPProtocol::UDP => match parse_udp(remaining) {
            Ok((header, inner)) => IPv4::UDP(header, inner),
            Err(_) => IPv4::Unknown(slice_to_vec(remaining)),
        },
        IPProtocol::Other => IPv4::Unknown(slice_to_vec(remaining)),
    }
}

/// Decodes an IPv4 packet: its header and what it carries.
///
/// Fails with `WrongProtocol` where `data` does not hold an IPv4 header.
pub fn parse_ipv4(data: &[u8]) -> (r: Result<(IPv4Header, IPv4), CentrifugeError>)
    ensures
        match r {
            Ok((header, inner)) => IPv4Header::parse(data@) matches Some((h, rest)) && h == header
                && inner@ == transport(h.protocol, rest),
            Err(error) => error == CentrifugeError::WrongProtocol && IPv4Header::parse(data@)
                is None,
        },
{
    match wire::ipv4_header(data) {
        Some((header, rest)) => Ok((header, parse_transport(header.protocol, rest))),
        None => Err(CentrifugeError::WrongProtocol),
    }
}

/// Decodes an IPv6 packet: its header and what it carries.
///
/// Fails with `WrongProtocol` where `data` does not hold an IPv6 header.
pub fn parse_ipv6(data: &[u8]) -> (r: Result<(IPv6Header, IPv6), CentrifugeError>)
    ensures
        match r {
            Ok((header, inner)) => IPv6Header::parse(data@) matches Some((h, rest)) && h == header
                && inner@ == transport(h.next_header, rest),
            Err(error) => error == CentrifugeError::WrongProtocol && IPv6Header::parse(data@)
                is None,
        },
{
    match wire::ipv6_header(data) {
        Some((header, rest)) => Ok((header, parse_transport(header.next_header, rest))),
        None => Err(CentrifugeError::WrongProtocol),
    }
}

/// Decodes what a frame carries, by the EtherType that its header names.
pub fn parse_network(ethertype: EtherType, remaining: &[u8]) -> (r: Ether)
    ensures
        r@ == network(ethertype, remaining@),
{
    match ethertype {
        EtherType::IPv4 => match parse_ipv4(remaining) {
            Ok((header, inner)) => Ether::IPv4(header, inner),
            Err(_) => Ether::Unknown(slice_to_vec(remaining)),
        },
        EtherType::IPv6 => match parse_ipv6(remaining) {
            Ok((header, inner)) => Ether::IPv6(header, inner),
            Err(_) => Ether::Unknown(slice_to_vec(remaining)),
        },
        EtherType::ARP => match wire::arp_packet(remaining) {
            Some(packet) => Ether::Arp(packet),
            None => Ether::Unknown(slice_to_vec(remaining)),
        },
        EtherType::Other => Ether::Unknown(slice_to_vec(remaining)),
    }
}

/// Decodes an Ethernet frame.
///
/// Fails with `WrongProtocol` where `data` is too short for an Ethernet
/// header, and succeeds on every other frame: what the header does not lead
/// to a decoder for stays in the record as bytes.
pub fn parse_eth(data: &[u8]) -> (r: Result<Raw, CentrifugeError>)
    ensures
        match r {
            Ok(raw) => EthernetFrame::parse(data@) is Some && raw@ == decoded(
                DataLink::Ethernet,
                data@,
            ),
            Err(error) => error == CentrifugeError::WrongProtocol && EthernetFrame::parse(data@)
                is None,
        },
{
    match wire::ethernet_frame(data) {
        Some((frame, rest)) => Ok(Raw::Ether(frame, parse_network(frame.ethertype, rest))),
        None => Err(CentrifugeError::WrongProtocol),
    }
}

/// Decodes a frame that starts with an IP packet.
pub fn parse_tun(data: &[u8]) -> (r: Raw)
    ensures
        r@ == decoded(DataLink::Tun, data@),
{
    let version = if data.len() > 0 && data[0] / 16 == 4 {
        EtherType::IPv4
    } else if data.len() > 0 && data[0] / 16 == 6 {
        EtherType::IPv6
    } else {
        EtherType::Other
    };
    match parse_network(version, data) {
        Ether::Unknown(_) => Raw::Unknown(slice_to_vec(data)),
        inner => Raw::Tun(inner),
    }
}

/// Decodes a frame in Linux cooked capture: the protocol of what it carries
/// stands in the last two bytes of its header.
pub fn parse_sll(data: &[u8]) -> (r: Raw)
    ensures
        r@ == decoded(DataLink::Sll, data@),
{
    if data.len() < SLL_HEADER_LEN {
        return Raw::Unknown(slice_to_vec(data));
    }
    let raw: u16 = (data[14] as u16) * 256 + data[15] as u16;
    let ethertype = if raw == 0x0800 {
        EtherType::IPv4
    } else if raw == 0x0806 {
        EtherType::ARP
    } else if raw == 0x86DD {
        EtherType::IPv6
    } else {
        EtherType::Other
    };
    Raw::Sll(parse_network(ethertype, slice_subrange(data, SLL_HEADER_LEN, data.len())))
}

/// Decodes the frame `data` under the link type `link`.
///
/// Decoding never fails: a frame that cannot be read at the link layer
/// comes back as `Raw::Unknown` with its bytes.
pub fn parse(link: &DataLink, data: &[u8]) -> (r: Raw)
    ensures
        r@ == decoded(*link, data@),
{
    match link {
        DataLink::Ethernet => match parse_eth(data) {
            Ok(raw) => raw,
            Err(_) => Raw::Unknown(slice_to_vec(data)),
        },
        DataLink::Tun => parse_tun(data),
        DataLink::Sll => parse_sll(data),
    }
}

/// A frame that is too short for the header of its link layer decodes to
/// `Unknown` with its bytes: nothing is read that is not there.
pub proof fn lemma_short_frame_is_unknown(link: DataLink, data: Seq<u8>)
    requires
        match link {
            DataLink::Ethernet => data.len() < crate::structs::ether::ETHERNET_HEADER_LEN,
            DataLink::Tun => data.len() < crate::structs::ipv4::IPV4_HEADER_LEN,
            DataLink::Sll => data.len() < SLL_HEADER_LEN,
        },
    ensures
        decoded(link, data) == RawView::Unknown(data),
{
}

/// A packet that is too short for the header that the EtherType announces
/// stays in the record as bytes.
pub proof fn lemma_short_packet_is_unknown(ethertype: EtherType, data: Seq<u8>)
    requires
        match ethertype {
            EtherType::IPv4 => data.len() < crate::structs::ipv4::IPV4_HEADER_LEN,
            EtherType::IPv6 => data.len() < crate::structs::ipv6::IPV6_HEADER_LEN,
            EtherType::ARP => data.len() < crate::structs::arp::ARP_PACKET_LEN,
            EtherType::Other => true,
        },
    ensures
        network(ethertype, data) == EtherView::Unknown(data),
{
}

/// A segment or datagram that is too short for its header, or for the TCP
/// options that its header announces, stays in the record as bytes.
pub proof fn lemma_short_segment_is_unknown(protocol: IPProtocol, data: Seq<u8>)
    requires
        match protocol {
            IPProtocol::TCP => data.len() < crate::structs::tcp::TCP_HEADER_LEN || data.len()
                < crate::structs::tcp::TCP_HEADER_LEN + TcpHeader::options_len(data[12] / 16),
            IPProtocol::UDP => data.len() < crate::structs::udp::UDP_HEADER_LEN,
            IPProtocol::Other => true,
        },
    ensures
        transport(protocol, data) == IPv4View::Unknown(data),
{
}

/// Where a frame decodes to a TCP segment in an IPv4 packet in an Ethernet
/// frame, every field of the three headers is the value that stands at its
/// place in the frame, and the payload is what follows the TCP options.
pub proof fn lemma_headers_are_read_from_the_frame(
    data: Seq<u8>,
    frame: EthernetFrame,
    ip: IPv4Header,
    tcp: TcpHeader,
    inner: TCPView,
)
    requires
        decoded(DataLink::Ethernet, data) == RawView::Ether(
            frame,
            EtherView::IPv4(ip, IPv4View::TCP(tcp, inner)),
        ),
    ensures
        data.len() >= 54 + TcpHeader::options_len(tcp.data_offset),
        be16(data, 12) == 0x0800 && data[23] == 6,
        forall|i: int| 0 <= i < 6 ==> frame.dest_mac[i] == data[i],
        forall|i: int| 0 <= i < 6 ==> frame.source_mac[i] == data[6 + i],
        forall|i: int| 0 <= i < 4 ==> ip.source_addr[i] == data[26 + i],
        forall|i: int| 0 <= i < 4 ==> ip.dest_addr[i] == data[30 + i],
        ip.version == data[14] / 16 && ip.ihl == data[14] % 16 && ip.ttl == data[22],
        ip.length == be16(data, 16) && ip.id == be16(data, 18) && ip.chksum == be16(data, 24),
        tcp.source_port == be16(data, 34) && tcp.dest_port == be16(data, 36),
        tcp.sequence_no == crate::structs::be32(data, 38) && tcp.ack_no == crate::structs::be32(
            data,
            42,
        ),
        tcp.data_offset == data[46] / 16,
        tcp.flag_urg == ((data[47] / 32) % 2 == 1) && tcp.flag_ack == ((data[47] / 16) % 2 == 1),
        tcp.flag_psh == ((data[47] / 8) % 2 == 1) && tcp.flag_rst == ((data[47] / 4) % 2 == 1),
        tcp.flag_syn == ((data[47] / 2) % 2 == 1) && tcp.flag_fin == (data[47] % 2 == 1),
        tcp.window == be16(data, 48) && tcp.checksum == be16(data, 50),
        inner == tcp::payload(data.skip(54 + TcpHeader::options_len(tcp.data_offset))),
{
    let after_frame = data.skip(14);
    let after_ip = after_frame.skip(20);
    assert(EthernetFrame::parse(data) is Some);
    assert(IPv4Header::parse(after_frame) is Some);
    assert(TcpHeader::parse(after_ip) is Some);
    assert(forall|i: int| 0 <= i < after_frame.len() ==> after_frame[i] == data[14 + i]);
    assert(forall|i: int| 0 <= i < after_ip.len() ==> after_ip[i] == data[34 + i]);
    assert(after_ip.skip(20 + TcpHeader::options_len(tcp.data_offset)) =~= data.skip(
        54 + TcpHeader::options_len(tcp.data_offset),
    ));
    assert forall|i: int| 0 <= i < 6 implies frame.dest_mac[i] == data[i] by {
        vstd::array::lemma_array_index(frame.dest_mac, i);
    }
    assert forall|i: int| 0 <= i < 6 implies frame.source_mac[i] == data[6 + i] by {
        vstd::array::lemma_array_index(frame.source_mac, i);
    }
    assert forall|i: int| 0 <= i < 4 implies ip.source_addr[i] == data[26 + i] by {
        vstd::array::lemma_array_index(ip.source_addr, i);
    }
    assert forall|i: int| 0 <= i < 4 implies ip.dest_addr[i] == data[30 + i] by {
        vstd::array::lemma_array_index(ip.dest_addr, i);
    }
}

/// Decoding is a function of the link type and the bytes of the frame: the
/// same frame under the same link type decodes to the same record.
pub proof fn lemma_same_frame_same_record(link: DataLink, first: Seq<u8>, second: Seq<u8>)
    requires
        first =~= second,
    ensures
        decoded(link, first) == decoded(link, second),
{
}

} // verus!
