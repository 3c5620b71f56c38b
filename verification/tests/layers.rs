use sniffglue::centrifuge::{
    parse, parse_eth, parse_ipv4, parse_ipv6, parse_network, parse_sll, parse_tcp, parse_transport,
    parse_tun, parse_udp,
};
use sniffglue::centrifuge::tcp as tcp_payload;
use sniffglue::centrifuge::udp as udp_payload;
use sniffglue::filter::{noise_level, Filter, NoiseLevel};
use sniffglue::link::{DataLink, UnsupportedLinkType};
use sniffglue::structs::arp::{ArpPacket, Operation};
use sniffglue::structs::dropbox::DropboxBeacon;
use sniffglue::structs::ether::{Ether, EtherType, EthernetFrame};
use sniffglue::structs::ip::IPProtocol;
use sniffglue::structs::ipv4::{IPv4, IPv4Header};
use sniffglue::structs::ipv6::IPv6Header;
use sniffglue::structs::raw::Raw;
use sniffglue::structs::tcp::{TcpHeader, TCP};
use sniffglue::structs::tls::ClientHello;
use sniffglue::structs::udp::{UdpHeader, UDP};
use sniffglue::structs::CentrifugeError;

const REQUEST: &[u8] = b"GET /a HTTP/1.1\r\nHost: example.org\r\n\r\n";

fn ethernet(ethertype: [u8; 2], payload: &[u8]) -> Vec<u8> {
    let mut frame = vec![1, 2, 3, 4, 5, 6, 7, 8, 9, 10, 11, 12];
    frame.extend(ethertype);
    frame.extend(payload);
    frame
}

fn ipv4(protocol: u8, payload: &[u8]) -> Vec<u8> {
    let mut packet = vec![0x45, 0x10, 0x01, 0x02, 0xab, 0xcd, 0xa1, 0x23, 64, protocol, 0x12, 0x34];
    packet.extend([10, 0, 0, 1, 10, 0, 0, 2]);
    packet.extend(payload);
    packet
}

fn ipv4_header(protocol: IPProtocol) -> IPv4Header {
    IPv4Header {
        version: 4,
        ihl: 5,
        tos: 0x10,
        length: 0x0102,
        id: 0xabcd,
        flags: 5,
        fragment_offset: 0x0123,
        ttl: 64,
        protocol,
        chksum: 0x1234,
        source_addr: [10, 0, 0, 1],
        dest_addr: [10, 0, 0, 2],
    }
}

fn tcp(payload: &[u8]) -> Vec<u8> {
    let mut segment = vec![0xc3, 0x50, 0x00, 0x50, 1, 2, 3, 4, 5, 6, 7, 8, 0x5f, 0xea, 0x10, 0x00];
    segment.extend([0xbe, 0xef, 0x00, 0x07]);
    segment.extend(payload);
    segment
}

fn tcp_header() -> TcpHeader {
    TcpHeader {
        source_port: 50000,
        dest_port: 80,
        sequence_no: 0x01020304,
        ack_no: 0x05060708,
        data_offset: 5,
        reserved: 0x3f,
        flag_urg: true,
        flag_ack: false,
        flag_psh: true,
        flag_rst: false,
        flag_syn: true,
        flag_fin: false,
        window: 0x1000,
        checksum: 0xbeef,
        urgent_pointer: 7,
    }
}

fn udp(payload: &[u8]) -> Vec<u8> {
    let mut datagram = vec![0x44, 0x5c, 0x44, 0x5c, 0x00, 0x10, 0xff, 0xee];
    datagram.extend(payload);
    datagram
}

fn udp_header() -> UdpHeader {
    UdpHeader { source_port: 17500, dest_port: 17500, length: 16, checksum: 0xffee }
}

fn frame_header() -> EthernetFrame {
    EthernetFrame {
        dest_mac: [1, 2, 3, 4, 5, 6],
        source_mac: [7, 8, 9, 10, 11, 12],
        ethertype: EtherType::IPv4,
    }
}

#[test]
fn http_request_in_a_frame_keeps_every_header_field() {
    let frame = ethernet([8, 0], &ipv4(6, &tcp(REQUEST)));
    match parse(&DataLink::Ethernet, &frame) {
        Raw::Ether(eth, Ether::IPv4(ip, IPv4::TCP(tcp, TCP::HTTP(request)))) => {
            assert_eq!(eth, frame_header());
            assert_eq!(ip, ipv4_header(IPProtocol::TCP));
            assert_eq!(tcp, tcp_header());
            assert_eq!(request.method, "GET");
            assert_eq!(request.uri, "/a");
            assert_eq!(request.version, "1.1");
            assert_eq!(request.host, Some("example.org".to_string()));
        }
        other => panic!("decoded to {:?}", other),
    }
}

#[test]
fn frames_shorter_than_a_header_fall_back() {
    let whole = ethernet([8, 0], &ipv4(6, &tcp(b"")));
    assert_eq!(whole.len(), 54);
    for len in 0..14 {
        assert_eq!(parse(&DataLink::Ethernet, &whole[..len]), Raw::Unknown(whole[..len].to_vec()));
        assert_eq!(parse_eth(&whole[..len]), Err(CentrifugeError::WrongProtocol));
    }
    for len in 14..34 {
        assert_eq!(
            parse(&DataLink::Ethernet, &whole[..len]),
            Raw::Ether(frame_header(), Ether::Unknown(whole[14..len].to_vec()))
        );
    }
    for len in 34..54 {
        assert_eq!(
            parse(&DataLink::Ethernet, &whole[..len]),
            Raw::Ether(
                frame_header(),
                Ether::IPv4(ipv4_header(IPProtocol::TCP), IPv4::Unknown(whole[34..len].to_vec()))
            )
        );
    }
    assert_eq!(
        parse(&DataLink::Ethernet, &whole),
        Raw::Ether(
            frame_header(),
            Ether::IPv4(ipv4_header(IPProtocol::TCP), IPv4::TCP(tcp_header(), TCP::Empty))
        )
    );
}

#[test]
fn short_headers_are_wrong_protocol() {
    assert_eq!(parse_ipv4(&[0x45; 19]), Err(CentrifugeError::WrongProtocol));
    assert_eq!(parse_ipv6(&[0x60; 39]), Err(CentrifugeError::WrongProtocol));
    assert_eq!(parse_tcp(&[0; 19]), Err(CentrifugeError::WrongProtocol));
    assert_eq!(parse_udp(&[0; 7]), Err(CentrifugeError::WrongProtocol));
    assert_eq!(parse_network(EtherType::ARP, &[0; 27]), Ether::Unknown(vec![0; 27]));
    assert_eq!(parse_network(EtherType::Other, &[1, 2]), Ether::Unknown(vec![1, 2]));
    assert_eq!(parse_transport(IPProtocol::Other, &[1, 2]), IPv4::Unknown(vec![1, 2]));
}

#[test]
fn tcp_options_are_stepped_over() {
    let mut segment = tcp(b"");
    segment[12] = 0x70;
    segment.extend([1, 1, 1, 1, 8, 10, 0, 0]);
    segment.extend(b"hello world");
    let mut header = tcp_header();
    header.data_offset = 7;
    header.reserved = 0x03;
    assert_eq!(parse_tcp(&segment), Ok((header, TCP::Text("hello world".to_string()))));
    // the options that the header announces are not all there
    assert_eq!(parse_tcp(&segment[..27]), Err(CentrifugeError::WrongProtocol));
    assert_eq!(parse_transport(IPProtocol::TCP, &segment[..27]), IPv4::Unknown(segment[..27].to_vec()));
    assert_eq!(parse_tcp(&segment[..28]), Ok((header, TCP::Empty)));
    // a data offset below five words means no options
    let mut segment = tcp(b"x");
    segment[12] = 0x20;
    let mut header = tcp_header();
    header.data_offset = 2;
    header.reserved = 0x03;
    assert_eq!(parse_tcp(&segment), Ok((header, TCP::Text("x".to_string()))));
}

#[test]
fn tcp_payload_is_sniffed_in_order() {
    assert_eq!(tcp_payload::extract(b""), TCP::Empty);
    assert!(matches!(tcp_payload::extract(REQUEST), TCP::HTTP(_)));
    assert_eq!(tcp_payload::extract(b"hello"), TCP::Text("hello".to_string()));
    assert_eq!(tcp_payload::extract(&[0xff, 0x00]), TCP::Binary(vec![0xff, 0x00]));
    assert_eq!(tcp_payload::extract(&[0x00]), TCP::Text("\0".to_string()));
    let beacon = br#"{"host_int": 1, "version": [2], "displayname": "pc", "port": 17500, "namespaces": [3]}"#;
    assert_eq!(
        tcp_payload::extract(beacon),
        TCP::Dropbox(DropboxBeacon {
            version: vec![2],
            host_int: 1,
            namespaces: vec![3],
            displayname: "pc".to_string(),
            port: 17500,
        })
    );
    // JSON that is no beacon is text
    assert_eq!(tcp_payload::extract(b"{}"), TCP::Text("{}".to_string()));
    // a ClientHello without extensions
    let mut hello = vec![0x16, 0x03, 0x01, 0x00, 0x2d, 0x01, 0x00, 0x00, 0x29, 0x03, 0x03];
    hello.extend([7; 32]);
    hello.extend([0, 0x00, 0x02, 0x13, 0x01, 0x01, 0x00]);
    assert_eq!(tcp_payload::extract(&hello), TCP::TLS(ClientHello::new(None)));
}

#[test]
fn udp_datagram_with_beacon() {
    let beacon = br#"{"host_int": 1, "version": [2], "displayname": "pc", "port": 17500, "namespaces": [3]}"#;
    let frame = ethernet([8, 0], &ipv4(17, &udp(beacon)));
    let expected = DropboxBeacon {
        version: vec![2],
        host_int: 1,
        namespaces: vec![3],
        displayname: "pc".to_string(),
        port: 17500,
    };
    assert_eq!(
        parse(&DataLink::Ethernet, &frame),
        Raw::Ether(
            frame_header(),
            Ether::IPv4(
                ipv4_header(IPProtocol::UDP),
                IPv4::UDP(udp_header(), UDP::Dropbox(expected))
            )
        )
    );
    assert_eq!(udp_payload::extract(b"ping"), UDP::Text("ping".to_string()));
    assert_eq!(udp_payload::extract(b""), UDP::Text(String::new()));
    assert_eq!(udp_payload::extract(&[0x80]), UDP::Binary(vec![0x80]));
    assert_eq!(parse_udp(&udp(b"ping")), Ok((udp_header(), UDP::Text("ping".to_string()))));
}

#[test]
fn other_protocols_stay_as_bytes() {
    let frame = ethernet([8, 0], &ipv4(1, &[8, 0, 1, 2]));
    assert_eq!(
        parse(&DataLink::Ethernet, &frame),
        Raw::Ether(
            frame_header(),
            Ether::IPv4(ipv4_header(IPProtocol::Other), IPv4::Unknown(vec![8, 0, 1, 2]))
        )
    );
    let frame = ethernet([0x88, 0xcc], &[1, 2, 3]);
    let mut header = frame_header();
    header.ethertype = EtherType::Other;
    assert_eq!(parse(&DataLink::Ethernet, &frame), Raw::Ether(header, Ether::Unknown(vec![1, 2, 3])));
}

#[test]
fn arp_request() {
    let mut packet = vec![0, 1, 8, 0, 6, 4, 0, 1];
    packet.extend([0xaa, 0xbb, 0xcc, 0xdd, 0xee, 0xff, 192, 168, 0, 1]);
    packet.extend([0, 0, 0, 0, 0, 0, 192, 168, 0, 7]);
    let frame = ethernet([8, 6], &packet);
    let mut header = frame_header();
    header.ethertype = EtherType::ARP;
    let expected = ArpPacket {
        operation: Operation::Request,
        src_mac: [0xaa, 0xbb, 0xcc, 0xdd, 0xee, 0xff],
        src_addr: [192, 168, 0, 1],
        dest_mac: [0; 6],
        dest_addr: [192, 168, 0, 7],
    };
    assert_eq!(parse(&DataLink::Ethernet, &frame), Raw::Ether(header, Ether::Arp(expected)));
    packet[7] = 2;
    let mut reply = expected;
    reply.operation = Operation::Reply;
    assert_eq!(parse_network(EtherType::ARP, &packet), Ether::Arp(reply));
    packet[6] = 1;
    reply.operation = Operation::Other(0x0102);
    assert_eq!(parse_network(EtherType::ARP, &packet), Ether::Arp(reply));
}

fn ipv6(next_header: u8, payload: &[u8]) -> Vec<u8> {
    let mut packet = vec![0x6a, 0xbc, 0xde, 0xf0, 0x01, 0x02, next_header, 0x40];
    packet.extend(1..=16);
    packet.extend(17..=32);
    packet.extend(payload);
    packet
}

fn ipv6_header(next_header: IPProtocol) -> IPv6Header {
    IPv6Header {
        version: 6,
        ds: 0x2a,
        ecn: 3,
        flow_label: 0xcdef0,
        length: 0x0102,
        next_header,
        hop_limit: 0x40,
        source_addr: [1, 2, 3, 4, 5, 6, 7, 8, 9, 10, 11, 12, 13, 14, 15, 16],
        dest_addr: [17, 18, 19, 20, 21, 22, 23, 24, 25, 26, 27, 28, 29, 30, 31, 32],
    }
}

#[test]
fn ipv6_packet() {
    let packet = ipv6(6, &tcp(b"hello"));
    assert_eq!(
        parse_ipv6(&packet),
        Ok((ipv6_header(IPProtocol::TCP), IPv4::TCP(tcp_header(), TCP::Text("hello".to_string()))))
    );
    let frame = ethernet([0x86, 0xdd], &ipv6(17, &udp(b"x")));
    let mut header = frame_header();
    header.ethertype = EtherType::IPv6;
    assert_eq!(
        parse(&DataLink::Ethernet, &frame),
        Raw::Ether(
            header,
            Ether::IPv6(
                ipv6_header(IPProtocol::UDP),
                IPv4::UDP(udp_header(), UDP::Text("x".to_string()))
            )
        )
    );
    assert_eq!(
        parse_ipv6(&ipv6(58, &[1])),
        Ok((ipv6_header(IPProtocol::Other), IPv4::Unknown(vec![1])))
    );
}

#[test]
fn raw_ip_frames() {
    let packet = ipv4(6, &tcp(b"hello"));
    let inner = Ether::IPv4(
        ipv4_header(IPProtocol::TCP),
        IPv4::TCP(tcp_header(), TCP::Text("hello".to_string())),
    );
    assert_eq!(parse(&DataLink::Tun, &packet), Raw::Tun(inner.clone()));
    assert_eq!(parse_tun(&packet), Raw::Tun(inner));
    let packet = ipv6(6, &tcp(b""));
    assert_eq!(
        parse_tun(&packet),
        Raw::Tun(Ether::IPv6(ipv6_header(IPProtocol::TCP), IPv4::TCP(tcp_header(), TCP::Empty)))
    );
    assert_eq!(parse_tun(&packet[..39]), Raw::Unknown(packet[..39].to_vec()));
    assert_eq!(parse_tun(&[0x15, 1, 2]), Raw::Unknown(vec![0x15, 1, 2]));
}

#[test]
fn linux_cooked_frames() {
    let mut frame = vec![0, 0, 0, 1, 0, 6, 1, 2, 3, 4, 5, 6, 0, 0, 8, 0];
    frame.extend(ipv4(17, &udp(b"x")));
    let inner = Ether::IPv4(
        ipv4_header(IPProtocol::UDP),
        IPv4::UDP(udp_header(), UDP::Text("x".to_string())),
    );
    assert_eq!(parse(&DataLink::Sll, &frame), Raw::Sll(inner.clone()));
    assert_eq!(parse_sll(&frame), Raw::Sll(inner));
    assert_eq!(parse_sll(&frame[..15]), Raw::Unknown(frame[..15].to_vec()));
    assert_eq!(parse_sll(&frame[..16]), Raw::Sll(Ether::Unknown(vec![])));
    frame[14] = 0x12;
    assert_eq!(parse_sll(&frame), Raw::Sll(Ether::Unknown(frame[16..].to_vec())));
}

#[test]
fn link_types() {
    assert_eq!(DataLink::from_linktype(1), Ok(DataLink::Ethernet));
    assert_eq!(DataLink::from_linktype(12), Ok(DataLink::Tun));
    assert_eq!(DataLink::from_linktype(113), Ok(DataLink::Sll));
    assert_eq!(DataLink::from_linktype(0), Err(UnsupportedLinkType(0)));
    assert_eq!(DataLink::from_linktype(127), Err(UnsupportedLinkType(127)));
    assert_eq!(DataLink::from_linktype(-1), Err(UnsupportedLinkType(-1)));
}

#[test]
fn noise_levels() {
    let unknown = Raw::Unknown(vec![1]);
    assert_eq!(noise_level(&unknown), NoiseLevel::Maximum);
    assert_eq!(NoiseLevel::Maximum.into_u8(), 4);
    assert_eq!(NoiseLevel::AlmostMaximum.into_u8(), 3);
    assert_eq!(NoiseLevel::Two.into_u8(), 2);
    assert_eq!(NoiseLevel::One.into_u8(), 1);
    assert_eq!(NoiseLevel::Zero.into_u8(), 0);
    let http = parse(&DataLink::Ethernet, &ethernet([8, 0], &ipv4(6, &tcp(REQUEST))));
    assert_eq!(noise_level(&http), NoiseLevel::Zero);
    let text = parse(&DataLink::Ethernet, &ethernet([8, 0], &ipv4(6, &tcp(b"hello!"))));
    assert_eq!(noise_level(&text), NoiseLevel::Zero);
    let short = parse(&DataLink::Ethernet, &ethernet([8, 0], &ipv4(6, &tcp(b"hello"))));
    assert_eq!(noise_level(&short), NoiseLevel::AlmostMaximum);
    let binary = parse(&DataLink::Ethernet, &ethernet([8, 0], &ipv4(6, &tcp(&[0xff; 9]))));
    assert_eq!(noise_level(&binary), NoiseLevel::AlmostMaximum);
    let syn = parse(&DataLink::Ethernet, &ethernet([8, 0], &ipv4(6, &tcp(b""))));
    assert_eq!(noise_level(&syn), NoiseLevel::Two);
    let mut ack = tcp(b"");
    ack[13] = 0x10;
    let ack = parse(&DataLink::Ethernet, &ethernet([8, 0], &ipv4(6, &ack)));
    assert_eq!(noise_level(&ack), NoiseLevel::AlmostMaximum);
    let udp_text = parse(&DataLink::Tun, &ipv4(17, &udp(b"x")));
    assert_eq!(noise_level(&udp_text), NoiseLevel::Two);
    let udp_binary = parse(&DataLink::Tun, &ipv4(17, &udp(&[0xff])));
    assert_eq!(noise_level(&udp_binary), NoiseLevel::AlmostMaximum);
    let other = parse(&DataLink::Tun, &ipv4(1, &[1]));
    assert_eq!(noise_level(&other), NoiseLevel::Maximum);
    let arp = Raw::Ether(
        frame_header(),
        Ether::Arp(ArpPacket {
            operation: Operation::Request,
            src_mac: [0; 6],
            src_addr: [0; 4],
            dest_mac: [0; 6],
            dest_addr: [0; 4],
        }),
    );
    assert_eq!(noise_level(&arp), NoiseLevel::One);

    assert!(Filter::new(0).matches(&http));
    assert!(!Filter::new(0).matches(&arp));
    assert!(Filter::new(1).matches(&arp));
    assert!(!Filter::new(1).matches(&syn));
    assert!(Filter::new(2).matches(&syn));
    assert!(!Filter::new(2).matches(&short));
    assert!(Filter::new(3).matches(&short));
    assert!(!Filter::new(3).matches(&unknown));
    assert!(Filter::new(4).matches(&unknown));
    assert!(Filter::new(200).matches(&unknown));
}
