use termshark::app::packet_info::{PacketInfo, ProtocolLayer};
use termshark::ethernet::arp::{ArpOperation, ArpPacket, HardwareType, ProtocolType};
use termshark::ethernet::ipv4::icmp::{IcmpPacket, IcmpType, ParseIcmpError};
use termshark::ethernet::ipv4::igmp::{IgmpPacket, IgmpType};
use termshark::ethernet::ipv4::tcp::{ParseTcpError, TcpPacket, TcpPacketFlags, TcpPacketInner};
use termshark::ethernet::ipv4::udp::dns::{DnsOperationCode, DnsPacketFlags, DnsResponseCode};
use termshark::ethernet::ipv4::udp::{ParseUdpError, UdpPacket, UdpPacketInner};
use termshark::ethernet::ipv4::{Ipv4Packet, Ipv4PacketInner, ParseIpv4Error};
use termshark::ethernet::ipv6::{Ipv6Packet, ParseIpv6Error};
use termshark::ethernet::lightway::{LightwayPacket, ParseLightwayError};
use termshark::ethernet::{
    EthernetPacket, EthernetPacketInner, Ipv4Addr, Ipv6Addr, MacAddress, PacketDetail,
    PacketHeader, ParseEthernetError, TimeVal, Timestamp,
};

const HEADER: PacketHeader = PacketHeader {
    ts: TimeVal { tv_sec: 5, tv_usec: 100 },
    caplen: 60,
    len: 60,
};

const TCP_FRAME: [u8; 60] = [
    0xff, 0xff, 0xff, 0xff, 0xff, 0xff, 0x00, 0x1a, 0x2b, 0x3c, 0x4d, 0x5e, 0x08, 0x00, 0x45,
    0x00, 0x00, 0x2e, 0x1c, 0x46, 0x40, 0x00, 0x40, 0x06, 0xb1, 0xe6, 0xc0, 0xa8, 0x00, 0x68,
    0xc0, 0xa8, 0x00, 0x01, 0x00, 0x50, 0xd4, 0x31, 0x5e, 0x6b, 0xc3, 0x7c, 0x00, 0x00, 0x00,
    0x00, 0xa0, 0x02, 0x72, 0x10, 0xe6, 0x32, 0x00, 0x00, 0x02, 0x04, 0x05, 0xb4, 0x01, 0x03,
];

fn ethernet(ethertype: u16, payload: &[u8]) -> Vec<u8> {
    let mut v = vec![0x11, 0x22, 0x33, 0x44, 0x55, 0x66, 0xaa, 0xbb, 0xcc, 0xdd, 0xee, 0x0f];
    v.extend_from_slice(&ethertype.to_be_bytes());
    v.extend_from_slice(payload);
    v
}

fn ipv4(protocol: u8, payload: &[u8]) -> Vec<u8> {
    let total = (20 + payload.len()) as u16;
    let mut v = vec![0x45, 0x00];
    v.extend_from_slice(&total.to_be_bytes());
    v.extend_from_slice(&[0x12, 0x34, 0x20, 0x00, 0x80, protocol, 0xab, 0xcd]);
    v.extend_from_slice(&[10, 0, 0, 1, 10, 0, 0, 2]);
    v.extend_from_slice(payload);
    v
}

fn dns_query() -> Vec<u8> {
    vec![0xbe, 0xef, 0x01, 0x20, 0x00, 0x01, 0x00, 0x00, 0x00, 0x00, 0x00, 0x01, 0x07, 0x65]
}

fn udp(src: u16, dst: u16, payload: &[u8]) -> Vec<u8> {
    let mut v = Vec::new();
    v.extend_from_slice(&src.to_be_bytes());
    v.extend_from_slice(&dst.to_be_bytes());
    v.extend_from_slice(&((8 + payload.len()) as u16).to_be_bytes());
    v.extend_from_slice(&[0x12, 0x34]);
    v.extend_from_slice(payload);
    v
}

#[test]
fn tcp_frame_layers_and_texts() {
    let p = EthernetPacket::new(&HEADER, &TCP_FRAME).unwrap();
    assert_eq!(p.summary(), "Src: 00:1a:2b:3c:4d:5e, Dst: ff:ff:ff:ff:ff:ff");
    assert_eq!(
        p.details(),
        vec!["Destination: ff:ff:ff:ff:ff:ff", "Source: 00:1a:2b:3c:4d:5e", "Type: IPV4 (0x0800)"]
    );
    assert_eq!(p.slug(), "ETHERNET");
    assert_eq!(p.name(), "Ethernet II");
    assert_eq!(p.length(), 60);
    assert_eq!(p.source(), Some("00:1a:2b:3c:4d:5e".to_string()));
    let ip = match &p.inner {
        EthernetPacketInner::Ipv4(ip) => ip,
        _ => panic!("expected IPv4"),
    };
    assert_eq!(ip.summary(), "Len: 46, TTL: 64");
    assert_eq!(
        ip.details(),
        vec![
            "Version: 4",
            "Header Length: 20 bytes (5)",
            "DSCP: 0, ECN: 0",
            "Total Length: 46",
            "Identification: 0x1c46",
            "Flags: DF=1, MF=0",
            "Fragment Offset: 0",
            "Time to Live: 64",
            "Protocol: TCP (6)",
            "Header Checksum: 0xb1e6",
            "Source: 192.168.0.104",
            "Destination: 192.168.0.1",
        ]
    );
    assert_eq!(ip.destination(), Some("192.168.0.1".to_string()));
    assert_eq!(
        p.to_text(),
        "[1970-01-01 00:00:05.000100 UTC] 00:1a:2b:3c:4d:5e -> ff:ff:ff:ff:ff:ff, 46 bytes\n\
         IPv4 Packet: 192.168.0.104 -> 192.168.0.1, ID 0x1c46, TTL 64, Header Checksum 0xb1e6, Total Length 46\n\
         TCP: #1584120700, port 80 to 54321, data 0 bytes"
    );
}

#[test]
fn truncated_tcp_header_keeps_captured_options() {
    let tcp = TcpPacket::new(&TCP_FRAME[34..]).unwrap();
    assert_eq!(tcp.data_offset, 10);
    assert_eq!(tcp.options, &TCP_FRAME[54..]);
    assert!(tcp.data.is_empty());
    assert_eq!(tcp.summary(), "#1584120700, 0 bytes of data from :80 to :54321");
    let d = tcp.details();
    assert_eq!(d[4], "Data Offset: 10 (40 bytes)");
    assert_eq!(d[5], "Flags: 0b00000010");
    assert_eq!(d[12], "  SYN: true");
    assert_eq!(d[13], "  FIN: false");
    assert_eq!(d[14], "Window Size: 29200");
    assert_eq!(d[15], "Checksum: 0xe632");
    assert_eq!(d[17], "Options Length: 6 bytes");
    assert_eq!(d.len(), 19);
}

#[test]
fn tcp_errors() {
    assert_eq!(TcpPacket::new(&[0u8; 19]).unwrap_err(), ParseTcpError::PacketTooShort);
    let mut raw = [0u8; 20];
    raw[12] = 0x40;
    assert_eq!(TcpPacket::new(&raw).unwrap_err(), ParseTcpError::InvalidDataOffset);
}

#[test]
fn packet_info_uses_innermost_layer() {
    let p = EthernetPacket::new(&HEADER, &TCP_FRAME).unwrap();
    let info = PacketInfo::from_ethernet(&p, 7);
    assert_eq!(info.number, 7);
    assert_eq!(info.protocol, "TCP");
    assert_eq!(info.info, "#1584120700, 0 bytes of data from :80 to :54321");
    assert_eq!(info.source, "192.168.0.104");
    assert_eq!(info.destination, "192.168.0.1");
    assert_eq!(info.length, 60);
    assert_eq!(info.raw, TCP_FRAME.to_vec());
    let names: Vec<&str> = info.layers.iter().map(|l| l.slug.as_str()).collect();
    assert_eq!(names, vec!["ETHERNET", "IPV4", "TCP"]);
    assert_eq!(info.layers[2].name, "Transmission Control Protocol");
    let layers = ProtocolLayer::collect_from(&p);
    assert_eq!(layers.len(), 3);
    assert_eq!(ProtocolLayer::from_packet_detail(&p).summary, p.summary());
}

#[test]
fn arp_frame() {
    let mut arp = vec![0x00, 0x01, 0x08, 0x00, 0x06, 0x04, 0x00, 0x01];
    arp.extend_from_slice(&[0xaa, 0xbb, 0xcc, 0xdd, 0xee, 0x0f, 10, 0, 0, 1]);
    arp.extend_from_slice(&[0, 0, 0, 0, 0, 0, 10, 0, 0, 2]);
    let frame = ethernet(0x0806, &arp);
    let p = EthernetPacket::new(&HEADER, &frame).unwrap();
    let a = match &p.inner {
        EthernetPacketInner::Arp(a) => a.clone(),
        _ => panic!("expected ARP"),
    };
    assert_eq!(a.hardware_type, HardwareType::Ethernet);
    assert_eq!(a.protocol_type, ProtocolType::IPv4);
    assert_eq!(a.operation, ArpOperation::Request);
    assert_eq!(a.sender_ip, Ipv4Addr([10, 0, 0, 1]));
    assert_eq!(
        a.to_text(),
        "ARP: Request, 10.0.0.1 (aa:bb:cc:dd:ee:0f) -> 10.0.0.2 (00:00:00:00:00:00) \
         [hw_type: Ethernet, proto_type: IPv4, hw_len: 6, proto_len: 4]"
    );
    assert_eq!(a.slug(), "ARP");
    assert_eq!(a.length(), 28);
    assert_eq!(a.details()[0], "Hardware Type: Ethernet");
    assert_eq!(HardwareType::from_primitive(0x1234).to_text(), "Unknown (0x1234)");
    assert_eq!(ArpOperation::from_primitive(2).to_text(), "Reply");
    let info = PacketInfo::from_ethernet(&p, 1);
    assert_eq!(info.protocol, "ARP");
    assert_eq!(info.source, "aa:bb:cc:dd:ee:0f");
    assert_eq!(info.destination, "11:22:33:44:55:66");
    let short = ethernet(0x0806, &arp[..27]);
    assert!(matches!(
        EthernetPacket::new(&HEADER, &short),
        Err(ParseEthernetError::ParseArpError(_))
    ));
    let direct = ArpPacket::new(&arp);
    assert_eq!(direct, a);
}

#[test]
fn icmp_in_ipv4() {
    let icmp = [0x08, 0x00, 0x4d, 0x5a, 0x00, 0x01, 0x00, 0x02, 0x61, 0x62];
    let frame = ethernet(0x0800, &ipv4(1, &icmp));
    let p = EthernetPacket::new(&HEADER, &frame).unwrap();
    let info = PacketInfo::from_ethernet(&p, 2);
    assert_eq!(info.protocol, "ICMP");
    assert_eq!(info.info, "Echo Request (Code: 0)");
    assert_eq!(info.source, "10.0.0.1");
    let packet = IcmpPacket::new(&icmp).unwrap();
    assert_eq!(packet.icmp_type, IcmpType::EchoRequest);
    assert_eq!(
        packet.details(),
        vec![
            "Type: Echo Request (8)",
            "Code: 0",
            "Checksum: 0x4d5a",
            "Rest of Header: 0x00010002",
            "Data Length: 2 bytes",
        ]
    );
    assert_eq!(packet.to_text(), "ICMP: Echo Request (0), checksum 19802, data 2 bytes");
    assert_eq!(IcmpType::from_primitive(42).to_text(), "Unknown (0x2a)");
    assert_eq!(IcmpPacket::new(&icmp[..7]).unwrap_err(), ParseIcmpError::PacketTooShort(7));
    let bad = ethernet(0x0800, &ipv4(1, &icmp[..5]));
    assert_eq!(
        EthernetPacket::new(&HEADER, &bad).unwrap_err(),
        ParseEthernetError::ParseIpv4Error(ParseIpv4Error::ParseIcmpError(
            ParseIcmpError::PacketTooShort(5)
        ))
    );
}

#[test]
fn dns_over_udp() {
    let datagram = udp(53000, 53, &dns_query());
    let frame = ethernet(0x0800, &ipv4(17, &datagram));
    let p = EthernetPacket::new(&HEADER, &frame).unwrap();
    let info = PacketInfo::from_ethernet(&p, 3);
    assert_eq!(info.protocol, "DNS");
    assert_eq!(info.info, "OPCODE=QUERY RCODE=NoError [RD, AD] Q:1 A:0 NS:0 AR:1");
    let names: Vec<&str> = info.layers.iter().map(|l| l.slug.as_str()).collect();
    assert_eq!(names, vec!["ETHERNET", "IPV4", "UDP", "DNS"]);
    let u = UdpPacket::new(&datagram).unwrap();
    assert_eq!(u.summary(), "14 bytes from :53000 to :53");
    assert_eq!(u.to_text(), "UDP: 14 bytes from :53000 to :53");
    let dns = match &u.inner {
        UdpPacketInner::Dns(d) => d.clone(),
        _ => panic!("expected DNS"),
    };
    let d = dns.details();
    assert_eq!(d[0], "Transaction ID: 0xbeef");
    assert_eq!(d[2], "  QR: Query");
    assert_eq!(d[4], "  AA: false");
    assert_eq!(d[6], "  RD: true");
    assert_eq!(d[15], "Data length: 2 bytes");
    assert_eq!(dns.to_text(), "DNS: OPCODE=QUERY RCODE=NoError [RD, AD] Q:1 A:0 NS:0 AR:1");
    let flags = DnsPacketFlags::from([0x85, 0x83]);
    assert!(flags.is_response);
    assert_eq!(flags.opcode, DnsOperationCode::Query);
    assert_eq!(flags.response_code, DnsResponseCode::NonExistentDomain);
    assert_eq!(flags.to_text(), "OPCODE=QUERY RCODE=NXDomain [QR, AA, RD, RA]");
    assert_eq!(DnsOperationCode::from_primitive(9).to_text(), "Unknown (0x09)");
    assert_eq!(UdpPacket::new(&datagram[..7]).unwrap_err(), ParseUdpError::PacketTooShort);
    let short_dns = udp(53, 4000, &[0u8; 11]);
    assert!(matches!(UdpPacket::new(&short_dns), Err(ParseUdpError::ParseDnsError(_))));
}

#[test]
fn mdns_over_udp() {
    let datagram = udp(5353, 5353, &dns_query());
    let u = UdpPacket::new(&datagram).unwrap();
    assert!(matches!(u.inner, UdpPacketInner::Dns(_)));
    let from_mdns = udp(5353, 40000, &dns_query());
    assert!(matches!(UdpPacket::new(&from_mdns).unwrap().inner, UdpPacketInner::Dns(_)));
    let frame = ethernet(0x0800, &ipv4(17, &udp(40000, 5353, &dns_query())));
    let p = EthernetPacket::new(&HEADER, &frame).unwrap();
    let info = PacketInfo::from_ethernet(&p, 5);
    assert_eq!(info.protocol, "DNS");
    let short_mdns = udp(4000, 5353, &[0u8; 11]);
    assert!(matches!(UdpPacket::new(&short_mdns), Err(ParseUdpError::ParseDnsError(_))));
    let other = udp(5354, 4000, &dns_query());
    assert!(matches!(UdpPacket::new(&other).unwrap().inner, UdpPacketInner::Unknown(_)));
}

#[test]
fn ipv6_frame() {
    let mut v6 = vec![0x60, 0x00, 0x00, 0x2a, 0x00, 0x04, 0x3a, 0x40];
    v6.extend_from_slice(&[0x20, 0x01, 0x0d, 0xb8, 0, 0, 0, 0, 0, 0, 0, 0, 0, 0, 0, 1]);
    v6.extend_from_slice(&[0, 0, 0, 0, 0, 0, 0, 0, 0, 0, 0xff, 0xff, 192, 0, 2, 1]);
    v6.extend_from_slice(&[1, 2, 3, 4]);
    let frame = ethernet(0x86dd, &v6);
    let p = EthernetPacket::new(&HEADER, &frame).unwrap();
    let info = PacketInfo::from_ethernet(&p, 4);
    assert_eq!(info.protocol, "IPV6");
    assert_eq!(info.source, "2001:db8::1");
    assert_eq!(info.destination, "::ffff:192.0.2.1");
    assert_eq!(info.info, "Flow Label 0x002a, Hop Limit 64, Payload Length 4");
    let ip = Ipv6Packet::new(&v6).unwrap();
    assert_eq!(ip.details()[4], "Next Header: 0x3a");
    assert_eq!(ip.details()[9], "Total Length: 44 bytes");
    assert_eq!(Ipv6Packet::new(&v6[..39]).unwrap_err(), ParseIpv6Error::PacketTooShort);
    let mut wrong = v6.clone();
    wrong[0] = 0x40;
    assert_eq!(Ipv6Packet::new(&wrong).unwrap_err(), ParseIpv6Error::InvalidVersion);
    assert_eq!(Ipv6Addr([0; 16]).to_text(), "::");
    let mut a = [0u8; 16];
    a[1] = 1;
    a[15] = 1;
    assert_eq!(Ipv6Addr(a).to_text(), "1::1");
}

#[test]
fn ipv4_errors() {
    assert_eq!(Ipv4Packet::new(&[0x45; 19]).unwrap_err(), ParseIpv4Error::PacketTooShort);
    let mut raw = ipv4(99, &[1, 2, 3]);
    let p = Ipv4Packet::new(&raw).unwrap();
    assert_eq!(p.details()[8], "Protocol: Unknown (99)");
    assert_eq!(p.inner.to_text(), "Unknown Protocol (0x63): 3 bytes");
    raw[0] = 0x55;
    assert_eq!(Ipv4Packet::new(&raw).unwrap_err(), ParseIpv4Error::InvalidVersion);
    raw[0] = 0x44;
    assert_eq!(Ipv4Packet::new(&raw).unwrap_err(), ParseIpv4Error::HeaderLengthTooShort);
    raw[0] = 0x4f;
    assert_eq!(Ipv4Packet::new(&raw).unwrap_err(), ParseIpv4Error::PacketTooShort);
}

#[test]
fn ethernet_errors_and_unknown_type() {
    assert_eq!(
        EthernetPacket::new(&HEADER, &TCP_FRAME[..13]).unwrap_err(),
        ParseEthernetError::PacketTooShort
    );
    let late = PacketHeader { ts: TimeVal { tv_sec: 5, tv_usec: 5_000_000 }, caplen: 60, len: 60 };
    assert_eq!(
        EthernetPacket::new(&late, &TCP_FRAME).unwrap_err(),
        ParseEthernetError::TimestampOutOfRange
    );
    let negative = PacketHeader { ts: TimeVal { tv_sec: 5, tv_usec: -1 }, caplen: 60, len: 60 };
    assert_eq!(
        EthernetPacket::new(&negative, &TCP_FRAME).unwrap_err(),
        ParseEthernetError::TimestampOutOfRange
    );
    let frame = ethernet(0x88cc, &[1, 2, 3]);
    let p = EthernetPacket::new(&HEADER, &frame).unwrap();
    assert_eq!(p.details()[2], "Type: UNKNOWN (0x88cc)");
    let info = PacketInfo::from_ethernet(&p, 5);
    assert_eq!(info.protocol, "ETHERNET");
    assert_eq!(info.source, "aa:bb:cc:dd:ee:0f");
    assert_eq!(info.layers.len(), 1);
    match &p.inner {
        EthernetPacketInner::Unknown(u) => {
            assert_eq!(u.summary(), "Unknown Ethernet Packet (0x88cc)");
            assert_eq!(u.details(), vec!["EtherType: 0x88cc", "Data Length: 3 bytes"]);
            assert_eq!(u.to_text(), "Unknown Ethernet Packet (0x88cc): 3 bytes");
        }
        _ => panic!("expected unknown"),
    }
}

#[test]
fn igmp_texts() {
    let raw = [0x11, 0x64, 0xee, 0x9b, 0, 0, 0, 0, 9];
    let p = IgmpPacket::new(&raw).unwrap();
    assert_eq!(p.igmp_type, IgmpType::MembershipQuery);
    assert_eq!(p.summary(), "Membership Query, general");
    assert_eq!(p.details()[1], "Max Response Time: 100 (1/10 second units)");
    assert_eq!(p.to_text(), "IGMP: 1 bytes");
    let report = [0x16, 0, 0, 0, 224, 0, 0, 251];
    let q = IgmpPacket::new(&report).unwrap();
    assert_eq!(q.summary(), "Membership Report V2, group 224.0.0.251");
}

#[test]
fn lightway_texts() {
    let raw = [0x48, 0x65, 1, 2, 1, 0xab, 0, 0, 7, 7, 7];
    let p = LightwayPacket::new(&raw, true).unwrap();
    assert_eq!(p.summary(), "V1.2 aggressive express data: AB data len: 3");
    assert_eq!(p.details(), vec!["Lightway Version: 1.2"]);
    assert_eq!(p.slug(), "LW-TCP");
    assert_eq!(p.name(), "Lightway(TCP)");
    let u = LightwayPacket::new(&raw, false).unwrap();
    assert_eq!(u.slug(), "LW-UDP");
    assert_eq!(LightwayPacket::new(&raw[..7], true).unwrap_err(), ParseLightwayError::PacketTooShort);
    let mut wrong = raw;
    wrong[1] = 0x66;
    assert_eq!(LightwayPacket::new(&wrong, true).unwrap_err(), ParseLightwayError::MagicNumberIncorrect);
}

#[test]
fn tcp_flags_byte_roundtrip() {
    for b in 0..=255u8 {
        assert_eq!(TcpPacketFlags::from(b).to_byte(), b);
    }
    assert_eq!(TcpPacketFlags::from(0x12).to_text(), "0b00010010");
}

#[test]
fn timestamp_text_and_parts() {
    let t = Timestamp::from_timeval(&TimeVal { tv_sec: 86399, tv_usec: 250_000 }).unwrap();
    assert_eq!(t.timestamp(), 86399);
    assert_eq!(t.timestamp_subsec_micros(), 250_000);
    assert_eq!(t.to_text(), "1970-01-01 23:59:59.250 UTC");
    assert!(Timestamp::from_timeval(&TimeVal { tv_sec: i64::MAX, tv_usec: 0 }).is_none());
    let mac = MacAddress([1, 2, 3, 0xa4, 0xb5, 0xc6]);
    assert_eq!(mac.to_text(), "01:02:03:a4:b5:c6");
}

#[test]
fn igmp_over_ipv4() {
    let raw = [
        0x45, 0x00, 0x00, 0x1C, 0x00, 0x01, 0x40, 0x00, 0x40, 0x02, 0x00, 0x00, 10, 0, 0, 1, 224, 0, 0, 1,
        0x16, 0x00, 0x00, 0x00, 224, 0, 0, 1,
    ];
    let p = Ipv4Packet::new(&raw).unwrap();
    assert_eq!(p.version, 4);
    assert_eq!(p.header_length, 5);
    assert_eq!(p.total_length, 28);
    assert_eq!(p.ttl, 64);
    assert!(p.flags.dont_fragment && !p.flags.more_fragments);
    assert_eq!(p.data, &raw[20..]);
    assert_eq!(p.inner.slug(), "IGMP");
    assert_eq!(p.inner.protocol_number(), 2);
    match &p.inner {
        Ipv4PacketInner::Igmp(g) => assert_eq!(g.igmp_type, IgmpType::MembershipReportV2),
        _ => panic!("expected IGMP"),
    }
    let frame = ethernet(0x0800, &raw);
    let e = EthernetPacket::new(&HEADER, &frame).unwrap();
    let info = PacketInfo::from_ethernet(&e, 7);
    assert_eq!(info.protocol, "IGMP");
    let names: Vec<&str> = info.layers.iter().map(|l| l.slug.as_str()).collect();
    assert_eq!(names, vec!["ETHERNET", "IPV4", "IGMP"]);
    assert!(matches!(
        Ipv4Packet::new(&ipv4(2, &[0x11, 0, 0])),
        Err(ParseIpv4Error::ParseIgmpError(_))
    ));
}

#[test]
fn http_over_tcp() {
    let mut segment = vec![0x9c, 0x40, 0x00, 0x50, 0, 0, 0, 1, 0, 0, 0, 0, 0x50, 0x18, 0x01, 0x00, 0, 0, 0, 0];
    segment.extend_from_slice(b"GET /index.html HTTP/1.1\r\nHost: example.com\r\n\r\n");
    let t = TcpPacket::new(&segment).unwrap();
    match &t.inner {
        TcpPacketInner::Http(h) => assert_eq!(h.to_text(), "HTTP: GET /index.html HTTP/1.1"),
        _ => panic!("expected HTTP"),
    }
    let frame = ethernet(0x0800, &ipv4(6, &segment));
    let p = EthernetPacket::new(&HEADER, &frame).unwrap();
    let info = PacketInfo::from_ethernet(&p, 8);
    assert_eq!(info.protocol, "HTTP");
    let names: Vec<&str> = info.layers.iter().map(|l| l.slug.as_str()).collect();
    assert_eq!(names, vec!["ETHERNET", "IPV4", "TCP", "HTTP"]);
    let mut other = segment[..20].to_vec();
    other.extend_from_slice(b"SSH-2.0-OpenSSH\r\n");
    let u = TcpPacket::new(&other).unwrap();
    match &u.inner {
        TcpPacketInner::Unknown(d) => assert_eq!(d.data, &other[20..]),
        _ => panic!("expected unknown data"),
    }
    assert!(matches!(TcpPacket::new(&segment[..20]).unwrap().inner, TcpPacketInner::Unknown(_)));
}

#[test]
fn timestamp_range_is_chronos_date_range() {
    let min = -8_334_601_228_800i64;
    let max = 8_210_266_876_799i64;
    assert!(Timestamp::from_timeval(&TimeVal { tv_sec: min, tv_usec: 0 }).is_some());
    assert!(Timestamp::from_timeval(&TimeVal { tv_sec: min - 1, tv_usec: 999_999 }).is_none());
    assert!(Timestamp::from_timeval(&TimeVal { tv_sec: max, tv_usec: 999_999 }).is_some());
    assert!(Timestamp::from_timeval(&TimeVal { tv_sec: max + 1, tv_usec: 0 }).is_none());
    // a year far beyond 9999
    assert!(Timestamp::from_timeval(&TimeVal { tv_sec: 1_000_000_000_000, tv_usec: 5 }).is_some());
    // a leap second only on a second that ends a minute
    assert!(Timestamp::from_timeval(&TimeVal { tv_sec: 59, tv_usec: 1_500_000 }).is_some());
    assert!(Timestamp::from_timeval(&TimeVal { tv_sec: 58, tv_usec: 1_500_000 }).is_none());
    assert!(Timestamp::from_timeval(&TimeVal { tv_sec: 59, tv_usec: 2_000_000 }).is_none());
    assert!(Timestamp::from_timeval(&TimeVal { tv_sec: 0, tv_usec: -1 }).is_none());
}
