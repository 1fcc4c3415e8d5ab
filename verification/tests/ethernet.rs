use termshark::ethernet::{
    EthernetPacket, EthernetPacketInner, MacAddress, PacketHeader, TimeVal,
};

const HEADER: PacketHeader = PacketHeader {
    ts: TimeVal { tv_sec: 5, tv_usec: 100 },
    caplen: 5,
    len: 5,
};

const DATA: [u8; 60] = [
    0xff, 0xff, 0xff, 0xff, 0xff, 0xff, // Destination MAC
    0x00, 0x1a, 0x2b, 0x3c, 0x4d, 0x5e, // Source MAC
    0x08, 0x00, // EtherType (IPv4)
    // Payload (46 bytes to make total length at least 60 bytes)
    0x45, 0x00, 0x00, 0x2e, 0x1c, 0x46, 0x40, 0x00, 0x40, 0x06, 0xb1, 0xe6, 0xc0, 0xa8, 0x00,
    0x68, 0xc0, 0xa8, 0x00, 0x01, 0x00, 0x50, 0xd4, 0x31, 0x5e, 0x6b, 0xc3, 0x7c, 0x00, 0x00,
    0x00, 0x00, 0xa0, 0x02, 0x72, 0x10, 0xe6, 0x32, 0x00, 0x00, 0x02, 0x04, 0x05, 0xb4, 0x01,
    0x03,
];

#[test]
fn mod_test_parse_ethernet_packet() {
    let eth_packet = EthernetPacket::new(&HEADER, &DATA).expect("Failed to parse Ethernet packet");

    assert_eq!(eth_packet.timestamp.timestamp(), HEADER.ts.tv_sec as i64);
    assert_eq!(eth_packet.timestamp.timestamp_subsec_micros(), HEADER.ts.tv_usec as u32);
    assert_eq!(eth_packet.destination, MacAddress([0xff, 0xff, 0xff, 0xff, 0xff, 0xff]));
    assert_eq!(eth_packet.source, MacAddress([0x00, 0x1a, 0x2b, 0x3c, 0x4d, 0x5e]));
    assert!(matches!(eth_packet.inner, EthernetPacketInner::Ipv4(_)));
    assert_eq!(eth_packet.data, &DATA[14..]);
}

#[test]
fn ethernet_test_parse_ethernet_packet() {
    let eth_packet = EthernetPacket::new(&HEADER, &DATA).expect("Failed to parse Ethernet packet");

    assert_eq!(eth_packet.timestamp.timestamp(), HEADER.ts.tv_sec as i64);
    assert_eq!(eth_packet.timestamp.timestamp_subsec_micros(), HEADER.ts.tv_usec as u32);
    assert_eq!(eth_packet.destination, MacAddress([0xff, 0xff, 0xff, 0xff, 0xff, 0xff]));
    assert_eq!(eth_packet.source, MacAddress([0x00, 0x1a, 0x2b, 0x3c, 0x4d, 0x5e]));
    assert!(matches!(eth_packet.inner, EthernetPacketInner::Ipv4(_)));
    assert_eq!(eth_packet.data, &DATA[14..]);
}
