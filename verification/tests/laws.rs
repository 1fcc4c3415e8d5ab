use termshark::app::filter::PacketFilter;
use termshark::app::packet_info::PacketInfo;
use termshark::app::state::App;
use termshark::ethernet::ipv4::icmp::IcmpType;
use termshark::ethernet::ipv4::igmp::IgmpType;
use termshark::ethernet::ipv4::udp::dns::{DnsOperationCode, DnsResponseCode};
use termshark::ethernet::{EthernetPacket, PacketHeader, TimeVal};

#[test]
fn type_numbers_convert_back() {
    for v in 0..=255u8 {
        assert_eq!(IcmpType::from_primitive(v).to_primitive(), v);
        assert_eq!(IgmpType::from_primitive(v).to_primitive(), v);
        assert_eq!(DnsOperationCode::from_primitive(v).to_primitive(), v);
        assert_eq!(DnsResponseCode::from_primitive(v).to_primitive(), v);
    }
}

#[test]
fn reapplying_the_shown_filter_text_keeps_the_filter() {
    let header = PacketHeader { ts: TimeVal { tv_sec: 1, tv_usec: 0 }, caplen: 60, len: 60 };
    let mut frame = vec![0xff; 6];
    frame.extend_from_slice(&[1, 2, 3, 4, 5, 6, 0x08, 0x00, 0x45, 0, 0, 28, 0, 0, 0, 0, 64, 17, 0, 0]);
    frame.extend_from_slice(&[10, 0, 0, 1, 10, 0, 0, 2, 0, 9, 0, 10, 0, 8, 0, 0]);
    let p = EthernetPacket::new(&header, &frame).unwrap();
    let mut app = App::new();
    app.add_packet(PacketInfo::from_ethernet(&p, 1));
    app.set_filter("PROTO:UDP,tcp dst:10.0.0.2 len:1-100 foo");
    let before = app.filter.as_ref().unwrap().to_text();
    assert_eq!(before, "protocol:udp,tcp dest:10.0.0.2 length:1-100 foo");
    app.enter_filter_mode();
    assert_eq!(app.filter_input, before);
    app.apply_filter_input();
    assert!(!app.filter_mode);
    assert!(app.filter_error.is_none());
    assert_eq!(app.filter.as_ref().unwrap().to_text(), before);
    let again = PacketFilter::parse(&before).unwrap();
    assert_eq!(again.protocols(), app.filter.as_ref().unwrap().protocols());
}

#[test]
fn crossed_strict_length_bounds_read_back() {
    let f = PacketFilter::parse("length:>500 length:<100").unwrap();
    assert_eq!(f.to_text(), "length:>500 length:<100");
    let g = PacketFilter::parse(&f.to_text()).unwrap();
    assert_eq!(g.min_length(), Some(500));
    assert_eq!(g.max_length(), Some(100));
    assert!(g.min_exclusive() && g.max_exclusive());
}

#[test]
fn mixed_length_bounds_read_back() {
    let f = PacketFilter::parse("length:10-20 length:>5").unwrap();
    assert_eq!(f.to_text(), "length:20 length:>5");
    let g = PacketFilter::parse(&f.to_text()).unwrap();
    assert_eq!((g.min_length(), g.max_length()), (Some(5), Some(20)));
    assert!(g.min_exclusive() && !g.max_exclusive());
    let f = PacketFilter::parse("length:300 length:<900").unwrap();
    assert_eq!(f.to_text(), "length:300 length:<900");
    let g = PacketFilter::parse(&f.to_text()).unwrap();
    assert_eq!((g.min_length(), g.max_length()), (Some(300), Some(900)));
    assert!(!g.min_exclusive() && g.max_exclusive());
}

fn udp_info(payload: &[u8], number: usize) -> PacketInfo {
    let header = PacketHeader { ts: TimeVal { tv_sec: 1, tv_usec: 0 }, caplen: 60, len: 60 };
    let mut frame = vec![0xff; 6];
    let total = (28 + payload.len()) as u8;
    frame.extend_from_slice(&[1, 2, 3, 4, 5, 6, 0x08, 0x00, 0x45, 0, 0, total, 0, 0, 0, 0, 64, 17, 0, 0]);
    frame.extend_from_slice(&[10, 0, 0, 1, 10, 0, 0, 2, 0, 9, 0, 10, 0, 8, 0, 0]);
    frame.extend_from_slice(payload);
    let p = EthernetPacket::new(&header, &frame).unwrap();
    PacketInfo::from_ethernet(&p, number)
}

#[test]
fn search_terms_combine_with_and() {
    let packets = [udp_info(b"hello world", 1), udp_info(b"HELLO", 2), udp_info(b"other", 3)];
    let f = PacketFilter::parse("proto:udp length:<100").unwrap();
    let t = PacketFilter::parse("hello").unwrap();
    let g = PacketFilter::parse("proto:udp length:<100 hello").unwrap();
    assert_eq!(g.search_terms(), &vec!["hello".to_string()]);
    for p in &packets {
        assert_eq!(g.matches(p), f.matches(p) && t.matches(p));
    }
    assert!(g.matches(&packets[0]) && g.matches(&packets[1]) && !g.matches(&packets[2]));
}

#[test]
fn parsed_filter_text_reads_back() {
    for input in [
        "PROTO:TCP,,Udp src:1.2.3.4,5.6.7.8 len:>5 length:<9 x y",
        "  dst:10.0.0.2   LENGTH:40-50 GET ",
        "length:7 length:>3",
        "length:1-2 length:<9",
        "",
    ] {
        let f = PacketFilter::parse(input).unwrap();
        let g = PacketFilter::parse(&f.to_text()).unwrap();
        assert_eq!(g.protocols(), f.protocols());
        assert_eq!(g.sources(), f.sources());
        assert_eq!(g.destinations(), f.destinations());
        assert_eq!(g.min_length(), f.min_length());
        assert_eq!(g.max_length(), f.max_length());
        assert_eq!(g.min_exclusive(), f.min_exclusive());
        assert_eq!(g.max_exclusive(), f.max_exclusive());
        assert_eq!(g.search_terms(), f.search_terms());
        assert_eq!(g.to_text(), f.to_text());
    }
}
