use termshark::app::packet_info::PacketInfo;
use termshark::app::state::App;
use termshark::app::ui::{
    filter_bar_text, filter_bar_title, format_hex_dump, format_packet_details, packet_list_title,
    packet_row, shows_filter_bar, visible_rows, DetailLine,
};
use termshark::ethernet::{EthernetPacket, PacketHeader, TimeVal};

const HEADER: PacketHeader = PacketHeader {
    ts: TimeVal { tv_sec: 5, tv_usec: 100 },
    caplen: 60,
    len: 60,
};

const TCP_FRAME: [u8; 60] = [
    0xff, 0xff, 0xff, 0xff, 0xff, 0xff, 0x00, 0x1a, 0x2b, 0x3c, 0x4d, 0x5e, 0x08, 0x00, 0x45,
    0x00, 0x00, 0x2e, 0x1c, 0x46, 0x40, 0x00, 0x40, 0x06, 0xb1, 0xe6, 0xc0, 0xa8, 0x00, 0x68,
    0xc0, 0xa8, 0x00, 0x01, 0x00, 0x50, 0xd4, 0x31, 0x5e, 0x6b, 0xc3, 0x7c, 0x00, 0x00, 0x00,
    0x00, 0xa0, 0x02, 0x72, 0x10, 0xe6, 0x32, 0x00, 0x00, 0x02, 0x04, 0x05, 0xb4, 0x01, 0x03,
];

fn tcp_info() -> PacketInfo {
    let p = EthernetPacket::new(&HEADER, &TCP_FRAME).unwrap();
    PacketInfo::from_ethernet(&p, 1)
}

#[test]
fn row_of_a_packet() {
    assert_eq!(
        packet_row(&tcp_info()),
        vec![
            "1",
            "00:00:05.000100",
            "192.168.0.104",
            "192.168.0.1",
            "TCP",
            "60",
            "#1584120700, 0 bytes of data from :80 to :54321",
        ]
    );
    let late = PacketHeader { ts: TimeVal { tv_sec: 90061, tv_usec: 7 }, caplen: 60, len: 60 };
    let p = EthernetPacket::new(&late, &TCP_FRAME).unwrap();
    assert_eq!(packet_row(&PacketInfo::from_ethernet(&p, 12))[1], "01:01:01.000007");
    let before = PacketHeader { ts: TimeVal { tv_sec: -1, tv_usec: 999_999 }, caplen: 60, len: 60 };
    let p = EthernetPacket::new(&before, &TCP_FRAME).unwrap();
    assert_eq!(packet_row(&PacketInfo::from_ethernet(&p, 1))[1], "23:59:59.999999");
}

#[test]
fn hex_dump_rows() {
    let rows = format_hex_dump(&TCP_FRAME);
    assert_eq!(rows.len(), 4);
    assert_eq!(rows[0].offset, "0000  ");
    assert_eq!(rows[0].hex, "ff ff ff ff ff ff 00 1a  2b 3c 4d 5e 08 00 45 00 ");
    assert_eq!(rows[0].ascii, "........+<M^..E.");
    assert_eq!(rows[1].offset, "0010  ");
    assert_eq!(rows[1].ascii, "...F@.@......h..");
    assert_eq!(rows[3].offset, "0030  ");
    assert_eq!(rows[3].hex, "72 10 e6 32 00 00 02 04  05 b4 01 03             ");
    assert_eq!(rows[3].ascii, "r..2........");
    assert!(format_hex_dump(&[]).is_empty());
    let short = format_hex_dump(b"Hi there");
    assert_eq!(short.len(), 1);
    assert_eq!(short[0].hex, "48 69 20 74 68 65 72 65                          ");
    assert_eq!(short[0].ascii, "Hi there");
}

#[test]
fn details_of_every_layer() {
    let lines = format_packet_details(&tcp_info());
    match &lines[0] {
        DetailLine::Heading { title, summary } => {
            assert_eq!(title, "▼ Ethernet II");
            assert_eq!(summary, ", Src: 00:1a:2b:3c:4d:5e, Dst: ff:ff:ff:ff:ff:ff");
        }
        DetailLine::Plain(_) => panic!("expected a heading"),
    }
    match &lines[1] {
        DetailLine::Plain(t) => assert_eq!(t, "  Destination: ff:ff:ff:ff:ff:ff"),
        DetailLine::Heading { .. } => panic!("expected a detail"),
    }
    match &lines[4] {
        DetailLine::Plain(t) => assert_eq!(t, ""),
        DetailLine::Heading { .. } => panic!("expected a blank line"),
    }
    match &lines[5] {
        DetailLine::Heading { title, .. } => assert_eq!(title, "▼ Internet Protocol Version 4"),
        DetailLine::Plain(_) => panic!("expected a heading"),
    }
    // three layers: 3 + 12 + 19 detail lines, one heading and one blank line each
    assert_eq!(lines.len(), 3 + 12 + 19 + 6);
}

#[test]
fn titles_and_bars() {
    let mut app = App::new();
    assert!(!shows_filter_bar(&app));
    assert_eq!(packet_list_title(&app), "Captured Packets (0) - ↑/↓, j/k, PgUp/PgDn, Home/End");
    app.add_packet(tcp_info());
    app.set_filter("proto:udp");
    assert!(shows_filter_bar(&app));
    assert_eq!(packet_list_title(&app), "Captured Packets (0/1) - ↑/↓, j/k, PgUp/PgDn, Home/End");
    assert_eq!(filter_bar_title(&app), "Filter Active (0/1) - Press Enter to edit, Esc to clear");
    assert_eq!(filter_bar_text(&app), "protocol:udp");
    app.enter_filter_mode();
    app.filter_input = "nope:1".to_string();
    app.apply_filter_input();
    assert_eq!(
        filter_bar_title(&app),
        "Filter (0/1) (Error: Unknown filter key: 'nope'. Supported: protocol, source, destination, length) - Press Enter to apply, Esc to cancel"
    );
    assert_eq!(filter_bar_text(&app), "nope:1");
    app.exit_filter_mode();
    app.enter_filter_mode();
    assert_eq!(filter_bar_title(&app), "Filter (0/1) - Press Enter to apply, Esc to cancel");
    app.set_filter("proto:tcp");
    assert_eq!(filter_bar_title(&app), "Filter (1/1) - Press Enter to apply, Esc to cancel");
    let mut plain = App::new();
    plain.enter_filter_mode();
    assert_eq!(filter_bar_title(&plain), "Filter - Press Enter to apply, Esc to cancel");
    assert_eq!(visible_rows(20), 17);
    assert_eq!(visible_rows(2), 0);
}
