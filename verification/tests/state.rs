use termshark::app::events::{handle_filter_key, handle_key_event};
use termshark::app::input::{KeyCode, CONTROL, SHIFT};
use termshark::app::filter::PacketFilter;
use termshark::app::key_config::KeyEvent;
use termshark::app::packet_info::PacketInfo;
use termshark::app::state::App;
use termshark::ethernet::{EthernetPacket, PacketHeader, TimeVal};

const HEADER: PacketHeader = PacketHeader {
    ts: TimeVal { tv_sec: 5, tv_usec: 100 },
    caplen: 60,
    len: 60,
};

fn frame(dst_last: u8, protocol: u8, payload_len: usize, fill: u8) -> Vec<u8> {
    let mut v = vec![0xff; 6];
    v.extend_from_slice(&[0x00, 0x1a, 0x2b, 0x3c, 0x4d, 0x5e, 0x08, 0x00]);
    let total = (20 + payload_len) as u16;
    v.extend_from_slice(&[0x45, 0x00]);
    v.extend_from_slice(&total.to_be_bytes());
    v.extend_from_slice(&[0, 1, 0, 0, 64, protocol, 0, 0, 192, 168, 1, 1, 10, 0, 0, dst_last]);
    v.extend(std::iter::repeat(fill).take(payload_len));
    v
}

fn info(number: usize, raw: &[u8]) -> PacketInfo {
    let p = EthernetPacket::new(&HEADER, raw).unwrap();
    PacketInfo::from_ethernet(&p, number)
}

fn sample_app() -> App {
    let mut app = App::new();
    // an unknown IPv4 payload, 30 bytes long, carrying "HTTP"
    let mut a = frame(1, 99, 30, b'x');
    a.extend_from_slice(b"HTTP");
    app.add_packet(info(1, &a));
    // an ICMP echo request of 8 bytes, to 10.0.0.2
    let mut b = frame(2, 1, 0, 0);
    b.extend_from_slice(&[8, 0, 0, 0, 0, 0, 0, 0]);
    app.add_packet(info(2, &b));
    // another unknown payload, 300 bytes
    app.add_packet(info(3, &frame(3, 99, 300, b'y')));
    app
}

fn shown_numbers(app: &App) -> Vec<usize> {
    app.packets.iter().map(|p| p.number).collect()
}

#[test]
fn new_app_is_empty() {
    let app = App::new();
    assert!(app.all_packets.is_empty());
    assert!(app.packets.is_empty());
    assert_eq!(app.selected, 0);
    assert!(!app.should_quit);
    assert!(app.filter.is_none());
    assert!(app.selected_packet().is_none());
    let d = App::default();
    assert!(d.packets.is_empty());
}

#[test]
fn filters_select_shown_packets() {
    let mut app = sample_app();
    assert_eq!(shown_numbers(&app), vec![1, 2, 3]);
    app.set_filter("protocol:icmp");
    assert_eq!(shown_numbers(&app), vec![2]);
    app.set_filter("length:>100");
    assert_eq!(shown_numbers(&app), vec![3]);
    app.set_filter("http");
    assert_eq!(shown_numbers(&app), vec![1]);
    app.set_filter("dst:10.0.0.2");
    assert_eq!(shown_numbers(&app), vec![2]);
    app.set_filter("   ");
    assert!(app.filter.is_none());
    assert_eq!(shown_numbers(&app), vec![1, 2, 3]);
}

#[test]
fn every_shown_packet_matches_the_filter() {
    let mut app = sample_app();
    app.set_filter("length:<100");
    let filter = app.filter.clone().unwrap();
    for p in &app.packets {
        assert!(filter.matches(p));
    }
    for p in &app.all_packets {
        assert_eq!(filter.matches(p), app.packets.iter().any(|q| q.number == p.number));
    }
    // packets captured later are filtered as they arrive
    app.add_packet(info(4, &frame(4, 99, 500, 0)));
    app.add_packet(info(5, &frame(5, 99, 5, 0)));
    assert_eq!(shown_numbers(&app), vec![1, 2, 5]);
    assert_eq!(app.all_packets.len(), 5);
}

#[test]
fn invalid_filter_keeps_state() {
    let mut app = sample_app();
    app.set_filter("protocol:icmp");
    app.set_filter("colour:red");
    assert_eq!(
        app.filter_error.as_deref(),
        Some("Unknown filter key: 'colour'. Supported: protocol, source, destination, length")
    );
    assert_eq!(shown_numbers(&app), vec![2]);
    app.set_filter("length:10-5");
    assert_eq!(app.filter_error.as_deref(), Some("Invalid range: min (10) > max (5)"));
    app.set_filter("length:abc");
    assert_eq!(app.filter_error.as_deref(), Some("Invalid length value: 'abc'"));
    app.set_filter("length:1-2-3");
    assert_eq!(
        app.filter_error.as_deref(),
        Some("Invalid length range: '1-2-3'. Expected 'min-max'")
    );
    app.set_filter("length:a-3");
    assert_eq!(app.filter_error.as_deref(), Some("Invalid length range: 'a-3'"));
}

#[test]
fn filter_editing_flow() {
    let mut app = sample_app();
    app.set_filter("proto:icmp,udp len:10-100");
    app.enter_filter_mode();
    assert!(app.filter_mode);
    assert_eq!(app.filter_input, "protocol:icmp,udp length:10-100");
    app.filter_input = "length:>100".to_string();
    app.apply_filter_input();
    assert!(!app.filter_mode);
    assert!(app.filter_input.is_empty());
    assert_eq!(shown_numbers(&app), vec![3]);
    app.enter_filter_mode();
    app.filter_input = "bogus:1".to_string();
    app.apply_filter_input();
    assert!(app.filter_mode);
    assert!(app.filter_error.is_some());
    assert_eq!(app.filter_input, "bogus:1");
    app.exit_filter_mode();
    assert!(!app.filter_mode);
    assert!(app.filter_error.is_none());
    assert_eq!(shown_numbers(&app), vec![3]);
    app.clear_filter();
    assert_eq!(shown_numbers(&app), vec![1, 2, 3]);
}

#[test]
fn filter_text_parses_back() {
    for text in ["protocol:tcp,udp source:1.2.3.4 dest:5.6.7.8 length:>3 GET", "length:7", "length:<9 a b"] {
        let f = PacketFilter::parse(text).unwrap();
        assert_eq!(f.to_text(), text);
        let again = PacketFilter::parse(&f.to_text()).unwrap();
        assert_eq!(again.to_text(), text);
    }
}

#[test]
fn selection_moves_and_saturates() {
    let mut app = sample_app();
    app.details_scroll = 4;
    app.select_next();
    assert_eq!(app.selected, 1);
    assert_eq!(app.details_scroll, 0);
    app.select_next();
    app.select_next();
    assert_eq!(app.selected, 2);
    app.select_previous();
    assert_eq!(app.selected, 1);
    app.move_selection(-10);
    assert_eq!(app.selected, 0);
    app.move_selection(isize::MAX);
    assert_eq!(app.selected, 0);
    app.set_selected(2);
    assert_eq!(app.selected_packet().unwrap().number, 3);
    app.set_selected(7);
    assert_eq!(app.selected, 2);
    app.scroll_details_up();
    assert_eq!(app.details_scroll, 0);
    app.scroll_details_down();
    app.scroll_hex_down();
    app.scroll_hex_down();
    app.scroll_hex_up();
    assert_eq!((app.details_scroll, app.hex_scroll), (1, 1));
    app.quit();
    assert!(app.should_quit);
}

#[test]
fn key_events_drive_the_state() {
    let mut app = sample_app();
    assert!(handle_key_event(&mut app, KeyEvent::PktEnd, 10));
    assert_eq!(app.selected, 2);
    handle_key_event(&mut app, KeyEvent::PktHome, 10);
    assert_eq!(app.selected, 0);
    handle_key_event(&mut app, KeyEvent::PktPageDown, 2);
    assert_eq!(app.selected, 2);
    handle_key_event(&mut app, KeyEvent::PktPageDown, 2);
    assert_eq!(app.selected, 2);
    handle_key_event(&mut app, KeyEvent::PktPageUp, 5);
    assert_eq!(app.selected, 0);
    handle_key_event(&mut app, KeyEvent::PktDown, 1);
    handle_key_event(&mut app, KeyEvent::PktUp, 1);
    assert_eq!(app.selected, 0);
    handle_key_event(&mut app, KeyEvent::DtlDown, 1);
    handle_key_event(&mut app, KeyEvent::HexDown, 1);
    handle_key_event(&mut app, KeyEvent::HexUp, 1);
    handle_key_event(&mut app, KeyEvent::DtlUp, 1);
    assert_eq!((app.details_scroll, app.hex_scroll), (0, 0));
    handle_key_event(&mut app, KeyEvent::ApplyFilter, 1);
    assert!(app.filter_mode);
    assert!(!handle_filter_key(&mut app, None, KeyCode::Other, 0));
    assert!(!handle_filter_key(&mut app, Some(KeyEvent::Quit), KeyCode::Other, 0));
    app.filter_input = "proto:icmp".to_string();
    assert!(handle_filter_key(&mut app, Some(KeyEvent::ClearFilter), KeyCode::Other, 0));
    assert!(app.filter_mode);
    assert!(app.filter_input.is_empty());
    assert!(handle_filter_key(&mut app, Some(KeyEvent::ClearFilter), KeyCode::Other, 0));
    assert!(!app.filter_mode);
    handle_key_event(&mut app, KeyEvent::ApplyFilter, 1);
    app.filter_input = "proto:icmp".to_string();
    assert!(handle_filter_key(&mut app, Some(KeyEvent::ApplyFilter), KeyCode::Other, 0));
    assert!(!app.filter_mode);
    assert_eq!(shown_numbers(&app), vec![2]);
    handle_key_event(&mut app, KeyEvent::ClearFilter, 1);
    assert!(!app.filter_mode);
    assert!(app.filter.is_none());
    assert_eq!(shown_numbers(&app), vec![1, 2, 3]);
    handle_key_event(&mut app, KeyEvent::Quit, 1);
    assert!(app.should_quit);
}

#[test]
fn search_terms_ignore_case_in_summary_and_bytes() {
    let a = info(1, &frame(1, 1, 8, 0));
    let f = PacketFilter::parse("ECHO").unwrap();
    assert_eq!(*f.search_terms(), vec!["ECHO"]);
    assert_eq!(f.matches(&a), a.info.to_lowercase().contains("echo"));
    let mut raw = frame(2, 99, 0, 0);
    raw.extend_from_slice(b"GeT /");
    let b = info(2, &raw);
    assert!(PacketFilter::parse("get").unwrap().matches(&b));
    assert!(!PacketFilter::parse("post").unwrap().matches(&b));
    assert!(PacketFilter::parse("PROTOCOL:UNKNOWN").is_ok());
    assert_eq!(*PacketFilter::parse("Proto:TCP").unwrap().protocols(), vec!["tcp"]);
}

#[test]
fn length_bounds_from_comparisons_are_strict() {
    let p1000 = info(1, &frame(1, 99, 966, 0));
    let p1001 = info(2, &frame(1, 99, 967, 0));
    let p500 = info(3, &frame(1, 99, 466, 0));
    let p499 = info(4, &frame(1, 99, 465, 0));
    assert_eq!(p1000.length, 1000);
    assert_eq!(p500.length, 500);
    let above = PacketFilter::parse("length:>1000").unwrap();
    assert!(!above.matches(&p1000));
    assert!(above.matches(&p1001));
    let below = PacketFilter::parse("length:<500").unwrap();
    assert!(!below.matches(&p500));
    assert!(below.matches(&p499));
    let exact = PacketFilter::parse("length:500").unwrap();
    assert!(exact.matches(&p500) && !exact.matches(&p499));
    let range = PacketFilter::parse("length:500-1000").unwrap();
    assert!(range.matches(&p500) && range.matches(&p1000) && !range.matches(&p1001));
}

#[test]
fn captured_frames_are_numbered_in_order() {
    let mut app = App::new();
    app.set_filter("length:>100");
    let short = frame(1, 99, 10, 0);
    let long = frame(2, 99, 200, 0);
    let mut n = 1;
    n = app.add_frame(&HEADER, &short, n);
    assert_eq!(n, 2);
    n = app.add_frame(&HEADER, &[0u8; 5], n);
    assert_eq!(n, 2);
    n = app.add_frame(&HEADER, &long, n);
    assert_eq!(n, 3);
    let numbers: Vec<usize> = app.all_packets.iter().map(|p| p.number).collect();
    assert_eq!(numbers, vec![1, 2]);
    assert_eq!(shown_numbers(&app), vec![2]);
    assert_eq!(app.all_packets[1].length, long.len());
    let bad_time = PacketHeader { ts: TimeVal { tv_sec: i64::MAX, tv_usec: 0 }, caplen: 60, len: 60 };
    assert_eq!(app.add_frame(&bad_time, &long, n), n);
    assert_eq!(app.all_packets.len(), 2);
}

#[test]
fn keys_edit_the_filter_input() {
    let mut app = sample_app();
    app.set_filter("proto:icmp");
    handle_key_event(&mut app, KeyEvent::ApplyFilter, 1);
    assert_eq!(app.filter_input, "protocol:icmp");
    assert_eq!(app.filter_cursor, 13);
    // 'q' is typed, not taken as quit
    assert!(!handle_filter_key(&mut app, Some(KeyEvent::Quit), KeyCode::Char('q'), 0));
    assert!(!app.should_quit);
    assert_eq!(app.filter_input, "protocol:icmpq");
    assert_eq!(app.filter_cursor, 14);
    assert!(!handle_filter_key(&mut app, None, KeyCode::Backspace, 0));
    assert_eq!(app.filter_input, "protocol:icmp");
    assert!(app.edit_filter_input(KeyCode::Home, 0));
    assert_eq!(app.filter_cursor, 0);
    assert!(app.edit_filter_input(KeyCode::Char('X'), SHIFT));
    assert_eq!(app.filter_input, "Xprotocol:icmp");
    assert_eq!(app.filter_cursor, 1);
    assert!(app.edit_filter_input(KeyCode::Delete, 0));
    assert_eq!(app.filter_input, "Xrotocol:icmp");
    assert!(app.edit_filter_input(KeyCode::Right, 0));
    assert_eq!(app.filter_cursor, 2);
    assert!(app.edit_filter_input(KeyCode::Char('k'), CONTROL));
    assert_eq!(app.filter_input, "Xr");
    assert!(app.edit_filter_input(KeyCode::End, 0));
    assert_eq!(app.filter_cursor, 2);
    assert!(!app.edit_filter_input(KeyCode::Other, 0));
    assert!(!app.edit_filter_input(KeyCode::Char('a'), CONTROL));
    assert_eq!(app.filter_input, "Xr");
    // the filter and the shown packets are untouched while editing
    assert_eq!(shown_numbers(&app), vec![2]);
    assert!(handle_filter_key(&mut app, Some(KeyEvent::ClearFilter), KeyCode::Other, 0));
    assert_eq!((app.filter_input.as_str(), app.filter_cursor), ("", 0));
}
