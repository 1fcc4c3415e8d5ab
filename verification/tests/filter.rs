use termshark::app::filter::PacketFilter;

#[test]
fn test_parse_protocol() {
    let filter = PacketFilter::parse("protocol:tcp").unwrap();
    assert_eq!(*filter.protocols(), vec!["tcp"]);
}

#[test]
fn test_parse_multiple_protocols() {
    let filter = PacketFilter::parse("protocol:tcp,udp,icmp").unwrap();
    assert_eq!(*filter.protocols(), vec!["tcp", "udp", "icmp"]);
}

#[test]
fn test_parse_source() {
    let filter = PacketFilter::parse("source:192.168.1.1").unwrap();
    assert_eq!(*filter.sources(), vec!["192.168.1.1"]);
}

#[test]
fn test_parse_length_greater() {
    let filter = PacketFilter::parse("length:>100").unwrap();
    assert_eq!(filter.min_length(), Some(100));
    assert_eq!(filter.max_length(), None);
}

#[test]
fn test_parse_length_less() {
    let filter = PacketFilter::parse("length:<500").unwrap();
    assert_eq!(filter.min_length(), None);
    assert_eq!(filter.max_length(), Some(500));
}

#[test]
fn test_parse_length_range() {
    let filter = PacketFilter::parse("length:100-1500").unwrap();
    assert_eq!(filter.min_length(), Some(100));
    assert_eq!(filter.max_length(), Some(1500));
}

#[test]
fn test_parse_combined() {
    let filter = PacketFilter::parse("protocol:tcp source:192.168.1.1 length:>100").unwrap();
    assert_eq!(*filter.protocols(), vec!["tcp"]);
    assert_eq!(*filter.sources(), vec!["192.168.1.1"]);
    assert_eq!(filter.min_length(), Some(100));
}
