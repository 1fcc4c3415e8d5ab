//! Where each decoded field sits in the bytes of its header, as the protocols lay them out.
use vstd::prelude::*;
use crate::bytes::{bit_set, lemma_be16_value, lemma_be32_value, lemma_byte_bits};
use crate::ethernet::{EthernetPacket, EthernetPacketInner, Timestamp};
use crate::ethernet::arp::{ArpOperation, ArpPacket, HardwareType, ProtocolType};
use crate::ethernet::ipv4::Ipv4Packet;
use crate::ethernet::ipv4::icmp::{IcmpPacket, IcmpType};
use crate::ethernet::ipv4::igmp::{IgmpPacket, IgmpType};
use crate::ethernet::ipv4::tcp::TcpPacket;
use crate::ethernet::ipv4::udp::{UdpPacket, UdpPacketInner};
use crate::ethernet::ipv4::udp::dns::{DnsOperationCode, DnsPacket, DnsResponseCode};
use crate::ethernet::ipv6::Ipv6Packet;
use crate::ethernet::PacketDetail;
use crate::text::decimal;

verus! {

/// The big-endian value of the two bytes at `raw[i..i + 2]`.
pub open spec fn word_at(raw: Seq<u8>, i: int) -> int {
    raw[i] as int * 256 + raw[i + 1] as int
}

/// The big-endian value of the four bytes at `raw[i..i + 4]`.
pub open spec fn long_at(raw: Seq<u8>, i: int) -> int {
    raw[i] as int * 16777216 + raw[i + 1] as int * 65536 + raw[i + 2] as int * 256 + raw[i + 3] as int
}

/// `x` is the big-endian value of the two bytes at `raw[i..i + 2]`.
pub open spec fn holds_word(x: u16, raw: Seq<u8>, i: int) -> bool {
    x as int == word_at(raw, i)
}

/// `x` is the big-endian value of the four bytes at `raw[i..i + 4]`.
pub open spec fn holds_long(x: u32, raw: Seq<u8>, i: int) -> bool {
    x as int == long_at(raw, i)
}

/// A decoded TCP segment holds the fields of the TCP header (RFC 793) of its bytes: source
/// port in bytes 0–1, destination port 2–3, sequence number 4–7, acknowledgment number
/// 8–11, data offset in the high half of byte 12, the flags in byte 13 (FIN its lowest bit,
/// then SYN, RST, PSH, ACK, URG, ECE, CWR), window 14–15, checksum 16–17 and urgent pointer
/// 18–19, all big-endian.
pub proof fn law_tcp_header_layout(p: TcpPacket, raw: Seq<u8>)
    requires
        p.decoded_from(raw),
    ensures
        p.src_port as int == word_at(raw, 0),
        p.dest_port as int == word_at(raw, 2),
        p.sequence_number as int == long_at(raw, 4),
        p.acknowledgment_number as int == long_at(raw, 8),
        p.data_offset as int == raw[12] as int / 16,
        p.flags.fin == bit_set(raw[13], 0),
        p.flags.syn == bit_set(raw[13], 1),
        p.flags.rst == bit_set(raw[13], 2),
        p.flags.psh == bit_set(raw[13], 3),
        p.flags.ack == bit_set(raw[13], 4),
        p.flags.urg == bit_set(raw[13], 5),
        p.flags.ece == bit_set(raw[13], 6),
        p.flags.cwr == bit_set(raw[13], 7),
        p.window_size as int == word_at(raw, 14),
        p.checksum as int == word_at(raw, 16),
        p.urgent_pointer as int == word_at(raw, 18),
{
    lemma_be16_value(raw, 0);
    lemma_be16_value(raw, 2);
    lemma_be32_value(raw, 4);
    lemma_be32_value(raw, 8);
    lemma_be16_value(raw, 14);
    lemma_be16_value(raw, 16);
    lemma_be16_value(raw, 18);
    lemma_byte_bits(raw[13]);
}

/// A decoded UDP datagram holds the fields of the UDP header (RFC 768) of its bytes: source
/// port in bytes 0–1, destination port 2–3, length 4–5 and checksum 6–7, big-endian, with the
/// payload after them; the payload is read as DNS exactly when either port is 53 (DNS) or
/// 5353 (multicast DNS).
pub proof fn law_udp_header_layout(p: UdpPacket, raw: Seq<u8>)
    requires
        p.decoded_from(raw),
    ensures
        p.src_port as int == word_at(raw, 0),
        p.dest_port as int == word_at(raw, 2),
        p.length as int == word_at(raw, 4),
        p.checksum as int == word_at(raw, 6),
        p.data@ == raw.skip(8),
        (p.inner is Dns) == (word_at(raw, 0) == 53 || word_at(raw, 0) == 5353 || word_at(raw, 2) == 53
            || word_at(raw, 2) == 5353),
        p.inner matches UdpPacketInner::Dns(d) ==> d.decoded_from(raw.skip(8)),
{
    lemma_be16_value(raw, 0);
    lemma_be16_value(raw, 2);
    lemma_be16_value(raw, 4);
    lemma_be16_value(raw, 6);
}

/// A decoded DNS message holds the fields of the DNS header (RFC 1035, 4.1.1) of its bytes:
/// ID in bytes 0–1; in byte 2 QR (highest bit), OPCODE (the next four), AA, TC and RD (lowest
/// bit); in byte 3 RA (highest bit), AD, CD and RCODE (the low four bits); then QDCOUNT,
/// ANCOUNT, NSCOUNT and ARCOUNT in bytes 4–5, 6–7, 8–9 and 10–11, big-endian.
pub proof fn law_dns_header_layout(p: DnsPacket, raw: Seq<u8>)
    requires
        p.decoded_from(raw),
    ensures
        p.transaction_id as int == word_at(raw, 0),
        p.flags.is_response == bit_set(raw[2], 7),
        p.flags.opcode == DnsOperationCode::spec_from(((raw[2] as int / 8) % 16) as u8),
        p.flags.authoritative == bit_set(raw[2], 2),
        p.flags.truncated == bit_set(raw[2], 1),
        p.flags.recursion_desired == bit_set(raw[2], 0),
        p.flags.recursion_available == bit_set(raw[3], 7),
        p.flags.authentic_data == bit_set(raw[3], 5),
        p.flags.checking_disabled == bit_set(raw[3], 4),
        p.flags.response_code == DnsResponseCode::spec_from((raw[3] as int % 16) as u8),
        p.question_count as int == word_at(raw, 4),
        p.answer_count as int == word_at(raw, 6),
        p.authority_count as int == word_at(raw, 8),
        p.additional_count as int == word_at(raw, 10),
        p.data@ == raw.skip(12),
{
    lemma_be16_value(raw, 0);
    lemma_be16_value(raw, 4);
    lemma_be16_value(raw, 6);
    lemma_be16_value(raw, 8);
    lemma_be16_value(raw, 10);
    lemma_byte_bits(raw[2]);
    lemma_byte_bits(raw[3]);
}

/// A decoded ICMP message holds the fields of the ICMP header (RFC 792) of its bytes: type in
/// byte 0, code in byte 1, checksum in bytes 2–3 and the rest of the header in bytes 4–7.
pub proof fn law_icmp_header_layout(p: IcmpPacket, raw: Seq<u8>)
    requires
        p.decoded_from(raw),
    ensures
        p.icmp_type == IcmpType::spec_from(raw[0]),
        p.code == raw[1],
        holds_word(p.checksum, raw, 2),
        holds_long(p.rest_of_header, raw, 4),
        p.data@ == raw.skip(8),
{
    lemma_be16_value(raw, 2);
    lemma_be32_value(raw, 4);
}

/// A decoded IGMP message holds the fields of the IGMPv2 header (RFC 2236) of its bytes:
/// type in byte 0, maximum response time in byte 1, checksum in bytes 2–3 and the group
/// address in bytes 4–7.
pub proof fn law_igmp_header_layout(p: IgmpPacket, raw: Seq<u8>)
    requires
        p.decoded_from(raw),
    ensures
        p.igmp_type == IgmpType::spec_from(raw[0]),
        p.max_response_time == raw[1],
        p.checksum as int == word_at(raw, 2),
        p.group_address.0@ == raw.subrange(4, 8),
{
    lemma_be16_value(raw, 2);
}

/// A decoded IPv4 packet holds the fields of the IPv4 header (RFC 791) of its bytes: version
/// and header length (in 32-bit words) in the two halves of byte 0, DSCP and ECN in byte 1,
/// total length in bytes 2–3, identification 4–5, the flags in the top three bits of byte 6
/// (reserved, don't fragment, more fragments) and the fragment offset in the remaining 13
/// bits of bytes 6–7, TTL in byte 8, the protocol number of the inner packet in byte 9, the
/// header checksum in bytes 10–11, the source address in bytes 12–15 and the destination
/// address in bytes 16–19; the payload starts after the header.
pub proof fn law_ipv4_header_layout(p: Ipv4Packet, raw: Seq<u8>)
    requires
        p.decoded_from(raw),
    ensures
        p.version as int == raw[0] as int / 16,
        p.header_length as int == raw[0] as int % 16,
        p.dsf.dscp as int == raw[1] as int / 4,
        p.dsf.ecn as int == raw[1] as int % 4,
        p.total_length as int == word_at(raw, 2),
        p.identification as int == word_at(raw, 4),
        p.flags.reserved == bit_set(raw[6], 7),
        p.flags.dont_fragment == bit_set(raw[6], 6),
        p.flags.more_fragments == bit_set(raw[6], 5),
        p.fragment_offset as int == (raw[6] as int % 32) * 256 + raw[7] as int,
        p.ttl == raw[8],
        p.inner.spec_protocol_number() == raw[9],
        p.header_checksum as int == word_at(raw, 10),
        p.source.0@ == raw.subrange(12, 16),
        p.destination.0@ == raw.subrange(16, 20),
        p.data@ == raw.skip((raw[0] as int % 16) * 4),
{
    lemma_be16_value(raw, 2);
    lemma_be16_value(raw, 4);
    lemma_be16_value(raw, 6);
    lemma_be16_value(raw, 10);
    let b6 = raw[6] as int;
    let b7 = raw[7] as int;
    let fo = b6 * 256 + b7;
    let bits = (fo / 8192) as u8;
    assert(fo / 8192 == b6 / 32 && fo % 8192 == (b6 % 32) * 256 + b7) by (nonlinear_arith)
        requires
            fo == b6 * 256 + b7,
            0 <= b6 < 256,
            0 <= b7 < 256,
    ;
    lemma_byte_bits(bits);
    lemma_byte_bits(raw[6]);
    reveal_with_fuel(crate::bytes::pow2_int, 8);
    assert((b6 / 32) / 4 == b6 / 128 && (b6 / 32) / 2 == b6 / 64) by (nonlinear_arith)
        requires
            0 <= b6 < 256,
    ;
}

/// A decoded IPv6 packet holds the fields of the IPv6 header (RFC 8200) of its bytes:
/// version in the high half of byte 0, the traffic class across bytes 0–1, the flow label in
/// the low 20 bits of bytes 1–3, payload length in bytes 4–5, next header in byte 6, hop
/// limit in byte 7, the source address in bytes 8–23 and the destination address in bytes
/// 24–39; the payload follows.
pub proof fn law_ipv6_header_layout(p: Ipv6Packet, raw: Seq<u8>)
    requires
        p.decoded_from(raw),
    ensures
        p.version as int == raw[0] as int / 16,
        p.traffic_class as int == (raw[0] as int % 16) * 16 + raw[1] as int / 16,
        p.flow_label as int == (raw[1] as int % 16) * 65536 + raw[2] as int * 256 + raw[3] as int,
        p.payload_length as int == word_at(raw, 4),
        p.next_header == raw[6],
        p.hop_limit == raw[7],
        p.source.0@ == raw.subrange(8, 24),
        p.destination.0@ == raw.subrange(24, 40),
        p.data@ == raw.skip(40),
{
    lemma_be16_value(raw, 4);
}

/// A decoded ARP packet holds the fields of the ARP layout (RFC 826) of its bytes: hardware
/// type in bytes 0–1, protocol type 2–3, the two address lengths in bytes 4 and 5, the
/// operation in bytes 6–7, then the sender's MAC (8–13) and IPv4 address (14–17) and the
/// target's MAC (18–23) and IPv4 address (24–27).
pub proof fn law_arp_layout(p: ArpPacket, raw: Seq<u8>)
    requires
        p.decoded_from(raw),
    ensures
        p.hardware_type == HardwareType::spec_from(word_at(raw, 0) as u16),
        p.protocol_type == ProtocolType::spec_from(word_at(raw, 2) as u16),
        p.hardware_length == raw[4],
        p.protocol_length == raw[5],
        p.operation == ArpOperation::spec_from(word_at(raw, 6) as u16),
        p.sender_mac.0@ == raw.subrange(8, 14),
        p.sender_ip.0@ == raw.subrange(14, 18),
        p.target_mac.0@ == raw.subrange(18, 24),
        p.target_ip.0@ == raw.subrange(24, 28),
{
    lemma_be16_value(raw, 0);
    lemma_be16_value(raw, 2);
    lemma_be16_value(raw, 6);
}

/// A decoded Ethernet frame holds the fields of the Ethernet II header of its bytes: the
/// destination MAC in bytes 0–5, the source MAC in bytes 6–11 and the EtherType in bytes
/// 12–13; the payload after byte 14 is read as IPv4 exactly for EtherType 0x0800, as ARP for
/// 0x0806 and as IPv6 for 0x86DD, and is kept with its EtherType otherwise.
pub proof fn law_ethernet_layout(p: EthernetPacket, timestamp: Timestamp, raw: Seq<u8>)
    requires
        p.decoded_from(timestamp, raw),
    ensures
        p.destination.0@ == raw.subrange(0, 6),
        p.source.0@ == raw.subrange(6, 12),
        p.data@ == raw.skip(14),
        (p.inner is Ipv4) == (word_at(raw, 12) == 0x0800),
        (p.inner is Arp) == (word_at(raw, 12) == 0x0806),
        (p.inner is Ipv6) == (word_at(raw, 12) == 0x86DD),
        p.inner matches EthernetPacketInner::Ipv4(q) ==> q.decoded_from(raw.skip(14)),
        p.inner matches EthernetPacketInner::Arp(q) ==> q.decoded_from(raw.skip(14)),
        p.inner matches EthernetPacketInner::Ipv6(q) ==> q.decoded_from(raw.skip(14)),
        p.inner matches EthernetPacketInner::Unknown(u) ==> u.ethertype as int == word_at(raw, 12),
{
    lemma_be16_value(raw, 12);
}

/// The summary of a decoded DNS message gives its flags, then the four counts of its header
/// in header order: questions (bytes 4–5), answers (6–7), authority records (8–9) and
/// additional records (10–11).
pub proof fn law_dns_summary_counts(p: DnsPacket, raw: Seq<u8>)
    requires
        p.decoded_from(raw),
    ensures
        p.spec_summary() == p.flags.spec_text() + " Q:"@ + decimal(word_at(raw, 4) as nat) + " A:"@
            + decimal(word_at(raw, 6) as nat) + " NS:"@ + decimal(word_at(raw, 8) as nat) + " AR:"@
            + decimal(word_at(raw, 10) as nat),
{
    law_dns_header_layout(p, raw);
}

/// ICMP message types follow the IANA registry: 0 is an echo reply, 3 destination
/// unreachable, 8 an echo request, 11 time exceeded, 12 a parameter problem; every other
/// number is kept as an unknown type; and every type gives back its number.
pub proof fn law_control_message_types(v: u8)
    ensures
        IcmpType::spec_from(0) == IcmpType::EchoReply,
        IcmpType::spec_from(3) == IcmpType::DestinationUnreachable,
        IcmpType::spec_from(8) == IcmpType::EchoRequest,
        IcmpType::spec_from(11) == IcmpType::TimeExceeded,
        IcmpType::spec_from(12) == IcmpType::ParameterProblem,
        v != 0 && v != 3 && v != 8 && v != 11 && v != 12 ==> IcmpType::spec_from(v) == IcmpType::Unknown(v),
        IcmpType::spec_from(v).spec_number() == v,
{
}

/// IGMP message types follow RFC 2236: 0x11 is a membership query, 0x12 a version 1 report,
/// 0x16 a version 2 report, 0x17 a leave; every other number is kept as an unknown type; and
/// every type gives back its number.
pub proof fn law_group_message_types(v: u8)
    ensures
        IgmpType::spec_from(0x11) == IgmpType::MembershipQuery,
        IgmpType::spec_from(0x12) == IgmpType::MembershipReportV1,
        IgmpType::spec_from(0x16) == IgmpType::MembershipReportV2,
        IgmpType::spec_from(0x17) == IgmpType::LeaveGroup,
        v != 0x11 && v != 0x12 && v != 0x16 && v != 0x17 ==> IgmpType::spec_from(v) == IgmpType::Unknown(v),
        IgmpType::spec_from(v).spec_number() == v,
{
}

/// ARP numbers follow RFC 826 and the IANA registries: operation 1 is a request and 2 a
/// reply, hardware type 1 is Ethernet, protocol type 0x0800 is IPv4; other numbers are kept as
/// unknown; and each gives back its number.
pub proof fn law_arp_numbers(v: u16)
    ensures
        ArpOperation::spec_from(1) == ArpOperation::Request,
        ArpOperation::spec_from(2) == ArpOperation::Reply,
        v != 1 && v != 2 ==> ArpOperation::spec_from(v) == ArpOperation::Unknown(v),
        HardwareType::spec_from(1) == HardwareType::Ethernet,
        ProtocolType::spec_from(0x0800) == ProtocolType::IPv4,
        v != 0x0800 ==> ProtocolType::spec_from(v) == ProtocolType::Unknown(v),
        ArpOperation::spec_from(v).spec_number() == v,
        HardwareType::spec_from(v).spec_number() == v,
        ProtocolType::spec_from(v).spec_number() == v,
{
}

} // verus!
