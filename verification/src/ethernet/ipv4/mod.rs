//! IPv4 packet parsing.
use vstd::prelude::*;
use crate::bytes::{be16_at, read_be16, split_range, top3_bits, words_to_bytes};
use crate::ethernet::addr::{ipv4_text, Ipv4Addr};
use crate::ethernet::packet_detail::{push_dec_line, push_hex_line, push_line, push_text_between, PacketDetail};
use crate::bytes::len_u64;
use crate::text::{
    dec16, dec8, decimal, hex16, hex8, push_dec, push_hex, push_str, push_string, string_of,
    strings_view,
};

pub mod icmp;
pub mod igmp;
pub mod tcp;
pub mod udp;

use icmp::{IcmpPacket, ParseIcmpError};
use igmp::{IgmpPacket, ParseIgmpError};
use tcp::{ParseTcpError, TcpPacket};
use udp::{ParseUdpError, UdpPacket};

verus! {

/// Trait requiring associated const PROTOCOL for packet types.
pub trait Protocol {
    /// The Protocol value associated with the packet type.
    const PROTOCOL: u8;
}

/// An IPv4 packet.
#[derive(Debug, Clone, PartialEq, Eq)]
pub struct Ipv4Packet<'a> {
    /// Version of IP. 4 bits. Should always be 4 for IPv4.
    pub version: u8,
    /// Internet Header length. 4 bits.
    pub header_length: u8,
    /// Differentiated Services Field.
    pub dsf: Ipv4PacketDsf,
    /// Total Length.
    pub total_length: u16,
    /// Identification.
    pub identification: u16,
    /// Flags. 3 bits.
    pub flags: Ipv4PacketFlags,
    /// Fragment Offset. 13 bits.
    pub fragment_offset: u16,
    /// Time to Live.
    pub ttl: u8,
    /// The inner packet. Type is determined by the protocol field (8 bits).
    pub inner: Ipv4PacketInner<'a>,
    /// Header Checksum.
    pub header_checksum: u16,
    /// Source IP address.
    pub source: Ipv4Addr,
    /// Destination IP address.
    pub destination: Ipv4Addr,
    /// Options.
    pub options: &'a [u8],
    /// The raw data field of the packet.
    pub data: &'a [u8],
    /// The raw IPv4 packet.
    pub raw: &'a [u8],
}

/// A IPv4 packet of unknown or unsupported protocol.
#[derive(Debug, Clone, PartialEq, Eq)]
pub struct UnknownIpv4Packet<'a> {
    /// The raw protocol of the IPv4 packet.
    pub protocol: u8,
    /// The raw data field of the IPv4 packet.
    pub data: &'a [u8],
}

/// Differentiated Services Field (DSF) in an IPv4 packet.
#[derive(Debug, Clone, Copy, PartialEq, Eq)]
pub struct Ipv4PacketDsf {
    /// Differentiated Services Code Point (DSCP). 6 bits.
    pub dscp: u8,
    /// Explicit Congestion Notification (ECN). 2 bits.
    pub ecn: u8,
}

/// Flags in an IPv4 packet.
#[derive(Debug, Clone, Copy, PartialEq, Eq)]
pub struct Ipv4PacketFlags {
    /// Reserved; must be zero.
    pub reserved: bool,
    /// Don't Fragment.
    pub dont_fragment: bool,
    /// More Fragments.
    pub more_fragments: bool,
}

/// Available inner packet types for IPv4 packets.
#[derive(Debug, Clone, PartialEq, Eq)]
pub enum Ipv4PacketInner<'a> {
    /// Internet Control Message Protocol (0x01)
    Icmp(IcmpPacket<'a>),
    /// Internet Group Management Protocol (0x02)
    Igmp(IgmpPacket<'a>),
    /// Transmission Control Protocol (0x06)
    Tcp(TcpPacket<'a>),
    /// User Datagram Protocol (0x11)
    Udp(UdpPacket<'a>),
    /// Unknown or unsupported protocol
    Unknown(UnknownIpv4Packet<'a>),
}

/// Possible errors when parsing an IPv4 packet.
#[derive(Debug, Clone, Copy, PartialEq, Eq)]
pub enum ParseIpv4Error {
    /// The packet is too short to be a valid IPv4 packet, or shorter than the indicated header length.
    PacketTooShort,
    /// The header length is less than the minimum of 5 (20 bytes).
    HeaderLengthTooShort,
    /// The version is not 4.
    InvalidVersion,
    /// Error parsing inner ICMP packet.
    ParseIcmpError(ParseIcmpError),
    /// Error parsing inner IGMP packet.
    ParseIgmpError(ParseIgmpError),
    /// Error parsing inner TCP packet.
    ParseTcpError(ParseTcpError),
    /// Error parsing inner UDP packet.
    ParseUdpError(ParseUdpError),
}

impl Ipv4PacketInner<'_> {
    /// The protocol number of the inner packet.
    pub open spec fn spec_protocol_number(&self) -> u8 {
        match self {
            Ipv4PacketInner::Icmp(_) => 0x01,
            Ipv4PacketInner::Igmp(_) => 0x02,
            Ipv4PacketInner::Tcp(_) => 0x06,
            Ipv4PacketInner::Udp(_) => 0x11,
            Ipv4PacketInner::Unknown(u) => u.protocol,
        }
    }

    /// The protocol slug of the inner packet.
    pub open spec fn spec_slug(&self) -> Seq<char> {
        match self {
            Ipv4PacketInner::Icmp(_) => "ICMP"@,
            Ipv4PacketInner::Igmp(_) => "IGMP"@,
            Ipv4PacketInner::Tcp(_) => "TCP"@,
            Ipv4PacketInner::Udp(_) => "UDP"@,
            Ipv4PacketInner::Unknown(_) => "Unknown"@,
        }
    }

    /// Get the protocol number.
    pub fn protocol_number(&self) -> (n: u8)
        ensures
            n == self.spec_protocol_number(),
    {
        match self {
            Self::Icmp(_) => icmp::PROTOCOL_NUMBER,
            Self::Igmp(_) => igmp::PROTOCOL_NUMBER,
            Self::Tcp(_) => tcp::PROTOCOL_NUMBER,
            Self::Udp(_) => udp::PROTOCOL_NUMBER,
            Self::Unknown(u) => u.protocol,
        }
    }

    /// Get the protocol slug.
    pub fn slug(&self) -> (s: &'static str)
        ensures
            s@ == self.spec_slug(),
    {
        match self {
            Self::Icmp(_) => "ICMP",
            Self::Igmp(_) => "IGMP",
            Self::Tcp(_) => "TCP",
            Self::Udp(_) => "UDP",
            Self::Unknown(_) => "Unknown",
        }
    }
}

impl Ipv4PacketDsf {
    /// Create a new Differentiated Services Field from a byte.
    pub fn new(byte: u8) -> (d: Self)
        ensures
            d.dscp == byte / 4,
            d.ecn == byte % 4,
    {
        Self { dscp: byte / 4, ecn: byte % 4 }
    }
}

impl Ipv4PacketFlags {
    /// The flags that a 3-bit value encodes, most significant bit first.
    pub open spec fn spec_new(bits: u8) -> Ipv4PacketFlags {
        Ipv4PacketFlags {
            reserved: (bits & 0b100) != 0,
            dont_fragment: (bits & 0b010) != 0,
            more_fragments: (bits & 0b001) != 0,
        }
    }

    /// Create new IPv4 packet flags from a 3-bit value.
    pub fn new(bits: u8) -> (f: Self)
        ensures
            f == Self::spec_new(bits),
    {
        Self {
            reserved: (bits & 0b100) != 0,
            dont_fragment: (bits & 0b010) != 0,
            more_fragments: (bits & 0b001) != 0,
        }
    }
}

impl<'a> Ipv4Packet<'a> {
    /// The header length in bytes that the IHL field of `raw` announces.
    pub open spec fn spec_header_bytes(raw: Seq<u8>) -> int {
        (raw[0] % 16) * 4
    }

    /// Why a byte sequence is not an IPv4 packet, if it is not one.
    pub open spec fn spec_error(raw: Seq<u8>) -> Option<ParseIpv4Error> {
        if raw.len() < 20 {
            Some(ParseIpv4Error::PacketTooShort)
        } else if raw[0] / 16 != 4 {
            Some(ParseIpv4Error::InvalidVersion)
        } else if raw[0] % 16 < 5 {
            Some(ParseIpv4Error::HeaderLengthTooShort)
        } else if raw.len() < Self::spec_header_bytes(raw) {
            Some(ParseIpv4Error::PacketTooShort)
        } else {
            let data = raw.skip(Self::spec_header_bytes(raw));
            if raw[9] == 0x01 {
                match IcmpPacket::spec_error(data) {
                    Some(e) => Some(ParseIpv4Error::ParseIcmpError(e)),
                    None => None,
                }
            } else if raw[9] == 0x02 {
                match IgmpPacket::spec_error(data) {
                    Some(e) => Some(ParseIpv4Error::ParseIgmpError(e)),
                    None => None,
                }
            } else if raw[9] == 0x06 {
                match TcpPacket::spec_error(data) {
                    Some(e) => Some(ParseIpv4Error::ParseTcpError(e)),
                    None => None,
                }
            } else if raw[9] == 0x11 {
                match UdpPacket::spec_error(data) {
                    Some(e) => Some(ParseIpv4Error::ParseUdpError(e)),
                    None => None,
                }
            } else {
                None
            }
        }
    }

    /// The inner packet holds exactly what the payload encodes under `protocol`.
    pub open spec fn inner_decoded_from(inner: Ipv4PacketInner<'a>, protocol: u8, data: Seq<u8>) -> bool {
        if protocol == 0x01 {
            inner matches Ipv4PacketInner::Icmp(p) && p.decoded_from(data)
        } else if protocol == 0x02 {
            inner matches Ipv4PacketInner::Igmp(p) && p.decoded_from(data)
        } else if protocol == 0x06 {
            inner matches Ipv4PacketInner::Tcp(p) && p.decoded_from(data)
        } else if protocol == 0x11 {
            inner matches Ipv4PacketInner::Udp(p) && p.decoded_from(data)
        } else {
            inner matches Ipv4PacketInner::Unknown(u) && u.protocol == protocol && u.data@ == data
        }
    }

    /// The packet holds exactly the fields that `raw` encodes.
    pub open spec fn decoded_from(self, raw: Seq<u8>) -> bool {
        let hlen = Self::spec_header_bytes(raw);
        let fo = be16_at(raw, 6);
        &&& raw.len() >= 20
        &&& self.version == raw[0] / 16
        &&& self.header_length == raw[0] % 16
        &&& self.dsf.dscp == raw[1] / 4
        &&& self.dsf.ecn == raw[1] % 4
        &&& self.total_length == be16_at(raw, 2)
        &&& self.identification == be16_at(raw, 4)
        &&& self.flags == Ipv4PacketFlags::spec_new((fo / 8192) as u8)
        &&& self.fragment_offset == fo % 8192
        &&& self.ttl == raw[8]
        &&& Self::inner_decoded_from(self.inner, raw[9], raw.skip(hlen))
        &&& self.header_checksum == be16_at(raw, 10)
        &&& self.source.0@ == raw.subrange(12, 16)
        &&& self.destination.0@ == raw.subrange(16, 20)
        &&& self.options@ == raw.subrange(20, hlen)
        &&& self.data@ == raw.skip(hlen)
        &&& self.raw@ == raw
    }

    /// Create a new IPv4 packet from raw data.
    ///
    /// # Errors
    ///
    /// See [`ParseIpv4Error`].
    pub fn new(raw: &'a [u8]) -> (res: Result<Self, ParseIpv4Error>)
        ensures
            res is Ok <==> Self::spec_error(raw@) is None,
            res matches Err(e) ==> Self::spec_error(raw@) == Some(e),
            res matches Ok(p) ==> p.decoded_from(raw@),
    {
        if raw.len() < 20 {
            return Err(ParseIpv4Error::PacketTooShort);
        }
                let version_and_ihl = raw[0];
        let version = version_and_ihl / 16;
        if version != 4 {
            return Err(ParseIpv4Error::InvalidVersion);
        }
        let header_length = version_and_ihl % 16;
        if header_length < 5 {
            return Err(ParseIpv4Error::HeaderLengthTooShort);
        }
        let header_length_bytes = words_to_bytes(header_length);
        if raw.len() < header_length_bytes {
            return Err(ParseIpv4Error::PacketTooShort);
        }
        let dsf = Ipv4PacketDsf::new(raw[1]);
        let total_length = read_be16(raw, 2);
        let identification = read_be16(raw, 4);
        let flags_and_fragment_offset = read_be16(raw, 6);
        let flags = Ipv4PacketFlags::new(top3_bits(flags_and_fragment_offset));
        let fragment_offset = flags_and_fragment_offset % 8192;
        let ttl = raw[8];
        let protocol = raw[9];
        let header_checksum = read_be16(raw, 10);
        let source = Ipv4Addr::read(raw, 12);
        let destination = Ipv4Addr::read(raw, 16);
        let (options, data) = split_range(raw, 20, header_length_bytes);

        let inner = if protocol == icmp::PROTOCOL_NUMBER {
            match IcmpPacket::new(data) {
                Ok(p) => Ipv4PacketInner::Icmp(p),
                Err(e) => return Err(ParseIpv4Error::ParseIcmpError(e)),
            }
        } else if protocol == igmp::PROTOCOL_NUMBER {
            match IgmpPacket::new(data) {
                Ok(p) => Ipv4PacketInner::Igmp(p),
                Err(e) => return Err(ParseIpv4Error::ParseIgmpError(e)),
            }
        } else if protocol == tcp::PROTOCOL_NUMBER {
            match TcpPacket::new(data) {
                Ok(p) => Ipv4PacketInner::Tcp(p),
                Err(e) => return Err(ParseIpv4Error::ParseTcpError(e)),
            }
        } else if protocol == udp::PROTOCOL_NUMBER {
            match UdpPacket::new(data) {
                Ok(p) => Ipv4PacketInner::Udp(p),
                Err(e) => return Err(ParseIpv4Error::ParseUdpError(e)),
            }
        } else {
            Ipv4PacketInner::Unknown(UnknownIpv4Packet { protocol, data })
        };

        Ok(Self {
            version,
            header_length,
            dsf,
            total_length,
            identification,
            flags,
            fragment_offset,
            ttl,
            inner,
            header_checksum,
            source,
            destination,
            options,
            data,
            raw,
        })
    }
}

/// `1` for a set flag, `0` for a clear one.
pub open spec fn bit_text(b: bool) -> Seq<char> {
    if b {
        "1"@
    } else {
        "0"@
    }
}

/// Appends `1` for a set flag, `0` for a clear one.
fn push_bit(out: &mut Vec<char>, b: bool)
    ensures
        final(out)@ == old(out)@ + bit_text(b),
{
    if b {
        push_str(out, "1");
    } else {
        push_str(out, "0");
    }
}

impl<'a> UnknownIpv4Packet<'a> {
    /// The one-line text of the payload, as `Display` writes it.
    pub open spec fn spec_text(&self) -> Seq<char> {
        "Unknown Protocol (0x"@ + hex8(self.protocol, 2) + "): "@ + decimal(self.data@.len())
            + " bytes"@
    }

    /// The one-line text of the payload.
    pub fn to_text(&self) -> (s: String)
        ensures
            s@ == self.spec_text(),
    {
        let mut out: Vec<char> = Vec::new();
        push_str(&mut out, "Unknown Protocol (0x");
        push_hex(&mut out, u64::from(self.protocol), 2);
        push_str(&mut out, "): ");
        push_dec(&mut out, len_u64(self.data.len()));
        push_str(&mut out, " bytes");
        assert(out@ =~= self.spec_text());
        string_of(&out)
    }
}

impl<'a> Ipv4PacketInner<'a> {
    /// The text of the inner packet, as `Display` writes it.
    pub open spec fn spec_text(&self) -> Seq<char> {
        match self {
            Ipv4PacketInner::Icmp(p) => p.spec_text(),
            Ipv4PacketInner::Igmp(p) => p.spec_text(),
            Ipv4PacketInner::Tcp(p) => p.spec_text(),
            Ipv4PacketInner::Udp(p) => p.spec_text(),
            Ipv4PacketInner::Unknown(p) => p.spec_text(),
        }
    }

    /// The text of the inner packet.
    pub fn to_text(&self) -> (s: String)
        ensures
            s@ == self.spec_text(),
    {
        match self {
            Ipv4PacketInner::Icmp(p) => p.to_text(),
            Ipv4PacketInner::Igmp(p) => p.to_text(),
            Ipv4PacketInner::Tcp(p) => p.to_text(),
            Ipv4PacketInner::Udp(p) => p.to_text(),
            Ipv4PacketInner::Unknown(p) => p.to_text(),
        }
    }
}

impl<'a> Ipv4Packet<'a> {
    /// The text of the packet, as `Display` writes it: the header on one line, then the
    /// inner packet.
    pub open spec fn spec_text(&self) -> Seq<char> {
        "IPv4 Packet: "@ + ipv4_text(self.source.0@) + " -> "@ + ipv4_text(self.destination.0@)
            + ", ID 0x"@ + hex16(self.identification, 4) + ", TTL "@ + dec8(self.ttl)
            + ", Header Checksum 0x"@ + hex16(self.header_checksum, 4) + ", Total Length "@
            + dec16(self.total_length) + "\n"@ + self.inner.spec_text()
    }

    /// The text of the packet.
    pub fn to_text(&self) -> (s: String)
        ensures
            s@ == self.spec_text(),
    {
        let mut out: Vec<char> = Vec::new();
        push_str(&mut out, "IPv4 Packet: ");
        push_string(&mut out, &self.source.to_text());
        push_str(&mut out, " -> ");
        push_string(&mut out, &self.destination.to_text());
        push_str(&mut out, ", ID 0x");
        push_hex(&mut out, u64::from(self.identification), 4);
        push_str(&mut out, ", TTL ");
        push_dec(&mut out, u64::from(self.ttl));
        push_str(&mut out, ", Header Checksum 0x");
        push_hex(&mut out, u64::from(self.header_checksum), 4);
        push_str(&mut out, ", Total Length ");
        push_dec(&mut out, u64::from(self.total_length));
        push_str(&mut out, "\n");
        push_string(&mut out, &self.inner.to_text());
        assert(out@ =~= self.spec_text());
        string_of(&out)
    }
}

impl PacketDetail for Ipv4Packet<'_> {
    open spec fn spec_summary(&self) -> Seq<char> {
        "Len: "@ + dec16(self.total_length) + ", TTL: "@ + dec8(self.ttl)
    }

    open spec fn spec_details(&self) -> Seq<Seq<char>> {
        seq![
            "Version: "@ + dec8(self.version),
            "Header Length: "@ + decimal(self.header_length as nat * 4) + " bytes ("@ + dec8(self.header_length) + ")"@,
            "DSCP: "@ + dec8(self.dsf.dscp) + ", ECN: "@ + dec8(self.dsf.ecn),
            "Total Length: "@ + dec16(self.total_length),
            "Identification: 0x"@ + hex16(self.identification, 4),
            "Flags: DF="@ + bit_text(self.flags.dont_fragment) + ", MF="@ + bit_text(self.flags.more_fragments),
            "Fragment Offset: "@ + dec16(self.fragment_offset),
            "Time to Live: "@ + dec8(self.ttl),
            "Protocol: "@ + self.inner.spec_slug() + " ("@ + dec8(self.inner.spec_protocol_number()) + ")"@,
            "Header Checksum: 0x"@ + hex16(self.header_checksum, 4),
            "Source: "@ + ipv4_text(self.source.0@),
            "Destination: "@ + ipv4_text(self.destination.0@),
        ]
    }

    open spec fn spec_slug(&self) -> Seq<char> {
        "IPV4"@
    }

    open spec fn spec_name(&self) -> Seq<char> {
        "Internet Protocol Version 4"@
    }

    open spec fn spec_source(&self) -> Option<Seq<char>> {
        Some(ipv4_text(self.source.0@))
    }

    open spec fn spec_destination(&self) -> Option<Seq<char>> {
        Some(ipv4_text(self.destination.0@))
    }

    open spec fn spec_length(&self) -> nat {
        self.raw@.len()
    }

    fn summary(&self) -> (s: String) {
        let mut out: Vec<char> = Vec::new();
        push_str(&mut out, "Len: ");
        push_dec(&mut out, u64::from(self.total_length));
        push_str(&mut out, ", TTL: ");
        push_dec(&mut out, u64::from(self.ttl));
        assert(out@ =~= self.spec_summary());
        string_of(&out)
    }

    fn details(&self) -> (d: Vec<String>) {
        proof {
            reveal_strlit("");
        }
        let mut d: Vec<String> = Vec::new();
        push_dec_line(&mut d, "Version: ", u64::from(self.version), "");
        let mut l: Vec<char> = Vec::new();
        push_str(&mut l, "Header Length: ");
        push_dec(&mut l, u64::from(self.header_length) * 4);
        push_str(&mut l, " bytes (");
        push_dec(&mut l, u64::from(self.header_length));
        push_str(&mut l, ")");
        assert(l@ =~= "Header Length: "@ + decimal(self.header_length as nat * 4) + " bytes ("@
            + dec8(self.header_length) + ")"@);
        push_line(&mut d, &l);
        let mut l: Vec<char> = Vec::new();
        push_str(&mut l, "DSCP: ");
        push_dec(&mut l, u64::from(self.dsf.dscp));
        push_str(&mut l, ", ECN: ");
        push_dec(&mut l, u64::from(self.dsf.ecn));
        assert(l@ =~= "DSCP: "@ + dec8(self.dsf.dscp) + ", ECN: "@ + dec8(self.dsf.ecn));
        push_line(&mut d, &l);
        push_dec_line(&mut d, "Total Length: ", u64::from(self.total_length), "");
        push_hex_line(&mut d, "Identification: 0x", u64::from(self.identification), 4, "");
        let mut l: Vec<char> = Vec::new();
        push_str(&mut l, "Flags: DF=");
        push_bit(&mut l, self.flags.dont_fragment);
        push_str(&mut l, ", MF=");
        push_bit(&mut l, self.flags.more_fragments);
        assert(l@ =~= "Flags: DF="@ + bit_text(self.flags.dont_fragment) + ", MF="@ + bit_text(
            self.flags.more_fragments,
        ));
        push_line(&mut d, &l);
        let ghost first = strings_view(d@);
        assert(first =~= self.spec_details().take(6));
        push_dec_line(&mut d, "Fragment Offset: ", u64::from(self.fragment_offset), "");
        push_dec_line(&mut d, "Time to Live: ", u64::from(self.ttl), "");
        let mut l: Vec<char> = Vec::new();
        push_str(&mut l, "Protocol: ");
        push_str(&mut l, self.inner.slug());
        push_str(&mut l, " (");
        push_dec(&mut l, u64::from(self.inner.protocol_number()));
        push_str(&mut l, ")");
        assert(l@ =~= "Protocol: "@ + self.inner.spec_slug() + " ("@ + dec8(
            self.inner.spec_protocol_number(),
        ) + ")"@);
        push_line(&mut d, &l);
        push_hex_line(&mut d, "Header Checksum: 0x", u64::from(self.header_checksum), 4, "");
        push_text_between(&mut d, "Source: ", &self.source.to_text(), "");
        push_text_between(&mut d, "Destination: ", &self.destination.to_text(), "");
        assert(strings_view(d@) =~= first + self.spec_details().skip(6));
        assert(self.spec_details() =~= self.spec_details().take(6) + self.spec_details().skip(6));
        d
    }

    fn slug(&self) -> (s: &'static str) {
        "IPV4"
    }

    fn name(&self) -> (s: &'static str) {
        "Internet Protocol Version 4"
    }

    fn source(&self) -> (s: Option<String>) {
        Some(self.source.to_text())
    }

    fn destination(&self) -> (s: Option<String>) {
        Some(self.destination.to_text())
    }

    fn length(&self) -> (n: usize) {
        self.raw.len()
    }
}

} // verus!
