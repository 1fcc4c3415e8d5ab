//! Ethernet packet parsing.
use vstd::prelude::*;
use crate::bytes::{be16_at, len_u64, read_be16};
use crate::text::{decimal, hex16, push_dec, push_hex, push_str, push_string, string_of, strings_view};
use addr::mac_text;
use packet_detail::{push_dec_line, push_hex_line, push_line, push_text_between};
use timestamp::{utc_text, MAX_UTC_SECS, MIN_UTC_SECS};

pub mod addr;
pub mod arp;
pub mod header_laws;
pub mod ipv4;
pub mod ipv6;
pub mod lightway;
pub mod packet_detail;
pub mod rarp;
pub mod timestamp;

pub use addr::{Ipv4Addr, Ipv6Addr, MacAddress};
pub use timestamp::{PacketHeader, TimeVal, Timestamp};
pub use packet_detail::PacketDetail;

use arp::{ArpPacket, ParseArpError, ARP_PACKET_LEN};
use ipv4::{Ipv4Packet, ParseIpv4Error};
use ipv6::{Ipv6Packet, ParseIpv6Error};
use rarp::RarpPacket;

verus! {

/// An Ethernet packet.
#[derive(Debug, Clone, PartialEq, Eq)]
pub struct EthernetPacket<'a> {
    /// The timestamp of the packet.
    pub timestamp: Timestamp,
    /// The destination MAC address. 48 bits.
    pub destination: MacAddress,
    /// The source MAC address. 48 bits.
    pub source: MacAddress,
    /// The inner packet. Type is determined by the `EtherType` field (16 bits).
    pub inner: EthernetPacketInner<'a>,
    /// The raw data field or leftover data of the packet.
    pub data: &'a [u8],
    /// The raw Ethernet packet.
    pub raw: &'a [u8],
}

/// Trait requiring associated const ETHER_TYPE for packet types.
pub trait EtherType {
    /// The EtherType value associated with the packet type.
    const ETHER_TYPE: u16;
}

/// EtherType of IPv4.
pub const ETHER_TYPE_IPV4: u16 = 0x0800;
/// EtherType of ARP.
pub const ETHER_TYPE_ARP: u16 = 0x0806;
/// EtherType of RARP.
pub const ETHER_TYPE_RARP: u16 = 0x8035;
/// EtherType of IPv6.
pub const ETHER_TYPE_IPV6: u16 = 0x86DD;

impl EtherType for Ipv4Packet<'_> {
    const ETHER_TYPE: u16 = ETHER_TYPE_IPV4;
}

impl EtherType for ArpPacket {
    const ETHER_TYPE: u16 = ETHER_TYPE_ARP;
}

impl EtherType for RarpPacket<'_> {
    const ETHER_TYPE: u16 = ETHER_TYPE_RARP;
}

impl EtherType for Ipv6Packet<'_> {
    const ETHER_TYPE: u16 = ETHER_TYPE_IPV6;
}

/// An Ethernet packet of unknown or unsupported type.
#[derive(Debug, Clone, PartialEq, Eq)]
pub struct UnknownEthernetPacket<'a> {
    /// The raw type of the Ethernet packet.
    pub ethertype: u16,
    /// The raw data field or leftover data of the Ethernet packet.
    pub data: &'a [u8],
    /// The raw Ethernet packet.
    pub raw: &'a [u8],
}

/// Available inner packet types for Ethernet frames.
#[derive(Debug, Clone, PartialEq, Eq)]
pub enum EthernetPacketInner<'a> {
    /// Internet Protocol version 4 (0x0800)
    Ipv4(Ipv4Packet<'a>),
    /// Address Resolution Protocol (0x0806)
    Arp(ArpPacket),
    /// Internet Protocol version 6 (0x86DD)
    Ipv6(Ipv6Packet<'a>),
    /// Unknown or unsupported `EtherType`
    Unknown(UnknownEthernetPacket<'a>),
}

/// Possible errors when parsing an Ethernet packet.
#[derive(Debug, Clone, Copy, PartialEq, Eq)]
pub enum ParseEthernetError {
    /// The timestamp is out of range.
    TimestampOutOfRange,
    /// The packet is too short to be a valid Ethernet frame.
    PacketTooShort,
    /// Error parsing inner ARP packet.
    ParseArpError(ParseArpError),
    /// Error parsing inner IPv4 packet.
    ParseIpv4Error(ParseIpv4Error),
    /// Error parsing inner IPv6 packet.
    ParseIpv6Error(ParseIpv6Error),
}

impl<'a> EthernetPacket<'a> {
    /// Why a frame is not an Ethernet packet, if it is not one (the timestamp aside).
    pub open spec fn spec_frame_error(raw: Seq<u8>) -> Option<ParseEthernetError> {
        if raw.len() < 14 {
            Some(ParseEthernetError::PacketTooShort)
        } else {
            let ethertype = be16_at(raw, 12);
            let data = raw.skip(14);
            if ethertype == ETHER_TYPE_IPV4 {
                match Ipv4Packet::spec_error(data) {
                    Some(e) => Some(ParseEthernetError::ParseIpv4Error(e)),
                    None => None,
                }
            } else if ethertype == ETHER_TYPE_ARP {
                if data.len() < 28 {
                    Some(ParseEthernetError::ParseArpError(ParseArpError::PacketTooShort))
                } else {
                    None
                }
            } else if ethertype == ETHER_TYPE_IPV6 {
                match Ipv6Packet::spec_error(data) {
                    Some(e) => Some(ParseEthernetError::ParseIpv6Error(e)),
                    None => None,
                }
            } else {
                None
            }
        }
    }

    /// Why a captured packet is not an Ethernet packet, if it is not one.
    pub open spec fn spec_error(header: PacketHeader, raw: Seq<u8>) -> Option<ParseEthernetError> {
        if Timestamp::spec_from_timeval(header.ts) is None {
            Some(ParseEthernetError::TimestampOutOfRange)
        } else {
            Self::spec_frame_error(raw)
        }
    }

    /// The inner packet holds exactly what the payload encodes under `ethertype`.
    pub open spec fn inner_decoded_from(
        inner: EthernetPacketInner<'a>,
        ethertype: u16,
        data: Seq<u8>,
        raw: Seq<u8>,
    ) -> bool {
        if ethertype == ETHER_TYPE_IPV4 {
            inner matches EthernetPacketInner::Ipv4(p) && p.decoded_from(data)
        } else if ethertype == ETHER_TYPE_ARP {
            inner matches EthernetPacketInner::Arp(p) && p.decoded_from(data)
        } else if ethertype == ETHER_TYPE_IPV6 {
            inner matches EthernetPacketInner::Ipv6(p) && p.decoded_from(data)
        } else {
            inner matches EthernetPacketInner::Unknown(u) && u.ethertype == ethertype && u.data@
                == data && u.raw@ == raw
        }
    }

    /// The packet holds exactly the fields that the frame `raw` encodes, stamped `timestamp`.
    pub open spec fn decoded_from(self, timestamp: Timestamp, raw: Seq<u8>) -> bool {
        &&& raw.len() >= 14
        &&& self.timestamp == timestamp
        &&& self.destination.0@ == raw.subrange(0, 6)
        &&& self.source.0@ == raw.subrange(6, 12)
        &&& Self::inner_decoded_from(self.inner, be16_at(raw, 12), raw.skip(14), raw)
        &&& self.data@ == raw.skip(14)
        &&& self.raw@ == raw
    }

    /// Decode a frame whose capture time is already known.
    ///
    /// # Errors
    ///
    /// See [`ParseEthernetError`]; never `TimestampOutOfRange`.
    pub fn from_frame(timestamp: Timestamp, raw: &'a [u8]) -> (res: Result<Self, ParseEthernetError>)
        ensures
            res is Ok <==> Self::spec_frame_error(raw@) is None,
            res matches Err(e) ==> Self::spec_frame_error(raw@) == Some(e),
            res matches Ok(p) ==> p.decoded_from(timestamp, raw@),
    {
        if raw.len() < 14 {
            return Err(ParseEthernetError::PacketTooShort);
        }
        let (_header, data) = raw.split_at(14);
        let destination = MacAddress::read(raw, 0);
        let source = MacAddress::read(raw, 6);
        let ethertype_raw = read_be16(raw, 12);
        let inner = if ethertype_raw == ETHER_TYPE_IPV4 {
            match Ipv4Packet::new(data) {
                Ok(p) => EthernetPacketInner::Ipv4(p),
                Err(e) => return Err(ParseEthernetError::ParseIpv4Error(e)),
            }
        } else if ethertype_raw == ETHER_TYPE_ARP {
            if data.len() < ARP_PACKET_LEN {
                return Err(ParseEthernetError::ParseArpError(ParseArpError::PacketTooShort));
            }
            EthernetPacketInner::Arp(ArpPacket::new(data))
        } else if ethertype_raw == ETHER_TYPE_IPV6 {
            match Ipv6Packet::new(data) {
                Ok(p) => EthernetPacketInner::Ipv6(p),
                Err(e) => return Err(ParseEthernetError::ParseIpv6Error(e)),
            }
        } else {
            EthernetPacketInner::Unknown(UnknownEthernetPacket { ethertype: ethertype_raw, data, raw })
        };
        Ok(Self { timestamp, destination, source, inner, data, raw })
    }

    /// Create a new Ethernet packet from header and raw data.
    ///
    /// # Errors
    ///
    /// See [`ParseEthernetError`].
    pub fn new(header: &PacketHeader, raw: &'a [u8]) -> (res: Result<Self, ParseEthernetError>)
        requires
            i64::MIN <= header.ts.tv_usec * 1000 <= i64::MAX,
        ensures
            res is Ok <==> Self::spec_error(*header, raw@) is None,
            res matches Err(e) ==> Self::spec_error(*header, raw@) == Some(e),
            res matches Ok(p) ==> Timestamp::spec_from_timeval(header.ts) == Some(p.timestamp@)
                && p.decoded_from(p.timestamp, raw@),
            (0 <= header.ts.tv_usec * 1000 < 1_000_000_000 && MIN_UTC_SECS <= header.ts.tv_sec
                <= MAX_UTC_SECS) ==> !(res matches Err(ParseEthernetError::TimestampOutOfRange)),
    {
        let timestamp = match Timestamp::from_timeval(&header.ts) {
            Some(t) => t,
            None => return Err(ParseEthernetError::TimestampOutOfRange),
        };
        Self::from_frame(timestamp, raw)
    }
}

impl<'a> UnknownEthernetPacket<'a> {
    /// The one-line text of the packet, as `Display` writes it.
    pub open spec fn spec_text(&self) -> Seq<char> {
        "Unknown Ethernet Packet (0x"@ + hex16(self.ethertype, 4) + "): "@ + decimal(
            self.data@.len(),
        ) + " bytes"@
    }

    /// The one-line text of the packet.
    pub fn to_text(&self) -> (s: String)
        ensures
            s@ == self.spec_text(),
    {
        let mut out: Vec<char> = Vec::new();
        push_str(&mut out, "Unknown Ethernet Packet (0x");
        push_hex(&mut out, u64::from(self.ethertype), 4);
        push_str(&mut out, "): ");
        push_dec(&mut out, len_u64(self.data.len()));
        push_str(&mut out, " bytes");
        assert(out@ =~= self.spec_text());
        string_of(&out)
    }
}

impl<'a> EthernetPacketInner<'a> {
    /// The text of the inner packet, as `Display` writes it.
    pub open spec fn spec_text(&self) -> Seq<char> {
        match self {
            EthernetPacketInner::Ipv4(p) => p.spec_text(),
            EthernetPacketInner::Arp(p) => p.spec_text(),
            EthernetPacketInner::Ipv6(p) => p.spec_text(),
            EthernetPacketInner::Unknown(p) => p.spec_text(),
        }
    }

    /// The text of the inner packet.
    pub fn to_text(&self) -> (s: String)
        ensures
            s@ == self.spec_text(),
    {
        match self {
            EthernetPacketInner::Ipv4(p) => p.to_text(),
            EthernetPacketInner::Arp(p) => p.to_text(),
            EthernetPacketInner::Ipv6(p) => p.to_text(),
            EthernetPacketInner::Unknown(p) => p.to_text(),
        }
    }

    /// The slug of the inner packet.
    pub open spec fn spec_slug(&self) -> Seq<char> {
        match self {
            EthernetPacketInner::Ipv4(p) => p.spec_slug(),
            EthernetPacketInner::Arp(p) => p.spec_slug(),
            EthernetPacketInner::Ipv6(p) => p.spec_slug(),
            EthernetPacketInner::Unknown(p) => p.spec_slug(),
        }
    }

    /// The EtherType that selects the inner packet.
    pub open spec fn spec_ether_type(&self) -> u16 {
        match self {
            EthernetPacketInner::Ipv4(_) => ETHER_TYPE_IPV4,
            EthernetPacketInner::Arp(_) => ETHER_TYPE_ARP,
            EthernetPacketInner::Ipv6(_) => ETHER_TYPE_IPV6,
            EthernetPacketInner::Unknown(u) => u.ethertype,
        }
    }

    /// The slug and EtherType of the inner packet.
    fn slug_and_type(&self) -> (r: (&'static str, u16))
        ensures
            r.0@ == self.spec_slug(),
            r.1 == self.spec_ether_type(),
    {
        match self {
            EthernetPacketInner::Ipv4(p) => (p.slug(), ETHER_TYPE_IPV4),
            EthernetPacketInner::Arp(p) => (p.slug(), ETHER_TYPE_ARP),
            EthernetPacketInner::Ipv6(p) => (p.slug(), ETHER_TYPE_IPV6),
            EthernetPacketInner::Unknown(u) => (u.slug(), u.ethertype),
        }
    }
}

impl<'a> EthernetPacket<'a> {
    /// The text of the packet, as `Display` writes it: capture time, addresses and payload
    /// size on one line, then the inner packet.
    pub open spec fn spec_text(&self) -> Seq<char> {
        "["@ + utc_text(self.timestamp@.0, self.timestamp@.1) + "] "@ + mac_text(self.source.0@)
            + " -> "@ + mac_text(self.destination.0@) + ", "@ + decimal(self.data@.len())
            + " bytes\n"@ + self.inner.spec_text()
    }

    /// The text of the packet.
    pub fn to_text(&self) -> (s: String)
        ensures
            s@ == self.spec_text(),
    {
        let mut out: Vec<char> = Vec::new();
        push_str(&mut out, "[");
        push_string(&mut out, &self.timestamp.to_text());
        push_str(&mut out, "] ");
        push_string(&mut out, &self.source.to_text());
        push_str(&mut out, " -> ");
        push_string(&mut out, &self.destination.to_text());
        push_str(&mut out, ", ");
        push_dec(&mut out, len_u64(self.data.len()));
        push_str(&mut out, " bytes\n");
        push_string(&mut out, &self.inner.to_text());
        assert(out@ =~= self.spec_text());
        string_of(&out)
    }
}

impl PacketDetail for EthernetPacket<'_> {
    open spec fn spec_summary(&self) -> Seq<char> {
        "Src: "@ + mac_text(self.source.0@) + ", Dst: "@ + mac_text(self.destination.0@)
    }

    open spec fn spec_details(&self) -> Seq<Seq<char>> {
        seq![
            "Destination: "@ + mac_text(self.destination.0@),
            "Source: "@ + mac_text(self.source.0@),
            "Type: "@ + self.inner.spec_slug() + " (0x"@ + hex16(self.inner.spec_ether_type(), 4) + ")"@,
        ]
    }

    open spec fn spec_slug(&self) -> Seq<char> {
        "ETHERNET"@
    }

    open spec fn spec_name(&self) -> Seq<char> {
        "Ethernet II"@
    }

    open spec fn spec_source(&self) -> Option<Seq<char>> {
        Some(mac_text(self.source.0@))
    }

    open spec fn spec_destination(&self) -> Option<Seq<char>> {
        Some(mac_text(self.destination.0@))
    }

    open spec fn spec_length(&self) -> nat {
        self.raw@.len()
    }

    fn summary(&self) -> (s: String) {
        let mut out: Vec<char> = Vec::new();
        push_str(&mut out, "Src: ");
        push_string(&mut out, &self.source.to_text());
        push_str(&mut out, ", Dst: ");
        push_string(&mut out, &self.destination.to_text());
        assert(out@ =~= self.spec_summary());
        string_of(&out)
    }

    fn details(&self) -> (d: Vec<String>) {
        proof {
            reveal_strlit("");
        }
        let mut d: Vec<String> = Vec::new();
        push_text_between(&mut d, "Destination: ", &self.destination.to_text(), "");
        push_text_between(&mut d, "Source: ", &self.source.to_text(), "");
        let (slug, ether_type) = self.inner.slug_and_type();
        let mut l: Vec<char> = Vec::new();
        push_str(&mut l, "Type: ");
        push_str(&mut l, slug);
        push_str(&mut l, " (0x");
        push_hex(&mut l, u64::from(ether_type), 4);
        push_str(&mut l, ")");
        assert(l@ =~= "Type: "@ + self.inner.spec_slug() + " (0x"@ + hex16(
            self.inner.spec_ether_type(),
            4,
        ) + ")"@);
        push_line(&mut d, &l);
        assert(strings_view(d@) =~= self.spec_details());
        d
    }

    fn slug(&self) -> (s: &'static str) {
        "ETHERNET"
    }

    fn name(&self) -> (s: &'static str) {
        "Ethernet II"
    }

    fn source(&self) -> (s: Option<String>) {
        Some(self.source.to_text())
    }

    fn destination(&self) -> (s: Option<String>) {
        Some(self.destination.to_text())
    }

    fn length(&self) -> (n: usize) {
        self.raw.len()
    }
}

impl PacketDetail for UnknownEthernetPacket<'_> {
    open spec fn spec_summary(&self) -> Seq<char> {
        "Unknown Ethernet Packet (0x"@ + hex16(self.ethertype, 4) + ")"@
    }

    open spec fn spec_details(&self) -> Seq<Seq<char>> {
        seq![
            "EtherType: 0x"@ + hex16(self.ethertype, 4),
            "Data Length: "@ + decimal(self.data@.len()) + " bytes"@,
        ]
    }

    open spec fn spec_slug(&self) -> Seq<char> {
        "UNKNOWN"@
    }

    open spec fn spec_name(&self) -> Seq<char> {
        "Unknown Protocol"@
    }

    open spec fn spec_source(&self) -> Option<Seq<char>> {
        None
    }

    open spec fn spec_destination(&self) -> Option<Seq<char>> {
        None
    }

    open spec fn spec_length(&self) -> nat {
        self.raw@.len()
    }

    fn summary(&self) -> (s: String) {
        let mut out: Vec<char> = Vec::new();
        push_str(&mut out, "Unknown Ethernet Packet (0x");
        push_hex(&mut out, u64::from(self.ethertype), 4);
        push_str(&mut out, ")");
        assert(out@ =~= self.spec_summary());
        string_of(&out)
    }

    fn details(&self) -> (d: Vec<String>) {
        proof {
            reveal_strlit("");
        }
        let mut d: Vec<String> = Vec::new();
        push_hex_line(&mut d, "EtherType: 0x", u64::from(self.ethertype), 4, "");
        push_dec_line(&mut d, "Data Length: ", len_u64(self.data.len()), " bytes");
        assert(strings_view(d@) =~= self.spec_details());
        d
    }

    fn slug(&self) -> (s: &'static str) {
        "UNKNOWN"
    }

    fn name(&self) -> (s: &'static str) {
        "Unknown Protocol"
    }

    fn source(&self) -> (s: Option<String>) {
        None
    }

    fn destination(&self) -> (s: Option<String>) {
        None
    }

    fn length(&self) -> (n: usize) {
        self.raw.len()
    }
}

} // verus!
