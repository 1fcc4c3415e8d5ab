//! UDP packet parsing.
use vstd::prelude::*;
use crate::bytes::{be16_at, len_u64, read_be16};
use crate::ethernet::packet_detail::{push_dec_line, push_hex_line, PacketDetail};
use crate::text::{dec16, decimal, hex16, push_dec, push_str, string_of, strings_view};
use super::Protocol;

pub mod dns;

use dns::{DnsPacket, ParseDnsError};

verus! {

/// A UDP packet.
#[derive(Debug, Clone, PartialEq, Eq)]
pub struct UdpPacket<'a> {
    /// Source port.
    pub src_port: u16,
    /// Destination port.
    pub dest_port: u16,
    /// Length of the UDP packet including header and data.
    pub length: u16,
    /// Checksum of the UDP packet.
    pub checksum: u16,
    /// The inner packet.
    pub inner: UdpPacketInner<'a>,
    /// The raw data field or leftover data of the UDP packet.
    pub data: &'a [u8],
    /// The raw UDP packet.
    pub raw: &'a [u8],
}

/// Available inner packet types for UDP packets.
#[derive(Debug, Clone, PartialEq, Eq)]
pub enum UdpPacketInner<'a> {
    /// DNS packet.
    Dns(DnsPacket<'a>),
    /// Unknown or unsupported inner packet type.
    Unknown(UnknownUdpPacket<'a>),
}

/// A UDP packet of unknown or unsupported protocol.
#[derive(Debug, Clone, PartialEq, Eq)]
pub struct UnknownUdpPacket<'a> {
    /// The raw data field or leftover data of the UDP packet.
    pub data: &'a [u8],
}

/// Possible errors when parsing a UDP packet.
#[derive(Debug, Clone, Copy, PartialEq, Eq)]
pub enum ParseUdpError {
    /// The packet is too short to be a valid UDP packet.
    PacketTooShort,
    /// Error parsing inner DNS packet.
    ParseDnsError(ParseDnsError),
}

/// The port that marks a UDP payload as DNS.
pub const DNS_PORT: u16 = 53;

/// The port that marks a UDP payload as multicast DNS, read as DNS too.
pub const MDNS_PORT: u16 = 5353;

/// Whether a port carries DNS or multicast DNS.
pub open spec fn is_dns_port(port: u16) -> bool {
    port == DNS_PORT || port == MDNS_PORT
}

impl<'a> UdpPacket<'a> {
    /// Whether a datagram with these ports carries DNS or multicast DNS.
    pub open spec fn is_dns(raw: Seq<u8>) -> bool {
        is_dns_port(be16_at(raw, 0)) || is_dns_port(be16_at(raw, 2))
    }

    /// Why a byte sequence is not a UDP packet, if it is not one.
    pub open spec fn spec_error(raw: Seq<u8>) -> Option<ParseUdpError> {
        if raw.len() < 8 {
            Some(ParseUdpError::PacketTooShort)
        } else if Self::is_dns(raw) {
            match DnsPacket::spec_error(raw.skip(8)) {
                Some(e) => Some(ParseUdpError::ParseDnsError(e)),
                None => None,
            }
        } else {
            None
        }
    }

    /// The packet holds exactly the fields that `raw` encodes.
    pub open spec fn decoded_from(self, raw: Seq<u8>) -> bool {
        &&& raw.len() >= 8
        &&& self.src_port == be16_at(raw, 0)
        &&& self.dest_port == be16_at(raw, 2)
        &&& self.length == be16_at(raw, 4)
        &&& self.checksum == be16_at(raw, 6)
        &&& self.data@ == raw.skip(8)
        &&& self.raw@ == raw
        &&& if Self::is_dns(raw) {
            self.inner matches UdpPacketInner::Dns(d) && d.decoded_from(raw.skip(8))
        } else {
            self.inner matches UdpPacketInner::Unknown(u) && u.data@ == raw.skip(8)
        }
    }

    /// Create a new UDP packet from raw data.
    ///
    /// # Errors
    ///
    /// See [`ParseUdpError`].
    pub fn new(raw: &'a [u8]) -> (res: Result<Self, ParseUdpError>)
        ensures
            res is Ok <==> Self::spec_error(raw@) is None,
            res matches Err(e) ==> Self::spec_error(raw@) == Some(e),
            res matches Ok(p) ==> p.decoded_from(raw@),
    {
        if raw.len() < 8 {
            return Err(ParseUdpError::PacketTooShort);
        }
        let (_header, data) = raw.split_at(8);
        let src_port = read_be16(raw, 0);
        let dest_port = read_be16(raw, 2);
        let length = read_be16(raw, 4);
        let checksum = read_be16(raw, 6);
        let inner = if src_port == DNS_PORT || src_port == MDNS_PORT || dest_port == DNS_PORT
            || dest_port == MDNS_PORT {
            match DnsPacket::new(data) {
                Ok(dns) => UdpPacketInner::Dns(dns),
                Err(e) => return Err(ParseUdpError::ParseDnsError(e)),
            }
        } else {
            UdpPacketInner::Unknown(UnknownUdpPacket { data })
        };
        Ok(Self { src_port, dest_port, length, checksum, inner, data, raw })
    }
}

/// The IPv4 protocol number of this packet type.
pub const PROTOCOL_NUMBER: u8 = 0x11;

impl Protocol for UdpPacket<'_> {
    const PROTOCOL: u8 = PROTOCOL_NUMBER;
}

impl<'a> UdpPacket<'a> {
    /// The sizes and ports.
    pub open spec fn spec_summary_text(&self) -> Seq<char> {
        decimal(self.data@.len()) + " bytes from :"@ + dec16(self.src_port) + " to :"@ + dec16(
            self.dest_port,
        )
    }

    /// Appends the sizes and ports.
    fn push_summary_text(&self, out: &mut Vec<char>)
        ensures
            final(out)@ == old(out)@ + self.spec_summary_text(),
    {
        push_dec(out, len_u64(self.data.len()));
        push_str(out, " bytes from :");
        push_dec(out, u64::from(self.src_port));
        push_str(out, " to :");
        push_dec(out, u64::from(self.dest_port));
        assert(final(out)@ =~= old(out)@ + self.spec_summary_text());
    }

    /// The one-line text of the packet, as `Display` writes it.
    pub open spec fn spec_text(&self) -> Seq<char> {
        "UDP: "@ + self.spec_summary_text()
    }

    /// The one-line text of the packet.
    pub fn to_text(&self) -> (s: String)
        ensures
            s@ == self.spec_text(),
    {
        let mut out: Vec<char> = Vec::new();
        push_str(&mut out, "UDP: ");
        self.push_summary_text(&mut out);
        assert(out@ =~= self.spec_text());
        string_of(&out)
    }
}

impl PacketDetail for UdpPacket<'_> {
    open spec fn spec_summary(&self) -> Seq<char> {
        self.spec_summary_text()
    }

    open spec fn spec_details(&self) -> Seq<Seq<char>> {
        seq![
            "Source Port: "@ + dec16(self.src_port),
            "Destination Port: "@ + dec16(self.dest_port),
            "Length: "@ + dec16(self.length),
            "Checksum: 0x"@ + hex16(self.checksum, 4),
            "Data Length: "@ + decimal(self.data@.len()) + " bytes"@,
        ]
    }

    open spec fn spec_slug(&self) -> Seq<char> {
        "UDP"@
    }

    open spec fn spec_name(&self) -> Seq<char> {
        "User Datagram Protocol"@
    }

    open spec fn spec_source(&self) -> Option<Seq<char>> {
        None
    }

    open spec fn spec_destination(&self) -> Option<Seq<char>> {
        None
    }

    open spec fn spec_length(&self) -> nat {
        self.raw@.len()
    }

    fn summary(&self) -> (s: String) {
        let mut out: Vec<char> = Vec::new();
        self.push_summary_text(&mut out);
        assert(out@ =~= self.spec_summary());
        string_of(&out)
    }

    fn details(&self) -> (d: Vec<String>) {
        proof {
            reveal_strlit("");
        }
        let mut d: Vec<String> = Vec::new();
        push_dec_line(&mut d, "Source Port: ", u64::from(self.src_port), "");
        push_dec_line(&mut d, "Destination Port: ", u64::from(self.dest_port), "");
        push_dec_line(&mut d, "Length: ", u64::from(self.length), "");
        push_hex_line(&mut d, "Checksum: 0x", u64::from(self.checksum), 4, "");
        push_dec_line(&mut d, "Data Length: ", len_u64(self.data.len()), " bytes");
        assert(strings_view(d@) =~= self.spec_details());
        d
    }

    fn slug(&self) -> (s: &'static str) {
        "UDP"
    }

    fn name(&self) -> (s: &'static str) {
        "User Datagram Protocol"
    }

    fn source(&self) -> (s: Option<String>) {
        None
    }

    fn destination(&self) -> (s: Option<String>) {
        None
    }

    fn length(&self) -> (n: usize) {
        self.raw.len()
    }
}

} // verus!
