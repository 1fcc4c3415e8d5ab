//! IPv6 packet parsing.
use vstd::prelude::*;
use crate::bytes::{be16_at, read_be16};
use super::addr::{ipv6_text, Ipv6Addr};
use super::packet_detail::{push_dec_line, push_hex_line, push_text_between, PacketDetail};
use crate::bytes::len_u64;
use crate::text::{
    dec16, dec8, decimal, hex32, hex8, push_dec, push_hex, push_str, push_string, string_of,
    strings_view,
};

verus! {

/// An IPv6 packet.
#[derive(Debug, Clone, PartialEq, Eq)]
pub struct Ipv6Packet<'a> {
    /// Version of IP. 4 bits. Should always be 6 for IPv6.
    pub version: u8,
    /// Traffic Class.
    pub traffic_class: u8,
    /// Flow Label. 20 bits.
    pub flow_label: u32,
    /// Payload Length in bytes.
    pub payload_length: u16,
    /// Next Header.
    pub next_header: u8,
    /// Hop Limit.
    pub hop_limit: u8,
    /// Source IP address. 128 bits.
    pub source: Ipv6Addr,
    /// Destination IP address. 128 bits.
    pub destination: Ipv6Addr,
    /// The raw data field of the IPv6 packet.
    pub data: &'a [u8],
    /// The raw IPv6 packet.
    pub raw: &'a [u8],
}

/// Possible errors when parsing an IPv6 packet.
#[derive(Debug, Clone, Copy, PartialEq, Eq)]
pub enum ParseIpv6Error {
    /// The packet is too short to be a valid IPv6 packet.
    PacketTooShort,
    /// The version field is not 6.
    InvalidVersion,
}

impl<'a> Ipv6Packet<'a> {
    /// Why a byte sequence is not an IPv6 packet, if it is not one.
    pub open spec fn spec_error(raw: Seq<u8>) -> Option<ParseIpv6Error> {
        if raw.len() < 40 {
            Some(ParseIpv6Error::PacketTooShort)
        } else if raw[0] / 16 != 6 {
            Some(ParseIpv6Error::InvalidVersion)
        } else {
            None
        }
    }

    /// The packet holds exactly the fields that `raw` encodes.
    pub open spec fn decoded_from(self, raw: Seq<u8>) -> bool {
        &&& raw.len() >= 40
        &&& self.version == raw[0] / 16
        &&& self.traffic_class == (raw[0] % 16) * 16 + raw[1] / 16
        &&& self.flow_label == (raw[1] % 16) * 65536 + raw[2] * 256 + raw[3]
        &&& self.payload_length == be16_at(raw, 4)
        &&& self.next_header == raw[6]
        &&& self.hop_limit == raw[7]
        &&& self.source.0@ == raw.subrange(8, 24)
        &&& self.destination.0@ == raw.subrange(24, 40)
        &&& self.data@ == raw.skip(40)
        &&& self.raw@ == raw
    }

    /// Create a new IPv6 packet from raw data.
    ///
    /// # Errors
    ///
    /// See [`ParseIpv6Error`].
    pub fn new(raw: &'a [u8]) -> (res: Result<Self, ParseIpv6Error>)
        ensures
            res is Ok <==> Self::spec_error(raw@) is None,
            res matches Err(e) ==> Self::spec_error(raw@) == Some(e),
            res matches Ok(p) ==> p.decoded_from(raw@),
    {
        if raw.len() < 40 {
            return Err(ParseIpv6Error::PacketTooShort);
        }
        let (_header, data) = raw.split_at(40);
        let version = raw[0] / 16;
        if version != 6 {
            return Err(ParseIpv6Error::InvalidVersion);
        }
        let traffic_class = (raw[0] % 16) * 16 + raw[1] / 16;
        let flow_label = ((raw[1] % 16) as u32) * 65536 + (raw[2] as u32) * 256 + (raw[3] as u32);
        let payload_length = read_be16(raw, 4);
        let next_header = raw[6];
        let hop_limit = raw[7];
        let source = Ipv6Addr::read(raw, 8);
        let destination = Ipv6Addr::read(raw, 24);
        Ok(Self {
            version,
            traffic_class,
            flow_label,
            payload_length,
            next_header,
            hop_limit,
            source,
            destination,
            data,
            raw,
        })
    }
}

impl<'a> Ipv6Packet<'a> {
    /// Flow label, hop limit and payload length.
    pub open spec fn spec_summary_text(&self) -> Seq<char> {
        "Flow Label 0x"@ + hex32(self.flow_label, 4) + ", Hop Limit "@ + dec8(self.hop_limit)
            + ", Payload Length "@ + dec16(self.payload_length)
    }

    /// Appends flow label, hop limit and payload length.
    fn push_summary_text(&self, out: &mut Vec<char>)
        ensures
            final(out)@ == old(out)@ + self.spec_summary_text(),
    {
        push_str(out, "Flow Label 0x");
        push_hex(out, u64::from(self.flow_label), 4);
        push_str(out, ", Hop Limit ");
        push_dec(out, u64::from(self.hop_limit));
        push_str(out, ", Payload Length ");
        push_dec(out, u64::from(self.payload_length));
        assert(final(out)@ =~= old(out)@ + self.spec_summary_text());
    }

    /// The one-line text of the packet, as `Display` writes it.
    pub open spec fn spec_text(&self) -> Seq<char> {
        "IPv6: "@ + ipv6_text(self.source.0@) + " -> "@ + ipv6_text(self.destination.0@) + ", "@
            + self.spec_summary_text()
    }

    /// The one-line text of the packet.
    pub fn to_text(&self) -> (s: String)
        ensures
            s@ == self.spec_text(),
    {
        let mut out: Vec<char> = Vec::new();
        push_str(&mut out, "IPv6: ");
        push_string(&mut out, &self.source.to_text());
        push_str(&mut out, " -> ");
        push_string(&mut out, &self.destination.to_text());
        push_str(&mut out, ", ");
        self.push_summary_text(&mut out);
        assert(out@ =~= self.spec_text());
        string_of(&out)
    }
}

impl PacketDetail for Ipv6Packet<'_> {
    open spec fn spec_summary(&self) -> Seq<char> {
        self.spec_summary_text()
    }

    open spec fn spec_details(&self) -> Seq<Seq<char>> {
        seq![
            "Version: "@ + dec8(self.version),
            "Traffic Class: 0x"@ + hex8(self.traffic_class, 2),
            "Flow Label: 0x"@ + hex32(self.flow_label, 4),
            "Payload Length: "@ + dec16(self.payload_length),
            "Next Header: 0x"@ + hex8(self.next_header, 2),
            "Hop Limit: "@ + dec8(self.hop_limit),
            "Source Address: "@ + ipv6_text(self.source.0@),
            "Destination Address: "@ + ipv6_text(self.destination.0@),
            "Data Length: "@ + decimal(self.data@.len()) + " bytes"@,
            "Total Length: "@ + decimal(self.raw@.len()) + " bytes"@,
        ]
    }

    open spec fn spec_slug(&self) -> Seq<char> {
        "IPV6"@
    }

    open spec fn spec_name(&self) -> Seq<char> {
        "Internet Protocol Version 6"@
    }

    open spec fn spec_source(&self) -> Option<Seq<char>> {
        Some(ipv6_text(self.source.0@))
    }

    open spec fn spec_destination(&self) -> Option<Seq<char>> {
        Some(ipv6_text(self.destination.0@))
    }

    open spec fn spec_length(&self) -> nat {
        self.raw@.len()
    }

    fn summary(&self) -> (s: String) {
        let mut out: Vec<char> = Vec::new();
        self.push_summary_text(&mut out);
        assert(out@ =~= self.spec_summary());
        string_of(&out)
    }

    fn details(&self) -> (d: Vec<String>) {
        proof {
            reveal_strlit("");
        }
        let mut d: Vec<String> = Vec::new();
        push_dec_line(&mut d, "Version: ", u64::from(self.version), "");
        push_hex_line(&mut d, "Traffic Class: 0x", u64::from(self.traffic_class), 2, "");
        push_hex_line(&mut d, "Flow Label: 0x", u64::from(self.flow_label), 4, "");
        push_dec_line(&mut d, "Payload Length: ", u64::from(self.payload_length), "");
        push_hex_line(&mut d, "Next Header: 0x", u64::from(self.next_header), 2, "");
        push_dec_line(&mut d, "Hop Limit: ", u64::from(self.hop_limit), "");
        push_text_between(&mut d, "Source Address: ", &self.source.to_text(), "");
        push_text_between(&mut d, "Destination Address: ", &self.destination.to_text(), "");
        push_dec_line(&mut d, "Data Length: ", len_u64(self.data.len()), " bytes");
        push_dec_line(&mut d, "Total Length: ", len_u64(self.raw.len()), " bytes");
        assert(strings_view(d@) =~= self.spec_details());
        d
    }

    fn slug(&self) -> (s: &'static str) {
        "IPV6"
    }

    fn name(&self) -> (s: &'static str) {
        "Internet Protocol Version 6"
    }

    fn source(&self) -> (s: Option<String>) {
        Some(self.source.to_text())
    }

    fn destination(&self) -> (s: Option<String>) {
        Some(self.destination.to_text())
    }

    fn length(&self) -> (n: usize) {
        self.raw.len()
    }
}

} // verus!
