//! ARP packet parsing.
use vstd::prelude::*;
use crate::bytes::{be16_at, read_be16};
use super::addr::{ipv4_text, mac_text, Ipv4Addr, MacAddress};
use super::packet_detail::{push_dec_line, push_text_between, PacketDetail};
use crate::text::{dec8, hex16, push_dec, push_hex, push_str, push_string, string_of, strings_view};

verus! {

/// An ARP packet.
#[derive(Debug, Clone, PartialEq, Eq)]
pub struct ArpPacket {
    /// Hardware type.
    pub hardware_type: HardwareType,
    /// Protocol type.
    pub protocol_type: ProtocolType,
    /// Hardware length.
    pub hardware_length: u8,
    /// Protocol length.
    pub protocol_length: u8,
    /// Operation.
    pub operation: ArpOperation,
    /// Sender MAC address.
    pub sender_mac: MacAddress,
    /// Sender IP address.
    pub sender_ip: Ipv4Addr,
    /// Target MAC address.
    pub target_mac: MacAddress,
    /// Target IP address.
    pub target_ip: Ipv4Addr,
}

/// Available hardware types.
#[derive(Debug, Clone, Copy, PartialEq, Eq)]
pub enum HardwareType {
    /// Reserved (0).
    Reserved,
    /// Ethernet (1).
    Ethernet,
    /// IEEE 802 Networks (6).
    IEEE802Networks,
    /// Any other hardware type.
    Unknown(u16),
}

/// Available protocol types.
#[derive(Debug, Clone, Copy, PartialEq, Eq)]
pub enum ProtocolType {
    /// IPv4 (0x0800).
    IPv4,
    /// Any other protocol type.
    Unknown(u16),
}

/// Available operation codes.
#[derive(Debug, Clone, Copy, PartialEq, Eq)]
pub enum ArpOperation {
    /// Request (1).
    Request,
    /// Reply (2).
    Reply,
    /// Any other operation.
    Unknown(u16),
}

/// Possible errors when parsing an ARP packet.
#[derive(Debug, Clone, Copy, PartialEq, Eq)]
pub enum ParseArpError {
    /// The packet is shorter than the 28 bytes that an ARP packet for IPv4 over Ethernet takes.
    PacketTooShort,
}

/// The number of bytes that `ArpPacket::new` reads.
pub const ARP_PACKET_LEN: usize = 28;

impl HardwareType {
    /// The hardware type that a raw number denotes.
    pub open spec fn spec_from(v: u16) -> HardwareType {
        if v == 0 {
            HardwareType::Reserved
        } else if v == 1 {
            HardwareType::Ethernet
        } else if v == 6 {
            HardwareType::IEEE802Networks
        } else {
            HardwareType::Unknown(v)
        }
    }

    /// The raw number of a hardware type.
    pub open spec fn spec_number(self) -> u16 {
        match self {
            HardwareType::Reserved => 0,
            HardwareType::Ethernet => 1,
            HardwareType::IEEE802Networks => 6,
            HardwareType::Unknown(v) => v,
        }
    }

    /// Converts a raw number; numbers without a name become `Unknown`.
    pub fn from_primitive(v: u16) -> (t: HardwareType)
        ensures
            t == Self::spec_from(v),
    {
        match v {
            0 => HardwareType::Reserved,
            1 => HardwareType::Ethernet,
            6 => HardwareType::IEEE802Networks,
            _ => HardwareType::Unknown(v),
        }
    }

    /// Converting a raw number and back gives the number again.
    pub proof fn lemma_number_roundtrip(v: u16)
        ensures
            Self::spec_from(v).spec_number() == v,
    {
    }
}

impl ProtocolType {
    /// The protocol type that a raw number denotes.
    pub open spec fn spec_from(v: u16) -> ProtocolType {
        if v == 0x0800 {
            ProtocolType::IPv4
        } else {
            ProtocolType::Unknown(v)
        }
    }

    /// The raw number of a protocol type.
    pub open spec fn spec_number(self) -> u16 {
        match self {
            ProtocolType::IPv4 => 0x0800,
            ProtocolType::Unknown(v) => v,
        }
    }

    /// Converts a raw number; numbers without a name become `Unknown`.
    pub fn from_primitive(v: u16) -> (t: ProtocolType)
        ensures
            t == Self::spec_from(v),
    {
        match v {
            0x0800 => ProtocolType::IPv4,
            _ => ProtocolType::Unknown(v),
        }
    }

    /// Converting a raw number and back gives the number again.
    pub proof fn lemma_number_roundtrip(v: u16)
        ensures
            Self::spec_from(v).spec_number() == v,
    {
    }
}

impl ArpOperation {
    /// The operation that a raw number denotes.
    pub open spec fn spec_from(v: u16) -> ArpOperation {
        if v == 1 {
            ArpOperation::Request
        } else if v == 2 {
            ArpOperation::Reply
        } else {
            ArpOperation::Unknown(v)
        }
    }

    /// The raw number of an operation.
    pub open spec fn spec_number(self) -> u16 {
        match self {
            ArpOperation::Request => 1,
            ArpOperation::Reply => 2,
            ArpOperation::Unknown(v) => v,
        }
    }

    /// Converts a raw number; numbers without a name become `Unknown`.
    pub fn from_primitive(v: u16) -> (t: ArpOperation)
        ensures
            t == Self::spec_from(v),
    {
        match v {
            1 => ArpOperation::Request,
            2 => ArpOperation::Reply,
            _ => ArpOperation::Unknown(v),
        }
    }

    /// Converting a raw number and back gives the number again.
    pub proof fn lemma_number_roundtrip(v: u16)
        ensures
            Self::spec_from(v).spec_number() == v,
    {
    }
}

impl ArpPacket {
    /// The packet holds exactly the fields that `raw` encodes.
    pub open spec fn decoded_from(self, raw: Seq<u8>) -> bool {
        &&& raw.len() >= 28
        &&& self.hardware_type == HardwareType::spec_from(be16_at(raw, 0))
        &&& self.protocol_type == ProtocolType::spec_from(be16_at(raw, 2))
        &&& self.hardware_length == raw[4]
        &&& self.protocol_length == raw[5]
        &&& self.operation == ArpOperation::spec_from(be16_at(raw, 6))
        &&& self.sender_mac.0@ == raw.subrange(8, 14)
        &&& self.sender_ip.0@ == raw.subrange(14, 18)
        &&& self.target_mac.0@ == raw.subrange(18, 24)
        &&& self.target_ip.0@ == raw.subrange(24, 28)
    }

    /// Create a new ARP packet from raw data (the first 28 bytes are read).
    pub fn new(raw_data: &[u8]) -> (p: Self)
        requires
            raw_data@.len() >= 28,
        ensures
            p.decoded_from(raw_data@),
    {
        let hardware_type = HardwareType::from_primitive(read_be16(raw_data, 0));
        let protocol_type = ProtocolType::from_primitive(read_be16(raw_data, 2));
        let hardware_length = raw_data[4];
        let protocol_length = raw_data[5];
        let operation = ArpOperation::from_primitive(read_be16(raw_data, 6));
        let sender_mac = MacAddress::read(raw_data, 8);
        let sender_ip = Ipv4Addr::read(raw_data, 14);
        let target_mac = MacAddress::read(raw_data, 18);
        let target_ip = Ipv4Addr::read(raw_data, 24);
        ArpPacket {
            hardware_type,
            protocol_type,
            hardware_length,
            protocol_length,
            operation,
            sender_mac,
            sender_ip,
            target_mac,
            target_ip,
        }
    }
}

impl HardwareType {
    /// The name of the hardware type, as `Display` writes it.
    pub open spec fn spec_text(self) -> Seq<char> {
        match self {
            HardwareType::Reserved => "Reserved"@,
            HardwareType::Ethernet => "Ethernet"@,
            HardwareType::IEEE802Networks => "IEEE 802 Networks"@,
            HardwareType::Unknown(v) => "Unknown (0x"@ + hex16(v, 4) + ")"@,
        }
    }

    /// The name of the hardware type.
    pub fn to_text(&self) -> (s: String)
        ensures
            s@ == self.spec_text(),
    {
        let mut out: Vec<char> = Vec::new();
        match self {
            HardwareType::Reserved => push_str(&mut out, "Reserved"),
            HardwareType::Ethernet => push_str(&mut out, "Ethernet"),
            HardwareType::IEEE802Networks => push_str(&mut out, "IEEE 802 Networks"),
            HardwareType::Unknown(v) => {
                push_str(&mut out, "Unknown (0x");
                push_hex(&mut out, u64::from(*v), 4);
                push_str(&mut out, ")");
            },
        }
        assert(out@ =~= self.spec_text());
        string_of(&out)
    }
}

impl ProtocolType {
    /// The name of the protocol type, as `Display` writes it.
    pub open spec fn spec_text(self) -> Seq<char> {
        match self {
            ProtocolType::IPv4 => "IPv4"@,
            ProtocolType::Unknown(v) => "Unknown (0x"@ + hex16(v, 4) + ")"@,
        }
    }

    /// The name of the protocol type.
    pub fn to_text(&self) -> (s: String)
        ensures
            s@ == self.spec_text(),
    {
        let mut out: Vec<char> = Vec::new();
        match self {
            ProtocolType::IPv4 => push_str(&mut out, "IPv4"),
            ProtocolType::Unknown(v) => {
                push_str(&mut out, "Unknown (0x");
                push_hex(&mut out, u64::from(*v), 4);
                push_str(&mut out, ")");
            },
        }
        assert(out@ =~= self.spec_text());
        string_of(&out)
    }
}

impl ArpOperation {
    /// The name of the operation, as `Display` writes it.
    pub open spec fn spec_text(self) -> Seq<char> {
        match self {
            ArpOperation::Request => "Request"@,
            ArpOperation::Reply => "Reply"@,
            ArpOperation::Unknown(v) => "Unknown (0x"@ + hex16(v, 4) + ")"@,
        }
    }

    /// The name of the operation.
    pub fn to_text(&self) -> (s: String)
        ensures
            s@ == self.spec_text(),
    {
        let mut out: Vec<char> = Vec::new();
        match self {
            ArpOperation::Request => push_str(&mut out, "Request"),
            ArpOperation::Reply => push_str(&mut out, "Reply"),
            ArpOperation::Unknown(v) => {
                push_str(&mut out, "Unknown (0x");
                push_hex(&mut out, u64::from(*v), 4);
                push_str(&mut out, ")");
            },
        }
        assert(out@ =~= self.spec_text());
        string_of(&out)
    }
}

impl ArpPacket {
    /// The operation, both endpoints and the header fields.
    pub open spec fn spec_summary_text(&self) -> Seq<char> {
        self.operation.spec_text() + ", "@ + ipv4_text(self.sender_ip.0@) + " ("@ + mac_text(
            self.sender_mac.0@,
        ) + ") -> "@ + ipv4_text(self.target_ip.0@) + " ("@ + mac_text(self.target_mac.0@)
            + ") [hw_type: "@ + self.hardware_type.spec_text() + ", proto_type: "@
            + self.protocol_type.spec_text() + ", hw_len: "@ + dec8(self.hardware_length)
            + ", proto_len: "@ + dec8(self.protocol_length) + "]"@
    }

    /// Appends the operation, both endpoints and the header fields.
    fn push_summary_text(&self, out: &mut Vec<char>)
        ensures
            final(out)@ == old(out)@ + self.spec_summary_text(),
    {
        push_string(out, &self.operation.to_text());
        push_str(out, ", ");
        push_string(out, &self.sender_ip.to_text());
        push_str(out, " (");
        push_string(out, &self.sender_mac.to_text());
        push_str(out, ") -> ");
        push_string(out, &self.target_ip.to_text());
        push_str(out, " (");
        push_string(out, &self.target_mac.to_text());
        push_str(out, ") [hw_type: ");
        push_string(out, &self.hardware_type.to_text());
        push_str(out, ", proto_type: ");
        push_string(out, &self.protocol_type.to_text());
        push_str(out, ", hw_len: ");
        push_dec(out, u64::from(self.hardware_length));
        push_str(out, ", proto_len: ");
        push_dec(out, u64::from(self.protocol_length));
        push_str(out, "]");
        assert(final(out)@ =~= old(out)@ + self.spec_summary_text());
    }

    /// The one-line text of the packet, as `Display` writes it.
    pub open spec fn spec_text(&self) -> Seq<char> {
        "ARP: "@ + self.spec_summary_text()
    }

    /// The one-line text of the packet.
    pub fn to_text(&self) -> (s: String)
        ensures
            s@ == self.spec_text(),
    {
        let mut out: Vec<char> = Vec::new();
        push_str(&mut out, "ARP: ");
        self.push_summary_text(&mut out);
        assert(out@ =~= self.spec_text());
        string_of(&out)
    }
}

impl PacketDetail for ArpPacket {
    open spec fn spec_summary(&self) -> Seq<char> {
        self.spec_summary_text()
    }

    open spec fn spec_details(&self) -> Seq<Seq<char>> {
        seq![
            "Hardware Type: "@ + self.hardware_type.spec_text(),
            "Protocol Type: "@ + self.protocol_type.spec_text(),
            "Hardware Length: "@ + dec8(self.hardware_length),
            "Protocol Length: "@ + dec8(self.protocol_length),
            "Operation: "@ + self.operation.spec_text(),
            "Sender MAC: "@ + mac_text(self.sender_mac.0@),
            "Sender IP: "@ + ipv4_text(self.sender_ip.0@),
            "Target MAC: "@ + mac_text(self.target_mac.0@),
            "Target IP: "@ + ipv4_text(self.target_ip.0@),
        ]
    }

    open spec fn spec_slug(&self) -> Seq<char> {
        "ARP"@
    }

    open spec fn spec_name(&self) -> Seq<char> {
        "Address Resolution Protocol"@
    }

    open spec fn spec_source(&self) -> Option<Seq<char>> {
        None
    }

    open spec fn spec_destination(&self) -> Option<Seq<char>> {
        None
    }

    open spec fn spec_length(&self) -> nat {
        ARP_PACKET_LEN as nat
    }

    fn summary(&self) -> (s: String) {
        let mut out: Vec<char> = Vec::new();
        self.push_summary_text(&mut out);
        assert(out@ =~= self.spec_summary());
        string_of(&out)
    }

    fn details(&self) -> (d: Vec<String>) {
        proof {
            reveal_strlit("");
        }
        let mut d: Vec<String> = Vec::new();
        push_text_between(&mut d, "Hardware Type: ", &self.hardware_type.to_text(), "");
        push_text_between(&mut d, "Protocol Type: ", &self.protocol_type.to_text(), "");
        push_dec_line(&mut d, "Hardware Length: ", u64::from(self.hardware_length), "");
        push_dec_line(&mut d, "Protocol Length: ", u64::from(self.protocol_length), "");
        push_text_between(&mut d, "Operation: ", &self.operation.to_text(), "");
        push_text_between(&mut d, "Sender MAC: ", &self.sender_mac.to_text(), "");
        push_text_between(&mut d, "Sender IP: ", &self.sender_ip.to_text(), "");
        push_text_between(&mut d, "Target MAC: ", &self.target_mac.to_text(), "");
        push_text_between(&mut d, "Target IP: ", &self.target_ip.to_text(), "");
        assert(strings_view(d@) =~= self.spec_details());
        d
    }

    fn slug(&self) -> (s: &'static str) {
        "ARP"
    }

    fn name(&self) -> (s: &'static str) {
        "Address Resolution Protocol"
    }

    fn source(&self) -> (s: Option<String>) {
        None
    }

    fn destination(&self) -> (s: Option<String>) {
        None
    }

    fn length(&self) -> (n: usize) {
        ARP_PACKET_LEN
    }
}

} // verus!
