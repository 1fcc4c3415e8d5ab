//! IGMP packet parsing (version 2).
use vstd::prelude::*;
use crate::bytes::{be16_at, read_be16, seq_len};
use crate::ethernet::addr::Ipv4Addr;
use super::Protocol;
use crate::bytes::len_u64;
use crate::ethernet::addr::ipv4_text;
use crate::ethernet::packet_detail::{
    push_dec_line, push_hex_line, push_line, push_text_between, PacketDetail,
};
use crate::text::{dec8, decimal, hex16, hex8, push_dec, push_hex, push_str, push_string, string_of, strings_view};

verus! {

/// An IGMP packet. (Version 2)
#[derive(Debug, Clone, PartialEq, Eq)]
pub struct IgmpPacket<'a> {
    /// The type of the IGMP packet. 8 bits.
    pub igmp_type: IgmpType,
    /// Maximum response time in 1/10 second units.
    pub max_response_time: u8,
    /// Checksum of the IGMP packet.
    pub checksum: u16,
    /// Group address. 32 bits.
    pub group_address: Ipv4Addr,
    /// The raw data field or leftover data of the IGMP packet.
    pub data: &'a [u8],
    /// The raw IGMP packet.
    pub raw: &'a [u8],
}

/// Available IGMP types.
#[derive(Debug, Clone, Copy, PartialEq, Eq)]
pub enum IgmpType {
    /// Group Membership Query
    MembershipQuery,
    /// Membership Report Version 1
    MembershipReportV1,
    /// Membership Report Version 2
    MembershipReportV2,
    /// Leave Group
    LeaveGroup,
    /// Unknown or unsupported IGMP type.
    Unknown(u8),
}

/// Possible errors when parsing a IGMP packet.
#[derive(Debug, Clone, Copy, PartialEq, Eq)]
pub enum ParseIgmpError {
    /// The packet length is less than 8 bytes.
    PacketTooShort(usize),
}

impl IgmpType {
    /// The type that a raw type number denotes.
    pub open spec fn spec_from(v: u8) -> IgmpType {
        if v == 0x11 {
            IgmpType::MembershipQuery
        } else if v == 0x12 {
            IgmpType::MembershipReportV1
        } else if v == 0x16 {
            IgmpType::MembershipReportV2
        } else if v == 0x17 {
            IgmpType::LeaveGroup
        } else {
            IgmpType::Unknown(v)
        }
    }

    /// The raw type number of a type.
    pub open spec fn spec_number(self) -> u8 {
        match self {
            IgmpType::MembershipQuery => 0x11,
            IgmpType::MembershipReportV1 => 0x12,
            IgmpType::MembershipReportV2 => 0x16,
            IgmpType::LeaveGroup => 0x17,
            IgmpType::Unknown(v) => v,
        }
    }

    /// Converts a raw type number; numbers without a name become `Unknown`.
    pub fn from_primitive(v: u8) -> (t: IgmpType)
        ensures
            t == Self::spec_from(v),
    {
        match v {
            0x11 => IgmpType::MembershipQuery,
            0x12 => IgmpType::MembershipReportV1,
            0x16 => IgmpType::MembershipReportV2,
            0x17 => IgmpType::LeaveGroup,
            _ => IgmpType::Unknown(v),
        }
    }

    /// The raw type number.
    pub fn to_primitive(self) -> (v: u8)
        ensures
            v == self.spec_number(),
    {
        match self {
            IgmpType::MembershipQuery => 0x11,
            IgmpType::MembershipReportV1 => 0x12,
            IgmpType::MembershipReportV2 => 0x16,
            IgmpType::LeaveGroup => 0x17,
            IgmpType::Unknown(v) => v,
        }
    }

    /// Converting a raw type number and back gives the number again.
    pub proof fn lemma_number_roundtrip(v: u8)
        ensures
            Self::spec_from(v).spec_number() == v,
    {
    }
}

impl<'a> IgmpPacket<'a> {
    /// Why a byte sequence is not an IGMP packet, if it is not one.
    pub open spec fn spec_error(raw: Seq<u8>) -> Option<ParseIgmpError> {
        if raw.len() < 8 {
            Some(ParseIgmpError::PacketTooShort(seq_len(raw)))
        } else {
            None
        }
    }

    /// The packet holds exactly the fields that `raw` encodes.
    pub open spec fn decoded_from(self, raw: Seq<u8>) -> bool {
        &&& raw.len() >= 8
        &&& self.igmp_type == IgmpType::spec_from(raw[0])
        &&& self.max_response_time == raw[1]
        &&& self.checksum == be16_at(raw, 2)
        &&& self.group_address.0@ == raw.subrange(4, 8)
        &&& self.data@ == raw.skip(8)
        &&& self.raw@ == raw
    }

    /// Create a new IGMP packet from raw data.
    ///
    /// # Errors
    ///
    /// See [`ParseIgmpError`].
    pub fn new(raw: &'a [u8]) -> (res: Result<Self, ParseIgmpError>)
        ensures
            res is Ok <==> Self::spec_error(raw@) is None,
            res matches Err(e) ==> Self::spec_error(raw@) == Some(e),
            res matches Ok(p) ==> p.decoded_from(raw@),
    {
        if raw.len() < 8 {
            return Err(ParseIgmpError::PacketTooShort(raw.len()));
        }
        let (_header, data) = raw.split_at(8);
        let igmp_type = IgmpType::from_primitive(raw[0]);
        let max_response_time = raw[1];
        let checksum = read_be16(raw, 2);
        let group_address = Ipv4Addr::read(raw, 4);
        Ok(Self { igmp_type, max_response_time, checksum, group_address, data, raw })
    }
}

/// The IPv4 protocol number of this packet type.
pub const PROTOCOL_NUMBER: u8 = 0x02;

impl Protocol for IgmpPacket<'_> {
    const PROTOCOL: u8 = PROTOCOL_NUMBER;
}

impl IgmpType {
    /// The name of the type, as `Display` writes it.
    pub open spec fn spec_text(self) -> Seq<char> {
        match self {
            IgmpType::MembershipQuery => "Membership Query"@,
            IgmpType::MembershipReportV1 => "Membership Report V1"@,
            IgmpType::MembershipReportV2 => "Membership Report V2"@,
            IgmpType::LeaveGroup => "Leave Group"@,
            IgmpType::Unknown(t) => "Unknown (0x"@ + hex8(t, 2) + ")"@,
        }
    }

    /// The name of the type.
    pub fn to_text(&self) -> (s: String)
        ensures
            s@ == self.spec_text(),
    {
        let mut out: Vec<char> = Vec::new();
        match self {
            IgmpType::MembershipQuery => push_str(&mut out, "Membership Query"),
            IgmpType::MembershipReportV1 => push_str(&mut out, "Membership Report V1"),
            IgmpType::MembershipReportV2 => push_str(&mut out, "Membership Report V2"),
            IgmpType::LeaveGroup => push_str(&mut out, "Leave Group"),
            IgmpType::Unknown(t) => {
                push_str(&mut out, "Unknown (0x");
                push_hex(&mut out, u64::from(*t), 2);
                push_str(&mut out, ")");
            },
        }
        assert(out@ =~= self.spec_text());
        string_of(&out)
    }
}

impl<'a> IgmpPacket<'a> {
    /// The one-line text of the packet, as `Display` writes it.
    pub open spec fn spec_text(&self) -> Seq<char> {
        "IGMP: "@ + decimal(self.data@.len()) + " bytes"@
    }

    /// The one-line text of the packet.
    pub fn to_text(&self) -> (s: String)
        ensures
            s@ == self.spec_text(),
    {
        let mut out: Vec<char> = Vec::new();
        push_str(&mut out, "IGMP: ");
        push_dec(&mut out, len_u64(self.data.len()));
        push_str(&mut out, " bytes");
        assert(out@ =~= self.spec_text());
        string_of(&out)
    }

    /// `general` for a query of all groups, else `group` and the group address.
    pub open spec fn spec_group_info(&self) -> Seq<char> {
        if self.group_address.0@ == seq![0u8, 0u8, 0u8, 0u8] {
            "general"@
        } else {
            "group "@ + ipv4_text(self.group_address.0@)
        }
    }
}

impl PacketDetail for IgmpPacket<'_> {
    open spec fn spec_summary(&self) -> Seq<char> {
        self.igmp_type.spec_text() + ", "@ + self.spec_group_info()
    }

    open spec fn spec_details(&self) -> Seq<Seq<char>> {
        seq![
            "Type: "@ + self.igmp_type.spec_text() + " ("@ + dec8(self.igmp_type.spec_number()) + ")"@,
            "Max Response Time: "@ + dec8(self.max_response_time) + " (1/10 second units)"@,
            "Checksum: 0x"@ + hex16(self.checksum, 4),
            "Group Address: "@ + ipv4_text(self.group_address.0@),
            "Data Length: "@ + decimal(self.data@.len()) + " bytes"@,
        ]
    }

    open spec fn spec_slug(&self) -> Seq<char> {
        "IGMP"@
    }

    open spec fn spec_name(&self) -> Seq<char> {
        "Internet Group Management Protocol"@
    }

    open spec fn spec_source(&self) -> Option<Seq<char>> {
        None
    }

    open spec fn spec_destination(&self) -> Option<Seq<char>> {
        None
    }

    open spec fn spec_length(&self) -> nat {
        self.raw@.len()
    }

    fn summary(&self) -> (s: String) {
        let mut out: Vec<char> = Vec::new();
        push_string(&mut out, &self.igmp_type.to_text());
        push_str(&mut out, ", ");
        if self.group_address.is_unspecified() {
            push_str(&mut out, "general");
        } else {
            push_str(&mut out, "group ");
            push_string(&mut out, &self.group_address.to_text());
        }
        assert(out@ =~= self.spec_summary());
        string_of(&out)
    }

    fn details(&self) -> (d: Vec<String>) {
        proof {
            reveal_strlit("");
        }
        let mut d: Vec<String> = Vec::new();
        let mut l: Vec<char> = Vec::new();
        push_str(&mut l, "Type: ");
        push_string(&mut l, &self.igmp_type.to_text());
        push_str(&mut l, " (");
        push_dec(&mut l, u64::from(self.igmp_type.to_primitive()));
        push_str(&mut l, ")");
        assert(l@ =~= "Type: "@ + self.igmp_type.spec_text() + " ("@ + dec8(
            self.igmp_type.spec_number(),
        ) + ")"@);
        push_line(&mut d, &l);
        push_dec_line(&mut d, "Max Response Time: ", u64::from(self.max_response_time), " (1/10 second units)");
        push_hex_line(&mut d, "Checksum: 0x", u64::from(self.checksum), 4, "");
        push_text_between(&mut d, "Group Address: ", &self.group_address.to_text(), "");
        push_dec_line(&mut d, "Data Length: ", len_u64(self.data.len()), " bytes");
        assert(strings_view(d@) =~= self.spec_details());
        d
    }

    fn slug(&self) -> (s: &'static str) {
        "IGMP"
    }

    fn name(&self) -> (s: &'static str) {
        "Internet Group Management Protocol"
    }

    fn source(&self) -> (s: Option<String>) {
        None
    }

    fn destination(&self) -> (s: Option<String>) {
        None
    }

    fn length(&self) -> (n: usize) {
        self.raw.len()
    }
}

} // verus!
