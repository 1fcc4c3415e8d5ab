//! ICMP packet parsing.
use vstd::prelude::*;
use crate::bytes::{be16_at, be32_at, read_be16, read_be32, seq_len};
use super::Protocol;
use crate::ethernet::packet_detail::{
    push_dec_line, push_hex_line, push_line, PacketDetail,
};
use crate::bytes::len_u64;
use crate::text::{
    dec16, dec8, decimal, hex16, hex32, hex8, push_dec, push_hex, push_str, push_string, string_of,
    strings_view,
};

verus! {

/// An ICMP packet.
#[derive(Debug, Clone, PartialEq, Eq)]
pub struct IcmpPacket<'a> {
    /// The type of the ICMP packet. 8 bits.
    pub icmp_type: IcmpType,
    /// Code of the ICMP packet.
    pub code: u8,
    /// Checksum of the ICMP packet.
    pub checksum: u16,
    /// The rest of the header (varies by type and code).
    pub rest_of_header: u32,
    /// The raw data field or leftover data of the ICMP packet.
    pub data: &'a [u8],
    /// The raw ICMP packet.
    pub raw: &'a [u8],
}

/// Available ICMP types.
#[derive(Debug, Clone, Copy, PartialEq, Eq)]
pub enum IcmpType {
    /// Echo Reply
    EchoReply,
    /// Destination Unreachable
    DestinationUnreachable,
    /// Echo Request
    EchoRequest,
    /// Time Exceeded
    TimeExceeded,
    /// Parameter Problem
    ParameterProblem,
    /// Unknown or unsupported ICMP type.
    Unknown(u8),
}

/// Possible errors when parsing a ICMP packet.
#[derive(Debug, Clone, Copy, PartialEq, Eq)]
pub enum ParseIcmpError {
    /// The packet length is less than 8 bytes.
    PacketTooShort(usize),
}

impl IcmpType {
    /// The type that a raw type number denotes.
    pub open spec fn spec_from(v: u8) -> IcmpType {
        if v == 0 {
            IcmpType::EchoReply
        } else if v == 3 {
            IcmpType::DestinationUnreachable
        } else if v == 8 {
            IcmpType::EchoRequest
        } else if v == 11 {
            IcmpType::TimeExceeded
        } else if v == 12 {
            IcmpType::ParameterProblem
        } else {
            IcmpType::Unknown(v)
        }
    }

    /// The raw type number of a type.
    pub open spec fn spec_number(self) -> u8 {
        match self {
            IcmpType::EchoReply => 0,
            IcmpType::DestinationUnreachable => 3,
            IcmpType::EchoRequest => 8,
            IcmpType::TimeExceeded => 11,
            IcmpType::ParameterProblem => 12,
            IcmpType::Unknown(v) => v,
        }
    }

    /// Converts a raw type number; numbers without a name become `Unknown`.
    pub fn from_primitive(v: u8) -> (t: IcmpType)
        ensures
            t == Self::spec_from(v),
    {
        match v {
            0 => IcmpType::EchoReply,
            3 => IcmpType::DestinationUnreachable,
            8 => IcmpType::EchoRequest,
            11 => IcmpType::TimeExceeded,
            12 => IcmpType::ParameterProblem,
            _ => IcmpType::Unknown(v),
        }
    }

    /// The raw type number.
    pub fn to_primitive(self) -> (v: u8)
        ensures
            v == self.spec_number(),
    {
        match self {
            IcmpType::EchoReply => 0,
            IcmpType::DestinationUnreachable => 3,
            IcmpType::EchoRequest => 8,
            IcmpType::TimeExceeded => 11,
            IcmpType::ParameterProblem => 12,
            IcmpType::Unknown(v) => v,
        }
    }

    /// Converting a raw type number and back gives the number again.
    pub proof fn lemma_number_roundtrip(v: u8)
        ensures
            Self::spec_from(v).spec_number() == v,
    {
    }
}

impl<'a> IcmpPacket<'a> {
    /// Why a byte sequence is not an ICMP packet, if it is not one.
    pub open spec fn spec_error(raw: Seq<u8>) -> Option<ParseIcmpError> {
        if raw.len() < 8 {
            Some(ParseIcmpError::PacketTooShort(seq_len(raw)))
        } else {
            None
        }
    }

    /// The packet holds exactly the fields that `raw` encodes.
    pub open spec fn decoded_from(self, raw: Seq<u8>) -> bool {
        &&& raw.len() >= 8
        &&& self.icmp_type == IcmpType::spec_from(raw[0])
        &&& self.code == raw[1]
        &&& self.checksum == be16_at(raw, 2)
        &&& self.rest_of_header == be32_at(raw, 4)
        &&& self.data@ == raw.skip(8)
        &&& self.raw@ == raw
    }

    /// Create a new ICMP packet from raw data.
    ///
    /// # Errors
    ///
    /// See [`ParseIcmpError`].
    pub fn new(raw: &'a [u8]) -> (res: Result<Self, ParseIcmpError>)
        ensures
            res is Ok <==> Self::spec_error(raw@) is None,
            res matches Err(e) ==> Self::spec_error(raw@) == Some(e),
            res matches Ok(p) ==> p.decoded_from(raw@),
    {
        if raw.len() < 8 {
            return Err(ParseIcmpError::PacketTooShort(raw.len()));
        }
        let (_header, data) = raw.split_at(8);
        let icmp_type = IcmpType::from_primitive(raw[0]);
        let code = raw[1];
        let checksum = read_be16(raw, 2);
        let rest_of_header = read_be32(raw, 4);
        Ok(Self { icmp_type, code, checksum, rest_of_header, data, raw })
    }
}

/// The IPv4 protocol number of this packet type.
pub const PROTOCOL_NUMBER: u8 = 0x01;

impl Protocol for IcmpPacket<'_> {
    const PROTOCOL: u8 = PROTOCOL_NUMBER;
}

impl IcmpType {
    /// The name of the type, as `Display` writes it.
    pub open spec fn spec_text(self) -> Seq<char> {
        match self {
            IcmpType::EchoReply => "Echo Reply"@,
            IcmpType::DestinationUnreachable => "Destination Unreachable"@,
            IcmpType::EchoRequest => "Echo Request"@,
            IcmpType::TimeExceeded => "Time Exceeded"@,
            IcmpType::ParameterProblem => "Parameter Problem"@,
            IcmpType::Unknown(t) => "Unknown (0x"@ + hex8(t, 2) + ")"@,
        }
    }

    /// The name of the type.
    pub fn to_text(&self) -> (s: String)
        ensures
            s@ == self.spec_text(),
    {
        let mut out: Vec<char> = Vec::new();
        match self {
            IcmpType::EchoReply => push_str(&mut out, "Echo Reply"),
            IcmpType::DestinationUnreachable => push_str(&mut out, "Destination Unreachable"),
            IcmpType::EchoRequest => push_str(&mut out, "Echo Request"),
            IcmpType::TimeExceeded => push_str(&mut out, "Time Exceeded"),
            IcmpType::ParameterProblem => push_str(&mut out, "Parameter Problem"),
            IcmpType::Unknown(t) => {
                push_str(&mut out, "Unknown (0x");
                push_hex(&mut out, u64::from(*t), 2);
                push_str(&mut out, ")");
            },
        }
        assert(out@ =~= self.spec_text());
        string_of(&out)
    }
}

impl<'a> IcmpPacket<'a> {
    /// The one-line text of the packet, as `Display` writes it.
    pub open spec fn spec_text(&self) -> Seq<char> {
        "ICMP: "@ + self.icmp_type.spec_text() + " ("@ + dec8(self.code)
            + "), checksum "@ + dec16(self.checksum) + ", data "@ + decimal(
            self.data@.len(),
        ) + " bytes"@
    }

    /// The one-line text of the packet.
    pub fn to_text(&self) -> (s: String)
        ensures
            s@ == self.spec_text(),
    {
        let mut out: Vec<char> = Vec::new();
        push_str(&mut out, "ICMP: ");
        push_string(&mut out, &self.icmp_type.to_text());
        push_str(&mut out, " (");
        push_dec(&mut out, u64::from(self.code));
        push_str(&mut out, "), checksum ");
        push_dec(&mut out, u64::from(self.checksum));
        push_str(&mut out, ", data ");
        push_dec(&mut out, len_u64(self.data.len()));
        push_str(&mut out, " bytes");
        assert(out@ =~= self.spec_text());
        string_of(&out)
    }
}

impl PacketDetail for IcmpPacket<'_> {
    open spec fn spec_summary(&self) -> Seq<char> {
        self.icmp_type.spec_text() + " (Code: "@ + dec8(self.code) + ")"@
    }

    open spec fn spec_details(&self) -> Seq<Seq<char>> {
        seq![
            "Type: "@ + self.icmp_type.spec_text() + " ("@ + dec8(self.icmp_type.spec_number()) + ")"@,
            "Code: "@ + dec8(self.code),
            "Checksum: 0x"@ + hex16(self.checksum, 4),
            "Rest of Header: 0x"@ + hex32(self.rest_of_header, 8),
            "Data Length: "@ + decimal(self.data@.len()) + " bytes"@,
        ]
    }

    open spec fn spec_slug(&self) -> Seq<char> {
        "ICMP"@
    }

    open spec fn spec_name(&self) -> Seq<char> {
        "Internet Control Message Protocol"@
    }

    open spec fn spec_source(&self) -> Option<Seq<char>> {
        None
    }

    open spec fn spec_destination(&self) -> Option<Seq<char>> {
        None
    }

    open spec fn spec_length(&self) -> nat {
        self.raw@.len()
    }

    fn summary(&self) -> (s: String) {
        let mut out: Vec<char> = Vec::new();
        push_string(&mut out, &self.icmp_type.to_text());
        push_str(&mut out, " (Code: ");
        push_dec(&mut out, u64::from(self.code));
        push_str(&mut out, ")");
        assert(out@ =~= self.spec_summary());
        string_of(&out)
    }

    fn details(&self) -> (d: Vec<String>) {
        let mut d: Vec<String> = Vec::new();
        proof {
            reveal_strlit("");
        }
        let mut l: Vec<char> = Vec::new();
        push_str(&mut l, "Type: ");
        push_string(&mut l, &self.icmp_type.to_text());
        push_str(&mut l, " (");
        push_dec(&mut l, u64::from(self.icmp_type.to_primitive()));
        push_str(&mut l, ")");
        assert(l@ =~= "Type: "@ + self.icmp_type.spec_text() + " ("@ + dec8(
            self.icmp_type.spec_number(),
        ) + ")"@);
        push_line(&mut d, &l);
        push_dec_line(&mut d, "Code: ", u64::from(self.code), "");
        push_hex_line(&mut d, "Checksum: 0x", u64::from(self.checksum), 4, "");
        push_hex_line(&mut d, "Rest of Header: 0x", u64::from(self.rest_of_header), 8, "");
        push_dec_line(&mut d, "Data Length: ", len_u64(self.data.len()), " bytes");
        assert(strings_view(d@) =~= self.spec_details());
        d
    }

    fn slug(&self) -> (s: &'static str) {
        "ICMP"
    }

    fn name(&self) -> (s: &'static str) {
        "Internet Control Message Protocol"
    }

    fn source(&self) -> (s: Option<String>) {
        None
    }

    fn destination(&self) -> (s: Option<String>) {
        None
    }

    fn length(&self) -> (n: usize) {
        self.raw.len()
    }
}

} // verus!
