//! DNS packet parsing.
use vstd::prelude::*;
use crate::bytes::{be16_at, len_u64, read_be16};
use crate::ethernet::packet_detail::{
    push_bool_line, push_dec_line, push_hex_line, push_text_between, PacketDetail,
};
use crate::text::{
    bool_text, dec16, decimal, hex16, hex8, join, join_strings, push_dec, push_hex, push_str,
    push_string, string_of, strings_view,
};

verus! {

/// A DNS packet.
#[derive(Debug, Clone, PartialEq, Eq)]
pub struct DnsPacket<'a> {
    /// Transaction ID.
    pub transaction_id: u16,
    /// Flags.
    pub flags: DnsPacketFlags,
    /// Number of questions.
    pub question_count: u16,
    /// Number of answers.
    pub answer_count: u16,
    /// Number of authority resource records.
    pub authority_count: u16,
    /// Number of additional resource records.
    pub additional_count: u16,
    /// The raw data field or leftover data of the DNS packet.
    pub data: &'a [u8],
    /// The raw DNS packet.
    pub raw: &'a [u8],
}

/// Flags in a DNS packet.
#[derive(Debug, Clone, Copy, PartialEq, Eq)]
pub struct DnsPacketFlags {
    /// Is this a query (false) or a response (true)?
    pub is_response: bool,
    /// Operation code. 4 bits.
    pub opcode: DnsOperationCode,
    /// Authoritative answer.
    pub authoritative: bool,
    /// Truncation.
    pub truncated: bool,
    /// Recursion desired.
    pub recursion_desired: bool,
    /// Recursion available.
    pub recursion_available: bool,
    /// Authentic data.
    pub authentic_data: bool,
    /// Checking disabled.
    pub checking_disabled: bool,
    /// Response code. 4 bits.
    pub response_code: DnsResponseCode,
}

/// Operation codes in a DNS packet (IANA DNS parameters, OpCodes).
#[derive(Debug, Clone, Copy, PartialEq, Eq)]
pub enum DnsOperationCode {
    /// Standard query (QUERY).
    Query,
    /// Inverse query (IQUERY).
    InverseQuery,
    /// Server status request (STATUS).
    Status,
    /// Unknown or unsupported operation code.
    Unknown(u8),
}

/// Responses codes in a DNS packet (IANA DNS parameters, RCODEs).
#[derive(Debug, Clone, Copy, PartialEq, Eq)]
pub enum DnsResponseCode {
    /// No error.
    NoError,
    /// Format error.
    FormatError,
    /// Server failure.
    ServerFailure,
    /// Nonexistent domain.
    NonExistentDomain,
    /// Unknown or unsupported response code.
    Unknown(u8),
}

/// Possible errors when parsing a DNS packet.
#[derive(Debug, Clone, Copy, PartialEq, Eq)]
pub enum ParseDnsError {
    /// The packet is too short to be a valid DNS packet.
    PacketTooShort,
}

impl DnsOperationCode {
    /// The operation code that a raw number denotes.
    pub open spec fn spec_from(v: u8) -> DnsOperationCode {
        if v == 0 {
            DnsOperationCode::Query
        } else if v == 1 {
            DnsOperationCode::InverseQuery
        } else if v == 2 {
            DnsOperationCode::Status
        } else {
            DnsOperationCode::Unknown(v)
        }
    }

    /// The raw number of an operation code.
    pub open spec fn spec_number(self) -> u8 {
        match self {
            DnsOperationCode::Query => 0,
            DnsOperationCode::InverseQuery => 1,
            DnsOperationCode::Status => 2,
            DnsOperationCode::Unknown(v) => v,
        }
    }

    /// Converts a raw number; numbers without a name become `Unknown`.
    pub fn from_primitive(v: u8) -> (c: DnsOperationCode)
        ensures
            c == Self::spec_from(v),
    {
        match v {
            0 => DnsOperationCode::Query,
            1 => DnsOperationCode::InverseQuery,
            2 => DnsOperationCode::Status,
            _ => DnsOperationCode::Unknown(v),
        }
    }

    /// The raw number.
    pub fn to_primitive(self) -> (v: u8)
        ensures
            v == self.spec_number(),
    {
        match self {
            DnsOperationCode::Query => 0,
            DnsOperationCode::InverseQuery => 1,
            DnsOperationCode::Status => 2,
            DnsOperationCode::Unknown(v) => v,
        }
    }

    /// Converting a raw number and back gives the number again.
    pub proof fn lemma_number_roundtrip(v: u8)
        ensures
            Self::spec_from(v).spec_number() == v,
    {
    }
}

impl DnsResponseCode {
    /// The response code that a raw number denotes.
    pub open spec fn spec_from(v: u8) -> DnsResponseCode {
        if v == 0 {
            DnsResponseCode::NoError
        } else if v == 1 {
            DnsResponseCode::FormatError
        } else if v == 2 {
            DnsResponseCode::ServerFailure
        } else if v == 3 {
            DnsResponseCode::NonExistentDomain
        } else {
            DnsResponseCode::Unknown(v)
        }
    }

    /// The raw number of a response code.
    pub open spec fn spec_number(self) -> u8 {
        match self {
            DnsResponseCode::NoError => 0,
            DnsResponseCode::FormatError => 1,
            DnsResponseCode::ServerFailure => 2,
            DnsResponseCode::NonExistentDomain => 3,
            DnsResponseCode::Unknown(v) => v,
        }
    }

    /// Converts a raw number; numbers without a name become `Unknown`.
    pub fn from_primitive(v: u8) -> (c: DnsResponseCode)
        ensures
            c == Self::spec_from(v),
    {
        match v {
            0 => DnsResponseCode::NoError,
            1 => DnsResponseCode::FormatError,
            2 => DnsResponseCode::ServerFailure,
            3 => DnsResponseCode::NonExistentDomain,
            _ => DnsResponseCode::Unknown(v),
        }
    }

    /// The raw number.
    pub fn to_primitive(self) -> (v: u8)
        ensures
            v == self.spec_number(),
    {
        match self {
            DnsResponseCode::NoError => 0,
            DnsResponseCode::FormatError => 1,
            DnsResponseCode::ServerFailure => 2,
            DnsResponseCode::NonExistentDomain => 3,
            DnsResponseCode::Unknown(v) => v,
        }
    }

    /// Converting a raw number and back gives the number again.
    pub proof fn lemma_number_roundtrip(v: u8)
        ensures
            Self::spec_from(v).spec_number() == v,
    {
    }
}

impl DnsPacketFlags {
    /// The flags that the two flag bytes of a DNS header encode.
    pub open spec fn spec_from_bytes(bytes: [u8; 2]) -> DnsPacketFlags {
        let b0 = bytes@[0];
        let b1 = bytes@[1];
        DnsPacketFlags {
            is_response: (b0 & 0b1000_0000) != 0,
            opcode: DnsOperationCode::spec_from((b0 & 0b0111_1000) >> 3),
            authoritative: (b0 & 0b0000_0100) != 0,
            truncated: (b0 & 0b0000_0010) != 0,
            recursion_desired: (b0 & 0b0000_0001) != 0,
            recursion_available: (b1 & 0b1000_0000) != 0,
            authentic_data: (b1 & 0b0010_0000) != 0,
            checking_disabled: (b1 & 0b0001_0000) != 0,
            response_code: DnsResponseCode::spec_from(b1 & 0b0000_1111),
        }
    }
}

impl From<[u8; 2]> for DnsPacketFlags {
    fn from(bytes: [u8; 2]) -> (r: Self) {
        let b0 = bytes[0];
        let b1 = bytes[1];
        let is_response = (b0 & 0b1000_0000) != 0;
        let opcode = DnsOperationCode::from_primitive((b0 & 0b0111_1000) >> 3);
        let authoritative = (b0 & 0b0000_0100) != 0;
        let truncated = (b0 & 0b0000_0010) != 0;
        let recursion_desired = (b0 & 0b0000_0001) != 0;
        let recursion_available = (b1 & 0b1000_0000) != 0;
        let authentic_data = (b1 & 0b0010_0000) != 0;
        let checking_disabled = (b1 & 0b0001_0000) != 0;
        let response_code = DnsResponseCode::from_primitive(b1 & 0b0000_1111);
        Self {
            is_response,
            opcode,
            authoritative,
            truncated,
            recursion_desired,
            recursion_available,
            authentic_data,
            checking_disabled,
            response_code,
        }
    }
}

impl vstd::std_specs::convert::FromSpecImpl<[u8; 2]> for DnsPacketFlags {
    open spec fn obeys_from_spec() -> bool {
        true
    }

    open spec fn from_spec(bytes: [u8; 2]) -> DnsPacketFlags {
        DnsPacketFlags::spec_from_bytes(bytes)
    }
}

impl<'a> DnsPacket<'a> {
    /// Why a byte sequence is not a DNS packet, if it is not one.
    pub open spec fn spec_error(raw: Seq<u8>) -> Option<ParseDnsError> {
        if raw.len() < 12 {
            Some(ParseDnsError::PacketTooShort)
        } else {
            None
        }
    }

    /// The packet holds exactly the fields that `raw` encodes.
    pub open spec fn decoded_from(self, raw: Seq<u8>) -> bool {
        &&& raw.len() >= 12
        &&& self.transaction_id == be16_at(raw, 0)
        &&& self.flags == DnsPacketFlags::spec_from_bytes([raw[2], raw[3]])
        &&& self.question_count == be16_at(raw, 4)
        &&& self.answer_count == be16_at(raw, 6)
        &&& self.authority_count == be16_at(raw, 8)
        &&& self.additional_count == be16_at(raw, 10)
        &&& self.data@ == raw.skip(12)
        &&& self.raw@ == raw
    }

    /// Create a new DNS packet from raw data.
    ///
    /// # Errors
    ///
    /// See [`ParseDnsError`].
    pub fn new(raw: &'a [u8]) -> (res: Result<Self, ParseDnsError>)
        ensures
            res is Ok <==> Self::spec_error(raw@) is None,
            res matches Err(e) ==> Self::spec_error(raw@) == Some(e),
            res matches Ok(p) ==> p.decoded_from(raw@),
    {
        if raw.len() < 12 {
            return Err(ParseDnsError::PacketTooShort);
        }
        let (_header, data) = raw.split_at(12);
        let transaction_id = read_be16(raw, 0);
        let flags = DnsPacketFlags::from([raw[2], raw[3]]);
        let question_count = read_be16(raw, 4);
        let answer_count = read_be16(raw, 6);
        let authority_count = read_be16(raw, 8);
        let additional_count = read_be16(raw, 10);
        Ok(Self {
            transaction_id,
            flags,
            question_count,
            answer_count,
            authority_count,
            additional_count,
            data,
            raw,
        })
    }
}

impl DnsOperationCode {
    /// The name of the operation code, as `Display` writes it.
    pub open spec fn spec_text(self) -> Seq<char> {
        match self {
            DnsOperationCode::Query => "QUERY"@,
            DnsOperationCode::InverseQuery => "IQUERY"@,
            DnsOperationCode::Status => "STATUS"@,
            DnsOperationCode::Unknown(code) => "Unknown (0x"@ + hex8(code, 2) + ")"@,
        }
    }

    /// The name of the operation code.
    pub fn to_text(&self) -> (s: String)
        ensures
            s@ == self.spec_text(),
    {
        let mut out: Vec<char> = Vec::new();
        match self {
            DnsOperationCode::Query => push_str(&mut out, "QUERY"),
            DnsOperationCode::InverseQuery => push_str(&mut out, "IQUERY"),
            DnsOperationCode::Status => push_str(&mut out, "STATUS"),
            DnsOperationCode::Unknown(code) => {
                push_str(&mut out, "Unknown (0x");
                push_hex(&mut out, u64::from(*code), 2);
                push_str(&mut out, ")");
            },
        }
        assert(out@ =~= self.spec_text());
        string_of(&out)
    }
}

impl DnsResponseCode {
    /// The name of the response code, as `Display` writes it.
    pub open spec fn spec_text(self) -> Seq<char> {
        match self {
            DnsResponseCode::NoError => "NoError"@,
            DnsResponseCode::FormatError => "FormError"@,
            DnsResponseCode::ServerFailure => "ServFail"@,
            DnsResponseCode::NonExistentDomain => "NXDomain"@,
            DnsResponseCode::Unknown(code) => "Unknown (0x"@ + hex8(code, 2) + ")"@,
        }
    }

    /// The name of the response code.
    pub fn to_text(&self) -> (s: String)
        ensures
            s@ == self.spec_text(),
    {
        let mut out: Vec<char> = Vec::new();
        match self {
            DnsResponseCode::NoError => push_str(&mut out, "NoError"),
            DnsResponseCode::FormatError => push_str(&mut out, "FormError"),
            DnsResponseCode::ServerFailure => push_str(&mut out, "ServFail"),
            DnsResponseCode::NonExistentDomain => push_str(&mut out, "NXDomain"),
            DnsResponseCode::Unknown(code) => {
                push_str(&mut out, "Unknown (0x");
                push_hex(&mut out, u64::from(*code), 2);
                push_str(&mut out, ")");
            },
        }
        assert(out@ =~= self.spec_text());
        string_of(&out)
    }
}

/// `name` alone when `set`, else nothing.
pub open spec fn name_if(set: bool, name: Seq<char>) -> Seq<Seq<char>> {
    if set {
        seq![name]
    } else {
        seq![]
    }
}

/// Appends `name` to `names` when `set`.
fn push_name_if(names: &mut Vec<String>, set: bool, name: &str)
    ensures
        strings_view(final(names)@) == strings_view(old(names)@) + name_if(set, name@),
{
    let ghost before = names@;
    if set {
        names.push(name.to_owned());
        assert(strings_view(names@) =~= strings_view(before) + name_if(set, name@));
    } else {
        assert(strings_view(names@) =~= strings_view(before) + name_if(set, name@));
    }
}

impl DnsPacketFlags {
    /// The names of the set one-bit flags, in header order.
    pub open spec fn spec_set_names(self) -> Seq<Seq<char>> {
        name_if(self.is_response, "QR"@) + name_if(self.authoritative, "AA"@) + name_if(
            self.truncated,
            "TC"@,
        ) + name_if(self.recursion_desired, "RD"@) + name_if(self.recursion_available, "RA"@)
            + name_if(self.authentic_data, "AD"@) + name_if(self.checking_disabled, "CD"@)
    }

    /// The flags, as `Display` writes them: the codes, then the set flags in brackets.
    pub open spec fn spec_text(self) -> Seq<char> {
        "OPCODE="@ + self.opcode.spec_text() + " RCODE="@ + self.response_code.spec_text() + " ["@
            + join(self.spec_set_names(), ", "@) + "]"@
    }

    /// The text of the flags.
    pub fn to_text(&self) -> (s: String)
        ensures
            s@ == self.spec_text(),
    {
        let mut names: Vec<String> = Vec::new();
        assert(strings_view(names@) =~= seq![]);
        push_name_if(&mut names, self.is_response, "QR");
        push_name_if(&mut names, self.authoritative, "AA");
        push_name_if(&mut names, self.truncated, "TC");
        push_name_if(&mut names, self.recursion_desired, "RD");
        push_name_if(&mut names, self.recursion_available, "RA");
        push_name_if(&mut names, self.authentic_data, "AD");
        push_name_if(&mut names, self.checking_disabled, "CD");
        assert(strings_view(names@) =~= self.spec_set_names());
        let joined = join_strings(&names, ", ");
        let mut out: Vec<char> = Vec::new();
        push_str(&mut out, "OPCODE=");
        push_string(&mut out, &self.opcode.to_text());
        push_str(&mut out, " RCODE=");
        push_string(&mut out, &self.response_code.to_text());
        push_str(&mut out, " [");
        push_string(&mut out, &joined);
        push_str(&mut out, "]");
        assert(out@ =~= self.spec_text());
        string_of(&out)
    }
}

impl DnsPacketFlags {
    /// The detail lines of the flags: their text, then each flag and code on its own line.
    pub open spec fn spec_detail_lines(self) -> Seq<Seq<char>> {
        seq![
            "Flags: "@ + self.spec_text(),
            "  QR: "@ + (if self.is_response { "Response"@ } else { "Query"@ }),
            "  OPCODE: "@ + self.opcode.spec_text(),
            "  AA: "@ + bool_text(self.authoritative),
            "  TC: "@ + bool_text(self.truncated),
            "  RD: "@ + bool_text(self.recursion_desired),
            "  RA: "@ + bool_text(self.recursion_available),
            "  AD: "@ + bool_text(self.authentic_data),
            "  CD: "@ + bool_text(self.checking_disabled),
            "  RCODE: "@ + self.response_code.spec_text(),
        ]
    }

    /// Appends the detail lines of the flags.
    fn push_detail_lines(&self, d: &mut Vec<String>)
        ensures
            strings_view(final(d)@) == strings_view(old(d)@) + self.spec_detail_lines(),
    {
        proof {
            reveal_strlit("");
        }
        let ghost start = strings_view(d@);
        push_text_between(d, "Flags: ", &self.to_text(), "");
        let qr = if self.is_response {
            "Response".to_owned()
        } else {
            "Query".to_owned()
        };
        push_text_between(d, "  QR: ", &qr, "");
        push_text_between(d, "  OPCODE: ", &self.opcode.to_text(), "");
        push_bool_line(d, "  AA: ", self.authoritative);
        push_bool_line(d, "  TC: ", self.truncated);
        push_bool_line(d, "  RD: ", self.recursion_desired);
        push_bool_line(d, "  RA: ", self.recursion_available);
        push_bool_line(d, "  AD: ", self.authentic_data);
        push_bool_line(d, "  CD: ", self.checking_disabled);
        push_text_between(d, "  RCODE: ", &self.response_code.to_text(), "");
        assert(strings_view(d@) =~= start + self.spec_detail_lines());
    }
}

impl<'a> DnsPacket<'a> {
    /// The flags and the four counts.
    pub open spec fn spec_counts_text(&self) -> Seq<char> {
        self.flags.spec_text() + " Q:"@ + dec16(self.question_count) + " A:"@ + dec16(
            self.answer_count,
        ) + " NS:"@ + dec16(self.authority_count) + " AR:"@ + dec16(self.additional_count)
    }

    /// Appends the flags and the four counts.
    fn push_counts_text(&self, out: &mut Vec<char>)
        ensures
            final(out)@ == old(out)@ + self.spec_counts_text(),
    {
        push_string(out, &self.flags.to_text());
        push_str(out, " Q:");
        push_dec(out, u64::from(self.question_count));
        push_str(out, " A:");
        push_dec(out, u64::from(self.answer_count));
        push_str(out, " NS:");
        push_dec(out, u64::from(self.authority_count));
        push_str(out, " AR:");
        push_dec(out, u64::from(self.additional_count));
        assert(final(out)@ =~= old(out)@ + self.spec_counts_text());
    }

    /// The one-line text of the packet, as `Display` writes it.
    pub open spec fn spec_text(&self) -> Seq<char> {
        "DNS: "@ + self.spec_counts_text()
    }

    /// The one-line text of the packet.
    pub fn to_text(&self) -> (s: String)
        ensures
            s@ == self.spec_text(),
    {
        let mut out: Vec<char> = Vec::new();
        push_str(&mut out, "DNS: ");
        self.push_counts_text(&mut out);
        assert(out@ =~= self.spec_text());
        string_of(&out)
    }
}

impl PacketDetail for DnsPacket<'_> {
    open spec fn spec_summary(&self) -> Seq<char> {
        self.spec_counts_text()
    }

    open spec fn spec_details(&self) -> Seq<Seq<char>> {
        seq!["Transaction ID: 0x"@ + hex16(self.transaction_id, 4)] + self.flags.spec_detail_lines()
            + seq![
            "Questions: "@ + dec16(self.question_count),
            "Answers: "@ + dec16(self.answer_count),
            "Authority RRs: "@ + dec16(self.authority_count),
            "Additional RRs: "@ + dec16(self.additional_count),
            "Data length: "@ + decimal(self.data@.len()) + " bytes"@,
        ]
    }

    open spec fn spec_slug(&self) -> Seq<char> {
        "DNS"@
    }

    open spec fn spec_name(&self) -> Seq<char> {
        "Domain Name System"@
    }

    open spec fn spec_source(&self) -> Option<Seq<char>> {
        None
    }

    open spec fn spec_destination(&self) -> Option<Seq<char>> {
        None
    }

    open spec fn spec_length(&self) -> nat {
        self.raw@.len()
    }

    fn summary(&self) -> (s: String) {
        let mut out: Vec<char> = Vec::new();
        self.push_counts_text(&mut out);
        assert(out@ =~= self.spec_summary());
        string_of(&out)
    }

    fn details(&self) -> (d: Vec<String>) {
        proof {
            reveal_strlit("");
        }
        let mut d: Vec<String> = Vec::new();
        push_hex_line(&mut d, "Transaction ID: 0x", u64::from(self.transaction_id), 4, "");
        let ghost head = strings_view(d@);
        self.flags.push_detail_lines(&mut d);
        let ghost mid = strings_view(d@);
        push_dec_line(&mut d, "Questions: ", u64::from(self.question_count), "");
        push_dec_line(&mut d, "Answers: ", u64::from(self.answer_count), "");
        push_dec_line(&mut d, "Authority RRs: ", u64::from(self.authority_count), "");
        push_dec_line(&mut d, "Additional RRs: ", u64::from(self.additional_count), "");
        push_dec_line(&mut d, "Data length: ", len_u64(self.data.len()), " bytes");
        assert(strings_view(d@) =~= mid + seq![
            "Questions: "@ + dec16(self.question_count),
            "Answers: "@ + dec16(self.answer_count),
            "Authority RRs: "@ + dec16(self.authority_count),
            "Additional RRs: "@ + dec16(self.additional_count),
            "Data length: "@ + decimal(self.data@.len()) + " bytes"@,
        ]);
        assert(head =~= seq!["Transaction ID: 0x"@ + hex16(self.transaction_id, 4)]);
        assert(strings_view(d@) =~= self.spec_details());
        d
    }

    fn slug(&self) -> (s: &'static str) {
        "DNS"
    }

    fn name(&self) -> (s: &'static str) {
        "Domain Name System"
    }

    fn source(&self) -> (s: Option<String>) {
        None
    }

    fn destination(&self) -> (s: Option<String>) {
        None
    }

    fn length(&self) -> (n: usize) {
        self.raw.len()
    }
}

} // verus!
