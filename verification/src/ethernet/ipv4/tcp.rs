//! TCP packet parsing.
use vstd::prelude::*;
use crate::bytes::{be16_at, be32_at, read_be16, read_be32, split_range, words_to_bytes};
use super::Protocol;
use crate::bytes::len_u64;
use crate::ethernet::packet_detail::{
    push_bool_line, push_dec_line, push_hex_line, push_text_between, PacketDetail,
};
use crate::text::{
    bool_text, dec16, dec32, dec8, decimal, hex16, push_dec, push_radix_padded, push_str,
    radix_padded, string_of, strings_view,
};

pub mod http;

use http::{spec_parse_http, HttpPacket};

verus! {

/// A TCP packet.
#[derive(Debug, Clone, PartialEq, Eq)]
pub struct TcpPacket<'a> {
    /// Source port.
    pub src_port: u16,
    /// Destination port.
    pub dest_port: u16,
    /// Sequence number.
    pub sequence_number: u32,
    /// Acknowledgment number.
    pub acknowledgment_number: u32,
    /// Data offset (header length). 4 bits.
    pub data_offset: u8,
    /// Flags. 8 bits.
    pub flags: TcpPacketFlags,
    /// Receive window size.
    pub window_size: u16,
    /// Checksum.
    pub checksum: u16,
    /// Urgent pointer.
    pub urgent_pointer: u16,
    /// Options. Length varies from 0 to 40 bytes.
    pub options: &'a [u8],
    /// The inner packet: HTTP when the data reads as an HTTP message.
    pub inner: TcpPacketInner<'a>,
    /// The raw data field of the TCP packet.
    pub data: &'a [u8],
    /// The raw TCP packet.
    pub raw: &'a [u8],
}

/// Flags in a TCP packet.
#[derive(Debug, Clone, Copy, PartialEq, Eq)]
pub struct TcpPacketFlags {
    /// Congestion window reduced (CWR) flag.
    pub cwr: bool,
    /// ECN-Echo flag.
    pub ece: bool,
    /// Urgent pointer field significant (URG) flag.
    pub urg: bool,
    /// Acknowledgment field significant (ACK) flag.
    pub ack: bool,
    /// Push function (PSH) flag.
    pub psh: bool,
    /// Reset the connection (RST) flag.
    pub rst: bool,
    /// Synchronize sequence numbers (SYN) flag.
    pub syn: bool,
    /// No more data from sender (FIN) flag.
    pub fin: bool,
}

/// Available inner packet types for TCP packets.
#[derive(Debug, Clone, PartialEq, Eq)]
pub enum TcpPacketInner<'a> {
    /// An HTTP request or response.
    Http(HttpPacket<'a>),
    /// Data of an unknown or unsupported protocol.
    Unknown(UnknownTcpPacket<'a>),
}

/// The data of a TCP packet that is not an HTTP message.
#[derive(Debug, Clone, PartialEq, Eq)]
pub struct UnknownTcpPacket<'a> {
    /// The raw data field of the TCP packet.
    pub data: &'a [u8],
}

/// Possible errors when parsing a TCP packet.
#[derive(Debug, Clone, Copy, PartialEq, Eq)]
pub enum ParseTcpError {
    /// The packet is shorter than the fixed 20-byte TCP header.
    PacketTooShort,
    /// The data offset is invalid (less than 5 or greater than 15).
    InvalidDataOffset,
}

impl TcpPacketFlags {
    /// The flags that a flag byte encodes, most significant bit first.
    pub open spec fn spec_from_byte(byte: u8) -> TcpPacketFlags {
        TcpPacketFlags {
            cwr: byte & 0b1000_0000 != 0,
            ece: byte & 0b0100_0000 != 0,
            urg: byte & 0b0010_0000 != 0,
            ack: byte & 0b0001_0000 != 0,
            psh: byte & 0b0000_1000 != 0,
            rst: byte & 0b0000_0100 != 0,
            syn: byte & 0b0000_0010 != 0,
            fin: byte & 0b0000_0001 != 0,
        }
    }

    /// The flag byte that encodes these flags.
    pub open spec fn spec_to_byte(self) -> u8 {
        (if self.cwr { 128u8 } else { 0u8 }) | (if self.ece { 64u8 } else { 0u8 }) | (if self.urg {
            32u8
        } else {
            0u8
        }) | (if self.ack { 16u8 } else { 0u8 }) | (if self.psh { 8u8 } else { 0u8 }) | (if self.rst {
            4u8
        } else {
            0u8
        }) | (if self.syn { 2u8 } else { 0u8 }) | (if self.fin { 1u8 } else { 0u8 })
    }

    /// Decoding a flag byte and encoding the flags again gives the same byte.
    pub proof fn lemma_byte_roundtrip(byte: u8)
        ensures
            Self::spec_from_byte(byte).spec_to_byte() == byte,
    {
        assert(((if byte & 128u8 != 0 { 128u8 } else { 0u8 }) | (if byte & 64u8 != 0 { 64u8 } else { 0u8 })
            | (if byte & 32u8 != 0 { 32u8 } else { 0u8 }) | (if byte & 16u8 != 0 { 16u8 } else { 0u8 })
            | (if byte & 8u8 != 0 { 8u8 } else { 0u8 }) | (if byte & 4u8 != 0 { 4u8 } else { 0u8 })
            | (if byte & 2u8 != 0 { 2u8 } else { 0u8 }) | (if byte & 1u8 != 0 { 1u8 } else { 0u8 }))
            == byte) by (bit_vector);
    }

    /// The flag byte that encodes these flags, most significant bit first.
    pub fn to_byte(&self) -> (b: u8)
        ensures
            b == self.spec_to_byte(),
    {
        (if self.cwr { 128u8 } else { 0u8 }) | (if self.ece { 64u8 } else { 0u8 }) | (if self.urg {
            32u8
        } else {
            0u8
        }) | (if self.ack { 16u8 } else { 0u8 }) | (if self.psh { 8u8 } else { 0u8 }) | (if self.rst {
            4u8
        } else {
            0u8
        }) | (if self.syn { 2u8 } else { 0u8 }) | (if self.fin { 1u8 } else { 0u8 })
    }
}

impl From<u8> for TcpPacketFlags {
    fn from(byte: u8) -> (r: Self) {
        Self {
            cwr: byte & 0b1000_0000 != 0,
            ece: byte & 0b0100_0000 != 0,
            urg: byte & 0b0010_0000 != 0,
            ack: byte & 0b0001_0000 != 0,
            psh: byte & 0b0000_1000 != 0,
            rst: byte & 0b0000_0100 != 0,
            syn: byte & 0b0000_0010 != 0,
            fin: byte & 0b0000_0001 != 0,
        }
    }
}

impl vstd::std_specs::convert::FromSpecImpl<u8> for TcpPacketFlags {
    open spec fn obeys_from_spec() -> bool {
        true
    }

    open spec fn from_spec(byte: u8) -> TcpPacketFlags {
        TcpPacketFlags::spec_from_byte(byte)
    }
}

impl Default for TcpPacketFlags {
    fn default() -> (r: Self)
        ensures
            r == TcpPacketFlags::spec_from_byte(0),
    {
        assert(0u8 & 128u8 == 0 && 0u8 & 64u8 == 0 && 0u8 & 32u8 == 0 && 0u8 & 16u8 == 0 && 0u8 & 8u8
            == 0 && 0u8 & 4u8 == 0 && 0u8 & 2u8 == 0 && 0u8 & 1u8 == 0) by (bit_vector);
        Self {
            cwr: false,
            ece: false,
            urg: false,
            ack: false,
            psh: false,
            rst: false,
            syn: false,
            fin: false,
        }
    }
}

impl<'a> TcpPacket<'a> {
    /// Why a byte sequence is not a TCP packet, if it is not one.
    pub open spec fn spec_error(raw: Seq<u8>) -> Option<ParseTcpError> {
        if raw.len() < 20 {
            Some(ParseTcpError::PacketTooShort)
        } else if raw[12] / 16 < 5 {
            Some(ParseTcpError::InvalidDataOffset)
        } else {
            None
        }
    }

    /// The number of header bytes present: the data offset in bytes, cut at the end of a
    /// truncated capture.
    pub open spec fn spec_header_len(raw: Seq<u8>) -> int {
        let hlen = (raw[12] / 16) * 4;
        if hlen <= raw.len() {
            hlen
        } else {
            raw.len() as int
        }
    }

    /// The packet holds exactly the fields that `raw` encodes.
    pub open spec fn decoded_from(self, raw: Seq<u8>) -> bool {
        let hlen = Self::spec_header_len(raw);
        &&& raw.len() >= 20
        &&& self.src_port == be16_at(raw, 0)
        &&& self.dest_port == be16_at(raw, 2)
        &&& self.sequence_number == be32_at(raw, 4)
        &&& self.acknowledgment_number == be32_at(raw, 8)
        &&& self.data_offset == raw[12] / 16
        &&& self.flags == TcpPacketFlags::spec_from_byte(raw[13])
        &&& self.window_size == be16_at(raw, 14)
        &&& self.checksum == be16_at(raw, 16)
        &&& self.urgent_pointer == be16_at(raw, 18)
        &&& self.options@ == raw.subrange(20, hlen)
        &&& self.data@ == raw.skip(hlen)
        &&& self.raw@ == raw
        &&& match spec_parse_http(raw.skip(hlen)) {
            Ok(m) => self.inner matches TcpPacketInner::Http(h) && h.holds(m, raw.skip(hlen)),
            Err(_) => self.inner matches TcpPacketInner::Unknown(u) && u.data@ == raw.skip(hlen),
        }
    }

    /// Create a new TCP packet from raw data. A header whose data offset runs past the
    /// captured bytes keeps the options that were captured, and no data. Data that reads as
    /// an HTTP message becomes an HTTP inner packet; any other data an unknown one.
    ///
    /// # Errors
    ///
    /// See [`ParseTcpError`].
    pub fn new(raw: &'a [u8]) -> (res: Result<Self, ParseTcpError>)
        ensures
            res is Ok <==> Self::spec_error(raw@) is None,
            res matches Err(e) ==> Self::spec_error(raw@) == Some(e),
            res matches Ok(p) ==> p.decoded_from(raw@),
    {
        if raw.len() < 20 {
            return Err(ParseTcpError::PacketTooShort);
        }
        let src_port = read_be16(raw, 0);
        let dest_port = read_be16(raw, 2);
        let sequence_number = read_be32(raw, 4);
        let acknowledgment_number = read_be32(raw, 8);
        let data_offset = raw[12] / 16;
        if data_offset < 5 || data_offset > 15 {
            return Err(ParseTcpError::InvalidDataOffset);
        }
        let flags = TcpPacketFlags::from(raw[13]);
        let window_size = read_be16(raw, 14);
        let checksum = read_be16(raw, 16);
        let urgent_pointer = read_be16(raw, 18);
        let header_length_bytes = if words_to_bytes(data_offset) <= raw.len() {
            words_to_bytes(data_offset)
        } else {
            raw.len()
        };
        let (options, data) = split_range(raw, 20, header_length_bytes);
        let inner = match HttpPacket::new(data) {
            Ok(h) => TcpPacketInner::Http(h),
            Err(_) => TcpPacketInner::Unknown(UnknownTcpPacket { data }),
        };
        Ok(Self {
            src_port,
            dest_port,
            sequence_number,
            acknowledgment_number,
            data_offset,
            flags,
            window_size,
            checksum,
            urgent_pointer,
            options,
            inner,
            data,
            raw,
        })
    }
}

/// The IPv4 protocol number of this packet type.
pub const PROTOCOL_NUMBER: u8 = 0x06;

impl Protocol for TcpPacket<'_> {
    const PROTOCOL: u8 = PROTOCOL_NUMBER;
}

impl TcpPacketFlags {
    /// The flag byte in binary, as `Display` writes it (`0b` and eight digits).
    pub open spec fn spec_text(self) -> Seq<char> {
        "0b"@ + radix_padded(self.spec_to_byte() as nat, 2, 8)
    }

    /// The flag byte in binary.
    pub fn to_text(&self) -> (s: String)
        ensures
            s@ == self.spec_text(),
    {
        let mut out: Vec<char> = Vec::new();
        push_str(&mut out, "0b");
        push_radix_padded(&mut out, u64::from(self.to_byte()), 2, 8);
        assert(out@ =~= self.spec_text());
        string_of(&out)
    }
}

impl<'a> TcpPacket<'a> {
    /// The one-line text of the packet, as `Display` writes it.
    pub open spec fn spec_text(&self) -> Seq<char> {
        "TCP: #"@ + dec32(self.sequence_number) + ", port "@ + dec16(self.src_port) + " to "@
            + dec16(self.dest_port) + ", data "@ + decimal(self.data@.len()) + " bytes"@
    }

    /// The one-line text of the packet.
    pub fn to_text(&self) -> (s: String)
        ensures
            s@ == self.spec_text(),
    {
        let mut out: Vec<char> = Vec::new();
        push_str(&mut out, "TCP: #");
        push_dec(&mut out, u64::from(self.sequence_number));
        push_str(&mut out, ", port ");
        push_dec(&mut out, u64::from(self.src_port));
        push_str(&mut out, " to ");
        push_dec(&mut out, u64::from(self.dest_port));
        push_str(&mut out, ", data ");
        push_dec(&mut out, len_u64(self.data.len()));
        push_str(&mut out, " bytes");
        assert(out@ =~= self.spec_text());
        string_of(&out)
    }
}

impl PacketDetail for TcpPacket<'_> {
    open spec fn spec_summary(&self) -> Seq<char> {
        "#"@ + dec32(self.sequence_number) + ", "@ + decimal(self.data@.len())
            + " bytes of data from :"@ + dec16(self.src_port) + " to :"@ + dec16(self.dest_port)
    }

    open spec fn spec_details(&self) -> Seq<Seq<char>> {
        seq![
            "Source Port: "@ + dec16(self.src_port),
            "Destination Port: "@ + dec16(self.dest_port),
            "Sequence Number: "@ + dec32(self.sequence_number),
            "Acknowledgment Number: "@ + dec32(self.acknowledgment_number),
            "Data Offset: "@ + dec8(self.data_offset) + " ("@ + decimal(self.data_offset as nat * 4) + " bytes)"@,
            "Flags: "@ + self.flags.spec_text(),
            "  CWR: "@ + bool_text(self.flags.cwr),
            "  ECE: "@ + bool_text(self.flags.ece),
            "  URG: "@ + bool_text(self.flags.urg),
            "  ACK: "@ + bool_text(self.flags.ack),
            "  PSH: "@ + bool_text(self.flags.psh),
            "  RST: "@ + bool_text(self.flags.rst),
            "  SYN: "@ + bool_text(self.flags.syn),
            "  FIN: "@ + bool_text(self.flags.fin),
            "Window Size: "@ + dec16(self.window_size),
            "Checksum: 0x"@ + hex16(self.checksum, 4),
            "Urgent Pointer: "@ + dec16(self.urgent_pointer),
            "Options Length: "@ + decimal(self.options@.len()) + " bytes"@,
            "Data Length: "@ + decimal(self.data@.len()) + " bytes"@,
        ]
    }

    open spec fn spec_slug(&self) -> Seq<char> {
        "TCP"@
    }

    open spec fn spec_name(&self) -> Seq<char> {
        "Transmission Control Protocol"@
    }

    open spec fn spec_source(&self) -> Option<Seq<char>> {
        None
    }

    open spec fn spec_destination(&self) -> Option<Seq<char>> {
        None
    }

    open spec fn spec_length(&self) -> nat {
        self.raw@.len()
    }

    fn summary(&self) -> (s: String) {
        let mut out: Vec<char> = Vec::new();
        push_str(&mut out, "#");
        push_dec(&mut out, u64::from(self.sequence_number));
        push_str(&mut out, ", ");
        push_dec(&mut out, len_u64(self.data.len()));
        push_str(&mut out, " bytes of data from :");
        push_dec(&mut out, u64::from(self.src_port));
        push_str(&mut out, " to :");
        push_dec(&mut out, u64::from(self.dest_port));
        assert(out@ =~= self.spec_summary());
        string_of(&out)
    }

    fn details(&self) -> (d: Vec<String>) {
        proof {
            reveal_strlit("");
        }
        let mut d: Vec<String> = Vec::new();
        push_dec_line(&mut d, "Source Port: ", u64::from(self.src_port), "");
        push_dec_line(&mut d, "Destination Port: ", u64::from(self.dest_port), "");
        push_dec_line(&mut d, "Sequence Number: ", u64::from(self.sequence_number), "");
        push_dec_line(&mut d, "Acknowledgment Number: ", u64::from(self.acknowledgment_number), "");
        let mut l: Vec<char> = Vec::new();
        push_str(&mut l, "Data Offset: ");
        push_dec(&mut l, u64::from(self.data_offset));
        push_str(&mut l, " (");
        push_dec(&mut l, u64::from(self.data_offset) * 4);
        push_str(&mut l, " bytes)");
        assert(l@ =~= "Data Offset: "@ + dec8(self.data_offset) + " ("@ + decimal(
            self.data_offset as nat * 4,
        ) + " bytes)"@);
        crate::ethernet::packet_detail::push_line(&mut d, &l);
        push_text_between(&mut d, "Flags: ", &self.flags.to_text(), "");
        push_bool_line(&mut d, "  CWR: ", self.flags.cwr);
        push_bool_line(&mut d, "  ECE: ", self.flags.ece);
        push_bool_line(&mut d, "  URG: ", self.flags.urg);
        push_bool_line(&mut d, "  ACK: ", self.flags.ack);
        push_bool_line(&mut d, "  PSH: ", self.flags.psh);
        push_bool_line(&mut d, "  RST: ", self.flags.rst);
        push_bool_line(&mut d, "  SYN: ", self.flags.syn);
        push_bool_line(&mut d, "  FIN: ", self.flags.fin);
        push_dec_line(&mut d, "Window Size: ", u64::from(self.window_size), "");
        push_hex_line(&mut d, "Checksum: 0x", u64::from(self.checksum), 4, "");
        push_dec_line(&mut d, "Urgent Pointer: ", u64::from(self.urgent_pointer), "");
        push_dec_line(&mut d, "Options Length: ", len_u64(self.options.len()), " bytes");
        push_dec_line(&mut d, "Data Length: ", len_u64(self.data.len()), " bytes");
        assert(strings_view(d@) =~= self.spec_details());
        d
    }

    fn slug(&self) -> (s: &'static str) {
        "TCP"
    }

    fn name(&self) -> (s: &'static str) {
        "Transmission Control Protocol"
    }

    fn source(&self) -> (s: Option<String>) {
        None
    }

    fn destination(&self) -> (s: Option<String>) {
        None
    }

    fn length(&self) -> (n: usize) {
        self.raw.len()
    }
}

} // verus!
