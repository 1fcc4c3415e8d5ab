//! Lightway packet parsing.
use vstd::prelude::*;
use crate::bytes::len_u64;
use crate::ethernet::packet_detail::{push_line, PacketDetail};
use crate::text::{dec8, decimal, push_dec, push_str, push_upper_hex2, string_of, strings_view, upper_hex2};

verus! {

/// The tranport layer protocol Lightway runs
#[derive(Debug, Clone, Copy, PartialEq, Eq)]
pub enum LightwayMode {
    /// Run Lightway over UDP
    Udp,
    /// Run Lightway over TCP
    Tcp,
}

/// A lightway packet.
#[derive(Debug, Clone, PartialEq, Eq)]
pub struct LightwayPacket<'a> {
    /// The tranport layer where lightway runs
    pub mode: LightwayMode,
    /// Major version
    pub major_version: u8,
    /// minor version
    pub minor_version: u8,
    /// Aggressive mode
    pub aggressive: bool,
    /// The express data
    pub express_data: u8,
    /// The reserved bytes
    pub reserved: [u8; 2],
    /// The session data.
    pub data: &'a [u8],
    /// The raw data.
    pub raw: &'a [u8],
}

/// Possible errors when parsing a lightway packet.
#[derive(Debug, Clone, Copy, PartialEq, Eq)]
pub enum ParseLightwayError {
    /// The Magic number of Lightway is incorrect.
    MagicNumberIncorrect,
    /// The packet is too short to be a valid Lightway packet.
    PacketTooShort,
}

/// The two bytes that open every Lightway packet: ASCII `He`.
pub const MAGIC: [u8; 2] = [0x48, 0x65];

impl<'a> LightwayPacket<'a> {
    /// Why a byte sequence is not a Lightway packet, if it is not one.
    pub open spec fn spec_error(raw: Seq<u8>) -> Option<ParseLightwayError> {
        if raw.len() < 8 {
            Some(ParseLightwayError::PacketTooShort)
        } else if raw[0] != MAGIC[0] || raw[1] != MAGIC[1] {
            Some(ParseLightwayError::MagicNumberIncorrect)
        } else {
            None
        }
    }

    /// The packet holds exactly the fields that `raw` encodes, carried over `is_tcp`.
    pub open spec fn decoded_from(self, raw: Seq<u8>, is_tcp: bool) -> bool {
        &&& raw.len() >= 8
        &&& self.mode == (if is_tcp { LightwayMode::Tcp } else { LightwayMode::Udp })
        &&& self.major_version == raw[2]
        &&& self.minor_version == raw[3]
        &&& self.aggressive == (raw[4] == 1)
        &&& self.express_data == raw[5]
        &&& self.reserved@ == raw.subrange(6, 8)
        &&& self.data@ == raw.skip(8)
        &&& self.raw@ == raw
    }

    /// Create a new Lightway packet from raw data.
    ///
    /// # Errors
    ///
    /// See [`ParseLightwayError`].
    pub fn new(raw: &'a [u8], is_tcp: bool) -> (res: Result<Self, ParseLightwayError>)
        ensures
            res is Ok <==> Self::spec_error(raw@) is None,
            res matches Err(e) ==> Self::spec_error(raw@) == Some(e),
            res matches Ok(p) ==> p.decoded_from(raw@, is_tcp),
    {
        if raw.len() < 8 {
            return Err(ParseLightwayError::PacketTooShort);
        }
        if raw[0] != MAGIC[0] || raw[1] != MAGIC[1] {
            return Err(ParseLightwayError::MagicNumberIncorrect);
        }
        let (_header, data) = raw.split_at(8);
        let reserved = [raw[6], raw[7]];
        assert(reserved@ =~= raw@.subrange(6, 8));
        Ok(Self {
            mode: if is_tcp {
                LightwayMode::Tcp
            } else {
                LightwayMode::Udp
            },
            major_version: raw[2],
            minor_version: raw[3],
            aggressive: raw[4] == 1u8,
            express_data: raw[5],
            reserved,
            data,
            raw,
        })
    }
}

impl PacketDetail for LightwayPacket<'_> {
    open spec fn spec_summary(&self) -> Seq<char> {
        "V"@ + dec8(self.major_version) + "."@ + dec8(self.minor_version) + " "@ + (if self.aggressive {
            "aggressive"@
        } else {
            "normal"@
        }) + " express data: "@ + upper_hex2(self.express_data) + " data len: "@ + decimal(
            self.data@.len(),
        )
    }

    open spec fn spec_details(&self) -> Seq<Seq<char>> {
        seq!["Lightway Version: "@ + dec8(self.major_version) + "."@ + dec8(self.minor_version)]
    }

    open spec fn spec_slug(&self) -> Seq<char> {
        match self.mode {
            LightwayMode::Tcp => "LW-TCP"@,
            LightwayMode::Udp => "LW-UDP"@,
        }
    }

    open spec fn spec_name(&self) -> Seq<char> {
        match self.mode {
            LightwayMode::Tcp => "Lightway(TCP)"@,
            LightwayMode::Udp => "Lightway(UDP)"@,
        }
    }

    open spec fn spec_source(&self) -> Option<Seq<char>> {
        None
    }

    open spec fn spec_destination(&self) -> Option<Seq<char>> {
        None
    }

    open spec fn spec_length(&self) -> nat {
        self.raw@.len()
    }

    fn summary(&self) -> (s: String) {
        let mut out: Vec<char> = Vec::new();
        push_str(&mut out, "V");
        push_dec(&mut out, u64::from(self.major_version));
        push_str(&mut out, ".");
        push_dec(&mut out, u64::from(self.minor_version));
        push_str(&mut out, " ");
        if self.aggressive {
            push_str(&mut out, "aggressive");
        } else {
            push_str(&mut out, "normal");
        }
        push_str(&mut out, " express data: ");
        push_upper_hex2(&mut out, self.express_data);
        push_str(&mut out, " data len: ");
        push_dec(&mut out, len_u64(self.data.len()));
        assert(out@ =~= self.spec_summary());
        string_of(&out)
    }

    fn details(&self) -> (d: Vec<String>) {
        let mut d: Vec<String> = Vec::new();
        let mut l: Vec<char> = Vec::new();
        push_str(&mut l, "Lightway Version: ");
        push_dec(&mut l, u64::from(self.major_version));
        push_str(&mut l, ".");
        push_dec(&mut l, u64::from(self.minor_version));
        assert(l@ =~= "Lightway Version: "@ + dec8(self.major_version) + "."@ + dec8(self.minor_version));
        push_line(&mut d, &l);
        assert(strings_view(d@) =~= self.spec_details());
        d
    }

    fn slug(&self) -> (s: &'static str) {
        match self.mode {
            LightwayMode::Tcp => "LW-TCP",
            LightwayMode::Udp => "LW-UDP",
        }
    }

    fn name(&self) -> (s: &'static str) {
        match self.mode {
            LightwayMode::Tcp => "Lightway(TCP)",
            LightwayMode::Udp => "Lightway(UDP)",
        }
    }

    fn source(&self) -> (s: Option<String>) {
        None
    }

    fn destination(&self) -> (s: Option<String>) {
        None
    }

    fn length(&self) -> (n: usize) {
        self.raw.len()
    }
}

} // verus!
