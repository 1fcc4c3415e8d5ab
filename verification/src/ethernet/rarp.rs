//! RARP packet parsing.
use vstd::prelude::*;
use super::packet_detail::{push_text_line, PacketDetail};
use crate::text::strings_view;

verus! {

/// An RARP packet.
#[derive(Debug, Clone, PartialEq, Eq)]
pub struct RarpPacket<'a> {
    /// The raw data field of the RARP packet.
    pub data: &'a [u8],
    /// The raw RARP packet.
    pub raw: &'a [u8],
}

/// Errors when parsing an RARP packet. RARP fields are not decoded yet, so parsing never
/// fails and no value of this type is ever produced.
#[derive(Debug, Clone, Copy, PartialEq, Eq)]
pub struct ParseRarpError;

impl<'a> RarpPacket<'a> {
    /// Create a new RARP packet from raw data; the fields are not decoded yet, so every
    /// byte sequence is accepted and kept whole.
    pub fn new(raw: &'a [u8]) -> (res: Result<Self, ParseRarpError>)
        ensures
            res matches Ok(p) && p.data@ == raw@ && p.raw@ == raw@,
    {
        Ok(Self { data: raw, raw })
    }
}

impl<'a> RarpPacket<'a> {
    /// The text of the packet, as `Display` writes it.
    pub open spec fn spec_text(&self) -> Seq<char> {
        "RARP Packet"@
    }

    /// The text of the packet.
    pub fn to_text(&self) -> (s: String)
        ensures
            s@ == self.spec_text(),
    {
        "RARP Packet".to_owned()
    }
}

impl PacketDetail for RarpPacket<'_> {
    open spec fn spec_summary(&self) -> Seq<char> {
        "RARP Packet"@
    }

    open spec fn spec_details(&self) -> Seq<Seq<char>> {
        seq!["RARP parsing not yet implemented"@]
    }

    open spec fn spec_slug(&self) -> Seq<char> {
        "RARP"@
    }

    open spec fn spec_name(&self) -> Seq<char> {
        "Reverse Address Resolution Protocol"@
    }

    open spec fn spec_source(&self) -> Option<Seq<char>> {
        None
    }

    open spec fn spec_destination(&self) -> Option<Seq<char>> {
        None
    }

    open spec fn spec_length(&self) -> nat {
        self.raw@.len()
    }

    fn summary(&self) -> (s: String) {
        "RARP Packet".to_owned()
    }

    fn details(&self) -> (d: Vec<String>) {
        let mut d: Vec<String> = Vec::new();
        push_text_line(&mut d, "RARP parsing not yet implemented");
        assert(strings_view(d@) =~= self.spec_details());
        d
    }

    fn slug(&self) -> (s: &'static str) {
        "RARP"
    }

    fn name(&self) -> (s: &'static str) {
        "Reverse Address Resolution Protocol"
    }

    fn source(&self) -> (s: Option<String>) {
        None
    }

    fn destination(&self) -> (s: Option<String>) {
        None
    }

    fn length(&self) -> (n: usize) {
        self.raw.len()
    }
}

} // verus!
