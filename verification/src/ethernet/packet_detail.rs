//! Uniform text description of each protocol layer.
use vstd::prelude::*;
use crate::text::{
    bool_text, decimal, hex, push_bool, push_dec, push_hex, push_str, push_string, string_of,
    strings_view,
};

verus! {

/// Trait for formatting packet details in a uniform way.
///
/// Each text method returns exactly what its `spec_` counterpart describes.
pub trait PacketDetail {
    /// The one-line description of the packet.
    spec fn spec_summary(&self) -> Seq<char>;

    /// The detail lines of the packet.
    spec fn spec_details(&self) -> Seq<Seq<char>>;

    /// The protocol slug.
    spec fn spec_slug(&self) -> Seq<char>;

    /// The full protocol name.
    spec fn spec_name(&self) -> Seq<char>;

    /// The source address text, where the protocol has one.
    spec fn spec_source(&self) -> Option<Seq<char>>;

    /// The destination address text, where the protocol has one.
    spec fn spec_destination(&self) -> Option<Seq<char>>;

    /// The packet length in bytes.
    spec fn spec_length(&self) -> nat;

    /// Get a brief summary of the packet (one-line description).
    /// This is used in the packet list's "Summary" column.
    fn summary(&self) -> (s: String)
        ensures
            s@ == self.spec_summary(),
    ;

    /// Get detailed information about the packet as a list of lines.
    /// Each line represents a field or property of the packet.
    fn details(&self) -> (d: Vec<String>)
        ensures
            strings_view(d@) == self.spec_details(),
    ;

    /// Get the protocol slug (short identifier in uppercase).
    /// Example: "ICMP", "TCP", "IPV4", "ARP"
    fn slug(&self) -> (s: &'static str)
        ensures
            s@ == self.spec_slug(),
    ;

    /// Get the full protocol name.
    /// Example: "Internet Control Message Protocol"
    fn name(&self) -> (s: &'static str)
        ensures
            s@ == self.spec_name(),
    ;

    /// Get the source address as a string; `None` where the packet type has no source address.
    fn source(&self) -> (s: Option<String>)
        ensures
            text_opt(s) == self.spec_source(),
    ;

    /// Get the destination address as a string; `None` where the packet type has none.
    fn destination(&self) -> (s: Option<String>)
        ensures
            text_opt(s) == self.spec_destination(),
    ;

    /// Get the packet length in bytes.
    fn length(&self) -> (n: usize)
        ensures
            n == self.spec_length(),
    ;
}

/// Appends a finished line to a list of lines.
pub fn push_line(lines: &mut Vec<String>, line: &Vec<char>)
    ensures
        strings_view(final(lines)@) == strings_view(old(lines)@).push(line@),
{
    let s = string_of(line);
    let ghost before = lines@;
    lines.push(s);
    assert(strings_view(lines@) =~= strings_view(before).push(line@));
}

/// A line that is a fixed text.
pub fn push_text_line(lines: &mut Vec<String>, text: &str)
    ensures
        strings_view(final(lines)@) == strings_view(old(lines)@).push(text@),
{
    let ghost before = lines@;
    lines.push(text.to_owned());
    assert(strings_view(lines@) =~= strings_view(before).push(text@));
}

/// The characters of an optional string.
pub open spec fn text_opt(s: Option<String>) -> Option<Seq<char>> {
    match s {
        Some(t) => Some(t@),
        None => None,
    }
}

/// Appends the line `prefix`, the decimal text of `n`, `suffix`.
pub fn push_dec_line(lines: &mut Vec<String>, prefix: &str, n: u64, suffix: &str)
    ensures
        strings_view(final(lines)@) == strings_view(old(lines)@).push(
            prefix@ + decimal(n as nat) + suffix@,
        ),
{
    let mut l: Vec<char> = Vec::new();
    push_str(&mut l, prefix);
    push_dec(&mut l, n);
    push_str(&mut l, suffix);
    assert(l@ =~= prefix@ + decimal(n as nat) + suffix@);
    push_line(lines, &l);
}

/// Appends the line `prefix`, the hexadecimal text of `n` padded to `width` digits, `suffix`.
pub fn push_hex_line(lines: &mut Vec<String>, prefix: &str, n: u64, width: usize, suffix: &str)
    ensures
        strings_view(final(lines)@) == strings_view(old(lines)@).push(
            prefix@ + hex(n as nat, width as nat) + suffix@,
        ),
{
    let mut l: Vec<char> = Vec::new();
    push_str(&mut l, prefix);
    push_hex(&mut l, n, width);
    push_str(&mut l, suffix);
    assert(l@ =~= prefix@ + hex(n as nat, width as nat) + suffix@);
    push_line(lines, &l);
}

/// Appends the line `prefix`, `text`, `suffix`.
pub fn push_text_between(lines: &mut Vec<String>, prefix: &str, text: &String, suffix: &str)
    ensures
        strings_view(final(lines)@) == strings_view(old(lines)@).push(prefix@ + text@ + suffix@),
{
    let mut l: Vec<char> = Vec::new();
    push_str(&mut l, prefix);
    push_string(&mut l, text);
    push_str(&mut l, suffix);
    assert(l@ =~= prefix@ + text@ + suffix@);
    push_line(lines, &l);
}

/// Appends the line `prefix` followed by `true` or `false`.
pub fn push_bool_line(lines: &mut Vec<String>, prefix: &str, b: bool)
    ensures
        strings_view(final(lines)@) == strings_view(old(lines)@).push(prefix@ + bool_text(b)),
{
    let mut l: Vec<char> = Vec::new();
    push_str(&mut l, prefix);
    push_bool(&mut l, b);
    assert(l@ =~= prefix@ + bool_text(b));
    push_line(lines, &l);
}

} // verus!
