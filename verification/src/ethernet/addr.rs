//! Link-layer and network-layer addresses.
use vstd::prelude::*;
use crate::bytes::be16_at;
use crate::text::{decimal, hex, join, push_dec, push_hex, push_radix_digits, push_str, radix_digits, string_of};

verus! {

/// A MAC address.
#[derive(Debug, Clone, Copy, PartialEq, Eq)]
pub struct MacAddress(pub [u8; 6]);

/// An IPv4 address, as its four octets in network order.
#[derive(Debug, Clone, Copy, PartialEq, Eq)]
pub struct Ipv4Addr(pub [u8; 4]);

/// An IPv6 address, as its sixteen octets in network order.
#[derive(Debug, Clone, Copy, PartialEq, Eq)]
pub struct Ipv6Addr(pub [u8; 16]);

impl MacAddress {
    /// Reads the six octets at `s[i..i + 6]`.
    pub fn read(s: &[u8], i: usize) -> (m: MacAddress)
        requires
            i + 6 <= s@.len(),
        ensures
            m.0@ == s@.subrange(i as int, i + 6),
    {
        let m = MacAddress([s[i], s[i + 1], s[i + 2], s[i + 3], s[i + 4], s[i + 5]]);
        assert(m.0@ =~= s@.subrange(i as int, i + 6));
        m
    }
}

impl Ipv4Addr {
    /// Reads the four octets at `s[i..i + 4]`.
    pub fn read(s: &[u8], i: usize) -> (a: Ipv4Addr)
        requires
            i + 4 <= s@.len(),
        ensures
            a.0@ == s@.subrange(i as int, i + 4),
    {
        let a = Ipv4Addr([s[i], s[i + 1], s[i + 2], s[i + 3]]);
        assert(a.0@ =~= s@.subrange(i as int, i + 4));
        a
    }

    /// Whether this is the unspecified address `0.0.0.0`.
    pub fn is_unspecified(&self) -> (r: bool)
        ensures
            r == (self.0@ =~= seq![0u8, 0u8, 0u8, 0u8]),
    {
        self.0[0] == 0 && self.0[1] == 0 && self.0[2] == 0 && self.0[3] == 0
    }
}

impl Ipv6Addr {
    /// Reads the sixteen octets at `s[i..i + 16]`.
    pub fn read(s: &[u8], i: usize) -> (a: Ipv6Addr)
        requires
            i + 16 <= s@.len(),
        ensures
            a.0@ == s@.subrange(i as int, i + 16),
    {
        let a = Ipv6Addr([
            s[i], s[i + 1], s[i + 2], s[i + 3], s[i + 4], s[i + 5], s[i + 6], s[i + 7],
            s[i + 8], s[i + 9], s[i + 10], s[i + 11], s[i + 12], s[i + 13], s[i + 14], s[i + 15],
        ]);
        assert(a.0@ =~= s@.subrange(i as int, i + 16));
        a
    }
}

/// The text of a MAC address: six two-digit lower-case hexadecimal octets separated by `:`.
pub open spec fn mac_text(m: Seq<u8>) -> Seq<char> {
    hex(m[0] as nat, 2) + ":"@ + hex(m[1] as nat, 2) + ":"@ + hex(m[2] as nat, 2) + ":"@ + hex(
        m[3] as nat,
        2,
    ) + ":"@ + hex(m[4] as nat, 2) + ":"@ + hex(m[5] as nat, 2)
}

/// The dotted-decimal text of an IPv4 address.
pub open spec fn ipv4_text(a: Seq<u8>) -> Seq<char> {
    decimal(a[0] as nat) + "."@ + decimal(a[1] as nat) + "."@ + decimal(a[2] as nat) + "."@
        + decimal(a[3] as nat)
}

/// The eight 16-bit segments of an IPv6 address.
pub open spec fn segments(a: Seq<u8>) -> Seq<u16> {
    Seq::new(8, |i: int| be16_at(a, 2 * i))
}

/// Whether an IPv6 address is IPv4-mapped (`::ffff:a.b.c.d`).
pub open spec fn is_ipv4_mapped(a: Seq<u8>) -> bool {
    (forall|i: int| 0 <= i < 10 ==> a[i] == 0) && a[10] == 0xff && a[11] == 0xff
}

/// After the first `n` segments: the first longest run of zero segments seen so far
/// (start, length) and the run being counted (start, length).
pub open spec fn zero_runs(s: Seq<u16>, n: int) -> (int, int, int, int)
    decreases n,
{
    if n <= 0 {
        (0, 0, 0, 0)
    } else {
        let (bs, bl, cs, cl) = zero_runs(s, n - 1);
        if s[n - 1] == 0 {
            let cs2 = if cl == 0 {
                n - 1
            } else {
                cs
            };
            if cl + 1 > bl {
                (cs2, cl + 1, cs2, cl + 1)
            } else {
                (bs, bl, cs2, cl + 1)
            }
        } else {
            (bs, bl, 0, 0)
        }
    }
}

/// Segments in unpadded lower-case hexadecimal, separated by `:`.
pub open spec fn hex_segments(s: Seq<u16>) -> Seq<char> {
    join(s.map_values(|x: u16| radix_digits(x as nat, 16)), ":"@)
}

/// The text of an IPv6 address as `Display` writes it: IPv4-mapped addresses as
/// `::ffff:a.b.c.d`; otherwise the first longest run of two or more zero segments becomes `::`.
pub open spec fn ipv6_text(a: Seq<u8>) -> Seq<char> {
    if is_ipv4_mapped(a) {
        "::ffff:"@ + ipv4_text(a.subrange(12, 16))
    } else {
        let s = segments(a);
        let (bs, bl, cs, cl) = zero_runs(s, 8);
        if bl > 1 {
            hex_segments(s.take(bs)) + "::"@ + hex_segments(s.skip(bs + bl))
        } else {
            hex_segments(s)
        }
    }
}

/// Appends the dotted-decimal text of four octets.
pub fn push_ipv4(out: &mut Vec<char>, a: &[u8; 4])
    ensures
        final(out)@ == old(out)@ + ipv4_text(a@),
{
    push_dec(out, a[0] as u64);
    push_str(out, ".");
    push_dec(out, a[1] as u64);
    push_str(out, ".");
    push_dec(out, a[2] as u64);
    push_str(out, ".");
    push_dec(out, a[3] as u64);
    assert(final(out)@ =~= old(out)@ + ipv4_text(a@));
}

impl MacAddress {
    /// The text of the address, as `Display` writes it.
    pub fn to_text(&self) -> (s: String)
        ensures
            s@ == mac_text(self.0@),
    {
        let mut out: Vec<char> = Vec::new();
        push_hex(&mut out, self.0[0] as u64, 2);
        push_str(&mut out, ":");
        push_hex(&mut out, self.0[1] as u64, 2);
        push_str(&mut out, ":");
        push_hex(&mut out, self.0[2] as u64, 2);
        push_str(&mut out, ":");
        push_hex(&mut out, self.0[3] as u64, 2);
        push_str(&mut out, ":");
        push_hex(&mut out, self.0[4] as u64, 2);
        push_str(&mut out, ":");
        push_hex(&mut out, self.0[5] as u64, 2);
        assert(out@ =~= mac_text(self.0@));
        string_of(&out)
    }
}

impl Ipv4Addr {
    /// The text of the address, as `Display` writes it.
    pub fn to_text(&self) -> (s: String)
        ensures
            s@ == ipv4_text(self.0@),
    {
        let mut out: Vec<char> = Vec::new();
        push_ipv4(&mut out, &self.0);
        assert(out@ =~= ipv4_text(self.0@));
        string_of(&out)
    }
}

/// Appends the segments `s[lo..hi]` in unpadded hexadecimal, separated by `:`.
fn push_hex_segments(out: &mut Vec<char>, s: &[u16; 8], lo: usize, hi: usize)
    requires
        lo <= hi <= 8,
    ensures
        final(out)@ == old(out)@ + hex_segments(s@.subrange(lo as int, hi as int)),
{
    let ghost start = out@;
    let ghost m = s@.subrange(lo as int, hi as int).map_values(|x: u16| radix_digits(x as nat, 16));
    let mut i = lo;
    while i < hi
        invariant
            lo <= i <= hi <= 8,
            m == s@.subrange(lo as int, hi as int).map_values(|x: u16| radix_digits(x as nat, 16)),
            out@ == start + join(m.take(i - lo), ":"@),
        decreases hi - i,
    {
        assert(m.take(i - lo + 1).drop_last() =~= m.take(i - lo));
        assert(m.take(i - lo + 1).last() == radix_digits(s@[i as int] as nat, 16));
        if i != lo {
            push_str(out, ":");
        } else {
            assert(m.take(1) =~= seq![m[0]]);
        }
        push_radix_digits(out, s[i] as u64, 16);
        i = i + 1;
        assert(out@ =~= start + join(m.take(i - lo), ":"@));
    }
    assert(m.take(hi - lo) =~= m);
}

impl Ipv6Addr {
    /// The eight 16-bit segments of the address.
    pub fn segments(&self) -> (r: [u16; 8])
        ensures
            r@ == segments(self.0@),
    {
        let a = &self.0;
        let r = [
            (a[0] as u16) * 256 + (a[1] as u16),
            (a[2] as u16) * 256 + (a[3] as u16),
            (a[4] as u16) * 256 + (a[5] as u16),
            (a[6] as u16) * 256 + (a[7] as u16),
            (a[8] as u16) * 256 + (a[9] as u16),
            (a[10] as u16) * 256 + (a[11] as u16),
            (a[12] as u16) * 256 + (a[13] as u16),
            (a[14] as u16) * 256 + (a[15] as u16),
        ];
        assert(r@ =~= segments(self.0@));
        r
    }

    /// The text of the address, as `Display` writes it.
    pub fn to_text(&self) -> (t: String)
        ensures
            t@ == ipv6_text(self.0@),
    {
        let a = &self.0;
        let mut out: Vec<char> = Vec::new();
        if a[0] == 0 && a[1] == 0 && a[2] == 0 && a[3] == 0 && a[4] == 0 && a[5] == 0 && a[6] == 0
            && a[7] == 0 && a[8] == 0 && a[9] == 0 && a[10] == 0xff && a[11] == 0xff {
            push_str(&mut out, "::ffff:");
            let v4 = [a[12], a[13], a[14], a[15]];
            assert(v4@ =~= self.0@.subrange(12, 16));
            push_ipv4(&mut out, &v4);
            assert(out@ =~= ipv6_text(self.0@));
            return string_of(&out);
        }
        assert(!is_ipv4_mapped(self.0@));
        let s = self.segments();
        let mut best_start: usize = 0;
        let mut best_len: usize = 0;
        let mut cur_start: usize = 0;
        let mut cur_len: usize = 0;
        let mut i: usize = 0;
        while i < 8
            invariant
                i <= 8,
                s@ == segments(self.0@),
                zero_runs(s@, i as int) == (best_start as int, best_len as int, cur_start as int, cur_len as int),
                best_len <= i,
                cur_len <= i,
                best_start + best_len <= i,
                cur_len > 0 ==> cur_start + cur_len == i,
                cur_len == 0 ==> cur_start == 0,
            decreases 8 - i,
        {
            if s[i] == 0 {
                if cur_len == 0 {
                    cur_start = i;
                }
                cur_len = cur_len + 1;
                if cur_len > best_len {
                    best_start = cur_start;
                    best_len = cur_len;
                }
            } else {
                cur_start = 0;
                cur_len = 0;
            }
            i = i + 1;
        }
        if best_len > 1 {
            push_hex_segments(&mut out, &s, 0, best_start);
            push_str(&mut out, "::");
            push_hex_segments(&mut out, &s, best_start + best_len, 8);
            assert(s@.subrange(0, best_start as int) =~= s@.take(best_start as int));
            assert(s@.subrange((best_start + best_len) as int, 8) =~= s@.skip((best_start + best_len) as int));
        } else {
            push_hex_segments(&mut out, &s, 0, 8);
            assert(s@.subrange(0, 8) =~= s@);
        }
        assert(out@ =~= ipv6_text(self.0@));
        string_of(&out)
    }
}

} // verus!
