//! Big-endian field readers over byte slices.
use vstd::prelude::*;

verus! {

/// The length of a byte sequence as a machine-sized count.
pub open spec fn seq_len(s: Seq<u8>) -> usize {
    s.len() as usize
}

/// The big-endian 16-bit value stored at `s[i..i + 2]`.
pub open spec fn be16_at(s: Seq<u8>, i: int) -> u16 {
    (s[i] * 256 + s[i + 1]) as u16
}

/// The big-endian 32-bit value stored at `s[i..i + 4]`.
pub open spec fn be32_at(s: Seq<u8>, i: int) -> u32 {
    (s[i] * 16777216 + s[i + 1] * 65536 + s[i + 2] * 256 + s[i + 3]) as u32
}

/// The big-endian 16-bit value at `s[i..i + 2]` is exactly `s[i] * 256 + s[i + 1]`.
pub proof fn lemma_be16_value(s: Seq<u8>, i: int)
    requires
        0 <= i,
        i + 2 <= s.len(),
    ensures
        be16_at(s, i) as int == s[i] as int * 256 + s[i + 1] as int,
{
    let a = s[i] as int;
    let b = s[i + 1] as int;
    assert(0 <= a * 256 + b < 65536) by (nonlinear_arith)
        requires
            0 <= a < 256,
            0 <= b < 256,
    ;
}

/// The big-endian 32-bit value at `s[i..i + 4]` is exactly
/// `s[i] * 2^24 + s[i + 1] * 2^16 + s[i + 2] * 2^8 + s[i + 3]`.
pub proof fn lemma_be32_value(s: Seq<u8>, i: int)
    requires
        0 <= i,
        i + 4 <= s.len(),
    ensures
        be32_at(s, i) as int == s[i] as int * 16777216 + s[i + 1] as int * 65536 + s[i + 2] as int * 256
            + s[i + 3] as int,
{
    let a = s[i] as int;
    let b = s[i + 1] as int;
    let c = s[i + 2] as int;
    let d = s[i + 3] as int;
    assert(0 <= a * 16777216 + b * 65536 + c * 256 + d < 4294967296) by (nonlinear_arith)
        requires
            0 <= a < 256,
            0 <= b < 256,
            0 <= c < 256,
            0 <= d < 256,
    ;
}

/// Bit `k` of a byte (bit 0 the least significant) is set.
pub open spec fn bit_set(b: u8, k: nat) -> bool {
    (b as int / pow2_int(k)) % 2 == 1
}

/// Two to the power `k`.
pub open spec fn pow2_int(k: nat) -> int
    decreases k,
{
    if k == 0 {
        1
    } else {
        2 * pow2_int((k - 1) as nat)
    }
}

/// Masking a byte with a single bit tells whether that bit is set; the low four bits are the
/// byte modulo 16, and bits 3 to 6 the byte divided by 8, modulo 16.
pub proof fn lemma_byte_bits(b: u8)
    ensures
        (b & 0b0000_0001 != 0) == bit_set(b, 0),
        (b & 0b0000_0010 != 0) == bit_set(b, 1),
        (b & 0b0000_0100 != 0) == bit_set(b, 2),
        (b & 0b0000_1000 != 0) == bit_set(b, 3),
        (b & 0b0001_0000 != 0) == bit_set(b, 4),
        (b & 0b0010_0000 != 0) == bit_set(b, 5),
        (b & 0b0100_0000 != 0) == bit_set(b, 6),
        (b & 0b1000_0000 != 0) == bit_set(b, 7),
        (b & 0b0000_1111) as int == b as int % 16,
        ((b & 0b0111_1000) >> 3) as int == (b as int / 8) % 16,
{
    reveal_with_fuel(pow2_int, 8);
    assert(
        (b & 1u8 != 0) == (b % 2 == 1)
        && (b & 2u8 != 0) == ((b / 2) % 2 == 1)
        && (b & 4u8 != 0) == ((b / 4) % 2 == 1)
        && (b & 8u8 != 0) == ((b / 8) % 2 == 1)
        && (b & 16u8 != 0) == ((b / 16) % 2 == 1)
        && (b & 32u8 != 0) == ((b / 32) % 2 == 1)
        && (b & 64u8 != 0) == ((b / 64) % 2 == 1)
        && (b & 128u8 != 0) == ((b / 128) % 2 == 1)
        && (b & 15u8) == b % 16
        && ((b & 120u8) >> 3u8) == (b / 8) % 16
    ) by (bit_vector);
}

/// Reads the big-endian 16-bit value at `s[i..i + 2]`.
pub fn read_be16(s: &[u8], i: usize) -> (r: u16)
    requires
        i + 2 <= s@.len(),
    ensures
        r == be16_at(s@, i as int),
{
    (s[i] as u16) * 256 + (s[i + 1] as u16)
}

/// Reads the big-endian 32-bit value at `s[i..i + 4]`.
pub fn read_be32(s: &[u8], i: usize) -> (r: u32)
    requires
        i + 4 <= s@.len(),
    ensures
        r == be32_at(s@, i as int),
{
    (s[i] as u32) * 16777216 + (s[i + 1] as u32) * 65536 + (s[i + 2] as u32) * 256 + (s[i + 3] as u32)
}

/// The upper three bits of a 16-bit word, as a number from 0 to 7.
pub fn top3_bits(v: u16) -> (r: u8)
    ensures
        r == v / 8192,
{
    (v / 8192) as u8
}

/// A header length counted in 32-bit words, converted to bytes.
pub fn words_to_bytes(words: u8) -> (r: usize)
    requires
        words < 16,
    ensures
        r == words * 4,
{
    (words as usize) * 4
}

/// Splits `raw` into the bytes `raw[start..end]` and the bytes after `end`.
pub fn split_range<'a>(raw: &'a [u8], start: usize, end: usize) -> (r: (&'a [u8], &'a [u8]))
    requires
        start <= end <= raw@.len(),
    ensures
        r.0@ == raw@.subrange(start as int, end as int),
        r.1@ == raw@.skip(end as int),
{
    let middle = vstd::slice::slice_subrange(raw, start, end);
    let rest = vstd::slice::slice_subrange(raw, end, raw.len());
    assert(rest@ =~= raw@.skip(end as int));
    (middle, rest)
}

/// A length as a `u64`.
pub fn len_u64(n: usize) -> (r: u64)
    ensures
        r == n,
{
    n as u64
}

} // verus!
