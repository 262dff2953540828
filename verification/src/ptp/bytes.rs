//! Little-endian words in byte sequences.
use vstd::prelude::*;

verus! {

/// The two bytes of `v`, least significant first.
pub open spec fn le16(v: u16) -> Seq<u8> {
    seq![(v % 256) as u8, (v / 256) as u8]
}

/// The four bytes of `v`, least significant first.
pub open spec fn le32(v: u32) -> Seq<u8> {
    seq![(v % 256) as u8, ((v / 256) % 256) as u8, ((v / 65536) % 256) as u8, (v / 16777216) as u8]
}

/// The little-endian `u16` that starts at byte `i` of `s`.
pub open spec fn u16_at(s: Seq<u8>, i: int) -> u16 {
    (s[i] + 256 * s[i + 1]) as u16
}

/// The little-endian `u32` that starts at byte `i` of `s`.
pub open spec fn u32_at(s: Seq<u8>, i: int) -> u32 {
    (s[i] + 256 * s[i + 1] + 65536 * s[i + 2] + 16777216 * s[i + 3]) as u32
}

/// Appends the little-endian bytes of `v`.
pub fn write_u16_le(b: &mut Vec<u8>, v: u16)
    ensures
        final(b)@ == old(b)@ + le16(v),
{
    b.push((v % 256) as u8);
    b.push((v / 256) as u8);
    assert(b@ =~= old(b)@ + le16(v));
}

/// Appends the little-endian bytes of `v`.
pub fn write_u32_le(b: &mut Vec<u8>, v: u32)
    ensures
        final(b)@ == old(b)@ + le32(v),
{
    b.push((v % 256) as u8);
    b.push(((v / 256) % 256) as u8);
    b.push(((v / 65536) % 256) as u8);
    b.push((v / 16777216) as u8);
    assert(b@ =~= old(b)@ + le32(v));
}

/// Reads the little-endian `u16` at byte `i`.
pub fn read_u16_le(s: &[u8], i: usize) -> (v: u16)
    requires
        i + 2 <= s@.len(),
    ensures
        v == u16_at(s@, i as int),
{
    s[i] as u16 + 256 * (s[i + 1] as u16)
}

/// Reads the little-endian `u32` at byte `i`.
pub fn read_u32_le(s: &[u8], i: usize) -> (v: u32)
    requires
        i + 4 <= s@.len(),
    ensures
        v == u32_at(s@, i as int),
{
    s[i] as u32 + 256 * (s[i + 1] as u32) + 65536 * (s[i + 2] as u32) + 16777216 * (s[i + 3] as u32)
}

/// Decoding the bytes of a `u16` gives the number back.
pub proof fn lemma_u16_roundtrip(v: u16)
    ensures
        u16_at(le16(v), 0) == v,
{
}

/// Decoding the bytes of a `u32` gives the number back.
pub proof fn lemma_u32_roundtrip(v: u32)
    ensures
        u32_at(le32(v), 0) == v,
{
}

/// Two bytes decode to a `u16` whose bytes are those two bytes.
pub proof fn lemma_u16_bytes(s: Seq<u8>)
    requires
        s.len() == 2,
    ensures
        le16(u16_at(s, 0)) == s,
{
    assert(le16(u16_at(s, 0)) =~= s);
}

} // verus!
