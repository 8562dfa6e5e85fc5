//! Big- and little-endian integer fields of the byte formats used on the wire.
use vstd::prelude::*;

verus! {

/// The two bytes of `v`, most significant first.
pub open spec fn be16(v: u16) -> Seq<u8> {
    seq![(v / 256) as u8, (v % 256) as u8]
}

/// The four bytes of `v`, most significant first.
pub open spec fn be32(v: u32) -> Seq<u8> {
    be16((v / 0x1_0000) as u16) + be16((v % 0x1_0000) as u16)
}

/// The eight bytes of `v`, most significant first.
pub open spec fn be64(v: u64) -> Seq<u8> {
    be32((v / 0x1_0000_0000) as u32) + be32((v % 0x1_0000_0000) as u32)
}

/// The two bytes of `v`, least significant first.
pub open spec fn le16(v: u16) -> Seq<u8> {
    seq![(v % 256) as u8, (v / 256) as u8]
}

/// The number whose big-endian bytes stand at positions `at` and `at + 1`.
pub open spec fn be16_at(s: Seq<u8>, at: int) -> u16 {
    (s[at] * 256 + s[at + 1]) as u16
}

/// The number whose big-endian bytes stand at positions `at` to `at + 3`.
pub open spec fn be32_at(s: Seq<u8>, at: int) -> u32 {
    (be16_at(s, at) * 0x1_0000 + be16_at(s, at + 2)) as u32
}

/// The number whose big-endian bytes stand at positions `at` to `at + 7`.
pub open spec fn be64_at(s: Seq<u8>, at: int) -> u64 {
    (be32_at(s, at) * 0x1_0000_0000 + be32_at(s, at + 4)) as u64
}

/// Writing a 16-bit field and reading it back gives the same number,
/// whatever stands before and after it.
pub proof fn law_be16_round_trip(before: Seq<u8>, v: u16, after: Seq<u8>)
    ensures
        be16_at(before + be16(v) + after, before.len() as int) == v,
{
    let s = before + be16(v) + after;
    assert(s[before.len() as int] == be16(v)[0]);
    assert(s[before.len() as int + 1] == be16(v)[1]);
}

/// Writing a 32-bit field and reading it back gives the same number,
/// whatever stands before and after it.
pub proof fn law_be32_round_trip(before: Seq<u8>, v: u32, after: Seq<u8>)
    ensures
        be32_at(before + be32(v) + after, before.len() as int) == v,
{
    let hi = (v / 0x1_0000) as u16;
    let lo = (v % 0x1_0000) as u16;
    let s = before + be32(v) + after;
    law_be16_round_trip(before, hi, be16(lo) + after);
    law_be16_round_trip(before + be16(hi), lo, after);
    assert(s =~= before + be16(hi) + (be16(lo) + after));
    assert(s =~= (before + be16(hi)) + be16(lo) + after);
}

/// Writing a 64-bit field and reading it back gives the same number,
/// whatever stands before and after it.
pub proof fn law_be64_round_trip(before: Seq<u8>, v: u64, after: Seq<u8>)
    ensures
        be64_at(before + be64(v) + after, before.len() as int) == v,
{
    let hi = (v / 0x1_0000_0000) as u32;
    let lo = (v % 0x1_0000_0000) as u32;
    let s = before + be64(v) + after;
    law_be32_round_trip(before, hi, be32(lo) + after);
    law_be32_round_trip(before + be32(hi), lo, after);
    assert(s =~= before + be32(hi) + (be32(lo) + after));
    assert(s =~= (before + be32(hi)) + be32(lo) + after);
}

/// Appends `v` in big-endian order.
pub fn push_be16(out: &mut Vec<u8>, v: u16)
    ensures
        final(out)@ == old(out)@ + be16(v),
{
    out.push((v / 256) as u8);
    out.push((v % 256) as u8);
}

/// Appends `v` in big-endian order.
pub fn push_be32(out: &mut Vec<u8>, v: u32)
    ensures
        final(out)@ == old(out)@ + be32(v),
{
    push_be16(out, (v / 0x1_0000) as u16);
    push_be16(out, (v % 0x1_0000) as u16);
}

/// Appends `v` in big-endian order.
pub fn push_be64(out: &mut Vec<u8>, v: u64)
    ensures
        final(out)@ == old(out)@ + be64(v),
{
    push_be32(out, (v / 0x1_0000_0000) as u32);
    push_be32(out, (v % 0x1_0000_0000) as u32);
}

/// Appends `v` in little-endian order.
pub fn push_le16(out: &mut Vec<u8>, v: u16)
    ensures
        final(out)@ == old(out)@ + le16(v),
{
    out.push((v % 256) as u8);
    out.push((v / 256) as u8);
}

/// Reads the big-endian number at `at`.
pub fn read_be16(s: &[u8], at: usize) -> (v: u16)
    requires
        at + 2 <= s@.len(),
    ensures
        v == be16_at(s@, at as int),
{
    s[at] as u16 * 256 + s[at + 1] as u16
}

/// Reads the big-endian number at `at`.
pub fn read_be32(s: &[u8], at: usize) -> (v: u32)
    requires
        at + 4 <= s@.len(),
    ensures
        v == be32_at(s@, at as int),
{
    let n: usize = s.len();
    assert(at + 4 <= n);
    read_be16(s, at) as u32 * 0x1_0000 + read_be16(s, at + 2) as u32
}

/// Reads the big-endian number at `at`.
pub fn read_be64(s: &[u8], at: usize) -> (v: u64)
    requires
        at + 8 <= s@.len(),
    ensures
        v == be64_at(s@, at as int),
{
    let n: usize = s.len();
    assert(at + 8 <= n);
    read_be32(s, at) as u64 * 0x1_0000_0000 + read_be32(s, at + 4) as u64
}

/// A copy of the bytes of `s` from position `from` up to but not with `to`.
pub fn copy_range(s: &[u8], from: usize, to: usize) -> (r: Vec<u8>)
    requires
        from <= to <= s@.len(),
    ensures
        r@ == s@.subrange(from as int, to as int),
{
    let mut r: Vec<u8> = Vec::new();
    r.extend_from_slice(vstd::slice::slice_subrange(s, from, to));
    assert(r@ =~= s@.subrange(from as int, to as int));
    r
}

/// Every byte of a big-endian number by its weight.
pub proof fn law_bytes_have_their_weight(a: u16, b: u32, c: u64)
    ensures
        be16(a).len() == 2 && be32(b).len() == 4 && be64(c).len() == 8,
        be16(a)[0] * 0x100 + be16(a)[1] == a,
        be32(b)[0] * 0x100_0000 + be32(b)[1] * 0x1_0000 + be32(b)[2] * 0x100 + be32(b)[3] == b,
        be64(c)[0] * 0x100_0000_0000_0000 + be64(c)[1] * 0x1_0000_0000_0000 + be64(c)[2]
            * 0x100_0000_0000 + be64(c)[3] * 0x1_0000_0000 + be64(c)[4] * 0x100_0000 + be64(c)[5]
            * 0x1_0000 + be64(c)[6] * 0x100 + be64(c)[7] == c,
        le16(a).len() == 2 && le16(a)[0] == be16(a)[1] && le16(a)[1] == be16(a)[0],
{
}

/// The number that is read at a place, by the weight of the bytes from there on.
pub proof fn law_read_bytes_have_their_weight(s: Seq<u8>, at: int)
    ensures
        be16_at(s, at) == s[at] * 0x100 + s[at + 1],
        be32_at(s, at) == s[at] * 0x100_0000 + s[at + 1] * 0x1_0000 + s[at + 2] * 0x100 + s[at + 3],
        be64_at(s, at) == s[at] * 0x100_0000_0000_0000 + s[at + 1] * 0x1_0000_0000_0000 + s[at + 2]
            * 0x100_0000_0000 + s[at + 3] * 0x1_0000_0000 + s[at + 4] * 0x100_0000 + s[at + 5]
            * 0x1_0000 + s[at + 6] * 0x100 + s[at + 7],
{
}

} // verus!
