//! Big-endian integer encoding and byte-range helpers used by the RPC
//! framing code.

use vstd::prelude::*;

verus! {

/// Big-endian encoding of a 16-bit value.
pub open spec fn be16(v: u16) -> Seq<u8> {
    seq![(v / 256) as u8, (v % 256) as u8]
}

/// Big-endian encoding of a 32-bit value.
pub open spec fn be32(v: u32) -> Seq<u8> {
    seq![
        (v / 0x100_0000) as u8,
        ((v / 0x1_0000) % 256) as u8,
        ((v / 0x100) % 256) as u8,
        (v % 256) as u8,
    ]
}

/// The 16-bit big-endian value stored at `at` in `s`.
pub open spec fn read_be16(s: Seq<u8>, at: int) -> u16 {
    (s[at] * 256 + s[at + 1]) as u16
}

/// The 32-bit big-endian value stored at `at` in `s`.
pub open spec fn read_be32(s: Seq<u8>, at: int) -> u32 {
    (s[at] * 0x100_0000 + s[at + 1] * 0x1_0000 + s[at + 2] * 0x100 + s[at + 3]) as u32
}

/// Reading back a big-endian 16-bit encoding gives the value.
pub proof fn lemma_be16_roundtrip(v: u16, prefix: Seq<u8>, rest: Seq<u8>)
    ensures
        read_be16(prefix + be16(v) + rest, prefix.len() as int) == v,
{
    let s = prefix + be16(v) + rest;
    let at = prefix.len() as int;
    assert(s[at] == (v / 256) as u8);
    assert(s[at + 1] == (v % 256) as u8);
}

/// Reading back a big-endian 32-bit encoding gives the value.
pub proof fn lemma_be32_roundtrip(v: u32, prefix: Seq<u8>, rest: Seq<u8>)
    ensures
        read_be32(prefix + be32(v) + rest, prefix.len() as int) == v,
{
    let s = prefix + be32(v) + rest;
    let at = prefix.len() as int;
    assert(s[at] == (v / 0x100_0000) as u8);
    assert(s[at + 1] == ((v / 0x1_0000) % 256) as u8);
    assert(s[at + 2] == ((v / 0x100) % 256) as u8);
    assert(s[at + 3] == (v % 256) as u8);
}

/// Appends the big-endian encoding of `v`.
pub fn push_be16(buf: &mut Vec<u8>, v: u16)
    ensures
        final(buf)@ == old(buf)@ + be16(v),
{
    buf.push((v / 256) as u8);
    buf.push((v % 256) as u8);
    assert(final(buf)@ =~= old(buf)@ + be16(v));
}

/// Appends the big-endian encoding of `v`.
pub fn push_be32(buf: &mut Vec<u8>, v: u32)
    ensures
        final(buf)@ == old(buf)@ + be32(v),
{
    buf.push((v / 0x100_0000) as u8);
    buf.push(((v / 0x1_0000) % 256) as u8);
    buf.push(((v / 0x100) % 256) as u8);
    buf.push((v % 256) as u8);
    assert(final(buf)@ =~= old(buf)@ + be32(v));
}

/// Reads the big-endian 16-bit value at `at`.
pub fn get_be16(s: &[u8], at: usize) -> (v: u16)
    requires
        at + 2 <= s@.len(),
    ensures
        v == read_be16(s@, at as int),
{
    (s[at] as u16) * 256 + (s[at + 1] as u16)
}

/// Reads the big-endian 32-bit value at `at`.
pub fn get_be32(s: &[u8], at: usize) -> (v: u32)
    requires
        at + 4 <= s@.len(),
    ensures
        v == read_be32(s@, at as int),
{
    (s[at] as u32) * 0x100_0000 + (s[at + 1] as u32) * 0x1_0000 + (s[at + 2] as u32) * 0x100 + (
    s[at + 3] as u32)
}

/// Appends `src` to `buf`.
pub fn extend_bytes(buf: &mut Vec<u8>, src: &[u8])
    ensures
        final(buf)@ == old(buf)@ + src@,
{
    let mut i: usize = 0;
    while i < src.len()
        invariant
            i <= src@.len(),
            buf@ == old(buf)@ + src@.subrange(0, i as int),
        decreases src@.len() - i,
    {
        buf.push(src[i]);
        i = i + 1;
        assert(buf@ =~= old(buf)@ + src@.subrange(0, i as int));
    }
    assert(src@.subrange(0, src@.len() as int) =~= src@);
}

/// Copies `s[from..to]` into a new vector.
pub fn copy_range(s: &[u8], from: usize, to: usize) -> (r: Vec<u8>)
    requires
        from <= to <= s@.len(),
    ensures
        r@ == s@.subrange(from as int, to as int),
{
    let mut r: Vec<u8> = Vec::new();
    let mut i: usize = from;
    while i < to
        invariant
            from <= i <= to <= s@.len(),
            r@ == s@.subrange(from as int, i as int),
        decreases to - i,
    {
        r.push(s[i]);
        i = i + 1;
        assert(r@ =~= s@.subrange(from as int, i as int));
    }
    r
}

} // verus!
