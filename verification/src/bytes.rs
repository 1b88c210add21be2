use vstd::prelude::*;

verus! {

/// The little-endian 16-bit value at `o`.
pub open spec fn le_u16(d: Seq<u8>, o: int) -> u16 {
    (d[o] + 256 * d[o + 1]) as u16
}

/// The little-endian 32-bit value at `o`.
pub open spec fn le_u32(d: Seq<u8>, o: int) -> u32 {
    (le_u16(d, o) + 65536 * le_u16(d, o + 2)) as u32
}

/// The little-endian 64-bit value at `o`.
pub open spec fn le_u64(d: Seq<u8>, o: int) -> u64 {
    (le_u32(d, o) + 4294967296 * le_u32(d, o + 4)) as u64
}

/// The little-endian bytes of a 16-bit value.
pub open spec fn enc16(v: u16) -> Seq<u8> {
    seq![(v % 256) as u8, (v / 256) as u8]
}

/// The little-endian bytes of a 32-bit value.
pub open spec fn enc32(v: u32) -> Seq<u8> {
    enc16((v % 65536) as u16) + enc16((v / 65536) as u16)
}

/// The little-endian bytes of a 64-bit value.
pub open spec fn enc64(v: u64) -> Seq<u8> {
    enc32((v % 4294967296) as u32) + enc32((v / 4294967296) as u32)
}

/// Read the little-endian 16-bit value at `o`.
pub fn read_le16(d: &[u8], o: usize) -> (r: u16)
    requires
        o + 2 <= d@.len(),
    ensures
        r == le_u16(d@, o as int),
{
    let n = d.len();
    d[o] as u16 + 256 * (d[o + 1] as u16)
}

/// Read the little-endian 32-bit value at `o`.
pub fn read_le32(d: &[u8], o: usize) -> (r: u32)
    requires
        o + 4 <= d@.len(),
    ensures
        r == le_u32(d@, o as int),
{
    let n = d.len();
    read_le16(d, o) as u32 + 65536 * (read_le16(d, o + 2) as u32)
}

/// Read the little-endian 64-bit value at `o`.
pub fn read_le64(d: &[u8], o: usize) -> (r: u64)
    requires
        o + 8 <= d@.len(),
    ensures
        r == le_u64(d@, o as int),
{
    let n = d.len();
    read_le32(d, o) as u64 + 4294967296 * (read_le32(d, o + 4) as u64)
}

/// Append the little-endian bytes of `v`.
pub fn put_le16(out: &mut Vec<u8>, v: u16)
    ensures
        final(out)@ == old(out)@ + enc16(v),
{
    out.push((v % 256) as u8);
    out.push((v / 256) as u8);
    assert(final(out)@ =~= old(out)@ + enc16(v));
}

/// Append the little-endian bytes of `v`.
pub fn put_le32(out: &mut Vec<u8>, v: u32)
    ensures
        final(out)@ == old(out)@ + enc32(v),
{
    put_le16(out, (v % 65536) as u16);
    put_le16(out, (v / 65536) as u16);
    assert(final(out)@ =~= old(out)@ + enc32(v));
}

/// Append the little-endian bytes of `v`.
pub fn put_le64(out: &mut Vec<u8>, v: u64)
    ensures
        final(out)@ == old(out)@ + enc64(v),
{
    put_le32(out, (v % 4294967296) as u32);
    put_le32(out, (v / 4294967296) as u32);
    assert(final(out)@ =~= old(out)@ + enc64(v));
}

/// Reading back written bytes gives the value.
pub proof fn lemma_enc16_roundtrip(v: u16, d: Seq<u8>, o: int)
    requires
        0 <= o,
        o + 2 <= d.len(),
        d.subrange(o, o + 2) == enc16(v),
    ensures
        le_u16(d, o) == v,
{
    assert(d[o] == enc16(v)[0]);
    assert(d[o + 1] == enc16(v)[1]);
}

/// Reading back written bytes gives the value.
pub proof fn lemma_enc32_roundtrip(v: u32, d: Seq<u8>, o: int)
    requires
        0 <= o,
        o + 4 <= d.len(),
        d.subrange(o, o + 4) == enc32(v),
    ensures
        le_u32(d, o) == v,
{
    assert(d.subrange(o, o + 2) =~= enc32(v).subrange(0, 2));
    assert(d.subrange(o + 2, o + 4) =~= enc32(v).subrange(2, 4));
    assert(enc32(v).subrange(0, 2) =~= enc16((v % 65536) as u16));
    assert(enc32(v).subrange(2, 4) =~= enc16((v / 65536) as u16));
    lemma_enc16_roundtrip((v % 65536) as u16, d, o);
    lemma_enc16_roundtrip((v / 65536) as u16, d, o + 2);
}

/// Reading back written bytes gives the value.
pub proof fn lemma_enc64_roundtrip(v: u64, d: Seq<u8>, o: int)
    requires
        0 <= o,
        o + 8 <= d.len(),
        d.subrange(o, o + 8) == enc64(v),
    ensures
        le_u64(d, o) == v,
{
    assert(d.subrange(o, o + 4) =~= enc64(v).subrange(0, 4));
    assert(d.subrange(o + 4, o + 8) =~= enc64(v).subrange(4, 8));
    assert(enc64(v).subrange(0, 4) =~= enc32((v % 4294967296) as u32));
    assert(enc64(v).subrange(4, 8) =~= enc32((v / 4294967296) as u32));
    lemma_enc32_roundtrip((v % 4294967296) as u32, d, o);
    lemma_enc32_roundtrip((v / 4294967296) as u32, d, o + 4);
}

} // verus!
