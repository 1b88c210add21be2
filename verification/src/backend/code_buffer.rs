use vstd::prelude::*;

verus! {

/// Default code buffer size: 16 MiB.
pub const DEFAULT_CODE_BUF_SIZE: usize = 16777216;

/// Why a code buffer could not be made.
#[derive(Debug, Clone, Copy, PartialEq, Eq, Structural)]
pub enum CodeBufferError {
    /// A buffer of size zero cannot hold code.
    Empty,
    /// The size cannot be mapped (it exceeds `i64::MAX` bytes).
    TooLarge,
}

/// `d` with `s` written over it starting at `off`.
pub open spec fn write_at(d: Seq<u8>, off: int, s: Seq<u8>) -> Seq<u8> {
    d.subrange(0, off) + s + d.subrange(off + s.len(), d.len() as int)
}

/// The little-endian bytes of a 16-bit value.
pub open spec fn le16(v: u16) -> Seq<u8> {
    seq![(v & 0xff) as u8, ((v >> 8) & 0xff) as u8]
}

/// The little-endian bytes of a 32-bit value.
pub open spec fn le32(v: u32) -> Seq<u8> {
    seq![(v & 0xff) as u8, ((v >> 8) & 0xff) as u8, ((v >> 16) & 0xff) as u8, ((v >> 24) & 0xff) as u8]
}

/// The little-endian bytes of a 64-bit value.
pub open spec fn le64(v: u64) -> Seq<u8> {
    seq![
        (v & 0xff) as u8,
        ((v >> 8) & 0xff) as u8,
        ((v >> 16) & 0xff) as u8,
        ((v >> 24) & 0xff) as u8,
        ((v >> 32) & 0xff) as u8,
        ((v >> 40) & 0xff) as u8,
        ((v >> 48) & 0xff) as u8,
        ((v >> 56) & 0xff) as u8,
    ]
}

/// The 32-bit value whose little-endian bytes are `b[0..4]`.
pub open spec fn from_le32(b0: u8, b1: u8, b2: u8, b3: u8) -> u32 {
    (b0 as u32) | ((b1 as u32) << 8) | ((b2 as u32) << 16) | ((b3 as u32) << 24)
}

/// Writing `s1` and then `s2` right after it is writing `s1 + s2`.
pub proof fn lemma_write_at_concat(d: Seq<u8>, off: int, s1: Seq<u8>, s2: Seq<u8>)
    requires
        0 <= off,
        off + s1.len() + s2.len() <= d.len(),
    ensures
        write_at(write_at(d, off, s1), off + s1.len(), s2) == write_at(d, off, s1 + s2),
        write_at(d, off, s1).len() == d.len(),
{
    assert(write_at(write_at(d, off, s1), off + s1.len(), s2) =~= write_at(d, off, s1 + s2));
}

/// Reading back a written 32-bit value gives the value.
pub proof fn lemma_le32_roundtrip(v: u32)
    ensures
        from_le32(le32(v)[0], le32(v)[1], le32(v)[2], le32(v)[3]) == v,
{
    assert(((v & 0xff) as u8) as u32 | (((((v >> 8) & 0xff) as u8) as u32) << 8) | (((((v >> 16)
        & 0xff) as u8) as u32) << 16) | (((((v >> 24) & 0xff) as u8) as u32) << 24) == v)
        by (bit_vector);
}

/// A buffer for generated host code. `data` is the whole buffer (its length is
/// the capacity, initially zero-filled); `offset` is the write position.
pub struct CodeBuffer {
    pub data: Vec<u8>,
    pub offset: usize,
}

impl CodeBuffer {
    pub open spec fn wf(&self) -> bool {
        &&& self.offset <= self.data@.len() <= usize::MAX
        &&& self.data@.len() <= i64::MAX
    }

    /// The code written so far.
    pub open spec fn bytes(&self) -> Seq<u8> {
        self.data@.subrange(0, self.offset as int)
    }

    /// Whether `n` more bytes fit.
    pub open spec fn has_room(&self, n: int) -> bool {
        self.wf() && self.offset + n <= self.data@.len()
    }

    /// `self` is `old` with `s` emitted at the write position.
    pub open spec fn emitted(&self, old: &CodeBuffer, s: Seq<u8>) -> bool {
        &&& self.wf()
        &&& self.offset == old.offset + s.len()
        &&& self.data@ == write_at(old.data@, old.offset as int, s)
    }

    /// A zero-filled buffer of `size` bytes, write position 0.
    pub fn new(size: usize) -> (r: Result<CodeBuffer, CodeBufferError>)
        ensures
            (size == 0 || size > i64::MAX) <==> r is Err,
            size == 0 ==> r == Err::<CodeBuffer, CodeBufferError>(CodeBufferError::Empty),
            size > i64::MAX ==> r == Err::<CodeBuffer, CodeBufferError>(CodeBufferError::TooLarge),
            r matches Ok(b) ==> b.wf() && b.offset == 0 && b.data@ == Seq::new(size as nat, |i: int| 0u8),
    {
        if size == 0 {
            return Err(CodeBufferError::Empty);
        }
        if size as u64 > 0x7fff_ffff_ffff_ffffu64 {
            return Err(CodeBufferError::TooLarge);
        }
        let data = vec![0u8; size];
        assert(data@ =~= Seq::new(size as nat, |i: int| 0u8));
        Ok(CodeBuffer { data, offset: 0 })
    }

    /// A buffer of the default size (16 MiB).
    pub fn with_default_size() -> (r: Result<CodeBuffer, CodeBufferError>)
        ensures
            r matches Ok(b) ==> b.wf() && b.offset == 0 && b.data@.len() == DEFAULT_CODE_BUF_SIZE,
            r is Ok,
    {
        Self::new(DEFAULT_CODE_BUF_SIZE)
    }

    /// Current write offset.
    pub fn offset(&self) -> (r: usize)
        ensures
            r == self.offset,
    {
        self.offset
    }

    /// Total capacity in bytes.
    pub fn capacity(&self) -> (r: usize)
        ensures
            r == self.data@.len(),
    {
        self.data.len()
    }

    /// Remaining writable bytes.
    pub fn remaining(&self) -> (r: usize)
        requires
            self.wf(),
        ensures
            r == self.data@.len() - self.offset,
    {
        self.data.len() - self.offset
    }

    /// Set the write offset (e.g. to resume writing at a saved position).
    pub fn set_offset(&mut self, offset: usize)
        requires
            old(self).wf(),
            offset <= old(self).data@.len(),
        ensures
            final(self).wf(),
            final(self).offset == offset,
            final(self).data@ == old(self).data@,
    {
        self.offset = offset;
    }

    pub fn emit_u8(&mut self, val: u8)
        requires
            old(self).has_room(1),
        ensures
            final(self).emitted(old(self), seq![val]),
            final(self).bytes() == old(self).bytes() + seq![val],
    {
        self.data.set(self.offset, val);
        self.offset = self.offset + 1;
        assert(self.data@ =~= write_at(old(self).data@, old(self).offset as int, seq![val]));
        assert(self.bytes() =~= old(self).bytes() + seq![val]);
    }

    fn put(&mut self, pos: usize, s: &[u8])
        requires
            pos + s@.len() <= old(self).data@.len() <= usize::MAX,
        ensures
            final(self).data@ == write_at(old(self).data@, pos as int, s@),
            final(self).offset == old(self).offset,
    {
        let mut i: usize = 0;
        while i < s.len()
            invariant
                pos + s@.len() <= self.data@.len(),
                self.data@.len() == old(self).data@.len(),
                self.data@.len() <= usize::MAX,
                i <= s@.len(),
                self.offset == old(self).offset,
                self.data@ == write_at(old(self).data@, pos as int, s@.subrange(0, i as int)),
            decreases s@.len() - i,
        {
            self.data.set(pos + i, s[i]);
            assert(self.data@ =~= write_at(old(self).data@, pos as int, s@.subrange(0, i + 1)));
            i = i + 1;
        }
        assert(s@.subrange(0, s@.len() as int) =~= s@);
    }

    /// Append the bytes of `s`.
    pub fn emit_bytes(&mut self, s: &[u8])
        requires
            old(self).has_room(s@.len() as int),
        ensures
            final(self).emitted(old(self), s@),
            final(self).bytes() == old(self).bytes() + s@,
    {
        let pos = self.offset;
        self.put(pos, s);
        self.offset = pos + s.len();
        assert(self.bytes() =~= old(self).bytes() + s@);
    }

    /// Append a 16-bit value, little-endian.
    pub fn emit_u16(&mut self, val: u16)
        requires
            old(self).has_room(2),
        ensures
            final(self).emitted(old(self), le16(val)),
            final(self).bytes() == old(self).bytes() + le16(val),
    {
        let b = [(val & 0xff) as u8, ((val >> 8) & 0xff) as u8];
        assert(b@ =~= le16(val));
        self.emit_bytes(&b);
    }

    /// Append a 32-bit value, little-endian.
    pub fn emit_u32(&mut self, val: u32)
        requires
            old(self).has_room(4),
        ensures
            final(self).emitted(old(self), le32(val)),
            final(self).bytes() == old(self).bytes() + le32(val),
    {
        let b = [(val & 0xff) as u8, ((val >> 8) & 0xff) as u8, ((val >> 16) & 0xff) as u8, ((val >> 24) & 0xff) as u8];
        assert(b@ =~= le32(val));
        self.emit_bytes(&b);
    }

    /// Append a 64-bit value, little-endian.
    pub fn emit_u64(&mut self, val: u64)
        requires
            old(self).has_room(8),
        ensures
            final(self).emitted(old(self), le64(val)),
            final(self).bytes() == old(self).bytes() + le64(val),
    {
        let b = [
            (val & 0xff) as u8,
            ((val >> 8) & 0xff) as u8,
            ((val >> 16) & 0xff) as u8,
            ((val >> 24) & 0xff) as u8,
            ((val >> 32) & 0xff) as u8,
            ((val >> 40) & 0xff) as u8,
            ((val >> 48) & 0xff) as u8,
            ((val >> 56) & 0xff) as u8,
        ];
        assert(b@ =~= le64(val));
        self.emit_bytes(&b);
    }

    /// Overwrite the byte at `offset` (for back-patching).
    pub fn patch_u8(&mut self, offset: usize, val: u8)
        requires
            offset < old(self).data@.len(),
        ensures
            final(self).data@ == old(self).data@.update(offset as int, val),
            final(self).offset == old(self).offset,
    {
        self.data.set(offset, val);
    }

    /// Overwrite 4 bytes at `offset` with `val`, little-endian.
    pub fn patch_u32(&mut self, offset: usize, val: u32)
        requires
            offset + 4 <= old(self).data@.len() <= usize::MAX,
        ensures
            final(self).data@ == write_at(old(self).data@, offset as int, le32(val)),
            final(self).offset == old(self).offset,
    {
        let b = [(val & 0xff) as u8, ((val >> 8) & 0xff) as u8, ((val >> 16) & 0xff) as u8, ((val >> 24) & 0xff) as u8];
        assert(b@ =~= le32(val));
        self.put(offset, &b);
    }

    /// Read the 32-bit little-endian value at `offset`.
    pub fn read_u32(&self, offset: usize) -> (r: u32)
        requires
            offset + 4 <= self.data@.len() <= usize::MAX,
        ensures
            r == from_le32(
                self.data@[offset as int],
                self.data@[offset + 1],
                self.data@[offset + 2],
                self.data@[offset + 3],
            ),
    {
        (self.data[offset] as u32) | ((self.data[offset + 1] as u32) << 8) | ((self.data[offset + 2] as u32) << 16) | ((self.data[offset + 3] as u32) << 24)
    }

    /// The generated code (up to the write offset).
    pub fn as_slice(&self) -> (r: &[u8])
        requires
            self.wf(),
        ensures
            r@ == self.bytes(),
    {
        vstd::slice::slice_subrange(self.data.as_slice(), 0, self.offset)
    }
}

/// What a 32-bit read gives back at an offset is what the last 32-bit patch
/// there wrote.
pub proof fn lemma_patch_then_read(d: Seq<u8>, off: int, v: u32)
    requires
        0 <= off,
        off + 4 <= d.len(),
    ensures
        ({
            let d2 = write_at(d, off, le32(v));
            from_le32(d2[off], d2[off + 1], d2[off + 2], d2[off + 3]) == v
        }),
        write_at(d, off, le32(v)).len() == d.len(),
{
    lemma_le32_roundtrip(v);
    let d2 = write_at(d, off, le32(v));
    assert(d2[off] == le32(v)[0]);
    assert(d2[off + 1] == le32(v)[1]);
    assert(d2[off + 2] == le32(v)[2]);
    assert(d2[off + 3] == le32(v)[3]);
}

/// Emitting keeps the code already written and the capacity.
pub proof fn lemma_emitted_keeps_prefix(b: CodeBuffer, old: CodeBuffer, s: Seq<u8>)
    requires
        old.wf(),
        b.emitted(&old, s),
        old.offset + s.len() <= old.data@.len(),
    ensures
        b.bytes() == old.bytes() + s,
        b.data@.len() == old.data@.len(),
{
    assert(b.bytes() =~= old.bytes() + s);
}

/// The bytes of a zero 32-bit value are zero.
pub proof fn lemma_le32_zero()
    ensures
        le32(0) == seq![0u8, 0u8, 0u8, 0u8],
{
    assert(((0u32 & 0xff) as u8) == 0u8 && (((0u32 >> 8) & 0xff) as u8) == 0u8 && (((0u32 >> 16) & 0xff) as u8)
        == 0u8 && (((0u32 >> 24) & 0xff) as u8) == 0u8) by (bit_vector);
    assert(le32(0) =~= seq![0u8, 0u8, 0u8, 0u8]);
}

/// Emitting `s1` and then `s2` is emitting `s1 + s2`.
pub proof fn lemma_emitted_concat(a: CodeBuffer, b: CodeBuffer, c: CodeBuffer, s1: Seq<u8>, s2: Seq<u8>)
    requires
        a.wf(),
        b.emitted(&a, s1),
        c.emitted(&b, s2),
        a.offset + s1.len() + s2.len() <= a.data@.len(),
    ensures
        c.emitted(&a, s1 + s2),
{
    lemma_write_at_concat(a.data@, a.offset as int, s1, s2);
}

/// Emitting nothing leaves the buffer as it was.
pub proof fn lemma_emitted_empty(a: CodeBuffer)
    requires
        a.wf(),
    ensures
        a.emitted(&a, Seq::<u8>::empty()),
{
    assert(write_at(a.data@, a.offset as int, Seq::<u8>::empty()) =~= a.data@);
}

} // verus!
