use vstd::prelude::*;

verus! {

/// Number of buckets in the global TB hash table.
pub const TB_HASH_SIZE: usize = 32768;

/// Number of entries in the per-CPU jump cache.
pub const TB_JMP_CACHE_SIZE: usize = 4096;

/// Mask for the instruction count limit in compile flags (0 = no limit).
pub const CF_COUNT_MASK: u32 = 0xFFFF;
/// Last I/O instruction in the TB.
pub const CF_LAST_IO: u32 = 0x0001_0000;
/// TB is being single-stepped.
pub const CF_SINGLE_STEP: u32 = 0x0002_0000;
/// Use icount (deterministic execution).
pub const CF_USE_ICOUNT: u32 = 0x0004_0000;

/// Exit value of a block that left through its first `goto_tb` slot.
pub const TB_EXIT_IDX0: u64 = 0;
/// Exit value of a block that left through its second `goto_tb` slot.
pub const TB_EXIT_IDX1: u64 = 1;
/// Exit value asking for a lookup of the next block without chaining.
pub const TB_EXIT_NOCHAIN: u64 = 2;
/// Bit that marks an exit value carrying the index of the exiting block.
pub const TB_EXIT_TAGGED: u64 = 0x8000_0000;
/// Exit codes that fit beside the block index.
pub const TB_EXIT_CODE_LIMIT: u64 = 0x8000_0000;

/// The exit value of block `tb_idx` leaving with code `val`: the index in
/// the high 32 bits, the tag bit 31, the code (modulo 2^31) in bits 0..31.
pub open spec fn spec_encode_tb_exit(tb_idx: u32, val: u64) -> u64 {
    (tb_idx * 0x1_0000_0000 + TB_EXIT_TAGGED + val % TB_EXIT_CODE_LIMIT) as u64
}

/// The exiting block and exit code carried by a raw exit value: tagged
/// values give back the block index and code; others are a bare code.
pub open spec fn spec_decode_tb_exit(raw: u64) -> (Option<usize>, u64) {
    if (raw / TB_EXIT_TAGGED) % 2 == 1 {
        (Some((raw / 0x1_0000_0000) as usize), raw % TB_EXIT_CODE_LIMIT)
    } else {
        (None, raw)
    }
}

/// Tag the exit code `val` of block `tb_idx` with the block's index.
pub fn encode_tb_exit(tb_idx: u32, val: u64) -> (r: u64)
    ensures
        r == spec_encode_tb_exit(tb_idx, val),
{
    (tb_idx as u64) * 0x1_0000_0000 + TB_EXIT_TAGGED + val % TB_EXIT_CODE_LIMIT
}

/// Split a raw exit value into the exiting block (if tagged) and its code.
pub fn decode_tb_exit(raw: u64) -> (r: (Option<usize>, u64))
    ensures
        r == spec_decode_tb_exit(raw),
{
    if (raw / TB_EXIT_TAGGED) % 2 == 1 {
        (Some((raw / 0x1_0000_0000) as usize), raw % TB_EXIT_CODE_LIMIT)
    } else {
        (None, raw)
    }
}

/// Decoding a tagged exit value gives back the block and the code.
pub proof fn lemma_tb_exit_roundtrip(tb_idx: u32, val: u64)
    requires
        val < TB_EXIT_CODE_LIMIT,
    ensures
        spec_decode_tb_exit(spec_encode_tb_exit(tb_idx, val)) == (Some(tb_idx as usize), val),
{
    let e = tb_idx * 0x1_0000_0000 + 0x8000_0000 + val;
    assert(e / 0x8000_0000 == tb_idx * 2 + 1) by (nonlinear_arith)
        requires e == tb_idx * 0x1_0000_0000 + 0x8000_0000 + val, 0 <= val < 0x8000_0000, 0 <= tb_idx;
    assert(e / 0x1_0000_0000 == tb_idx as int) by (nonlinear_arith)
        requires e == tb_idx * 0x1_0000_0000 + 0x8000_0000 + val, 0 <= val < 0x8000_0000, 0 <= tb_idx;
    assert(e % 0x8000_0000 == val) by (nonlinear_arith)
        requires e == tb_idx * 0x1_0000_0000 + 0x8000_0000 + val, 0 <= val < 0x8000_0000, 0 <= tb_idx;
    assert((tb_idx * 2 + 1) % 2 == 1) by (nonlinear_arith)
        requires 0 <= tb_idx;
}

/// A cached translated code block: the mapping from a guest code region to
/// generated host code.
#[derive(Debug)]
pub struct TranslationBlock {
    /// Guest virtual PC where this TB starts.
    pub pc: u64,
    /// CS base (x86) or 0.
    pub cs_base: u64,
    /// CPU state flags that affect translation.
    pub flags: u32,
    /// Compile flags.
    pub cflags: u32,
    /// Size of guest code covered, in bytes.
    pub size: u32,
    /// Number of guest instructions.
    pub icount: u16,
    /// Offset into the code buffer where host code starts.
    pub host_offset: usize,
    /// Size of generated host code in bytes.
    pub host_size: usize,
    /// Offset of the `goto_tb` jump for each of the two exits.
    pub jmp_insn_offset: [Option<u32>; 2],
    /// Offset right after the `goto_tb` jump for each exit.
    pub jmp_reset_offset: [Option<u32>; 2],
    /// Physical page address for invalidation tracking.
    pub phys_pc: u64,
    /// Index of the next TB in the same hash bucket.
    pub hash_next: Option<usize>,
    /// Whether this TB has been invalidated.
    pub invalid: bool,
}

/// The hash of a guest pc and flags before masking.
pub open spec fn tb_hash_raw(pc: u64, flags: u32) -> u64 {
    (vstd::wrapping::u64_specs::wrapping_mul(pc, 0x9e3779b97f4a7c15u64) ^ (flags as u64)) as u64
}

impl TranslationBlock {
    pub fn new(pc: u64, flags: u32, cflags: u32) -> (tb: Self)
        ensures
            tb.pc == pc,
            tb.cs_base == 0,
            tb.flags == flags,
            tb.cflags == cflags,
            tb.size == 0,
            tb.icount == 0,
            tb.host_offset == 0,
            tb.host_size == 0,
            tb.jmp_insn_offset@ == seq![None::<u32>, None::<u32>],
            tb.jmp_reset_offset@ == seq![None::<u32>, None::<u32>],
            tb.phys_pc == 0,
            tb.hash_next is None,
            !tb.invalid,
    {
        TranslationBlock {
            pc,
            cs_base: 0,
            flags,
            cflags,
            size: 0,
            icount: 0,
            host_offset: 0,
            host_size: 0,
            jmp_insn_offset: [None, None],
            jmp_reset_offset: [None, None],
            phys_pc: 0,
            hash_next: None,
            invalid: false,
        }
    }

    /// Hash bucket index for TB lookup: the low 15 bits of
    /// `pc * 0x9e3779b97f4a7c15 (mod 2^64) ^ flags`.
    pub fn hash(pc: u64, flags: u32) -> (r: usize)
        ensures
            r < TB_HASH_SIZE,
            r == tb_hash_raw(pc, flags) % (TB_HASH_SIZE as u64),
    {
        let h = pc.wrapping_mul(0x9e3779b97f4a7c15u64) ^ (flags as u64);
        assert(h & 0x7fff == h % 32768 && h & 0x7fff < 32768) by (bit_vector);
        (h & 0x7fff) as usize
    }

    /// Record the offset of the `goto_tb` jump for exit slot `n`.
    pub fn set_jmp_insn_offset(&mut self, n: usize, offset: u32)
        requires
            n < 2,
        ensures
            final(self).jmp_insn_offset@ == old(self).jmp_insn_offset@.update(n as int, Some(offset)),
            *final(self) == (TranslationBlock { jmp_insn_offset: final(self).jmp_insn_offset, ..*old(self) }),
    {
        self.jmp_insn_offset[n] = Some(offset);
    }

    /// Record the reset offset for exit slot `n`.
    pub fn set_jmp_reset_offset(&mut self, n: usize, offset: u32)
        requires
            n < 2,
        ensures
            final(self).jmp_reset_offset@ == old(self).jmp_reset_offset@.update(n as int, Some(offset)),
            *final(self) == (TranslationBlock { jmp_reset_offset: final(self).jmp_reset_offset, ..*old(self) }),
    {
        self.jmp_reset_offset[n] = Some(offset);
    }

    /// Maximum number of guest instructions per TB: the count in the compile
    /// flags, or 512 when it is zero.
    pub fn max_insns(cflags: u32) -> (r: u32)
        ensures
            (cflags & CF_COUNT_MASK) == 0 ==> r == 512,
            (cflags & CF_COUNT_MASK) != 0 ==> r == cflags & CF_COUNT_MASK,
            1 <= r <= 65535,
    {
        let count = cflags & CF_COUNT_MASK;
        assert(cflags & 0xFFFF <= 0xFFFF) by (bit_vector);
        if count == 0 {
            512
        } else {
            count
        }
    }
}

/// Per-CPU direct-mapped TB jump cache, indexed by `(pc >> 2) mod 4096`.
pub struct JumpCache {
    pub entries: Vec<Option<usize>>,
}

/// The jump cache slot of a guest pc.
pub open spec fn jc_index(pc: u64) -> int {
    ((pc >> 2) % 4096) as int
}

impl JumpCache {
    pub open spec fn wf(&self) -> bool {
        self.entries@.len() == TB_JMP_CACHE_SIZE
    }

    /// An empty cache.
    pub fn new() -> (c: Self)
        ensures
            c.wf(),
            forall|i: int| 0 <= i < TB_JMP_CACHE_SIZE ==> #[trigger] c.entries@[i] is None,
    {
        let mut entries: Vec<Option<usize>> = Vec::with_capacity(TB_JMP_CACHE_SIZE);
        let mut i: usize = 0;
        while i < TB_JMP_CACHE_SIZE
            invariant
                i <= TB_JMP_CACHE_SIZE,
                entries@.len() == i,
                forall|k: int| 0 <= k < i ==> #[trigger] entries@[k] is None,
            decreases TB_JMP_CACHE_SIZE - i,
        {
            entries.push(None);
            i = i + 1;
        }
        JumpCache { entries }
    }

    fn index(pc: u64) -> (r: usize)
        ensures
            r == jc_index(pc),
            r < TB_JMP_CACHE_SIZE,
    {
        let x = pc >> 2;
        assert(x & 0xfff == x % 4096 && x & 0xfff < 4096) by (bit_vector);
        ((pc >> 2) & 0xfff) as usize
    }

    /// The TB cached for `pc`'s slot.
    pub fn lookup(&self, pc: u64) -> (r: Option<usize>)
        requires
            self.wf(),
        ensures
            r == self.entries@[jc_index(pc)],
    {
        self.entries[Self::index(pc)]
    }

    /// Cache `tb_idx` in `pc`'s slot.
    pub fn insert(&mut self, pc: u64, tb_idx: usize)
        requires
            old(self).wf(),
        ensures
            final(self).wf(),
            final(self).entries@ == old(self).entries@.update(jc_index(pc), Some(tb_idx)),
    {
        let i = Self::index(pc);
        self.entries.set(i, Some(tb_idx));
    }

    /// Empty `pc`'s slot.
    pub fn remove(&mut self, pc: u64)
        requires
            old(self).wf(),
        ensures
            final(self).wf(),
            final(self).entries@ == old(self).entries@.update(jc_index(pc), None),
    {
        let i = Self::index(pc);
        self.entries.set(i, None);
    }

    /// Empty every slot.
    pub fn invalidate(&mut self)
        requires
            old(self).wf(),
        ensures
            final(self).wf(),
            forall|i: int| 0 <= i < TB_JMP_CACHE_SIZE ==> #[trigger] final(self).entries@[i] is None,
    {
        let mut i: usize = 0;
        while i < TB_JMP_CACHE_SIZE
            invariant
                self.entries@.len() == TB_JMP_CACHE_SIZE,
                i <= TB_JMP_CACHE_SIZE,
                forall|k: int| 0 <= k < i ==> #[trigger] self.entries@[k] is None,
            decreases TB_JMP_CACHE_SIZE - i,
        {
            self.entries.set(i, None);
            i = i + 1;
        }
    }
}

/// A lookup right after an insert for the same pc finds what was inserted;
/// an insert leaves the slots of pcs that map elsewhere alone.
pub proof fn lemma_jump_cache_insert_lookup(c: Seq<Option<usize>>, pc: u64, pc2: u64, tb: usize)
    requires
        c.len() == TB_JMP_CACHE_SIZE,
    ensures
        c.update(jc_index(pc), Some(tb))[jc_index(pc)] == Some(tb),
        jc_index(pc2) != jc_index(pc) ==> c.update(jc_index(pc), Some(tb))[jc_index(pc2)]
            == c[jc_index(pc2)],
{
}

} // verus!
